//! The mathematical model of the processor: a machine state record and the
//! specification-level transition functions that the executable instruction
//! routines are proved against.
use vstd::prelude::*;

use crate::instruction::{spec_bytes_required, spec_decode, AddressingMode, FullOpcode, Instruction, Opcode};
use crate::processor_status::{
    spec_get_flag, spec_set_flag, BREAK_FLAG_MASK, CARRY_FLAG_MASK, DECIMAL_FLAG_MASK,
    INTERRUPT_DISABLE_FLAG_MASK, NEGATIVE_FLAG_MASK, OVERFLOW_FLAG_MASK, ZERO_FLAG_MASK,
};
use crate::{IRQ_BRK_VECTOR_ADDRESS, NMI_VECTOR_ADDRESS, RESET_VECTOR_ADDRESS};

verus! {

/// The programmer-visible machine state: the six registers together with the
/// whole 16-bit address space as the mapper exposes it.
#[verifier::ext_equal]
pub ghost struct MachineState {
    pub a: u8,
    pub x: u8,
    pub y: u8,
    pub s: u8,
    pub pc: u16,
    pub p: u8,
    pub mem: Map<u16, u8>,
}

/// The 16-bit word formed from a little-endian byte pair.
pub open spec fn spec_pack_bytes(low_byte: u8, high_byte: u8) -> u16 {
    ((high_byte as u16) * 0x100 + low_byte) as u16
}

/// The little-endian byte pair of a 16-bit word: (low, high).
pub open spec fn spec_unpack_bytes(packed: u16) -> (u8, u8) {
    ((packed % 0x100) as u8, (packed / 0x100) as u8)
}

/// Addition modulo 2^8.
pub open spec fn wrap_add8(value: u8, amount: u8) -> u8 {
    value.wrapping_add(amount)
}

/// Subtraction modulo 2^8.
pub open spec fn wrap_sub8(value: u8, amount: u8) -> u8 {
    value.wrapping_sub(amount)
}

/// Addition modulo 2^16.
pub open spec fn wrap_add16(value: u16, amount: u16) -> u16 {
    value.wrapping_add(amount)
}

/// True iff bit 7 of `value` is set, i.e. `value` is negative in two's
/// complement.
pub open spec fn is_negative(value: u8) -> bool {
    value >> 7 != 0
}

/// `p` with the zero and negative flags set from the result byte `value`.
pub open spec fn spec_with_nz(p: u8, value: u8) -> u8 {
    spec_set_flag(spec_set_flag(p, ZERO_FLAG_MASK, value == 0), NEGATIVE_FLAG_MASK, is_negative(value))
}

/// The accumulator after `A + M + C`, modulo 2^8.
pub open spec fn adc_sum(a: u8, m: u8, c: bool) -> u8 {
    ((a + m + (if c { 1int } else { 0int })) % 0x100) as u8
}

/// The carry out of `A + M + C`: set iff the unsigned sum exceeds 255.
pub open spec fn adc_carry(a: u8, m: u8, c: bool) -> bool {
    a + m + (if c { 1int } else { 0int }) > 0xFF
}

/// The overflow out of `A + M + C`: set iff the operands share a sign bit
/// that differs from the result's.
pub open spec fn adc_overflow(a: u8, m: u8, c: bool) -> bool {
    a >> 7 == m >> 7 && adc_sum(a, m, c) >> 7 != a >> 7
}

/// The status word after ADC: carry, overflow, zero and negative from the sum.
pub open spec fn adc_p(p: u8, a: u8, m: u8, c: bool) -> u8 {
    spec_with_nz(
        spec_set_flag(
            spec_set_flag(p, CARRY_FLAG_MASK, adc_carry(a, m, c)),
            OVERFLOW_FLAG_MASK,
            adc_overflow(a, m, c),
        ),
        adc_sum(a, m, c),
    )
}

/// The difference register `R - M` modulo 2^8, as CMP/CPX/CPY compute it.
pub open spec fn cmp_diff(r: u8, m: u8) -> u8 {
    wrap_sub8(r, m)
}

/// The status word after a compare: carry iff no borrow, zero and negative
/// from the 8-bit difference.
pub open spec fn cmp_p(p: u8, r: u8, m: u8) -> u8 {
    spec_with_nz(spec_set_flag(p, CARRY_FLAG_MASK, r >= m), cmp_diff(r, m))
}

/// Subtraction modulo 2^16.
pub open spec fn wrap_sub16(value: u16, amount: u16) -> u16 {
    value.wrapping_sub(amount)
}

/// The page-zero address a zero-page indexed operand resolves to: the index
/// is added in 8 bits, so the address never leaves page zero.
pub open spec fn zp_indexed_addr(lo: u8, index: u8) -> u16 {
    wrap_add8(lo, index) as u16
}

/// The address an absolute indexed operand resolves to, wrapping in 16 bits.
pub open spec fn abs_indexed_addr(lo: u8, hi: u8, index: u8) -> u16 {
    wrap_add16(spec_pack_bytes(lo, hi), index as u16)
}

/// An absolute indexed access crosses a page iff the low-byte addition
/// carries out.
pub open spec fn abs_indexed_crossed(lo: u8, index: u8) -> bool {
    lo + index > 0xFF
}

/// The address a pre-indexed (indirect,X) operand resolves to: a 16-bit
/// pointer read from page zero at `lo + X`, with page-zero wraparound for
/// both pointer bytes.
pub open spec fn ind_x_addr(mem: Map<u16, u8>, lo: u8, x: u8) -> u16 {
    spec_pack_bytes(
        mem[wrap_add8(lo, x) as u16],
        mem[wrap_add8(wrap_add8(lo, x), 1) as u16],
    )
}

/// The address a post-indexed (indirect),Y operand resolves to: a 16-bit
/// pointer read from page zero at `lo` (high byte wrapping within page
/// zero), plus Y in 16 bits.
pub open spec fn ind_y_addr(mem: Map<u16, u8>, lo: u8, y: u8) -> u16 {
    wrap_add16(
        spec_pack_bytes(mem[lo as u16], mem[wrap_add8(lo, 1) as u16]),
        y as u16,
    )
}

/// A post-indexed access crosses a page iff the page-zero pointer itself
/// wraps or the low pointer byte plus Y carries out.
pub open spec fn ind_y_crossed(mem: Map<u16, u8>, lo: u8, y: u8) -> bool {
    lo == 0xFF || mem[lo as u16] + y > 0xFF
}

/// The effective address of an operand, for the modes that name one memory
/// cell. The remaining modes carry no address and yield an arbitrary zero.
pub open spec fn operand_addr(
    st: MachineState,
    mode: AddressingMode,
    lo: Option<u8>,
    hi: Option<u8>,
) -> u16 {
    match mode {
        AddressingMode::Zeropage => (lo->0) as u16,
        AddressingMode::ZeropageXIndexed => zp_indexed_addr(lo->0, st.x),
        AddressingMode::ZeropageYIndexed => zp_indexed_addr(lo->0, st.y),
        AddressingMode::Absolute => spec_pack_bytes(lo->0, hi->0),
        AddressingMode::AbsoluteXIndexed => abs_indexed_addr(lo->0, hi->0, st.x),
        AddressingMode::AbsoluteYIndexed => abs_indexed_addr(lo->0, hi->0, st.y),
        AddressingMode::IndirectXIndexed => ind_x_addr(st.mem, lo->0, st.x),
        AddressingMode::IndirectYIndexed => ind_y_addr(st.mem, lo->0, st.y),
        _ => 0,
    }
}

/// Whether resolving the operand crossed a page boundary, which costs one
/// extra cycle on indexed reads.
pub open spec fn operand_crossed(st: MachineState, mode: AddressingMode, lo: Option<u8>) -> bool {
    match mode {
        AddressingMode::AbsoluteXIndexed => abs_indexed_crossed(lo->0, st.x),
        AddressingMode::AbsoluteYIndexed => abs_indexed_crossed(lo->0, st.y),
        AddressingMode::IndirectYIndexed => ind_y_crossed(st.mem, lo->0, st.y),
        _ => false,
    }
}

/// The operand byte an instruction reads: the low operand byte itself in
/// immediate mode, otherwise the byte at the effective address.
pub open spec fn operand_value(
    st: MachineState,
    mode: AddressingMode,
    lo: Option<u8>,
    hi: Option<u8>,
) -> u8 {
    if mode == AddressingMode::Immediate {
        lo->0
    } else {
        st.mem[operand_addr(st, mode, lo, hi)]
    }
}

/// Cycle cost of an operand-reading instruction (ADC and friends, loads,
/// compares, BIT): indexed modes pay one extra cycle on a page crossing.
pub open spec fn read_cycles(mode: AddressingMode, crossed: bool) -> u8 {
    match mode {
        AddressingMode::Immediate => 2,
        AddressingMode::Zeropage => 3,
        AddressingMode::ZeropageXIndexed => 4,
        AddressingMode::ZeropageYIndexed => 4,
        AddressingMode::Absolute => 4,
        AddressingMode::AbsoluteXIndexed => if crossed { 5 } else { 4 },
        AddressingMode::AbsoluteYIndexed => if crossed { 5 } else { 4 },
        AddressingMode::IndirectXIndexed => 6,
        AddressingMode::IndirectYIndexed => if crossed { 6 } else { 5 },
        _ => 0,
    }
}

/// Cycle cost of a store: fixed per mode, never charged for page crossings.
pub open spec fn store_cycles(mode: AddressingMode) -> u8 {
    match mode {
        AddressingMode::Zeropage => 3,
        AddressingMode::ZeropageXIndexed => 4,
        AddressingMode::ZeropageYIndexed => 4,
        AddressingMode::Absolute => 4,
        AddressingMode::AbsoluteXIndexed => 5,
        AddressingMode::AbsoluteYIndexed => 5,
        AddressingMode::IndirectXIndexed => 6,
        AddressingMode::IndirectYIndexed => 6,
        _ => 0,
    }
}

/// Cycle cost of a read-modify-write instruction (shifts, INC, DEC): fixed
/// per mode.
pub open spec fn rmw_cycles(mode: AddressingMode) -> u8 {
    match mode {
        AddressingMode::Accumulator => 2,
        AddressingMode::Zeropage => 5,
        AddressingMode::ZeropageXIndexed => 6,
        AddressingMode::Absolute => 6,
        AddressingMode::AbsoluteXIndexed => 7,
        _ => 0,
    }
}

/// The modes accepted by the accumulator-operand instructions
/// (ADC, SBC, AND, ORA, EOR, LDA, CMP and the register compares).
pub open spec fn is_read_operand_mode(mode: AddressingMode) -> bool {
    ||| mode == AddressingMode::Immediate
    ||| mode == AddressingMode::Zeropage
    ||| mode == AddressingMode::ZeropageXIndexed
    ||| mode == AddressingMode::Absolute
    ||| mode == AddressingMode::AbsoluteXIndexed
    ||| mode == AddressingMode::AbsoluteYIndexed
    ||| mode == AddressingMode::IndirectXIndexed
    ||| mode == AddressingMode::IndirectYIndexed
}

/// The modes accepted by the shift and rotate instructions.
pub open spec fn is_shift_mode(mode: AddressingMode) -> bool {
    ||| mode == AddressingMode::Accumulator
    ||| mode == AddressingMode::Zeropage
    ||| mode == AddressingMode::ZeropageXIndexed
    ||| mode == AddressingMode::Absolute
    ||| mode == AddressingMode::AbsoluteXIndexed
}

/// The modes accepted by the memory increment and decrement instructions.
pub open spec fn is_inc_dec_mode(mode: AddressingMode) -> bool {
    ||| mode == AddressingMode::Zeropage
    ||| mode == AddressingMode::ZeropageXIndexed
    ||| mode == AddressingMode::Absolute
    ||| mode == AddressingMode::AbsoluteXIndexed
}

/// The operand bytes an addressing mode needs must be present: the low byte
/// for every 2- and 3-byte mode, the high byte for every 3-byte mode.
pub open spec fn operands_for_mode(mode: AddressingMode, lo: Option<u8>, hi: Option<u8>) -> bool {
    &&& (spec_bytes_required(mode) >= 2 ==> lo.is_some())
    &&& (spec_bytes_required(mode) == 3 ==> hi.is_some())
}

/// ADC: `A <- A + M + C`; carry, overflow, zero and negative from the sum.
pub open spec fn step_adc(
    st: MachineState,
    mode: AddressingMode,
    lo: Option<u8>,
    hi: Option<u8>,
) -> (MachineState, u8) {
    let m = operand_value(st, mode, lo, hi);
    let c = spec_get_flag(st.p, CARRY_FLAG_MASK);
    (
        MachineState { a: adc_sum(st.a, m, c), p: adc_p(st.p, st.a, m, c), ..st },
        read_cycles(mode, operand_crossed(st, mode, lo)),
    )
}

/// SBC: the same data path as ADC applied to the complemented operand, the
/// carry acting as "not borrow".
pub open spec fn step_sbc(
    st: MachineState,
    mode: AddressingMode,
    lo: Option<u8>,
    hi: Option<u8>,
) -> (MachineState, u8) {
    let m = (operand_value(st, mode, lo, hi) ^ 0xFF) as u8;
    let c = spec_get_flag(st.p, CARRY_FLAG_MASK);
    (
        MachineState { a: adc_sum(st.a, m, c), p: adc_p(st.p, st.a, m, c), ..st },
        read_cycles(mode, operand_crossed(st, mode, lo)),
    )
}

/// A compare against register value `r`: flags only, the register is
/// untouched.
pub open spec fn step_compare(
    st: MachineState,
    r: u8,
    mode: AddressingMode,
    lo: Option<u8>,
    hi: Option<u8>,
) -> (MachineState, u8) {
    let m = operand_value(st, mode, lo, hi);
    (
        MachineState { p: cmp_p(st.p, r, m), ..st },
        read_cycles(mode, operand_crossed(st, mode, lo)),
    )
}

/// A bitwise accumulator operation (AND, ORA, EOR) with result `result`:
/// the accumulator takes it and Z/N follow it.
pub open spec fn step_bitwise_a(
    st: MachineState,
    result: u8,
    mode: AddressingMode,
    lo: Option<u8>,
) -> (MachineState, u8) {
    (
        MachineState { a: result, p: spec_with_nz(st.p, result), ..st },
        read_cycles(mode, operand_crossed(st, mode, lo)),
    )
}

/// BIT: Z from `A AND M`, N from bit 7 of M, V from bit 6 of M; A untouched.
pub open spec fn step_bit(
    st: MachineState,
    mode: AddressingMode,
    lo: Option<u8>,
    hi: Option<u8>,
) -> (MachineState, u8) {
    let m = operand_value(st, mode, lo, hi);
    let p1 = spec_set_flag(st.p, ZERO_FLAG_MASK, st.a & m == 0);
    let p2 = spec_set_flag(p1, OVERFLOW_FLAG_MASK, m & OVERFLOW_FLAG_MASK != 0);
    let p3 = spec_set_flag(p2, NEGATIVE_FLAG_MASK, is_negative(m));
    (MachineState { p: p3, ..st }, read_cycles(mode, false))
}

/// A load into a register: Z/N follow the loaded byte.
pub open spec fn step_load(
    st: MachineState,
    loaded: MachineState,
    m: u8,
    mode: AddressingMode,
    lo: Option<u8>,
) -> (MachineState, u8) {
    (
        MachineState { p: spec_with_nz(st.p, m), ..loaded },
        read_cycles(mode, operand_crossed(st, mode, lo)),
    )
}

/// A store of `value` at the operand address: memory alone changes, flags
/// do not.
pub open spec fn step_store(
    st: MachineState,
    value: u8,
    mode: AddressingMode,
    lo: Option<u8>,
    hi: Option<u8>,
) -> (MachineState, u8) {
    (
        MachineState { mem: st.mem.insert(operand_addr(st, mode, lo, hi), value), ..st },
        store_cycles(mode),
    )
}

/// LDX and STX read the zero-page Y-indexed column out of the opcode slot
/// that the other instructions use for X indexing.
pub open spec fn x_transfer_mode(mode: AddressingMode) -> AddressingMode {
    if mode == AddressingMode::ZeropageXIndexed {
        AddressingMode::ZeropageYIndexed
    } else {
        mode
    }
}

/// The value after an arithmetic shift left, and the bit it drops into the
/// carry.
pub open spec fn asl_val(v: u8) -> u8 {
    v << 1
}

pub open spec fn asl_carry(v: u8) -> bool {
    v & 0x80 != 0
}

/// The value after a logical shift right, and the bit it drops into the
/// carry.
pub open spec fn lsr_val(v: u8) -> u8 {
    v >> 1
}

pub open spec fn lsr_carry(v: u8) -> bool {
    v & 0x01 != 0
}

/// Rotate left: the old carry enters at bit 0.
pub open spec fn rol_val(v: u8, c: bool) -> u8 {
    (v << 1) | (if c { 1u8 } else { 0u8 })
}

/// Rotate right: the old carry enters at bit 7.
pub open spec fn ror_val(v: u8, c: bool) -> u8 {
    (v >> 1) | ((if c { 1u8 } else { 0u8 }) << 7)
}

/// A shift or rotate in accumulator mode: carry takes the dropped bit, Z/N
/// follow the result. 2 cycles.
pub open spec fn step_shift_acc(st: MachineState, result: u8, carry_out: bool) -> (MachineState, u8) {
    (
        MachineState {
            a: result,
            p: spec_with_nz(spec_set_flag(st.p, CARRY_FLAG_MASK, carry_out), result),
            ..st
        },
        2,
    )
}

/// A shift or rotate on a memory cell: read-modify-write at the operand
/// address.
pub open spec fn step_shift_mem(
    st: MachineState,
    result: u8,
    carry_out: bool,
    mode: AddressingMode,
    lo: Option<u8>,
    hi: Option<u8>,
) -> (MachineState, u8) {
    (
        MachineState {
            mem: st.mem.insert(operand_addr(st, mode, lo, hi), result),
            p: spec_with_nz(spec_set_flag(st.p, CARRY_FLAG_MASK, carry_out), result),
            ..st
        },
        rmw_cycles(mode),
    )
}

/// INC/DEC on a memory cell: read-modify-write with Z/N from the result and
/// no carry.
pub open spec fn step_mem_nz(
    st: MachineState,
    result: u8,
    mode: AddressingMode,
    lo: Option<u8>,
    hi: Option<u8>,
) -> (MachineState, u8) {
    (
        MachineState {
            mem: st.mem.insert(operand_addr(st, mode, lo, hi), result),
            p: spec_with_nz(st.p, result),
            ..st
        },
        rmw_cycles(mode),
    )
}

/// The branch target: the signed 8-bit offset applied to the program
/// counter after it has advanced past the branch instruction.
pub open spec fn branch_target(pc: u16, off: u8) -> u16 {
    if off < 0x80 {
        wrap_add16(pc, off as u16)
    } else {
        wrap_sub16(pc, (0x100 - off) as u16)
    }
}

/// A conditional branch: not taken costs 2 cycles, taken costs 3, taken
/// across a page boundary costs 4.
pub open spec fn step_branch(st: MachineState, taken: bool, off: u8) -> (MachineState, u8) {
    if taken {
        let target = branch_target(st.pc, off);
        (
            MachineState { pc: target, ..st },
            if target >> 8 != st.pc >> 8 { 4 } else { 3 },
        )
    } else {
        (st, 2)
    }
}

/// The address the high byte of an indirect JMP pointer is read from:
/// when the pointer's low byte is 0xFF the read wraps within the same page
/// instead of carrying into the next one.
pub open spec fn indirect_jmp_high_addr(ptr: u16) -> u16 {
    if ptr % 0x100 == 0xFF {
        (ptr - 0xFF) as u16
    } else {
        (ptr + 1) as u16
    }
}

/// The target of an indirect JMP, with the page-wrap quirk.
pub open spec fn indirect_jmp_target(mem: Map<u16, u8>, ptr: u16) -> u16 {
    spec_pack_bytes(mem[ptr], mem[indirect_jmp_high_addr(ptr)])
}

/// JMP: absolute sets PC from the operand in 3 cycles; indirect reads the
/// target through the pointer in 5, applying the page-wrap quirk.
pub open spec fn step_jmp(
    st: MachineState,
    mode: AddressingMode,
    lo: Option<u8>,
    hi: Option<u8>,
) -> (MachineState, u8) {
    if mode == AddressingMode::Absolute {
        (MachineState { pc: spec_pack_bytes(lo->0, hi->0), ..st }, 3)
    } else {
        let ptr = spec_pack_bytes(lo->0, hi->0);
        (MachineState { pc: indirect_jmp_target(st.mem, ptr), ..st }, 5)
    }
}

/// The address in page one that the stack pointer names.
pub open spec fn stack_addr(s: u8) -> u16 {
    (0x0100 + s) as u16
}

/// A push: the byte lands at the stack address and S decrements, wrapping.
pub open spec fn spec_push(st: MachineState, byte: u8) -> MachineState {
    MachineState { mem: st.mem.insert(stack_addr(st.s), byte), s: wrap_sub8(st.s, 1), ..st }
}

/// The byte the next pop returns: S pre-increments, wrapping.
pub open spec fn popped_value(st: MachineState) -> u8 {
    st.mem[stack_addr(wrap_add8(st.s, 1))]
}

/// A pop moves only the stack pointer; the cell keeps its byte.
pub open spec fn spec_pop(st: MachineState) -> MachineState {
    MachineState { s: wrap_add8(st.s, 1), ..st }
}

/// JSR: pushes the return address minus one, high byte first, then jumps.
/// 6 cycles.
pub open spec fn step_jsr(st: MachineState, lo: Option<u8>, hi: Option<u8>) -> (MachineState, u8) {
    let ret = wrap_sub16(st.pc, 1);
    let st1 = spec_push(st, spec_unpack_bytes(ret).1);
    let st2 = spec_push(st1, spec_unpack_bytes(ret).0);
    (MachineState { pc: spec_pack_bytes(lo->0, hi->0), ..st2 }, 6)
}

/// RTS: pops low then high and resumes one past the recorded address.
/// 6 cycles.
pub open spec fn step_rts(st: MachineState) -> (MachineState, u8) {
    let lo = popped_value(st);
    let st1 = spec_pop(st);
    let hi = popped_value(st1);
    let st2 = spec_pop(st1);
    (MachineState { pc: wrap_add16(spec_pack_bytes(lo, hi), 1), ..st2 }, 6)
}

/// PHA: pushes the accumulator. 3 cycles.
pub open spec fn step_pha(st: MachineState) -> (MachineState, u8) {
    (spec_push(st, st.a), 3)
}

/// PHP: pushes P with the break bit forced set; the live break bit ends
/// clear. 3 cycles.
pub open spec fn step_php(st: MachineState) -> (MachineState, u8) {
    let pushed = spec_set_flag(st.p, BREAK_FLAG_MASK, true);
    let st1 = spec_push(st, pushed);
    (MachineState { p: spec_set_flag(pushed, BREAK_FLAG_MASK, false), ..st1 }, 3)
}

/// PLA: pops into the accumulator; Z/N follow it. 4 cycles.
pub open spec fn step_pla(st: MachineState) -> (MachineState, u8) {
    let v = popped_value(st);
    (MachineState { a: v, p: spec_with_nz(st.p, v), ..spec_pop(st) }, 4)
}

/// The status word an incoming copy `popped` produces: bits 4 and 5 keep
/// their current values, the rest come from the copy.
pub open spec fn restored_p(current: u8, popped: u8) -> u8 {
    ((popped & 0xCF) | (current & 0x30)) as u8
}

/// PLP: pops into P, preserving the break and unused bits. 4 cycles.
pub open spec fn step_plp(st: MachineState) -> (MachineState, u8) {
    (MachineState { p: restored_p(st.p, popped_value(st)), ..spec_pop(st) }, 4)
}

/// RTI: pops P (preserving bits 4 and 5), then PC low, then PC high.
/// 6 cycles.
pub open spec fn step_rti(st: MachineState) -> (MachineState, u8) {
    let p = restored_p(st.p, popped_value(st));
    let st1 = spec_pop(st);
    let lo = popped_value(st1);
    let st2 = spec_pop(st1);
    let hi = popped_value(st2);
    let st3 = spec_pop(st2);
    (MachineState { p: p, pc: spec_pack_bytes(lo, hi), ..st3 }, 6)
}

/// What triggered the shared BRK/interrupt routine, which decides the
/// vector and the break-bit handling.
#[derive(Clone, Copy, Debug, PartialEq, Eq, Structural)]
pub enum InterruptState {
    /// A software BRK instruction.
    Inactive,
    /// The reset line.
    Reset,
    /// A maskable interrupt request.
    MaskableInterrupt,
    /// A non-maskable interrupt.
    NonMaskableInterrupt,
}

/// The vector each interrupt source loads PC from.
pub open spec fn vector_address(kind: InterruptState) -> u16 {
    match kind {
        InterruptState::Inactive => IRQ_BRK_VECTOR_ADDRESS,
        InterruptState::MaskableInterrupt => IRQ_BRK_VECTOR_ADDRESS,
        InterruptState::Reset => RESET_VECTOR_ADDRESS,
        InterruptState::NonMaskableInterrupt => NMI_VECTOR_ADDRESS,
    }
}

/// BRK and hardware interrupts share one routine: push PC high then low,
/// push P (with the break bit forced set for BRK and reset, as-is for the
/// hardware interrupts), set the interrupt-disable bit, and load PC from
/// the vector. Vector bytes are read after the pushes. 7 cycles.
pub open spec fn step_interrupt(st: MachineState, kind: InterruptState) -> (MachineState, u8) {
    let pc_parts = spec_unpack_bytes(st.pc);
    let st1 = spec_push(st, pc_parts.1);
    let st2 = spec_push(st1, pc_parts.0);
    let software = kind == InterruptState::Inactive || kind == InterruptState::Reset;
    let pushed_p = if software { spec_set_flag(st.p, BREAK_FLAG_MASK, true) } else { st.p };
    let st3 = spec_push(st2, pushed_p);
    let p_after = spec_set_flag(
        if software { spec_set_flag(pushed_p, BREAK_FLAG_MASK, false) } else { pushed_p },
        INTERRUPT_DISABLE_FLAG_MASK,
        true,
    );
    let vec = vector_address(kind);
    (
        MachineState {
            p: p_after,
            pc: spec_pack_bytes(st3.mem[vec], st3.mem[(vec + 1) as u16]),
            ..st3
        },
        7,
    )
}

/// A register write with Z/N from the written byte, costing 2 cycles; the
/// shape of the implied register instructions.
pub open spec fn reg_nz(st: MachineState, with_reg: MachineState, value: u8) -> (MachineState, u8) {
    (MachineState { p: spec_with_nz(st.p, value), ..with_reg }, 2)
}

/// One instruction's effect on the machine state, with its cycle cost.
pub open spec fn step_instr(
    st: MachineState,
    op: Opcode,
    mode: AddressingMode,
    lo: Option<u8>,
    hi: Option<u8>,
) -> (MachineState, u8) {
    match op {
        Opcode::ADC => step_adc(st, mode, lo, hi),
        Opcode::SBC => step_sbc(st, mode, lo, hi),
        Opcode::AND => step_bitwise_a(st, (st.a & operand_value(st, mode, lo, hi)) as u8, mode, lo),
        Opcode::ORA => step_bitwise_a(st, (st.a | operand_value(st, mode, lo, hi)) as u8, mode, lo),
        Opcode::EOR => step_bitwise_a(st, (st.a ^ operand_value(st, mode, lo, hi)) as u8, mode, lo),
        Opcode::BIT => step_bit(st, mode, lo, hi),
        Opcode::CMP => step_compare(st, st.a, mode, lo, hi),
        Opcode::CPX => step_compare(st, st.x, mode, lo, hi),
        Opcode::CPY => step_compare(st, st.y, mode, lo, hi),
        Opcode::ASL => if mode == AddressingMode::Accumulator {
            step_shift_acc(st, asl_val(st.a), asl_carry(st.a))
        } else {
            let v = operand_value(st, mode, lo, hi);
            step_shift_mem(st, asl_val(v), asl_carry(v), mode, lo, hi)
        },
        Opcode::LSR => if mode == AddressingMode::Accumulator {
            step_shift_acc(st, lsr_val(st.a), lsr_carry(st.a))
        } else {
            let v = operand_value(st, mode, lo, hi);
            step_shift_mem(st, lsr_val(v), lsr_carry(v), mode, lo, hi)
        },
        Opcode::ROL => {
            let c = spec_get_flag(st.p, CARRY_FLAG_MASK);
            if mode == AddressingMode::Accumulator {
                step_shift_acc(st, rol_val(st.a, c), asl_carry(st.a))
            } else {
                let v = operand_value(st, mode, lo, hi);
                step_shift_mem(st, rol_val(v, c), asl_carry(v), mode, lo, hi)
            }
        },
        Opcode::ROR => {
            let c = spec_get_flag(st.p, CARRY_FLAG_MASK);
            if mode == AddressingMode::Accumulator {
                step_shift_acc(st, ror_val(st.a, c), lsr_carry(st.a))
            } else {
                let v = operand_value(st, mode, lo, hi);
                step_shift_mem(st, ror_val(v, c), lsr_carry(v), mode, lo, hi)
            }
        },
        Opcode::INC => {
            let v = wrap_add8(operand_value(st, mode, lo, hi), 1);
            step_mem_nz(st, v, mode, lo, hi)
        },
        Opcode::DEC => {
            let v = wrap_sub8(operand_value(st, mode, lo, hi), 1);
            step_mem_nz(st, v, mode, lo, hi)
        },
        Opcode::INX => reg_nz(st, MachineState { x: wrap_add8(st.x, 1), ..st }, wrap_add8(st.x, 1)),
        Opcode::INY => reg_nz(st, MachineState { y: wrap_add8(st.y, 1), ..st }, wrap_add8(st.y, 1)),
        Opcode::DEX => reg_nz(st, MachineState { x: wrap_sub8(st.x, 1), ..st }, wrap_sub8(st.x, 1)),
        Opcode::DEY => reg_nz(st, MachineState { y: wrap_sub8(st.y, 1), ..st }, wrap_sub8(st.y, 1)),
        Opcode::LDA => {
            let m = operand_value(st, mode, lo, hi);
            step_load(st, MachineState { a: m, ..st }, m, mode, lo)
        },
        Opcode::LDX => {
            let mode2 = x_transfer_mode(mode);
            let m = operand_value(st, mode2, lo, hi);
            step_load(st, MachineState { x: m, ..st }, m, mode2, lo)
        },
        Opcode::LDY => {
            let m = operand_value(st, mode, lo, hi);
            step_load(st, MachineState { y: m, ..st }, m, mode, lo)
        },
        Opcode::STA => step_store(st, st.a, mode, lo, hi),
        Opcode::STX => step_store(st, st.x, x_transfer_mode(mode), lo, hi),
        Opcode::STY => step_store(st, st.y, mode, lo, hi),
        Opcode::TAX => reg_nz(st, MachineState { x: st.a, ..st }, st.a),
        Opcode::TAY => reg_nz(st, MachineState { y: st.a, ..st }, st.a),
        Opcode::TXA => reg_nz(st, MachineState { a: st.x, ..st }, st.x),
        Opcode::TYA => reg_nz(st, MachineState { a: st.y, ..st }, st.y),
        Opcode::TSX => reg_nz(st, MachineState { x: st.s, ..st }, st.s),
        Opcode::TXS => (MachineState { s: st.x, ..st }, 2),
        Opcode::BCC => step_branch(st, !spec_get_flag(st.p, CARRY_FLAG_MASK), lo->0),
        Opcode::BCS => step_branch(st, spec_get_flag(st.p, CARRY_FLAG_MASK), lo->0),
        Opcode::BEQ => step_branch(st, spec_get_flag(st.p, ZERO_FLAG_MASK), lo->0),
        Opcode::BNE => step_branch(st, !spec_get_flag(st.p, ZERO_FLAG_MASK), lo->0),
        Opcode::BMI => step_branch(st, spec_get_flag(st.p, NEGATIVE_FLAG_MASK), lo->0),
        Opcode::BPL => step_branch(st, !spec_get_flag(st.p, NEGATIVE_FLAG_MASK), lo->0),
        Opcode::BVC => step_branch(st, !spec_get_flag(st.p, OVERFLOW_FLAG_MASK), lo->0),
        Opcode::BVS => step_branch(st, spec_get_flag(st.p, OVERFLOW_FLAG_MASK), lo->0),
        Opcode::JMP => step_jmp(st, mode, lo, hi),
        Opcode::JSR => step_jsr(st, lo, hi),
        Opcode::RTS => step_rts(st),
        Opcode::PHA => step_pha(st),
        Opcode::PHP => step_php(st),
        Opcode::PLA => step_pla(st),
        Opcode::PLP => step_plp(st),
        Opcode::BRK => step_interrupt(st, InterruptState::Inactive),
        Opcode::RTI => step_rti(st),
        Opcode::CLC => (MachineState { p: spec_set_flag(st.p, CARRY_FLAG_MASK, false), ..st }, 2),
        Opcode::SEC => (MachineState { p: spec_set_flag(st.p, CARRY_FLAG_MASK, true), ..st }, 2),
        Opcode::CLI => (
            MachineState { p: spec_set_flag(st.p, INTERRUPT_DISABLE_FLAG_MASK, false), ..st },
            2,
        ),
        Opcode::SEI => (
            MachineState { p: spec_set_flag(st.p, INTERRUPT_DISABLE_FLAG_MASK, true), ..st },
            2,
        ),
        Opcode::CLD => (MachineState { p: spec_set_flag(st.p, DECIMAL_FLAG_MASK, false), ..st }, 2),
        Opcode::SED => (MachineState { p: spec_set_flag(st.p, DECIMAL_FLAG_MASK, true), ..st }, 2),
        Opcode::CLV => (MachineState { p: spec_set_flag(st.p, OVERFLOW_FLAG_MASK, false), ..st }, 2),
        Opcode::NOP => (st, 2),
    }
}

/// The addressing modes each instruction's execution routine accepts; the
/// decoder only ever produces a subset of these.
pub open spec fn instr_modes_ok(op: Opcode, mode: AddressingMode) -> bool {
    match op {
        Opcode::ADC | Opcode::SBC | Opcode::AND | Opcode::ORA | Opcode::EOR | Opcode::LDA
        | Opcode::CMP | Opcode::CPX | Opcode::CPY => is_read_operand_mode(mode),
        Opcode::ASL | Opcode::LSR | Opcode::ROL | Opcode::ROR => is_shift_mode(mode),
        Opcode::INC | Opcode::DEC => is_inc_dec_mode(mode),
        Opcode::LDX => {
            ||| mode == AddressingMode::Immediate
            ||| mode == AddressingMode::Zeropage
            ||| mode == AddressingMode::ZeropageXIndexed
            ||| mode == AddressingMode::ZeropageYIndexed
            ||| mode == AddressingMode::Absolute
            ||| mode == AddressingMode::AbsoluteYIndexed
        },
        Opcode::LDY => {
            ||| mode == AddressingMode::Immediate
            ||| mode == AddressingMode::Zeropage
            ||| mode == AddressingMode::ZeropageXIndexed
            ||| mode == AddressingMode::Absolute
            ||| mode == AddressingMode::AbsoluteXIndexed
        },
        Opcode::STA => {
            ||| mode == AddressingMode::Zeropage
            ||| mode == AddressingMode::ZeropageXIndexed
            ||| mode == AddressingMode::Absolute
            ||| mode == AddressingMode::AbsoluteXIndexed
            ||| mode == AddressingMode::AbsoluteYIndexed
            ||| mode == AddressingMode::IndirectXIndexed
            ||| mode == AddressingMode::IndirectYIndexed
        },
        Opcode::STX => {
            ||| mode == AddressingMode::Zeropage
            ||| mode == AddressingMode::ZeropageXIndexed
            ||| mode == AddressingMode::ZeropageYIndexed
            ||| mode == AddressingMode::Absolute
        },
        Opcode::STY => {
            ||| mode == AddressingMode::Zeropage
            ||| mode == AddressingMode::ZeropageXIndexed
            ||| mode == AddressingMode::Absolute
        },
        Opcode::BIT => mode == AddressingMode::Zeropage || mode == AddressingMode::Absolute,
        Opcode::JMP => mode == AddressingMode::Absolute || mode == AddressingMode::Indirect,
        Opcode::JSR => mode == AddressingMode::Absolute,
        Opcode::BCC | Opcode::BCS | Opcode::BEQ | Opcode::BNE | Opcode::BMI | Opcode::BPL
        | Opcode::BVC | Opcode::BVS => mode == AddressingMode::Relative,
        _ => true,
    }
}

/// A fetched instruction the dispatcher can execute without meeting an
/// invalid addressing mode or a missing operand byte.
pub open spec fn instr_wf(i: Instruction) -> bool {
    instr_modes_ok(i.opcode, i.addressing_mode)
        && operands_for_mode(i.addressing_mode, i.low_byte, i.high_byte)
}

/// Everything the decoder produces is fit for the dispatcher: the decoded
/// addressing mode is one the instruction's routine accepts, and a decoded
/// BRK is always implied.
pub proof fn lemma_decode_wf(byte: u8)
    ensures
        spec_decode(byte) matches Some(fo) ==> instr_modes_ok(fo.opcode, fo.addressing_mode),
        spec_decode(byte) matches Some(fo) ==> (fo.opcode == Opcode::BRK
            ==> fo.addressing_mode == AddressingMode::Implied),
{
}

/// A fetched instruction always satisfies the dispatcher's precondition:
/// its mode is accepted and its operand bytes are present.
pub proof fn lemma_fetched_wf(st: MachineState)
    ensures
        spec_fetch(st) matches Some(pair) ==> instr_wf(pair.0),
{
    lemma_decode_wf(st.mem[st.pc]);
}

/// The reset entry clears C, Z, D, V, N and B and sets I before running
/// the shared interrupt routine.
pub open spec fn reset_flags(p: u8) -> u8 {
    spec_set_flag(
        spec_set_flag(
            spec_set_flag(
                spec_set_flag(
                    spec_set_flag(
                        spec_set_flag(
                            spec_set_flag(p, CARRY_FLAG_MASK, false),
                            ZERO_FLAG_MASK,
                            false,
                        ),
                        INTERRUPT_DISABLE_FLAG_MASK,
                        true,
                    ),
                    DECIMAL_FLAG_MASK,
                    false,
                ),
                OVERFLOW_FLAG_MASK,
                false,
            ),
            NEGATIVE_FLAG_MASK,
            false,
        ),
        BREAK_FLAG_MASK,
        false,
    )
}

/// The length the fetch stage consumes: the mode's byte count, plus the
/// padding byte that follows a BRK opcode.
pub open spec fn instr_len(fo: FullOpcode) -> u16 {
    if fo.opcode == Opcode::BRK {
        (spec_bytes_required(fo.addressing_mode) + 1) as u16
    } else {
        spec_bytes_required(fo.addressing_mode)
    }
}

/// The fetch stage: decode the byte at PC, read the operand bytes after it
/// (with 16-bit wraparound), and advance PC past the instruction. An
/// illegal opcode fetches nothing and moves nothing.
pub open spec fn spec_fetch(st: MachineState) -> Option<(Instruction, MachineState)> {
    match spec_decode(st.mem[st.pc]) {
        None => None,
        Some(fo) => {
            let len = instr_len(fo);
            let lo = if len >= 2 { Some(st.mem[wrap_add16(st.pc, 1)]) } else { None };
            let hi = if len == 3 { Some(st.mem[wrap_add16(st.pc, 2)]) } else { None };
            Some(
                (
                    Instruction {
                        opcode: fo.opcode,
                        addressing_mode: fo.addressing_mode,
                        low_byte: lo,
                        high_byte: hi,
                    },
                    MachineState { pc: wrap_add16(st.pc, len), ..st },
                ),
            )
        },
    }
}

/// One full processor step: a pending non-maskable interrupt wins, then a
/// maskable one if the interrupt-disable bit is clear, otherwise fetch and
/// execute. Yields the new machine state, the new interrupt lines (a
/// serviced line is acknowledged by clearing it) and the cycle count.
pub open spec fn spec_cycle(
    st: MachineState,
    nmi: bool,
    irq: bool,
) -> (MachineState, bool, bool, u8) {
    if nmi {
        let r = step_interrupt(st, InterruptState::NonMaskableInterrupt);
        (r.0, false, irq, r.1)
    } else if irq && !spec_get_flag(st.p, INTERRUPT_DISABLE_FLAG_MASK) {
        let r = step_interrupt(st, InterruptState::MaskableInterrupt);
        (r.0, nmi, false, r.1)
    } else {
        match spec_fetch(st) {
            Some(fetched) => {
                let r = step_instr(
                    fetched.1,
                    fetched.0.opcode,
                    fetched.0.addressing_mode,
                    fetched.0.low_byte,
                    fetched.0.high_byte,
                );
                (r.0, nmi, irq, r.1)
            },
            None => (st, nmi, irq, 0),
        }
    }
}

} // verus!
