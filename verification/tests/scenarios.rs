//! End-to-end scenarios driven through `cycle()`: arithmetic flags, the
//! indirect-JMP quirk, JSR/RTS, branch timing, interrupt dispatch, stack
//! wraparound and snapshot round trips.
use nes6502::harness::{InterruptsContainer, Memory};
use nes6502::{Cpu, CpuState, Interrupts, Mapper};

/// A CPU over zeroed RAM with the given cells pre-loaded.
fn cpu_with_ram(cells: &[(u16, u8)]) -> Cpu<Memory, InterruptsContainer> {
    let mut memory = Memory::new();
    for &(address, value) in cells {
        memory.write(address, value);
    }
    Cpu::new(memory, InterruptsContainer::new())
}

#[test]
fn adc_immediate_sets_overflow_and_negative() {
    // ADC #$50 with A=$50: positive + positive gives a negative result,
    // so V and N set, C and Z clear.
    let mut cpu = cpu_with_ram(&[(0x0000, 0x69), (0x0001, 0x50)]);
    cpu.accumulator = 0x50;

    let cycles = cpu.cycle();

    assert_eq!(cycles, 2);
    assert_eq!(cpu.accumulator, 0xA0);
    assert!(!cpu.processor_status.carry_flag());
    assert!(!cpu.processor_status.zero_flag());
    assert!(cpu.processor_status.negative_flag());
    assert!(cpu.processor_status.overflow_flag());
}

#[test]
fn indirect_jmp_wraps_within_page() {
    // JMP ($30FF): the low target byte comes from $30FF, the high byte
    // from $3000 -- not from $3100.
    let mut cpu = cpu_with_ram(&[
        (0x1000, 0x6C),
        (0x1001, 0xFF),
        (0x1002, 0x30),
        (0x30FF, 0x80),
        (0x3000, 0x40),
        (0x3100, 0x50),
    ]);
    cpu.program_counter = 0x1000;

    let cycles = cpu.cycle();

    assert_eq!(cycles, 5);
    assert_eq!(cpu.program_counter, 0x4080);
}

#[test]
fn jsr_then_rts_round_trip() {
    // JSR $1234 pushes $80/$02 (the return address minus one) and RTS
    // resumes right after the call.
    let mut cpu = cpu_with_ram(&[
        (0x8000, 0x20),
        (0x8001, 0x34),
        (0x8002, 0x12),
        (0x1234, 0x60),
    ]);
    cpu.program_counter = 0x8000;
    cpu.stack_pointer = 0xFF;

    let first = cpu.cycle();
    assert_eq!(first, 6);
    assert_eq!(cpu.program_counter, 0x1234);
    assert_eq!(cpu.stack_pointer, 0xFD);
    assert_eq!(cpu.read(0x01FF), 0x80);
    assert_eq!(cpu.read(0x01FE), 0x02);

    let second = cpu.cycle();
    assert_eq!(second, 6);
    assert_eq!(cpu.program_counter, 0x8003);
    assert_eq!(cpu.stack_pointer, 0xFF);

    assert_eq!(first as u32 + second as u32, 12);
}

#[test]
fn branch_taken_across_page_costs_four() {
    // BNE +$10 at $00FD: taken, and the post-fetch PC $00FF moves to
    // $010F, crossing into page one.
    let mut cpu = cpu_with_ram(&[(0x00FD, 0xD0), (0x00FE, 0x10)]);
    cpu.program_counter = 0x00FD;

    let cycles = cpu.cycle();

    assert_eq!(cycles, 4);
    assert_eq!(cpu.program_counter, 0x010F);
}

#[test]
fn branch_taken_same_page_costs_three() {
    let mut cpu = cpu_with_ram(&[(0x0200, 0xD0), (0x0201, 0x10)]);
    cpu.program_counter = 0x0200;

    let cycles = cpu.cycle();

    assert_eq!(cycles, 3);
    assert_eq!(cpu.program_counter, 0x0212);
}

#[test]
fn branch_not_taken_costs_two() {
    let mut cpu = cpu_with_ram(&[(0x0200, 0xD0), (0x0201, 0x10)]);
    cpu.program_counter = 0x0200;
    cpu.processor_status.set_zero_flag();

    let cycles = cpu.cycle();

    assert_eq!(cycles, 2);
    assert_eq!(cpu.program_counter, 0x0202);
}

#[test]
fn branch_backwards_offset_is_signed() {
    // BEQ -$02 with Z set: $0202 + (-2) = $0200.
    let mut cpu = cpu_with_ram(&[(0x0200, 0xF0), (0x0201, 0xFE)]);
    cpu.program_counter = 0x0200;
    cpu.processor_status.set_zero_flag();

    let cycles = cpu.cycle();

    assert_eq!(cycles, 3);
    assert_eq!(cpu.program_counter, 0x0200);
}

#[test]
fn maskable_interrupt_dispatch_with_interrupts_enabled() {
    // An asserted IRQ with I clear: three bytes pushed (PC high, PC low,
    // P with B clear), PC loaded from $FFFE/$FFFF, I set, line cleared.
    let mut memory = Memory::new();
    memory.write(0xFFFE, 0x00);
    memory.write(0xFFFF, 0xC0);
    let interrupts = InterruptsContainer {
        interrupt: true,
        non_maskable_interrupt: false,
    };
    let mut cpu = Cpu::new(memory, interrupts);
    cpu.program_counter = 0x1234;
    cpu.stack_pointer = 0xFF;

    let cycles = cpu.cycle();

    assert_eq!(cycles, 7);
    assert_eq!(cpu.program_counter, 0xC000);
    assert!(cpu.processor_status.interrupt_disable_flag());
    assert!(!cpu.processor_status.break_flag());
    assert_eq!(cpu.stack_pointer, 0xFC);
    assert_eq!(cpu.read(0x01FF), 0x12);
    assert_eq!(cpu.read(0x01FE), 0x34);
    // The pushed status copy has B clear for a hardware interrupt.
    assert_eq!(cpu.read(0x01FD) & 0b0001_0000, 0);
    assert!(!cpu.interrupts.interrupt_state());
}

#[test]
fn masked_interrupt_is_ignored() {
    // With I set, an asserted IRQ is not serviced: the instruction at PC
    // runs instead and the line stays up.
    let mut cpu = cpu_with_ram(&[(0x0000, 0xEA)]);
    cpu.processor_status.set_interrupt_disable_flag();
    cpu.interrupts.set_interrupt_state(true);

    let cycles = cpu.cycle();

    assert_eq!(cycles, 2);
    assert_eq!(cpu.program_counter, 0x0001);
    assert!(cpu.interrupts.interrupt_state());
}

#[test]
fn non_maskable_interrupt_wins_and_uses_fffa() {
    let mut memory = Memory::new();
    memory.write(0xFFFA, 0x77);
    memory.write(0xFFFB, 0x88);
    memory.write(0xFFFE, 0x00);
    memory.write(0xFFFF, 0xC0);
    let interrupts = InterruptsContainer {
        interrupt: true,
        non_maskable_interrupt: true,
    };
    let mut cpu = Cpu::new(memory, interrupts);
    // Even with interrupts disabled, the NMI is serviced.
    cpu.processor_status.set_interrupt_disable_flag();

    let cycles = cpu.cycle();

    assert_eq!(cycles, 7);
    assert_eq!(cpu.program_counter, 0x8877);
    assert!(!cpu.interrupts.non_maskable_interrupt_state());
    assert!(cpu.interrupts.interrupt_state());
}

#[test]
fn initialize_runs_reset_vector() {
    let mut memory = Memory::new();
    memory.write(0xFFFC, 0x00);
    memory.write(0xFFFD, 0x80);
    let mut cpu = Cpu::new(memory, InterruptsContainer::new());
    assert!(!cpu.initialized());

    cpu.initialize();

    assert!(cpu.initialized());
    assert_eq!(cpu.program_counter, 0x8000);
    assert!(cpu.processor_status.interrupt_disable_flag());
}

#[test]
fn brk_vectors_through_fffe_and_pushes_b_set() {
    let mut cpu = cpu_with_ram(&[(0xFFFE, 0xAA), (0xFFFF, 0xBB)]);
    cpu.program_counter = 0x0300;
    cpu.stack_pointer = 0xFF;

    let cycles = cpu.cycle();

    assert_eq!(cycles, 7);
    assert_eq!(cpu.program_counter, 0xBBAA);
    // BRK advances PC by 2 (opcode plus padding byte) before pushing.
    assert_eq!(cpu.read(0x01FF), 0x03);
    assert_eq!(cpu.read(0x01FE), 0x02);
    // The pushed status copy has B set for a software break...
    assert_ne!(cpu.read(0x01FD) & 0b0001_0000, 0);
    // ...but the live break flag ends up clear.
    assert!(!cpu.processor_status.break_flag());
    assert!(cpu.processor_status.interrupt_disable_flag());
}

#[test]
fn plp_preserves_break_and_unused_bits() {
    // P starts as $30 (B and unused set); the popped byte is $00; PLP
    // keeps bits 4 and 5, so P stays $30.
    let mut cpu = cpu_with_ram(&[(0x0400, 0x28)]);
    cpu.program_counter = 0x0400;
    cpu.stack_pointer = 0xFD;
    cpu.processor_status = nes6502::processor_status::ProcessorStatus(0b0011_0000);

    let cycles = cpu.cycle();

    assert_eq!(cycles, 4);
    assert_eq!(cpu.stack_pointer, 0xFE);
    assert_eq!(cpu.processor_status.0, 0b0011_0000);
}

#[test]
fn stack_wraps_through_256_pushes_and_pops() {
    // 256 PHA then 256 PLA: S and A return to their starting values and
    // nothing outside the stack page moves.
    let mut cells: Vec<(u16, u8)> = Vec::new();
    for i in 0..256u16 {
        cells.push((0x4000 + i, 0x48));
        cells.push((0x4100 + i, 0x68));
    }
    cells.push((0x0055, 0x99));
    let mut cpu = cpu_with_ram(&cells);
    cpu.program_counter = 0x4000;
    cpu.stack_pointer = 0x80;
    cpu.accumulator = 0x5A;

    let mut total: u32 = 0;
    for _ in 0..512 {
        total += cpu.cycle() as u32;
    }

    assert_eq!(cpu.stack_pointer, 0x80);
    assert_eq!(cpu.accumulator, 0x5A);
    assert_eq!(cpu.program_counter, 0x4200);
    assert_eq!(total, 256 * 3 + 256 * 4);
    // Memory outside the stack page is untouched.
    assert_eq!(cpu.read(0x0055), 0x99);
    assert_eq!(cpu.read(0x4000), 0x48);
    assert_eq!(cpu.read(0x0000), 0x00);
    // The stack page itself is full of copies of A.
    assert_eq!(cpu.read(0x0100), 0x5A);
    assert_eq!(cpu.read(0x01FF), 0x5A);
}

#[test]
fn snapshot_round_trip_normalizes_ram() {
    // An unsorted sparse RAM listing with a zero-valued entry: the state
    // read back is sorted with the zero entry dropped, and compares equal
    // to the original under snapshot equality.
    let state = CpuState {
        pc: 0x8000,
        s: 0xFF,
        a: 1,
        x: 2,
        y: 3,
        p: 0b0010_0100,
        ram: vec![vec![0x0010, 0x05], vec![0x0002, 0x07], vec![0x0300, 0x00]],
    };
    let cpu = Cpu::from_state(
        state.clone(),
        Memory::new(),
        InterruptsContainer::new(),
    );

    let read_back = cpu.state();

    assert_eq!(read_back.pc, 0x8000);
    assert_eq!(read_back.a, 1);
    assert_eq!(read_back.ram, vec![vec![0x0002, 0x07], vec![0x0010, 0x05]]);
    assert_eq!(read_back, state);
}

#[test]
fn snapshot_equality_ignores_order_and_zero_cells() {
    let base = CpuState {
        pc: 1,
        s: 2,
        a: 3,
        x: 4,
        y: 5,
        p: 6,
        ram: vec![vec![0x0005, 0x01], vec![0x0003, 0x00], vec![0x0001, 0x02]],
    };
    let shuffled = CpuState {
        ram: vec![vec![0x0001, 0x02], vec![0x0005, 0x01]],
        ..base.clone()
    };
    let different = CpuState {
        ram: vec![vec![0x0001, 0x03], vec![0x0005, 0x01]],
        ..base.clone()
    };

    assert_eq!(base, shuffled);
    assert_ne!(base, different);
}

#[test]
fn cycle_debug_reports_undecodable_opcode() {
    let mut cpu = cpu_with_ram(&[(0x0000, 0xFF)]);

    let (cycles, ok, instruction) = cpu.cycle_debug();

    assert_eq!(cycles, 0);
    assert!(!ok);
    assert!(instruction.is_none());
    assert_eq!(cpu.program_counter, 0x0000);
}

#[test]
fn cycle_debug_reports_decoded_instruction() {
    let mut cpu = cpu_with_ram(&[(0x0000, 0xA9), (0x0001, 0x42)]);

    let (cycles, ok, instruction) = cpu.cycle_debug();

    assert_eq!(cycles, 2);
    assert!(ok);
    let instruction = instruction.unwrap();
    assert_eq!(instruction.opcode, nes6502::instruction::Opcode::LDA);
    assert_eq!(
        instruction.addressing_mode,
        nes6502::instruction::AddressingMode::Immediate
    );
    assert_eq!(instruction.low_byte, Some(0x42));
    assert_eq!(instruction.high_byte, None);
    assert_eq!(cpu.accumulator, 0x42);
}
