//! Instruction-set types and the opcode decoder: the mapping from an opcode
//! byte to a mnemonic and an addressing mode, covering the 151 documented
//! encodings and rejecting the rest.
use vstd::prelude::*;

verus! {

/// How an instruction finds its operand. Each mode fixes the total
/// instruction length (opcode byte included).
#[derive(Clone, Copy, Debug, PartialEq, Eq, Structural)]
pub enum AddressingMode {
    Accumulator,
    Absolute,
    AbsoluteXIndexed,
    AbsoluteYIndexed,
    Immediate,
    Implied,
    Indirect,
    IndirectXIndexed,
    IndirectYIndexed,
    Relative,
    Zeropage,
    ZeropageXIndexed,
    ZeropageYIndexed,
}

/// The 56 documented mnemonics.
#[derive(Clone, Copy, Debug, PartialEq, Eq, Structural)]
pub enum Opcode {
    ADC,
    AND,
    ASL,
    BCC,
    BCS,
    BEQ,
    BIT,
    BMI,
    BNE,
    BPL,
    BRK,
    BVC,
    BVS,
    CLC,
    CLD,
    CLI,
    CLV,
    CMP,
    CPX,
    CPY,
    DEC,
    DEX,
    DEY,
    EOR,
    INC,
    INX,
    INY,
    JMP,
    JSR,
    LDA,
    LDX,
    LDY,
    LSR,
    NOP,
    ORA,
    PHA,
    PHP,
    PLA,
    PLP,
    ROL,
    ROR,
    RTI,
    RTS,
    SBC,
    SEC,
    SED,
    SEI,
    STA,
    STX,
    STY,
    TAX,
    TAY,
    TSX,
    TXA,
    TXS,
    TYA,
}

/// The pair a single opcode byte decodes to.
#[derive(Clone, Copy, Debug, PartialEq, Eq, Structural)]
pub struct FullOpcode {
    pub opcode: Opcode,
    pub addressing_mode: AddressingMode,
}

/// A fetched instruction: the decoded pair plus up to two operand bytes
/// (low byte first, as words are little-endian).
#[derive(Clone, Copy, Debug, PartialEq, Eq, Structural)]
pub struct Instruction {
    pub opcode: Opcode,
    pub addressing_mode: AddressingMode,
    pub low_byte: Option<u8>,
    pub high_byte: Option<u8>,
}

/// Total instruction length in bytes for each addressing mode, opcode byte
/// included: 1, 2 or 3.
pub open spec fn spec_bytes_required(mode: AddressingMode) -> u16 {
    match mode {
        AddressingMode::Accumulator => 1,
        AddressingMode::Implied => 1,
        AddressingMode::Immediate => 2,
        AddressingMode::IndirectXIndexed => 2,
        AddressingMode::IndirectYIndexed => 2,
        AddressingMode::Relative => 2,
        AddressingMode::Zeropage => 2,
        AddressingMode::ZeropageXIndexed => 2,
        AddressingMode::ZeropageYIndexed => 2,
        AddressingMode::Absolute => 3,
        AddressingMode::AbsoluteXIndexed => 3,
        AddressingMode::AbsoluteYIndexed => 3,
        AddressingMode::Indirect => 3,
    }
}

impl AddressingMode {
    /// Each instruction occupies 1 to 3 bytes in total, opcode byte included.
    pub fn bytes_required(&self) -> (r: u16)
        ensures
            r == spec_bytes_required(*self),
            1 <= r <= 3,
    {
        match self {
            AddressingMode::Accumulator | AddressingMode::Implied => 1,
            AddressingMode::Immediate
            | AddressingMode::IndirectXIndexed
            | AddressingMode::IndirectYIndexed
            | AddressingMode::Relative
            | AddressingMode::Zeropage
            | AddressingMode::ZeropageXIndexed
            | AddressingMode::ZeropageYIndexed => 2,
            AddressingMode::Absolute
            | AddressingMode::AbsoluteXIndexed
            | AddressingMode::AbsoluteYIndexed
            | AddressingMode::Indirect => 3,
        }
    }
}

/// A successful decode of `op` with mode `mode`.
pub open spec fn decoded(op: Opcode, mode: AddressingMode) -> Option<FullOpcode> {
    Some(FullOpcode { opcode: op, addressing_mode: mode })
}

pub open spec fn spec_low_nibble_0(high_nibble: u8) -> Option<FullOpcode> {
    if high_nibble == 0x0 {
        decoded(Opcode::BRK, AddressingMode::Implied)
    } else if high_nibble == 0x1 {
        decoded(Opcode::BPL, AddressingMode::Relative)
    } else if high_nibble == 0x2 {
        decoded(Opcode::JSR, AddressingMode::Absolute)
    } else if high_nibble == 0x3 {
        decoded(Opcode::BMI, AddressingMode::Relative)
    } else if high_nibble == 0x4 {
        decoded(Opcode::RTI, AddressingMode::Implied)
    } else if high_nibble == 0x5 {
        decoded(Opcode::BVC, AddressingMode::Relative)
    } else if high_nibble == 0x6 {
        decoded(Opcode::RTS, AddressingMode::Implied)
    } else if high_nibble == 0x7 {
        decoded(Opcode::BVS, AddressingMode::Relative)
    } else if high_nibble == 0x9 {
        decoded(Opcode::BCC, AddressingMode::Relative)
    } else if high_nibble == 0xA {
        decoded(Opcode::LDY, AddressingMode::Immediate)
    } else if high_nibble == 0xB {
        decoded(Opcode::BCS, AddressingMode::Relative)
    } else if high_nibble == 0xC {
        decoded(Opcode::CPY, AddressingMode::Immediate)
    } else if high_nibble == 0xD {
        decoded(Opcode::BNE, AddressingMode::Relative)
    } else if high_nibble == 0xE {
        decoded(Opcode::CPX, AddressingMode::Immediate)
    } else if high_nibble == 0xF {
        decoded(Opcode::BEQ, AddressingMode::Relative)
    } else {
        None
    }
}

/// The ALU column with pre-/post-indexed indirect operands: even rows take
/// (indirect,X), odd rows take (indirect),Y.
pub open spec fn spec_low_nibble_1(high_nibble: u8) -> Option<FullOpcode> {
    if high_nibble == 0x0 {
        decoded(Opcode::ORA, AddressingMode::IndirectXIndexed)
    } else if high_nibble == 0x1 {
        decoded(Opcode::ORA, AddressingMode::IndirectYIndexed)
    } else if high_nibble == 0x2 {
        decoded(Opcode::AND, AddressingMode::IndirectXIndexed)
    } else if high_nibble == 0x3 {
        decoded(Opcode::AND, AddressingMode::IndirectYIndexed)
    } else if high_nibble == 0x4 {
        decoded(Opcode::EOR, AddressingMode::IndirectXIndexed)
    } else if high_nibble == 0x5 {
        decoded(Opcode::EOR, AddressingMode::IndirectYIndexed)
    } else if high_nibble == 0x6 {
        decoded(Opcode::ADC, AddressingMode::IndirectXIndexed)
    } else if high_nibble == 0x7 {
        decoded(Opcode::ADC, AddressingMode::IndirectYIndexed)
    } else if high_nibble == 0x8 {
        decoded(Opcode::STA, AddressingMode::IndirectXIndexed)
    } else if high_nibble == 0x9 {
        decoded(Opcode::STA, AddressingMode::IndirectYIndexed)
    } else if high_nibble == 0xA {
        decoded(Opcode::LDA, AddressingMode::IndirectXIndexed)
    } else if high_nibble == 0xB {
        decoded(Opcode::LDA, AddressingMode::IndirectYIndexed)
    } else if high_nibble == 0xC {
        decoded(Opcode::CMP, AddressingMode::IndirectXIndexed)
    } else if high_nibble == 0xD {
        decoded(Opcode::CMP, AddressingMode::IndirectYIndexed)
    } else if high_nibble == 0xE {
        decoded(Opcode::SBC, AddressingMode::IndirectXIndexed)
    } else if high_nibble == 0xF {
        decoded(Opcode::SBC, AddressingMode::IndirectYIndexed)
    } else {
        None
    }
}

pub open spec fn spec_low_nibble_2(high_nibble: u8) -> Option<FullOpcode> {
    if high_nibble == 0xA {
        decoded(Opcode::LDX, AddressingMode::Immediate)
    } else {
        None
    }
}

pub open spec fn spec_low_nibble_4(high_nibble: u8) -> Option<FullOpcode> {
    if high_nibble == 0x2 {
        decoded(Opcode::BIT, AddressingMode::Zeropage)
    } else if high_nibble == 0x8 {
        decoded(Opcode::STY, AddressingMode::Zeropage)
    } else if high_nibble == 0x9 {
        decoded(Opcode::STY, AddressingMode::ZeropageXIndexed)
    } else if high_nibble == 0xA {
        decoded(Opcode::LDY, AddressingMode::Zeropage)
    } else if high_nibble == 0xB {
        decoded(Opcode::LDY, AddressingMode::ZeropageXIndexed)
    } else if high_nibble == 0xC {
        decoded(Opcode::CPY, AddressingMode::Zeropage)
    } else if high_nibble == 0xE {
        decoded(Opcode::CPX, AddressingMode::Zeropage)
    } else {
        None
    }
}

/// The ALU column with zero-page operands: even rows plain, odd rows X-indexed.
pub open spec fn spec_low_nibble_5(high_nibble: u8) -> Option<FullOpcode> {
    if high_nibble == 0x0 {
        decoded(Opcode::ORA, AddressingMode::Zeropage)
    } else if high_nibble == 0x1 {
        decoded(Opcode::ORA, AddressingMode::ZeropageXIndexed)
    } else if high_nibble == 0x2 {
        decoded(Opcode::AND, AddressingMode::Zeropage)
    } else if high_nibble == 0x3 {
        decoded(Opcode::AND, AddressingMode::ZeropageXIndexed)
    } else if high_nibble == 0x4 {
        decoded(Opcode::EOR, AddressingMode::Zeropage)
    } else if high_nibble == 0x5 {
        decoded(Opcode::EOR, AddressingMode::ZeropageXIndexed)
    } else if high_nibble == 0x6 {
        decoded(Opcode::ADC, AddressingMode::Zeropage)
    } else if high_nibble == 0x7 {
        decoded(Opcode::ADC, AddressingMode::ZeropageXIndexed)
    } else if high_nibble == 0x8 {
        decoded(Opcode::STA, AddressingMode::Zeropage)
    } else if high_nibble == 0x9 {
        decoded(Opcode::STA, AddressingMode::ZeropageXIndexed)
    } else if high_nibble == 0xA {
        decoded(Opcode::LDA, AddressingMode::Zeropage)
    } else if high_nibble == 0xB {
        decoded(Opcode::LDA, AddressingMode::ZeropageXIndexed)
    } else if high_nibble == 0xC {
        decoded(Opcode::CMP, AddressingMode::Zeropage)
    } else if high_nibble == 0xD {
        decoded(Opcode::CMP, AddressingMode::ZeropageXIndexed)
    } else if high_nibble == 0xE {
        decoded(Opcode::SBC, AddressingMode::Zeropage)
    } else if high_nibble == 0xF {
        decoded(Opcode::SBC, AddressingMode::ZeropageXIndexed)
    } else {
        None
    }
}

pub open spec fn spec_low_nibble_6(high_nibble: u8) -> Option<FullOpcode> {
    if high_nibble == 0x0 {
        decoded(Opcode::ASL, AddressingMode::Zeropage)
    } else if high_nibble == 0x1 {
        decoded(Opcode::ASL, AddressingMode::ZeropageXIndexed)
    } else if high_nibble == 0x2 {
        decoded(Opcode::ROL, AddressingMode::Zeropage)
    } else if high_nibble == 0x3 {
        decoded(Opcode::ROL, AddressingMode::ZeropageXIndexed)
    } else if high_nibble == 0x4 {
        decoded(Opcode::LSR, AddressingMode::Zeropage)
    } else if high_nibble == 0x5 {
        decoded(Opcode::LSR, AddressingMode::ZeropageXIndexed)
    } else if high_nibble == 0x6 {
        decoded(Opcode::ROR, AddressingMode::Zeropage)
    } else if high_nibble == 0x7 {
        decoded(Opcode::ROR, AddressingMode::ZeropageXIndexed)
    } else if high_nibble == 0x8 {
        decoded(Opcode::STX, AddressingMode::Zeropage)
    } else if high_nibble == 0x9 {
        decoded(Opcode::STX, AddressingMode::ZeropageXIndexed)
    } else if high_nibble == 0xA {
        decoded(Opcode::LDX, AddressingMode::Zeropage)
    } else if high_nibble == 0xB {
        decoded(Opcode::LDX, AddressingMode::ZeropageXIndexed)
    } else if high_nibble == 0xC {
        decoded(Opcode::DEC, AddressingMode::Zeropage)
    } else if high_nibble == 0xD {
        decoded(Opcode::DEC, AddressingMode::ZeropageXIndexed)
    } else if high_nibble == 0xE {
        decoded(Opcode::INC, AddressingMode::Zeropage)
    } else if high_nibble == 0xF {
        decoded(Opcode::INC, AddressingMode::ZeropageXIndexed)
    } else {
        None
    }
}

pub open spec fn spec_low_nibble_8(high_nibble: u8) -> Option<FullOpcode> {
    if high_nibble == 0x0 {
        decoded(Opcode::PHP, AddressingMode::Implied)
    } else if high_nibble == 0x1 {
        decoded(Opcode::CLC, AddressingMode::Implied)
    } else if high_nibble == 0x2 {
        decoded(Opcode::PLP, AddressingMode::Implied)
    } else if high_nibble == 0x3 {
        decoded(Opcode::SEC, AddressingMode::Implied)
    } else if high_nibble == 0x4 {
        decoded(Opcode::PHA, AddressingMode::Implied)
    } else if high_nibble == 0x5 {
        decoded(Opcode::CLI, AddressingMode::Implied)
    } else if high_nibble == 0x6 {
        decoded(Opcode::PLA, AddressingMode::Implied)
    } else if high_nibble == 0x7 {
        decoded(Opcode::SEI, AddressingMode::Implied)
    } else if high_nibble == 0x8 {
        decoded(Opcode::DEY, AddressingMode::Implied)
    } else if high_nibble == 0x9 {
        decoded(Opcode::TYA, AddressingMode::Implied)
    } else if high_nibble == 0xA {
        decoded(Opcode::TAY, AddressingMode::Implied)
    } else if high_nibble == 0xB {
        decoded(Opcode::CLV, AddressingMode::Implied)
    } else if high_nibble == 0xC {
        decoded(Opcode::INY, AddressingMode::Implied)
    } else if high_nibble == 0xD {
        decoded(Opcode::CLD, AddressingMode::Implied)
    } else if high_nibble == 0xE {
        decoded(Opcode::INX, AddressingMode::Implied)
    } else if high_nibble == 0xF {
        decoded(Opcode::SED, AddressingMode::Implied)
    } else {
        None
    }
}

/// The ALU column with immediate (even rows) and absolute,Y (odd rows)
/// operands; 0x89 is a hole.
pub open spec fn spec_low_nibble_9(high_nibble: u8) -> Option<FullOpcode> {
    if high_nibble == 0x0 {
        decoded(Opcode::ORA, AddressingMode::Immediate)
    } else if high_nibble == 0x1 {
        decoded(Opcode::ORA, AddressingMode::AbsoluteYIndexed)
    } else if high_nibble == 0x2 {
        decoded(Opcode::AND, AddressingMode::Immediate)
    } else if high_nibble == 0x3 {
        decoded(Opcode::AND, AddressingMode::AbsoluteYIndexed)
    } else if high_nibble == 0x4 {
        decoded(Opcode::EOR, AddressingMode::Immediate)
    } else if high_nibble == 0x5 {
        decoded(Opcode::EOR, AddressingMode::AbsoluteYIndexed)
    } else if high_nibble == 0x6 {
        decoded(Opcode::ADC, AddressingMode::Immediate)
    } else if high_nibble == 0x7 {
        decoded(Opcode::ADC, AddressingMode::AbsoluteYIndexed)
    } else if high_nibble == 0x9 {
        decoded(Opcode::STA, AddressingMode::AbsoluteYIndexed)
    } else if high_nibble == 0xA {
        decoded(Opcode::LDA, AddressingMode::Immediate)
    } else if high_nibble == 0xB {
        decoded(Opcode::LDA, AddressingMode::AbsoluteYIndexed)
    } else if high_nibble == 0xC {
        decoded(Opcode::CMP, AddressingMode::Immediate)
    } else if high_nibble == 0xD {
        decoded(Opcode::CMP, AddressingMode::AbsoluteYIndexed)
    } else if high_nibble == 0xE {
        decoded(Opcode::SBC, AddressingMode::Immediate)
    } else if high_nibble == 0xF {
        decoded(Opcode::SBC, AddressingMode::AbsoluteYIndexed)
    } else {
        None
    }
}

pub open spec fn spec_low_nibble_a(high_nibble: u8) -> Option<FullOpcode> {
    if high_nibble == 0x0 {
        decoded(Opcode::ASL, AddressingMode::Accumulator)
    } else if high_nibble == 0x2 {
        decoded(Opcode::ROL, AddressingMode::Accumulator)
    } else if high_nibble == 0x4 {
        decoded(Opcode::LSR, AddressingMode::Accumulator)
    } else if high_nibble == 0x6 {
        decoded(Opcode::ROR, AddressingMode::Accumulator)
    } else if high_nibble == 0x8 {
        decoded(Opcode::TXA, AddressingMode::Implied)
    } else if high_nibble == 0x9 {
        decoded(Opcode::TXS, AddressingMode::Implied)
    } else if high_nibble == 0xA {
        decoded(Opcode::TAX, AddressingMode::Implied)
    } else if high_nibble == 0xB {
        decoded(Opcode::TSX, AddressingMode::Implied)
    } else if high_nibble == 0xC {
        decoded(Opcode::DEX, AddressingMode::Implied)
    } else if high_nibble == 0xE {
        decoded(Opcode::NOP, AddressingMode::Implied)
    } else {
        None
    }
}

pub open spec fn spec_low_nibble_c(high_nibble: u8) -> Option<FullOpcode> {
    if high_nibble == 0x2 {
        decoded(Opcode::BIT, AddressingMode::Absolute)
    } else if high_nibble == 0x4 {
        decoded(Opcode::JMP, AddressingMode::Absolute)
    } else if high_nibble == 0x6 {
        decoded(Opcode::JMP, AddressingMode::Indirect)
    } else if high_nibble == 0x8 {
        decoded(Opcode::STY, AddressingMode::Absolute)
    } else if high_nibble == 0xA {
        decoded(Opcode::LDY, AddressingMode::Absolute)
    } else if high_nibble == 0xB {
        decoded(Opcode::LDY, AddressingMode::AbsoluteXIndexed)
    } else if high_nibble == 0xC {
        decoded(Opcode::CPY, AddressingMode::Absolute)
    } else if high_nibble == 0xE {
        decoded(Opcode::CPX, AddressingMode::Absolute)
    } else {
        None
    }
}

/// The ALU column with absolute (even rows) and absolute,X (odd rows)
/// operands.
pub open spec fn spec_low_nibble_d(high_nibble: u8) -> Option<FullOpcode> {
    if high_nibble == 0x0 {
        decoded(Opcode::ORA, AddressingMode::Absolute)
    } else if high_nibble == 0x1 {
        decoded(Opcode::ORA, AddressingMode::AbsoluteXIndexed)
    } else if high_nibble == 0x2 {
        decoded(Opcode::AND, AddressingMode::Absolute)
    } else if high_nibble == 0x3 {
        decoded(Opcode::AND, AddressingMode::AbsoluteXIndexed)
    } else if high_nibble == 0x4 {
        decoded(Opcode::EOR, AddressingMode::Absolute)
    } else if high_nibble == 0x5 {
        decoded(Opcode::EOR, AddressingMode::AbsoluteXIndexed)
    } else if high_nibble == 0x6 {
        decoded(Opcode::ADC, AddressingMode::Absolute)
    } else if high_nibble == 0x7 {
        decoded(Opcode::ADC, AddressingMode::AbsoluteXIndexed)
    } else if high_nibble == 0x8 {
        decoded(Opcode::STA, AddressingMode::Absolute)
    } else if high_nibble == 0x9 {
        decoded(Opcode::STA, AddressingMode::AbsoluteXIndexed)
    } else if high_nibble == 0xA {
        decoded(Opcode::LDA, AddressingMode::Absolute)
    } else if high_nibble == 0xB {
        decoded(Opcode::LDA, AddressingMode::AbsoluteXIndexed)
    } else if high_nibble == 0xC {
        decoded(Opcode::CMP, AddressingMode::Absolute)
    } else if high_nibble == 0xD {
        decoded(Opcode::CMP, AddressingMode::AbsoluteXIndexed)
    } else if high_nibble == 0xE {
        decoded(Opcode::SBC, AddressingMode::Absolute)
    } else if high_nibble == 0xF {
        decoded(Opcode::SBC, AddressingMode::AbsoluteXIndexed)
    } else {
        None
    }
}

pub open spec fn spec_low_nibble_e(high_nibble: u8) -> Option<FullOpcode> {
    if high_nibble == 0x0 {
        decoded(Opcode::ASL, AddressingMode::Absolute)
    } else if high_nibble == 0x1 {
        decoded(Opcode::ASL, AddressingMode::AbsoluteXIndexed)
    } else if high_nibble == 0x2 {
        decoded(Opcode::ROL, AddressingMode::Absolute)
    } else if high_nibble == 0x3 {
        decoded(Opcode::ROL, AddressingMode::AbsoluteXIndexed)
    } else if high_nibble == 0x4 {
        decoded(Opcode::LSR, AddressingMode::Absolute)
    } else if high_nibble == 0x5 {
        decoded(Opcode::LSR, AddressingMode::AbsoluteXIndexed)
    } else if high_nibble == 0x6 {
        decoded(Opcode::ROR, AddressingMode::Absolute)
    } else if high_nibble == 0x7 {
        decoded(Opcode::ROR, AddressingMode::AbsoluteXIndexed)
    } else if high_nibble == 0x8 {
        decoded(Opcode::STX, AddressingMode::Absolute)
    } else if high_nibble == 0xA {
        decoded(Opcode::LDX, AddressingMode::Absolute)
    } else if high_nibble == 0xB {
        decoded(Opcode::LDX, AddressingMode::AbsoluteYIndexed)
    } else if high_nibble == 0xC {
        decoded(Opcode::DEC, AddressingMode::Absolute)
    } else if high_nibble == 0xD {
        decoded(Opcode::DEC, AddressingMode::AbsoluteXIndexed)
    } else if high_nibble == 0xE {
        decoded(Opcode::INC, AddressingMode::Absolute)
    } else if high_nibble == 0xF {
        decoded(Opcode::INC, AddressingMode::AbsoluteXIndexed)
    } else {
        None
    }
}

/// The whole decode table as a function of the opcode byte. Any byte whose
/// low nibble is 0x3, 0x7, 0xB or 0xF is illegal, as are the scattered holes
/// in the other columns.
pub open spec fn spec_decode(byte: u8) -> Option<FullOpcode> {
    let low_nibble = byte & 0x0F;
    let high_nibble = byte >> 4;
    if low_nibble == 0x0 {
        spec_low_nibble_0(high_nibble)
    } else if low_nibble == 0x1 {
        spec_low_nibble_1(high_nibble)
    } else if low_nibble == 0x2 {
        spec_low_nibble_2(high_nibble)
    } else if low_nibble == 0x4 {
        spec_low_nibble_4(high_nibble)
    } else if low_nibble == 0x5 {
        spec_low_nibble_5(high_nibble)
    } else if low_nibble == 0x6 {
        spec_low_nibble_6(high_nibble)
    } else if low_nibble == 0x8 {
        spec_low_nibble_8(high_nibble)
    } else if low_nibble == 0x9 {
        spec_low_nibble_9(high_nibble)
    } else if low_nibble == 0xA {
        spec_low_nibble_a(high_nibble)
    } else if low_nibble == 0xC {
        spec_low_nibble_c(high_nibble)
    } else if low_nibble == 0xD {
        spec_low_nibble_d(high_nibble)
    } else if low_nibble == 0xE {
        spec_low_nibble_e(high_nibble)
    } else {
        None
    }
}

impl FullOpcode {
    /// Decodes one opcode byte. `None` means the byte is an illegal encoding.
    pub fn try_new(byte: u8) -> (r: Option<FullOpcode>)
        ensures
            r == spec_decode(byte),
    {
        let low_nibble = byte & 0x0F;
        let high_nibble = byte >> 4;

        if low_nibble == 0x0 {
            low_nibble_0(high_nibble)
        } else if low_nibble == 0x1 {
            low_nibble_1(high_nibble)
        } else if low_nibble == 0x2 {
            low_nibble_2(high_nibble)
        } else if low_nibble == 0x4 {
            low_nibble_4(high_nibble)
        } else if low_nibble == 0x5 {
            low_nibble_5(high_nibble)
        } else if low_nibble == 0x6 {
            low_nibble_6(high_nibble)
        } else if low_nibble == 0x8 {
            low_nibble_8(high_nibble)
        } else if low_nibble == 0x9 {
            low_nibble_9(high_nibble)
        } else if low_nibble == 0xA {
            low_nibble_a(high_nibble)
        } else if low_nibble == 0xC {
            low_nibble_c(high_nibble)
        } else if low_nibble == 0xD {
            low_nibble_d(high_nibble)
        } else if low_nibble == 0xE {
            low_nibble_e(high_nibble)
        } else {
            None
        }
    }
}

/// Builds a successful decode result.
fn make(op: Opcode, mode: AddressingMode) -> (r: Option<FullOpcode>)
    ensures
        r == decoded(op, mode),
{
    Some(FullOpcode { opcode: op, addressing_mode: mode })
}

fn low_nibble_0(high_nibble: u8) -> (r: Option<FullOpcode>)
    ensures
        r == spec_low_nibble_0(high_nibble),
{
    match high_nibble {
        0x0 => make(Opcode::BRK, AddressingMode::Implied),
        0x1 => make(Opcode::BPL, AddressingMode::Relative),
        0x2 => make(Opcode::JSR, AddressingMode::Absolute),
        0x3 => make(Opcode::BMI, AddressingMode::Relative),
        0x4 => make(Opcode::RTI, AddressingMode::Implied),
        0x5 => make(Opcode::BVC, AddressingMode::Relative),
        0x6 => make(Opcode::RTS, AddressingMode::Implied),
        0x7 => make(Opcode::BVS, AddressingMode::Relative),
        0x9 => make(Opcode::BCC, AddressingMode::Relative),
        0xA => make(Opcode::LDY, AddressingMode::Immediate),
        0xB => make(Opcode::BCS, AddressingMode::Relative),
        0xC => make(Opcode::CPY, AddressingMode::Immediate),
        0xD => make(Opcode::BNE, AddressingMode::Relative),
        0xE => make(Opcode::CPX, AddressingMode::Immediate),
        0xF => make(Opcode::BEQ, AddressingMode::Relative),
        _ => None,
    }
}

fn low_nibble_1(high_nibble: u8) -> (r: Option<FullOpcode>)
    ensures
        r == spec_low_nibble_1(high_nibble),
{
    match high_nibble {
        0x0 => make(Opcode::ORA, AddressingMode::IndirectXIndexed),
        0x1 => make(Opcode::ORA, AddressingMode::IndirectYIndexed),
        0x2 => make(Opcode::AND, AddressingMode::IndirectXIndexed),
        0x3 => make(Opcode::AND, AddressingMode::IndirectYIndexed),
        0x4 => make(Opcode::EOR, AddressingMode::IndirectXIndexed),
        0x5 => make(Opcode::EOR, AddressingMode::IndirectYIndexed),
        0x6 => make(Opcode::ADC, AddressingMode::IndirectXIndexed),
        0x7 => make(Opcode::ADC, AddressingMode::IndirectYIndexed),
        0x8 => make(Opcode::STA, AddressingMode::IndirectXIndexed),
        0x9 => make(Opcode::STA, AddressingMode::IndirectYIndexed),
        0xA => make(Opcode::LDA, AddressingMode::IndirectXIndexed),
        0xB => make(Opcode::LDA, AddressingMode::IndirectYIndexed),
        0xC => make(Opcode::CMP, AddressingMode::IndirectXIndexed),
        0xD => make(Opcode::CMP, AddressingMode::IndirectYIndexed),
        0xE => make(Opcode::SBC, AddressingMode::IndirectXIndexed),
        0xF => make(Opcode::SBC, AddressingMode::IndirectYIndexed),
        _ => None,
    }
}

fn low_nibble_2(high_nibble: u8) -> (r: Option<FullOpcode>)
    ensures
        r == spec_low_nibble_2(high_nibble),
{
    match high_nibble {
        0xA => make(Opcode::LDX, AddressingMode::Immediate),
        _ => None,
    }
}

fn low_nibble_4(high_nibble: u8) -> (r: Option<FullOpcode>)
    ensures
        r == spec_low_nibble_4(high_nibble),
{
    match high_nibble {
        0x2 => make(Opcode::BIT, AddressingMode::Zeropage),
        0x8 => make(Opcode::STY, AddressingMode::Zeropage),
        0x9 => make(Opcode::STY, AddressingMode::ZeropageXIndexed),
        0xA => make(Opcode::LDY, AddressingMode::Zeropage),
        0xB => make(Opcode::LDY, AddressingMode::ZeropageXIndexed),
        0xC => make(Opcode::CPY, AddressingMode::Zeropage),
        0xE => make(Opcode::CPX, AddressingMode::Zeropage),
        _ => None,
    }
}

fn low_nibble_5(high_nibble: u8) -> (r: Option<FullOpcode>)
    ensures
        r == spec_low_nibble_5(high_nibble),
{
    match high_nibble {
        0x0 => make(Opcode::ORA, AddressingMode::Zeropage),
        0x1 => make(Opcode::ORA, AddressingMode::ZeropageXIndexed),
        0x2 => make(Opcode::AND, AddressingMode::Zeropage),
        0x3 => make(Opcode::AND, AddressingMode::ZeropageXIndexed),
        0x4 => make(Opcode::EOR, AddressingMode::Zeropage),
        0x5 => make(Opcode::EOR, AddressingMode::ZeropageXIndexed),
        0x6 => make(Opcode::ADC, AddressingMode::Zeropage),
        0x7 => make(Opcode::ADC, AddressingMode::ZeropageXIndexed),
        0x8 => make(Opcode::STA, AddressingMode::Zeropage),
        0x9 => make(Opcode::STA, AddressingMode::ZeropageXIndexed),
        0xA => make(Opcode::LDA, AddressingMode::Zeropage),
        0xB => make(Opcode::LDA, AddressingMode::ZeropageXIndexed),
        0xC => make(Opcode::CMP, AddressingMode::Zeropage),
        0xD => make(Opcode::CMP, AddressingMode::ZeropageXIndexed),
        0xE => make(Opcode::SBC, AddressingMode::Zeropage),
        0xF => make(Opcode::SBC, AddressingMode::ZeropageXIndexed),
        _ => None,
    }
}

fn low_nibble_6(high_nibble: u8) -> (r: Option<FullOpcode>)
    ensures
        r == spec_low_nibble_6(high_nibble),
{
    match high_nibble {
        0x0 => make(Opcode::ASL, AddressingMode::Zeropage),
        0x1 => make(Opcode::ASL, AddressingMode::ZeropageXIndexed),
        0x2 => make(Opcode::ROL, AddressingMode::Zeropage),
        0x3 => make(Opcode::ROL, AddressingMode::ZeropageXIndexed),
        0x4 => make(Opcode::LSR, AddressingMode::Zeropage),
        0x5 => make(Opcode::LSR, AddressingMode::ZeropageXIndexed),
        0x6 => make(Opcode::ROR, AddressingMode::Zeropage),
        0x7 => make(Opcode::ROR, AddressingMode::ZeropageXIndexed),
        0x8 => make(Opcode::STX, AddressingMode::Zeropage),
        0x9 => make(Opcode::STX, AddressingMode::ZeropageXIndexed),
        0xA => make(Opcode::LDX, AddressingMode::Zeropage),
        0xB => make(Opcode::LDX, AddressingMode::ZeropageXIndexed),
        0xC => make(Opcode::DEC, AddressingMode::Zeropage),
        0xD => make(Opcode::DEC, AddressingMode::ZeropageXIndexed),
        0xE => make(Opcode::INC, AddressingMode::Zeropage),
        0xF => make(Opcode::INC, AddressingMode::ZeropageXIndexed),
        _ => None,
    }
}

fn low_nibble_8(high_nibble: u8) -> (r: Option<FullOpcode>)
    ensures
        r == spec_low_nibble_8(high_nibble),
{
    match high_nibble {
        0x0 => make(Opcode::PHP, AddressingMode::Implied),
        0x1 => make(Opcode::CLC, AddressingMode::Implied),
        0x2 => make(Opcode::PLP, AddressingMode::Implied),
        0x3 => make(Opcode::SEC, AddressingMode::Implied),
        0x4 => make(Opcode::PHA, AddressingMode::Implied),
        0x5 => make(Opcode::CLI, AddressingMode::Implied),
        0x6 => make(Opcode::PLA, AddressingMode::Implied),
        0x7 => make(Opcode::SEI, AddressingMode::Implied),
        0x8 => make(Opcode::DEY, AddressingMode::Implied),
        0x9 => make(Opcode::TYA, AddressingMode::Implied),
        0xA => make(Opcode::TAY, AddressingMode::Implied),
        0xB => make(Opcode::CLV, AddressingMode::Implied),
        0xC => make(Opcode::INY, AddressingMode::Implied),
        0xD => make(Opcode::CLD, AddressingMode::Implied),
        0xE => make(Opcode::INX, AddressingMode::Implied),
        0xF => make(Opcode::SED, AddressingMode::Implied),
        _ => None,
    }
}

fn low_nibble_9(high_nibble: u8) -> (r: Option<FullOpcode>)
    ensures
        r == spec_low_nibble_9(high_nibble),
{
    match high_nibble {
        0x0 => make(Opcode::ORA, AddressingMode::Immediate),
        0x1 => make(Opcode::ORA, AddressingMode::AbsoluteYIndexed),
        0x2 => make(Opcode::AND, AddressingMode::Immediate),
        0x3 => make(Opcode::AND, AddressingMode::AbsoluteYIndexed),
        0x4 => make(Opcode::EOR, AddressingMode::Immediate),
        0x5 => make(Opcode::EOR, AddressingMode::AbsoluteYIndexed),
        0x6 => make(Opcode::ADC, AddressingMode::Immediate),
        0x7 => make(Opcode::ADC, AddressingMode::AbsoluteYIndexed),
        0x9 => make(Opcode::STA, AddressingMode::AbsoluteYIndexed),
        0xA => make(Opcode::LDA, AddressingMode::Immediate),
        0xB => make(Opcode::LDA, AddressingMode::AbsoluteYIndexed),
        0xC => make(Opcode::CMP, AddressingMode::Immediate),
        0xD => make(Opcode::CMP, AddressingMode::AbsoluteYIndexed),
        0xE => make(Opcode::SBC, AddressingMode::Immediate),
        0xF => make(Opcode::SBC, AddressingMode::AbsoluteYIndexed),
        _ => None,
    }
}

fn low_nibble_a(high_nibble: u8) -> (r: Option<FullOpcode>)
    ensures
        r == spec_low_nibble_a(high_nibble),
{
    match high_nibble {
        0x0 => make(Opcode::ASL, AddressingMode::Accumulator),
        0x2 => make(Opcode::ROL, AddressingMode::Accumulator),
        0x4 => make(Opcode::LSR, AddressingMode::Accumulator),
        0x6 => make(Opcode::ROR, AddressingMode::Accumulator),
        0x8 => make(Opcode::TXA, AddressingMode::Implied),
        0x9 => make(Opcode::TXS, AddressingMode::Implied),
        0xA => make(Opcode::TAX, AddressingMode::Implied),
        0xB => make(Opcode::TSX, AddressingMode::Implied),
        0xC => make(Opcode::DEX, AddressingMode::Implied),
        0xE => make(Opcode::NOP, AddressingMode::Implied),
        _ => None,
    }
}

fn low_nibble_c(high_nibble: u8) -> (r: Option<FullOpcode>)
    ensures
        r == spec_low_nibble_c(high_nibble),
{
    match high_nibble {
        0x2 => make(Opcode::BIT, AddressingMode::Absolute),
        0x4 => make(Opcode::JMP, AddressingMode::Absolute),
        0x6 => make(Opcode::JMP, AddressingMode::Indirect),
        0x8 => make(Opcode::STY, AddressingMode::Absolute),
        0xA => make(Opcode::LDY, AddressingMode::Absolute),
        0xB => make(Opcode::LDY, AddressingMode::AbsoluteXIndexed),
        0xC => make(Opcode::CPY, AddressingMode::Absolute),
        0xE => make(Opcode::CPX, AddressingMode::Absolute),
        _ => None,
    }
}

fn low_nibble_d(high_nibble: u8) -> (r: Option<FullOpcode>)
    ensures
        r == spec_low_nibble_d(high_nibble),
{
    match high_nibble {
        0x0 => make(Opcode::ORA, AddressingMode::Absolute),
        0x1 => make(Opcode::ORA, AddressingMode::AbsoluteXIndexed),
        0x2 => make(Opcode::AND, AddressingMode::Absolute),
        0x3 => make(Opcode::AND, AddressingMode::AbsoluteXIndexed),
        0x4 => make(Opcode::EOR, AddressingMode::Absolute),
        0x5 => make(Opcode::EOR, AddressingMode::AbsoluteXIndexed),
        0x6 => make(Opcode::ADC, AddressingMode::Absolute),
        0x7 => make(Opcode::ADC, AddressingMode::AbsoluteXIndexed),
        0x8 => make(Opcode::STA, AddressingMode::Absolute),
        0x9 => make(Opcode::STA, AddressingMode::AbsoluteXIndexed),
        0xA => make(Opcode::LDA, AddressingMode::Absolute),
        0xB => make(Opcode::LDA, AddressingMode::AbsoluteXIndexed),
        0xC => make(Opcode::CMP, AddressingMode::Absolute),
        0xD => make(Opcode::CMP, AddressingMode::AbsoluteXIndexed),
        0xE => make(Opcode::SBC, AddressingMode::Absolute),
        0xF => make(Opcode::SBC, AddressingMode::AbsoluteXIndexed),
        _ => None,
    }
}

fn low_nibble_e(high_nibble: u8) -> (r: Option<FullOpcode>)
    ensures
        r == spec_low_nibble_e(high_nibble),
{
    match high_nibble {
        0x0 => make(Opcode::ASL, AddressingMode::Absolute),
        0x1 => make(Opcode::ASL, AddressingMode::AbsoluteXIndexed),
        0x2 => make(Opcode::ROL, AddressingMode::Absolute),
        0x3 => make(Opcode::ROL, AddressingMode::AbsoluteXIndexed),
        0x4 => make(Opcode::LSR, AddressingMode::Absolute),
        0x5 => make(Opcode::LSR, AddressingMode::AbsoluteXIndexed),
        0x6 => make(Opcode::ROR, AddressingMode::Absolute),
        0x7 => make(Opcode::ROR, AddressingMode::AbsoluteXIndexed),
        0x8 => make(Opcode::STX, AddressingMode::Absolute),
        0xA => make(Opcode::LDX, AddressingMode::Absolute),
        0xB => make(Opcode::LDX, AddressingMode::AbsoluteYIndexed),
        0xC => make(Opcode::DEC, AddressingMode::Absolute),
        0xD => make(Opcode::DEC, AddressingMode::AbsoluteXIndexed),
        0xE => make(Opcode::INC, AddressingMode::Absolute),
        0xF => make(Opcode::INC, AddressingMode::AbsoluteXIndexed),
        _ => None,
    }
}

} // verus!
