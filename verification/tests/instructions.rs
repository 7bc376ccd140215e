//! Decoder and per-instruction checks: the decode table, instruction
//! lengths, and exact register/flag/cycle results for each family.
use nes6502::harness::{InterruptsContainer, Memory};
use nes6502::instruction::{AddressingMode, FullOpcode, Opcode};
use nes6502::{Cpu, Interrupts, Mapper};

fn cpu_with_ram(cells: &[(u16, u8)]) -> Cpu<Memory, InterruptsContainer> {
    let mut memory = Memory::new();
    for &(address, value) in cells {
        memory.write(address, value);
    }
    Cpu::new(memory, InterruptsContainer::new())
}

#[test]
fn decode_is_total_and_covers_151_opcodes() {
    let mut legal: u32 = 0;
    for byte in 0..=255u8 {
        let first = FullOpcode::try_new(byte);
        let second = FullOpcode::try_new(byte);
        assert_eq!(first, second);
        if first.is_some() {
            legal += 1;
        }
        // Low nibbles 3, 7, B and F hold no documented opcode.
        if byte & 0x0F == 0x3 || byte & 0x0F == 0x7 || byte & 0x0F == 0xB || byte & 0x0F == 0xF {
            assert!(first.is_none());
        }
    }
    assert_eq!(legal, 151);
}

#[test]
fn decode_spot_checks() {
    let adc = FullOpcode::try_new(0x69).unwrap();
    assert_eq!(adc.opcode, Opcode::ADC);
    assert_eq!(adc.addressing_mode, AddressingMode::Immediate);

    let brk = FullOpcode::try_new(0x00).unwrap();
    assert_eq!(brk.opcode, Opcode::BRK);
    assert_eq!(brk.addressing_mode, AddressingMode::Implied);

    let jmp = FullOpcode::try_new(0x6C).unwrap();
    assert_eq!(jmp.opcode, Opcode::JMP);
    assert_eq!(jmp.addressing_mode, AddressingMode::Indirect);

    let sta = FullOpcode::try_new(0x91).unwrap();
    assert_eq!(sta.opcode, Opcode::STA);
    assert_eq!(sta.addressing_mode, AddressingMode::IndirectYIndexed);

    let nop = FullOpcode::try_new(0xEA).unwrap();
    assert_eq!(nop.opcode, Opcode::NOP);

    assert!(FullOpcode::try_new(0x80).is_none());
    assert!(FullOpcode::try_new(0x02).is_none());
}

#[test]
fn bytes_required_is_one_two_or_three() {
    let modes = [
        (AddressingMode::Accumulator, 1),
        (AddressingMode::Implied, 1),
        (AddressingMode::Immediate, 2),
        (AddressingMode::Relative, 2),
        (AddressingMode::Zeropage, 2),
        (AddressingMode::ZeropageXIndexed, 2),
        (AddressingMode::ZeropageYIndexed, 2),
        (AddressingMode::IndirectXIndexed, 2),
        (AddressingMode::IndirectYIndexed, 2),
        (AddressingMode::Absolute, 3),
        (AddressingMode::AbsoluteXIndexed, 3),
        (AddressingMode::AbsoluteYIndexed, 3),
        (AddressingMode::Indirect, 3),
    ];
    for (mode, expected) in modes {
        let got = mode.bytes_required();
        assert_eq!(got, expected);
        assert!((1..=3).contains(&got));
    }
}

#[test]
fn adc_carry_chain() {
    // $FF + $01 = $00 with carry out and zero set, no signed overflow.
    let mut cpu = cpu_with_ram(&[(0x0000, 0x69), (0x0001, 0x01)]);
    cpu.accumulator = 0xFF;

    cpu.cycle();

    assert_eq!(cpu.accumulator, 0x00);
    assert!(cpu.processor_status.carry_flag());
    assert!(cpu.processor_status.zero_flag());
    assert!(!cpu.processor_status.overflow_flag());
    assert!(!cpu.processor_status.negative_flag());
}

#[test]
fn adc_uses_incoming_carry() {
    let mut cpu = cpu_with_ram(&[(0x0000, 0x69), (0x0001, 0x10)]);
    cpu.accumulator = 0x05;
    cpu.processor_status.set_carry_flag();

    cpu.cycle();

    assert_eq!(cpu.accumulator, 0x16);
    assert!(!cpu.processor_status.carry_flag());
}

#[test]
fn sbc_matches_adc_of_complement() {
    // For every combination tried, SBC M leaves the same A and flags as
    // ADC (M ^ $FF).
    for &(a, m, carry) in &[
        (0x50u8, 0x10u8, true),
        (0x50, 0xB0, false),
        (0x00, 0x01, true),
        (0x80, 0x7F, false),
        (0x3A, 0x3A, true),
    ] {
        let mut sbc_cpu = cpu_with_ram(&[(0x0000, 0xE9), (0x0001, m)]);
        sbc_cpu.accumulator = a;
        if carry {
            sbc_cpu.processor_status.set_carry_flag();
        }
        let sbc_cycles = sbc_cpu.cycle();

        let mut adc_cpu = cpu_with_ram(&[(0x0000, 0x69), (0x0001, m ^ 0xFF)]);
        adc_cpu.accumulator = a;
        if carry {
            adc_cpu.processor_status.set_carry_flag();
        }
        let adc_cycles = adc_cpu.cycle();

        assert_eq!(sbc_cpu.accumulator, adc_cpu.accumulator);
        assert_eq!(sbc_cpu.processor_status.0, adc_cpu.processor_status.0);
        assert_eq!(sbc_cycles, adc_cycles);
    }
}

#[test]
fn cmp_flags_match_subtraction_and_leave_a_alone() {
    for &(a, m) in &[(0x50u8, 0x30u8), (0x30, 0x50), (0x42, 0x42), (0x00, 0xFF)] {
        let mut cmp_cpu = cpu_with_ram(&[(0x0000, 0xC9), (0x0001, m)]);
        cmp_cpu.accumulator = a;
        cmp_cpu.cycle();

        // SBC with the carry set computes A - M through the same adder.
        let mut sbc_cpu = cpu_with_ram(&[(0x0000, 0xE9), (0x0001, m)]);
        sbc_cpu.accumulator = a;
        sbc_cpu.processor_status.set_carry_flag();
        sbc_cpu.cycle();

        assert_eq!(cmp_cpu.accumulator, a);
        assert_eq!(
            cmp_cpu.processor_status.carry_flag(),
            sbc_cpu.processor_status.carry_flag()
        );
        assert_eq!(
            cmp_cpu.processor_status.zero_flag(),
            sbc_cpu.processor_status.zero_flag()
        );
        assert_eq!(
            cmp_cpu.processor_status.negative_flag(),
            sbc_cpu.processor_status.negative_flag()
        );
        assert_eq!(cmp_cpu.processor_status.carry_flag(), a >= m);
    }
}

#[test]
fn cpx_and_cpy_compare_their_registers() {
    let mut cpu = cpu_with_ram(&[(0x0000, 0xE0), (0x0001, 0x10), (0x0002, 0xC0), (0x0003, 0x30)]);
    cpu.x = 0x10;
    cpu.y = 0x20;

    cpu.cycle();
    assert!(cpu.processor_status.zero_flag());
    assert!(cpu.processor_status.carry_flag());

    cpu.cycle();
    assert!(!cpu.processor_status.zero_flag());
    assert!(!cpu.processor_status.carry_flag());
    assert!(cpu.processor_status.negative_flag());
}

#[test]
fn logical_operations_set_zero_and_negative() {
    // AND #$0F, ORA #$80, EOR #$8F in sequence.
    let mut cpu = cpu_with_ram(&[
        (0x0000, 0x29),
        (0x0001, 0x0F),
        (0x0002, 0x09),
        (0x0003, 0x80),
        (0x0004, 0x49),
        (0x0005, 0x8F),
    ]);
    cpu.accumulator = 0xF0;

    cpu.cycle();
    assert_eq!(cpu.accumulator, 0x00);
    assert!(cpu.processor_status.zero_flag());

    cpu.cycle();
    assert_eq!(cpu.accumulator, 0x80);
    assert!(cpu.processor_status.negative_flag());
    assert!(!cpu.processor_status.zero_flag());

    cpu.cycle();
    assert_eq!(cpu.accumulator, 0x0F);
    assert!(!cpu.processor_status.negative_flag());
}

#[test]
fn bit_reads_flags_from_memory() {
    // BIT $0040 with M = $C0: N and V from M's top bits, Z from A & M.
    let mut cpu = cpu_with_ram(&[(0x0000, 0x24), (0x0001, 0x40), (0x0040, 0xC0)]);
    cpu.accumulator = 0x0F;

    let cycles = cpu.cycle();

    assert_eq!(cycles, 3);
    assert_eq!(cpu.accumulator, 0x0F);
    assert!(cpu.processor_status.zero_flag());
    assert!(cpu.processor_status.negative_flag());
    assert!(cpu.processor_status.overflow_flag());
}

#[test]
fn shifts_move_bits_through_carry() {
    // ASL A on $81: carry out, result $02.
    let mut cpu = cpu_with_ram(&[(0x0000, 0x0A), (0x0001, 0x6A)]);
    cpu.accumulator = 0x81;

    cpu.cycle();
    assert_eq!(cpu.accumulator, 0x02);
    assert!(cpu.processor_status.carry_flag());

    // ROR A on $02 with carry set: carry enters at bit 7.
    cpu.cycle();
    assert_eq!(cpu.accumulator, 0x81);
    assert!(!cpu.processor_status.carry_flag());
    assert!(cpu.processor_status.negative_flag());
}

#[test]
fn rol_memory_rotates_and_writes_back() {
    // ROL $0040 with carry clear: $80 becomes $00 with carry out.
    let mut cpu = cpu_with_ram(&[(0x0000, 0x26), (0x0001, 0x40), (0x0040, 0x80)]);

    let cycles = cpu.cycle();

    assert_eq!(cycles, 5);
    assert_eq!(cpu.read(0x0040), 0x00);
    assert!(cpu.processor_status.carry_flag());
    assert!(cpu.processor_status.zero_flag());
}

#[test]
fn lsr_clears_negative_and_sets_carry_from_bit_zero() {
    let mut cpu = cpu_with_ram(&[(0x0000, 0x4A)]);
    cpu.accumulator = 0x03;

    cpu.cycle();

    assert_eq!(cpu.accumulator, 0x01);
    assert!(cpu.processor_status.carry_flag());
    assert!(!cpu.processor_status.negative_flag());
}

#[test]
fn inc_and_dec_wrap_in_memory() {
    let mut cpu = cpu_with_ram(&[
        (0x0000, 0xE6),
        (0x0001, 0x40),
        (0x0002, 0xC6),
        (0x0003, 0x41),
        (0x0040, 0xFF),
        (0x0041, 0x00),
    ]);

    let inc_cycles = cpu.cycle();
    assert_eq!(inc_cycles, 5);
    assert_eq!(cpu.read(0x0040), 0x00);
    assert!(cpu.processor_status.zero_flag());

    let dec_cycles = cpu.cycle();
    assert_eq!(dec_cycles, 5);
    assert_eq!(cpu.read(0x0041), 0xFF);
    assert!(cpu.processor_status.negative_flag());
}

#[test]
fn register_increments_wrap() {
    let mut cpu = cpu_with_ram(&[(0x0000, 0xE8), (0x0001, 0x88)]);
    cpu.x = 0xFF;
    cpu.y = 0x00;

    cpu.cycle();
    assert_eq!(cpu.x, 0x00);
    assert!(cpu.processor_status.zero_flag());

    cpu.cycle();
    assert_eq!(cpu.y, 0xFF);
    assert!(cpu.processor_status.negative_flag());
}

#[test]
fn loads_and_stores_move_bytes() {
    // LDA $10; STA $20; LDX #$05; STX $21; LDY $22,X is zero-page indexed.
    let mut cpu = cpu_with_ram(&[
        (0x0000, 0xA5),
        (0x0001, 0x10),
        (0x0002, 0x85),
        (0x0003, 0x20),
        (0x0004, 0xA2),
        (0x0005, 0x05),
        (0x0006, 0x86),
        (0x0007, 0x21),
        (0x0010, 0x7E),
    ]);

    assert_eq!(cpu.cycle(), 3);
    assert_eq!(cpu.accumulator, 0x7E);

    assert_eq!(cpu.cycle(), 3);
    assert_eq!(cpu.read(0x0020), 0x7E);

    assert_eq!(cpu.cycle(), 2);
    assert_eq!(cpu.x, 0x05);

    assert_eq!(cpu.cycle(), 3);
    assert_eq!(cpu.read(0x0021), 0x05);
}

#[test]
fn ldx_zero_page_indexes_with_y() {
    // Opcode $B6 is LDX zero-page indexed: the index register is Y.
    let mut cpu = cpu_with_ram(&[(0x0000, 0xB6), (0x0001, 0x40), (0x0044, 0x99)]);
    cpu.y = 0x04;
    cpu.x = 0x77;

    let cycles = cpu.cycle();

    assert_eq!(cycles, 4);
    assert_eq!(cpu.x, 0x99);
}

#[test]
fn absolute_indexed_read_charges_for_page_cross() {
    // LDA $12F0,X with X = $20 crosses into $1310: 5 cycles.
    let mut cpu = cpu_with_ram(&[
        (0x0000, 0xBD),
        (0x0001, 0xF0),
        (0x0002, 0x12),
        (0x1310, 0x44),
    ]);
    cpu.x = 0x20;

    let cycles = cpu.cycle();

    assert_eq!(cycles, 5);
    assert_eq!(cpu.accumulator, 0x44);
}

#[test]
fn absolute_indexed_read_same_page_costs_four() {
    let mut cpu = cpu_with_ram(&[
        (0x0000, 0xB9),
        (0x0001, 0x00),
        (0x0002, 0x12),
        (0x1205, 0x33),
    ]);
    cpu.y = 0x05;

    let cycles = cpu.cycle();

    assert_eq!(cycles, 4);
    assert_eq!(cpu.accumulator, 0x33);
}

#[test]
fn indirect_x_wraps_pointer_in_page_zero() {
    // LDA ($FE,X) with X = $01: the pointer is read from $FF and $00.
    let mut cpu = cpu_with_ram(&[
        (0x0000, 0xA1),
        (0x0001, 0xFE),
        (0x00FF, 0x34),
        (0xA134, 0x5A),
    ]);
    // The pointer high byte wraps to $0000, which still holds the opcode
    // byte $A1, so the effective address is $A134.
    cpu.x = 0x01;

    let cycles = cpu.cycle();

    assert_eq!(cycles, 6);
    assert_eq!(cpu.accumulator, 0x5A);
}

#[test]
fn indirect_y_adds_y_after_the_pointer() {
    // LDA ($40),Y: pointer $1200 at $40/$41, plus Y = $10.
    let mut cpu = cpu_with_ram(&[
        (0x0000, 0xB1),
        (0x0001, 0x40),
        (0x0040, 0x00),
        (0x0041, 0x12),
        (0x1210, 0x77),
    ]);
    cpu.y = 0x10;

    let cycles = cpu.cycle();

    assert_eq!(cycles, 5);
    assert_eq!(cpu.accumulator, 0x77);
}

#[test]
fn indirect_y_charges_for_page_cross() {
    let mut cpu = cpu_with_ram(&[
        (0x0000, 0xB1),
        (0x0001, 0x40),
        (0x0040, 0xF8),
        (0x0041, 0x12),
        (0x1308, 0x66),
    ]);
    cpu.y = 0x10;

    let cycles = cpu.cycle();

    assert_eq!(cycles, 6);
    assert_eq!(cpu.accumulator, 0x66);
}

#[test]
fn transfers_set_flags_except_txs() {
    let mut cpu = cpu_with_ram(&[(0x0000, 0xAA), (0x0001, 0x9A), (0x0002, 0xBA)]);
    cpu.accumulator = 0x80;

    // TAX copies and sets N.
    cpu.cycle();
    assert_eq!(cpu.x, 0x80);
    assert!(cpu.processor_status.negative_flag());

    // TXS copies X to S and leaves the flags alone.
    cpu.processor_status.clear_negative_flag();
    cpu.cycle();
    assert_eq!(cpu.stack_pointer, 0x80);
    assert!(!cpu.processor_status.negative_flag());

    // TSX copies back and sets N again.
    cpu.cycle();
    assert_eq!(cpu.x, 0x80);
    assert!(cpu.processor_status.negative_flag());
}

#[test]
fn php_forces_break_bit_in_pushed_copy() {
    let mut cpu = cpu_with_ram(&[(0x0000, 0x08)]);
    cpu.stack_pointer = 0xFF;

    let cycles = cpu.cycle();

    assert_eq!(cycles, 3);
    assert_ne!(cpu.read(0x01FF) & 0b0001_0000, 0);
    assert!(!cpu.processor_status.break_flag());
}

#[test]
fn pha_and_pla_move_the_accumulator() {
    let mut cpu = cpu_with_ram(&[(0x0000, 0x48), (0x0001, 0xA9), (0x0002, 0x00), (0x0003, 0x68)]);
    cpu.accumulator = 0x3C;
    cpu.stack_pointer = 0xFF;

    assert_eq!(cpu.cycle(), 3);
    assert_eq!(cpu.read(0x01FF), 0x3C);

    cpu.cycle();
    assert_eq!(cpu.accumulator, 0x00);

    assert_eq!(cpu.cycle(), 4);
    assert_eq!(cpu.accumulator, 0x3C);
    assert_eq!(cpu.stack_pointer, 0xFF);
}

#[test]
fn rti_restores_status_and_program_counter() {
    let mut cpu = cpu_with_ram(&[
        (0x0000, 0x40),
        (0x01FD, 0b1100_0001),
        (0x01FE, 0x34),
        (0x01FF, 0x12),
    ]);
    cpu.stack_pointer = 0xFC;
    cpu.processor_status = nes6502::processor_status::ProcessorStatus(0b0011_0000);

    let cycles = cpu.cycle();

    assert_eq!(cycles, 6);
    assert_eq!(cpu.program_counter, 0x1234);
    // Bits 4 and 5 keep their pre-RTI values; the rest come from the
    // popped copy.
    assert_eq!(cpu.processor_status.0, 0b1111_0001);
    assert_eq!(cpu.stack_pointer, 0xFF);
}

#[test]
fn status_flag_instructions_flip_their_bits() {
    let mut cpu = cpu_with_ram(&[
        (0x0000, 0x38),
        (0x0001, 0xF8),
        (0x0002, 0x78),
        (0x0003, 0x18),
        (0x0004, 0xD8),
        (0x0005, 0x58),
    ]);

    cpu.cycle();
    assert!(cpu.processor_status.carry_flag());
    cpu.cycle();
    assert!(cpu.processor_status.decimal_flag());
    cpu.cycle();
    assert!(cpu.processor_status.interrupt_disable_flag());

    cpu.cycle();
    assert!(!cpu.processor_status.carry_flag());
    cpu.cycle();
    assert!(!cpu.processor_status.decimal_flag());
    cpu.cycle();
    assert!(!cpu.processor_status.interrupt_disable_flag());
}

#[test]
fn clv_clears_overflow() {
    let mut cpu = cpu_with_ram(&[(0x0000, 0xB8)]);
    cpu.processor_status.set_overflow_flag();

    cpu.cycle();

    assert!(!cpu.processor_status.overflow_flag());
}

#[test]
fn decimal_flag_has_no_effect_on_adc() {
    // The NES variant ignores D: $09 + $01 is $0A, not BCD $10.
    let mut cpu = cpu_with_ram(&[(0x0000, 0x69), (0x0001, 0x01)]);
    cpu.accumulator = 0x09;
    cpu.processor_status.set_decimal_flag();

    cpu.cycle();

    assert_eq!(cpu.accumulator, 0x0A);
    assert!(cpu.processor_status.decimal_flag());
}

#[test]
fn sta_never_pays_the_page_cross_cycle() {
    // STA $12F0,Y with Y = $20 crosses a page but still costs 5 cycles.
    let mut cpu = cpu_with_ram(&[(0x0000, 0x99), (0x0001, 0xF0), (0x0002, 0x12)]);
    cpu.accumulator = 0xAB;
    cpu.y = 0x20;

    let cycles = cpu.cycle();

    assert_eq!(cycles, 5);
    assert_eq!(cpu.read(0x1310), 0xAB);
}

#[test]
fn nop_only_advances_pc() {
    let mut cpu = cpu_with_ram(&[(0x0000, 0xEA)]);
    let before_a = cpu.accumulator;

    let cycles = cpu.cycle();

    assert_eq!(cycles, 2);
    assert_eq!(cpu.program_counter, 0x0001);
    assert_eq!(cpu.accumulator, before_a);
}

#[test]
fn pc_wraps_at_the_top_of_memory() {
    // A NOP at $FFFF wraps the program counter to $0000.
    let mut cpu = cpu_with_ram(&[(0xFFFF, 0xEA)]);
    cpu.program_counter = 0xFFFF;

    cpu.cycle();

    assert_eq!(cpu.program_counter, 0x0000);
}
