//! ASL, LSR, ROL and ROR: the carry takes the bit shifted out, and for the
//! rotates the old carry enters at the opposite end.
use vstd::prelude::*;

use vstd::pervasive::unreached;

use crate::execution::{
    absolute_read, absolute_write, absolute_x_read, absolute_x_write, zeropage_read,
    zeropage_write, zeropage_x_read, zeropage_x_write,
};
use crate::instruction::{AddressingMode, Opcode};
use crate::model::{is_shift_mode, operands_for_mode, step_instr, MachineState};
use crate::processor_status::{spec_set_flag, CARRY_FLAG_MASK};
use crate::{Cpu, Interrupts, Mapper};

verus! {

impl<M: Mapper, I: Interrupts> Cpu<M, I> {
    /// ASL: shift left one bit; bit 7 drops into the carry.
    pub(crate) fn instruction_asl(
        &mut self,
        addressing_mode: AddressingMode,
        low_byte: Option<u8>,
        high_byte: Option<u8>,
    ) -> (cycles: u8)
        requires
            is_shift_mode(addressing_mode),
            operands_for_mode(addressing_mode, low_byte, high_byte),
        ensures
            final(self).machine() == step_instr(
                old(self).machine(),
                Opcode::ASL,
                addressing_mode,
                low_byte,
                high_byte,
            ).0,
            cycles == step_instr(
                old(self).machine(),
                Opcode::ASL,
                addressing_mode,
                low_byte,
                high_byte,
            ).1,
            final(self).same_host_state(old(self)),
    {
        match addressing_mode {
            AddressingMode::Accumulator => {
                let value = self.accumulator;
                let result = value << 1u8;

                self.set_carry_to(value & 0x80 != 0);
                self.accumulator = result;
                self.modify_zero_flag(result);
                self.modify_negative_flag(result);

                2
            },
            AddressingMode::Zeropage => {
                let value = zeropage_read(self, low_byte);
                let result = value << 1u8;

                self.set_carry_to(value & 0x80 != 0);
                self.modify_zero_flag(result);
                self.modify_negative_flag(result);

                zeropage_write(self, low_byte, result);

                5
            },
            AddressingMode::ZeropageXIndexed => {
                let value = zeropage_x_read(self, low_byte);
                let result = value << 1u8;

                self.set_carry_to(value & 0x80 != 0);
                self.modify_zero_flag(result);
                self.modify_negative_flag(result);

                zeropage_x_write(self, low_byte, result);

                6
            },
            AddressingMode::Absolute => {
                let value = absolute_read(self, low_byte, high_byte);
                let result = value << 1u8;

                self.set_carry_to(value & 0x80 != 0);
                self.modify_zero_flag(result);
                self.modify_negative_flag(result);

                absolute_write(self, low_byte, high_byte, result);

                6
            },
            AddressingMode::AbsoluteXIndexed => {
                let (value, _) = absolute_x_read(self, low_byte, high_byte);
                let result = value << 1u8;

                self.set_carry_to(value & 0x80 != 0);
                self.modify_zero_flag(result);
                self.modify_negative_flag(result);

                absolute_x_write(self, low_byte, high_byte, result);

                7
            },
            _ => unreached(),
        }
    }

    /// LSR: shift right one bit; bit 0 drops into the carry, N clears.
    pub(crate) fn instruction_lsr(
        &mut self,
        addressing_mode: AddressingMode,
        low_byte: Option<u8>,
        high_byte: Option<u8>,
    ) -> (cycles: u8)
        requires
            is_shift_mode(addressing_mode),
            operands_for_mode(addressing_mode, low_byte, high_byte),
        ensures
            final(self).machine() == step_instr(
                old(self).machine(),
                Opcode::LSR,
                addressing_mode,
                low_byte,
                high_byte,
            ).0,
            cycles == step_instr(
                old(self).machine(),
                Opcode::LSR,
                addressing_mode,
                low_byte,
                high_byte,
            ).1,
            final(self).same_host_state(old(self)),
    {
        match addressing_mode {
            AddressingMode::Accumulator => {
                let value = self.accumulator;
                let result = value >> 1u8;

                self.set_carry_to(value & 0x01 != 0);
                self.accumulator = result;
                self.modify_zero_flag(result);
                self.modify_negative_flag(result);

                2
            },
            AddressingMode::Zeropage => {
                let value = zeropage_read(self, low_byte);
                let result = value >> 1u8;

                self.set_carry_to(value & 0x01 != 0);
                self.modify_zero_flag(result);
                self.modify_negative_flag(result);

                zeropage_write(self, low_byte, result);

                5
            },
            AddressingMode::ZeropageXIndexed => {
                let value = zeropage_x_read(self, low_byte);
                let result = value >> 1u8;

                self.set_carry_to(value & 0x01 != 0);
                self.modify_zero_flag(result);
                self.modify_negative_flag(result);

                zeropage_x_write(self, low_byte, result);

                6
            },
            AddressingMode::Absolute => {
                let value = absolute_read(self, low_byte, high_byte);
                let result = value >> 1u8;

                self.set_carry_to(value & 0x01 != 0);
                self.modify_zero_flag(result);
                self.modify_negative_flag(result);

                absolute_write(self, low_byte, high_byte, result);

                6
            },
            AddressingMode::AbsoluteXIndexed => {
                let (value, _) = absolute_x_read(self, low_byte, high_byte);
                let result = value >> 1u8;

                self.set_carry_to(value & 0x01 != 0);
                self.modify_zero_flag(result);
                self.modify_negative_flag(result);

                absolute_x_write(self, low_byte, high_byte, result);

                7
            },
            _ => unreached(),
        }
    }

    /// ROL: rotate left through the carry.
    pub(crate) fn instruction_rol(
        &mut self,
        addressing_mode: AddressingMode,
        low_byte: Option<u8>,
        high_byte: Option<u8>,
    ) -> (cycles: u8)
        requires
            is_shift_mode(addressing_mode),
            operands_for_mode(addressing_mode, low_byte, high_byte),
        ensures
            final(self).machine() == step_instr(
                old(self).machine(),
                Opcode::ROL,
                addressing_mode,
                low_byte,
                high_byte,
            ).0,
            cycles == step_instr(
                old(self).machine(),
                Opcode::ROL,
                addressing_mode,
                low_byte,
                high_byte,
            ).1,
            final(self).same_host_state(old(self)),
    {
        match addressing_mode {
            AddressingMode::Accumulator => {
                let value = self.accumulator;
                let carry_bit: u8 = if self.processor_status.carry_flag() {
                    1
                } else {
                    0
                };
                let result = (value << 1u8) | carry_bit;

                self.set_carry_to(value & 0x80 != 0);
                self.accumulator = result;
                self.modify_zero_flag(result);
                self.modify_negative_flag(result);

                2
            },
            AddressingMode::Zeropage => {
                let value = zeropage_read(self, low_byte);
                let carry_bit: u8 = if self.processor_status.carry_flag() {
                    1
                } else {
                    0
                };
                let result = (value << 1u8) | carry_bit;

                self.set_carry_to(value & 0x80 != 0);
                self.modify_zero_flag(result);
                self.modify_negative_flag(result);

                zeropage_write(self, low_byte, result);

                5
            },
            AddressingMode::ZeropageXIndexed => {
                let value = zeropage_x_read(self, low_byte);
                let carry_bit: u8 = if self.processor_status.carry_flag() {
                    1
                } else {
                    0
                };
                let result = (value << 1u8) | carry_bit;

                self.set_carry_to(value & 0x80 != 0);
                self.modify_zero_flag(result);
                self.modify_negative_flag(result);

                zeropage_x_write(self, low_byte, result);

                6
            },
            AddressingMode::Absolute => {
                let value = absolute_read(self, low_byte, high_byte);
                let carry_bit: u8 = if self.processor_status.carry_flag() {
                    1
                } else {
                    0
                };
                let result = (value << 1u8) | carry_bit;

                self.set_carry_to(value & 0x80 != 0);
                self.modify_zero_flag(result);
                self.modify_negative_flag(result);

                absolute_write(self, low_byte, high_byte, result);

                6
            },
            AddressingMode::AbsoluteXIndexed => {
                let (value, _) = absolute_x_read(self, low_byte, high_byte);
                let carry_bit: u8 = if self.processor_status.carry_flag() {
                    1
                } else {
                    0
                };
                let result = (value << 1u8) | carry_bit;

                self.set_carry_to(value & 0x80 != 0);
                self.modify_zero_flag(result);
                self.modify_negative_flag(result);

                absolute_x_write(self, low_byte, high_byte, result);

                7
            },
            _ => unreached(),
        }
    }

    /// ROR: rotate right through the carry.
    pub(crate) fn instruction_ror(
        &mut self,
        addressing_mode: AddressingMode,
        low_byte: Option<u8>,
        high_byte: Option<u8>,
    ) -> (cycles: u8)
        requires
            is_shift_mode(addressing_mode),
            operands_for_mode(addressing_mode, low_byte, high_byte),
        ensures
            final(self).machine() == step_instr(
                old(self).machine(),
                Opcode::ROR,
                addressing_mode,
                low_byte,
                high_byte,
            ).0,
            cycles == step_instr(
                old(self).machine(),
                Opcode::ROR,
                addressing_mode,
                low_byte,
                high_byte,
            ).1,
            final(self).same_host_state(old(self)),
    {
        match addressing_mode {
            AddressingMode::Accumulator => {
                let value = self.accumulator;
                let carry_bit: u8 = if self.processor_status.carry_flag() {
                    1
                } else {
                    0
                };
                let result = (value >> 1u8) | (carry_bit << 7u8);

                self.set_carry_to(value & 0x01 != 0);
                self.accumulator = result;
                self.modify_zero_flag(result);
                self.modify_negative_flag(result);

                2
            },
            AddressingMode::Zeropage => {
                let value = zeropage_read(self, low_byte);
                let carry_bit: u8 = if self.processor_status.carry_flag() {
                    1
                } else {
                    0
                };
                let result = (value >> 1u8) | (carry_bit << 7u8);

                self.set_carry_to(value & 0x01 != 0);
                self.modify_zero_flag(result);
                self.modify_negative_flag(result);

                zeropage_write(self, low_byte, result);

                5
            },
            AddressingMode::ZeropageXIndexed => {
                let value = zeropage_x_read(self, low_byte);
                let carry_bit: u8 = if self.processor_status.carry_flag() {
                    1
                } else {
                    0
                };
                let result = (value >> 1u8) | (carry_bit << 7u8);

                self.set_carry_to(value & 0x01 != 0);
                self.modify_zero_flag(result);
                self.modify_negative_flag(result);

                zeropage_x_write(self, low_byte, result);

                6
            },
            AddressingMode::Absolute => {
                let value = absolute_read(self, low_byte, high_byte);
                let carry_bit: u8 = if self.processor_status.carry_flag() {
                    1
                } else {
                    0
                };
                let result = (value >> 1u8) | (carry_bit << 7u8);

                self.set_carry_to(value & 0x01 != 0);
                self.modify_zero_flag(result);
                self.modify_negative_flag(result);

                absolute_write(self, low_byte, high_byte, result);

                6
            },
            AddressingMode::AbsoluteXIndexed => {
                let (value, _) = absolute_x_read(self, low_byte, high_byte);
                let carry_bit: u8 = if self.processor_status.carry_flag() {
                    1
                } else {
                    0
                };
                let result = (value >> 1u8) | (carry_bit << 7u8);

                self.set_carry_to(value & 0x01 != 0);
                self.modify_zero_flag(result);
                self.modify_negative_flag(result);

                absolute_x_write(self, low_byte, high_byte, result);

                7
            },
            _ => unreached(),
        }
    }

    /// Forces the carry flag to the given value.
    fn set_carry_to(&mut self, on: bool)
        ensures
            final(self).machine() == (MachineState {
                p: spec_set_flag(old(self).machine().p, CARRY_FLAG_MASK, on),
                ..old(self).machine()
            }),
            final(self).same_host_state(old(self)),
    {
        if on {
            self.processor_status.set_carry_flag();
        } else {
            self.processor_status.clear_carry_flag();
        }
    }
}

} // verus!
