//! INC, DEC and the register increments and decrements, all wrapping in
//! 8 bits.
use vstd::prelude::*;

use vstd::pervasive::unreached;

use crate::execution::{
    absolute_read, absolute_write, absolute_x_read, absolute_x_write, zeropage_read,
    zeropage_write, zeropage_x_read, zeropage_x_write,
};
use crate::instruction::{AddressingMode, Opcode};
use crate::model::{is_inc_dec_mode, operands_for_mode, step_instr};
use crate::{Cpu, Interrupts, Mapper};

verus! {

impl<M: Mapper, I: Interrupts> Cpu<M, I> {
    /// INC: add one to a memory cell, wrapping; Z and N from the result.
    pub(crate) fn instruction_inc(
        &mut self,
        addressing_mode: AddressingMode,
        low_byte: Option<u8>,
        high_byte: Option<u8>,
    ) -> (cycles: u8)
        requires
            is_inc_dec_mode(addressing_mode),
            operands_for_mode(addressing_mode, low_byte, high_byte),
        ensures
            final(self).machine() == step_instr(
                old(self).machine(),
                Opcode::INC,
                addressing_mode,
                low_byte,
                high_byte,
            ).0,
            cycles == step_instr(
                old(self).machine(),
                Opcode::INC,
                addressing_mode,
                low_byte,
                high_byte,
            ).1,
            final(self).same_host_state(old(self)),
    {
        match addressing_mode {
            AddressingMode::Zeropage => {
                let mut value = zeropage_read(self, low_byte);

                value = value.wrapping_add(1);

                self.modify_zero_flag(value);
                self.modify_negative_flag(value);

                zeropage_write(self, low_byte, value);

                5
            },
            AddressingMode::ZeropageXIndexed => {
                let mut value = zeropage_x_read(self, low_byte);

                value = value.wrapping_add(1);

                self.modify_zero_flag(value);
                self.modify_negative_flag(value);

                zeropage_x_write(self, low_byte, value);

                6
            },
            AddressingMode::Absolute => {
                let mut value = absolute_read(self, low_byte, high_byte);

                value = value.wrapping_add(1);

                self.modify_zero_flag(value);
                self.modify_negative_flag(value);

                absolute_write(self, low_byte, high_byte, value);

                6
            },
            AddressingMode::AbsoluteXIndexed => {
                let (mut value, _) = absolute_x_read(self, low_byte, high_byte);

                value = value.wrapping_add(1);

                self.modify_zero_flag(value);
                self.modify_negative_flag(value);

                absolute_x_write(self, low_byte, high_byte, value);

                7
            },
            _ => unreached(),
        }
    }

    /// INX: add one to X, wrapping; Z and N from the result. 2 cycles.
    pub(crate) fn instruction_inx(&mut self) -> (cycles: u8)
        ensures
            final(self).machine() == step_instr(
                old(self).machine(),
                Opcode::INX,
                AddressingMode::Implied,
                None,
                None,
            ).0,
            cycles == 2,
            final(self).same_host_state(old(self)),
    {
        let value = self.x.wrapping_add(1);
        self.set_x_nz(value);

        2
    }

    /// INY: add one to Y, wrapping; Z and N from the result. 2 cycles.
    pub(crate) fn instruction_iny(&mut self) -> (cycles: u8)
        ensures
            final(self).machine() == step_instr(
                old(self).machine(),
                Opcode::INY,
                AddressingMode::Implied,
                None,
                None,
            ).0,
            cycles == 2,
            final(self).same_host_state(old(self)),
    {
        let value = self.y.wrapping_add(1);
        self.set_y_nz(value);

        2
    }

    /// DEC: subtract one from a memory cell, wrapping; Z and N from the
    /// result.
    pub(crate) fn instruction_dec(
        &mut self,
        addressing_mode: AddressingMode,
        low_byte: Option<u8>,
        high_byte: Option<u8>,
    ) -> (cycles: u8)
        requires
            is_inc_dec_mode(addressing_mode),
            operands_for_mode(addressing_mode, low_byte, high_byte),
        ensures
            final(self).machine() == step_instr(
                old(self).machine(),
                Opcode::DEC,
                addressing_mode,
                low_byte,
                high_byte,
            ).0,
            cycles == step_instr(
                old(self).machine(),
                Opcode::DEC,
                addressing_mode,
                low_byte,
                high_byte,
            ).1,
            final(self).same_host_state(old(self)),
    {
        match addressing_mode {
            AddressingMode::Zeropage => {
                let mut value = zeropage_read(self, low_byte);

                value = value.wrapping_sub(1);

                self.modify_zero_flag(value);
                self.modify_negative_flag(value);

                zeropage_write(self, low_byte, value);

                5
            },
            AddressingMode::ZeropageXIndexed => {
                let mut value = zeropage_x_read(self, low_byte);

                value = value.wrapping_sub(1);

                self.modify_zero_flag(value);
                self.modify_negative_flag(value);

                zeropage_x_write(self, low_byte, value);

                6
            },
            AddressingMode::Absolute => {
                let mut value = absolute_read(self, low_byte, high_byte);

                value = value.wrapping_sub(1);

                self.modify_zero_flag(value);
                self.modify_negative_flag(value);

                absolute_write(self, low_byte, high_byte, value);

                6
            },
            AddressingMode::AbsoluteXIndexed => {
                let (mut value, _) = absolute_x_read(self, low_byte, high_byte);

                value = value.wrapping_sub(1);

                self.modify_zero_flag(value);
                self.modify_negative_flag(value);

                absolute_x_write(self, low_byte, high_byte, value);

                7
            },
            _ => unreached(),
        }
    }

    /// DEX: subtract one from X, wrapping; Z and N from the result.
    /// 2 cycles.
    pub(crate) fn instruction_dex(&mut self) -> (cycles: u8)
        ensures
            final(self).machine() == step_instr(
                old(self).machine(),
                Opcode::DEX,
                AddressingMode::Implied,
                None,
                None,
            ).0,
            cycles == 2,
            final(self).same_host_state(old(self)),
    {
        let value = self.x.wrapping_sub(1);
        self.set_x_nz(value);

        2
    }

    /// DEY: subtract one from Y, wrapping; Z and N from the result.
    /// 2 cycles.
    pub(crate) fn instruction_dey(&mut self) -> (cycles: u8)
        ensures
            final(self).machine() == step_instr(
                old(self).machine(),
                Opcode::DEY,
                AddressingMode::Implied,
                None,
                None,
            ).0,
            cycles == 2,
            final(self).same_host_state(old(self)),
    {
        let value = self.y.wrapping_sub(1);
        self.set_y_nz(value);

        2
    }
}

} // verus!
