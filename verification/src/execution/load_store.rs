//! The loads and stores: LDA, LDX, LDY, STA, STX, STY.
use vstd::prelude::*;

use vstd::pervasive::unreached;

use crate::execution::{
    absolute_read, absolute_write, absolute_x_read, absolute_x_write, absolute_y_read,
    absolute_y_write, immediate_read, indirect_x_read, indirect_x_write, indirect_y_read,
    indirect_y_write, zeropage_read, zeropage_write, zeropage_x_read, zeropage_x_write,
    zeropage_y_read, zeropage_y_write,
};
use crate::instruction::{AddressingMode, Opcode};
use crate::model::{
    is_read_operand_mode, operands_for_mode, spec_with_nz, step_instr, MachineState,
};
use crate::{Cpu, Interrupts, Mapper};

verus! {

impl<M: Mapper, I: Interrupts> Cpu<M, I> {
    /// LDA: load the accumulator; Z and N from the loaded byte.
    pub(crate) fn instruction_lda(
        &mut self,
        addressing_mode: AddressingMode,
        low_byte: Option<u8>,
        high_byte: Option<u8>,
    ) -> (cycles: u8)
        requires
            is_read_operand_mode(addressing_mode),
            operands_for_mode(addressing_mode, low_byte, high_byte),
        ensures
            final(self).machine() == step_instr(
                old(self).machine(),
                Opcode::LDA,
                addressing_mode,
                low_byte,
                high_byte,
            ).0,
            cycles == step_instr(
                old(self).machine(),
                Opcode::LDA,
                addressing_mode,
                low_byte,
                high_byte,
            ).1,
            final(self).same_host_state(old(self)),
    {
        match addressing_mode {
            AddressingMode::Immediate => {
                let value = immediate_read(low_byte);
                self.set_a_nz(value);

                2
            },
            AddressingMode::Zeropage => {
                let value = zeropage_read(self, low_byte);
                self.set_a_nz(value);

                3
            },
            AddressingMode::ZeropageXIndexed => {
                let value = zeropage_x_read(self, low_byte);
                self.set_a_nz(value);

                4
            },
            AddressingMode::Absolute => {
                let value = absolute_read(self, low_byte, high_byte);
                self.set_a_nz(value);

                4
            },
            AddressingMode::AbsoluteXIndexed => {
                let (value, page_changed) = absolute_x_read(self, low_byte, high_byte);
                self.set_a_nz(value);

                if page_changed {
                    5
                } else {
                    4
                }
            },
            AddressingMode::AbsoluteYIndexed => {
                let (value, page_changed) = absolute_y_read(self, low_byte, high_byte);
                self.set_a_nz(value);

                if page_changed {
                    5
                } else {
                    4
                }
            },
            AddressingMode::IndirectXIndexed => {
                let value = indirect_x_read(self, low_byte);
                self.set_a_nz(value);

                6
            },
            AddressingMode::IndirectYIndexed => {
                let (value, page_changed) = indirect_y_read(self, low_byte);
                self.set_a_nz(value);

                if page_changed {
                    6
                } else {
                    5
                }
            },
            _ => unreached(),
        }
    }

    /// LDX: load X. The opcode slot other instructions use for zero-page X
    /// indexing means zero-page Y indexing here.
    pub(crate) fn instruction_ldx(
        &mut self,
        addressing_mode: AddressingMode,
        low_byte: Option<u8>,
        high_byte: Option<u8>,
    ) -> (cycles: u8)
        requires
            addressing_mode == AddressingMode::Immediate || addressing_mode
                == AddressingMode::Zeropage || addressing_mode == AddressingMode::ZeropageXIndexed
                || addressing_mode == AddressingMode::ZeropageYIndexed || addressing_mode
                == AddressingMode::Absolute || addressing_mode == AddressingMode::AbsoluteYIndexed,
            operands_for_mode(addressing_mode, low_byte, high_byte),
        ensures
            final(self).machine() == step_instr(
                old(self).machine(),
                Opcode::LDX,
                addressing_mode,
                low_byte,
                high_byte,
            ).0,
            cycles == step_instr(
                old(self).machine(),
                Opcode::LDX,
                addressing_mode,
                low_byte,
                high_byte,
            ).1,
            final(self).same_host_state(old(self)),
    {
        // The decoder hands over the shared zero-page,X column; for LDX the
        // hardware indexes that column with Y.
        let addressing_mode = if addressing_mode == AddressingMode::ZeropageXIndexed {
            AddressingMode::ZeropageYIndexed
        } else {
            addressing_mode
        };

        match addressing_mode {
            AddressingMode::Immediate => {
                let value = immediate_read(low_byte);
                self.set_x_nz(value);

                2
            },
            AddressingMode::Zeropage => {
                let value = zeropage_read(self, low_byte);
                self.set_x_nz(value);

                3
            },
            AddressingMode::ZeropageYIndexed => {
                let value = zeropage_y_read(self, low_byte);
                self.set_x_nz(value);

                4
            },
            AddressingMode::Absolute => {
                let value = absolute_read(self, low_byte, high_byte);
                self.set_x_nz(value);

                4
            },
            AddressingMode::AbsoluteYIndexed => {
                let (value, page_changed) = absolute_y_read(self, low_byte, high_byte);
                self.set_x_nz(value);

                if page_changed {
                    5
                } else {
                    4
                }
            },
            _ => unreached(),
        }
    }

    /// LDY: load Y; Z and N from the loaded byte.
    pub(crate) fn instruction_ldy(
        &mut self,
        addressing_mode: AddressingMode,
        low_byte: Option<u8>,
        high_byte: Option<u8>,
    ) -> (cycles: u8)
        requires
            addressing_mode == AddressingMode::Immediate || addressing_mode
                == AddressingMode::Zeropage || addressing_mode == AddressingMode::ZeropageXIndexed
                || addressing_mode == AddressingMode::Absolute || addressing_mode
                == AddressingMode::AbsoluteXIndexed,
            operands_for_mode(addressing_mode, low_byte, high_byte),
        ensures
            final(self).machine() == step_instr(
                old(self).machine(),
                Opcode::LDY,
                addressing_mode,
                low_byte,
                high_byte,
            ).0,
            cycles == step_instr(
                old(self).machine(),
                Opcode::LDY,
                addressing_mode,
                low_byte,
                high_byte,
            ).1,
            final(self).same_host_state(old(self)),
    {
        match addressing_mode {
            AddressingMode::Immediate => {
                let value = immediate_read(low_byte);
                self.set_y_nz(value);

                2
            },
            AddressingMode::Zeropage => {
                let value = zeropage_read(self, low_byte);
                self.set_y_nz(value);

                3
            },
            AddressingMode::ZeropageXIndexed => {
                let value = zeropage_x_read(self, low_byte);
                self.set_y_nz(value);

                4
            },
            AddressingMode::Absolute => {
                let value = absolute_read(self, low_byte, high_byte);
                self.set_y_nz(value);

                4
            },
            AddressingMode::AbsoluteXIndexed => {
                let (value, page_changed) = absolute_x_read(self, low_byte, high_byte);
                self.set_y_nz(value);

                if page_changed {
                    5
                } else {
                    4
                }
            },
            _ => unreached(),
        }
    }

    /// STA: store the accumulator; no flags change.
    pub(crate) fn instruction_sta(
        &mut self,
        addressing_mode: AddressingMode,
        low_byte: Option<u8>,
        high_byte: Option<u8>,
    ) -> (cycles: u8)
        requires
            addressing_mode == AddressingMode::Zeropage || addressing_mode
                == AddressingMode::ZeropageXIndexed || addressing_mode == AddressingMode::Absolute
                || addressing_mode == AddressingMode::AbsoluteXIndexed || addressing_mode
                == AddressingMode::AbsoluteYIndexed || addressing_mode
                == AddressingMode::IndirectXIndexed || addressing_mode
                == AddressingMode::IndirectYIndexed,
            operands_for_mode(addressing_mode, low_byte, high_byte),
        ensures
            final(self).machine() == step_instr(
                old(self).machine(),
                Opcode::STA,
                addressing_mode,
                low_byte,
                high_byte,
            ).0,
            cycles == step_instr(
                old(self).machine(),
                Opcode::STA,
                addressing_mode,
                low_byte,
                high_byte,
            ).1,
            final(self).same_host_state(old(self)),
    {
        match addressing_mode {
            AddressingMode::Zeropage => {
                zeropage_write(self, low_byte, self.accumulator);
                3
            },
            AddressingMode::ZeropageXIndexed => {
                zeropage_x_write(self, low_byte, self.accumulator);
                4
            },
            AddressingMode::Absolute => {
                absolute_write(self, low_byte, high_byte, self.accumulator);
                4
            },
            AddressingMode::AbsoluteXIndexed => {
                absolute_x_write(self, low_byte, high_byte, self.accumulator);
                5
            },
            AddressingMode::AbsoluteYIndexed => {
                absolute_y_write(self, low_byte, high_byte, self.accumulator);
                5
            },
            AddressingMode::IndirectXIndexed => {
                indirect_x_write(self, low_byte, self.accumulator);
                6
            },
            AddressingMode::IndirectYIndexed => {
                indirect_y_write(self, low_byte, self.accumulator);
                6
            },
            _ => unreached(),
        }
    }

    /// STX: store X. As with LDX, the shared zero-page,X column indexes
    /// with Y here.
    pub(crate) fn instruction_stx(
        &mut self,
        addressing_mode: AddressingMode,
        low_byte: Option<u8>,
        high_byte: Option<u8>,
    ) -> (cycles: u8)
        requires
            addressing_mode == AddressingMode::Zeropage || addressing_mode
                == AddressingMode::ZeropageXIndexed || addressing_mode
                == AddressingMode::ZeropageYIndexed || addressing_mode == AddressingMode::Absolute,
            operands_for_mode(addressing_mode, low_byte, high_byte),
        ensures
            final(self).machine() == step_instr(
                old(self).machine(),
                Opcode::STX,
                addressing_mode,
                low_byte,
                high_byte,
            ).0,
            cycles == step_instr(
                old(self).machine(),
                Opcode::STX,
                addressing_mode,
                low_byte,
                high_byte,
            ).1,
            final(self).same_host_state(old(self)),
    {
        // The decoder hands over the shared zero-page,X column; for STX the
        // hardware indexes that column with Y.
        let addressing_mode = if addressing_mode == AddressingMode::ZeropageXIndexed {
            AddressingMode::ZeropageYIndexed
        } else {
            addressing_mode
        };

        match addressing_mode {
            AddressingMode::Zeropage => {
                zeropage_write(self, low_byte, self.x);
                3
            },
            AddressingMode::ZeropageYIndexed => {
                zeropage_y_write(self, low_byte, self.x);
                4
            },
            AddressingMode::Absolute => {
                absolute_write(self, low_byte, high_byte, self.x);
                4
            },
            _ => unreached(),
        }
    }

    /// STY: store Y; no flags change.
    pub(crate) fn instruction_sty(
        &mut self,
        addressing_mode: AddressingMode,
        low_byte: Option<u8>,
        high_byte: Option<u8>,
    ) -> (cycles: u8)
        requires
            addressing_mode == AddressingMode::Zeropage || addressing_mode
                == AddressingMode::ZeropageXIndexed || addressing_mode == AddressingMode::Absolute,
            operands_for_mode(addressing_mode, low_byte, high_byte),
        ensures
            final(self).machine() == step_instr(
                old(self).machine(),
                Opcode::STY,
                addressing_mode,
                low_byte,
                high_byte,
            ).0,
            cycles == step_instr(
                old(self).machine(),
                Opcode::STY,
                addressing_mode,
                low_byte,
                high_byte,
            ).1,
            final(self).same_host_state(old(self)),
    {
        match addressing_mode {
            AddressingMode::Zeropage => {
                zeropage_write(self, low_byte, self.y);

                3
            },
            AddressingMode::ZeropageXIndexed => {
                zeropage_x_write(self, low_byte, self.y);
                4
            },
            AddressingMode::Absolute => {
                absolute_write(self, low_byte, high_byte, self.y);
                4
            },
            _ => unreached(),
        }
    }

    /// Stores a loaded byte in X and sets Z and N from it.
    pub(crate) fn set_x_nz(&mut self, value: u8)
        ensures
            final(self).machine() == (MachineState {
                x: value,
                p: spec_with_nz(old(self).machine().p, value),
                ..old(self).machine()
            }),
            final(self).same_host_state(old(self)),
    {
        self.x = value;
        self.modify_zero_flag(value);
        self.modify_negative_flag(value);
    }

    /// Stores a loaded byte in Y and sets Z and N from it.
    pub(crate) fn set_y_nz(&mut self, value: u8)
        ensures
            final(self).machine() == (MachineState {
                y: value,
                p: spec_with_nz(old(self).machine().p, value),
                ..old(self).machine()
            }),
            final(self).same_host_state(old(self)),
    {
        self.y = value;
        self.modify_zero_flag(value);
        self.modify_negative_flag(value);
    }
}

} // verus!
