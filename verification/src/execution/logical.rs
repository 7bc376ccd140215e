//! AND, ORA, EOR and BIT: the bitwise accumulator operations.
use vstd::prelude::*;

use vstd::pervasive::unreached;

use crate::execution::{
    absolute_read, absolute_x_read, absolute_y_read, immediate_read, indirect_x_read,
    indirect_y_read, zeropage_read, zeropage_x_read,
};
use crate::instruction::AddressingMode;
use crate::model::{
    is_read_operand_mode, operand_value, operands_for_mode, spec_with_nz, step_bit,
    step_bitwise_a, MachineState,
};
use crate::processor_status::{spec_set_flag, OVERFLOW_FLAG_MASK, ZERO_FLAG_MASK};
use crate::{Cpu, Interrupts, Mapper};

verus! {

impl<M: Mapper, I: Interrupts> Cpu<M, I> {
    /// AND: `A <- A & M`; Z and N from the result.
    pub(crate) fn instruction_and(
        &mut self,
        addressing_mode: AddressingMode,
        low_byte: Option<u8>,
        high_byte: Option<u8>,
    ) -> (cycles: u8)
        requires
            is_read_operand_mode(addressing_mode),
            operands_for_mode(addressing_mode, low_byte, high_byte),
        ensures
            final(self).machine() == step_bitwise_a(
                old(self).machine(),
                old(self).machine().a & operand_value(
                    old(self).machine(),
                    addressing_mode,
                    low_byte,
                    high_byte,
                ),
                addressing_mode,
                low_byte,
            ).0,
            cycles == step_bitwise_a(
                old(self).machine(),
                old(self).machine().a & operand_value(
                    old(self).machine(),
                    addressing_mode,
                    low_byte,
                    high_byte,
                ),
                addressing_mode,
                low_byte,
            ).1,
            final(self).same_host_state(old(self)),
    {
        match addressing_mode {
            AddressingMode::Immediate => {
                let value = immediate_read(low_byte);
                let result = self.accumulator & value;
                self.set_a_nz(result);

                2
            },
            AddressingMode::Zeropage => {
                let value = zeropage_read(self, low_byte);
                let result = self.accumulator & value;
                self.set_a_nz(result);

                3
            },
            AddressingMode::ZeropageXIndexed => {
                let value = zeropage_x_read(self, low_byte);
                let result = self.accumulator & value;
                self.set_a_nz(result);

                4
            },
            AddressingMode::Absolute => {
                let value = absolute_read(self, low_byte, high_byte);
                let result = self.accumulator & value;
                self.set_a_nz(result);

                4
            },
            AddressingMode::AbsoluteXIndexed => {
                let (value, boundary_crossed) = absolute_x_read(self, low_byte, high_byte);
                let result = self.accumulator & value;
                self.set_a_nz(result);

                if boundary_crossed {
                    5
                } else {
                    4
                }
            },
            AddressingMode::AbsoluteYIndexed => {
                let (value, boundary_crossed) = absolute_y_read(self, low_byte, high_byte);
                let result = self.accumulator & value;
                self.set_a_nz(result);

                if boundary_crossed {
                    5
                } else {
                    4
                }
            },
            AddressingMode::IndirectXIndexed => {
                let value = indirect_x_read(self, low_byte);
                let result = self.accumulator & value;
                self.set_a_nz(result);

                6
            },
            AddressingMode::IndirectYIndexed => {
                let (value, boundary_crossed) = indirect_y_read(self, low_byte);
                let result = self.accumulator & value;
                self.set_a_nz(result);

                if boundary_crossed {
                    6
                } else {
                    5
                }
            },
            _ => unreached(),
        }
    }

    /// ORA: `A <- A | M`; Z and N from the result.
    pub(crate) fn instruction_ora(
        &mut self,
        addressing_mode: AddressingMode,
        low_byte: Option<u8>,
        high_byte: Option<u8>,
    ) -> (cycles: u8)
        requires
            is_read_operand_mode(addressing_mode),
            operands_for_mode(addressing_mode, low_byte, high_byte),
        ensures
            final(self).machine() == step_bitwise_a(
                old(self).machine(),
                old(self).machine().a | operand_value(
                    old(self).machine(),
                    addressing_mode,
                    low_byte,
                    high_byte,
                ),
                addressing_mode,
                low_byte,
            ).0,
            cycles == step_bitwise_a(
                old(self).machine(),
                old(self).machine().a | operand_value(
                    old(self).machine(),
                    addressing_mode,
                    low_byte,
                    high_byte,
                ),
                addressing_mode,
                low_byte,
            ).1,
            final(self).same_host_state(old(self)),
    {
        match addressing_mode {
            AddressingMode::Immediate => {
                let value = immediate_read(low_byte);
                let result = self.accumulator | value;
                self.set_a_nz(result);

                2
            },
            AddressingMode::Zeropage => {
                let value = zeropage_read(self, low_byte);
                let result = self.accumulator | value;
                self.set_a_nz(result);

                3
            },
            AddressingMode::ZeropageXIndexed => {
                let value = zeropage_x_read(self, low_byte);
                let result = self.accumulator | value;
                self.set_a_nz(result);

                4
            },
            AddressingMode::Absolute => {
                let value = absolute_read(self, low_byte, high_byte);
                let result = self.accumulator | value;
                self.set_a_nz(result);

                4
            },
            AddressingMode::AbsoluteXIndexed => {
                let (value, boundary_crossed) = absolute_x_read(self, low_byte, high_byte);
                let result = self.accumulator | value;
                self.set_a_nz(result);

                if boundary_crossed {
                    5
                } else {
                    4
                }
            },
            AddressingMode::AbsoluteYIndexed => {
                let (value, boundary_crossed) = absolute_y_read(self, low_byte, high_byte);
                let result = self.accumulator | value;
                self.set_a_nz(result);

                if boundary_crossed {
                    5
                } else {
                    4
                }
            },
            AddressingMode::IndirectXIndexed => {
                let value = indirect_x_read(self, low_byte);
                let result = self.accumulator | value;
                self.set_a_nz(result);

                6
            },
            AddressingMode::IndirectYIndexed => {
                let (value, boundary_crossed) = indirect_y_read(self, low_byte);
                let result = self.accumulator | value;
                self.set_a_nz(result);

                if boundary_crossed {
                    6
                } else {
                    5
                }
            },
            _ => unreached(),
        }
    }

    /// EOR: `A <- A ^ M`; Z and N from the result.
    pub(crate) fn instruction_eor(
        &mut self,
        addressing_mode: AddressingMode,
        low_byte: Option<u8>,
        high_byte: Option<u8>,
    ) -> (cycles: u8)
        requires
            is_read_operand_mode(addressing_mode),
            operands_for_mode(addressing_mode, low_byte, high_byte),
        ensures
            final(self).machine() == step_bitwise_a(
                old(self).machine(),
                old(self).machine().a ^ operand_value(
                    old(self).machine(),
                    addressing_mode,
                    low_byte,
                    high_byte,
                ),
                addressing_mode,
                low_byte,
            ).0,
            cycles == step_bitwise_a(
                old(self).machine(),
                old(self).machine().a ^ operand_value(
                    old(self).machine(),
                    addressing_mode,
                    low_byte,
                    high_byte,
                ),
                addressing_mode,
                low_byte,
            ).1,
            final(self).same_host_state(old(self)),
    {
        match addressing_mode {
            AddressingMode::Immediate => {
                let value = immediate_read(low_byte);
                let result = self.accumulator ^ value;
                self.set_a_nz(result);

                2
            },
            AddressingMode::Zeropage => {
                let value = zeropage_read(self, low_byte);
                let result = self.accumulator ^ value;
                self.set_a_nz(result);

                3
            },
            AddressingMode::ZeropageXIndexed => {
                let value = zeropage_x_read(self, low_byte);
                let result = self.accumulator ^ value;
                self.set_a_nz(result);

                4
            },
            AddressingMode::Absolute => {
                let value = absolute_read(self, low_byte, high_byte);
                let result = self.accumulator ^ value;
                self.set_a_nz(result);

                4
            },
            AddressingMode::AbsoluteXIndexed => {
                let (value, boundary_crossed) = absolute_x_read(self, low_byte, high_byte);
                let result = self.accumulator ^ value;
                self.set_a_nz(result);

                if boundary_crossed {
                    5
                } else {
                    4
                }
            },
            AddressingMode::AbsoluteYIndexed => {
                let (value, boundary_crossed) = absolute_y_read(self, low_byte, high_byte);
                let result = self.accumulator ^ value;
                self.set_a_nz(result);

                if boundary_crossed {
                    5
                } else {
                    4
                }
            },
            AddressingMode::IndirectXIndexed => {
                let value = indirect_x_read(self, low_byte);
                let result = self.accumulator ^ value;
                self.set_a_nz(result);

                6
            },
            AddressingMode::IndirectYIndexed => {
                let (value, boundary_crossed) = indirect_y_read(self, low_byte);
                let result = self.accumulator ^ value;
                self.set_a_nz(result);

                if boundary_crossed {
                    6
                } else {
                    5
                }
            },
            _ => unreached(),
        }
    }

    /// BIT: Z from `A & M`, N from bit 7 of M, V from bit 6 of M;
    /// A untouched.
    pub(crate) fn instruction_bit(
        &mut self,
        addressing_mode: AddressingMode,
        low_byte: Option<u8>,
        high_byte: Option<u8>,
    ) -> (cycles: u8)
        requires
            addressing_mode == AddressingMode::Zeropage || addressing_mode
                == AddressingMode::Absolute,
            operands_for_mode(addressing_mode, low_byte, high_byte),
        ensures
            final(self).machine() == step_bit(
                old(self).machine(),
                addressing_mode,
                low_byte,
                high_byte,
            ).0,
            cycles == step_bit(old(self).machine(), addressing_mode, low_byte, high_byte).1,
            final(self).same_host_state(old(self)),
    {
        match addressing_mode {
            AddressingMode::Zeropage => {
                let value = zeropage_read(self, low_byte);
                self.bit_intermediate(value);

                3
            },
            AddressingMode::Absolute => {
                let value = absolute_read(self, low_byte, high_byte);
                self.bit_intermediate(value);

                4
            },
            _ => unreached(),
        }
    }

    /// Stores a result byte in the accumulator and sets Z and N from it.
    pub(crate) fn set_a_nz(&mut self, value: u8)
        ensures
            final(self).machine() == (MachineState {
                a: value,
                p: spec_with_nz(old(self).machine().p, value),
                ..old(self).machine()
            }),
            final(self).same_host_state(old(self)),
    {
        self.accumulator = value;
        self.modify_zero_flag(value);
        self.modify_negative_flag(value);
    }

    /// The BIT flag update from the operand byte.
    fn bit_intermediate(&mut self, value: u8)
        ensures
            final(self).machine() == (MachineState {
                p: spec_set_flag(
                    spec_set_flag(
                        spec_set_flag(
                            old(self).machine().p,
                            ZERO_FLAG_MASK,
                            old(self).machine().a & value == 0,
                        ),
                        OVERFLOW_FLAG_MASK,
                        value & OVERFLOW_FLAG_MASK != 0,
                    ),
                    crate::processor_status::NEGATIVE_FLAG_MASK,
                    value >> 7 != 0,
                ),
                ..old(self).machine()
            }),
            final(self).same_host_state(old(self)),
    {
        if self.accumulator & value == 0 {
            self.processor_status.set_zero_flag();
        } else {
            self.processor_status.clear_zero_flag();
        }

        if value & OVERFLOW_FLAG_MASK != 0 {
            self.processor_status.set_overflow_flag();
        } else {
            self.processor_status.clear_overflow_flag();
        }

        self.modify_negative_flag(value);
    }
}

} // verus!
