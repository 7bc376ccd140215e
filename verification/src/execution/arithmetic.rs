//! ADC, SBC and the three compares: two's-complement arithmetic on the
//! accumulator data path, decimal mode ignored as on the NES.
use vstd::prelude::*;

use vstd::pervasive::unreached;

use crate::execution::{
    absolute_read, absolute_x_read, absolute_y_read, immediate_read, indirect_x_read,
    indirect_y_read, zeropage_read, zeropage_x_read,
};
use crate::instruction::AddressingMode;
use crate::model::{
    adc_p, adc_sum, cmp_p, is_read_operand_mode, operands_for_mode, step_adc, step_compare,
    step_sbc, MachineState,
};
use crate::processor_status::{spec_get_flag, CARRY_FLAG_MASK};
use crate::{Cpu, Interrupts, Mapper};

verus! {

impl<M: Mapper, I: Interrupts> Cpu<M, I> {
    /// ADC: add the operand and the carry to the accumulator.
    pub(crate) fn instruction_adc(
        &mut self,
        addressing_mode: AddressingMode,
        low_byte: Option<u8>,
        high_byte: Option<u8>,
    ) -> (cycles: u8)
        requires
            is_read_operand_mode(addressing_mode),
            operands_for_mode(addressing_mode, low_byte, high_byte),
        ensures
            final(self).machine() == step_adc(
                old(self).machine(),
                addressing_mode,
                low_byte,
                high_byte,
            ).0,
            cycles == step_adc(old(self).machine(), addressing_mode, low_byte, high_byte).1,
            final(self).same_host_state(old(self)),
    {
        match addressing_mode {
            AddressingMode::Immediate => {
                let value = immediate_read(low_byte);
                self.adc_intermediate(value);

                2
            },
            AddressingMode::Zeropage => {
                let value = zeropage_read(self, low_byte);
                self.adc_intermediate(value);

                3
            },
            AddressingMode::ZeropageXIndexed => {
                let value = zeropage_x_read(self, low_byte);
                self.adc_intermediate(value);

                4
            },
            AddressingMode::Absolute => {
                let value = absolute_read(self, low_byte, high_byte);
                self.adc_intermediate(value);

                4
            },
            AddressingMode::AbsoluteXIndexed => {
                let (value, boundary_crossed) = absolute_x_read(self, low_byte, high_byte);
                self.adc_intermediate(value);

                if boundary_crossed {
                    5
                } else {
                    4
                }
            },
            AddressingMode::AbsoluteYIndexed => {
                let (value, boundary_crossed) = absolute_y_read(self, low_byte, high_byte);
                self.adc_intermediate(value);

                if boundary_crossed {
                    5
                } else {
                    4
                }
            },
            AddressingMode::IndirectXIndexed => {
                let value = indirect_x_read(self, low_byte);
                self.adc_intermediate(value);

                6
            },
            AddressingMode::IndirectYIndexed => {
                let (value, boundary_crossed) = indirect_y_read(self, low_byte);
                self.adc_intermediate(value);

                if boundary_crossed {
                    6
                } else {
                    5
                }
            },
            _ => unreached(),
        }
    }

    /// SBC: subtract the operand with borrow, implemented as ADC of the
    /// complemented operand.
    pub(crate) fn instruction_sbc(
        &mut self,
        addressing_mode: AddressingMode,
        low_byte: Option<u8>,
        high_byte: Option<u8>,
    ) -> (cycles: u8)
        requires
            is_read_operand_mode(addressing_mode),
            operands_for_mode(addressing_mode, low_byte, high_byte),
        ensures
            final(self).machine() == step_sbc(
                old(self).machine(),
                addressing_mode,
                low_byte,
                high_byte,
            ).0,
            cycles == step_sbc(old(self).machine(), addressing_mode, low_byte, high_byte).1,
            final(self).same_host_state(old(self)),
    {
        match addressing_mode {
            AddressingMode::Immediate => {
                let value = immediate_read(low_byte);
                self.sbc_intermediate(value);

                2
            },
            AddressingMode::Zeropage => {
                let value = zeropage_read(self, low_byte);
                self.sbc_intermediate(value);

                3
            },
            AddressingMode::ZeropageXIndexed => {
                let value = zeropage_x_read(self, low_byte);
                self.sbc_intermediate(value);

                4
            },
            AddressingMode::Absolute => {
                let value = absolute_read(self, low_byte, high_byte);
                self.sbc_intermediate(value);

                4
            },
            AddressingMode::AbsoluteXIndexed => {
                let (value, boundary_crossed) = absolute_x_read(self, low_byte, high_byte);
                self.sbc_intermediate(value);

                if boundary_crossed {
                    5
                } else {
                    4
                }
            },
            AddressingMode::AbsoluteYIndexed => {
                let (value, boundary_crossed) = absolute_y_read(self, low_byte, high_byte);
                self.sbc_intermediate(value);

                if boundary_crossed {
                    5
                } else {
                    4
                }
            },
            AddressingMode::IndirectXIndexed => {
                let value = indirect_x_read(self, low_byte);
                self.sbc_intermediate(value);

                6
            },
            AddressingMode::IndirectYIndexed => {
                let (value, boundary_crossed) = indirect_y_read(self, low_byte);
                self.sbc_intermediate(value);

                if boundary_crossed {
                    6
                } else {
                    5
                }
            },
            _ => unreached(),
        }
    }

    /// CMP: set the flags from `A - M`, leaving A alone.
    pub(crate) fn instruction_cmp(
        &mut self,
        addressing_mode: AddressingMode,
        low_byte: Option<u8>,
        high_byte: Option<u8>,
    ) -> (cycles: u8)
        requires
            is_read_operand_mode(addressing_mode),
            operands_for_mode(addressing_mode, low_byte, high_byte),
        ensures
            final(self).machine() == step_compare(
                old(self).machine(),
                old(self).machine().a,
                addressing_mode,
                low_byte,
                high_byte,
            ).0,
            cycles == step_compare(
                old(self).machine(),
                old(self).machine().a,
                addressing_mode,
                low_byte,
                high_byte,
            ).1,
            final(self).same_host_state(old(self)),
    {
        match addressing_mode {
            AddressingMode::Immediate => {
                let value = immediate_read(low_byte);
                self.cmp_intermediate(value);

                2
            },
            AddressingMode::Zeropage => {
                let value = zeropage_read(self, low_byte);
                self.cmp_intermediate(value);

                3
            },
            AddressingMode::ZeropageXIndexed => {
                let value = zeropage_x_read(self, low_byte);
                self.cmp_intermediate(value);

                4
            },
            AddressingMode::Absolute => {
                let value = absolute_read(self, low_byte, high_byte);
                self.cmp_intermediate(value);

                4
            },
            AddressingMode::AbsoluteXIndexed => {
                let (value, boundary_crossed) = absolute_x_read(self, low_byte, high_byte);
                self.cmp_intermediate(value);

                if boundary_crossed {
                    5
                } else {
                    4
                }
            },
            AddressingMode::AbsoluteYIndexed => {
                let (value, boundary_crossed) = absolute_y_read(self, low_byte, high_byte);
                self.cmp_intermediate(value);

                if boundary_crossed {
                    5
                } else {
                    4
                }
            },
            AddressingMode::IndirectXIndexed => {
                let value = indirect_x_read(self, low_byte);
                self.cmp_intermediate(value);

                6
            },
            AddressingMode::IndirectYIndexed => {
                let (value, boundary_crossed) = indirect_y_read(self, low_byte);
                self.cmp_intermediate(value);

                if boundary_crossed {
                    6
                } else {
                    5
                }
            },
            _ => unreached(),
        }
    }

    /// CPX: set the flags from `X - M`.
    pub(crate) fn instruction_cpx(
        &mut self,
        addressing_mode: AddressingMode,
        low_byte: Option<u8>,
        high_byte: Option<u8>,
    ) -> (cycles: u8)
        requires
            is_read_operand_mode(addressing_mode),
            operands_for_mode(addressing_mode, low_byte, high_byte),
        ensures
            final(self).machine() == step_compare(
                old(self).machine(),
                old(self).machine().x,
                addressing_mode,
                low_byte,
                high_byte,
            ).0,
            cycles == step_compare(
                old(self).machine(),
                old(self).machine().x,
                addressing_mode,
                low_byte,
                high_byte,
            ).1,
            final(self).same_host_state(old(self)),
    {
        match addressing_mode {
            AddressingMode::Immediate => {
                let value = immediate_read(low_byte);
                self.cpx_intermediate(value);

                2
            },
            AddressingMode::Zeropage => {
                let value = zeropage_read(self, low_byte);
                self.cpx_intermediate(value);

                3
            },
            AddressingMode::ZeropageXIndexed => {
                let value = zeropage_x_read(self, low_byte);
                self.cpx_intermediate(value);

                4
            },
            AddressingMode::Absolute => {
                let value = absolute_read(self, low_byte, high_byte);
                self.cpx_intermediate(value);

                4
            },
            AddressingMode::AbsoluteXIndexed => {
                let (value, boundary_crossed) = absolute_x_read(self, low_byte, high_byte);
                self.cpx_intermediate(value);

                if boundary_crossed {
                    5
                } else {
                    4
                }
            },
            AddressingMode::AbsoluteYIndexed => {
                let (value, boundary_crossed) = absolute_y_read(self, low_byte, high_byte);
                self.cpx_intermediate(value);

                if boundary_crossed {
                    5
                } else {
                    4
                }
            },
            AddressingMode::IndirectXIndexed => {
                let value = indirect_x_read(self, low_byte);
                self.cpx_intermediate(value);

                6
            },
            AddressingMode::IndirectYIndexed => {
                let (value, boundary_crossed) = indirect_y_read(self, low_byte);
                self.cpx_intermediate(value);

                if boundary_crossed {
                    6
                } else {
                    5
                }
            },
            _ => unreached(),
        }
    }

    /// CPY: set the flags from `Y - M`.
    pub(crate) fn instruction_cpy(
        &mut self,
        addressing_mode: AddressingMode,
        low_byte: Option<u8>,
        high_byte: Option<u8>,
    ) -> (cycles: u8)
        requires
            is_read_operand_mode(addressing_mode),
            operands_for_mode(addressing_mode, low_byte, high_byte),
        ensures
            final(self).machine() == step_compare(
                old(self).machine(),
                old(self).machine().y,
                addressing_mode,
                low_byte,
                high_byte,
            ).0,
            cycles == step_compare(
                old(self).machine(),
                old(self).machine().y,
                addressing_mode,
                low_byte,
                high_byte,
            ).1,
            final(self).same_host_state(old(self)),
    {
        match addressing_mode {
            AddressingMode::Immediate => {
                let value = immediate_read(low_byte);
                self.cpy_intermediate(value);

                2
            },
            AddressingMode::Zeropage => {
                let value = zeropage_read(self, low_byte);
                self.cpy_intermediate(value);

                3
            },
            AddressingMode::ZeropageXIndexed => {
                let value = zeropage_x_read(self, low_byte);
                self.cpy_intermediate(value);

                4
            },
            AddressingMode::Absolute => {
                let value = absolute_read(self, low_byte, high_byte);
                self.cpy_intermediate(value);

                4
            },
            AddressingMode::AbsoluteXIndexed => {
                let (value, boundary_crossed) = absolute_x_read(self, low_byte, high_byte);
                self.cpy_intermediate(value);

                if boundary_crossed {
                    5
                } else {
                    4
                }
            },
            AddressingMode::AbsoluteYIndexed => {
                let (value, boundary_crossed) = absolute_y_read(self, low_byte, high_byte);
                self.cpy_intermediate(value);

                if boundary_crossed {
                    5
                } else {
                    4
                }
            },
            AddressingMode::IndirectXIndexed => {
                let value = indirect_x_read(self, low_byte);
                self.cpy_intermediate(value);

                6
            },
            AddressingMode::IndirectYIndexed => {
                let (value, boundary_crossed) = indirect_y_read(self, low_byte);
                self.cpy_intermediate(value);

                if boundary_crossed {
                    6
                } else {
                    5
                }
            },
            _ => unreached(),
        }
    }
}

impl<M: Mapper, I: Interrupts> Cpu<M, I> {
    /// The ADC data path on a resolved operand byte: sum, carry, overflow,
    /// zero and negative.
    fn adc_intermediate(&mut self, value: u8)
        ensures
            final(self).machine() == (MachineState {
                a: adc_sum(
                    old(self).machine().a,
                    value,
                    spec_get_flag(old(self).machine().p, CARRY_FLAG_MASK),
                ),
                p: adc_p(
                    old(self).machine().p,
                    old(self).machine().a,
                    value,
                    spec_get_flag(old(self).machine().p, CARRY_FLAG_MASK),
                ),
                ..old(self).machine()
            }),
            final(self).same_host_state(old(self)),
    {
        let carry_in: u16 = if self.processor_status.carry_flag() {
            1
        } else {
            0
        };
        let total: u16 = self.accumulator as u16 + value as u16 + carry_in;

        // If the operands share a sign bit the sum can overflow as a signed
        // quantity; it does exactly when the result's sign differs.
        let shared_sign = (self.accumulator >> 7) == (value >> 7);
        let carry_needed = total > 0xFF;

        let sum = (total % 0x100) as u8;
        let signed_overflow = shared_sign && (sum >> 7) != (self.accumulator >> 7);

        self.accumulator = sum;

        if carry_needed {
            self.processor_status.set_carry_flag();
        } else {
            self.processor_status.clear_carry_flag();
        }

        if signed_overflow {
            self.processor_status.set_overflow_flag();
        } else {
            self.processor_status.clear_overflow_flag();
        }

        self.modify_zero_flag(sum);
        self.modify_negative_flag(sum);
    }

    /// The SBC data path: ADC of the complemented operand, the carry acting
    /// as "not borrow".
    fn sbc_intermediate(&mut self, value: u8)
        ensures
            final(self).machine() == (MachineState {
                a: adc_sum(
                    old(self).machine().a,
                    (value ^ 0xFF) as u8,
                    spec_get_flag(old(self).machine().p, CARRY_FLAG_MASK),
                ),
                p: adc_p(
                    old(self).machine().p,
                    old(self).machine().a,
                    (value ^ 0xFF) as u8,
                    spec_get_flag(old(self).machine().p, CARRY_FLAG_MASK),
                ),
                ..old(self).machine()
            }),
            final(self).same_host_state(old(self)),
    {
        self.adc_intermediate(value ^ 0xFF);
    }

    /// The compare data path against the accumulator.
    fn cmp_intermediate(&mut self, value: u8)
        ensures
            final(self).machine() == (MachineState {
                p: cmp_p(old(self).machine().p, old(self).machine().a, value),
                ..old(self).machine()
            }),
            final(self).same_host_state(old(self)),
    {
        let compared_value = self.accumulator.wrapping_sub(value);

        if self.accumulator >= value {
            self.processor_status.set_carry_flag();
        } else {
            self.processor_status.clear_carry_flag();
        }

        self.modify_zero_flag(compared_value);
        self.modify_negative_flag(compared_value);
    }

    /// The compare data path against the X register.
    fn cpx_intermediate(&mut self, value: u8)
        ensures
            final(self).machine() == (MachineState {
                p: cmp_p(old(self).machine().p, old(self).machine().x, value),
                ..old(self).machine()
            }),
            final(self).same_host_state(old(self)),
    {
        let compared_value = self.x.wrapping_sub(value);

        if self.x >= value {
            self.processor_status.set_carry_flag();
        } else {
            self.processor_status.clear_carry_flag();
        }

        self.modify_zero_flag(compared_value);
        self.modify_negative_flag(compared_value);
    }

    /// The compare data path against the Y register.
    fn cpy_intermediate(&mut self, value: u8)
        ensures
            final(self).machine() == (MachineState {
                p: cmp_p(old(self).machine().p, old(self).machine().y, value),
                ..old(self).machine()
            }),
            final(self).same_host_state(old(self)),
    {
        let compared_value = self.y.wrapping_sub(value);

        if self.y >= value {
            self.processor_status.set_carry_flag();
        } else {
            self.processor_status.clear_carry_flag();
        }

        self.modify_zero_flag(compared_value);
        self.modify_negative_flag(compared_value);
    }
}

} // verus!
