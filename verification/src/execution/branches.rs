//! The eight conditional branches. Each applies a signed 8-bit offset to
//! the post-fetch program counter when its condition holds.
use vstd::prelude::*;

use crate::execution::twos_compliment_to_signed;
use crate::instruction::{AddressingMode, Opcode};
use crate::model::step_instr;
use crate::model::step_branch;
use crate::{Cpu, Interrupts, Mapper};

verus! {

impl<M: Mapper, I: Interrupts> Cpu<M, I> {
    /// BCC: branch if the carry flag is clear.
    pub(crate) fn instruction_bcc(&mut self, low_byte: Option<u8>) -> (cycles: u8)
        requires
            low_byte.is_some(),
        ensures
            final(self).machine() == step_instr(
                old(self).machine(),
                Opcode::BCC,
                AddressingMode::Relative,
                low_byte,
                None,
            ).0,
            cycles == step_instr(
                old(self).machine(),
                Opcode::BCC,
                AddressingMode::Relative,
                low_byte,
                None,
            ).1,
            final(self).same_host_state(old(self)),
    {
        let needs_branch = !self.processor_status.carry_flag();
        branch(self, low_byte, needs_branch)
    }

    /// BCS: branch if the carry flag is set.
    pub(crate) fn instruction_bcs(&mut self, low_byte: Option<u8>) -> (cycles: u8)
        requires
            low_byte.is_some(),
        ensures
            final(self).machine() == step_instr(
                old(self).machine(),
                Opcode::BCS,
                AddressingMode::Relative,
                low_byte,
                None,
            ).0,
            cycles == step_instr(
                old(self).machine(),
                Opcode::BCS,
                AddressingMode::Relative,
                low_byte,
                None,
            ).1,
            final(self).same_host_state(old(self)),
    {
        let needs_branch = self.processor_status.carry_flag();
        branch(self, low_byte, needs_branch)
    }

    /// BEQ: branch if the zero flag is set.
    pub(crate) fn instruction_beq(&mut self, low_byte: Option<u8>) -> (cycles: u8)
        requires
            low_byte.is_some(),
        ensures
            final(self).machine() == step_instr(
                old(self).machine(),
                Opcode::BEQ,
                AddressingMode::Relative,
                low_byte,
                None,
            ).0,
            cycles == step_instr(
                old(self).machine(),
                Opcode::BEQ,
                AddressingMode::Relative,
                low_byte,
                None,
            ).1,
            final(self).same_host_state(old(self)),
    {
        let needs_branch = self.processor_status.zero_flag();
        branch(self, low_byte, needs_branch)
    }

    /// BMI: branch if the negative flag is set.
    pub(crate) fn instruction_bmi(&mut self, low_byte: Option<u8>) -> (cycles: u8)
        requires
            low_byte.is_some(),
        ensures
            final(self).machine() == step_instr(
                old(self).machine(),
                Opcode::BMI,
                AddressingMode::Relative,
                low_byte,
                None,
            ).0,
            cycles == step_instr(
                old(self).machine(),
                Opcode::BMI,
                AddressingMode::Relative,
                low_byte,
                None,
            ).1,
            final(self).same_host_state(old(self)),
    {
        let needs_branch = self.processor_status.negative_flag();
        branch(self, low_byte, needs_branch)
    }

    /// BNE: branch if the zero flag is clear.
    pub(crate) fn instruction_bne(&mut self, low_byte: Option<u8>) -> (cycles: u8)
        requires
            low_byte.is_some(),
        ensures
            final(self).machine() == step_instr(
                old(self).machine(),
                Opcode::BNE,
                AddressingMode::Relative,
                low_byte,
                None,
            ).0,
            cycles == step_instr(
                old(self).machine(),
                Opcode::BNE,
                AddressingMode::Relative,
                low_byte,
                None,
            ).1,
            final(self).same_host_state(old(self)),
    {
        let needs_branch = !self.processor_status.zero_flag();
        branch(self, low_byte, needs_branch)
    }

    /// BPL: branch if the negative flag is clear.
    pub(crate) fn instruction_bpl(&mut self, low_byte: Option<u8>) -> (cycles: u8)
        requires
            low_byte.is_some(),
        ensures
            final(self).machine() == step_instr(
                old(self).machine(),
                Opcode::BPL,
                AddressingMode::Relative,
                low_byte,
                None,
            ).0,
            cycles == step_instr(
                old(self).machine(),
                Opcode::BPL,
                AddressingMode::Relative,
                low_byte,
                None,
            ).1,
            final(self).same_host_state(old(self)),
    {
        let needs_branch = !self.processor_status.negative_flag();
        branch(self, low_byte, needs_branch)
    }

    /// BVC: branch if the overflow flag is clear.
    pub(crate) fn instruction_bvc(&mut self, low_byte: Option<u8>) -> (cycles: u8)
        requires
            low_byte.is_some(),
        ensures
            final(self).machine() == step_instr(
                old(self).machine(),
                Opcode::BVC,
                AddressingMode::Relative,
                low_byte,
                None,
            ).0,
            cycles == step_instr(
                old(self).machine(),
                Opcode::BVC,
                AddressingMode::Relative,
                low_byte,
                None,
            ).1,
            final(self).same_host_state(old(self)),
    {
        let needs_branch = !self.processor_status.overflow_flag();
        branch(self, low_byte, needs_branch)
    }

    /// BVS: branch if the overflow flag is set.
    pub(crate) fn instruction_bvs(&mut self, low_byte: Option<u8>) -> (cycles: u8)
        requires
            low_byte.is_some(),
        ensures
            final(self).machine() == step_instr(
                old(self).machine(),
                Opcode::BVS,
                AddressingMode::Relative,
                low_byte,
                None,
            ).0,
            cycles == step_instr(
                old(self).machine(),
                Opcode::BVS,
                AddressingMode::Relative,
                low_byte,
                None,
            ).1,
            final(self).same_host_state(old(self)),
    {
        let needs_branch = self.processor_status.overflow_flag();
        branch(self, low_byte, needs_branch)
    }
}

/// The shared branch data path: applies the signed offset when the branch
/// is taken and reports 2, 3 or 4 cycles depending on whether it was taken
/// and whether the program counter crossed a page.
pub(crate) fn branch<M: Mapper, I: Interrupts>(
    cpu: &mut Cpu<M, I>,
    low_byte: Option<u8>,
    needs_branch: bool,
) -> (cycles: u8)
    requires
        low_byte.is_some(),
    ensures
        final(cpu).machine() == step_branch(old(cpu).machine(), needs_branch, low_byte->0).0,
        cycles == step_branch(old(cpu).machine(), needs_branch, low_byte->0).1,
        final(cpu).same_host_state(old(cpu)),
{
    let value = twos_compliment_to_signed(low_byte.unwrap());
    let original_page = cpu.program_counter >> 8u16;

    if needs_branch {
        if value >= 0 {
            cpu.program_counter = cpu.program_counter.wrapping_add(value as u16);
        } else {
            cpu.program_counter = cpu.program_counter.wrapping_sub((-(value as i16)) as u16);
        }
    }

    let new_page = cpu.program_counter >> 8u16;
    let page_crossed = original_page != new_page;

    if needs_branch {
        if page_crossed {
            4
        } else {
            3
        }
    } else {
        2
    }
}

} // verus!
