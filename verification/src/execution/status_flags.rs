//! The status-flag setters and clearers: CLC, CLD, CLI, CLV, SEC, SED and
//! SEI. Each flips its flag and costs 2 cycles.
use vstd::prelude::*;

use crate::instruction::{AddressingMode, Opcode};
use crate::model::step_instr;
use crate::{Cpu, Interrupts, Mapper};

verus! {

impl<M: Mapper, I: Interrupts> Cpu<M, I> {
    /// CLC: clear the carry flag.
    pub(crate) fn instruction_clc(&mut self) -> (cycles: u8)
        ensures
            final(self).machine() == step_instr(
                old(self).machine(),
                Opcode::CLC,
                AddressingMode::Implied,
                None,
                None,
            ).0,
            cycles == 2,
            final(self).same_host_state(old(self)),
    {
        self.processor_status.clear_carry_flag();
        2
    }

    /// SEC: set the carry flag.
    pub(crate) fn instruction_sec(&mut self) -> (cycles: u8)
        ensures
            final(self).machine() == step_instr(
                old(self).machine(),
                Opcode::SEC,
                AddressingMode::Implied,
                None,
                None,
            ).0,
            cycles == 2,
            final(self).same_host_state(old(self)),
    {
        self.processor_status.set_carry_flag();
        2
    }

    /// CLD: clear the decimal flag. This variant never consults it, but it
    /// stays settable.
    pub(crate) fn instruction_cld(&mut self) -> (cycles: u8)
        ensures
            final(self).machine() == step_instr(
                old(self).machine(),
                Opcode::CLD,
                AddressingMode::Implied,
                None,
                None,
            ).0,
            cycles == 2,
            final(self).same_host_state(old(self)),
    {
        self.processor_status.clear_decimal_flag();
        2
    }

    /// SED: set the decimal flag.
    pub(crate) fn instruction_sed(&mut self) -> (cycles: u8)
        ensures
            final(self).machine() == step_instr(
                old(self).machine(),
                Opcode::SED,
                AddressingMode::Implied,
                None,
                None,
            ).0,
            cycles == 2,
            final(self).same_host_state(old(self)),
    {
        self.processor_status.set_decimal_flag();
        2
    }

    /// CLI: clear the interrupt-disable flag.
    pub(crate) fn instruction_cli(&mut self) -> (cycles: u8)
        ensures
            final(self).machine() == step_instr(
                old(self).machine(),
                Opcode::CLI,
                AddressingMode::Implied,
                None,
                None,
            ).0,
            cycles == 2,
            final(self).same_host_state(old(self)),
    {
        self.processor_status.clear_interrupt_disable_flag();
        2
    }

    /// SEI: set the interrupt-disable flag.
    pub(crate) fn instruction_sei(&mut self) -> (cycles: u8)
        ensures
            final(self).machine() == step_instr(
                old(self).machine(),
                Opcode::SEI,
                AddressingMode::Implied,
                None,
                None,
            ).0,
            cycles == 2,
            final(self).same_host_state(old(self)),
    {
        self.processor_status.set_interrupt_disable_flag();
        2
    }

    /// CLV: clear the overflow flag.
    pub(crate) fn instruction_clv(&mut self) -> (cycles: u8)
        ensures
            final(self).machine() == step_instr(
                old(self).machine(),
                Opcode::CLV,
                AddressingMode::Implied,
                None,
                None,
            ).0,
            cycles == 2,
            final(self).same_host_state(old(self)),
    {
        self.processor_status.clear_overflow_flag();
        2
    }
}

} // verus!
