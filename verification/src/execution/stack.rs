//! The stack instructions: TSX, TXS, PHA, PHP, PLA and PLP. The stack
//! lives in page one and the pointer wraps silently in both directions.
use vstd::prelude::*;

use crate::instruction::{AddressingMode, Opcode};
use crate::model::step_instr;
use crate::processor_status::ProcessorStatus;
use crate::{Cpu, Interrupts, Mapper};

verus! {

impl<M: Mapper, I: Interrupts> Cpu<M, I> {
    /// TSX: copy S into X; Z and N from the copied byte. 2 cycles.
    pub(crate) fn instruction_tsx(&mut self) -> (cycles: u8)
        ensures
            final(self).machine() == step_instr(
                old(self).machine(),
                Opcode::TSX,
                AddressingMode::Implied,
                None,
                None,
            ).0,
            cycles == 2,
            final(self).same_host_state(old(self)),
    {
        let value = self.stack_pointer;
        self.set_x_nz(value);

        2
    }

    /// TXS: copy X into S; no flags change. 2 cycles.
    pub(crate) fn instruction_txs(&mut self) -> (cycles: u8)
        ensures
            final(self).machine() == step_instr(
                old(self).machine(),
                Opcode::TXS,
                AddressingMode::Implied,
                None,
                None,
            ).0,
            cycles == 2,
            final(self).same_host_state(old(self)),
    {
        self.stack_pointer = self.x;
        2
    }

    /// PHA: push the accumulator. 3 cycles.
    pub(crate) fn instruction_pha(&mut self) -> (cycles: u8)
        ensures
            final(self).machine() == step_instr(
                old(self).machine(),
                Opcode::PHA,
                AddressingMode::Implied,
                None,
                None,
            ).0,
            cycles == 3,
            final(self).same_host_state(old(self)),
    {
        self.push(self.accumulator);
        3
    }

    /// PHP: push P with the break bit forced set; the live break bit ends
    /// clear. 3 cycles.
    pub(crate) fn instruction_php(&mut self) -> (cycles: u8)
        ensures
            final(self).machine() == step_instr(
                old(self).machine(),
                Opcode::PHP,
                AddressingMode::Implied,
                None,
                None,
            ).0,
            cycles == 3,
            final(self).same_host_state(old(self)),
    {
        self.processor_status.set_break_flag();
        self.push(self.processor_status.0);
        self.processor_status.clear_break_flag();

        3
    }

    /// PLA: pop into the accumulator; Z and N from the popped byte.
    /// 4 cycles.
    pub(crate) fn instruction_pla(&mut self) -> (cycles: u8)
        ensures
            final(self).machine() == step_instr(
                old(self).machine(),
                Opcode::PLA,
                AddressingMode::Implied,
                None,
                None,
            ).0,
            cycles == 4,
            final(self).same_host_state(old(self)),
    {
        let value = self.pop();
        self.set_a_nz(value);

        4
    }

    /// PLP: pop into P, but keep the current break and unused bits; they
    /// are software-visible only through the pushed copy. 4 cycles.
    pub(crate) fn instruction_plp(&mut self) -> (cycles: u8)
        ensures
            final(self).machine() == step_instr(
                old(self).machine(),
                Opcode::PLP,
                AddressingMode::Implied,
                None,
                None,
            ).0,
            cycles == 4,
            final(self).same_host_state(old(self)),
    {
        let original_flags = self.processor_status.0 & 0x30;
        let popped = self.pop();
        self.processor_status = ProcessorStatus((popped & 0xCF) | original_flags);

        4
    }
}

} // verus!
