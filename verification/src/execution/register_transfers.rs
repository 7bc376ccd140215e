//! The register transfers TAX, TAY, TXA and TYA; each copies a register
//! and sets Z and N from the copied byte.
use vstd::prelude::*;

use crate::instruction::{AddressingMode, Opcode};
use crate::model::step_instr;
use crate::{Cpu, Interrupts, Mapper};

verus! {

impl<M: Mapper, I: Interrupts> Cpu<M, I> {
    /// TAX: copy A into X. 2 cycles.
    pub(crate) fn instruction_tax(&mut self) -> (cycles: u8)
        ensures
            final(self).machine() == step_instr(
                old(self).machine(),
                Opcode::TAX,
                AddressingMode::Implied,
                None,
                None,
            ).0,
            cycles == 2,
            final(self).same_host_state(old(self)),
    {
        let value = self.accumulator;
        self.set_x_nz(value);

        2
    }

    /// TAY: copy A into Y. 2 cycles.
    pub(crate) fn instruction_tay(&mut self) -> (cycles: u8)
        ensures
            final(self).machine() == step_instr(
                old(self).machine(),
                Opcode::TAY,
                AddressingMode::Implied,
                None,
                None,
            ).0,
            cycles == 2,
            final(self).same_host_state(old(self)),
    {
        let value = self.accumulator;
        self.set_y_nz(value);

        2
    }

    /// TXA: copy X into A. 2 cycles.
    pub(crate) fn instruction_txa(&mut self) -> (cycles: u8)
        ensures
            final(self).machine() == step_instr(
                old(self).machine(),
                Opcode::TXA,
                AddressingMode::Implied,
                None,
                None,
            ).0,
            cycles == 2,
            final(self).same_host_state(old(self)),
    {
        let value = self.x;
        self.set_a_nz(value);

        2
    }

    /// TYA: copy Y into A. 2 cycles.
    pub(crate) fn instruction_tya(&mut self) -> (cycles: u8)
        ensures
            final(self).machine() == step_instr(
                old(self).machine(),
                Opcode::TYA,
                AddressingMode::Implied,
                None,
                None,
            ).0,
            cycles == 2,
            final(self).same_host_state(old(self)),
    {
        let value = self.y;
        self.set_a_nz(value);

        2
    }
}

} // verus!
