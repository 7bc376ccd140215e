//! BRK, NOP and RTI, plus the interrupt entry routine that BRK, IRQ, NMI
//! and reset all share.
use vstd::prelude::*;

use crate::execution::{pack_bytes, unpack_bytes};
use crate::instruction::{AddressingMode, Opcode};
use crate::model::{step_instr, step_interrupt, InterruptState};
use crate::processor_status::ProcessorStatus;
use crate::{Cpu, Interrupts, Mapper};
use crate::{IRQ_BRK_VECTOR_ADDRESS, NMI_VECTOR_ADDRESS, RESET_VECTOR_ADDRESS};

verus! {

impl<M: Mapper, I: Interrupts> Cpu<M, I> {
    /// The shared BRK/interrupt entry: push PC high then low, push P (with
    /// the break bit forced set for BRK and reset), set interrupt-disable,
    /// and load PC from the vector the trigger selects. The vector bytes
    /// are read after the pushes. 7 cycles.
    ///
    /// For a BRK opcode, PC has already advanced past the opcode and its
    /// one-byte padding signature during fetch.
    pub(crate) fn instruction_brk(&mut self, interrupt_state: InterruptState) -> (cycles: u8)
        ensures
            final(self).machine() == step_interrupt(old(self).machine(), interrupt_state).0,
            cycles == 7,
            final(self).same_host_state(old(self)),
    {
        let (pc_low, pc_high) = unpack_bytes(self.program_counter);

        self.push(pc_high);
        self.push(pc_low);

        // The break flag is only meaningful in the pushed copy: it is
        // forced on for a software BRK (and for reset), left as-is for the
        // hardware interrupts.
        let software = interrupt_state == InterruptState::Inactive || interrupt_state
            == InterruptState::Reset;

        if software {
            self.processor_status.set_break_flag();
        }

        self.push(self.processor_status.0);

        if software {
            self.processor_status.clear_break_flag();
        }

        // Interrupt-disable is set after the flags are pushed.
        self.processor_status.set_interrupt_disable_flag();

        let vector = match interrupt_state {
            InterruptState::Inactive | InterruptState::MaskableInterrupt => {
                IRQ_BRK_VECTOR_ADDRESS
            },
            InterruptState::Reset => RESET_VECTOR_ADDRESS,
            InterruptState::NonMaskableInterrupt => NMI_VECTOR_ADDRESS,
        };

        let target_low = self.read(vector);
        let target_high = self.read(vector + 1);
        self.program_counter = pack_bytes(target_low, target_high);

        7
    }

    /// NOP: nothing but time. 2 cycles.
    pub(crate) fn instruction_nop(&mut self) -> (cycles: u8)
        ensures
            final(self).machine() == old(self).machine(),
            cycles == 2,
            final(self).same_host_state(old(self)),
    {
        2
    }

    /// RTI: pop P (keeping the current break and unused bits), then PC low,
    /// then PC high. 6 cycles.
    pub(crate) fn instruction_rti(&mut self) -> (cycles: u8)
        ensures
            final(self).machine() == step_instr(
                old(self).machine(),
                Opcode::RTI,
                AddressingMode::Implied,
                None,
                None,
            ).0,
            cycles == 6,
            final(self).same_host_state(old(self)),
    {
        let popped = self.pop();
        self.processor_status = ProcessorStatus(
            (popped & 0xCF) | (self.processor_status.0 & 0x30),
        );

        let pc_low = self.pop();
        let pc_high: u8 = self.pop();

        self.program_counter = pack_bytes(pc_low, pc_high);

        6
    }
}

} // verus!
