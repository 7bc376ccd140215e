//! JMP, JSR and RTS, including the indirect-JMP page-wrap quirk.
use vstd::prelude::*;

use vstd::pervasive::unreached;

use crate::execution::{pack_bytes, pack_bytes_wrapped, unpack_bytes};
use crate::instruction::{AddressingMode, Opcode};
use crate::model::{operands_for_mode, step_instr};
use crate::{Cpu, Interrupts, Mapper};

verus! {

impl<M: Mapper, I: Interrupts> Cpu<M, I> {
    /// JMP: absolute loads PC from the operand; indirect reads the target
    /// through a pointer. When the pointer's low byte is 0xFF, the target's
    /// high byte is read from the start of the *same* page, reproducing the
    /// hardware bug.
    pub(crate) fn instruction_jmp(
        &mut self,
        addressing_mode: AddressingMode,
        low_byte: Option<u8>,
        high_byte: Option<u8>,
    ) -> (cycles: u8)
        requires
            addressing_mode == AddressingMode::Absolute || addressing_mode
                == AddressingMode::Indirect,
            operands_for_mode(addressing_mode, low_byte, high_byte),
        ensures
            final(self).machine() == step_instr(
                old(self).machine(),
                Opcode::JMP,
                addressing_mode,
                low_byte,
                high_byte,
            ).0,
            cycles == step_instr(
                old(self).machine(),
                Opcode::JMP,
                addressing_mode,
                low_byte,
                high_byte,
            ).1,
            final(self).same_host_state(old(self)),
    {
        match addressing_mode {
            AddressingMode::Absolute => {
                self.program_counter = pack_bytes_wrapped(low_byte, high_byte);
                3
            },
            AddressingMode::Indirect => {
                let base_address = pack_bytes_wrapped(low_byte, high_byte);

                // A pointer ending in 0xFF wraps within its page: the high
                // byte comes from xx00, not from the next page.
                self.program_counter = if base_address % 0x100 == 0xFF {
                    let lsb = self.read(base_address);
                    let msb = self.read(base_address - 0xFF);
                    pack_bytes(lsb, msb)
                } else {
                    let lsb = self.read(base_address);
                    let msb = self.read(base_address + 1);
                    pack_bytes(lsb, msb)
                };

                5
            },
            _ => unreached(),
        }
    }

    /// JSR: push the return address minus one, high byte first, then load
    /// PC with the target. 6 cycles.
    pub(crate) fn instruction_jsr(&mut self, low_byte: Option<u8>, high_byte: Option<u8>) -> (cycles:
        u8)
        requires
            low_byte.is_some(),
            high_byte.is_some(),
        ensures
            final(self).machine() == step_instr(
                old(self).machine(),
                Opcode::JSR,
                AddressingMode::Absolute,
                low_byte,
                high_byte,
            ).0,
            cycles == 6,
            final(self).same_host_state(old(self)),
    {
        let subroutine_address = pack_bytes_wrapped(low_byte, high_byte);

        let (pc_low, pc_high) = unpack_bytes(self.program_counter.wrapping_sub(1));

        self.push(pc_high);
        self.push(pc_low);

        self.program_counter = subroutine_address;

        6
    }

    /// RTS: pop the low then the high return byte and resume one past the
    /// recorded address. 6 cycles.
    pub(crate) fn instruction_rts(&mut self) -> (cycles: u8)
        ensures
            final(self).machine() == step_instr(
                old(self).machine(),
                Opcode::RTS,
                AddressingMode::Implied,
                None,
                None,
            ).0,
            cycles == 6,
            final(self).same_host_state(old(self)),
    {
        let pc_low = self.pop();
        let pc_high: u8 = self.pop();

        self.program_counter = pack_bytes(pc_low, pc_high).wrapping_add(1);

        6
    }
}

} // verus!
