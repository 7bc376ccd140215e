//! Reference collaborators and record types for driving the core from a
//! conformance harness: a flat 64 KiB RAM mapper, a plain interrupt-line
//! container, and the shape of one recorded test case.
use vstd::prelude::*;

use crate::snapshot::CpuState;
use crate::{Interrupts, Mapper};

verus! {

/// A memory mapper backed by flat 64 KiB of RAM: every address reads back
/// exactly what was last written.
pub struct Memory(Vec<u8>);

impl Memory {
    /// True of every value this type can construct: the backing store
    /// covers the whole 16-bit address space.
    #[verifier::type_invariant]
    spec fn backing_full(self) -> bool {
        self.0@.len() == 0x10000
    }

    /// 64 KiB of zeroed RAM.
    pub fn new() -> (r: Self)
        ensures
            forall|a: u16| r.mem_view()[a] == 0,
    {
        let mut bytes: Vec<u8> = Vec::new();
        while bytes.len() < 0x10000
            invariant
                bytes@.len() <= 0x10000,
                forall|j: int| 0 <= j < bytes@.len() ==> bytes@[j] == 0,
            decreases 0x10000 - bytes@.len(),
        {
            bytes.push(0);
        }
        Memory(bytes)
    }
}

impl Mapper for Memory {
    closed spec fn mem_view(&self) -> Map<u16, u8> {
        Map::new(|a: u16| true, |a: u16| self.0@[a as int])
    }

    fn read(&self, address: u16) -> (r: u8) {
        proof {
            use_type_invariant(self);
        }
        self.0[address as usize]
    }

    fn write(&mut self, address: u16, byte: u8) {
        proof {
            use_type_invariant(&*self);
        }
        self.0[address as usize] = byte;
        proof {
            assert(self.mem_view() =~= old(self).mem_view().insert(address, byte));
        }
    }
}

/// The interrupt lines as two plain latches the host sets and the core
/// acknowledges.
pub struct InterruptsContainer {
    pub interrupt: bool,
    pub non_maskable_interrupt: bool,
}

impl InterruptsContainer {
    /// Both lines start deasserted.
    pub fn new() -> (r: Self)
        ensures
            !r.interrupt,
            !r.non_maskable_interrupt,
    {
        Self::default()
    }
}

impl Default for InterruptsContainer {
    fn default() -> (r: Self)
        ensures
            !r.interrupt,
            !r.non_maskable_interrupt,
    {
        InterruptsContainer { interrupt: false, non_maskable_interrupt: false }
    }
}

impl Interrupts for InterruptsContainer {
    open spec fn irq_line(&self) -> bool {
        self.interrupt
    }

    open spec fn nmi_line(&self) -> bool {
        self.non_maskable_interrupt
    }

    fn interrupt_state(&self) -> (r: bool) {
        self.interrupt
    }

    fn set_interrupt_state(&mut self, new_state: bool) {
        self.interrupt = new_state;
    }

    fn non_maskable_interrupt_state(&self) -> (r: bool) {
        self.non_maskable_interrupt
    }

    fn set_non_maskable_interrupt_state(&mut self, new_state: bool) {
        self.non_maskable_interrupt = new_state;
    }
}

/// One recorded conformance case: a name, the state before, the state
/// after, and the per-cycle bus activity the recording lists.
pub struct Example {
    pub name: String,
    pub initial_state: CpuState,
    pub final_state: CpuState,
    pub cycles: Vec<Vec<CyclePart>>,
}

/// One element of a recorded bus cycle: an address or data value, or the
/// direction tag ("read" or "write").
pub enum CyclePart {
    Integer(u64),
    String(String),
}

} // verus!
