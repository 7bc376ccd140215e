//! The 8-bit status register P and its named flag accessors.
use vstd::prelude::*;

verus! {

/// Bit 0: carry.
pub const CARRY_FLAG_MASK: u8 = 0b0000_0001;
/// Bit 1: zero.
pub const ZERO_FLAG_MASK: u8 = 0b0000_0010;
/// Bit 2: interrupt disable.
pub const INTERRUPT_DISABLE_FLAG_MASK: u8 = 0b0000_0100;
/// Bit 3: decimal (kept settable although this variant ignores it in ADC/SBC).
pub const DECIMAL_FLAG_MASK: u8 = 0b0000_1000;
/// Bit 4: break; only meaningful in copies of P pushed onto the stack.
pub const BREAK_FLAG_MASK: u8 = 0b0001_0000;
/// Bit 5: unused; left untouched by the core.
pub const UNUSED_FLAG_MASK: u8 = 0b0010_0000;
/// Bit 6: overflow.
pub const OVERFLOW_FLAG_MASK: u8 = 0b0100_0000;
/// Bit 7: negative.
pub const NEGATIVE_FLAG_MASK: u8 = 0b1000_0000;

/// True iff the flag selected by `mask` is set in `p`.
pub open spec fn spec_get_flag(p: u8, mask: u8) -> bool {
    p & mask != 0
}

/// `p` with the flag selected by `mask` forced to `on`.
pub open spec fn spec_set_flag(p: u8, mask: u8, on: bool) -> u8 {
    if on {
        p | mask
    } else {
        p & !mask
    }
}

/// The status register P, an 8-bit word read and written as a whole by
/// PHP/PLP/RTI and interrupt entry.
#[derive(Clone, Copy, Debug, PartialEq, Eq, Structural)]
pub struct ProcessorStatus(pub u8);

impl ProcessorStatus {
    /// A cleared status word, the power-on state.
    pub fn new() -> (r: Self)
        ensures
            r.0 == 0u8,
    {
        ProcessorStatus(0)
    }

    pub fn carry_flag(&self) -> (r: bool)
        ensures
            r == spec_get_flag(self.0, CARRY_FLAG_MASK),
    {
        self.0 & CARRY_FLAG_MASK != 0
    }

    pub fn zero_flag(&self) -> (r: bool)
        ensures
            r == spec_get_flag(self.0, ZERO_FLAG_MASK),
    {
        self.0 & ZERO_FLAG_MASK != 0
    }

    pub fn interrupt_disable_flag(&self) -> (r: bool)
        ensures
            r == spec_get_flag(self.0, INTERRUPT_DISABLE_FLAG_MASK),
    {
        self.0 & INTERRUPT_DISABLE_FLAG_MASK != 0
    }

    pub fn decimal_flag(&self) -> (r: bool)
        ensures
            r == spec_get_flag(self.0, DECIMAL_FLAG_MASK),
    {
        self.0 & DECIMAL_FLAG_MASK != 0
    }

    pub fn break_flag(&self) -> (r: bool)
        ensures
            r == spec_get_flag(self.0, BREAK_FLAG_MASK),
    {
        self.0 & BREAK_FLAG_MASK != 0
    }

    pub fn overflow_flag(&self) -> (r: bool)
        ensures
            r == spec_get_flag(self.0, OVERFLOW_FLAG_MASK),
    {
        self.0 & OVERFLOW_FLAG_MASK != 0
    }

    pub fn negative_flag(&self) -> (r: bool)
        ensures
            r == spec_get_flag(self.0, NEGATIVE_FLAG_MASK),
    {
        self.0 & NEGATIVE_FLAG_MASK != 0
    }

    pub fn set_carry_flag(&mut self)
        ensures
            final(self).0 == spec_set_flag(old(self).0, CARRY_FLAG_MASK, true),
    {
        self.0 = self.0 | CARRY_FLAG_MASK;
    }

    pub fn clear_carry_flag(&mut self)
        ensures
            final(self).0 == spec_set_flag(old(self).0, CARRY_FLAG_MASK, false),
    {
        self.0 = self.0 & !CARRY_FLAG_MASK;
    }

    pub fn set_zero_flag(&mut self)
        ensures
            final(self).0 == spec_set_flag(old(self).0, ZERO_FLAG_MASK, true),
    {
        self.0 = self.0 | ZERO_FLAG_MASK;
    }

    pub fn clear_zero_flag(&mut self)
        ensures
            final(self).0 == spec_set_flag(old(self).0, ZERO_FLAG_MASK, false),
    {
        self.0 = self.0 & !ZERO_FLAG_MASK;
    }

    pub fn set_interrupt_disable_flag(&mut self)
        ensures
            final(self).0 == spec_set_flag(old(self).0, INTERRUPT_DISABLE_FLAG_MASK, true),
    {
        self.0 = self.0 | INTERRUPT_DISABLE_FLAG_MASK;
    }

    pub fn clear_interrupt_disable_flag(&mut self)
        ensures
            final(self).0 == spec_set_flag(old(self).0, INTERRUPT_DISABLE_FLAG_MASK, false),
    {
        self.0 = self.0 & !INTERRUPT_DISABLE_FLAG_MASK;
    }

    pub fn set_decimal_flag(&mut self)
        ensures
            final(self).0 == spec_set_flag(old(self).0, DECIMAL_FLAG_MASK, true),
    {
        self.0 = self.0 | DECIMAL_FLAG_MASK;
    }

    pub fn clear_decimal_flag(&mut self)
        ensures
            final(self).0 == spec_set_flag(old(self).0, DECIMAL_FLAG_MASK, false),
    {
        self.0 = self.0 & !DECIMAL_FLAG_MASK;
    }

    pub fn set_break_flag(&mut self)
        ensures
            final(self).0 == spec_set_flag(old(self).0, BREAK_FLAG_MASK, true),
    {
        self.0 = self.0 | BREAK_FLAG_MASK;
    }

    pub fn clear_break_flag(&mut self)
        ensures
            final(self).0 == spec_set_flag(old(self).0, BREAK_FLAG_MASK, false),
    {
        self.0 = self.0 & !BREAK_FLAG_MASK;
    }

    pub fn set_overflow_flag(&mut self)
        ensures
            final(self).0 == spec_set_flag(old(self).0, OVERFLOW_FLAG_MASK, true),
    {
        self.0 = self.0 | OVERFLOW_FLAG_MASK;
    }

    pub fn clear_overflow_flag(&mut self)
        ensures
            final(self).0 == spec_set_flag(old(self).0, OVERFLOW_FLAG_MASK, false),
    {
        self.0 = self.0 & !OVERFLOW_FLAG_MASK;
    }

    pub fn set_negative_flag(&mut self)
        ensures
            final(self).0 == spec_set_flag(old(self).0, NEGATIVE_FLAG_MASK, true),
    {
        self.0 = self.0 | NEGATIVE_FLAG_MASK;
    }

    pub fn clear_negative_flag(&mut self)
        ensures
            final(self).0 == spec_set_flag(old(self).0, NEGATIVE_FLAG_MASK, false),
    {
        self.0 = self.0 & !NEGATIVE_FLAG_MASK;
    }
}

} // verus!
