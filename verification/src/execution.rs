//! The shared data path of the execution stage: byte packing, stack access,
//! flag updates from a result byte, and one read/write helper per
//! addressing mode. Instruction routines are built from these.
use vstd::prelude::*;

use crate::model::{
    abs_indexed_addr, abs_indexed_crossed, ind_x_addr, ind_y_addr, ind_y_crossed, popped_value,
    spec_pack_bytes, spec_pop, spec_push, spec_unpack_bytes, stack_addr, wrap_add8,
    zp_indexed_addr, MachineState,
};
use crate::processor_status::{spec_set_flag, NEGATIVE_FLAG_MASK, ZERO_FLAG_MASK};
use crate::{Cpu, Interrupts, Mapper};

pub mod arithmetic;
pub mod branches;
pub mod incr_decr;
pub mod jumps_calls;
pub mod load_store;
pub mod logical;
pub mod register_transfers;
pub mod shifts;
pub mod stack;
pub mod status_flags;
pub mod system;

verus! {

impl<M: Mapper, I: Interrupts> Cpu<M, I> {
    /// Sets the zero flag iff the given byte is 0.
    pub(crate) fn modify_zero_flag(&mut self, byte: u8)
        ensures
            final(self).machine() == (MachineState {
                p: spec_set_flag(old(self).machine().p, ZERO_FLAG_MASK, byte == 0),
                ..old(self).machine()
            }),
            final(self).same_host_state(old(self)),
    {
        if byte == 0 {
            self.processor_status.set_zero_flag();
        } else {
            self.processor_status.clear_zero_flag();
        }
    }

    /// Sets the negative flag iff the given byte is negative in two's
    /// complement, i.e. iff its bit 7 is set.
    pub(crate) fn modify_negative_flag(&mut self, byte: u8)
        ensures
            final(self).machine() == (MachineState {
                p: spec_set_flag(old(self).machine().p, NEGATIVE_FLAG_MASK, byte >> 7 != 0),
                ..old(self).machine()
            }),
            final(self).same_host_state(old(self)),
    {
        if byte >> 7 != 0 {
            self.processor_status.set_negative_flag();
        } else {
            self.processor_status.clear_negative_flag();
        }
    }

    /// Pushes a byte onto the stack in page one; S decrements and wraps
    /// silently, as the hardware's does.
    pub(crate) fn push(&mut self, byte: u8)
        ensures
            final(self).machine() == spec_push(old(self).machine(), byte),
            final(self).same_host_state(old(self)),
    {
        self.write(0x0100 + self.stack_pointer as u16, byte);
        self.stack_pointer = self.stack_pointer.wrapping_sub(1);
    }

    /// Pops a byte from the stack in page one; S pre-increments and wraps.
    pub(crate) fn pop(&mut self) -> (r: u8)
        ensures
            r == popped_value(old(self).machine()),
            final(self).machine() == spec_pop(old(self).machine()),
            final(self).same_host_state(old(self)),
    {
        self.stack_pointer = self.stack_pointer.wrapping_add(1);
        self.read(0x0100 + self.stack_pointer as u16)
    }
}

/// Splits a 16-bit word into its little-endian byte pair (low, high).
pub(crate) fn unpack_bytes(packed: u16) -> (r: (u8, u8))
    ensures
        r == spec_unpack_bytes(packed),
{
    ((packed % 0x100) as u8, (packed / 0x100) as u8)
}

/// Joins a little-endian byte pair into a 16-bit word.
pub(crate) fn pack_bytes(low_byte: u8, high_byte: u8) -> (r: u16)
    ensures
        r == spec_pack_bytes(low_byte, high_byte),
{
    (high_byte as u16) * 0x100 + low_byte as u16
}

/// Joins the two fetched operand bytes into a 16-bit word.
pub(crate) fn pack_bytes_wrapped(low_byte: Option<u8>, high_byte: Option<u8>) -> (r: u16)
    requires
        low_byte.is_some(),
        high_byte.is_some(),
    ensures
        r == spec_pack_bytes(low_byte->0, high_byte->0),
{
    (high_byte.unwrap() as u16) * 0x100 + low_byte.unwrap() as u16
}

/// Reinterprets a byte as the signed 8-bit offset it encodes.
pub(crate) fn twos_compliment_to_signed(value: u8) -> (r: i8)
    ensures
        r as int == if value < 0x80 { value as int } else { value as int - 0x100 },
{
    if value < 0x80 {
        value as i8
    } else {
        (value as i16 - 0x100) as i8
    }
}

/// Immediate mode: the operand byte itself is the value.
pub(crate) fn immediate_read(low_byte: Option<u8>) -> (r: u8)
    requires
        low_byte.is_some(),
    ensures
        r == low_byte->0,
{
    low_byte.unwrap()
}

/// Zero-page mode: the operand byte is the address.
pub(crate) fn zeropage_read<M: Mapper, I: Interrupts>(cpu: &Cpu<M, I>, low_byte: Option<u8>) -> (r:
    u8)
    requires
        low_byte.is_some(),
    ensures
        r == cpu.machine().mem[(low_byte->0) as u16],
{
    let address = low_byte.unwrap() as u16;
    cpu.read(address)
}

pub(crate) fn zeropage_write<M: Mapper, I: Interrupts>(
    cpu: &mut Cpu<M, I>,
    low_byte: Option<u8>,
    value: u8,
)
    requires
        low_byte.is_some(),
    ensures
        final(cpu).machine() == (MachineState {
            mem: old(cpu).machine().mem.insert((low_byte->0) as u16, value),
            ..old(cpu).machine()
        }),
        final(cpu).same_host_state(old(cpu)),
{
    let address = low_byte.unwrap() as u16;
    cpu.write(address, value);
}

/// Zero-page X-indexed mode: the index is added in 8 bits, so the address
/// wraps within page zero.
pub(crate) fn zeropage_x_read<M: Mapper, I: Interrupts>(cpu: &Cpu<M, I>, low_byte: Option<u8>) -> (r:
    u8)
    requires
        low_byte.is_some(),
    ensures
        r == cpu.machine().mem[zp_indexed_addr(low_byte->0, cpu.machine().x)],
{
    let address = low_byte.unwrap().wrapping_add(cpu.x) as u16;
    cpu.read(address)
}

pub(crate) fn zeropage_x_write<M: Mapper, I: Interrupts>(
    cpu: &mut Cpu<M, I>,
    low_byte: Option<u8>,
    value: u8,
)
    requires
        low_byte.is_some(),
    ensures
        final(cpu).machine() == (MachineState {
            mem: old(cpu).machine().mem.insert(
                zp_indexed_addr(low_byte->0, old(cpu).machine().x),
                value,
            ),
            ..old(cpu).machine()
        }),
        final(cpu).same_host_state(old(cpu)),
{
    let address = low_byte.unwrap().wrapping_add(cpu.x) as u16;
    cpu.write(address, value);
}

/// Zero-page Y-indexed mode, used only by LDX and STX.
pub(crate) fn zeropage_y_read<M: Mapper, I: Interrupts>(cpu: &Cpu<M, I>, low_byte: Option<u8>) -> (r:
    u8)
    requires
        low_byte.is_some(),
    ensures
        r == cpu.machine().mem[zp_indexed_addr(low_byte->0, cpu.machine().y)],
{
    let address = low_byte.unwrap().wrapping_add(cpu.y) as u16;
    cpu.read(address)
}

pub(crate) fn zeropage_y_write<M: Mapper, I: Interrupts>(
    cpu: &mut Cpu<M, I>,
    low_byte: Option<u8>,
    value: u8,
)
    requires
        low_byte.is_some(),
    ensures
        final(cpu).machine() == (MachineState {
            mem: old(cpu).machine().mem.insert(
                zp_indexed_addr(low_byte->0, old(cpu).machine().y),
                value,
            ),
            ..old(cpu).machine()
        }),
        final(cpu).same_host_state(old(cpu)),
{
    let address = low_byte.unwrap().wrapping_add(cpu.y) as u16;
    cpu.write(address, value);
}

/// Absolute mode: the two operand bytes form the address, little-endian.
pub(crate) fn absolute_read<M: Mapper, I: Interrupts>(
    cpu: &Cpu<M, I>,
    low_byte: Option<u8>,
    high_byte: Option<u8>,
) -> (r: u8)
    requires
        low_byte.is_some(),
        high_byte.is_some(),
    ensures
        r == cpu.machine().mem[spec_pack_bytes(low_byte->0, high_byte->0)],
{
    let address = pack_bytes_wrapped(low_byte, high_byte);
    cpu.read(address)
}

pub(crate) fn absolute_write<M: Mapper, I: Interrupts>(
    cpu: &mut Cpu<M, I>,
    low_byte: Option<u8>,
    high_byte: Option<u8>,
    value: u8,
)
    requires
        low_byte.is_some(),
        high_byte.is_some(),
    ensures
        final(cpu).machine() == (MachineState {
            mem: old(cpu).machine().mem.insert(spec_pack_bytes(low_byte->0, high_byte->0), value),
            ..old(cpu).machine()
        }),
        final(cpu).same_host_state(old(cpu)),
{
    let address = pack_bytes_wrapped(low_byte, high_byte);
    cpu.write(address, value);
}

/// Absolute X-indexed mode: returns the value and whether the low-byte
/// addition carried into the page, which costs reads one extra cycle.
pub(crate) fn absolute_x_read<M: Mapper, I: Interrupts>(
    cpu: &Cpu<M, I>,
    low_byte: Option<u8>,
    high_byte: Option<u8>,
) -> (r: (u8, bool))
    requires
        low_byte.is_some(),
        high_byte.is_some(),
    ensures
        r.0 == cpu.machine().mem[abs_indexed_addr(low_byte->0, high_byte->0, cpu.machine().x)],
        r.1 == abs_indexed_crossed(low_byte->0, cpu.machine().x),
{
    let pre_add_address = pack_bytes_wrapped(low_byte, high_byte);
    let address = pre_add_address.wrapping_add(cpu.x as u16);

    let page_changed = low_byte.unwrap().checked_add(cpu.x).is_none();

    (cpu.read(address), page_changed)
}

pub(crate) fn absolute_x_write<M: Mapper, I: Interrupts>(
    cpu: &mut Cpu<M, I>,
    low_byte: Option<u8>,
    high_byte: Option<u8>,
    value: u8,
)
    requires
        low_byte.is_some(),
        high_byte.is_some(),
    ensures
        final(cpu).machine() == (MachineState {
            mem: old(cpu).machine().mem.insert(
                abs_indexed_addr(low_byte->0, high_byte->0, old(cpu).machine().x),
                value,
            ),
            ..old(cpu).machine()
        }),
        final(cpu).same_host_state(old(cpu)),
{
    let pre_add_address = pack_bytes_wrapped(low_byte, high_byte);
    let address = pre_add_address.wrapping_add(cpu.x as u16);
    cpu.write(address, value);
}

/// Absolute Y-indexed mode: returns the value and the page-crossed flag.
pub(crate) fn absolute_y_read<M: Mapper, I: Interrupts>(
    cpu: &Cpu<M, I>,
    low_byte: Option<u8>,
    high_byte: Option<u8>,
) -> (r: (u8, bool))
    requires
        low_byte.is_some(),
        high_byte.is_some(),
    ensures
        r.0 == cpu.machine().mem[abs_indexed_addr(low_byte->0, high_byte->0, cpu.machine().y)],
        r.1 == abs_indexed_crossed(low_byte->0, cpu.machine().y),
{
    let pre_add_address = pack_bytes_wrapped(low_byte, high_byte);
    let address = pre_add_address.wrapping_add(cpu.y as u16);

    let page_changed = low_byte.unwrap().checked_add(cpu.y).is_none();

    (cpu.read(address), page_changed)
}

pub(crate) fn absolute_y_write<M: Mapper, I: Interrupts>(
    cpu: &mut Cpu<M, I>,
    low_byte: Option<u8>,
    high_byte: Option<u8>,
    value: u8,
)
    requires
        low_byte.is_some(),
        high_byte.is_some(),
    ensures
        final(cpu).machine() == (MachineState {
            mem: old(cpu).machine().mem.insert(
                abs_indexed_addr(low_byte->0, high_byte->0, old(cpu).machine().y),
                value,
            ),
            ..old(cpu).machine()
        }),
        final(cpu).same_host_state(old(cpu)),
{
    let pre_add_address = pack_bytes_wrapped(low_byte, high_byte);
    let address = pre_add_address.wrapping_add(cpu.y as u16);
    cpu.write(address, value);
}

/// Pre-indexed (indirect,X) mode: a 16-bit pointer is read from page zero
/// at `operand + X`, both pointer bytes wrapping within page zero.
pub(crate) fn indirect_x_read<M: Mapper, I: Interrupts>(cpu: &Cpu<M, I>, low_byte: Option<u8>) -> (r:
    u8)
    requires
        low_byte.is_some(),
    ensures
        r == cpu.machine().mem[ind_x_addr(cpu.machine().mem, low_byte->0, cpu.machine().x)],
{
    let address_low_byte = cpu.read(low_byte.unwrap().wrapping_add(cpu.x) as u16);
    let address_high_byte = cpu.read(low_byte.unwrap().wrapping_add(cpu.x).wrapping_add(1) as u16);

    let address = pack_bytes(address_low_byte, address_high_byte);

    cpu.read(address)
}

pub(crate) fn indirect_x_write<M: Mapper, I: Interrupts>(
    cpu: &mut Cpu<M, I>,
    low_byte: Option<u8>,
    value: u8,
)
    requires
        low_byte.is_some(),
    ensures
        final(cpu).machine() == (MachineState {
            mem: old(cpu).machine().mem.insert(
                ind_x_addr(old(cpu).machine().mem, low_byte->0, old(cpu).machine().x),
                value,
            ),
            ..old(cpu).machine()
        }),
        final(cpu).same_host_state(old(cpu)),
{
    let lsb_base_address = low_byte.unwrap().wrapping_add(cpu.x) as u16;
    let msb_base_address = low_byte.unwrap().wrapping_add(cpu.x).wrapping_add(1) as u16;

    let resolved_address = pack_bytes(cpu.read(lsb_base_address), cpu.read(msb_base_address));

    cpu.write(resolved_address, value);
}

/// Post-indexed (indirect),Y mode: a 16-bit pointer is read from page zero
/// at the operand, then Y is added in 16 bits. Returns the value and the
/// page-crossed flag.
pub(crate) fn indirect_y_read<M: Mapper, I: Interrupts>(cpu: &Cpu<M, I>, low_byte: Option<u8>) -> (r:
    (u8, bool))
    requires
        low_byte.is_some(),
    ensures
        r.0 == cpu.machine().mem[ind_y_addr(cpu.machine().mem, low_byte->0, cpu.machine().y)],
        r.1 == ind_y_crossed(cpu.machine().mem, low_byte->0, cpu.machine().y),
{
    let low_base_address = low_byte.unwrap() as u16;
    let high_base_address = low_byte.unwrap().wrapping_add(1) as u16;

    let pointer_low = cpu.read(low_base_address);
    let pointer_high = cpu.read(high_base_address);

    let page_changed = low_byte.unwrap() == 0xFF || pointer_low.checked_add(cpu.y).is_none();

    let resolved_address = pack_bytes(pointer_low, pointer_high).wrapping_add(cpu.y as u16);

    (cpu.read(resolved_address), page_changed)
}

pub(crate) fn indirect_y_write<M: Mapper, I: Interrupts>(
    cpu: &mut Cpu<M, I>,
    low_byte: Option<u8>,
    value: u8,
)
    requires
        low_byte.is_some(),
    ensures
        final(cpu).machine() == (MachineState {
            mem: old(cpu).machine().mem.insert(
                ind_y_addr(old(cpu).machine().mem, low_byte->0, old(cpu).machine().y),
                value,
            ),
            ..old(cpu).machine()
        }),
        final(cpu).same_host_state(old(cpu)),
{
    let low_base_address = low_byte.unwrap() as u16;
    let high_base_address = low_byte.unwrap().wrapping_add(1) as u16;

    let resolved_address = pack_bytes(cpu.read(low_base_address), cpu.read(high_base_address))
        .wrapping_add(cpu.y as u16);

    cpu.write(resolved_address, value);
}

} // verus!
