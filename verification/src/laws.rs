//! The laws the instruction semantics obey, stated over the specification
//! model and proved once for all inputs: flag locality of the adder, the
//! SBC/ADC duality, compare-versus-subtract, stack wraparound, the
//! indirect-JMP quirk, the branch cycle rule and interrupt vectoring.
use vstd::prelude::*;

use crate::model::{
    adc_carry, adc_overflow, adc_p, adc_sum, branch_target, cmp_diff, cmp_p,
    indirect_jmp_high_addr, spec_pack_bytes, stack_addr, step_adc, step_branch, step_interrupt,
    step_pha, step_pla, step_sbc, vector_address, wrap_add8, wrap_sub8, InterruptState,
    MachineState,
};
use crate::processor_status::{
    spec_get_flag, spec_set_flag, CARRY_FLAG_MASK, NEGATIVE_FLAG_MASK, OVERFLOW_FLAG_MASK,
    ZERO_FLAG_MASK,
};
use crate::instruction::AddressingMode;
use crate::snapshot::{
    entry_key, entry_nonzero, insert_entry, keep_nonzero, load_ram, load_ram_upto, normalize_ram,
    snapshot_ram, snapshot_ram_upto, sort_entries,
};
use crate::{IRQ_BRK_VECTOR_ADDRESS, NMI_VECTOR_ADDRESS, RESET_VECTOR_ADDRESS};
use vstd::std_specs::cmp::PartialEqSpec;

verus! {

/// Setting a flag and reading the same flag back gives the value written.
pub proof fn lemma_get_set_flag_same(p: u8, mask: u8, on: bool)
    requires
        mask != 0,
    ensures
        spec_get_flag(spec_set_flag(p, mask, on), mask) == on,
{
    assert((p | mask) & mask != 0) by (bit_vector)
        requires
            mask != 0,
    ;
    assert((p & !mask) & mask == 0) by (bit_vector);
}

/// Setting one flag leaves every flag in a disjoint position unchanged.
pub proof fn lemma_get_set_flag_other(p: u8, set_mask: u8, get_mask: u8, on: bool)
    requires
        set_mask & get_mask == 0,
    ensures
        spec_get_flag(spec_set_flag(p, set_mask, on), get_mask) == spec_get_flag(p, get_mask),
{
    assert(((p | set_mask) & get_mask != 0) == (p & get_mask != 0)) by (bit_vector)
        requires
            set_mask & get_mask == 0,
    ;
    assert(((p & !set_mask) & get_mask != 0) == (p & get_mask != 0)) by (bit_vector)
        requires
            set_mask & get_mask == 0,
    ;
}

/// The flag masks name eight distinct bits.
proof fn lemma_flag_masks()
    ensures
        CARRY_FLAG_MASK != 0,
        ZERO_FLAG_MASK != 0,
        OVERFLOW_FLAG_MASK != 0,
        NEGATIVE_FLAG_MASK != 0,
        CARRY_FLAG_MASK & ZERO_FLAG_MASK == 0,
        CARRY_FLAG_MASK & OVERFLOW_FLAG_MASK == 0,
        CARRY_FLAG_MASK & NEGATIVE_FLAG_MASK == 0,
        ZERO_FLAG_MASK & OVERFLOW_FLAG_MASK == 0,
        ZERO_FLAG_MASK & NEGATIVE_FLAG_MASK == 0,
        OVERFLOW_FLAG_MASK & NEGATIVE_FLAG_MASK == 0,
        NEGATIVE_FLAG_MASK & OVERFLOW_FLAG_MASK == 0,
        NEGATIVE_FLAG_MASK & ZERO_FLAG_MASK == 0,
        NEGATIVE_FLAG_MASK & CARRY_FLAG_MASK == 0,
        OVERFLOW_FLAG_MASK & ZERO_FLAG_MASK == 0,
        OVERFLOW_FLAG_MASK & CARRY_FLAG_MASK == 0,
        ZERO_FLAG_MASK & CARRY_FLAG_MASK == 0,
{
    assert(1u8 & 2u8 == 0 && 1u8 & 64u8 == 0 && 1u8 & 128u8 == 0 && 2u8 & 64u8 == 0 && 2u8 & 128u8
        == 0 && 64u8 & 128u8 == 0 && 2u8 & 1u8 == 0 && 64u8 & 1u8 == 0 && 128u8 & 1u8 == 0 && 64u8
        & 2u8 == 0 && 128u8 & 2u8 == 0 && 128u8 & 64u8 == 0) by (bit_vector);
}

/// How each flag of the status word reads after the ADC data path: carry
/// and overflow are functions of the two operands and the carry-in alone,
/// zero and negative are functions of the low 8 bits of the sum alone.
pub proof fn lemma_adc_flags_read(p: u8, a: u8, m: u8, c: bool)
    ensures
        spec_get_flag(adc_p(p, a, m, c), CARRY_FLAG_MASK) == adc_carry(a, m, c),
        spec_get_flag(adc_p(p, a, m, c), OVERFLOW_FLAG_MASK) == adc_overflow(a, m, c),
        spec_get_flag(adc_p(p, a, m, c), ZERO_FLAG_MASK) == (adc_sum(a, m, c) == 0),
        spec_get_flag(adc_p(p, a, m, c), NEGATIVE_FLAG_MASK) == (adc_sum(a, m, c) >> 7 != 0),
{
    lemma_flag_masks();
    let p1 = spec_set_flag(p, CARRY_FLAG_MASK, adc_carry(a, m, c));
    let p2 = spec_set_flag(p1, OVERFLOW_FLAG_MASK, adc_overflow(a, m, c));
    let p3 = spec_set_flag(p2, ZERO_FLAG_MASK, adc_sum(a, m, c) == 0);
    let p4 = spec_set_flag(p3, NEGATIVE_FLAG_MASK, adc_sum(a, m, c) >> 7 != 0);

    lemma_get_set_flag_same(p3, NEGATIVE_FLAG_MASK, adc_sum(a, m, c) >> 7 != 0);

    lemma_get_set_flag_other(p3, NEGATIVE_FLAG_MASK, ZERO_FLAG_MASK, adc_sum(a, m, c) >> 7 != 0);
    lemma_get_set_flag_same(p2, ZERO_FLAG_MASK, adc_sum(a, m, c) == 0);

    lemma_get_set_flag_other(p3, NEGATIVE_FLAG_MASK, OVERFLOW_FLAG_MASK, adc_sum(a, m, c) >> 7 != 0);
    lemma_get_set_flag_other(p2, ZERO_FLAG_MASK, OVERFLOW_FLAG_MASK, adc_sum(a, m, c) == 0);
    lemma_get_set_flag_same(p1, OVERFLOW_FLAG_MASK, adc_overflow(a, m, c));

    lemma_get_set_flag_other(p3, NEGATIVE_FLAG_MASK, CARRY_FLAG_MASK, adc_sum(a, m, c) >> 7 != 0);
    lemma_get_set_flag_other(p2, ZERO_FLAG_MASK, CARRY_FLAG_MASK, adc_sum(a, m, c) == 0);
    lemma_get_set_flag_other(p1, OVERFLOW_FLAG_MASK, CARRY_FLAG_MASK, adc_overflow(a, m, c));
    lemma_get_set_flag_same(p, CARRY_FLAG_MASK, adc_carry(a, m, c));
}

/// Flag locality of the adder: Z and N after ADC depend only on the low
/// 8 bits of the sum, so any two additions with equal 8-bit sums leave
/// equal Z and N, whatever the operands or the incoming status words; and
/// C and V are functions of the operands and carry-in alone, untouched by
/// the incoming status word.
pub proof fn lemma_adc_flag_locality(
    p1: u8,
    a1: u8,
    m1: u8,
    c1: bool,
    p2: u8,
    a2: u8,
    m2: u8,
    c2: bool,
)
    requires
        adc_sum(a1, m1, c1) == adc_sum(a2, m2, c2),
    ensures
        spec_get_flag(adc_p(p1, a1, m1, c1), ZERO_FLAG_MASK) == spec_get_flag(
            adc_p(p2, a2, m2, c2),
            ZERO_FLAG_MASK,
        ),
        spec_get_flag(adc_p(p1, a1, m1, c1), NEGATIVE_FLAG_MASK) == spec_get_flag(
            adc_p(p2, a2, m2, c2),
            NEGATIVE_FLAG_MASK,
        ),
        spec_get_flag(adc_p(p1, a1, m1, c1), CARRY_FLAG_MASK) == adc_carry(a1, m1, c1),
        spec_get_flag(adc_p(p1, a1, m1, c1), OVERFLOW_FLAG_MASK) == adc_overflow(a1, m1, c1),
{
    lemma_adc_flags_read(p1, a1, m1, c1);
    lemma_adc_flags_read(p2, a2, m2, c2);
}

/// SBC is ADC of the complemented operand: executing SBC on an immediate
/// operand steps the machine exactly as executing ADC on the operand's
/// bitwise complement does, so A, C, Z, N and V all agree.
pub proof fn lemma_sbc_is_adc_of_complement(st: MachineState, m: u8)
    ensures
        step_sbc(st, AddressingMode::Immediate, Some(m), None) == step_adc(
            st,
            AddressingMode::Immediate,
            Some((m ^ 0xFF) as u8),
            None,
        ),
{
}

/// After CMP, the flags N, Z and C are exactly those the subtract-with-
/// borrow data path produces for `A - M` with the carry set (no borrow),
/// and A itself is untouched.
pub proof fn lemma_compare_matches_subtract(p: u8, r: u8, m: u8)
    ensures
        cmp_diff(r, m) == adc_sum(r, (m ^ 0xFF) as u8, true),
        spec_get_flag(cmp_p(p, r, m), CARRY_FLAG_MASK) == adc_carry(r, (m ^ 0xFF) as u8, true),
        spec_get_flag(cmp_p(p, r, m), ZERO_FLAG_MASK) == spec_get_flag(
            adc_p(p, r, (m ^ 0xFF) as u8, true),
            ZERO_FLAG_MASK,
        ),
        spec_get_flag(cmp_p(p, r, m), NEGATIVE_FLAG_MASK) == spec_get_flag(
            adc_p(p, r, (m ^ 0xFF) as u8, true),
            NEGATIVE_FLAG_MASK,
        ),
        spec_get_flag(cmp_p(p, r, m), CARRY_FLAG_MASK) == (r >= m),
{
    lemma_flag_masks();

    assert(m ^ 0xFF == 255 - m) by (bit_vector);

    // The complemented add computes r + (255 - m) + 1 = r - m + 256, which
    // reduced modulo 256 is the wrapping difference, with the carry out
    // saying that no borrow happened.
    assert(adc_sum(r, (m ^ 0xFF) as u8, true) == cmp_diff(r, m));
    assert(adc_carry(r, (m ^ 0xFF) as u8, true) == (r >= m));

    // Read the flags out of both composed status words.
    lemma_adc_flags_read(p, r, (m ^ 0xFF) as u8, true);

    let diff = cmp_diff(r, m);
    let q1 = spec_set_flag(p, CARRY_FLAG_MASK, r >= m);
    let q2 = spec_set_flag(q1, ZERO_FLAG_MASK, diff == 0);

    lemma_get_set_flag_other(q2, NEGATIVE_FLAG_MASK, CARRY_FLAG_MASK, diff >> 7 != 0);
    lemma_get_set_flag_other(q1, ZERO_FLAG_MASK, CARRY_FLAG_MASK, diff == 0);
    lemma_get_set_flag_same(p, CARRY_FLAG_MASK, r >= m);

    lemma_get_set_flag_other(q2, NEGATIVE_FLAG_MASK, ZERO_FLAG_MASK, diff >> 7 != 0);
    lemma_get_set_flag_same(q1, ZERO_FLAG_MASK, diff == 0);

    lemma_get_set_flag_same(q2, NEGATIVE_FLAG_MASK, diff >> 7 != 0);
}

/// The indirect-JMP quirk: a pointer whose low byte is 0xFF has the
/// target's high byte read from the start of the same page, not from the
/// next one.
pub proof fn lemma_indirect_jmp_quirk(page: u8)
    ensures
        indirect_jmp_high_addr(spec_pack_bytes(0xFF, page)) == spec_pack_bytes(0x00, page),
{
    let ptr = spec_pack_bytes(0xFF, page);
    assert((page as int * 0x100 + 0xFF) % 0x100 == 0xFF) by (nonlinear_arith);
}

/// The branch cycle rule: a branch not taken costs 2 cycles, a taken
/// branch that stays in its page costs 3, and a taken branch that crosses
/// a page costs 4.
pub proof fn lemma_branch_cycles(st: MachineState, taken: bool, off: u8)
    ensures
        !taken ==> step_branch(st, taken, off).1 == 2,
        taken && branch_target(st.pc, off) >> 8 == st.pc >> 8 ==> step_branch(st, taken, off).1
            == 3,
        taken && branch_target(st.pc, off) >> 8 != st.pc >> 8 ==> step_branch(st, taken, off).1
            == 4,
{
}

/// Interrupt vectoring: the NMI entry loads PC from 0xFFFA/0xFFFB, reset
/// from 0xFFFC/0xFFFD, and IRQ or BRK from 0xFFFE/0xFFFF. The three stack
/// pushes land in page one, so they never disturb the vectors, and the
/// target is read from the memory the routine started with.
pub proof fn lemma_interrupt_vectoring(st: MachineState, kind: InterruptState)
    ensures
        vector_address(InterruptState::NonMaskableInterrupt) == NMI_VECTOR_ADDRESS,
        vector_address(InterruptState::Reset) == RESET_VECTOR_ADDRESS,
        vector_address(InterruptState::Inactive) == IRQ_BRK_VECTOR_ADDRESS,
        vector_address(InterruptState::MaskableInterrupt) == IRQ_BRK_VECTOR_ADDRESS,
        step_interrupt(st, kind).0.pc == spec_pack_bytes(
            st.mem[vector_address(kind)],
            st.mem[(vector_address(kind) + 1) as u16],
        ),
{
    assert(stack_addr(st.s) < 0x0200);
    assert(stack_addr(wrap_sub8(st.s, 1)) < 0x0200);
    assert(stack_addr(wrap_sub8(wrap_sub8(st.s, 1), 1)) < 0x0200);
}

/// The effect of one PHA on the machine state, iterated.
pub open spec fn pha_n(st: MachineState, n: nat) -> MachineState
    decreases n,
{
    if n == 0 {
        st
    } else {
        step_pha(pha_n(st, (n - 1) as nat)).0
    }
}

/// The effect of one PLA on the machine state, iterated.
pub open spec fn pla_n(st: MachineState, n: nat) -> MachineState
    decreases n,
{
    if n == 0 {
        st
    } else {
        step_pla(pla_n(st, (n - 1) as nat)).0
    }
}

/// The stack pointer value after moving `delta` steps down from `s`,
/// modulo 256.
pub open spec fn s_minus(s: u8, delta: int) -> u8 {
    (((s as int - delta) % 0x100) as u8)
}

/// What `n` consecutive pushes of the accumulator do: A, X, Y and PC stay,
/// S moves down by `n` mod 256, memory outside page one stays, and the
/// `n` cells just below the starting stack address hold copies of A.
proof fn lemma_pha_n(st: MachineState, n: nat)
    requires
        n <= 256,
    ensures
        pha_n(st, n).a == st.a,
        pha_n(st, n).x == st.x,
        pha_n(st, n).y == st.y,
        pha_n(st, n).pc == st.pc,
        pha_n(st, n).p == st.p,
        pha_n(st, n).s == s_minus(st.s, n as int),
        forall|addr: u16|
            !(0x0100 <= addr < 0x0200) ==> pha_n(st, n).mem[addr] == st.mem[addr],
        forall|j: int|
            0 <= j < n ==> pha_n(st, n).mem[stack_addr(s_minus(st.s, j))] == st.a,
    decreases n,
{
    if n > 0 {
        lemma_pha_n(st, (n - 1) as nat);
        let prev = pha_n(st, (n - 1) as nat);
        assert(prev.s == s_minus(st.s, n as int - 1));
        assert(stack_addr(prev.s) == 0x0100 + prev.s);
        assert(wrap_sub8(prev.s, 1) == s_minus(st.s, n as int));
        assert forall|j: int| 0 <= j < n implies pha_n(st, n).mem[stack_addr(s_minus(st.s, j))]
            == st.a by {
            if j < n - 1 {
                // An older cell: the new push went to a different stack
                // address, because the two offsets differ modulo 256.
                assert(s_minus(st.s, j) != s_minus(st.s, n as int - 1));
            }
        }
    }
}

/// What `n` consecutive pops into the accumulator do, started from a state
/// whose whole stack page holds copies of `fill`: memory stays, S moves
/// back up, registers other than A and P stay, and after at least one pop
/// A holds `fill`.
proof fn lemma_pla_n(st: MachineState, n: nat, fill: u8)
    requires
        n <= 256,
        forall|addr: u16| 0x0100 <= addr < 0x0200 ==> st.mem[addr] == fill,
    ensures
        pla_n(st, n).x == st.x,
        pla_n(st, n).y == st.y,
        pla_n(st, n).pc == st.pc,
        pla_n(st, n).mem == st.mem,
        pla_n(st, n).s == s_minus(st.s, -(n as int)),
        n > 0 ==> pla_n(st, n).a == fill,
        n == 0 ==> pla_n(st, n).a == st.a,
    decreases n,
{
    if n > 0 {
        lemma_pla_n(st, (n - 1) as nat, fill);
        let prev = pla_n(st, (n - 1) as nat);
        assert(wrap_add8(prev.s, 1) == s_minus(st.s, -(n as int)));
        assert(0x0100 <= stack_addr(wrap_add8(prev.s, 1)) < 0x0200);
    }
}

/// Stack wraparound: 256 consecutive PHA steps followed by 256 PLA steps
/// bring S and A back to where they started and leave every memory cell
/// outside the stack page 0x0100..=0x01FF untouched. The stack pointer
/// wraps silently through all 256 values; no fault occurs.
pub proof fn lemma_stack_wrap(st: MachineState)
    ensures
        pla_n(pha_n(st, 256), 256).s == st.s,
        pla_n(pha_n(st, 256), 256).a == st.a,
        pla_n(pha_n(st, 256), 256).x == st.x,
        pla_n(pha_n(st, 256), 256).y == st.y,
        pla_n(pha_n(st, 256), 256).pc == st.pc,
        forall|addr: u16|
            !(0x0100 <= addr < 0x0200) ==> pla_n(pha_n(st, 256), 256).mem[addr] == st.mem[addr],
{
    lemma_pha_n(st, 256);
    let mid = pha_n(st, 256);
    assert(mid.s == st.s);

    // After 256 pushes every cell of the stack page holds a copy of A:
    // the push offsets 0..255 cover all 256 stack addresses.
    assert forall|addr: u16| 0x0100 <= addr < 0x0200 implies mid.mem[addr] == st.a by {
        let c = (addr - 0x0100) as int;
        let j = (st.s as int - c) % 0x100;
        assert(0 <= j < 256);
        assert(s_minus(st.s, j) == c as u8);
        assert(stack_addr(s_minus(st.s, j)) == addr);
        assert(mid.mem[stack_addr(s_minus(st.s, j))] == st.a);
    };

    lemma_pla_n(mid, 256, st.a);
}

/// A RAM listing whose addresses never decrease.
pub open spec fn sorted_le(entries: Seq<Seq<u16>>) -> bool {
    forall|j: int, k: int|
        0 <= j < k < entries.len() ==> entry_key(#[trigger] entries[j]) <= entry_key(
            #[trigger] entries[k],
        )
}

/// A RAM listing whose addresses strictly increase.
pub open spec fn sorted_lt(entries: Seq<Seq<u16>>) -> bool {
    forall|j: int, k: int|
        0 <= j < k < entries.len() ==> entry_key(#[trigger] entries[j]) < entry_key(
            #[trigger] entries[k],
        )
}

/// Some entry of the listing carries the given address.
pub open spec fn has_key(entries: Seq<Seq<u16>>, key: u16) -> bool {
    exists|j: int| 0 <= j < entries.len() && entry_key(#[trigger] entries[j]) == key
}

/// Inserting into a sorted listing keeps it sorted, adds exactly the new
/// entry, and keeps strictness when the new address is fresh.
proof fn lemma_insert_entry_props(sorted: Seq<Seq<u16>>, e: Seq<u16>)
    requires
        sorted_le(sorted),
    ensures
        insert_entry(sorted, e).len() == sorted.len() + 1,
        forall|x: Seq<u16>|
            #[trigger] insert_entry(sorted, e).contains(x) ==> (sorted.contains(x) || x == e),
        forall|x: Seq<u16>| #[trigger] sorted.contains(x) ==> insert_entry(sorted, e).contains(x),
        insert_entry(sorted, e).contains(e),
        sorted_le(insert_entry(sorted, e)),
        sorted_lt(sorted) && !has_key(sorted, entry_key(e)) ==> sorted_lt(insert_entry(sorted, e)),
    decreases sorted.len(),
{
    let r = insert_entry(sorted, e);
    if sorted.len() == 0 {
        assert(r =~= seq![e]);
        assert(r[0] == e);
    } else if entry_key(sorted.last()) <= entry_key(e) {
        assert(r =~= sorted.push(e));
        assert(r[r.len() - 1] == e);
        assert forall|x: Seq<u16>| #[trigger] r.contains(x) implies (sorted.contains(x) || x
            == e) by {
            let i = choose|i: int| 0 <= i < r.len() && r[i] == x;
            if i < sorted.len() {
                assert(sorted[i] == x);
            }
        }
        assert forall|x: Seq<u16>| #[trigger] sorted.contains(x) implies r.contains(x) by {
            let i = choose|i: int| 0 <= i < sorted.len() && sorted[i] == x;
            assert(r[i] == x);
        }
        assert forall|j: int, k: int| 0 <= j < k < r.len() implies entry_key(#[trigger] r[j])
            <= entry_key(#[trigger] r[k]) by {
            if k == r.len() - 1 {
                // Every earlier address is at most the old last one, which
                // is at most the new entry's.
                if j < sorted.len() - 1 {
                    assert(entry_key(sorted[j]) <= entry_key(sorted[sorted.len() - 1]));
                }
            }
        }
        if sorted_lt(sorted) && !has_key(sorted, entry_key(e)) {
            assert forall|j: int, k: int| 0 <= j < k < r.len() implies entry_key(#[trigger] r[j])
                < entry_key(#[trigger] r[k]) by {
                if k == r.len() - 1 {
                    assert(entry_key(sorted[sorted.len() - 1]) != entry_key(e));
                    if j < sorted.len() - 1 {
                        assert(entry_key(sorted[j]) < entry_key(sorted[sorted.len() - 1]));
                    }
                }
            }
        }
    } else {
        assert(sorted_le(sorted.drop_last()));
        lemma_insert_entry_props(sorted.drop_last(), e);
        let r1 = insert_entry(sorted.drop_last(), e);
        assert(r =~= r1.push(sorted.last()));
        if sorted_lt(sorted) && !has_key(sorted, entry_key(e)) {
            assert(sorted_lt(sorted.drop_last()));
            assert(!has_key(sorted.drop_last(), entry_key(e))) by {
                if has_key(sorted.drop_last(), entry_key(e)) {
                    let j = choose|j: int|
                        0 <= j < sorted.drop_last().len() && entry_key(
                            #[trigger] sorted.drop_last()[j],
                        ) == entry_key(e);
                    assert(entry_key(sorted[j]) == entry_key(e));
                }
            }
        }

        // Membership: the new listing holds the old entries plus `e`.
        assert forall|x: Seq<u16>| #[trigger] r.contains(x) implies (sorted.contains(x) || x
            == e) by {
            let i = choose|i: int| 0 <= i < r.len() && r[i] == x;
            if i < r1.len() {
                assert(r1.contains(x));
                if sorted.drop_last().contains(x) {
                    let j = choose|j: int|
                        0 <= j < sorted.drop_last().len() && sorted.drop_last()[j] == x;
                    assert(sorted[j] == x);
                }
            } else {
                assert(x == sorted.last());
                assert(sorted[sorted.len() - 1] == x);
            }
        }
        assert forall|x: Seq<u16>| #[trigger] sorted.contains(x) implies r.contains(x) by {
            let i = choose|i: int| 0 <= i < sorted.len() && sorted[i] == x;
            if i < sorted.len() - 1 {
                assert(sorted.drop_last()[i] == x);
                assert(sorted.drop_last().contains(x));
                assert(r1.contains(x));
                let j = choose|j: int| 0 <= j < r1.len() && r1[j] == x;
                assert(r[j] == x);
            } else {
                assert(r[r.len() - 1] == x);
            }
        }
        assert(r.contains(e)) by {
            let j = choose|j: int| 0 <= j < r1.len() && r1[j] == e;
            assert(r[j] == e);
        }

        // Every entry already placed keeps an address below the old last
        // entry's, so pushing it back on keeps the listing sorted.
        assert forall|i: int| 0 <= i < r1.len() implies entry_key(#[trigger] r1[i]) <= entry_key(
            sorted.last(),
        ) by {
            assert(r1.contains(r1[i]));
            if sorted.drop_last().contains(r1[i]) {
                let j = choose|j: int|
                    0 <= j < sorted.drop_last().len() && sorted.drop_last()[j] == r1[i];
                assert(sorted[j] == r1[i]);
                assert(entry_key(sorted[j]) <= entry_key(sorted[sorted.len() - 1]));
            }
        }
        assert forall|j: int, k: int| 0 <= j < k < r.len() implies entry_key(#[trigger] r[j])
            <= entry_key(#[trigger] r[k]) by {
            if k == r.len() - 1 {
                assert(entry_key(r1[j]) <= entry_key(sorted.last()));
            }
        }
        if sorted_lt(sorted) && !has_key(sorted, entry_key(e)) {
            assert forall|i: int| 0 <= i < r1.len() implies entry_key(#[trigger] r1[i])
                < entry_key(sorted.last()) by {
                assert(r1.contains(r1[i]));
                if sorted.drop_last().contains(r1[i]) {
                    let j = choose|j: int|
                        0 <= j < sorted.drop_last().len() && sorted.drop_last()[j] == r1[i];
                    assert(sorted[j] == r1[i]);
                    assert(entry_key(sorted[j]) < entry_key(sorted[sorted.len() - 1]));
                }
            }
            assert forall|j: int, k: int| 0 <= j < k < r.len() implies entry_key(#[trigger] r[j])
                < entry_key(#[trigger] r[k]) by {
                if k == r.len() - 1 {
                    assert(entry_key(r1[j]) < entry_key(sorted.last()));
                }
            }
        }
    }
}

/// Sorting keeps exactly the entries of the listing and yields a
/// non-decreasing address order; distinct addresses make it strict.
proof fn lemma_sort_entries_props(entries: Seq<Seq<u16>>)
    ensures
        sort_entries(entries).len() == entries.len(),
        forall|x: Seq<u16>| #[trigger] sort_entries(entries).contains(x) ==> entries.contains(x),
        forall|x: Seq<u16>| #[trigger] entries.contains(x) ==> sort_entries(entries).contains(x),
        sorted_le(sort_entries(entries)),
        (forall|j: int, k: int|
            0 <= j < k < entries.len() ==> entry_key(#[trigger] entries[j]) != entry_key(
                #[trigger] entries[k],
            )) ==> sorted_lt(sort_entries(entries)),
    decreases entries.len(),
{
    if entries.len() == 0 {
    } else {
        let dl = entries.drop_last();
        lemma_sort_entries_props(dl);
        let s1 = sort_entries(dl);
        lemma_insert_entry_props(s1, entries.last());
        let r = sort_entries(entries);

        assert forall|x: Seq<u16>| #[trigger] r.contains(x) implies entries.contains(x) by {
            if s1.contains(x) {
                assert(dl.contains(x));
                let j = choose|j: int| 0 <= j < dl.len() && dl[j] == x;
                assert(entries[j] == x);
            } else {
                assert(x == entries.last());
                assert(entries[entries.len() - 1] == x);
            }
        }
        assert forall|x: Seq<u16>| #[trigger] entries.contains(x) implies r.contains(x) by {
            let i = choose|i: int| 0 <= i < entries.len() && entries[i] == x;
            if i < entries.len() - 1 {
                assert(dl[i] == x);
                assert(dl.contains(x));
            } else {
                assert(x == entries.last());
            }
        }

        if forall|j: int, k: int|
            0 <= j < k < entries.len() ==> entry_key(#[trigger] entries[j]) != entry_key(
                #[trigger] entries[k],
            ) {
            assert(forall|j: int, k: int|
                0 <= j < k < dl.len() ==> entry_key(#[trigger] dl[j]) != entry_key(
                    #[trigger] dl[k],
                )) by {
                assert forall|j: int, k: int| 0 <= j < k < dl.len() implies entry_key(
                    #[trigger] dl[j],
                ) != entry_key(#[trigger] dl[k]) by {
                    assert(dl[j] == entries[j] && dl[k] == entries[k]);
                }
            }
            assert(!has_key(s1, entry_key(entries.last()))) by {
                if has_key(s1, entry_key(entries.last())) {
                    let j = choose|j: int|
                        0 <= j < s1.len() && entry_key(#[trigger] s1[j]) == entry_key(
                            entries.last(),
                        );
                    assert(s1.contains(s1[j]));
                    assert(dl.contains(s1[j]));
                    let i = choose|i: int| 0 <= i < dl.len() && dl[i] == s1[j];
                    assert(entries[i] == s1[j]);
                    assert(entry_key(entries[i]) != entry_key(entries[entries.len() - 1]));
                }
            }
        }
    }
}

/// Dropping the zero-valued entries keeps exactly the non-zero ones, in
/// their order; a sorted listing stays sorted.
proof fn lemma_keep_nonzero_props(entries: Seq<Seq<u16>>)
    ensures
        forall|x: Seq<u16>|
            #[trigger] keep_nonzero(entries).contains(x) ==> (entries.contains(x)
                && entry_nonzero(x)),
        forall|x: Seq<u16>|
            entries.contains(x) && entry_nonzero(x) ==> #[trigger] keep_nonzero(
                entries,
            ).contains(x),
        sorted_le(entries) ==> sorted_le(keep_nonzero(entries)),
        sorted_lt(entries) ==> sorted_lt(keep_nonzero(entries)),
    decreases entries.len(),
{
    if entries.len() == 0 {
    } else {
        let dl = entries.drop_last();
        lemma_keep_nonzero_props(dl);
        let k1 = keep_nonzero(dl);
        let r = keep_nonzero(entries);
        assert(sorted_le(entries) ==> sorted_le(dl));
        assert(sorted_lt(entries) ==> sorted_lt(dl));

        assert forall|x: Seq<u16>| #[trigger] r.contains(x) implies (entries.contains(x)
            && entry_nonzero(x)) by {
            let i = choose|i: int| 0 <= i < r.len() && r[i] == x;
            if entry_nonzero(entries.last()) && i == r.len() - 1 {
                assert(x == entries.last());
                assert(entries[entries.len() - 1] == x);
            } else {
                assert(k1.contains(x));
                assert(dl.contains(x));
                let j = choose|j: int| 0 <= j < dl.len() && dl[j] == x;
                assert(entries[j] == x);
            }
        }
        assert forall|x: Seq<u16>| entries.contains(x) && entry_nonzero(x) implies #[trigger] r
            .contains(x) by {
            let i = choose|i: int| 0 <= i < entries.len() && entries[i] == x;
            if i < entries.len() - 1 {
                assert(dl[i] == x);
                assert(dl.contains(x));
                assert(k1.contains(x));
                let j = choose|j: int| 0 <= j < k1.len() && k1[j] == x;
                if entry_nonzero(entries.last()) {
                    assert(r[j] == x);
                } else {
                    assert(r == k1);
                }
            } else {
                assert(x == entries.last());
                assert(r[r.len() - 1] == x);
            }
        }

        // Every kept entry keeps an address at most (or below) the last
        // entry's, so appending the last entry keeps the listing sorted.
        if sorted_le(entries) {
            assert forall|i: int| 0 <= i < k1.len() implies entry_key(#[trigger] k1[i])
                <= entry_key(entries.last()) by {
                assert(k1.contains(k1[i]));
                assert(dl.contains(k1[i]));
                let j = choose|j: int| 0 <= j < dl.len() && dl[j] == k1[i];
                assert(entries[j] == k1[i]);
                assert(entry_key(entries[j]) <= entry_key(entries[entries.len() - 1]));
            }
            if entry_nonzero(entries.last()) {
                assert forall|j: int, k: int| 0 <= j < k < r.len() implies entry_key(
                    #[trigger] r[j],
                ) <= entry_key(#[trigger] r[k]) by {
                    if k == r.len() - 1 {
                        assert(entry_key(k1[j]) <= entry_key(entries.last()));
                    }
                }
            }
        }
        if sorted_lt(entries) {
            assert forall|i: int| 0 <= i < k1.len() implies entry_key(#[trigger] k1[i])
                < entry_key(entries.last()) by {
                assert(k1.contains(k1[i]));
                assert(dl.contains(k1[i]));
                let j = choose|j: int| 0 <= j < dl.len() && dl[j] == k1[i];
                assert(entries[j] == k1[i]);
                assert(entry_key(entries[j]) < entry_key(entries[entries.len() - 1]));
            }
            if entry_nonzero(entries.last()) {
                assert forall|j: int, k: int| 0 <= j < k < r.len() implies entry_key(
                    #[trigger] r[j],
                ) < entry_key(#[trigger] r[k]) by {
                    if k == r.len() - 1 {
                        assert(entry_key(k1[j]) < entry_key(entries.last()));
                    }
                }
            }
        }
    }
}

/// Loading the first `n` entries of a well-formed listing over an
/// all-zero memory sets exactly their cells.
proof fn lemma_load_ram_upto_props(mem0: Map<u16, u8>, entries: Seq<Seq<u16>>, n: int)
    requires
        0 <= n <= entries.len(),
        forall|j: int|
            0 <= j < entries.len() ==> (#[trigger] entries[j]).len() == 2 && entries[j][1] <= 0xFF,
        forall|j: int, k: int|
            0 <= j < k < entries.len() ==> entries[j][0] != entries[k][0],
    ensures
        forall|j: int|
            0 <= j < n ==> load_ram_upto(mem0, entries, n)[(#[trigger] entries[j])[0]]
                == entries[j][1] as u8,
        forall|a: u16|
            !(exists|j: int| 0 <= j < n && (#[trigger] entries[j])[0] == a) ==> load_ram_upto(
                mem0,
                entries,
                n,
            )[a] == mem0[a],
    decreases n,
{
    if n > 0 {
        lemma_load_ram_upto_props(mem0, entries, n - 1);
        assert forall|j: int| 0 <= j < n implies load_ram_upto(mem0, entries, n)[(
        #[trigger] entries[j])[0]] == entries[j][1] as u8 by {
            if j < n - 1 {
                assert(entries[j][0] != entries[n - 1][0]);
            }
        }
        assert forall|a: u16|
            !(exists|j: int| 0 <= j < n && (#[trigger] entries[j])[0] == a) implies load_ram_upto(
            mem0,
            entries,
            n,
        )[a] == mem0[a] by {
            assert(entries[n - 1][0] != a);
        }
    }
}

/// The snapshot of the cells below `n` lists, in strictly ascending
/// address order, exactly the pairs `[a, mem[a]]` with `a < n` and
/// `mem[a]` non-zero.
proof fn lemma_snapshot_ram_upto_props(mem: Map<u16, u8>, n: int)
    requires
        0 <= n <= 0x10000,
    ensures
        forall|x: Seq<u16>|
            #[trigger] snapshot_ram_upto(mem, n).contains(x) ==> exists|a: u16|
                a < n && mem[a] != 0 && x == seq![a, mem[a] as u16],
        forall|a: u16|
            a < n && #[trigger] mem[a] != 0 ==> snapshot_ram_upto(mem, n).contains(
                seq![a, mem[a] as u16],
            ),
        sorted_lt(snapshot_ram_upto(mem, n)),
    decreases n,
{
    if n > 0 {
        lemma_snapshot_ram_upto_props(mem, n - 1);
        let prev = snapshot_ram_upto(mem, (n - 1) as int);
        let r = snapshot_ram_upto(mem, n);
        let last_addr = (n - 1) as u16;
        if mem[last_addr] != 0 {
            let e = seq![last_addr, mem[last_addr] as u16];
            assert(r =~= prev.push(e));
            assert forall|x: Seq<u16>| #[trigger] r.contains(x) implies exists|a: u16|
                a < n && mem[a] != 0 && x == seq![a, mem[a] as u16] by {
                let i = choose|i: int| 0 <= i < r.len() && r[i] == x;
                if i < prev.len() {
                    assert(prev.contains(x));
                } else {
                    assert(x == e);
                    assert(last_addr < n && mem[last_addr] != 0 && x == seq![
                        last_addr,
                        mem[last_addr] as u16,
                    ]);
                }
            }
            assert forall|a: u16| a < n && #[trigger] mem[a] != 0 implies r.contains(
                seq![a, mem[a] as u16],
            ) by {
                if a < n - 1 {
                    assert(prev.contains(seq![a, mem[a] as u16]));
                    let j = choose|j: int|
                        0 <= j < prev.len() && prev[j] == seq![a, mem[a] as u16];
                    assert(r[j] == seq![a, mem[a] as u16]);
                } else {
                    assert(r[r.len() - 1] == e);
                }
            }
            // Every earlier entry names an address below the new one.
            assert forall|i: int| 0 <= i < prev.len() implies entry_key(#[trigger] prev[i])
                < entry_key(e) by {
                assert(prev.contains(prev[i]));
                let a = choose|a: u16|
                    a < n - 1 && mem[a] != 0 && prev[i] == seq![a, mem[a] as u16];
                assert(entry_key(prev[i]) == a);
            }
            assert forall|j: int, k: int| 0 <= j < k < r.len() implies entry_key(#[trigger] r[j])
                < entry_key(#[trigger] r[k]) by {
                if k == r.len() - 1 {
                    assert(entry_key(prev[j]) < entry_key(e));
                }
            }
        }
    }
}

/// Two listings with strictly ascending addresses and the same entries
/// are the same listing.
proof fn lemma_sorted_unique(s1: Seq<Seq<u16>>, s2: Seq<Seq<u16>>)
    requires
        sorted_lt(s1),
        sorted_lt(s2),
        forall|x: Seq<u16>| #[trigger] s1.contains(x) ==> s2.contains(x),
        forall|x: Seq<u16>| #[trigger] s2.contains(x) ==> s1.contains(x),
    ensures
        s1 == s2,
    decreases s1.len(),
{
    if s1.len() == 0 {
        if s2.len() > 0 {
            assert(s2.contains(s2[0]));
            assert(s1.contains(s2[0]));
        }
        assert(s1 =~= s2);
    } else {
        assert(s1.contains(s1.last()));
        assert(s2.contains(s1.last()));
        if s2.len() == 0 {
            assert(false);
        }
        let j = choose|j: int| 0 <= j < s2.len() && s2[j] == s1.last();
        assert(s2.contains(s2.last()));
        assert(s1.contains(s2.last()));
        let i = choose|i: int| 0 <= i < s1.len() && s1[i] == s2.last();

        // The two last entries carry each other's addresses, so they are
        // the same entry, at the last position of both listings.
        if j < s2.len() - 1 {
            assert(entry_key(s2[j]) < entry_key(s2[s2.len() - 1]));
            if i < s1.len() - 1 {
                assert(entry_key(s1[i]) < entry_key(s1[s1.len() - 1]));
            }
            assert(false);
        }
        assert(s1.last() == s2.last());

        let d1 = s1.drop_last();
        let d2 = s2.drop_last();
        assert(sorted_lt(d1) && sorted_lt(d2));
        assert forall|x: Seq<u16>| #[trigger] d1.contains(x) implies d2.contains(x) by {
            lemma_drop_last_member(s1, x);
            assert(s2.contains(x));
            lemma_member_of_drop_last(s2, x);
        }
        assert forall|x: Seq<u16>| #[trigger] d2.contains(x) implies d1.contains(x) by {
            lemma_drop_last_member(s2, x);
            assert(s1.contains(x));
            lemma_member_of_drop_last(s1, x);
        }
        lemma_sorted_unique(d1, d2);
        assert(s1.len() == s2.len());
        assert forall|k: int| 0 <= k < s1.len() implies s1[k] == s2[k] by {
            if k < s1.len() - 1 {
                assert(d1[k] == s1[k]);
                assert(d2[k] == s2[k]);
                assert(d1[k] == d2[k]);
            }
        }
        assert(s1 =~= s2);
    }
}

/// An entry of a strictly sorted listing's front is an entry of the whole
/// listing and differs from the last entry.
proof fn lemma_drop_last_member(s: Seq<Seq<u16>>, x: Seq<u16>)
    requires
        sorted_lt(s),
        s.len() > 0,
        s.drop_last().contains(x),
    ensures
        s.contains(x),
        x != s.last(),
{
    let i = choose|i: int| 0 <= i < s.drop_last().len() && s.drop_last()[i] == x;
    assert(s[i] == x);
    assert(entry_key(s[i]) < entry_key(s[s.len() - 1]));
}

/// An entry of a strictly sorted listing that is not its last entry is an
/// entry of its front.
proof fn lemma_member_of_drop_last(s: Seq<Seq<u16>>, x: Seq<u16>)
    requires
        sorted_lt(s),
        s.len() > 0,
        s.contains(x),
        x != s.last(),
    ensures
        s.drop_last().contains(x),
{
    let i = choose|i: int| 0 <= i < s.len() && s[i] == x;
    assert(i < s.len() - 1);
    assert(s.drop_last()[i] == x);
}

/// Sorting an already sorted listing changes nothing.
proof fn lemma_sort_of_sorted(s: Seq<Seq<u16>>)
    requires
        sorted_le(s),
    ensures
        sort_entries(s) == s,
    decreases s.len(),
{
    if s.len() > 0 {
        let dl = s.drop_last();
        assert(sorted_le(dl));
        lemma_sort_of_sorted(dl);
        if dl.len() > 0 {
            assert(entry_key(dl.last()) <= entry_key(s.last()));
        }
        assert(sort_entries(s) =~= s);
    }
}

/// Filtering a listing of non-zero entries changes nothing.
proof fn lemma_keep_of_nonzero(s: Seq<Seq<u16>>)
    requires
        forall|j: int| 0 <= j < s.len() ==> entry_nonzero(#[trigger] s[j]),
    ensures
        keep_nonzero(s) == s,
    decreases s.len(),
{
    if s.len() > 0 {
        let dl = s.drop_last();
        assert forall|j: int| 0 <= j < dl.len() implies entry_nonzero(#[trigger] dl[j]) by {
            assert(dl[j] == s[j]);
        }
        lemma_keep_of_nonzero(dl);
        assert(entry_nonzero(s[s.len() - 1]));
        assert(keep_nonzero(s) =~= s);
    }
}

/// Snapshot round trip: loading a well-formed sparse RAM listing over
/// all-zero memory and snapshotting the result reads back exactly the
/// normalized listing -- sorted by address, zero-valued cells dropped.
/// Well-formed means: `[address, value]` pairs, byte-sized values,
/// distinct addresses.
pub proof fn lemma_snapshot_round_trip(mem0: Map<u16, u8>, entries: Seq<Seq<u16>>)
    requires
        forall|a: u16| mem0[a] == 0,
        forall|j: int|
            0 <= j < entries.len() ==> (#[trigger] entries[j]).len() == 2 && entries[j][1] <= 0xFF,
        forall|j: int, k: int|
            0 <= j < k < entries.len() ==> entries[j][0] != entries[k][0],
    ensures
        snapshot_ram(load_ram(mem0, entries)) == normalize_ram(entries),
        normalize_ram(snapshot_ram(load_ram(mem0, entries))) == normalize_ram(entries),
{
    let mem = load_ram(mem0, entries);
    let snap = snapshot_ram(mem);
    let norm = normalize_ram(entries);

    assert forall|j: int, k: int| 0 <= j < k < entries.len() implies entry_key(
        #[trigger] entries[j],
    ) != entry_key(#[trigger] entries[k]) by {
        assert(entries[j].len() == 2 && entries[k].len() == 2);
    }

    lemma_sort_entries_props(entries);
    lemma_keep_nonzero_props(sort_entries(entries));
    lemma_load_ram_upto_props(mem0, entries, entries.len() as int);
    lemma_snapshot_ram_upto_props(mem, 0x10000);

    assert(sorted_lt(norm));
    assert(sorted_lt(snap));

    // The two listings hold the same entries: a pair is in either one
    // exactly when it is a non-zero entry of the original listing.
    assert forall|x: Seq<u16>| norm.contains(x) implies snap.contains(x) by {
        assert(sort_entries(entries).contains(x) && entry_nonzero(x));
        assert(entries.contains(x));
        let j = choose|j: int| 0 <= j < entries.len() && entries[j] == x;
        let a = x[0];
        assert(mem[a] == x[1] as u8);
        assert(mem[a] != 0);
        assert(x =~= seq![a, mem[a] as u16]);
        assert(snap.contains(seq![a, mem[a] as u16]));
    }
    assert forall|x: Seq<u16>| snap.contains(x) implies norm.contains(x) by {
        let a = choose|a: u16| a < 0x10000 && mem[a] != 0 && x == seq![a, mem[a] as u16];
        // A non-zero cell can only have been written by some entry.
        assert(exists|j: int| 0 <= j < entries.len() && (#[trigger] entries[j])[0] == a) by {
            if !(exists|j: int| 0 <= j < entries.len() && (#[trigger] entries[j])[0] == a) {
                assert(mem[a] == mem0[a]);
            }
        }
        let j = choose|j: int| 0 <= j < entries.len() && (#[trigger] entries[j])[0] == a;
        assert(mem[a] == entries[j][1] as u8);
        assert(entries[j] =~= seq![a, mem[a] as u16]);
        assert(x == entries[j]);
        assert(entries.contains(entries[j]));
        assert(entry_nonzero(entries[j]));
        assert(sort_entries(entries).contains(x));
        assert(norm.contains(x));
    }

    lemma_sorted_unique(snap, norm);

    // The snapshot listing is already normalized, so normalizing both
    // sides changes nothing.
    assert forall|j: int| 0 <= j < snap.len() implies entry_nonzero(#[trigger] snap[j]) by {
        assert(snap.contains(snap[j]));
        let a = choose|a: u16| a < 0x10000 && mem[a] != 0 && snap[j] == seq![a, mem[a] as u16];
    }
    lemma_sort_of_sorted(snap);
    lemma_keep_of_nonzero(snap);
}

/// The round trip at the snapshot level: a CPU built from a well-formed
/// snapshot over zeroed memory reads back a state that equals the
/// original under snapshot equality -- same registers, same RAM modulo
/// normalization. The hypotheses are exactly what `Cpu::from_state` and
/// `Cpu::state` guarantee.
pub proof fn lemma_state_of_from_state(
    original: crate::snapshot::CpuState,
    read_back: crate::snapshot::CpuState,
    mem0: Map<u16, u8>,
)
    requires
        forall|a: u16| mem0[a] == 0,
        forall|j: int|
            0 <= j < crate::snapshot::ram_view(original.ram).len() ==> (
            #[trigger] crate::snapshot::ram_view(original.ram)[j]).len() == 2
                && crate::snapshot::ram_view(original.ram)[j][1] <= 0xFF,
        forall|j: int, k: int|
            0 <= j < k < crate::snapshot::ram_view(original.ram).len()
                ==> crate::snapshot::ram_view(original.ram)[j][0] != crate::snapshot::ram_view(
                original.ram,
            )[k][0],
        read_back.pc == original.pc,
        read_back.s == original.s,
        read_back.a == original.a,
        read_back.x == original.x,
        read_back.y == original.y,
        read_back.p == original.p,
        crate::snapshot::ram_view(read_back.ram) == snapshot_ram(
            load_ram(mem0, crate::snapshot::ram_view(original.ram)),
        ),
    ensures
        read_back.eq_spec(&original),
{
    lemma_snapshot_round_trip(mem0, crate::snapshot::ram_view(original.ram));
}

} // verus!
