//! Serializable CPU state snapshots for conformance testing, and the
//! normalization rule under which two snapshots count as equal: the sparse
//! RAM listing is sorted by address and zero-valued cells are dropped.
use vstd::prelude::*;

verus! {

/// The programmer-visible state of the CPU. The `ram` field lists the
/// non-zero memory cells as `[address, value]` pairs, each value a byte
/// carried in a `u16`.
#[derive(Clone, Debug)]
pub struct CpuState {
    pub pc: u16,
    pub s: u8,
    pub a: u8,
    pub x: u8,
    pub y: u8,
    pub p: u8,
    pub ram: Vec<Vec<u16>>,
}

/// The mathematical view of a RAM listing: a sequence of entry sequences.
pub open spec fn ram_view(ram: Vec<Vec<u16>>) -> Seq<Seq<u16>> {
    Seq::new(ram@.len(), |i: int| ram@[i]@)
}

/// The address an entry is sorted by; a malformed empty entry sorts first.
pub open spec fn entry_key(e: Seq<u16>) -> u16 {
    if e.len() > 0 {
        e[0]
    } else {
        0
    }
}

/// An entry that survives normalization: it carries a value and the value
/// is not zero.
pub open spec fn entry_nonzero(e: Seq<u16>) -> bool {
    e.len() > 1 && e[1] != 0
}

/// Inserts an entry into an address-sorted listing, after every entry with
/// an address no greater than its own, so that the sort stays stable.
pub open spec fn insert_entry(sorted: Seq<Seq<u16>>, e: Seq<u16>) -> Seq<Seq<u16>>
    decreases sorted.len(),
{
    if sorted.len() == 0 {
        seq![e]
    } else if entry_key(sorted.last()) <= entry_key(e) {
        sorted.push(e)
    } else {
        insert_entry(sorted.drop_last(), e).push(sorted.last())
    }
}

/// A RAM listing stably sorted by address.
pub open spec fn sort_entries(entries: Seq<Seq<u16>>) -> Seq<Seq<u16>>
    decreases entries.len(),
{
    if entries.len() == 0 {
        Seq::empty()
    } else {
        insert_entry(sort_entries(entries.drop_last()), entries.last())
    }
}

/// A RAM listing with the zero-valued (and malformed) entries dropped,
/// order kept.
pub open spec fn keep_nonzero(entries: Seq<Seq<u16>>) -> Seq<Seq<u16>>
    decreases entries.len(),
{
    if entries.len() == 0 {
        Seq::empty()
    } else if entry_nonzero(entries.last()) {
        keep_nonzero(entries.drop_last()).push(entries.last())
    } else {
        keep_nonzero(entries.drop_last())
    }
}

/// The normalized form of a RAM listing: sorted by address, zero-valued
/// cells dropped. Two snapshots are equal exactly when their registers
/// match and their normalized listings match.
pub open spec fn normalize_ram(entries: Seq<Seq<u16>>) -> Seq<Seq<u16>> {
    keep_nonzero(sort_entries(entries))
}

/// The RAM listing a snapshot reports for the memory cells below address
/// `n`: one `[address, value]` entry per non-zero cell, in ascending
/// address order.
pub open spec fn snapshot_ram_upto(mem: Map<u16, u8>, n: int) -> Seq<Seq<u16>>
    decreases n,
{
    if n <= 0 {
        Seq::empty()
    } else {
        let prev = snapshot_ram_upto(mem, n - 1);
        let a = (n - 1) as u16;
        if mem[a] == 0 {
            prev
        } else {
            prev.push(seq![a, mem[a] as u16])
        }
    }
}

/// The RAM listing a snapshot reports for the whole 16-bit address space.
pub open spec fn snapshot_ram(mem: Map<u16, u8>) -> Seq<Seq<u16>> {
    snapshot_ram_upto(mem, 0x10000)
}

/// The memory that loading the first `n` entries of a RAM listing over
/// `mem0` produces, each entry written in turn.
pub open spec fn load_ram_upto(mem0: Map<u16, u8>, entries: Seq<Seq<u16>>, n: int) -> Map<u16, u8>
    decreases n,
{
    if n <= 0 {
        mem0
    } else {
        load_ram_upto(mem0, entries, n - 1).insert(entries[n - 1][0], entries[n - 1][1] as u8)
    }
}

/// The memory that loading a whole RAM listing over `mem0` produces.
pub open spec fn load_ram(mem0: Map<u16, u8>, entries: Seq<Seq<u16>>) -> Map<u16, u8> {
    load_ram_upto(mem0, entries, entries.len() as int)
}

/// The address an entry is sorted by.
fn entry_key_exec(e: &Vec<u16>) -> (r: u16)
    ensures
        r == entry_key(e@),
{
    if e.len() > 0 {
        e[0]
    } else {
        0
    }
}

/// An element-for-element copy of one entry.
fn clone_entry(e: &Vec<u16>) -> (r: Vec<u16>)
    ensures
        r@ == e@,
{
    let mut r: Vec<u16> = Vec::new();
    let mut i: usize = 0;
    while i < e.len()
        invariant
            i <= e@.len(),
            r@ == e@.take(i as int),
        decreases e@.len() - i,
    {
        r.push(e[i]);
        proof {
            assert(e@.take(i as int).push(e@[i as int]) =~= e@.take(i + 1));
        }
        i += 1;
    }
    proof {
        assert(e@.take(e@.len() as int) =~= e@);
    }
    r
}

/// Inserts one entry into an already sorted listing.
fn insert_entry_exec(sorted: Vec<Vec<u16>>, e: Vec<u16>) -> (r: Vec<Vec<u16>>)
    ensures
        ram_view(r) == insert_entry(ram_view(sorted), e@),
    decreases sorted.len(),
{
    let ghost pre = ram_view(sorted);
    let mut out = sorted;
    if out.len() == 0 {
        out.push(e);
        proof {
            assert(ram_view(out) =~= seq![e@]);
        }
        out
    } else if entry_key_exec(&out[out.len() - 1]) <= entry_key_exec(&e) {
        proof {
            assert(pre.last() == ram_view(out)[out@.len() - 1]);
        }
        out.push(e);
        proof {
            assert(ram_view(out) =~= pre.push(e@));
        }
        out
    } else {
        let last = out.pop().unwrap();
        proof {
            assert(ram_view(out) =~= pre.drop_last());
        }
        let mut r = insert_entry_exec(out, e);
        let ghost mid = ram_view(r);
        r.push(last);
        proof {
            assert(ram_view(r) =~= mid.push(last@));
        }
        r
    }
}

/// A stable sort of a RAM listing by address.
fn sort_ram(ram: &Vec<Vec<u16>>) -> (r: Vec<Vec<u16>>)
    ensures
        ram_view(r) == sort_entries(ram_view(*ram)),
{
    let ghost full = ram_view(*ram);
    let mut result: Vec<Vec<u16>> = Vec::new();
    proof {
        assert(ram_view(result) =~= full.take(0));
    }
    let mut i: usize = 0;
    while i < ram.len()
        invariant
            i <= ram@.len(),
            full == ram_view(*ram),
            ram_view(result) == sort_entries(full.take(i as int)),
        decreases ram@.len() - i,
    {
        let e = clone_entry(&ram[i]);
        result = insert_entry_exec(result, e);
        proof {
            assert(full.take(i + 1).drop_last() =~= full.take(i as int));
            assert(full.take(i + 1).last() == full[i as int]);
        }
        i += 1;
    }
    proof {
        assert(full.take(ram@.len() as int) =~= full);
    }
    result
}

/// Drops the zero-valued and malformed entries, keeping the order.
fn filter_nonzero(ram: Vec<Vec<u16>>) -> (r: Vec<Vec<u16>>)
    ensures
        ram_view(r) == keep_nonzero(ram_view(ram)),
{
    let ghost full = ram_view(ram);
    let mut result: Vec<Vec<u16>> = Vec::new();
    proof {
        assert(ram_view(result) =~= keep_nonzero(full.take(0)));
    }
    let mut i: usize = 0;
    while i < ram.len()
        invariant
            i <= ram@.len(),
            full == ram_view(ram),
            ram_view(result) == keep_nonzero(full.take(i as int)),
        decreases ram@.len() - i,
    {
        let entry = &ram[i];
        proof {
            assert(full.take(i + 1).drop_last() =~= full.take(i as int));
            assert(full.take(i + 1).last() == full[i as int]);
        }
        if entry.len() > 1 && entry[1] != 0 {
            let ghost before = ram_view(result);
            let copied = clone_entry(entry);
            result.push(copied);
            proof {
                assert(ram_view(result) =~= before.push(full[i as int]));
            }
        }
        i += 1;
    }
    proof {
        assert(full.take(ram@.len() as int) =~= full);
    }
    result
}

/// The normalized form of a RAM listing: sorted by address with the
/// zero-valued cells dropped.
pub fn normalized_ram(ram: &Vec<Vec<u16>>) -> (r: Vec<Vec<u16>>)
    ensures
        ram_view(r) == normalize_ram(ram_view(*ram)),
{
    let sorted = sort_ram(ram);
    filter_nonzero(sorted)
}

/// Whether two entries hold the same numbers.
fn entry_equal(a: &Vec<u16>, b: &Vec<u16>) -> (r: bool)
    ensures
        r == (a@ == b@),
{
    if a.len() != b.len() {
        proof {
            assert(a@ != b@);
        }
        return false;
    }
    let mut i: usize = 0;
    while i < a.len()
        invariant
            i <= a@.len(),
            a@.len() == b@.len(),
            forall|j: int| 0 <= j < i ==> a@[j] == b@[j],
        decreases a@.len() - i,
    {
        if a[i] != b[i] {
            proof {
                assert(a@ != b@);
            }
            return false;
        }
        i += 1;
    }
    proof {
        assert(a@ =~= b@);
    }
    true
}

/// Whether two RAM listings hold the same entries in the same order.
fn ram_equal(a: &Vec<Vec<u16>>, b: &Vec<Vec<u16>>) -> (r: bool)
    ensures
        r == (ram_view(*a) == ram_view(*b)),
{
    if a.len() != b.len() {
        proof {
            assert(ram_view(*a).len() != ram_view(*b).len());
        }
        return false;
    }
    let mut i: usize = 0;
    while i < a.len()
        invariant
            i <= a@.len(),
            a@.len() == b@.len(),
            forall|j: int| 0 <= j < i ==> ram_view(*a)[j] == ram_view(*b)[j],
        decreases a@.len() - i,
    {
        if !entry_equal(&a[i], &b[i]) {
            proof {
                assert(ram_view(*a)[i as int] != ram_view(*b)[i as int]);
            }
            return false;
        }
        i += 1;
    }
    proof {
        assert(ram_view(*a) =~= ram_view(*b));
    }
    true
}

impl PartialEq for CpuState {
    /// Two snapshots are equal when the registers match and the RAM
    /// listings match after normalization.
    fn eq(&self, other: &Self) -> (r: bool) {
        let other_fields_match = (self.pc == other.pc) && (self.s == other.s) && (self.a
            == other.a) && (self.x == other.x) && (self.y == other.y) && (self.p == other.p);

        if !other_fields_match {
            return false;
        }

        let self_normalized_ram = normalized_ram(&self.ram);
        let other_normalized_ram = normalized_ram(&other.ram);

        ram_equal(&self_normalized_ram, &other_normalized_ram)
    }
}

impl vstd::std_specs::cmp::PartialEqSpecImpl for CpuState {
    open spec fn obeys_eq_spec() -> bool {
        true
    }

    open spec fn eq_spec(&self, other: &Self) -> bool {
        &&& self.pc == other.pc
        &&& self.s == other.s
        &&& self.a == other.a
        &&& self.x == other.x
        &&& self.y == other.y
        &&& self.p == other.p
        &&& normalize_ram(ram_view(self.ram)) == normalize_ram(ram_view(other.ram))
    }
}

} // verus!
