//! The register store: three independent maps (holding registers, input
//! registers, coils) keyed by 16-bit address. An address never written reads
//! as 0 (registers) or false (coils); sparse addressing is legal and no read
//! or write ever fails.
//!
//! Address arithmetic for consecutive runs wraps around the 16-bit address
//! space, so every address/count combination is total.
//!
//! The store itself is sequential; callers that share it across tasks
//! serialize access through one mutual-exclusion discipline, so each method
//! here describes one atomic store operation.

use std::collections::HashMap;
use vstd::prelude::*;

verus! {

broadcast use vstd::std_specs::hash::group_hash_axioms;

/// The register word readable at address `a` of a word map: an unmapped
/// address reads as zero.
pub open spec fn word_at(m: Map<u16, u16>, a: u16) -> u16 {
    if m.contains_key(a) {
        m[a]
    } else {
        0
    }
}

/// The coil readable at address `a` of a bit map: an unmapped address reads
/// as false.
pub open spec fn bit_at(m: Map<u16, bool>, a: u16) -> bool {
    if m.contains_key(a) {
        m[a]
    } else {
        false
    }
}

/// The address `i` places past `a`, wrapping around the 16-bit address space.
pub open spec fn offset_addr(a: u16, i: int) -> u16
    recommends
        0 <= i <= 0xFFFF,
{
    if a + i > 0xFFFF {
        (a + i - 0x10000) as u16
    } else {
        (a + i) as u16
    }
}

/// The `count` consecutive words starting at `addr`, in address order.
pub open spec fn words_from(m: Map<u16, u16>, addr: u16, count: u16) -> Seq<u16> {
    Seq::new(count as nat, |i: int| word_at(m, offset_addr(addr, i)))
}

/// The `count` consecutive coils starting at `addr`, in address order.
pub open spec fn bits_from(m: Map<u16, bool>, addr: u16, count: u16) -> Seq<bool> {
    Seq::new(count as nat, |i: int| bit_at(m, offset_addr(addr, i)))
}

/// The word map after upserting the run `vals` starting at `addr`: value
/// `vals[i]` goes to address `offset_addr(addr, i)`, later writes winning.
pub open spec fn upsert_run(m: Map<u16, u16>, addr: u16, vals: Seq<u16>) -> Map<u16, u16>
    decreases vals.len(),
{
    if vals.len() == 0 {
        m
    } else {
        upsert_run(m, addr, vals.drop_last()).insert(
            offset_addr(addr, vals.len() - 1),
            vals.last(),
        )
    }
}

/// Holding registers, input registers and coils, each a sparse map from
/// 16-bit address to value.
pub struct RegisterStore {
    holding: HashMap<u16, u16>,
    input: HashMap<u16, u16>,
    coils: HashMap<u16, bool>,
}

/// Read `count` consecutive words of `m` starting at `addr`; a word never
/// written reads as zero.
fn read_word_run(m: &HashMap<u16, u16>, addr: u16, count: u16) -> (values: Vec<u16>)
    ensures
        values@ == words_from(m@, addr, count),
{
    let mut values: Vec<u16> = Vec::new();
    let mut i: u16 = 0;
    while i < count
        invariant
            i <= count,
            values@.len() == i as int,
            forall|j: int| 0 <= j < i as int ==> values@[j] == word_at(m@, offset_addr(addr, j)),
        decreases count - i,
    {
        let a = addr.wrapping_add(i);
        let v = match m.get(&a) {
            Some(x) => *x,
            None => 0u16,
        };
        values.push(v);
        i = i + 1;
    }
    proof {
        assert(values@ =~= words_from(m@, addr, count));
    }
    values
}

/// Read `count` consecutive coils of `m` starting at `addr`; a coil never
/// written reads as false.
fn read_bit_run(m: &HashMap<u16, bool>, addr: u16, count: u16) -> (values: Vec<bool>)
    ensures
        values@ == bits_from(m@, addr, count),
{
    let mut values: Vec<bool> = Vec::new();
    let mut i: u16 = 0;
    while i < count
        invariant
            i <= count,
            values@.len() == i as int,
            forall|j: int| 0 <= j < i as int ==> values@[j] == bit_at(m@, offset_addr(addr, j)),
        decreases count - i,
    {
        let a = addr.wrapping_add(i);
        let v = match m.get(&a) {
            Some(x) => *x,
            None => false,
        };
        values.push(v);
        i = i + 1;
    }
    proof {
        assert(values@ =~= bits_from(m@, addr, count));
    }
    values
}

impl RegisterStore {
    /// The map of holding registers that have been written.
    pub closed spec fn holding_map(self) -> Map<u16, u16> {
        self.holding@
    }

    /// The map of input registers that have been written.
    pub closed spec fn input_map(self) -> Map<u16, u16> {
        self.input@
    }

    /// The map of coils that have been written.
    pub closed spec fn coil_map(self) -> Map<u16, bool> {
        self.coils@
    }

    /// The holding-register word readable at `a`.
    pub open spec fn holding_at(self, a: u16) -> u16 {
        word_at(self.holding_map(), a)
    }

    /// The input-register word readable at `a`.
    pub open spec fn input_at(self, a: u16) -> u16 {
        word_at(self.input_map(), a)
    }

    /// The coil readable at `a`.
    pub open spec fn coil_at(self, a: u16) -> bool {
        bit_at(self.coil_map(), a)
    }

    /// An empty store: every register reads as zero, every coil as false.
    pub fn new() -> (s: Self)
        ensures
            s.holding_map() == Map::<u16, u16>::empty(),
            s.input_map() == Map::<u16, u16>::empty(),
            s.coil_map() == Map::<u16, bool>::empty(),
    {
        RegisterStore { holding: HashMap::new(), input: HashMap::new(), coils: HashMap::new() }
    }

    /// Read `count` consecutive holding registers starting at `addr`.
    pub fn read_holding(&self, addr: u16, count: u16) -> (values: Vec<u16>)
        ensures
            values@ == words_from(self.holding_map(), addr, count),
    {
        read_word_run(&self.holding, addr, count)
    }

    /// Read `count` consecutive input registers starting at `addr`.
    pub fn read_input(&self, addr: u16, count: u16) -> (values: Vec<u16>)
        ensures
            values@ == words_from(self.input_map(), addr, count),
    {
        read_word_run(&self.input, addr, count)
    }

    /// Read `count` consecutive coils starting at `addr`.
    pub fn read_coils(&self, addr: u16, count: u16) -> (values: Vec<bool>)
        ensures
            values@ == bits_from(self.coil_map(), addr, count),
    {
        read_bit_run(&self.coils, addr, count)
    }

    /// Upsert a single holding register; the result echoes the committed word.
    pub fn write_holding_one(&mut self, addr: u16, value: u16) -> (echoed: u16)
        ensures
            final(self).holding_map() == old(self).holding_map().insert(addr, value),
            final(self).input_map() == old(self).input_map(),
            final(self).coil_map() == old(self).coil_map(),
            echoed == value,
    {
        self.holding.insert(addr, value);
        value
    }

    /// Upsert a contiguous run of holding registers starting at `addr`;
    /// returns the number of registers written.
    pub fn write_holding_many(&mut self, addr: u16, values: &Vec<u16>) -> (count: u16)
        requires
            values@.len() <= 0xFFFF,
        ensures
            final(self).holding_map() == upsert_run(old(self).holding_map(), addr, values@),
            final(self).input_map() == old(self).input_map(),
            final(self).coil_map() == old(self).coil_map(),
            count as int == values@.len(),
    {
        let ghost m0 = self.holding@;
        let ghost in0 = self.input@;
        let ghost c0 = self.coils@;
        let mut i: usize = 0;
        while i < values.len()
            invariant
                i <= values@.len(),
                values@.len() <= 0xFFFF,
                self.holding@ == upsert_run(m0, addr, values@.take(i as int)),
                self.input@ == in0,
                self.coils@ == c0,
            decreases values@.len() - i,
        {
            let a = addr.wrapping_add(i as u16);
            self.holding.insert(a, values[i]);
            proof {
                assert(values@.take(i + 1).drop_last() =~= values@.take(i as int));
                assert(values@.take(i + 1).last() == values@[i as int]);
            }
            i = i + 1;
        }
        proof {
            assert(values@.take(values@.len() as int) =~= values@);
        }
        values.len() as u16
    }

    /// Upsert a single coil; the result echoes the committed state.
    pub fn write_coil_one(&mut self, addr: u16, value: bool) -> (echoed: bool)
        ensures
            final(self).coil_map() == old(self).coil_map().insert(addr, value),
            final(self).holding_map() == old(self).holding_map(),
            final(self).input_map() == old(self).input_map(),
            echoed == value,
    {
        self.coils.insert(addr, value);
        value
    }
}

/// Default-value invariant: an address never written reads as zero
/// (registers) or false (coils).
pub proof fn lemma_unwritten_defaults(s: RegisterStore, a: u16)
    requires
        !s.holding_map().contains_key(a),
        !s.input_map().contains_key(a),
        !s.coil_map().contains_key(a),
    ensures
        s.holding_at(a) == 0,
        s.input_at(a) == 0,
        !s.coil_at(a),
{
}

/// Read-after-write consistency: upserting `value` at `addr` and then
/// reading one word back at `addr` yields exactly `value`.
pub proof fn lemma_read_after_write(m: Map<u16, u16>, addr: u16, value: u16)
    ensures
        word_at(m.insert(addr, value), addr) == value,
        words_from(m.insert(addr, value), addr, 1) =~= seq![value],
{
}

/// The word map after a batch of single-register writes, applied in order.
pub open spec fn apply_writes(m: Map<u16, u16>, writes: Seq<(u16, u16)>) -> Map<u16, u16>
    decreases writes.len(),
{
    if writes.len() == 0 {
        m
    } else {
        apply_writes(m, writes.drop_last()).insert(writes.last().0, writes.last().1)
    }
}

/// Writers to pairwise disjoint addresses: in whatever order the batch is
/// applied, every writer's value is afterwards observed, whole, at its own
/// address.
pub proof fn lemma_disjoint_writes_all_observed(m: Map<u16, u16>, writes: Seq<(u16, u16)>)
    requires
        forall|i: int, j: int|
            0 <= i < j < writes.len() ==> (#[trigger] writes[i]).0 != (#[trigger] writes[j]).0,
    ensures
        forall|i: int|
            0 <= i < writes.len() ==> word_at(apply_writes(m, writes), (#[trigger] writes[i]).0)
                == writes[i].1,
    decreases writes.len(),
{
    if writes.len() > 0 {
        let prefix = writes.drop_last();
        lemma_disjoint_writes_all_observed(m, prefix);
        assert forall|i: int|
            0 <= i < writes.len() implies word_at(
            apply_writes(m, writes),
            (#[trigger] writes[i]).0,
        ) == writes[i].1 by {
            if i < writes.len() - 1 {
                assert(prefix[i] == writes[i]);
                assert(writes[i].0 != writes.last().0);
            }
        }
    }
}

/// Two writes to the same address: the later write wins whole; a reader sees
/// one of the written words, never a mixture.
pub proof fn lemma_same_address_last_writer_wins(m: Map<u16, u16>, addr: u16, v1: u16, v2: u16)
    ensures
        word_at(m.insert(addr, v1).insert(addr, v2), addr) == v2,
{
}

/// Two writes to distinct addresses commute: the final store does not depend
/// on which writer ran first.
pub proof fn lemma_disjoint_writes_commute(m: Map<u16, u16>, a1: u16, v1: u16, a2: u16, v2: u16)
    requires
        a1 != a2,
    ensures
        m.insert(a1, v1).insert(a2, v2) =~= m.insert(a2, v2).insert(a1, v1),
{
}

} // verus!
