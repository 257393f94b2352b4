//! The slot table that the registry and the pending table are kept in:
//! `slab::Slab`, seen through what it holds.

use slab::Slab;
use vstd::prelude::*;

verus! {

/// `slab::Slab`, of which nothing is known but what the functions below say.
#[verifier::external_type_specification]
#[verifier::external_body]
#[verifier::reject_recursive_types(T)]
pub struct ExSlab<T>(Slab<T>);

/// What a slab holds: every occupied key with the value stored under it.
pub uninterp spec fn slab_entries(slab: Slab<u64>) -> Map<usize, u64>;

/// The key that a slab gives to the next value: the top of its stack of
/// vacant keys, which `Slab::vacant_key` tells.
pub uninterp spec fn slab_vacant_key(slab: Slab<u64>) -> usize;

/// `Slab::new`: a slab that holds nothing, and whose first key is 0.
#[verifier::external_body]
pub(crate) fn slab_new() -> (fresh: Slab<u64>)
    ensures
        slab_entries(fresh) == (Map::<usize, u64>::empty()),
        slab_vacant_key(fresh) == 0,
{
    Slab::new()
}

/// `Slab::insert`: stores `value` under the key that was next, which was
/// vacant, and returns that key; every other entry stays. (It allocates, and
/// like any allocation gives up only when memory is exhausted.)
#[verifier::external_body]
pub(crate) fn slab_insert(slab: &mut Slab<u64>, value: u64) -> (key: usize)
    ensures
        key == slab_vacant_key(*old(slab)),
        !slab_entries(*old(slab)).contains_key(key),
        slab_entries(*final(slab)) == slab_entries(*old(slab)).insert(key, value),
{
    slab.insert(value)
}

/// `Slab::get`: the value stored under `key`, if the key is occupied.
#[verifier::external_body]
pub(crate) fn slab_get(slab: &Slab<u64>, key: usize) -> (value: Option<u64>)
    ensures
        value == if slab_entries(*slab).contains_key(key) {
            Some(slab_entries(*slab)[key])
        } else {
            None::<u64>
        },
{
    slab.get(key).copied()
}

/// `Slab::try_remove`: vacates `key` and returns what was stored under it,
/// and the key is the next to be given out; on a vacant key it returns
/// `None` and changes nothing.
#[verifier::external_body]
pub(crate) fn slab_try_remove(slab: &mut Slab<u64>, key: usize) -> (value: Option<u64>)
    ensures
        value == if slab_entries(*old(slab)).contains_key(key) {
            Some(slab_entries(*old(slab))[key])
        } else {
            None::<u64>
        },
        slab_entries(*final(slab)) == slab_entries(*old(slab)).remove(key),
        slab_vacant_key(*final(slab)) == if slab_entries(*old(slab)).contains_key(key) {
            key
        } else {
            slab_vacant_key(*old(slab))
        },
{
    slab.try_remove(key)
}

/// That `entries` lists a table: by ascending key, every entry of the table
/// and nothing else.
pub open spec fn in_key_order(table: Map<usize, u64>, entries: Seq<(usize, u64)>) -> bool {
    &&& forall|i: int, j: int|
        0 <= i < j < entries.len() ==> (#[trigger] entries[i]).0 < (#[trigger] entries[j]).0
    &&& forall|i: int|
        0 <= i < entries.len() ==> table.contains_pair(
            (#[trigger] entries[i]).0,
            entries[i].1,
        )
    &&& forall|key: usize| #[trigger]
        table.contains_key(key) ==> exists|i: int|
            0 <= i < entries.len() && (#[trigger] entries[i]).0 == key
}

/// `Slab::iter`: every occupied key with its value, once each, by ascending
/// key.
#[verifier::external_body]
pub(crate) fn slab_iter(slab: &Slab<u64>) -> (entries: Vec<(usize, u64)>)
    ensures
        in_key_order(slab_entries(*slab), entries@),
{
    slab.iter().map(|(key, value)| (key, *value)).collect()
}

/// A table that is listed by ascending key is finite, and the list has one
/// place for each of its entries.
pub proof fn lemma_key_order_counts(table: Map<usize, u64>, entries: Seq<(usize, u64)>)
    requires
        in_key_order(table, entries),
    ensures
        table.dom().finite(),
        table.len() == entries.len(),
    decreases entries.len(),
{
    if entries.len() == 0 {
        assert(table.dom() =~= Set::<usize>::empty());
    } else {
        lemma_key_order_without_last(table, entries);
        lemma_key_order_counts(table.remove(entries.last().0), entries.drop_last());
    }
}

/// Without its last place, a list by ascending key lists the table without
/// the entry of that place.
proof fn lemma_key_order_without_last(table: Map<usize, u64>, entries: Seq<(usize, u64)>)
    requires
        in_key_order(table, entries),
        entries.len() > 0,
    ensures
        in_key_order(table.remove(entries.last().0), entries.drop_last()),
{
    let rest = table.remove(entries.last().0);
    let earlier = entries.drop_last();
    assert forall|key: usize| #[trigger] rest.contains_key(key) implies exists|i: int|
        0 <= i < earlier.len() && (#[trigger] earlier[i]).0 == key by {
        let i = choose|i: int| 0 <= i < entries.len() && (#[trigger] entries[i]).0 == key;
        assert(earlier[i] == entries[i]);
    }
}

/// A table has one list by ascending key and no other.
pub proof fn lemma_key_order_is_unique(
    table: Map<usize, u64>,
    first: Seq<(usize, u64)>,
    second: Seq<(usize, u64)>,
)
    requires
        in_key_order(table, first),
        in_key_order(table, second),
    ensures
        first == second,
    decreases first.len(),
{
    lemma_key_order_counts(table, first);
    lemma_key_order_counts(table, second);
    if first.len() > 0 {
        let a = first.last();
        let b = second.last();
        // The last key of each list has a place in the other, where no key
        // is above the last.
        assert(a.0 == b.0) by {
            let i = choose|i: int| 0 <= i < second.len() && (#[trigger] second[i]).0 == a.0;
            let j = choose|j: int| 0 <= j < first.len() && (#[trigger] first[j]).0 == b.0;
            assert(second[i].0 <= b.0);
            assert(first[j].0 <= a.0);
        }
        lemma_key_order_without_last(table, first);
        lemma_key_order_without_last(table, second);
        lemma_key_order_is_unique(table.remove(a.0), first.drop_last(), second.drop_last());
        assert(first =~= first.drop_last().push(a));
    }
}

} // verus!
