//! The contract of a table-namespaced key-value backend.

use vstd::prelude::*;
use crate::error::KvError;
use crate::value::{pairs_view, Kvpair, PairView, Value, ValueView};

verus! {

/// What a backend holds: the value under each pair of table name and key.
pub type Entries = Map<(Seq<char>, Seq<char>), ValueView>;

/// What a backend holds before anything was written.
pub open spec fn empty_entries() -> Entries {
    Map::empty()
}

/// The value under `key` in `table`, if there is one.
pub open spec fn lookup(entries: Entries, table: Seq<char>, key: Seq<char>) -> Option<ValueView> {
    if entries.contains_key((table, key)) {
        Some(entries[(table, key)])
    } else {
        None
    }
}

/// The entries after `value` was put under `key` in `table`.
pub open spec fn with_entry(
    entries: Entries,
    table: Seq<char>,
    key: Seq<char>,
    value: ValueView,
) -> Entries {
    entries.insert((table, key), value)
}

/// The entries after `key` was taken out of `table`.
pub open spec fn without_entry(entries: Entries, table: Seq<char>, key: Seq<char>) -> Entries {
    entries.remove((table, key))
}

/// What one table holds: the value under each of its keys.
pub type Table = Map<Seq<char>, ValueView>;

/// The value under `key` in a table, if there is one.
pub open spec fn value_at(table: Table, key: Seq<char>) -> Option<ValueView> {
    if table.contains_key(key) {
        Some(table[key])
    } else {
        None
    }
}

/// Whether `pairs` lists each key of `table` once, with its value, and
/// nothing else, in any order.
pub open spec fn lists_table(pairs: Seq<PairView>, table: Table) -> bool {
    &&& forall|i: int|
        0 <= i < pairs.len() ==> value_at(table, (#[trigger] pairs[i]).0) == Some(pairs[i].1)
    &&& forall|i: int, j: int|
        0 <= i < j < pairs.len() ==> (#[trigger] pairs[i]).0 != (#[trigger] pairs[j]).0
    &&& forall|key: Seq<char>| #[trigger]
        table.contains_key(key) ==> exists|i: int|
            0 <= i < pairs.len() && (#[trigger] pairs[i]).0 == key
}

/// The part of `entries` that stands under the name `table`.
pub open spec fn table_part(entries: Entries, table: Seq<char>) -> Table {
    Map::new(|key: Seq<char>| entries.contains_key((table, key)), |key: Seq<char>| entries[(table, key)])
}

/// Whether `pairs` lists what `table` holds: each key of the table once,
/// with its value, and nothing else, in any order.
pub open spec fn is_snapshot(pairs: Seq<PairView>, entries: Entries, table: Seq<char>) -> bool {
    lists_table(pairs, table_part(entries, table))
}

/// A key that was never written has no value and is not held.
pub proof fn lemma_unset_key_is_absent(entries: Entries, table: Seq<char>, key: Seq<char>)
    requires
        !entries.contains_key((table, key)),
    ensures
        lookup(entries, table, key) is None,
        lookup(empty_entries(), table, key) is None,
        !empty_entries().contains_key((table, key)),
{
}

/// After a key was written twice, the second write finds the first value
/// and a read finds the second.
pub proof fn lemma_second_write_returns_first(
    entries: Entries,
    table: Seq<char>,
    key: Seq<char>,
    first: ValueView,
    second: ValueView,
)
    ensures
        lookup(with_entry(entries, table, key, first), table, key) == Some(first),
        lookup(
            with_entry(with_entry(entries, table, key, first), table, key, second),
            table,
            key,
        ) == Some(second),
{
}

/// A removal finds the value that was written, and a second removal finds
/// nothing and changes nothing.
pub proof fn lemma_removal_is_idempotent(
    entries: Entries,
    table: Seq<char>,
    key: Seq<char>,
    value: ValueView,
)
    ensures
        lookup(with_entry(entries, table, key, value), table, key) == Some(value),
        lookup(without_entry(with_entry(entries, table, key, value), table, key), table, key)
            is None,
        without_entry(
            without_entry(with_entry(entries, table, key, value), table, key),
            table,
            key,
        ) == without_entry(with_entry(entries, table, key, value), table, key),
{
    let once = without_entry(with_entry(entries, table, key, value), table, key);
    assert(without_entry(once, table, key) =~= once);
}

/// A write or a removal in one place leaves every other place as it was.
pub proof fn lemma_other_keys_unchanged(
    entries: Entries,
    table: Seq<char>,
    key: Seq<char>,
    value: ValueView,
    other_table: Seq<char>,
    other_key: Seq<char>,
)
    requires
        (other_table, other_key) != (table, key),
    ensures
        lookup(with_entry(entries, table, key, value), other_table, other_key) == lookup(
            entries,
            other_table,
            other_key,
        ),
        lookup(without_entry(entries, table, key), other_table, other_key) == lookup(
            entries,
            other_table,
            other_key,
        ),
{
}

/// Every snapshot of a table that was empty before two different keys were
/// written into it holds exactly those two pairs, in one order or the other.
pub proof fn lemma_snapshot_of_two_writes(
    entries: Entries,
    table: Seq<char>,
    first: PairView,
    second: PairView,
    pairs: Seq<PairView>,
)
    requires
        forall|key: Seq<char>| !entries.contains_key((table, key)),
        first.0 != second.0,
        is_snapshot(
            pairs,
            with_entry(with_entry(entries, table, first.0, first.1), table, second.0, second.1),
            table,
        ),
    ensures
        pairs == seq![first, second] || pairs == seq![second, first],
{
    let after = with_entry(
        with_entry(entries, table, first.0, first.1),
        table,
        second.0,
        second.1,
    );
    let held = table_part(after, table);
    assert(held.contains_key(first.0));
    assert(held.contains_key(second.0));
    let i = choose|i: int| 0 <= i < pairs.len() && (#[trigger] pairs[i]).0 == first.0;
    let j = choose|j: int| 0 <= j < pairs.len() && (#[trigger] pairs[j]).0 == second.0;
    assert(pairs[i] == first);
    assert(pairs[j] == second);
    assert forall|n: int| 0 <= n < pairs.len() implies (#[trigger] pairs[n]).0 == first.0
        || pairs[n].0 == second.0 by {
        assert(held.contains_key(pairs[n].0));
    }
    if pairs.len() >= 3 {
        let a = pairs[0];
        let b = pairs[1];
        let c = pairs[2];
        assert(a.0 != b.0 && a.0 != c.0 && b.0 != c.0);
    }
    assert(i != j);
    assert(pairs.len() == 2);
    if i == 0 {
        assert(pairs =~= seq![first, second]);
    } else {
        assert(pairs =~= seq![second, first]);
    }
}

/// Two snapshots of one table hold the same pairs: each pair of one stands
/// somewhere in the other.
pub proof fn lemma_snapshots_agree(
    entries: Entries,
    table: Seq<char>,
    one: Seq<PairView>,
    other: Seq<PairView>,
)
    requires
        is_snapshot(one, entries, table),
        is_snapshot(other, entries, table),
    ensures
        forall|i: int| 0 <= i < one.len() ==> other.contains(#[trigger] one[i]),
{
    assert forall|i: int| 0 <= i < one.len() implies other.contains(#[trigger] one[i]) by {
        let key = one[i].0;
        assert(table_part(entries, table).contains_key(key));
        let j = choose|j: int| 0 <= j < other.len() && (#[trigger] other[j]).0 == key;
        assert(other[j] == one[i]);
    }
}

/// The entries after each pair of `pairs` was written into `table`, one
/// after the other.
pub open spec fn with_entries(entries: Entries, table: Seq<char>, pairs: Seq<PairView>) -> Entries
    decreases pairs.len(),
{
    if pairs.len() == 0 {
        entries
    } else {
        with_entry(
            with_entries(entries, table, pairs.drop_last()),
            table,
            pairs.last().0,
            pairs.last().1,
        )
    }
}

/// Writes on different keys of one table do not undo each other: after all
/// of them, each key holds the value that was written under it.
pub proof fn lemma_writes_on_distinct_keys_all_stay(
    entries: Entries,
    table: Seq<char>,
    pairs: Seq<PairView>,
    i: int,
)
    requires
        0 <= i < pairs.len(),
        forall|a: int, b: int|
            0 <= a < b < pairs.len() ==> (#[trigger] pairs[a]).0 != (#[trigger] pairs[b]).0,
    ensures
        lookup(with_entries(entries, table, pairs), table, pairs[i].0) == Some(pairs[i].1),
    decreases pairs.len(),
{
    if i < pairs.len() - 1 {
        let front = pairs.drop_last();
        assert(front[i] == pairs[i]);
        assert forall|a: int, b: int| 0 <= a < b < front.len() implies (#[trigger] front[a]).0 != (
        #[trigger] front[b]).0 by {
            assert(front[a] == pairs[a] && front[b] == pairs[b]);
        }
        lemma_writes_on_distinct_keys_all_stay(entries, table, front, i);
        assert(pairs[i].0 != pairs.last().0);
    }
}

/// The view of a value that may be missing.
pub open spec fn found_view(found: Option<Value>) -> Option<ValueView> {
    match found {
        Some(v) => Some(v@),
        None => None,
    }
}

/// A one-shot, forward-only walk over a snapshot of a table. It is cut off
/// from the backend: later writes do not show in it.
pub struct StorageIter {
    items: Vec<Kvpair>,
    next: usize,
}

impl StorageIter {
    /// The pairs that are still to come, in order.
    pub closed spec fn remaining(&self) -> Seq<PairView> {
        if self.next <= self.items.len() {
            pairs_view(self.items@).subrange(self.next as int, self.items.len() as int)
        } else {
            Seq::empty()
        }
    }

    /// The walk over `items`, from the first.
    pub fn new(items: Vec<Kvpair>) -> (iter: StorageIter)
        ensures
            iter.remaining() == pairs_view(items@),
    {
        let iter = StorageIter { items, next: 0 };
        assert(iter.remaining() =~= pairs_view(items@));
        iter
    }

    /// Hands out the next pair, or nothing once the walk is over.
    pub fn next(&mut self) -> (pair: Option<Kvpair>)
        ensures
            old(self).remaining().len() == 0 ==> pair is None && final(self).remaining()
                == old(self).remaining(),
            old(self).remaining().len() > 0 ==> pair is Some && pair->0@ == old(
                self,
            ).remaining()[0] && final(self).remaining() == old(self).remaining().drop_first(),
    {
        if self.next < self.items.len() {
            let pair = self.items[self.next].clone();
            self.next = self.next + 1;
            assert(final(self).remaining() =~= old(self).remaining().drop_first());
            Some(pair)
        } else {
            None
        }
    }

    /// Hands out all the pairs that are still to come, and ends the walk.
    pub fn collect(&mut self) -> (rest: Vec<Kvpair>)
        ensures
            pairs_view(rest@) == old(self).remaining(),
            final(self).remaining().len() == 0,
    {
        let mut rest: Vec<Kvpair> = Vec::new();
        let ghost all = self.remaining();
        loop
            invariant
                pairs_view(rest@) + self.remaining() == all,
            ensures
                self.remaining().len() == 0,
            decreases self.remaining().len(),
        {
            let ghost before = self.remaining();
            let ghost sofar = pairs_view(rest@);
            match self.next() {
                Some(pair) => {
                    rest.push(pair);
                    assert(pairs_view(rest@) =~= sofar.push(before[0]));
                    assert(sofar.push(before[0]) + before.drop_first() =~= sofar + before);
                },
                None => {
                    break ;
                },
            }
        }
        assert(pairs_view(rest@) =~= all);
        rest
    }
}

/// A backend of the store. Tables come into being on first use: a table
/// that was never written is empty, and asking about it is no error.
///
/// Every operation may fail in a backend that can fail; one for which
/// `may_fail` is false never does.
pub trait Storage {
    /// What the backend holds.
    spec fn entries(&self) -> Entries;

    /// Whether an operation of this backend can return an error.
    spec fn may_fail(&self) -> bool;

    /// The value under `key` in `table`, if there is one.
    fn get(&mut self, table: &str, key: &str) -> (found: Result<Option<Value>, KvError>)
        ensures
            final(self).entries() == old(self).entries(),
            final(self).may_fail() == old(self).may_fail(),
            found matches Ok(v) ==> found_view(v) == lookup(old(self).entries(), table@, key@),
            !old(self).may_fail() ==> found is Ok,
    ;

    /// Puts `value` under `key` in `table`, and returns what was there.
    fn set(&mut self, table: &str, key: String, value: Value) -> (previous: Result<
        Option<Value>,
        KvError,
    >)
        ensures
            final(self).may_fail() == old(self).may_fail(),
            previous matches Ok(v) ==> found_view(v) == lookup(old(self).entries(), table@, key@)
                && final(self).entries() == with_entry(
                old(self).entries(),
                table@,
                key@,
                value@,
            ),
            !old(self).may_fail() ==> previous is Ok,
    ;

    /// Whether `table` holds `key`.
    fn contains(&mut self, table: &str, key: &str) -> (held: Result<bool, KvError>)
        ensures
            final(self).entries() == old(self).entries(),
            final(self).may_fail() == old(self).may_fail(),
            held matches Ok(b) ==> b == old(self).entries().contains_key((table@, key@)),
            !old(self).may_fail() ==> held is Ok,
    ;

    /// Takes `key` out of `table`, and returns what was there.
    fn del(&mut self, table: &str, key: &str) -> (removed: Result<Option<Value>, KvError>)
        ensures
            final(self).may_fail() == old(self).may_fail(),
            removed matches Ok(v) ==> found_view(v) == lookup(old(self).entries(), table@, key@)
                && final(self).entries() == without_entry(old(self).entries(), table@, key@),
            !old(self).may_fail() ==> removed is Ok,
    ;

    /// All the pairs of `table` as they are now, in no particular order.
    fn get_all(&mut self, table: &str) -> (pairs: Result<Vec<Kvpair>, KvError>)
        ensures
            final(self).entries() == old(self).entries(),
            final(self).may_fail() == old(self).may_fail(),
            pairs matches Ok(v) ==> is_snapshot(pairs_view(v@), old(self).entries(), table@),
            !old(self).may_fail() ==> pairs is Ok,
    ;

    /// A walk over the pairs of `table` as they are now, in no particular
    /// order.
    fn get_iter(&mut self, table: &str) -> (iter: Result<StorageIter, KvError>)
        ensures
            final(self).entries() == old(self).entries(),
            final(self).may_fail() == old(self).may_fail(),
            iter matches Ok(it) ==> is_snapshot(it.remaining(), old(self).entries(), table@),
            !old(self).may_fail() ==> iter is Ok,
    ;
}

} // verus!
