//! The in-memory backend: a concurrent map of tables, each a concurrent map
//! from key to value.

use vstd::prelude::*;
use dashmap::DashMap;
use crate::error::KvError;
use crate::storage::{
    empty_entries,
    found_view,
    lists_table,
    table_part,
    value_at,
    Entries,
    Storage,
    StorageIter,
    Table,
};
use crate::value::{pairs_view, Kvpair, Value};

verus! {

/// What the tables of a backend hold: under each table's name, the value
/// under each of its keys.
pub type Tables = Map<Seq<char>, Table>;

/// `dashmap::DashMap`, a concurrent hash map. Nothing inside it is visible
/// to a proof: what it holds is spoken of through [`table_entries`].
#[verifier::external_type_specification]
#[verifier::external_body]
#[verifier::reject_recursive_types(K)]
#[verifier::reject_recursive_types(V)]
#[verifier::reject_recursive_types(S)]
pub struct ExDashMap<K, V, S>(DashMap<K, V, S>);

/// What a map of tables holds: under the name of each table that exists,
/// the value under each of its keys.
pub uninterp spec fn table_entries(tables: DashMap<String, DashMap<String, Value>>) -> Tables;

/// `DashMap::default`: a map that holds no table.
#[verifier::external_body]
fn no_tables() -> (tables: DashMap<String, DashMap<String, Value>>)
    ensures
        table_entries(tables) == empty_tables(),
{
    DashMap::default()
}

/// `DashMap::clone`: a map of its own that holds a copy of every table,
/// key and value of `tables`.
#[verifier::external_body]
fn copy_tables(tables: &DashMap<String, DashMap<String, Value>>) -> (copy: DashMap<
    String,
    DashMap<String, Value>,
>)
    ensures
        table_entries(copy) == table_entries(*tables),
{
    tables.clone()
}

/// `DashMap::get` on the map of tables: whether it finds a table under
/// `name`. Nothing changes.
#[verifier::external_body]
fn table_exists(tables: &DashMap<String, DashMap<String, Value>>, name: &str) -> (found: bool)
    ensures
        found == table_entries(*tables).contains_key(name@),
{
    tables.get(name).is_some()
}

/// `DashMap::entry` and `Entry::or_default` on the map of tables: a table
/// that is there stays as it is; where none is, an empty one is put under
/// `name`. No other table changes.
#[verifier::external_body]
fn insert_table_if_absent(tables: &mut DashMap<String, DashMap<String, Value>>, name: &str)
    ensures
        table_entries(*final(tables)) == with_table(table_entries(*old(tables)), name@),
{
    tables.entry(name.into()).or_default();
}

/// `DashMap::get` on the map of tables, then `DashMap::get` on the table
/// that it finds under `table`: a copy of the value under `key`, if there is
/// one. Nothing changes.
#[verifier::external_body]
fn table_get(tables: &DashMap<String, DashMap<String, Value>>, table: &str, key: &str) -> (found:
    Option<Value>)
    requires
        table_entries(*tables).contains_key(table@),
    ensures
        found_view(found) == value_at(table_entries(*tables)[table@], key@),
{
    tables.get(table)?.get(key).map(|v| v.value().clone())
}

/// `DashMap::get` on the map of tables, then `DashMap::insert` on the table
/// that it finds under `table`: `value` stands under `key` afterwards, every
/// other key and table is as before, and what stood under `key` is returned.
#[verifier::external_body]
fn table_insert(
    tables: &mut DashMap<String, DashMap<String, Value>>,
    table: &str,
    key: String,
    value: Value,
) -> (previous: Option<Value>)
    requires
        table_entries(*old(tables)).contains_key(table@),
    ensures
        found_view(previous) == value_at(table_entries(*old(tables))[table@], key@),
        table_entries(*final(tables)) == table_entries(*old(tables)).insert(
            table@,
            table_entries(*old(tables))[table@].insert(key@, value@),
        ),
{
    tables.get(table)?.insert(key, value)
}

/// `DashMap::get` on the map of tables, then `DashMap::contains_key` on the
/// table that it finds under `table`: whether that table holds `key`.
/// Nothing changes.
#[verifier::external_body]
fn table_contains(tables: &DashMap<String, DashMap<String, Value>>, table: &str, key: &str) -> (held:
    bool)
    requires
        table_entries(*tables).contains_key(table@),
    ensures
        held == table_entries(*tables)[table@].contains_key(key@),
{
    tables.get(table).map_or(false, |t| t.contains_key(key))
}

/// `DashMap::get` on the map of tables, then `DashMap::remove` on the table
/// that it finds under `table`: `key` is gone afterwards, every other key
/// and table is as before, and what stood under `key` is returned.
#[verifier::external_body]
fn table_remove(tables: &mut DashMap<String, DashMap<String, Value>>, table: &str, key: &str) -> (removed:
    Option<Value>)
    requires
        table_entries(*old(tables)).contains_key(table@),
    ensures
        found_view(removed) == value_at(table_entries(*old(tables))[table@], key@),
        table_entries(*final(tables)) == table_entries(*old(tables)).insert(
            table@,
            table_entries(*old(tables))[table@].remove(key@),
        ),
{
    tables.get(table)?.remove(key).map(|(_k, v)| v)
}

/// `DashMap::get` on the map of tables, then `DashMap::iter` on the table
/// that it finds under `table`: a copy of each of its pairs, each key once.
/// The order is that in which the map is walked, of which nothing is
/// claimed. Nothing changes.
#[verifier::external_body]
fn table_pairs(tables: &DashMap<String, DashMap<String, Value>>, table: &str) -> (pairs: Vec<Kvpair>)
    requires
        table_entries(*tables).contains_key(table@),
    ensures
        lists_table(pairs_view(pairs@), table_entries(*tables)[table@]),
{
    match tables.get(table) {
        Some(t) => t.iter().map(|v| Kvpair::new(v.key(), v.value().clone())).collect(),
        None => Vec::new(),
    }
}

/// No table at all.
pub open spec fn empty_tables() -> Tables {
    Map::empty()
}

/// The tables with one under `name`: an empty one where none was.
pub open spec fn with_table(tables: Tables, name: Seq<char>) -> Tables {
    if tables.contains_key(name) {
        tables
    } else {
        tables.insert(name, Map::empty())
    }
}

/// The entries of all the tables, each under its table's name and its key.
pub open spec fn flatten(tables: Tables) -> Entries {
    Map::new(
        |at: (Seq<char>, Seq<char>)| tables.contains_key(at.0) && tables[at.0].contains_key(at.1),
        |at: (Seq<char>, Seq<char>)| tables[at.0][at.1],
    )
}

/// A table that exists and holds nothing adds no entry.
pub proof fn lemma_with_table_keeps_entries(tables: Tables, name: Seq<char>)
    ensures
        flatten(with_table(tables, name)) == flatten(tables),
{
    assert(flatten(with_table(tables, name)) =~= flatten(tables));
}

/// Creating a table is idempotent: a second creation under the same name
/// changes nothing, and a creation never touches another table.
pub proof fn lemma_table_creation_is_idempotent(tables: Tables, name: Seq<char>, other: Seq<char>)
    ensures
        with_table(with_table(tables, name), name) == with_table(tables, name),
        with_table(tables, name).contains_key(name),
        other != name ==> with_table(tables, name).contains_key(other) == tables.contains_key(
            other,
        ),
        tables.contains_key(other) ==> with_table(tables, name)[other] == tables[other],
{
}

/// The part of the entries under a table's name is what that table holds.
pub proof fn lemma_table_part_is_table(tables: Tables, name: Seq<char>)
    requires
        tables.contains_key(name),
    ensures
        table_part(flatten(tables), name) == tables[name],
{
    assert(table_part(flatten(tables), name) =~= tables[name]);
}

/// The backend that keeps everything in memory. It never fails: what is
/// missing is reported as no value or as an empty list.
#[derive(Debug)]
pub struct MemTable {
    tables: DashMap<String, DashMap<String, Value>>,
}

impl MemTable {
    /// The tables that exist, with what each holds. A table exists from the
    /// first time that any operation names it.
    pub closed spec fn tables(&self) -> Tables {
        table_entries(self.tables)
    }

    /// A backend without any table.
    pub fn new() -> (store: MemTable)
        ensures
            store.tables() == empty_tables(),
            store.entries() == empty_entries(),
            !store.may_fail(),
    {
        let store = MemTable { tables: no_tables() };
        assert(store.entries() =~= empty_entries());
        store
    }

    /// Makes sure that a table stands under `name`: one that is there is
    /// left alone, else an empty one is created.
    fn get_or_create_table(&mut self, name: &str)
        ensures
            final(self).tables() == with_table(old(self).tables(), name@),
            final(self).tables().contains_key(name@),
            final(self).entries() == old(self).entries(),
    {
        if !table_exists(&self.tables, name) {
            insert_table_if_absent(&mut self.tables, name);
        }
        proof {
            lemma_with_table_keeps_entries(old(self).tables(), name@);
        }
    }
}

impl Clone for MemTable {
    /// A backend of its own that holds what this one holds now. Later
    /// writes to either do not show in the other.
    fn clone(&self) -> (copy: MemTable)
        ensures
            copy.tables() == self.tables(),
            copy.entries() == self.entries(),
            !copy.may_fail(),
    {
        MemTable { tables: copy_tables(&self.tables) }
    }
}

impl Default for MemTable {
    fn default() -> (store: MemTable)
        ensures
            store.tables() == empty_tables(),
            store.entries() == empty_entries(),
    {
        MemTable::new()
    }
}

impl Storage for MemTable {
    open spec fn entries(&self) -> Entries {
        flatten(self.tables())
    }

    open spec fn may_fail(&self) -> bool {
        false
    }

    fn get(&mut self, table: &str, key: &str) -> (found: Result<Option<Value>, KvError>)
        ensures
            final(self).tables() == with_table(old(self).tables(), table@),
    {
        self.get_or_create_table(table);
        Ok(table_get(&self.tables, table, key))
    }

    fn set(&mut self, table: &str, key: String, value: Value) -> (previous: Result<
        Option<Value>,
        KvError,
    >)
        ensures
            final(self).tables() == with_table(old(self).tables(), table@).insert(
                table@,
                with_table(old(self).tables(), table@)[table@].insert(key@, value@),
            ),
    {
        self.get_or_create_table(table);
        let ghost before = self.tables();
        let previous = table_insert(&mut self.tables, table, key, value);
        assert(flatten(before.insert(table@, before[table@].insert(key@, value@))) =~= flatten(
            before,
        ).insert((table@, key@), value@));
        Ok(previous)
    }

    fn contains(&mut self, table: &str, key: &str) -> (held: Result<bool, KvError>)
        ensures
            final(self).tables() == with_table(old(self).tables(), table@),
    {
        self.get_or_create_table(table);
        Ok(table_contains(&self.tables, table, key))
    }

    fn del(&mut self, table: &str, key: &str) -> (removed: Result<Option<Value>, KvError>)
        ensures
            final(self).tables() == with_table(old(self).tables(), table@).insert(
                table@,
                with_table(old(self).tables(), table@)[table@].remove(key@),
            ),
    {
        self.get_or_create_table(table);
        let ghost before = self.tables();
        let removed = table_remove(&mut self.tables, table, key);
        assert(flatten(before.insert(table@, before[table@].remove(key@))) =~= flatten(
            before,
        ).remove((table@, key@)));
        Ok(removed)
    }

    fn get_all(&mut self, table: &str) -> (pairs: Result<Vec<Kvpair>, KvError>)
        ensures
            final(self).tables() == with_table(old(self).tables(), table@),
    {
        self.get_or_create_table(table);
        let pairs = table_pairs(&self.tables, table);
        proof {
            lemma_table_part_is_table(self.tables(), table@);
        }
        Ok(pairs)
    }

    fn get_iter(&mut self, table: &str) -> (iter: Result<StorageIter, KvError>)
        ensures
            final(self).tables() == with_table(old(self).tables(), table@),
    {
        self.get_or_create_table(table);
        let pairs = table_pairs(&self.tables, table);
        proof {
            lemma_table_part_is_table(self.tables(), table@);
        }
        Ok(StorageIter::new(pairs))
    }
}

} // verus!
