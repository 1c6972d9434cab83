//! The catalog handed to the editor's completion: the database names, the
//! schema names of each database, the tables (name and kind) of each
//! `DB.SCHEMA`, and the columns of each table seen so far.

use vstd::prelude::*;
use crate::parser::{clone_columns, Column, ColumnView, ColumnsByTable, Database, Schema, Table};
use crate::store::CatalogCache;
use crate::text::{concat, str_eq};

verus! {

/// Groups of items under text keys, keys taken by their text.
pub open spec fn raw_groups<T>(g: Seq<(String, Vec<T>)>) -> Seq<(Seq<char>, Seq<T>)> {
    g.map_values(|e: (String, Vec<T>)| (e.0@, e.1@))
}

/// No key occurs twice.
pub open spec fn keys_unique<T>(g: Seq<(Seq<char>, Seq<T>)>) -> bool {
    forall|i: int, j: int| 0 <= i < j < g.len() ==> (#[trigger] g[i]).0 != (#[trigger] g[j]).0
}

/// The groups with `item` added: at the end of the group of `key` when
/// there is one, else in a new group for `key` at the end.
pub open spec fn group_into<T>(g: Seq<(Seq<char>, Seq<T>)>, key: Seq<char>, item: T) -> Seq<(Seq<char>, Seq<T>)> {
    if exists|i: int| 0 <= i < g.len() && (#[trigger] g[i]).0 == key {
        let i = choose|i: int| 0 <= i < g.len() && (#[trigger] g[i]).0 == key;
        g.update(i, (key, g[i].1.push(item)))
    } else {
        g.push((key, seq![item]))
    }
}

/// The schema names grouped by database, databases in the order they first
/// occur and names in order.
pub open spec fn schema_groups(s: Seq<Schema>) -> Seq<(Seq<char>, Seq<String>)>
    decreases s.len(),
{
    if s.len() == 0 {
        Seq::empty()
    } else {
        group_into(schema_groups(s.drop_last()), s.last().database@, s.last().name)
    }
}

/// The key of a table's schema: `DB.SCHEMA`.
pub open spec fn schema_key(t: Table) -> Seq<char> {
    t.database@ + "."@ + t.schema@
}

/// The tables (name and kind) grouped by `DB.SCHEMA`, keys in the order they
/// first occur and tables in order.
pub open spec fn table_groups(t: Seq<Table>) -> Seq<(Seq<char>, Seq<(String, String)>)>
    decreases t.len(),
{
    if t.len() == 0 {
        Seq::empty()
    } else {
        group_into(table_groups(t.drop_last()), schema_key(t.last()), (t.last().name, t.last().kind))
    }
}

/// Column groups by their keys and column views.
pub open spec fn column_groups_view(g: Seq<(String, Vec<Column>)>) -> Seq<(Seq<char>, Seq<ColumnView>)> {
    g.map_values(|e: (String, Vec<Column>)| (e.0@, e.1@.map_values(|c: Column| c@)))
}

/// The catalog as the completion reads it.
pub struct CompletionCatalog {
    pub databases: Vec<String>,
    /// For each database with schemas: its schema names.
    pub schemas: Vec<(String, Vec<String>)>,
    /// For each `DB.SCHEMA` with tables: the name and kind of its tables.
    pub tables: Vec<(String, Vec<(String, String)>)>,
    /// For each `DB.SCHEMA.TABLE` seen: its columns.
    pub columns: ColumnsByTable,
}

fn add_to_group<T>(groups: &mut Vec<(String, Vec<T>)>, key: String, item: T)
    requires
        keys_unique(raw_groups(old(groups)@)),
    ensures
        raw_groups(final(groups)@) == group_into(raw_groups(old(groups)@), key@, item),
        keys_unique(raw_groups(final(groups)@)),
{
    let ghost g0 = raw_groups(groups@);
    let mut i: usize = 0;
    while i < groups.len()
        invariant
            i <= groups@.len(),
            groups@ == old(groups)@,
            g0 == raw_groups(groups@),
            keys_unique(g0),
            forall|j: int| 0 <= j < i ==> (#[trigger] groups@[j]).0@ != key@,
        decreases groups@.len() - i,
    {
        if str_eq(groups[i].0.as_str(), key.as_str()) {
            assert(g0[i as int].0 == key@);
            let (k, mut v) = groups.remove(i);
            v.push(item);
            groups.insert(i, (k, v));
            proof {
                let c = choose|c: int| 0 <= c < g0.len() && (#[trigger] g0[c]).0 == key@;
                assert(c == i) by {
                    if c != i {
                        if c < i {
                            assert(groups@[c].0@ != key@);
                        } else {
                            assert(g0[i as int].0 != g0[c].0);
                        }
                    }
                }
                assert(raw_groups(groups@) =~= g0.update(i as int, (key@, g0[i as int].1.push(item))));
            }
            return;
        }
        i += 1;
    }
    let ghost kv = key@;
    let mut v: Vec<T> = Vec::new();
    v.push(item);
    groups.push((key, v));
    proof {
        assert forall|j: int| 0 <= j < g0.len() implies (#[trigger] g0[j]).0 != kv by {
            assert(groups@[j].0@ != kv);
        }
        assert(raw_groups(groups@) =~= g0.push((kv, seq![item])));
    }
}

/// The catalog for the editor's completion, or none when it holds no
/// database: the database names in order, the schema names grouped by
/// database, the tables (name and kind) grouped by `DB.SCHEMA`, and the
/// columns of each table as the cache holds them.
pub fn completion_catalog(c: &CatalogCache) -> (r: Option<CompletionCatalog>)
    ensures
        r is None <==> c.databases@.len() == 0,
        r matches Some(o) ==> o.databases@.map_values(|s: String| s@) == c.databases@.map_values(|d: Database| d.name@)
            && raw_groups(o.schemas@) == schema_groups(c.schemas@)
            && raw_groups(o.tables@) == table_groups(c.tables@)
            && column_groups_view(o.columns@) == column_groups_view(c.columns_by_table@),
{
    if c.databases.len() == 0 {
        return None;
    }
    let mut databases: Vec<String> = Vec::new();
    let mut i: usize = 0;
    while i < c.databases.len()
        invariant
            i <= c.databases@.len(),
            databases@.len() == i,
            forall|j: int| 0 <= j < i ==> (#[trigger] databases@[j])@ == c.databases@[j].name@,
        decreases c.databases@.len() - i,
    {
        databases.push(c.databases[i].name.clone());
        i += 1;
    }
    assert(databases@.map_values(|s: String| s@) =~= c.databases@.map_values(|d: Database| d.name@));

    let mut schemas: Vec<(String, Vec<String>)> = Vec::new();
    let mut i: usize = 0;
    assert(raw_groups(schemas@) =~= schema_groups(c.schemas@.take(0)));
    while i < c.schemas.len()
        invariant
            i <= c.schemas@.len(),
            raw_groups(schemas@) == schema_groups(c.schemas@.take(i as int)),
            keys_unique(raw_groups(schemas@)),
        decreases c.schemas@.len() - i,
    {
        assert(c.schemas@.take(i + 1).drop_last() =~= c.schemas@.take(i as int));
        let s = &c.schemas[i];
        add_to_group(&mut schemas, s.database.clone(), s.name.clone());
        i += 1;
    }
    assert(c.schemas@.take(c.schemas@.len() as int) =~= c.schemas@);

    let mut tables: Vec<(String, Vec<(String, String)>)> = Vec::new();
    let mut i: usize = 0;
    assert(raw_groups(tables@) =~= table_groups(c.tables@.take(0)));
    while i < c.tables.len()
        invariant
            i <= c.tables@.len(),
            raw_groups(tables@) == table_groups(c.tables@.take(i as int)),
            keys_unique(raw_groups(tables@)),
        decreases c.tables@.len() - i,
    {
        assert(c.tables@.take(i + 1).drop_last() =~= c.tables@.take(i as int));
        let t = &c.tables[i];
        let a = concat(t.database.as_str(), ".");
        let key = concat(a.as_str(), t.schema.as_str());
        add_to_group(&mut tables, key, (t.name.clone(), t.kind.clone()));
        i += 1;
    }
    assert(c.tables@.take(c.tables@.len() as int) =~= c.tables@);

    let mut columns: ColumnsByTable = Vec::new();
    let mut i: usize = 0;
    while i < c.columns_by_table.len()
        invariant
            i <= c.columns_by_table@.len(),
            column_groups_view(columns@) == column_groups_view(c.columns_by_table@.take(i as int)),
        decreases c.columns_by_table@.len() - i,
    {
        let e = &c.columns_by_table[i];
        let ghost prev = columns@;
        columns.push((e.0.clone(), clone_columns(&e.1)));
        assert(c.columns_by_table@.take(i + 1) =~= c.columns_by_table@.take(i as int).push(c.columns_by_table@[i as int]));
        assert(column_groups_view(columns@) =~= column_groups_view(prev).push(column_groups_view(c.columns_by_table@.take(i + 1)).last()));
        assert(column_groups_view(columns@) =~= column_groups_view(c.columns_by_table@.take(i + 1)));
        i += 1;
    }
    assert(c.columns_by_table@.take(c.columns_by_table@.len() as int) =~= c.columns_by_table@);
    Some(CompletionCatalog { databases, schemas, tables, columns })
}

} // verus!
