//! What the cache keeps: the catalog of the active connection, the query
//! history and the saved queries, and the in-memory state that decides
//! which writes still apply after a connection switch.

use vstd::prelude::*;
use crate::chart::ChartTab;
use crate::parser::{Column, ColumnView, ColumnsByTable, Database, Schema, Table};
use crate::text::{str_eq, str_to_string};

verus! {

/// The most entries the query history keeps.
pub const MAX_HISTORY: usize = 1000;

/// The shortest time between two writes of the catalog to disk after column
/// updates, in milliseconds.
pub const DISK_WRITE_INTERVAL_MS: u64 = 2000;

/// The catalog of one connection: databases, schemas, tables, the columns
/// of the tables seen so far (by `DB.SCHEMA.TABLE` key), and when it was
/// last updated (milliseconds since the epoch).
#[derive(Debug)]
pub struct CatalogCache {
    pub databases: Vec<Database>,
    pub schemas: Vec<Schema>,
    pub tables: Vec<Table>,
    pub columns_by_table: ColumnsByTable,
    pub updated_at: Option<i64>,
}

impl CatalogCache {
    /// An empty catalog.
    pub fn empty() -> (r: CatalogCache)
        ensures
            r.databases@.len() == 0,
            r.schemas@.len() == 0,
            r.tables@.len() == 0,
            r.columns_by_table@.len() == 0,
            r.updated_at is None,
    {
        CatalogCache {
            databases: Vec::new(),
            schemas: Vec::new(),
            tables: Vec::new(),
            columns_by_table: Vec::new(),
            updated_at: None,
        }
    }
}

/// A query that was run: its text, when (milliseconds since the epoch),
/// how many rows it returned and in how long, or its error.
#[derive(Debug, Clone)]
pub struct QueryHistoryEntry {
    pub sql: String,
    pub executed_at: i64,
    pub row_count: Option<usize>,
    pub elapsed_ms: Option<u64>,
    pub error: Option<String>,
}

/// A query saved under a title, with its chart tabs.
#[derive(Debug, Clone)]
pub struct SavedQuery {
    pub id: usize,
    pub title: String,
    pub sql: String,
    pub saved_at: i64,
    pub last_run_at: Option<i64>,
    pub charts: Vec<ChartTab>,
}

/// The key a connection's cache files are named by: its name, or
/// `_default` for the default connection.
pub open spec fn spec_conn_key(name: Option<Seq<char>>) -> Seq<char> {
    match name {
        Some(n) => n,
        None => "_default"@,
    }
}

/// Returns the connection key for a given connection name.
/// `None` maps to `"_default"`, otherwise uses the name as-is.
pub fn conn_key(name: &Option<String>) -> (r: String)
    ensures
        r@ == spec_conn_key(crate::parser::opt_view(*name)),
{
    match name {
        Some(n) => n.clone(),
        None => str_to_string("_default"),
    }
}

/// The history after recording a run: the new entry first, then the older
/// entries, keeping at most the newest thousand.
pub open spec fn history_after(history: Seq<QueryHistoryEntry>, entry: QueryHistoryEntry) -> Seq<QueryHistoryEntry> {
    let all = seq![entry] + history;
    if all.len() > MAX_HISTORY {
        all.take(MAX_HISTORY as int)
    } else {
        all
    }
}

/// Records a run at the front of the history, keeping the newest thousand.
pub fn push_history_entry(history: &mut Vec<QueryHistoryEntry>, entry: QueryHistoryEntry)
    ensures
        final(history)@ == history_after(old(history)@, entry),
{
    let ghost e = entry;
    history.insert(0, entry);
    history.truncate(MAX_HISTORY);
    assert(old(history)@.insert(0, e) =~= seq![e] + old(history)@);
}

/// The state the cache keeps in memory: the key of the active connection,
/// a generation number bumped on each connection switch, the catalog of
/// the active connection, and when the catalog was last written to disk.
pub struct CacheState {
    pub active_conn_key: String,
    pub generation: u64,
    pub catalog: CatalogCache,
    pub last_disk_write: Option<u64>,
}

/// The columns stored under `key`, if any.
pub open spec fn columns_for(groups: Seq<(String, Vec<Column>)>, key: Seq<char>) -> Option<Seq<ColumnView>> {
    if exists|i: int| 0 <= i < groups.len() && (#[trigger] groups[i]).0@ == key {
        let i = choose|i: int| 0 <= i < groups.len() && (#[trigger] groups[i]).0@ == key;
        Some(groups[i].1@.map_values(|c: Column| c@))
    } else {
        None
    }
}

/// The keys of the column groups are distinct.
pub open spec fn keys_distinct(groups: Seq<(String, Vec<Column>)>) -> bool {
    forall|i: int, j: int| 0 <= i < j < groups.len() ==> (#[trigger] groups[i]).0@ != (#[trigger] groups[j]).0@
}

/// The position of the group with key `key`.
fn find_key(groups: &ColumnsByTable, key: &str) -> (r: Option<usize>)
    ensures
        match r {
            Some(i) => i < groups@.len() && groups@[i as int].0@ == key@,
            None => forall|i: int| 0 <= i < groups@.len() ==> (#[trigger] groups@[i]).0@ != key@,
        },
{
    let mut i: usize = 0;
    while i < groups.len()
        invariant
            i <= groups@.len(),
            forall|j: int| 0 <= j < i ==> (#[trigger] groups@[j]).0@ != key@,
        decreases groups@.len() - i,
    {
        if str_eq(groups[i].0.as_str(), key) {
            return Some(i);
        }
        i += 1;
    }
    None
}

impl CacheState {
    /// The column groups have distinct keys.
    pub open spec fn wf(&self) -> bool {
        keys_distinct(self.catalog.columns_by_table@)
    }

    /// The state for a starting connection: its key, generation 0, an empty
    /// catalog, never written.
    pub fn new(initial_conn: &Option<String>) -> (r: CacheState)
        ensures
            r.wf(),
            r.active_conn_key@ == spec_conn_key(crate::parser::opt_view(*initial_conn)),
            r.generation == 0,
            r.catalog.databases@.len() == 0,
            r.catalog.schemas@.len() == 0,
            r.catalog.tables@.len() == 0,
            r.catalog.columns_by_table@.len() == 0,
            r.catalog.updated_at is None,
            r.last_disk_write is None,
    {
        CacheState {
            active_conn_key: conn_key(initial_conn),
            generation: 0,
            catalog: CatalogCache::empty(),
            last_disk_write: None,
        }
    }

    /// Returns the current connection generation counter.
    pub fn generation(&self) -> (r: u64)
        ensures
            r == self.generation,
    {
        self.generation
    }

    /// Returns the current active connection key.
    pub fn active_conn_key(&self) -> (r: String)
        ensures
            r@ == self.active_conn_key@,
    {
        self.active_conn_key.clone()
    }

    /// Switch to a new connection: the generation moves on by one (wrapping
    /// past the largest value), the key becomes that of the connection and
    /// the catalog is emptied. Returns the new generation.
    pub fn switch_connection(&mut self, name: &Option<String>) -> (r: u64)
        ensures
            final(self).wf(),
            r == final(self).generation,
            final(self).generation == (if old(self).generation < u64::MAX { old(self).generation + 1 } else { 0 }),
            final(self).active_conn_key@ == spec_conn_key(crate::parser::opt_view(*name)),
            final(self).catalog.databases@.len() == 0,
            final(self).catalog.schemas@.len() == 0,
            final(self).catalog.tables@.len() == 0,
            final(self).catalog.columns_by_table@.len() == 0,
            final(self).catalog.updated_at is None,
            final(self).last_disk_write == old(self).last_disk_write,
    {
        self.generation = self.generation.wrapping_add(1);
        self.active_conn_key = conn_key(name);
        self.catalog = CatalogCache::empty();
        self.generation
    }

    /// Installs a catalog read for the active connection.
    pub fn install_catalog(&mut self, catalog: CatalogCache)
        requires
            keys_distinct(catalog.columns_by_table@),
        ensures
            final(self).wf(),
            final(self).catalog == catalog,
            final(self).generation == old(self).generation,
            final(self).active_conn_key@ == old(self).active_conn_key@,
            final(self).last_disk_write == old(self).last_disk_write,
    {
        self.catalog = catalog;
    }

    /// Installs a catalog saved for connection `save_conn_key`, but only
    /// when that is still the active connection; a save for a connection
    /// that is no longer active leaves the state as it was. Returns whether
    /// it was installed.
    pub fn apply_saved_catalog(&mut self, catalog: CatalogCache, save_conn_key: &str) -> (r: bool)
        requires
            keys_distinct(catalog.columns_by_table@),
        ensures
            final(self).wf() == (old(self).wf() || r),
            r == (save_conn_key@ == old(self).active_conn_key@),
            r ==> final(self).catalog == catalog,
            !r ==> final(self).catalog == old(self).catalog,
            final(self).generation == old(self).generation,
            final(self).active_conn_key@ == old(self).active_conn_key@,
            final(self).last_disk_write == old(self).last_disk_write,
    {
        if str_eq(save_conn_key, self.active_conn_key.as_str()) {
            self.catalog = catalog;
            true
        } else {
            false
        }
    }

    /// Look up cached columns for a table. Key format: `DB.SCHEMA.TABLE`.
    pub fn get_columns(&self, key: &str) -> (r: Option<Vec<Column>>)
        requires
            self.wf(),
        ensures
            match r {
                Some(v) => columns_for(self.catalog.columns_by_table@, key@) == Some(v@.map_values(|c: Column| c@)),
                None => columns_for(self.catalog.columns_by_table@, key@) is None,
            },
    {
        match find_key(&self.catalog.columns_by_table, key) {
            Some(i) => {
                let ghost groups = self.catalog.columns_by_table@;
                let v = crate::parser::clone_columns(&self.catalog.columns_by_table[i].1);
                proof {
                    let j = choose|j: int| 0 <= j < groups.len() && (#[trigger] groups[j]).0@ == key@;
                    assert(j == i as int);
                }
                Some(v)
            },
            None => None,
        }
    }

    /// Stores the columns of a table under `key` (replacing what was there)
    /// and stamps the catalog with `now`. Returns whether the catalog is due
    /// to be written to disk: never written, or last written at least two
    /// seconds before `now`.
    pub fn update_columns(&mut self, key: &str, columns: Vec<Column>, now_ms: i64, now_mono_ms: u64) -> (r: bool)
        requires
            old(self).wf(),
        ensures
            final(self).wf(),
            columns_for(final(self).catalog.columns_by_table@, key@) == Some(columns@.map_values(|c: Column| c@)),
            forall|k: Seq<char>| k != key@ ==> columns_for(final(self).catalog.columns_by_table@, k) == columns_for(old(self).catalog.columns_by_table@, k),
            final(self).catalog.updated_at == Some(now_ms),
            final(self).catalog.databases@ == old(self).catalog.databases@,
            final(self).catalog.schemas@ == old(self).catalog.schemas@,
            final(self).catalog.tables@ == old(self).catalog.tables@,
            final(self).generation == old(self).generation,
            final(self).active_conn_key@ == old(self).active_conn_key@,
            final(self).last_disk_write == old(self).last_disk_write,
            r == match old(self).last_disk_write {
                None => true,
                Some(t) => now_mono_ms >= t && now_mono_ms - t >= DISK_WRITE_INTERVAL_MS,
            },
    {
        let ghost old_groups = self.catalog.columns_by_table@;
        let ghost cv = columns@.map_values(|c: Column| c@);
        match find_key(&self.catalog.columns_by_table, key) {
            Some(i) => {
                let (k, _) = self.catalog.columns_by_table.remove(i);
                self.catalog.columns_by_table.insert(i, (k, columns));
                proof {
                    let g = self.catalog.columns_by_table@;
                    assert(g =~= old_groups.update(i as int, (old_groups[i as int].0, g[i as int].1)));
                    assert(keys_distinct(g));
                    assert(columns_for(g, key@) == Some(cv)) by {
                        assert(g[i as int].0@ == key@);
                        let j = choose|j: int| 0 <= j < g.len() && (#[trigger] g[j]).0@ == key@;
                        assert(j == i as int);
                    }
                    assert forall|kk: Seq<char>| kk != key@ implies columns_for(g, kk) == columns_for(old_groups, kk) by {
                        if exists|j: int| 0 <= j < g.len() && (#[trigger] g[j]).0@ == kk {
                            let j = choose|j: int| 0 <= j < g.len() && (#[trigger] g[j]).0@ == kk;
                            assert(old_groups[j].0@ == kk);
                            let j2 = choose|j: int| 0 <= j < old_groups.len() && (#[trigger] old_groups[j]).0@ == kk;
                            assert(j2 == j);
                        } else {
                            assert forall|j: int| 0 <= j < old_groups.len() implies (#[trigger] old_groups[j]).0@ != kk by {
                                assert(g[j].0@ == old_groups[j].0@);
                            }
                        }
                    }
                }
            },
            None => {
                let k = str_to_string(key);
                self.catalog.columns_by_table.push((k, columns));
                proof {
                    let g = self.catalog.columns_by_table@;
                    assert(g =~= old_groups.push(g[old_groups.len() as int]));
                    assert(keys_distinct(g));
                    assert(columns_for(g, key@) == Some(cv)) by {
                        assert(g[old_groups.len() as int].0@ == key@);
                        let j = choose|j: int| 0 <= j < g.len() && (#[trigger] g[j]).0@ == key@;
                        assert(j == old_groups.len());
                    }
                    assert forall|kk: Seq<char>| kk != key@ implies columns_for(g, kk) == columns_for(old_groups, kk) by {
                        if exists|j: int| 0 <= j < g.len() && (#[trigger] g[j]).0@ == kk {
                            let j = choose|j: int| 0 <= j < g.len() && (#[trigger] g[j]).0@ == kk;
                            assert(j < old_groups.len());
                            assert(old_groups[j].0@ == kk);
                            let j2 = choose|j: int| 0 <= j < old_groups.len() && (#[trigger] old_groups[j]).0@ == kk;
                            assert(g[j2] == old_groups[j2]);
                        } else {
                            assert forall|j: int| 0 <= j < old_groups.len() implies (#[trigger] old_groups[j]).0@ != kk by {
                                assert(g[j] == old_groups[j]);
                            }
                        }
                    }
                }
            },
        }
        self.catalog.updated_at = Some(now_ms);
        match self.last_disk_write {
            None => true,
            Some(t) => now_mono_ms >= t && now_mono_ms - t >= DISK_WRITE_INTERVAL_MS,
        }
    }

    /// Records that the catalog was written to disk at `now`.
    pub fn mark_disk_written(&mut self, now_mono_ms: u64)
        ensures
            final(self).last_disk_write == Some(now_mono_ms),
            final(self).catalog == old(self).catalog,
            final(self).generation == old(self).generation,
            final(self).active_conn_key@ == old(self).active_conn_key@,
    {
        self.last_disk_write = Some(now_mono_ms);
    }
}

/// A connection switch moves the generation on, so that work started under
/// the old generation can tell it is stale: the new generation differs from
/// the old one, and is larger unless the counter wrapped.
pub proof fn lemma_switch_generation_fresh(old_gen: u64, new_gen: u64)
    requires
        new_gen == (if old_gen < u64::MAX { old_gen + 1 } else { 0 }),
    ensures
        new_gen != old_gen,
        old_gen < u64::MAX ==> new_gen > old_gen,
{
}

/// The largest id among saved queries, or 0 when there are none.
pub open spec fn max_id(queries: Seq<SavedQuery>) -> int
    decreases queries.len(),
{
    if queries.len() == 0 {
        0
    } else {
        let rest = max_id(queries.drop_last());
        if queries.last().id > rest {
            queries.last().id as int
        } else {
            rest
        }
    }
}

proof fn lemma_max_id_bounds(queries: Seq<SavedQuery>)
    ensures
        forall|i: int| 0 <= i < queries.len() ==> (#[trigger] queries[i]).id <= max_id(queries),
        max_id(queries) >= 0,
        max_id(queries) <= usize::MAX,
    decreases queries.len(),
{
    if queries.len() > 0 {
        lemma_max_id_bounds(queries.drop_last());
        assert forall|i: int| 0 <= i < queries.len() implies (#[trigger] queries[i]).id <= max_id(queries) by {
            if i < queries.len() - 1 {
                assert(queries.drop_last()[i] == queries[i]);
            }
        }
    }
}

/// The ids of the saved queries are distinct.
pub open spec fn ids_distinct(queries: Seq<SavedQuery>) -> bool {
    forall|i: int, j: int| 0 <= i < j < queries.len() ==> (#[trigger] queries[i]).id != (#[trigger] queries[j]).id
}

/// The largest id among saved queries, or 0.
pub fn max_saved_id(queries: &Vec<SavedQuery>) -> (r: usize)
    ensures
        r == max_id(queries@),
{
    let mut m: usize = 0;
    let mut i: usize = 0;
    while i < queries.len()
        invariant
            i <= queries@.len(),
            m == max_id(queries@.take(i as int)),
        decreases queries@.len() - i,
    {
        assert(queries@.take(i + 1).drop_last() =~= queries@.take(i as int));
        if queries[i].id > m {
            m = queries[i].id;
        }
        i += 1;
    }
    assert(queries@.take(queries@.len() as int) =~= queries@);
    m
}

/// The outcome of saving the editor's query.
pub enum SaveOutcome {
    /// The loaded saved query at this position was overwritten.
    Overwritten(usize),
    /// A new saved query with this id was added at the end.
    Added(usize),
    /// The loaded id names no saved query; nothing changed.
    Missing,
}

/// What saving the editor's query `sql` with `charts_len` chart tabs at
/// `now_ms` does to the saved queries `pre`, giving `post` and the outcome.
pub open spec fn save_post(
    pre: Seq<SavedQuery>,
    post: Seq<SavedQuery>,
    loaded_id: Option<usize>,
    sql: Seq<char>,
    charts_len: nat,
    now_ms: i64,
    r: SaveOutcome,
) -> bool {
    match r {
        SaveOutcome::Overwritten(i) => loaded_id == Some(pre[i as int].id)
            && (forall|j: int| 0 <= j < i ==> (#[trigger] pre[j]).id != loaded_id.unwrap())
            && post.len() == pre.len()
            && post[i as int].id == pre[i as int].id
            && post[i as int].title == pre[i as int].title
            && post[i as int].sql@ == sql
            && post[i as int].saved_at == now_ms
            && post[i as int].last_run_at == pre[i as int].last_run_at
            && post[i as int].charts@.len() == charts_len
            && (forall|j: int| 0 <= j < pre.len() && j != i ==> #[trigger] post[j] == pre[j]),
        SaveOutcome::Added(id) => loaded_id is None
            && id == max_id(pre) + 1
            && post.len() == pre.len() + 1
            && post.take(pre.len() as int) == pre
            && post.last().id == id
            && post.last().title@ == "Query "@ + crate::text::decimal(post.len())
            && post.last().sql@ == sql
            && post.last().saved_at == now_ms
            && post.last().last_run_at is None
            && post.last().charts@.len() == charts_len,
        SaveOutcome::Missing => loaded_id is Some
            && (forall|j: int| 0 <= j < pre.len() ==> (#[trigger] pre[j]).id != loaded_id.unwrap())
            && post == pre,
    }
}

/// Saves the editor's query: when a saved query is loaded its text, time
/// and charts are overwritten; otherwise a new query is added at the end,
/// with the next id after the largest one and the title `Query {n}` where
/// `n` is the new number of saved queries.
pub fn save_query(
    queries: &mut Vec<SavedQuery>,
    loaded_id: Option<usize>,
    sql: String,
    charts: Vec<ChartTab>,
    now_ms: i64,
) -> (r: SaveOutcome)
    requires
        loaded_id is None ==> max_id(old(queries)@) < usize::MAX && old(queries)@.len() < usize::MAX,
    ensures
        save_post(old(queries)@, final(queries)@, loaded_id, sql@, charts@.len(), now_ms, r),
{
    match loaded_id {
        Some(id) => {
            let mut i: usize = 0;
            while i < queries.len()
                invariant
                    i <= queries@.len(),
                    queries@ == old(queries)@,
                    loaded_id == Some(id),
                    forall|j: int| 0 <= j < i ==> (#[trigger] queries@[j]).id != id,
                decreases queries@.len() - i,
            {
                if queries[i].id == id {
                    let ghost g0 = queries@;
                    let ghost clen = charts@.len();
                    let mut q = queries.remove(i);
                    q.sql = sql;
                    q.saved_at = now_ms;
                    q.charts = charts;
                    let ghost qv = q;
                    queries.insert(i, q);
                    assert(queries@ =~= g0.update(i as int, qv));
                    assert(qv.charts@.len() == clen);
                    assert forall|j: int| 0 <= j < old(queries)@.len() && j != i implies #[trigger] queries@[j] == old(queries)@[j] by {}
                    return SaveOutcome::Overwritten(i);
                }
                i += 1;
            }
            SaveOutcome::Missing
        },
        None => {
            let next_id = max_saved_id(queries) + 1;
            let count = queries.len() + 1;
            let num = crate::text::usize_to_string(count);
            let title = crate::text::concat("Query ", num.as_str());
            let q = SavedQuery { id: next_id, title, sql, saved_at: now_ms, last_run_at: None, charts };
            queries.push(q);
            assert(queries@.take(old(queries)@.len() as int) =~= old(queries)@);
            SaveOutcome::Added(next_id)
        },
    }
}

/// Records that the saved query with this id was run at `now_ms`: the first
/// saved query with the id gets that time as its last run; nothing else
/// changes. Returns whether such a query was found.
pub fn mark_run(queries: &mut Vec<SavedQuery>, id: usize, now_ms: i64) -> (found: bool)
    ensures
        found <==> exists|j: int| 0 <= j < old(queries)@.len() && (#[trigger] old(queries)@[j]).id == id,
        final(queries)@.len() == old(queries)@.len(),
        forall|j: int|
            0 <= j < old(queries)@.len() ==> {
                let q = #[trigger] final(queries)@[j];
                let p = old(queries)@[j];
                if p.id == id && forall|k: int| 0 <= k < j ==> (#[trigger] old(queries)@[k]).id != id {
                    q.id == p.id && q.title == p.title && q.sql == p.sql && q.saved_at == p.saved_at
                        && q.charts == p.charts && q.last_run_at == Some(now_ms)
                } else {
                    q == p
                }
            },
{
    let mut i: usize = 0;
    while i < queries.len()
        invariant
            i <= queries@.len(),
            queries@ == old(queries)@,
            forall|j: int| 0 <= j < i ==> (#[trigger] queries@[j]).id != id,
        decreases queries@.len() - i,
    {
        if queries[i].id == id {
            let ghost g0 = queries@;
            let mut q = queries.remove(i);
            q.last_run_at = Some(now_ms);
            let ghost qv = q;
            queries.insert(i, q);
            assert(queries@ =~= g0.update(i as int, qv));
            assert forall|j: int| 0 <= j < old(queries)@.len() implies {
                let q = #[trigger] queries@[j];
                let p = old(queries)@[j];
                if p.id == id && forall|k: int| 0 <= k < j ==> (#[trigger] old(queries)@[k]).id != id {
                    q.id == p.id && q.title == p.title && q.sql == p.sql && q.saved_at == p.saved_at
                        && q.charts == p.charts && q.last_run_at == Some(now_ms)
                } else {
                    q == p
                }
            } by {
                if j > i {
                    assert(old(queries)@[i as int].id == id);
                }
            }
            return true;
        }
        i += 1;
    }
    false
}

/// Saving the editor's query keeps the ids of the saved queries distinct.
pub proof fn lemma_save_keeps_ids_distinct(before: Seq<SavedQuery>, after: Seq<SavedQuery>, added: bool)
    requires
        ids_distinct(before),
        added ==> after.len() == before.len() + 1 && after.take(before.len() as int) == before
            && after.last().id == max_id(before) + 1,
        !added ==> after.len() == before.len() && forall|j: int| 0 <= j < before.len() ==> (#[trigger] after[j]).id == before[j].id,
    ensures
        ids_distinct(after),
{
    lemma_max_id_bounds(before);
    if added {
        assert forall|i: int, j: int| 0 <= i < j < after.len() implies (#[trigger] after[i]).id != (#[trigger] after[j]).id by {
            assert(after[i] == after.take(before.len() as int)[i]);
            if j < before.len() {
                assert(after[j] == after.take(before.len() as int)[j]);
            }
        }
    } else {
        assert forall|i: int, j: int| 0 <= i < j < after.len() implies (#[trigger] after[i]).id != (#[trigger] after[j]).id by {
            assert(after[i].id == before[i].id);
            assert(after[j].id == before[j].id);
        }
    }
}

} // verus!
