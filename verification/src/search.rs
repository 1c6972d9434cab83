//! The explorer's search: an index of databases, schemas and tables, the
//! entries whose names contain the typed text, and the tree those entries
//! are shown as.

use vstd::prelude::*;
use crate::action::Action;
use crate::config::{insert_sorted, names_sorted, sorted_distinct, strings_view};
use crate::keys::{KeyCode, KeyEvent};
use crate::parser::{Database, Schema, SchemaView, Table, TableView};
use crate::text::{concat, occurs_at, seq_contains, spec_to_lowercase, spec_to_uppercase, str_chars, str_contains, str_eq, to_lowercase, to_uppercase};

verus! {

/// The rows of the result list visible at once.
pub const SEARCH_ROWS: usize = 20;

/// An item in the search index.
#[derive(Debug)]
pub struct SearchEntry {
    /// Display text like `DB / SCHEMA / TABLE`.
    pub display: String,
    /// Where the entry leads: database, schema (empty for a database) and
    /// table (none for a database or schema).
    pub db: String,
    pub schema: String,
    pub table: Option<String>,
    pub is_view: bool,
    /// The names lowercased, for searching.
    pub db_lower: String,
    pub schema_lower: String,
    pub table_lower: Option<String>,
}

/// The mathematical content of a [`SearchEntry`].
pub struct SearchEntryView {
    pub display: Seq<char>,
    pub db: Seq<char>,
    pub schema: Seq<char>,
    pub table: Option<Seq<char>>,
    pub is_view: bool,
    pub db_lower: Seq<char>,
    pub schema_lower: Seq<char>,
    pub table_lower: Option<Seq<char>>,
}

impl View for SearchEntry {
    type V = SearchEntryView;

    open spec fn view(&self) -> SearchEntryView {
        SearchEntryView {
            display: self.display@,
            db: self.db@,
            schema: self.schema@,
            table: crate::parser::opt_view(self.table),
            is_view: self.is_view,
            db_lower: self.db_lower@,
            schema_lower: self.schema_lower@,
            table_lower: crate::parser::opt_view(self.table_lower),
        }
    }
}

/// The entry of a database.
pub open spec fn db_entry(name: Seq<char>) -> SearchEntryView {
    SearchEntryView {
        display: name,
        db: name,
        schema: Seq::empty(),
        table: None,
        is_view: false,
        db_lower: spec_to_lowercase(name),
        schema_lower: Seq::empty(),
        table_lower: None,
    }
}

/// The entry of a schema.
pub open spec fn schema_entry(s: SchemaView) -> SearchEntryView {
    SearchEntryView {
        display: s.database + " / "@ + s.name,
        db: s.database,
        schema: s.name,
        table: None,
        is_view: false,
        db_lower: spec_to_lowercase(s.database),
        schema_lower: spec_to_lowercase(s.name),
        table_lower: None,
    }
}

/// A table is shown as a view when its kind, uppercased, is `VIEW`.
pub open spec fn table_is_view(t: TableView) -> bool {
    spec_to_uppercase(t.kind) == "VIEW"@
}

/// The marker after the name of a view.
pub open spec fn view_suffix(is_view: bool) -> Seq<char> {
    if is_view {
        " (V)"@
    } else {
        Seq::empty()
    }
}

/// The entry of a table.
pub open spec fn table_entry(t: TableView) -> SearchEntryView {
    SearchEntryView {
        display: t.database + " / "@ + t.schema + " / "@ + t.name + view_suffix(table_is_view(t)),
        db: t.database,
        schema: t.schema,
        table: Some(t.name),
        is_view: table_is_view(t),
        db_lower: spec_to_lowercase(t.database),
        schema_lower: spec_to_lowercase(t.schema),
        table_lower: Some(spec_to_lowercase(t.name)),
    }
}

/// The index of a catalog: the databases, then the schemas, then the
/// tables, each in the order given.
pub open spec fn index_entries(dbs: Seq<Seq<char>>, schemas: Seq<SchemaView>, tables: Seq<TableView>) -> Seq<SearchEntryView> {
    dbs.map_values(|d: Seq<char>| db_entry(d)) + schemas.map_values(|s: SchemaView| schema_entry(s))
        + tables.map_values(|t: TableView| table_entry(t))
}

/// An entry matches a query when the query is empty, or when its
/// lowercased database name, non-empty schema name or table name contains
/// the lowercased query.
pub open spec fn entry_matches(query: Seq<char>, e: SearchEntryView) -> bool {
    let q = spec_to_lowercase(query);
    query.len() == 0 || seq_contains(e.db_lower, q) || (e.schema_lower.len() > 0 && seq_contains(
        e.schema_lower,
        q,
    )) || (e.table_lower matches Some(t) && seq_contains(t, q))
}

/// The positions of the entries that match a query, in order.
pub open spec fn matching_entries(entries: Seq<SearchEntryView>, query: Seq<char>) -> Seq<usize>
    decreases entries.len(),
{
    if entries.len() == 0 {
        Seq::empty()
    } else {
        let rest = matching_entries(entries.drop_last(), query);
        if entry_matches(query, entries.last()) {
            rest.push((entries.len() - 1) as usize)
        } else {
            rest
        }
    }
}

/// Which results a part of the tree is made of.
#[derive(Clone, Copy, PartialEq, Eq, Structural)]
pub enum Sel {
    /// Tables and schemas of a database.
    DbChildren,
    /// Entries of a database itself.
    DbOnly,
    /// Tables of a schema.
    SchemaTables,
    /// Entries of a schema itself.
    SchemaOnly,
}

/// Whether an entry is one of those a selection picks.
pub open spec fn selects(sel: Sel, db: Seq<char>, schema: Seq<char>, e: SearchEntryView) -> bool {
    match sel {
        Sel::DbChildren => e.db == db && (e.table is Some || e.schema.len() > 0),
        Sel::DbOnly => e.db == db && e.table is None && e.schema.len() == 0,
        Sel::SchemaTables => e.db == db && e.schema == schema && e.table is Some,
        Sel::SchemaOnly => e.db == db && e.schema == schema && e.table is None && e.schema.len() > 0,
    }
}

/// The positions of the results a selection picks, in order.
pub open spec fn positions_of(xs: Seq<SearchEntryView>, sel: Sel, db: Seq<char>, schema: Seq<char>) -> Seq<usize>
    decreases xs.len(),
{
    if xs.len() == 0 {
        Seq::empty()
    } else {
        let rest = positions_of(xs.drop_last(), sel, db, schema);
        if selects(sel, db, schema, xs.last()) {
            rest.push((xs.len() - 1) as usize)
        } else {
            rest
        }
    }
}

/// The first of some positions.
pub open spec fn first_of(ps: Seq<usize>) -> Option<usize> {
    if ps.len() > 0 {
        Some(ps[0])
    } else {
        None
    }
}

/// A line of the result tree: indentation, text, whether it is a parent
/// header, and the result it stands for.
pub type LineView = (usize, Seq<char>, bool, Option<usize>);

/// The text of a table line: its name, with the view marker.
pub open spec fn table_text(e: SearchEntryView) -> Seq<char> {
    match e.table {
        Some(t) => t + view_suffix(e.is_view),
        None => view_suffix(e.is_view),
    }
}

/// The lines of a schema: a header with its tables beneath when it has
/// tables among the results, a leaf otherwise; the schema line stands for
/// the first result that is the schema itself.
pub open spec fn schema_block(xs: Seq<SearchEntryView>, db: Seq<char>, sc: Seq<char>) -> Seq<LineView> {
    let tables = positions_of(xs, Sel::SchemaTables, db, sc);
    let own = first_of(positions_of(xs, Sel::SchemaOnly, db, sc));
    if tables.len() > 0 {
        seq![(1usize, sc, true, own)] + tables.map_values(|p: usize| (2usize, table_text(xs[p as int]), false, Some(p)))
    } else {
        seq![(1usize, sc, false, own)]
    }
}

/// The lines of the schemas of a database, in the order given.
pub open spec fn schema_blocks(xs: Seq<SearchEntryView>, db: Seq<char>, schemas: Seq<Seq<char>>) -> Seq<LineView>
    decreases schemas.len(),
{
    if schemas.len() == 0 {
        Seq::empty()
    } else {
        schema_blocks(xs, db, schemas.drop_last()) + schema_block(xs, db, schemas.last())
    }
}

/// The lines of a database: when it has schemas or tables among the
/// results, a header (standing for the first result that is the database
/// itself) followed by its schemas in name order; otherwise one leaf per
/// result that is the database.
pub open spec fn db_block(xs: Seq<SearchEntryView>, db: Seq<char>) -> Seq<LineView> {
    let children = positions_of(xs, Sel::DbChildren, db, Seq::empty());
    let own = positions_of(xs, Sel::DbOnly, db, Seq::empty());
    if children.len() > 0 {
        seq![(0usize, db, true, first_of(own))] + schema_blocks(
            xs,
            db,
            sorted_distinct(children.map_values(|p: usize| xs[p as int].schema)),
        )
    } else {
        own.map_values(|p: usize| (0usize, db, false, Some(p)))
    }
}

/// The lines of the databases, in the order given.
pub open spec fn db_blocks(xs: Seq<SearchEntryView>, dbs: Seq<Seq<char>>) -> Seq<LineView>
    decreases dbs.len(),
{
    if dbs.len() == 0 {
        Seq::empty()
    } else {
        db_blocks(xs, dbs.drop_last()) + db_block(xs, dbs.last())
    }
}

/// The result tree: the databases of the results in name order, each with
/// its lines.
pub open spec fn tree_lines(xs: Seq<SearchEntryView>) -> Seq<LineView> {
    db_blocks(xs, sorted_distinct(xs.map_values(|e: SearchEntryView| e.db)))
}

/// Every line that stands for a result stands for one of the `n` results.
pub open spec fn lines_in_range(ls: Seq<LineView>, n: int) -> bool {
    forall|i: int| 0 <= i < ls.len() ==> ((#[trigger] ls[i]).3 matches Some(p) ==> p < n)
}

proof fn lemma_positions_in_range(xs: Seq<SearchEntryView>, sel: Sel, db: Seq<char>, sc: Seq<char>)
    requires
        xs.len() <= usize::MAX,
    ensures
        forall|k: int| 0 <= k < positions_of(xs, sel, db, sc).len() ==> #[trigger] positions_of(xs, sel, db, sc)[k] < xs.len(),
    decreases xs.len(),
{
    if xs.len() > 0 {
        lemma_positions_in_range(xs.drop_last(), sel, db, sc);
        let rest = positions_of(xs.drop_last(), sel, db, sc);
        let all = positions_of(xs, sel, db, sc);
        assert forall|k: int| 0 <= k < all.len() implies #[trigger] all[k] < xs.len() by {
            if k < rest.len() {
                assert(all[k] == rest[k]);
            }
        }
    }
}

proof fn lemma_schema_blocks_in_range(xs: Seq<SearchEntryView>, db: Seq<char>, schemas: Seq<Seq<char>>)
    requires
        xs.len() <= usize::MAX,
    ensures
        lines_in_range(schema_blocks(xs, db, schemas), xs.len() as int),
    decreases schemas.len(),
{
    if schemas.len() > 0 {
        lemma_schema_blocks_in_range(xs, db, schemas.drop_last());
        let sc = schemas.last();
        lemma_positions_in_range(xs, Sel::SchemaTables, db, sc);
        lemma_positions_in_range(xs, Sel::SchemaOnly, db, sc);
        let a = schema_blocks(xs, db, schemas.drop_last());
        let b = schema_block(xs, db, sc);
        assert(lines_in_range(b, xs.len() as int)) by {
            let tables = positions_of(xs, Sel::SchemaTables, db, sc);
            assert forall|i: int| 0 <= i < b.len() implies ((#[trigger] b[i]).3 matches Some(p) ==> p < xs.len()) by {
                if tables.len() > 0 && i > 0 {
                    assert(b[i] == (2usize, table_text(xs[tables[i - 1] as int]), false, Some(tables[i - 1])));
                }
            }
        }
        assert forall|i: int| 0 <= i < (a + b).len() implies ((#[trigger] (a + b)[i]).3 matches Some(p) ==> p < xs.len()) by {
            if i < a.len() {
                assert((a + b)[i] == a[i]);
            } else {
                assert((a + b)[i] == b[i - a.len()]);
            }
        }
    }
}

proof fn lemma_db_blocks_in_range(xs: Seq<SearchEntryView>, dbs: Seq<Seq<char>>)
    requires
        xs.len() <= usize::MAX,
    ensures
        lines_in_range(db_blocks(xs, dbs), xs.len() as int),
    decreases dbs.len(),
{
    if dbs.len() > 0 {
        lemma_db_blocks_in_range(xs, dbs.drop_last());
        let db = dbs.last();
        let children = positions_of(xs, Sel::DbChildren, db, Seq::empty());
        let own = positions_of(xs, Sel::DbOnly, db, Seq::empty());
        lemma_positions_in_range(xs, Sel::DbOnly, db, Seq::empty());
        let schemas = sorted_distinct(children.map_values(|p: usize| xs[p as int].schema));
        lemma_schema_blocks_in_range(xs, db, schemas);
        let a = db_blocks(xs, dbs.drop_last());
        let b = db_block(xs, db);
        assert(lines_in_range(b, xs.len() as int)) by {
            if children.len() > 0 {
                let c = schema_blocks(xs, db, schemas);
                assert forall|i: int| 0 <= i < b.len() implies ((#[trigger] b[i]).3 matches Some(p) ==> p < xs.len()) by {
                    if i > 0 {
                        assert(b[i] == c[i - 1]);
                    }
                }
            } else {
                assert forall|i: int| 0 <= i < b.len() implies ((#[trigger] b[i]).3 matches Some(p) ==> p < xs.len()) by {
                    assert(b[i] == (0usize, db, false, Some(own[i])));
                }
            }
        }
        assert forall|i: int| 0 <= i < (a + b).len() implies ((#[trigger] (a + b)[i]).3 matches Some(p) ==> p < xs.len()) by {
            if i < a.len() {
                assert((a + b)[i] == a[i]);
            } else {
                assert((a + b)[i] == b[i - a.len()]);
            }
        }
    }
}

/// Every line of the result tree that stands for a result stands for one
/// of the results.
pub proof fn lemma_tree_lines_in_range(xs: Seq<SearchEntryView>)
    requires
        xs.len() <= usize::MAX,
    ensures
        lines_in_range(tree_lines(xs), xs.len() as int),
{
    lemma_db_blocks_in_range(xs, sorted_distinct(xs.map_values(|e: SearchEntryView| e.db)));
}

/// A line of the result tree.
#[derive(Debug)]
pub struct TreeLine {
    pub indent: usize,
    pub text: String,
    pub is_header: bool,
}

/// The views of lines with the results they stand for.
pub open spec fn lines_view(lines: Seq<TreeLine>, map: Seq<Option<usize>>) -> Seq<LineView> {
    Seq::new(lines.len(), |i: int| (lines[i].indent, lines[i].text@, lines[i].is_header, map[i]))
}

/// The search of the explorer.
pub struct FuzzySearch {
    pub active: bool,
    pub input: String,
    pub entries: Vec<SearchEntry>,
    /// Positions in `entries` of the matching entries.
    pub results: Vec<usize>,
    pub selected: usize,
    pub scroll_offset: usize,
}

/// The views of the entries.
pub open spec fn entries_view(e: Seq<SearchEntry>) -> Seq<SearchEntryView> {
    e.map_values(|x: SearchEntry| x@)
}

/// The positions `0..n`.
pub open spec fn all_positions(n: nat) -> Seq<usize> {
    Seq::new(n, |i: int| i as usize)
}

fn positions_upto(n: usize) -> (r: Vec<usize>)
    ensures
        r@ == all_positions(n as nat),
{
    let mut v: Vec<usize> = Vec::new();
    let mut i: usize = 0;
    while i < n
        invariant
            i <= n,
            v@ == all_positions(i as nat),
        decreases n - i,
    {
        v.push(i);
        assert(v@ =~= all_positions((i + 1) as nat));
        i += 1;
    }
    v
}

impl FuzzySearch {
    /// The entries of the results, in order.
    pub open spec fn result_entries(&self) -> Seq<SearchEntryView> {
        self.results@.map_values(|i: usize| self.entries@[i as int]@)
    }

    /// Every result is the position of an entry.
    pub open spec fn wf(&self) -> bool {
        forall|i: int| 0 <= i < self.results@.len() ==> #[trigger] self.results@[i] < self.entries@.len()
    }

    pub fn new() -> (r: Self)
        ensures
            r.wf(),
            !r.active,
            r.input@ == Seq::<char>::empty(),
            r.entries@.len() == 0,
            r.results@.len() == 0,
            r.selected == 0,
            r.scroll_offset == 0,
    {
        FuzzySearch {
            active: false,
            input: String::new(),
            entries: Vec::new(),
            results: Vec::new(),
            selected: 0,
            scroll_offset: 0,
        }
    }

    /// Opens the search with an empty input, showing every entry.
    pub fn activate(&mut self)
        ensures
            final(self).wf(),
            final(self).active,
            final(self).input@ == Seq::<char>::empty(),
            final(self).selected == 0,
            final(self).scroll_offset == 0,
            final(self).results@ == all_positions(old(self).entries@.len()),
            final(self).entries@ == old(self).entries@,
    {
        self.active = true;
        self.input = String::new();
        self.selected = 0;
        self.scroll_offset = 0;
        self.results = positions_upto(self.entries.len());
    }

    /// Closes the search, clearing the input and the results.
    pub fn deactivate(&mut self)
        ensures
            final(self).wf(),
            !final(self).active,
            final(self).input@ == Seq::<char>::empty(),
            final(self).results@.len() == 0,
            final(self).selected == 0,
            final(self).scroll_offset == 0,
            final(self).entries@ == old(self).entries@,
    {
        self.active = false;
        self.input = String::new();
        self.results = Vec::new();
        self.selected = 0;
        self.scroll_offset = 0;
    }

    /// Rebuilds the index from the catalog: the databases, then the
    /// schemas, then the tables; every entry is a result.
    pub fn rebuild_entries(&mut self, databases: &Vec<Database>, schemas: &Vec<Schema>, tables: &Vec<Table>)
        ensures
            final(self).wf(),
            entries_view(final(self).entries@) == index_entries(
                databases@.map_values(|d: Database| d@),
                schemas@.map_values(|s: Schema| s@),
                tables@.map_values(|t: Table| t@),
            ),
            final(self).results@ == all_positions(final(self).entries@.len()),
            final(self).active == old(self).active,
            final(self).input@ == old(self).input@,
            final(self).selected == old(self).selected,
            final(self).scroll_offset == old(self).scroll_offset,
    {
        let ghost dv = databases@.map_values(|d: Database| d@);
        let ghost sv = schemas@.map_values(|s: Schema| s@);
        let ghost tv = tables@.map_values(|t: Table| t@);
        let mut entries: Vec<SearchEntry> = Vec::new();
        let mut i: usize = 0;
        while i < databases.len()
            invariant
                i <= databases@.len(),
                dv == databases@.map_values(|d: Database| d@),
                entries_view(entries@) == dv.take(i as int).map_values(|d: Seq<char>| db_entry(d)),
            decreases databases@.len() - i,
        {
            let name = &databases[i].name;
            let ghost prev = entries@;
            entries.push(
                SearchEntry {
                    display: name.clone(),
                    db_lower: to_lowercase(name.as_str()),
                    db: name.clone(),
                    schema: String::new(),
                    schema_lower: String::new(),
                    table: None,
                    table_lower: None,
                    is_view: false,
                },
            );
            assert(dv.take(i + 1) =~= dv.take(i as int).push(dv[i as int]));
            assert(entries_view(entries@) =~= entries_view(prev).push(db_entry(dv[i as int])));
            i += 1;
        }
        assert(dv.take(databases@.len() as int) =~= dv);
        let ghost after_dbs = entries_view(entries@);
        let mut j: usize = 0;
        while j < schemas.len()
            invariant
                j <= schemas@.len(),
                sv == schemas@.map_values(|s: Schema| s@),
                entries_view(entries@) == after_dbs + sv.take(j as int).map_values(|s: SchemaView| schema_entry(s)),
            decreases schemas@.len() - j,
        {
            let s = &schemas[j];
            let a = concat(s.database.as_str(), " / ");
            let display = concat(a.as_str(), s.name.as_str());
            let ghost prev = entries@;
            entries.push(
                SearchEntry {
                    display,
                    db_lower: to_lowercase(s.database.as_str()),
                    db: s.database.clone(),
                    schema_lower: to_lowercase(s.name.as_str()),
                    schema: s.name.clone(),
                    table: None,
                    table_lower: None,
                    is_view: false,
                },
            );
            assert(sv.take(j + 1) =~= sv.take(j as int).push(sv[j as int]));
            assert(entries_view(entries@) =~= entries_view(prev).push(schema_entry(sv[j as int])));
            j += 1;
        }
        assert(sv.take(schemas@.len() as int) =~= sv);
        let ghost after_schemas = entries_view(entries@);
        let mut k: usize = 0;
        while k < tables.len()
            invariant
                k <= tables@.len(),
                tv == tables@.map_values(|t: Table| t@),
                entries_view(entries@) == after_schemas + tv.take(k as int).map_values(|t: TableView| table_entry(t)),
            decreases tables@.len() - k,
        {
            let t = &tables[k];
            let upper = to_uppercase(t.kind.as_str());
            let is_view = str_eq(upper.as_str(), "VIEW");
            let suffix = if is_view {
                " (V)"
            } else {
                ""
            };
            proof {
                reveal_strlit("");
                assert(""@ =~= Seq::<char>::empty());
            }
            let a = concat(t.database.as_str(), " / ");
            let b = concat(a.as_str(), t.schema.as_str());
            let c = concat(b.as_str(), " / ");
            let d = concat(c.as_str(), t.name.as_str());
            let display = concat(d.as_str(), suffix);
            let ghost prev = entries@;
            entries.push(
                SearchEntry {
                    display,
                    db_lower: to_lowercase(t.database.as_str()),
                    db: t.database.clone(),
                    schema_lower: to_lowercase(t.schema.as_str()),
                    schema: t.schema.clone(),
                    table_lower: Some(to_lowercase(t.name.as_str())),
                    table: Some(t.name.clone()),
                    is_view,
                },
            );
            assert(tv.take(k + 1) =~= tv.take(k as int).push(tv[k as int]));
            assert(entries_view(entries@) =~= entries_view(prev).push(table_entry(tv[k as int])));
            k += 1;
        }
        assert(tv.take(tables@.len() as int) =~= tv);
        self.entries = entries;
        self.results = positions_upto(self.entries.len());
    }

    /// Substring match: the query is empty, or it appears (ignoring case)
    /// in the entry's database name, schema name or table name.
    pub fn substring_match(query: &str, entry: &SearchEntry) -> (r: bool)
        ensures
            r == entry_matches(query@, entry@),
    {
        if str_chars(query).len() == 0 {
            return true;
        }
        let query_lower = to_lowercase(query);
        if str_contains(entry.db_lower.as_str(), query_lower.as_str()) {
            return true;
        }
        if str_chars(entry.schema_lower.as_str()).len() > 0 && str_contains(
            entry.schema_lower.as_str(),
            query_lower.as_str(),
        ) {
            return true;
        }
        match &entry.table_lower {
            Some(t) => str_contains(t.as_str(), query_lower.as_str()),
            None => false,
        }
    }

    /// The results become the entries that match the input, from the
    /// first.
    pub fn update_results(&mut self)
        ensures
            final(self).wf(),
            final(self).results@ == matching_entries(entries_view(old(self).entries@), old(self).input@),
            final(self).selected == 0,
            final(self).scroll_offset == 0,
            final(self).entries@ == old(self).entries@,
            final(self).input@ == old(self).input@,
            final(self).active == old(self).active,
    {
        let ghost ev = entries_view(self.entries@);
        let mut out: Vec<usize> = Vec::new();
        let mut i: usize = 0;
        while i < self.entries.len()
            invariant
                i <= self.entries@.len(),
                ev == entries_view(self.entries@),
                out@ == matching_entries(ev.take(i as int), self.input@),
                forall|j: int| 0 <= j < out@.len() ==> #[trigger] out@[j] < i,
            decreases self.entries@.len() - i,
        {
            assert(ev.take(i + 1).drop_last() =~= ev.take(i as int));
            assert(ev.take(i + 1).last() == self.entries@[i as int]@);
            if Self::substring_match(self.input.as_str(), &self.entries[i]) {
                out.push(i);
            }
            i += 1;
        }
        assert(ev.take(self.entries@.len() as int) =~= ev);
        self.results = out;
        self.selected = 0;
        self.scroll_offset = 0;
    }

    /// Scrolls so that the selected result is among the twenty shown.
    pub fn adjust_scroll(&mut self)
        ensures
            final(self).selected == old(self).selected,
            final(self).results@ == old(self).results@,
            final(self).entries@ == old(self).entries@,
            final(self).input@ == old(self).input@,
            final(self).active == old(self).active,
            final(self).scroll_offset <= final(self).selected < final(self).scroll_offset + SEARCH_ROWS,
            old(self).scroll_offset <= old(self).selected < old(self).scroll_offset + SEARCH_ROWS
                ==> final(self).scroll_offset == old(self).scroll_offset,
    {
        if self.selected < self.scroll_offset {
            self.scroll_offset = self.selected;
        } else if self.selected - self.scroll_offset >= SEARCH_ROWS {
            self.scroll_offset = self.selected - (SEARCH_ROWS - 1);
        }
    }

    /// The selected entry, if the selection is on a result.
    pub fn selected_entry(&self) -> (r: Option<&SearchEntry>)
        requires
            self.wf(),
        ensures
            match r {
                Some(e) => self.selected < self.results@.len() && *e == self.entries@[self.results@[self.selected as int] as int],
                None => self.selected >= self.results@.len(),
            },
    {
        if self.selected < self.results.len() {
            let idx = self.results[self.selected];
            Some(&self.entries[idx])
        } else {
            None
        }
    }

    /// A key while the search is open: Esc closes it, Enter leaves the
    /// choice to the caller, Down and Up move the selection, a character
    /// extends the input and Backspace shortens it (both recompute the
    /// results). Closed, it takes no key.
    pub fn handle_key(&mut self, key: KeyEvent) -> (r: Option<Action>)
        requires
            old(self).wf(),
        ensures
            final(self).wf(),
            final(self).entries@ == old(self).entries@,
            !old(self).active ==> r is None && *final(self) == *old(self),
            old(self).active ==> ({
                let code = key.code;
                let n = old(self).results@.len();
                if code == KeyCode::Esc {
                    r matches Some(Action::Render) && !final(self).active && final(self).results@.len() == 0
                } else if code == KeyCode::Enter {
                    r matches Some(Action::Render) && *final(self) == *old(self)
                } else if code == KeyCode::Down {
                    r matches Some(Action::Render) && final(self).results@ == old(self).results@
                        && final(self).selected == (if n > 0 && old(self).selected + 1 < n { old(self).selected + 1 }
                        else if n > 0 { (n - 1) as int } else { old(self).selected as int })
                } else if code == KeyCode::Up {
                    r matches Some(Action::Render) && final(self).results@ == old(self).results@
                        && final(self).selected == (if old(self).selected > 0 { old(self).selected - 1 } else { 0 })
                } else if let KeyCode::Char(c) = code {
                    r matches Some(Action::Render) && final(self).input@ == old(self).input@.push(c)
                        && final(self).results@ == matching_entries(entries_view(old(self).entries@), final(self).input@)
                        && final(self).selected == 0
                } else if code == KeyCode::Backspace {
                    r matches Some(Action::Render) && final(self).input@ == (if old(self).input@.len() > 0 {
                        old(self).input@.drop_last()
                    } else {
                        old(self).input@
                    }) && final(self).results@ == matching_entries(entries_view(old(self).entries@), final(self).input@)
                        && final(self).selected == 0
                } else {
                    r is None && *final(self) == *old(self)
                }
            }),
    {
        if !self.active {
            return None;
        }
        match key.code {
            KeyCode::Esc => {
                self.deactivate();
                Some(Action::Render)
            },
            KeyCode::Enter => Some(Action::Render),
            KeyCode::Down => {
                if self.results.len() > 0 {
                    if self.selected < self.results.len() - 1 {
                        self.selected += 1;
                    } else {
                        self.selected = self.results.len() - 1;
                    }
                }
                self.adjust_scroll();
                Some(Action::Render)
            },
            KeyCode::Up => {
                if self.selected > 0 {
                    self.selected -= 1;
                }
                self.adjust_scroll();
                Some(Action::Render)
            },
            KeyCode::Char(c) => {
                crate::text::string_push(&mut self.input, c);
                self.update_results();
                Some(Action::Render)
            },
            KeyCode::Backspace => {
                let mut chars = str_chars(self.input.as_str());
                if chars.len() > 0 {
                    chars.pop();
                }
                self.input = crate::text::chars_to_string(chars.as_slice());
                self.update_results();
                Some(Action::Render)
            },
            _ => None,
        }
    }
}


/// Appends a line and the result it stands for.
fn push_line(
    lines: &mut Vec<TreeLine>,
    map: &mut Vec<Option<usize>>,
    indent: usize,
    text: String,
    is_header: bool,
    res: Option<usize>,
)
    requires
        old(lines)@.len() == old(map)@.len(),
    ensures
        final(lines)@.len() == final(map)@.len(),
        lines_view(final(lines)@, final(map)@) == lines_view(old(lines)@, old(map)@).push((indent, text@, is_header, res)),
{
    let ghost t = text@;
    lines.push(TreeLine { indent, text, is_header });
    map.push(res);
    assert(lines_view(lines@, map@) =~= lines_view(old(lines)@, old(map)@).push((indent, t, is_header, res)));
}

impl FuzzySearch {
    /// Whether an entry is one of those a selection picks.
    fn selects_entry(sel: Sel, db: &str, schema: &str, e: &SearchEntry) -> (r: bool)
        ensures
            r == selects(sel, db@, schema@, e@),
    {
        let is_table = e.table.is_some();
        let schema_len = str_chars(e.schema.as_str()).len();
        match sel {
            Sel::DbChildren => str_eq(e.db.as_str(), db) && (is_table || schema_len > 0),
            Sel::DbOnly => str_eq(e.db.as_str(), db) && !is_table && schema_len == 0,
            Sel::SchemaTables => str_eq(e.db.as_str(), db) && str_eq(e.schema.as_str(), schema) && is_table,
            Sel::SchemaOnly => str_eq(e.db.as_str(), db) && str_eq(e.schema.as_str(), schema) && !is_table && schema_len > 0,
        }
    }

    /// The positions of the results a selection picks.
    fn positions(&self, sel: Sel, db: &str, schema: &str) -> (r: Vec<usize>)
        requires
            self.wf(),
        ensures
            r@ == positions_of(self.result_entries(), sel, db@, schema@),
            forall|i: int| 0 <= i < r@.len() ==> #[trigger] r@[i] < self.results@.len(),
    {
        let ghost xs = self.result_entries();
        let mut out: Vec<usize> = Vec::new();
        let mut i: usize = 0;
        while i < self.results.len()
            invariant
                i <= self.results@.len(),
                self.wf(),
                xs == self.result_entries(),
                out@ == positions_of(xs.take(i as int), sel, db@, schema@),
                forall|j: int| 0 <= j < out@.len() ==> #[trigger] out@[j] < i,
            decreases self.results@.len() - i,
        {
            assert(xs.take(i + 1).drop_last() =~= xs.take(i as int));
            assert(xs.take(i + 1).last() == self.entries@[self.results@[i as int] as int]@);
            let idx = self.results[i];
            if Self::selects_entry(sel, db, schema, &self.entries[idx]) {
                out.push(i);
            }
            i += 1;
        }
        assert(xs.take(self.results@.len() as int) =~= xs);
        out
    }

    /// The line text of the table of result `p`.
    fn table_line_text(&self, p: usize) -> (r: String)
        requires
            self.wf(),
            p < self.results@.len(),
        ensures
            r@ == table_text(self.result_entries()[p as int]),
    {
        let e = &self.entries[self.results[p]];
        proof {
            reveal_strlit("");
            assert(""@ =~= Seq::<char>::empty());
        }
        let suffix = if e.is_view {
            " (V)"
        } else {
            ""
        };
        match &e.table {
            Some(t) => concat(t.as_str(), suffix),
            None => crate::text::str_to_string(suffix),
        }
    }

    /// Appends the lines of a schema.
    fn push_schema_block(&self, db: &str, sc: &str, lines: &mut Vec<TreeLine>, map: &mut Vec<Option<usize>>)
        requires
            self.wf(),
            old(lines)@.len() == old(map)@.len(),
        ensures
            final(lines)@.len() == final(map)@.len(),
            lines_view(final(lines)@, final(map)@) == lines_view(old(lines)@, old(map)@) + schema_block(self.result_entries(), db@, sc@),
    {
        let ghost xs = self.result_entries();
        let ghost start = lines_view(lines@, map@);
        let tables = self.positions(Sel::SchemaTables, db, sc);
        let own_ps = self.positions(Sel::SchemaOnly, db, sc);
        let own = if own_ps.len() > 0 {
            Some(own_ps[0])
        } else {
            None
        };
        if tables.len() > 0 {
            push_line(lines, map, 1, crate::text::str_to_string(sc), true, own);
            let mut k: usize = 0;
            while k < tables.len()
                invariant
                    k <= tables@.len(),
                    self.wf(),
                    xs == self.result_entries(),
                    tables@ == positions_of(xs, Sel::SchemaTables, db@, sc@),
                    forall|i: int| 0 <= i < tables@.len() ==> #[trigger] tables@[i] < self.results@.len(),
                    lines@.len() == map@.len(),
                    lines_view(lines@, map@) == start + seq![(1usize, sc@, true, own)] + tables@.take(k as int).map_values(
                        |p: usize| (2usize, table_text(xs[p as int]), false, Some(p)),
                    ),
                decreases tables@.len() - k,
            {
                let p = tables[k];
                let text = self.table_line_text(p);
                push_line(lines, map, 2, text, false, Some(p));
                assert(tables@.take(k + 1) =~= tables@.take(k as int).push(p));
                assert(tables@.take(k + 1).map_values(|p: usize| (2usize, table_text(xs[p as int]), false, Some(p)))
                    =~= tables@.take(k as int).map_values(|p: usize| (2usize, table_text(xs[p as int]), false, Some(p))).push(
                    (2usize, table_text(xs[p as int]), false, Some(p))));
                k += 1;
            }
            assert(tables@.take(tables@.len() as int) =~= tables@);
            assert(lines_view(lines@, map@) =~= start + schema_block(xs, db@, sc@));
        } else {
            push_line(lines, map, 1, crate::text::str_to_string(sc), false, own);
            assert(lines_view(lines@, map@) =~= start + schema_block(xs, db@, sc@));
        }
    }

    /// Appends the lines of a database.
    fn push_db_block(&self, db: &str, lines: &mut Vec<TreeLine>, map: &mut Vec<Option<usize>>)
        requires
            self.wf(),
            old(lines)@.len() == old(map)@.len(),
        ensures
            final(lines)@.len() == final(map)@.len(),
            lines_view(final(lines)@, final(map)@) == lines_view(old(lines)@, old(map)@) + db_block(self.result_entries(), db@),
    {
        let ghost xs = self.result_entries();
        let ghost start = lines_view(lines@, map@);
        proof {
            reveal_strlit("");
        }
        let children = self.positions(Sel::DbChildren, db, "");
        let own = self.positions(Sel::DbOnly, db, "");
        assert(""@ =~= Seq::<char>::empty());
        if children.len() > 0 {
            let first = if own.len() > 0 {
                Some(own[0])
            } else {
                None
            };
            push_line(lines, map, 0, crate::text::str_to_string(db), true, first);
            let ghost names = children@.map_values(|p: usize| xs[p as int].schema);
            let mut schemas: Vec<String> = Vec::new();
            let mut i: usize = 0;
            while i < children.len()
                invariant
                    i <= children@.len(),
                    self.wf(),
                    xs == self.result_entries(),
                    names == children@.map_values(|p: usize| xs[p as int].schema),
                    forall|j: int| 0 <= j < children@.len() ==> #[trigger] children@[j] < self.results@.len(),
                    names_sorted(strings_view(schemas@)),
                    strings_view(schemas@) == sorted_distinct(names.take(i as int)),
                decreases children@.len() - i,
            {
                let p = children[i];
                let e = &self.entries[self.results[p]];
                assert(names[i as int] == e.schema@);
                assert(names.take(i + 1).drop_last() =~= names.take(i as int));
                insert_sorted(&mut schemas, e.schema.as_str());
                i += 1;
            }
            assert(names.take(children@.len() as int) =~= names);
            let ghost sv = strings_view(schemas@);
            let ghost mid = lines_view(lines@, map@);
            let mut m: usize = 0;
            while m < schemas.len()
                invariant
                    m <= schemas@.len(),
                    self.wf(),
                    xs == self.result_entries(),
                    sv == strings_view(schemas@),
                    lines@.len() == map@.len(),
                    lines_view(lines@, map@) == mid + schema_blocks(xs, db@, sv.take(m as int)),
                decreases schemas@.len() - m,
            {
                assert(sv.take(m + 1).drop_last() =~= sv.take(m as int));
                assert(sv.take(m + 1).last() == schemas@[m as int]@);
                self.push_schema_block(db, schemas[m].as_str(), lines, map);
                assert(lines_view(lines@, map@) =~= mid + schema_blocks(xs, db@, sv.take(m + 1)));
                m += 1;
            }
            assert(sv.take(schemas@.len() as int) =~= sv);
            assert(lines_view(lines@, map@) =~= start + db_block(xs, db@));
        } else {
            let mut k: usize = 0;
            while k < own.len()
                invariant
                    k <= own@.len(),
                    lines@.len() == map@.len(),
                    lines_view(lines@, map@) == start + own@.take(k as int).map_values(|p: usize| (0usize, db@, false, Some(p))),
                decreases own@.len() - k,
            {
                let p = own[k];
                push_line(lines, map, 0, crate::text::str_to_string(db), false, Some(p));
                assert(own@.take(k + 1) =~= own@.take(k as int).push(p));
                assert(own@.take(k + 1).map_values(|p: usize| (0usize, db@, false, Some(p))) =~= own@.take(
                    k as int,
                ).map_values(|p: usize| (0usize, db@, false, Some(p))).push((0usize, db@, false, Some(p))));
                k += 1;
            }
            assert(own@.take(own@.len() as int) =~= own@);
            assert(lines_view(lines@, map@) =~= start + db_block(xs, db@));
        }
    }

    /// Builds the result tree: the lines, and for each line the result it
    /// stands for (none for a parent header that is not itself a result).
    pub fn build_tree_lines(&self) -> (r: (Vec<TreeLine>, Vec<Option<usize>>))
        requires
            self.wf(),
        ensures
            r.0@.len() == r.1@.len(),
            lines_view(r.0@, r.1@) == tree_lines(self.result_entries()),
            forall|i: int| 0 <= i < r.1@.len() ==> ((#[trigger] r.1@[i]) matches Some(p) ==> p < self.results@.len()),
    {
        let ghost xs = self.result_entries();
        let ghost dbnames = xs.map_values(|e: SearchEntryView| e.db);
        let mut dbs: Vec<String> = Vec::new();
        let mut i: usize = 0;
        while i < self.results.len()
            invariant
                i <= self.results@.len(),
                self.wf(),
                xs == self.result_entries(),
                dbnames == xs.map_values(|e: SearchEntryView| e.db),
                names_sorted(strings_view(dbs@)),
                strings_view(dbs@) == sorted_distinct(dbnames.take(i as int)),
            decreases self.results@.len() - i,
        {
            let e = &self.entries[self.results[i]];
            assert(dbnames[i as int] == e.db@);
            assert(dbnames.take(i + 1).drop_last() =~= dbnames.take(i as int));
            insert_sorted(&mut dbs, e.db.as_str());
            i += 1;
        }
        assert(dbnames.take(self.results@.len() as int) =~= dbnames);
        let ghost dv = strings_view(dbs@);
        let mut lines: Vec<TreeLine> = Vec::new();
        let mut map: Vec<Option<usize>> = Vec::new();
        assert(lines_view(lines@, map@) =~= db_blocks(xs, dv.take(0)));
        let mut k: usize = 0;
        while k < dbs.len()
            invariant
                k <= dbs@.len(),
                self.wf(),
                xs == self.result_entries(),
                dv == strings_view(dbs@),
                lines@.len() == map@.len(),
                lines_view(lines@, map@) == db_blocks(xs, dv.take(k as int)),
            decreases dbs@.len() - k,
        {
            assert(dv.take(k + 1).drop_last() =~= dv.take(k as int));
            assert(dv.take(k + 1).last() == dbs@[k as int]@);
            self.push_db_block(dbs[k].as_str(), &mut lines, &mut map);
            k += 1;
        }
        assert(dv.take(dbs@.len() as int) =~= dv);
        proof {
            lemma_tree_lines_in_range(xs);
            assert forall|i: int| 0 <= i < map@.len() implies ((#[trigger] map@[i]) matches Some(p) ==> p < self.results@.len()) by {
                assert(lines_view(lines@, map@)[i].3 == map@[i]);
            }
        }
        (lines, map)
    }
}

/// Matching ignores case: two non-empty queries with the same lowercase
/// form match exactly the same entries.
pub proof fn lemma_match_ignores_query_case(q1: Seq<char>, q2: Seq<char>, e: SearchEntryView)
    requires
        q1.len() > 0,
        q2.len() > 0,
        spec_to_lowercase(q1) == spec_to_lowercase(q2),
    ensures
        entry_matches(q1, e) == entry_matches(q2, e),
{
}

/// A database whose name equals the query up to case is among the matches.
pub proof fn lemma_database_named_like_query_matches(query: Seq<char>, name: Seq<char>)
    requires
        spec_to_lowercase(name) == spec_to_lowercase(query),
    ensures
        entry_matches(query, db_entry(name)),
{
    let q = spec_to_lowercase(query);
    assert(q.subrange(0, q.len() as int) =~= q);
    assert(occurs_at(q, q, 0));
}

/// A schema whose name equals the query up to case is among the matches.
pub proof fn lemma_schema_named_like_query_matches(query: Seq<char>, s: SchemaView)
    requires
        spec_to_lowercase(s.name) == spec_to_lowercase(query),
    ensures
        entry_matches(query, schema_entry(s)),
{
    let q = spec_to_lowercase(query);
    assert(q.subrange(0, q.len() as int) =~= q);
    assert(occurs_at(q, q, 0));
    if q.len() == 0 {
        let d = spec_to_lowercase(s.database);
        assert(d.subrange(0, 0) =~= q);
        assert(occurs_at(d, q, 0));
    }
}

/// A table whose name equals the query up to case (the two have the same
/// lowercase form) is always among the matches, whatever the case of either.
pub proof fn lemma_table_named_like_query_matches(query: Seq<char>, t: TableView)
    requires
        spec_to_lowercase(t.name) == spec_to_lowercase(query),
    ensures
        entry_matches(query, table_entry(t)),
{
    let q = spec_to_lowercase(query);
    assert(q.subrange(0, q.len() as int) =~= q);
    assert(occurs_at(q, q, 0));
}

/// The results of a search are the positions of exactly the entries that
/// match the query, in increasing order (so each at most once).
pub proof fn lemma_results_are_the_matches(entries: Seq<SearchEntryView>, query: Seq<char>)
    requires
        entries.len() <= usize::MAX,
    ensures
        forall|x: int|
            0 <= x < matching_entries(entries, query).len() ==> {
                let p = #[trigger] matching_entries(entries, query)[x];
                p < entries.len() && entry_matches(query, entries[p as int])
            },
        forall|p: int|
            0 <= p < entries.len() && entry_matches(query, #[trigger] entries[p]) ==> exists|x: int|
                0 <= x < matching_entries(entries, query).len() && matching_entries(entries, query)[x] == p,
        forall|x: int, y: int|
            0 <= x < y < matching_entries(entries, query).len() ==> matching_entries(entries, query)[x]
                < matching_entries(entries, query)[y],
    decreases entries.len(),
{
    if entries.len() > 0 {
        let prev = entries.drop_last();
        lemma_results_are_the_matches(prev, query);
        let m = matching_entries(entries, query);
        let mp = matching_entries(prev, query);
        assert forall|k: int| 0 <= k < prev.len() implies #[trigger] entries[k] == prev[k] by {}
        assert forall|x: int| 0 <= x < mp.len() implies #[trigger] m[x] == mp[x] by {}
        assert forall|p: int| 0 <= p < entries.len() && entry_matches(query, #[trigger] entries[p]) implies exists|x: int|
            0 <= x < m.len() && m[x] == p by {
            if p < prev.len() {
                assert(entry_matches(query, prev[p]));
                let x = choose|x: int| 0 <= x < mp.len() && mp[x] == p;
                assert(m[x] == p);
            } else {
                assert(m[mp.len() as int] == p);
            }
        }
    }
}

} // verus!
