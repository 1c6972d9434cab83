//! The catalog tree of the explore mode: databases, their schemas, and in
//! each schema its tables and its views, as the outline the tree widget
//! draws, with the identifiers by which its nodes are opened and selected.

use vstd::prelude::*;
use crate::action::Action;
use crate::keys::{KeyCode, KeyEvent};
use crate::parser::{Database, Schema, SchemaView, Table, TableView};
use crate::text::{concat, eq_ignore_ascii_case, str_eq, str_eq_ignore_ascii_case, str_to_string};
use crate::workflow::{format_relative_time, spec_relative_time};

verus! {

/// `a.b`.
pub open spec fn dotted(a: Seq<char>, b: Seq<char>) -> Seq<char> {
    a + "."@ + b
}

/// The last part of a group's identifier.
pub open spec fn group_suffix(views: bool) -> Seq<char> {
    if views {
        "~views"@
    } else {
        "~tables"@
    }
}

/// A table whose kind is `VIEW`, in any case, counts as a view.
pub open spec fn is_view_kind(kind: Seq<char>) -> bool {
    eq_ignore_ascii_case(kind, "VIEW"@)
}

/// The tables (or the views) of one schema, in catalog order.
pub open spec fn schema_members(tables: Seq<TableView>, db: Seq<char>, schema: Seq<char>, views: bool) -> Seq<
    TableView,
>
    decreases tables.len(),
{
    if tables.len() == 0 {
        Seq::empty()
    } else {
        let prev = schema_members(tables.drop_last(), db, schema, views);
        let t = tables.last();
        if t.database == db && t.schema == schema && is_view_kind(t.kind) == views {
            prev.push(t)
        } else {
            prev
        }
    }
}

/// The schemas of one database, in catalog order.
pub open spec fn schemas_of(schemas: Seq<SchemaView>, db: Seq<char>) -> Seq<SchemaView>
    decreases schemas.len(),
{
    if schemas.len() == 0 {
        Seq::empty()
    } else {
        let prev = schemas_of(schemas.drop_last(), db);
        if schemas.last().database == db {
            prev.push(schemas.last())
        } else {
            prev
        }
    }
}

/// What a leaf of the tree shows: its identifier `db.schema.table` and
/// the table's name.
pub open spec fn leaf_outline(db: Seq<char>, schema: Seq<char>, t: TableView) -> (Seq<char>, Seq<char>) {
    (dotted(dotted(db, schema), t.name), t.name)
}

/// A group of a schema: the tables, or the views.
pub struct GroupOutline {
    pub id: Seq<char>,
    pub views: bool,
    pub leaves: Seq<(Seq<char>, Seq<char>)>,
}

/// A schema node.
pub struct SchemaOutline {
    pub id: Seq<char>,
    pub label: Seq<char>,
    pub groups: Seq<GroupOutline>,
}

/// A database node.
pub struct DbOutline {
    pub id: Seq<char>,
    pub schemas: Seq<SchemaOutline>,
}

/// The group of the given members, with identifier `db.schema.~tables` or
/// `db.schema.~views`.
pub open spec fn group_outline(db: Seq<char>, schema: Seq<char>, members: Seq<TableView>, views: bool) -> GroupOutline {
    GroupOutline {
        id: dotted(dotted(db, schema), group_suffix(views)),
        views,
        leaves: members.map_values(|t: TableView| leaf_outline(db, schema, t)),
    }
}

/// The groups of a schema: its tables if it has any, then its views if it
/// has any.
pub open spec fn groups_of(db: Seq<char>, schema: Seq<char>, tables: Seq<TableView>) -> Seq<GroupOutline> {
    let tm = schema_members(tables, db, schema, false);
    let vm = schema_members(tables, db, schema, true);
    (if tm.len() > 0 {
        seq![group_outline(db, schema, tm, false)]
    } else {
        Seq::empty()
    }) + (if vm.len() > 0 {
        seq![group_outline(db, schema, vm, true)]
    } else {
        Seq::empty()
    })
}

/// A schema node, with identifier `db.schema`.
pub open spec fn schema_outline(db: Seq<char>, schema: Seq<char>, tables: Seq<TableView>) -> SchemaOutline {
    SchemaOutline { id: dotted(db, schema), label: schema, groups: groups_of(db, schema, tables) }
}

/// A database node, whose identifier is the database's name.
pub open spec fn db_outline(db: Seq<char>, schemas: Seq<SchemaView>, tables: Seq<TableView>) -> DbOutline {
    DbOutline {
        id: db,
        schemas: schemas_of(schemas, db).map_values(|s: SchemaView| schema_outline(db, s.name, tables)),
    }
}

/// The whole tree: one node per database, in catalog order.
pub open spec fn catalog_outline(dbs: Seq<Seq<char>>, schemas: Seq<SchemaView>, tables: Seq<TableView>) -> Seq<
    DbOutline,
> {
    dbs.map_values(|d: Seq<char>| db_outline(d, schemas, tables))
}

/// A leaf: a table or a view.
pub struct LeafNode {
    pub id: String,
    pub label: String,
}

/// A group: the tables or the views of a schema.
pub struct GroupNode {
    pub id: String,
    /// Whether the group holds the views (else the tables).
    pub views: bool,
    pub leaves: Vec<LeafNode>,
}

/// A schema.
pub struct SchemaNode {
    pub id: String,
    pub label: String,
    pub groups: Vec<GroupNode>,
}

/// A database; its label is its identifier.
pub struct DbNode {
    pub id: String,
    pub schemas: Vec<SchemaNode>,
}

impl View for LeafNode {
    type V = (Seq<char>, Seq<char>);

    open spec fn view(&self) -> (Seq<char>, Seq<char>) {
        (self.id@, self.label@)
    }
}

impl View for GroupNode {
    type V = GroupOutline;

    open spec fn view(&self) -> GroupOutline {
        GroupOutline { id: self.id@, views: self.views, leaves: self.leaves@.map_values(|l: LeafNode| l@) }
    }
}

impl View for SchemaNode {
    type V = SchemaOutline;

    open spec fn view(&self) -> SchemaOutline {
        SchemaOutline {
            id: self.id@,
            label: self.label@,
            groups: self.groups@.map_values(|g: GroupNode| g@),
        }
    }
}

impl View for DbNode {
    type V = DbOutline;

    open spec fn view(&self) -> DbOutline {
        DbOutline { id: self.id@, schemas: self.schemas@.map_values(|s: SchemaNode| s@) }
    }
}

/// The views of tables.
pub open spec fn table_views(ts: Seq<Table>) -> Seq<TableView> {
    ts.map_values(|t: Table| t@)
}

/// The views of schemas.
pub open spec fn schema_views(ss: Seq<Schema>) -> Seq<SchemaView> {
    ss.map_values(|s: Schema| s@)
}

/// The names of databases.
pub open spec fn database_names(ds: Seq<Database>) -> Seq<Seq<char>> {
    ds.map_values(|d: Database| d@)
}

/// `a.b`.
pub fn dotted_id(a: &str, b: &str) -> (r: String)
    ensures
        r@ == dotted(a@, b@),
{
    let ad = concat(a, ".");
    concat(ad.as_str(), b)
}

fn build_group(db: &str, schema: &str, tables: &Vec<Table>, views: bool) -> (g: GroupNode)
    ensures
        g@ == group_outline(db@, schema@, schema_members(table_views(tables@), db@, schema@, views), views),
{
    let ghost tv = table_views(tables@);
    let prefix = dotted_id(db, schema);
    let mut leaves: Vec<LeafNode> = Vec::new();
    let mut i: usize = 0;
    while i < tables.len()
        invariant
            i <= tables@.len(),
            tv == table_views(tables@),
            prefix@ == dotted(db@, schema@),
            leaves@.map_values(|l: LeafNode| l@) == schema_members(tv.take(i as int), db@, schema@, views).map_values(
                |t: TableView| leaf_outline(db@, schema@, t),
            ),
        decreases tables@.len() - i,
    {
        let t = &tables[i];
        let ghost prev = leaves@;
        assert(tv.take(i + 1).drop_last() =~= tv.take(i as int));
        assert(tv.take(i + 1).last() == t@);
        if str_eq(t.database.as_str(), db) && str_eq(t.schema.as_str(), schema) && str_eq_ignore_ascii_case(
            t.kind.as_str(),
            "VIEW",
        ) == views {
            let leaf = LeafNode { id: dotted_id(prefix.as_str(), t.name.as_str()), label: str_to_string(t.name.as_str()) };
            assert(leaf@ == leaf_outline(db@, schema@, t@));
            let ghost m_prev = schema_members(tv.take(i as int), db@, schema@, views);
            assert(schema_members(tv.take(i + 1), db@, schema@, views) == m_prev.push(t@));
            leaves.push(leaf);
            assert(leaves@.map_values(|l: LeafNode| l@) =~= prev.map_values(|l: LeafNode| l@).push(leaf_outline(db@, schema@, t@)));
            assert(m_prev.push(t@).map_values(|t: TableView| leaf_outline(db@, schema@, t)) =~= m_prev.map_values(
                |t: TableView| leaf_outline(db@, schema@, t),
            ).push(leaf_outline(db@, schema@, t@)));
            assert(leaves@.map_values(|l: LeafNode| l@) =~= schema_members(tv.take(i + 1), db@, schema@, views).map_values(
                |t: TableView| leaf_outline(db@, schema@, t),
            ));
        } else {
            assert(schema_members(tv.take(i + 1), db@, schema@, views) == schema_members(tv.take(i as int), db@, schema@, views));
        }
        i += 1;
    }
    assert(tv.take(tables@.len() as int) =~= tv);
    let suffix = if views {
        str_to_string("~views")
    } else {
        str_to_string("~tables")
    };
    GroupNode { id: dotted_id(prefix.as_str(), suffix.as_str()), views, leaves }
}

fn build_schema_node(db: &str, schema: &str, tables: &Vec<Table>) -> (s: SchemaNode)
    ensures
        s@ == schema_outline(db@, schema@, table_views(tables@)),
{
    let tg = build_group(db, schema, tables, false);
    let vg = build_group(db, schema, tables, true);
    let mut groups: Vec<GroupNode> = Vec::new();
    let ghost tm = schema_members(table_views(tables@), db@, schema@, false);
    let ghost vm = schema_members(table_views(tables@), db@, schema@, true);
    assert(tg@.leaves.len() == tg.leaves@.len());
    assert(vg@.leaves.len() == vg.leaves@.len());
    assert(tg.leaves@.len() == tm.len());
    assert(vg.leaves@.len() == vm.len());
    if tg.leaves.len() > 0 {
        groups.push(tg);
    }
    let ghost g1 = groups@;
    assert(g1.map_values(|g: GroupNode| g@) =~= (if tm.len() > 0 {
        seq![group_outline(db@, schema@, tm, false)]
    } else {
        Seq::empty()
    }));
    if vg.leaves.len() > 0 {
        groups.push(vg);
    }
    assert(groups@.map_values(|g: GroupNode| g@) =~= g1.map_values(|g: GroupNode| g@) + (if vm.len() > 0 {
        seq![group_outline(db@, schema@, vm, true)]
    } else {
        Seq::empty()
    }));
    let r = SchemaNode { id: dotted_id(db, schema), label: str_to_string(schema), groups };
    assert(r@.groups =~= groups_of(db@, schema@, table_views(tables@)));
    r
}

fn build_db_node(db: &str, schemas: &Vec<Schema>, tables: &Vec<Table>) -> (d: DbNode)
    ensures
        d@ == db_outline(db@, schema_views(schemas@), table_views(tables@)),
{
    let ghost sv = schema_views(schemas@);
    let ghost tv = table_views(tables@);
    let mut nodes: Vec<SchemaNode> = Vec::new();
    let mut j: usize = 0;
    while j < schemas.len()
        invariant
            j <= schemas@.len(),
            sv == schema_views(schemas@),
            tv == table_views(tables@),
            nodes@.map_values(|s: SchemaNode| s@) == schemas_of(sv.take(j as int), db@).map_values(
                |s: SchemaView| schema_outline(db@, s.name, tv),
            ),
        decreases schemas@.len() - j,
    {
        let s = &schemas[j];
        assert(sv.take(j + 1).drop_last() =~= sv.take(j as int));
        assert(sv.take(j + 1).last() == s@);
        if str_eq(s.database.as_str(), db) {
            let node = build_schema_node(db, s.name.as_str(), tables);
            let ghost prev = nodes@;
            let ghost p_prev = schemas_of(sv.take(j as int), db@);
            assert(schemas_of(sv.take(j + 1), db@) == p_prev.push(s@));
            nodes.push(node);
            assert(nodes@.map_values(|s: SchemaNode| s@) =~= prev.map_values(|s: SchemaNode| s@).push(schema_outline(db@, s@.name, tv)));
            assert(p_prev.push(s@).map_values(|s: SchemaView| schema_outline(db@, s.name, tv)) =~= p_prev.map_values(
                |s: SchemaView| schema_outline(db@, s.name, tv),
            ).push(schema_outline(db@, s@.name, tv)));
            assert(nodes@.map_values(|s: SchemaNode| s@) =~= schemas_of(sv.take(j + 1), db@).map_values(
                |s: SchemaView| schema_outline(db@, s.name, tv),
            ));
        } else {
            assert(schemas_of(sv.take(j + 1), db@) == schemas_of(sv.take(j as int), db@));
        }
        j += 1;
    }
    assert(sv.take(schemas@.len() as int) =~= sv);
    DbNode { id: str_to_string(db), schemas: nodes }
}

/// The tree of a catalog: each database with its schemas, each schema with
/// a group of its tables and a group of its views (a group only where
/// there is something in it).
pub fn catalog_tree(databases: &Vec<Database>, schemas: &Vec<Schema>, tables: &Vec<Table>) -> (r: Vec<DbNode>)
    ensures
        r@.map_values(|d: DbNode| d@) == catalog_outline(
            database_names(databases@),
            schema_views(schemas@),
            table_views(tables@),
        ),
{
    let ghost dv = database_names(databases@);
    let mut out: Vec<DbNode> = Vec::new();
    let mut i: usize = 0;
    while i < databases.len()
        invariant
            i <= databases@.len(),
            dv == database_names(databases@),
            out@.map_values(|d: DbNode| d@) == catalog_outline(dv.take(i as int), schema_views(schemas@), table_views(tables@)),
        decreases databases@.len() - i,
    {
        let node = build_db_node(databases[i].name.as_str(), schemas, tables);
        let ghost prev = out@;
        out.push(node);
        assert(out@.map_values(|d: DbNode| d@) =~= prev.map_values(|d: DbNode| d@).push(
            db_outline(dv[i as int], schema_views(schemas@), table_views(tables@)),
        ));
        assert(dv.take(i + 1) =~= dv.take(i as int).push(dv[i as int]));
        assert(out@.map_values(|d: DbNode| d@) =~= catalog_outline(dv.take(i + 1), schema_views(schemas@), table_views(tables@)));
        i += 1;
    }
    assert(dv.take(databases@.len() as int) =~= dv);
    out
}



/// Whether a table is one of the tables (or, with `views`, the views) of
/// schema `schema` of database `db`.
pub open spec fn in_schema_group(t: TableView, db: Seq<char>, schema: Seq<char>, views: bool) -> bool {
    t.database == db && t.schema == schema && is_view_kind(t.kind) == views
}

/// The members of a schema's group are exactly the catalog's tables of that
/// database and that schema whose kind puts them in the group, each as
/// often as it is listed and in catalog order.
pub proof fn lemma_schema_members_are_its_tables(tables: Seq<TableView>, db: Seq<char>, schema: Seq<char>, views: bool)
    ensures
        schema_members(tables, db, schema, views) == tables.filter(
            |t: TableView| in_schema_group(t, db, schema, views),
        ),
    decreases tables.len(),
{
    reveal(Seq::filter);
    if tables.len() > 0 {
        lemma_schema_members_are_its_tables(tables.drop_last(), db, schema, views);
    }
}

/// Every leaf under the node of database `dbs[i]` and one of its schemas
/// stands for a table of that database and that schema, of the group's
/// kind: its identifier is `db.schema.table` and its label the table's name.
pub proof fn lemma_tree_leaf_is_table_of_its_schema(
    dbs: Seq<Seq<char>>,
    schemas: Seq<SchemaView>,
    tables: Seq<TableView>,
    i: int,
    j: int,
    g: int,
    l: int,
)
    requires
        0 <= i < dbs.len(),
        0 <= j < catalog_outline(dbs, schemas, tables)[i].schemas.len(),
        0 <= g < catalog_outline(dbs, schemas, tables)[i].schemas[j].groups.len(),
        0 <= l < catalog_outline(dbs, schemas, tables)[i].schemas[j].groups[g].leaves.len(),
    ensures
        ({
            let s = catalog_outline(dbs, schemas, tables)[i].schemas[j];
            exists|k: int|
                #![trigger tables[k]]
                0 <= k < tables.len() && tables[k].database == dbs[i] && tables[k].schema == s.label
                    && is_view_kind(tables[k].kind) == s.groups[g].views && s.groups[g].leaves[l]
                    == leaf_outline(dbs[i], s.label, tables[k])
        }),
{
    let d = dbs[i];
    let o = catalog_outline(dbs, schemas, tables);
    assert(o[i] == db_outline(d, schemas, tables));
    let sv = schemas_of(schemas, d)[j];
    let name = sv.name;
    assert(o[i].schemas[j] == schema_outline(d, name, tables));
    let tm = schema_members(tables, d, name, false);
    let vm = schema_members(tables, d, name, true);
    let grp = o[i].schemas[j].groups[g];
    let views = grp.views;
    let members = schema_members(tables, d, name, views);
    assert(grp == group_outline(d, name, members, views)) by {
        if tm.len() > 0 {
            if g == 0 {
                assert(grp == group_outline(d, name, tm, false));
            } else {
                assert(grp == group_outline(d, name, vm, true));
            }
        } else {
            assert(grp == group_outline(d, name, vm, true));
        }
    }
    assert(grp.leaves[l] == leaf_outline(d, name, members[l]));
    let pred = |t: TableView| in_schema_group(t, d, name, views);
    lemma_schema_members_are_its_tables(tables, d, name, views);
    tables.lemma_filter_pred(pred, l);
    assert(tables.contains(members[l])) by {
        assert(tables.filter(pred)[l] == members[l]);
        assert(forall|x: int|
            0 <= x < tables.filter(pred).len() ==> tables.contains(#[trigger] tables.filter(pred)[x])) by {
            lemma_filter_elements_come_from(tables, pred);
        }
    }
    let k = choose|k: int| 0 <= k < tables.len() && tables[k] == members[l];
    assert(tables[k] == members[l]);
}


/// Each table of a database, whose schema has a node under that database,
/// is shown as a leaf of the group of its kind under that schema's node.
pub proof fn lemma_table_shown_under_its_schema(
    dbs: Seq<Seq<char>>,
    schemas: Seq<SchemaView>,
    tables: Seq<TableView>,
    i: int,
    j: int,
    k: int,
)
    requires
        0 <= i < dbs.len(),
        0 <= j < catalog_outline(dbs, schemas, tables)[i].schemas.len(),
        0 <= k < tables.len(),
        tables[k].database == dbs[i],
        tables[k].schema == catalog_outline(dbs, schemas, tables)[i].schemas[j].label,
    ensures
        ({
            let s = catalog_outline(dbs, schemas, tables)[i].schemas[j];
            exists|g: int|
                #![trigger s.groups[g]]
                0 <= g < s.groups.len() && s.groups[g].views == is_view_kind(tables[k].kind)
                    && s.groups[g].leaves.contains(leaf_outline(dbs[i], s.label, tables[k]))
        }),
{
    let d = dbs[i];
    let o = catalog_outline(dbs, schemas, tables);
    assert(o[i] == db_outline(d, schemas, tables));
    let name = schemas_of(schemas, d)[j].name;
    let s = o[i].schemas[j];
    assert(s == schema_outline(d, name, tables));
    let views = is_view_kind(tables[k].kind);
    let pred = |t: TableView| in_schema_group(t, d, name, views);
    let members = schema_members(tables, d, name, views);
    lemma_schema_members_are_its_tables(tables, d, name, views);
    tables.lemma_filter_contains(pred, k);
    let x = choose|x: int| 0 <= x < members.len() && members[x] == tables[k];
    let grp = group_outline(d, name, members, views);
    assert(grp.leaves[x] == leaf_outline(d, name, tables[k]));
    let tm = schema_members(tables, d, name, false);
    let g: int = if views && tm.len() > 0 {
        1
    } else {
        0
    };
    assert(s.groups[g] == grp);
}

/// Every element of a filtered sequence is an element of the sequence.
proof fn lemma_filter_elements_come_from(xs: Seq<TableView>, pred: spec_fn(TableView) -> bool)
    ensures
        forall|x: int| 0 <= x < xs.filter(pred).len() ==> xs.contains(#[trigger] xs.filter(pred)[x]),
    decreases xs.len(),
{
    reveal(Seq::filter);
    if xs.len() > 0 {
        lemma_filter_elements_come_from(xs.drop_last(), pred);
        let f = xs.filter(pred);
        let fp = xs.drop_last().filter(pred);
        assert forall|x: int| 0 <= x < f.len() implies xs.contains(#[trigger] f[x]) by {
            if x < fp.len() {
                assert(f[x] == fp[x]);
                assert(xs.drop_last().contains(fp[x]));
                let y = choose|y: int| 0 <= y < xs.drop_last().len() && xs.drop_last()[y] == fp[x];
                assert(xs[y] == f[x]);
            } else {
                assert(f[x] == xs.last());
                assert(xs[xs.len() - 1] == f[x]);
            }
        }
    }
}

/// A path of node identifiers, from a database down.
pub type TreePath = Seq<Seq<char>>;

/// The paths to the single group of each schema that has exactly one,
/// among the given schema nodes of a database.
pub open spec fn schema_candidates(db_id: Seq<char>, ss: Seq<SchemaOutline>) -> Seq<TreePath>
    decreases ss.len(),
{
    if ss.len() == 0 {
        Seq::empty()
    } else {
        let s = ss.last();
        schema_candidates(db_id, ss.drop_last()) + (if s.groups.len() == 1 {
            seq![seq![db_id, s.id, s.groups[0].id]]
        } else {
            Seq::empty()
        })
    }
}

/// The paths to every group that is the only one of its schema, in the
/// order of the tree.
pub open spec fn outline_candidates(o: Seq<DbOutline>) -> Seq<TreePath>
    decreases o.len(),
{
    if o.len() == 0 {
        Seq::empty()
    } else {
        outline_candidates(o.drop_last()) + schema_candidates(o.last().id, o.last().schemas)
    }
}

/// The last identifiers of paths.
pub open spec fn path_groups(ps: Seq<TreePath>) -> Seq<Seq<char>> {
    ps.map_values(|p: TreePath| p[2])
}

/// Of candidate paths, in order, those whose group is neither among the
/// groups opened before nor opened by an earlier candidate.
pub open spec fn fresh_paths(cands: Seq<TreePath>, seen: Seq<Seq<char>>) -> Seq<TreePath>
    decreases cands.len(),
{
    if cands.len() == 0 {
        Seq::empty()
    } else {
        let f = fresh_paths(cands.drop_last(), seen);
        if (seen + path_groups(f)).contains(cands.last()[2]) {
            f
        } else {
            f.push(cands.last())
        }
    }
}

/// The views of lists of strings.
pub open spec fn string_views(v: Seq<String>) -> Seq<Seq<char>> {
    v.map_values(|s: String| s@)
}

/// The views of paths.
pub open spec fn path_views(v: Seq<Vec<String>>) -> Seq<TreePath> {
    v.map_values(|p: Vec<String>| string_views(p@))
}

/// Whether `v` holds `s`.
pub fn contains_str(v: &Vec<String>, s: &str) -> (r: bool)
    ensures
        r == string_views(v@).contains(s@),
{
    let mut i: usize = 0;
    while i < v.len()
        invariant
            i <= v@.len(),
            forall|k: int| 0 <= k < i ==> v@[k]@ != s@,
        decreases v@.len() - i,
    {
        if str_eq(v[i].as_str(), s) {
            assert(string_views(v@)[i as int] == s@);
            return true;
        }
        i += 1;
    }
    assert forall|k: int| 0 <= k < string_views(v@).len() implies string_views(v@)[k] != s@ by {
        assert(string_views(v@)[k] == v@[k]@);
    }
    false
}

/// A path of three identifiers.
fn path3(a: &str, b: &str, c: &str) -> (r: Vec<String>)
    ensures
        string_views(r@) == seq![a@, b@, c@],
{
    let mut r: Vec<String> = Vec::new();
    r.push(str_to_string(a));
    r.push(str_to_string(b));
    r.push(str_to_string(c));
    assert(string_views(r@) =~= seq![a@, b@, c@]);
    r
}

/// A table of the catalog is `db.schema.table`.
pub open spec fn table_is(t: TableView, db: Seq<char>, schema: Seq<char>, name: Seq<char>) -> bool {
    t.database == db && t.schema == schema && t.name == name
}

/// The schemas of other databases than `db`, in order.
pub open spec fn schemas_not_of(schemas: Seq<SchemaView>, db: Seq<char>) -> Seq<SchemaView>
    decreases schemas.len(),
{
    if schemas.len() == 0 {
        Seq::empty()
    } else {
        let prev = schemas_not_of(schemas.drop_last(), db);
        if schemas.last().database != db {
            prev.push(schemas.last())
        } else {
            prev
        }
    }
}

/// The tables of other databases than `db`, in order.
pub open spec fn tables_not_of(tables: Seq<TableView>, db: Seq<char>) -> Seq<TableView>
    decreases tables.len(),
{
    if tables.len() == 0 {
        Seq::empty()
    } else {
        let prev = tables_not_of(tables.drop_last(), db);
        if tables.last().database != db {
            prev.push(tables.last())
        } else {
            prev
        }
    }
}

fn keep_other_schemas(v: &Vec<Schema>, db: &str) -> (r: Vec<Schema>)
    ensures
        schema_views(r@) == schemas_not_of(schema_views(v@), db@),
{
    let ghost sv = schema_views(v@);
    let mut out: Vec<Schema> = Vec::new();
    let mut i: usize = 0;
    while i < v.len()
        invariant
            i <= v@.len(),
            sv == schema_views(v@),
            schema_views(out@) == schemas_not_of(sv.take(i as int), db@),
        decreases v@.len() - i,
    {
        assert(sv.take(i + 1).drop_last() =~= sv.take(i as int));
        assert(sv.take(i + 1).last() == v@[i as int]@);
        if !str_eq(v[i].database.as_str(), db) {
            let ghost prev = out@;
            out.push(v[i].clone());
            assert(schema_views(out@) =~= schema_views(prev).push(v@[i as int]@));
        }
        i += 1;
    }
    assert(sv.take(v@.len() as int) =~= sv);
    out
}

fn keep_other_tables(v: &Vec<Table>, db: &str) -> (r: Vec<Table>)
    ensures
        table_views(r@) == tables_not_of(table_views(v@), db@),
{
    let ghost tv = table_views(v@);
    let mut out: Vec<Table> = Vec::new();
    let mut i: usize = 0;
    while i < v.len()
        invariant
            i <= v@.len(),
            tv == table_views(v@),
            table_views(out@) == tables_not_of(tv.take(i as int), db@),
        decreases v@.len() - i,
    {
        assert(tv.take(i + 1).drop_last() =~= tv.take(i as int));
        assert(tv.take(i + 1).last() == v@[i as int]@);
        if !str_eq(v[i].database.as_str(), db) {
            let ghost prev = out@;
            out.push(v[i].clone());
            assert(table_views(out@) =~= table_views(prev).push(v@[i as int]@));
        }
        i += 1;
    }
    assert(tv.take(v@.len() as int) =~= tv);
    out
}

/// What a key does to the tree's selection, done by the tree widget.
#[derive(Debug, Clone, Copy, PartialEq, Eq, Structural)]
pub enum TreeMove {
    Down,
    Up,
    /// Opens the selected node, or selects its first child.
    Right,
    /// Opens or closes the selected node.
    Toggle,
    /// Closes the selected node, or selects its parent.
    Left,
}

/// What a key means to the tree.
#[derive(Debug, Clone, Copy, PartialEq, Eq, Structural)]
pub enum TreeKey {
    Move(TreeMove),
    /// Reload the catalog.
    Refresh,
    Ignore,
}

/// The meaning of a key to the tree: Down/`j`, Up/`k`, Right,
/// Enter/space and Left move the selection; `R` reloads the catalog.
pub open spec fn key_meaning(code: KeyCode) -> TreeKey {
    if code == KeyCode::Down || code == KeyCode::Char('j') {
        TreeKey::Move(TreeMove::Down)
    } else if code == KeyCode::Up || code == KeyCode::Char('k') {
        TreeKey::Move(TreeMove::Up)
    } else if code == KeyCode::Right {
        TreeKey::Move(TreeMove::Right)
    } else if code == KeyCode::Enter || code == KeyCode::Char(' ') {
        TreeKey::Move(TreeMove::Toggle)
    } else if code == KeyCode::Left {
        TreeKey::Move(TreeMove::Left)
    } else if code == KeyCode::Char('R') {
        TreeKey::Refresh
    } else {
        TreeKey::Ignore
    }
}

/// The meaning of a key to the tree.
pub fn tree_key(key: KeyEvent) -> (r: TreeKey)
    ensures
        r == key_meaning(key.code),
{
    match key.code {
        KeyCode::Down | KeyCode::Char('j') => TreeKey::Move(TreeMove::Down),
        KeyCode::Up | KeyCode::Char('k') => TreeKey::Move(TreeMove::Up),
        KeyCode::Right => TreeKey::Move(TreeMove::Right),
        KeyCode::Enter | KeyCode::Char(' ') => TreeKey::Move(TreeMove::Toggle),
        KeyCode::Left => TreeKey::Move(TreeMove::Left),
        KeyCode::Char('R') => TreeKey::Refresh,
        _ => TreeKey::Ignore,
    }
}

/// `id` splits at its first two dots into `a`, `b` and `c`.
pub open spec fn splits_into(id: Seq<char>, a: Seq<char>, b: Seq<char>, c: Seq<char>) -> bool {
    &&& id == a + "."@ + b + "."@ + c
    &&& forall|k: int| 0 <= k < a.len() ==> a[k] != '.'
    &&& forall|k: int| 0 <= k < b.len() ==> b[k] != '.'
}

/// `s` holds at least two dots.
pub open spec fn has_two_dots(s: Seq<char>) -> bool {
    exists|i: int, j: int| 0 <= i < j < s.len() && s[i] == '.' && s[j] == '.'
}

/// A split at the first two dots is the only one.
pub proof fn lemma_split_unique(
    s: Seq<char>,
    a: Seq<char>,
    b: Seq<char>,
    c: Seq<char>,
    a2: Seq<char>,
    b2: Seq<char>,
    c2: Seq<char>,
)
    requires
        splits_into(s, a, b, c),
        splits_into(s, a2, b2, c2),
    ensures
        a == a2 && b == b2 && c == c2,
{
    reveal_strlit(".");
    assert(s[a.len() as int] == '.');
    assert(s[a2.len() as int] == '.');
    if a.len() < a2.len() {
        assert(a2[a.len() as int] == s[a.len() as int]);
    }
    if a2.len() < a.len() {
        assert(a[a2.len() as int] == s[a2.len() as int]);
    }
    assert(a =~= s.subrange(0, a.len() as int));
    assert(a2 =~= s.subrange(0, a2.len() as int));
    let r = s.subrange(a.len() + 1int, s.len() as int);
    assert(r =~= b + "."@ + c);
    assert(r =~= b2 + "."@ + c2);
    assert(r[b.len() as int] == '.');
    assert(r[b2.len() as int] == '.');
    if b.len() < b2.len() {
        assert(b2[b.len() as int] == r[b.len() as int]);
    }
    if b2.len() < b.len() {
        assert(b[b2.len() as int] == r[b2.len() as int]);
    }
    assert(b =~= r.subrange(0, b.len() as int));
    assert(b2 =~= r.subrange(0, b2.len() as int));
    assert(c =~= r.subrange(b.len() + 1int, r.len() as int));
    assert(c2 =~= r.subrange(b2.len() + 1int, r.len() as int));
}

/// A string that splits at two dots holds two dots.
pub proof fn lemma_split_has_two_dots(s: Seq<char>, a: Seq<char>, b: Seq<char>, c: Seq<char>)
    requires
        splits_into(s, a, b, c),
    ensures
        has_two_dots(s),
{
    reveal_strlit(".");
    let i = a.len() as int;
    let j = (a.len() + 1 + b.len()) as int;
    assert(s[i] == '.' && s[j] == '.');
}

/// The first position at or after `from` that holds a dot.
fn find_dot(v: &Vec<char>, from: usize) -> (r: Option<usize>)
    requires
        from <= v@.len(),
    ensures
        match r {
            Some(i) => from <= i < v@.len() && v@[i as int] == '.' && forall|k: int| from <= k < i ==> v@[k] != '.',
            None => forall|k: int| from <= k < v@.len() ==> v@[k] != '.',
        },
{
    let mut i: usize = from;
    while i < v.len()
        invariant
            from <= i <= v@.len(),
            forall|k: int| from <= k < i ==> v@[k] != '.',
        decreases v@.len() - i,
    {
        if v[i] == '.' {
            return Some(i);
        }
        i += 1;
    }
    None
}

/// The characters of `v` from `a` up to `b`.
fn sub_string(v: &Vec<char>, a: usize, b: usize) -> (r: String)
    requires
        a <= b <= v@.len(),
    ensures
        r@ == v@.subrange(a as int, b as int),
{
    let mut out: Vec<char> = Vec::new();
    let mut i: usize = a;
    while i < b
        invariant
            a <= i <= b <= v@.len(),
            out@ == v@.subrange(a as int, i as int),
        decreases b - i,
    {
        out.push(v[i]);
        assert(out@ =~= v@.subrange(a as int, i + 1));
        i += 1;
    }
    crate::text::chars_to_string(out.as_slice())
}

/// The table a selection path points at: a path of four identifiers
/// (database, schema, group, table) whose last splits at its first two
/// dots into database, schema and table name.
pub fn selected_table(selected: &Vec<String>) -> (r: Option<(String, String, String)>)
    ensures
        match r {
            Some((a, b, c)) => selected@.len() == 4 && splits_into(selected@[3]@, a@, b@, c@),
            None => !(selected@.len() == 4 && has_two_dots(selected@[3]@)),
        },
{
    if selected.len() != 4 {
        return None;
    }
    let v = crate::text::str_chars(selected[3].as_str());
    let ghost s = v@;
    match find_dot(&v, 0) {
        None => {
            None
        },
        Some(p1) => {
            match find_dot(&v, p1 + 1) {
                None => {
                    assert(!has_two_dots(s)) by {
                        if has_two_dots(s) {
                            let (i, j) = choose|i: int, j: int| 0 <= i < j < s.len() && s[i] == '.' && s[j] == '.';
                            assert(i >= p1);
                        }
                    }
                    None
                },
                Some(p2) => {
                    let a = sub_string(&v, 0, p1);
                    let b = sub_string(&v, p1 + 1, p2);
                    let n = v.len();
                    let c = sub_string(&v, p2 + 1, n);
                    proof {
                        reveal_strlit(".");
                        assert(s =~= a@ + "."@ + b@ + "."@ + c@);
                    }
                    Some((a, b, c))
                },
            }
        },
    }
}

/// What follows a move of the selection: closing or going up redraws;
/// any other move that lands on a table asks for its columns, else
/// redraws.
pub fn after_tree_move(mv: TreeMove, selected: &Vec<String>) -> (r: Action)
    ensures
        mv == TreeMove::Left ==> r is Render,
        mv != TreeMove::Left ==> (if selected@.len() == 4 && has_two_dots(selected@[3]@) {
            r matches Action::LoadColumns { db, schema, table } && splits_into(selected@[3]@, db@, schema@, table@)
        } else {
            r is Render
        }),
{
    if mv == TreeMove::Left {
        return Action::Render;
    }
    match selected_table(selected) {
        Some((db, schema, table)) => {
            proof {
                lemma_split_has_two_dots(selected@[3]@, db@, schema@, table@);
            }
            Action::LoadColumns { db, schema, table }
        },
        None => Action::Render,
    }
}

/// The catalog tree: the databases, schemas and tables it shows, and what
/// the tree widget does not keep.
pub struct CatalogTree {
    pub databases: Vec<Database>,
    pub schemas: Vec<Schema>,
    pub tables: Vec<Table>,
    /// When the catalog was last refreshed (milliseconds since the epoch).
    pub last_refreshed: Option<i64>,
    pub loading: bool,
    pub error: Option<String>,
    pub refresh_running: usize,
    pub refresh_total: usize,
    /// Groups already opened by themselves, not to be opened again.
    pub auto_opened: Vec<String>,
}

impl CatalogTree {
    pub fn new() -> (r: Self)
        ensures
            r.databases@.len() == 0,
            r.schemas@.len() == 0,
            r.tables@.len() == 0,
            r.last_refreshed is None,
            !r.loading,
            r.error is None,
            r.refresh_running == 0,
            r.refresh_total == 0,
            r.auto_opened@.len() == 0,
    {
        CatalogTree {
            databases: Vec::new(),
            schemas: Vec::new(),
            tables: Vec::new(),
            last_refreshed: None,
            loading: false,
            error: None,
            refresh_running: 0,
            refresh_total: 0,
            auto_opened: Vec::new(),
        }
    }

    /// Forgets everything.
    pub fn clear(&mut self)
        ensures
            final(self).databases@.len() == 0,
            final(self).schemas@.len() == 0,
            final(self).tables@.len() == 0,
            final(self).last_refreshed is None,
            !final(self).loading,
            final(self).error is None,
            final(self).refresh_running == 0,
            final(self).refresh_total == 0,
            final(self).auto_opened@.len() == 0,
    {
        *self = CatalogTree::new();
    }

    /// Shows a catalog refreshed at `updated_at`, or now when that is not
    /// known; groups may open by themselves again.
    pub fn set_catalog(
        &mut self,
        databases: Vec<Database>,
        schemas: Vec<Schema>,
        tables: Vec<Table>,
        updated_at: Option<i64>,
        now_ms: i64,
    )
        ensures
            final(self).databases@ == databases@,
            final(self).schemas@ == schemas@,
            final(self).tables@ == tables@,
            final(self).last_refreshed == Some(
                match updated_at {
                    Some(t) => t,
                    None => now_ms,
                },
            ),
            !final(self).loading,
            final(self).error is None,
            final(self).auto_opened@.len() == 0,
            final(self).refresh_running == old(self).refresh_running,
            final(self).refresh_total == old(self).refresh_total,
    {
        self.databases = databases;
        self.schemas = schemas;
        self.tables = tables;
        self.last_refreshed = Some(
            match updated_at {
                Some(t) => t,
                None => now_ms,
            },
        );
        self.loading = false;
        self.error = None;
        self.auto_opened = Vec::new();
    }

    /// Shows that the catalog is being loaded.
    pub fn set_loading(&mut self)
        ensures
            final(self).loading,
            final(self).error is None,
            final(self).databases@ == old(self).databases@,
            final(self).schemas@ == old(self).schemas@,
            final(self).tables@ == old(self).tables@,
    {
        self.loading = true;
        self.error = None;
    }

    /// Shows an error.
    pub fn set_error(&mut self, msg: String)
        ensures
            final(self).error matches Some(e) && e@ == msg@,
            !final(self).loading,
            final(self).databases@ == old(self).databases@,
            final(self).schemas@ == old(self).schemas@,
            final(self).tables@ == old(self).tables@,
    {
        self.error = Some(msg);
        self.loading = false;
    }

    /// The first table of the catalog that is `db.schema.table`.
    pub fn find_table(&self, db: &str, schema: &str, table: &str) -> (r: Option<Table>)
        ensures
            match r {
                Some(t) => exists|i: int|
                    0 <= i < self.tables@.len() && table_is(#[trigger] self.tables@[i]@, db@, schema@, table@)
                        && t@ == self.tables@[i]@ && forall|k: int| 0 <= k < i ==> !table_is(
                        #[trigger] self.tables@[k]@,
                        db@,
                        schema@,
                        table@,
                    ),
                None => forall|k: int| 0 <= k < self.tables@.len() ==> !table_is(#[trigger] self.tables@[k]@, db@, schema@, table@),
            },
    {
        let mut i: usize = 0;
        while i < self.tables.len()
            invariant
                i <= self.tables@.len(),
                forall|k: int| 0 <= k < i ==> !table_is(#[trigger] self.tables@[k]@, db@, schema@, table@),
            decreases self.tables@.len() - i,
        {
            let t = &self.tables[i];
            if str_eq(t.database.as_str(), db) && str_eq(t.schema.as_str(), schema) && str_eq(t.name.as_str(), table) {
                let found = t.clone();
                assert(table_is(self.tables@[i as int]@, db@, schema@, table@));
                return Some(found);
            }
            i += 1;
        }
        None
    }

    /// Opens by itself, once, each group that is the only one of its
    /// schema. Returns the paths to open, in the order of the tree.
    pub fn auto_open(&mut self, tree: &Vec<DbNode>) -> (paths: Vec<Vec<String>>)
        ensures
            path_views(paths@) == fresh_paths(
                outline_candidates(tree@.map_values(|d: DbNode| d@)),
                string_views(old(self).auto_opened@),
            ),
            string_views(final(self).auto_opened@) == string_views(old(self).auto_opened@) + path_groups(
                path_views(paths@),
            ),
            final(self).databases@ == old(self).databases@,
            final(self).schemas@ == old(self).schemas@,
            final(self).tables@ == old(self).tables@,
    {
        let ghost seen = string_views(self.auto_opened@);
        let ghost o = tree@.map_values(|d: DbNode| d@);
        let mut paths: Vec<Vec<String>> = Vec::new();
        let mut i: usize = 0;
        while i < tree.len()
            invariant
                i <= tree@.len(),
                o == tree@.map_values(|d: DbNode| d@),
                path_views(paths@) == fresh_paths(outline_candidates(o.take(i as int)), seen),
                string_views(self.auto_opened@) == seen + path_groups(path_views(paths@)),
                self.databases@ == old(self).databases@,
                self.schemas@ == old(self).schemas@,
                self.tables@ == old(self).tables@,
            decreases tree@.len() - i,
        {
            let d = &tree[i];
            let ghost before = outline_candidates(o.take(i as int));
            let ghost sv = d.schemas@.map_values(|s: SchemaNode| s@);
            assert(o.take(i + 1).drop_last() =~= o.take(i as int));
            assert(o.take(i + 1).last() == d@);
            let mut j: usize = 0;
            while j < d.schemas.len()
                invariant
                    i < tree@.len(),
                    d == &tree@[i as int],
                    j <= d.schemas@.len(),
                    sv == d.schemas@.map_values(|s: SchemaNode| s@),
                    path_views(paths@) == fresh_paths(before + schema_candidates(d.id@, sv.take(j as int)), seen),
                    string_views(self.auto_opened@) == seen + path_groups(path_views(paths@)),
                    self.databases@ == old(self).databases@,
                    self.schemas@ == old(self).schemas@,
                    self.tables@ == old(self).tables@,
                decreases d.schemas@.len() - j,
            {
                let s = &d.schemas[j];
                let ghost cands = before + schema_candidates(d.id@, sv.take(j as int));
                assert(sv.take(j + 1).drop_last() =~= sv.take(j as int));
                assert(sv.take(j + 1).last() == s@);
                assert(s@.groups.len() == s.groups@.len());
                if s.groups.len() == 1 {
                    let gid = &s.groups[0].id;
                    let ghost c: TreePath = seq![d.id@, s.id@, gid@];
                    assert(s@.groups[0].id == gid@);
                    assert(before + schema_candidates(d.id@, sv.take(j + 1)) =~= cands.push(c));
                    assert((cands.push(c)).drop_last() =~= cands);
                    if !contains_str(&self.auto_opened, gid.as_str()) {
                        let p = path3(d.id.as_str(), s.id.as_str(), gid.as_str());
                        let ghost prev = paths@;
                        paths.push(p);
                        assert(path_views(paths@) =~= path_views(prev).push(c));
                        let ghost prev_open = self.auto_opened@;
                        self.auto_opened.push(str_to_string(gid.as_str()));
                        assert(string_views(self.auto_opened@) =~= string_views(prev_open).push(gid@));
                        assert(path_groups(path_views(paths@)) =~= path_groups(path_views(prev)).push(gid@));
                        assert(string_views(self.auto_opened@) =~= seen + path_groups(path_views(paths@)));
                    }
                } else {
                    assert(before + schema_candidates(d.id@, sv.take(j + 1)) =~= cands);
                }
                j += 1;
            }
            assert(sv.take(d.schemas@.len() as int) =~= sv);
            assert(outline_candidates(o.take(i + 1)) == before + schema_candidates(d@.id, d@.schemas));
            i += 1;
        }
        assert(o.take(tree@.len() as int) =~= o);
        paths
    }

    /// The tree to draw, with the paths of the groups that open by
    /// themselves now.
    pub fn build_tree_items(&mut self) -> (r: (Vec<DbNode>, Vec<Vec<String>>))
        ensures
            r.0@.map_values(|d: DbNode| d@) == catalog_outline(
                database_names(old(self).databases@),
                schema_views(old(self).schemas@),
                table_views(old(self).tables@),
            ),
            path_views(r.1@) == fresh_paths(
                outline_candidates(r.0@.map_values(|d: DbNode| d@)),
                string_views(old(self).auto_opened@),
            ),
            string_views(final(self).auto_opened@) == string_views(old(self).auto_opened@) + path_groups(
                path_views(r.1@),
            ),
            final(self).databases@ == old(self).databases@,
            final(self).schemas@ == old(self).schemas@,
            final(self).tables@ == old(self).tables@,
    {
        let tree = catalog_tree(&self.databases, &self.schemas, &self.tables);
        let paths = self.auto_open(&tree);
        (tree, paths)
    }

    /// The refresh line under the tree.
    pub fn refresh_status(&self, now_ms: i64) -> (r: String)
        ensures
            r@ == match self.last_refreshed {
                Some(ts) => "Refreshed: "@ + spec_relative_time(ts as int, now_ms as int),
                None => "Not yet loaded"@,
            },
    {
        match self.last_refreshed {
            Some(ts) => {
                let rel = format_relative_time(ts, now_ms);
                concat("Refreshed: ", rel.as_str())
            },
            None => str_to_string("Not yet loaded"),
        }
    }

    /// Takes what was loaded for the catalog: a whole catalog, the list of
    /// databases, all schemas and tables, or the schemas and tables of one
    /// database (which replace its earlier ones), or an error. Each is
    /// answered by a redraw; other actions are not for the tree.
    pub fn update(&mut self, action: Action, now_ms: i64) -> (r: Option<Action>)
        ensures
            match action {
                Action::CatalogLoaded(dbs, schemas, tables, updated_at) => r matches Some(Action::Render)
                    && final(self).databases@ == dbs@ && final(self).schemas@ == schemas@
                    && final(self).tables@ == tables@ && final(self).last_refreshed == Some(
                    match updated_at {
                        Some(t) => t,
                        None => now_ms,
                    },
                ) && !final(self).loading && final(self).error is None,
                Action::DatabasesLoaded(dbs) => r matches Some(Action::Render) && final(self).databases@ == dbs@
                    && final(self).schemas@ == old(self).schemas@ && final(self).tables@ == old(self).tables@
                    && !final(self).loading && final(self).error is None,
                Action::ObjectsLoaded(schemas, tables) => r matches Some(Action::Render)
                    && final(self).schemas@ == schemas@ && final(self).tables@ == tables@
                    && final(self).databases@ == old(self).databases@ && final(self).last_refreshed == Some(now_ms),
                Action::CachedColumnsRefreshed => r matches Some(Action::Render) && *final(self) == *old(self),
                Action::CatalogError(msg) => r matches Some(Action::Render) && (final(self).error matches Some(e)
                    && e@ == msg@) && !final(self).loading && final(self).databases@ == old(self).databases@
                    && final(self).tables@ == old(self).tables@,
                Action::DatabaseCatalogLoaded { db, schemas, tables } => r matches Some(Action::Render)
                    && schema_views(final(self).schemas@) == schemas_not_of(schema_views(old(self).schemas@), db@)
                    + schema_views(schemas@) && table_views(final(self).tables@) == tables_not_of(
                    table_views(old(self).tables@),
                    db@,
                ) + table_views(tables@) && final(self).databases@ == old(self).databases@
                    && final(self).last_refreshed == Some(now_ms),
                _ => r is None && *final(self) == *old(self),
            },
    {
        match action {
            Action::CatalogLoaded(dbs, schemas, tables, updated_at) => {
                self.set_catalog(dbs, schemas, tables, updated_at, now_ms);
                Some(Action::Render)
            },
            Action::DatabasesLoaded(dbs) => {
                self.databases = dbs;
                self.loading = false;
                self.error = None;
                Some(Action::Render)
            },
            Action::ObjectsLoaded(schemas, tables) => {
                self.schemas = schemas;
                self.tables = tables;
                self.last_refreshed = Some(now_ms);
                Some(Action::Render)
            },
            Action::CachedColumnsRefreshed => Some(Action::Render),
            Action::CatalogError(msg) => {
                self.set_error(msg);
                Some(Action::Render)
            },
            Action::DatabaseCatalogLoaded { db, schemas, tables } => {
                let mut kept_schemas = keep_other_schemas(&self.schemas, db.as_str());
                let mut kept_tables = keep_other_tables(&self.tables, db.as_str());
                let mut schemas = schemas;
                let mut tables = tables;
                let ghost ks = kept_schemas@;
                let ghost ns = schemas@;
                let ghost kt = kept_tables@;
                let ghost nt = tables@;
                kept_schemas.append(&mut schemas);
                kept_tables.append(&mut tables);
                assert(schema_views(kept_schemas@) =~= schema_views(ks) + schema_views(ns));
                assert(table_views(kept_tables@) =~= table_views(kt) + table_views(nt));
                self.schemas = kept_schemas;
                self.tables = kept_tables;
                self.last_refreshed = Some(now_ms);
                Some(Action::Render)
            },
            _ => None,
        }
    }
}

} // verus!
