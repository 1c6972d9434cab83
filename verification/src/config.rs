//! The Snowflake connections the user has configured, the connection that
//! is used when none is named, and the arguments of the `snow` command line.

use vstd::prelude::*;
use crate::parser::opt_view;
use crate::text::{concat, seq_lt, str_eq, str_to_string};

verus! {

/// The details of one configured connection.
#[derive(Debug, Clone)]
pub struct SnowflakeConnection {
    pub account: Option<String>,
    pub user: Option<String>,
    pub warehouse: Option<String>,
    pub database: Option<String>,
    pub role: Option<String>,
    pub schema: Option<String>,
}

/// The configured connections, by name (names distinct), and the name of
/// the default one.
#[derive(Debug, Clone)]
pub struct SnowflakeConfig {
    pub default_connection_name: Option<String>,
    pub connections: Vec<(String, SnowflakeConnection)>,
}

/// The application's configuration: the Snowflake configuration if one was
/// found, the connection to use, and the paths of the log, the cache and
/// the application's directory.
#[derive(Debug, Clone)]
pub struct AppConfig {
    pub snowflake: Option<SnowflakeConfig>,
    pub connection_name: Option<String>,
    pub log_path: String,
    pub cache_dir: String,
    pub app_dir: String,
}

/// The names are distinct.
pub open spec fn names_distinct(names: Seq<Seq<char>>) -> bool {
    forall|i: int, j: int| 0 <= i < j < names.len() ==> #[trigger] names[i] != #[trigger] names[j]
}

/// The names are in strictly increasing order.
pub open spec fn names_sorted(names: Seq<Seq<char>>) -> bool {
    forall|i: int, j: int| 0 <= i < j < names.len() ==> seq_lt(#[trigger] names[i], #[trigger] names[j])
}

/// The views of a list of strings.
pub open spec fn strings_view(v: Seq<String>) -> Seq<Seq<char>> {
    v.map_values(|s: String| s@)
}

pub proof fn lemma_sorted_insert(v: Seq<Seq<char>>, p: int, x: Seq<char>)
    requires
        names_sorted(v),
        0 <= p <= v.len(),
        forall|a: int| 0 <= a < p ==> seq_lt(#[trigger] v[a], x),
        forall|a: int| p <= a < v.len() ==> seq_lt(x, #[trigger] v[a]),
    ensures
        names_sorted(v.insert(p, x)),
{
    let nv = v.insert(p, x);
    assert forall|a: int, b: int| 0 <= a < b < nv.len() implies seq_lt(#[trigger] nv[a], #[trigger] nv[b]) by {
        if b < p {
            assert(nv[a] == v[a] && nv[b] == v[b]);
        } else if b == p {
            assert(nv[a] == v[a]);
        } else if a < p {
            assert(nv[a] == v[a] && nv[b] == v[b - 1]);
            crate::text::lemma_seq_lt_transitive(v[a], x, v[b - 1]);
        } else if a == p {
            assert(nv[b] == v[b - 1]);
        } else {
            assert(nv[a] == v[a - 1] && nv[b] == v[b - 1]);
        }
    }
}

/// Sorts distinct names into increasing order.
pub fn sort_names(names: Vec<String>) -> (r: Vec<String>)
    requires
        names_distinct(strings_view(names@)),
    ensures
        names_sorted(strings_view(r@)),
        r@.len() == names@.len(),
        forall|e: Seq<char>| strings_view(r@).contains(e) <==> strings_view(names@).contains(e),
{
    let ghost input = strings_view(names@);
    let mut out: Vec<String> = Vec::new();
    let mut i: usize = 0;
    while i < names.len()
        invariant
            i <= names@.len(),
            input == strings_view(names@),
            names_distinct(input),
            names_sorted(strings_view(out@)),
            out@.len() == i,
            forall|e: Seq<char>| strings_view(out@).contains(e) <==> input.take(i as int).contains(e),
        decreases names@.len() - i,
    {
        let x = names[i].clone();
        let ghost ov = strings_view(out@);
        let mut p: usize = 0;
        while p < out.len() && crate::text::str_lt(out[p].as_str(), x.as_str())
            invariant
                p <= out@.len(),
                ov == strings_view(out@),
                forall|a: int| 0 <= a < p ==> seq_lt(#[trigger] ov[a], x@),
            decreases out@.len() - p,
        {
            p += 1;
        }
        proof {
            assert(x@ == input[i as int]);
            assert(!input.take(i as int).contains(x@)) by {
                if input.take(i as int).contains(x@) {
                    let k = choose|k: int| 0 <= k < input.take(i as int).len() && #[trigger] input.take(i as int)[k] == x@;
                    assert(input[k] == input[i as int]);
                }
            }
            assert forall|a: int| p <= a < ov.len() implies seq_lt(x@, #[trigger] ov[a]) by {
                assert(ov.contains(ov[a]));
                assert(ov[a] != x@);
                crate::text::lemma_seq_lt_total(x@, ov[a]);
                if seq_lt(ov[a], x@) {
                    if a > p {
                        crate::text::lemma_seq_lt_transitive(ov[p as int], ov[a], x@);
                    }
                }
                crate::text::lemma_seq_lt_irreflexive(x@);
            }
            lemma_sorted_insert(ov, p as int, x@);
        }
        out.insert(p, x);
        proof {
            let nv = strings_view(out@);
            assert(nv =~= ov.insert(p as int, input[i as int]));
            assert(input.take(i + 1) =~= input.take(i as int).push(input[i as int]));
            assert forall|e: Seq<char>| nv.contains(e) implies input.take(i + 1).contains(e) by {
                let k = choose|k: int| 0 <= k < nv.len() && #[trigger] nv[k] == e;
                if k < p {
                    assert(ov.contains(ov[k]));
                    let m = choose|m: int| 0 <= m < input.take(i as int).len() && #[trigger] input.take(i as int)[m] == e;
                    assert(input.take(i + 1)[m] == e);
                } else if k > p {
                    assert(ov.contains(ov[k - 1]));
                    let m = choose|m: int| 0 <= m < input.take(i as int).len() && #[trigger] input.take(i as int)[m] == e;
                    assert(input.take(i + 1)[m] == e);
                } else {
                    assert(input.take(i + 1)[i as int] == e);
                }
            }
            assert forall|e: Seq<char>| input.take(i + 1).contains(e) implies nv.contains(e) by {
                let k = choose|k: int| 0 <= k < input.take(i + 1).len() && #[trigger] input.take(i + 1)[k] == e;
                if k < i {
                    assert(input.take(i as int)[k] == e);
                    assert(input.take(i as int).contains(e));
                    assert(ov.contains(e));
                    let m = choose|m: int| 0 <= m < ov.len() && #[trigger] ov[m] == e;
                    if m < p {
                        assert(nv[m] == e);
                    } else {
                        assert(nv[m + 1] == e);
                    }
                } else {
                    assert(nv[p as int] == e);
                }
            }
        }
        i += 1;
    }
    assert(input.take(names@.len() as int) =~= input);
    out
}

/// The number of names that come before `x`.
pub open spec fn count_below(s: Seq<Seq<char>>, x: Seq<char>) -> nat
    decreases s.len(),
{
    if s.len() == 0 {
        0
    } else {
        count_below(s.drop_last(), x) + if seq_lt(s.last(), x) {
            1nat
        } else {
            0nat
        }
    }
}

/// Sorted names with `x` added in its place, unless it is there already.
pub open spec fn insert_name(s: Seq<Seq<char>>, x: Seq<char>) -> Seq<Seq<char>> {
    let p = count_below(s, x) as int;
    if p < s.len() && s[p] == x {
        s
    } else {
        s.insert(p, x)
    }
}

/// The distinct names of a list, sorted.
pub open spec fn sorted_distinct(xs: Seq<Seq<char>>) -> Seq<Seq<char>>
    decreases xs.len(),
{
    if xs.len() == 0 {
        Seq::empty()
    } else {
        insert_name(sorted_distinct(xs.drop_last()), xs.last())
    }
}

proof fn lemma_count_below_split(s: Seq<Seq<char>>, x: Seq<char>, p: int)
    requires
        0 <= p <= s.len(),
        forall|a: int| 0 <= a < p ==> seq_lt(#[trigger] s[a], x),
        forall|a: int| p <= a < s.len() ==> !seq_lt(#[trigger] s[a], x),
    ensures
        count_below(s, x) == p,
    decreases s.len(),
{
    if s.len() > 0 {
        let init = s.drop_last();
        if p == s.len() {
            assert forall|a: int| 0 <= a < init.len() implies seq_lt(#[trigger] init[a], x) by {
                assert(init[a] == s[a]);
            }
            lemma_count_below_split(init, x, p - 1);
            assert(seq_lt(s[s.len() - 1], x));
        } else {
            assert forall|a: int| 0 <= a < p implies seq_lt(#[trigger] init[a], x) by {
                assert(init[a] == s[a]);
            }
            assert forall|a: int| p <= a < init.len() implies !seq_lt(#[trigger] init[a], x) by {
                assert(init[a] == s[a]);
            }
            lemma_count_below_split(init, x, p);
            assert(!seq_lt(s[s.len() - 1], x));
        }
    }
}

/// Adds a name to sorted names in its place, unless it is there already.
pub fn insert_sorted(v: &mut Vec<String>, x: &str)
    requires
        names_sorted(strings_view(old(v)@)),
    ensures
        names_sorted(strings_view(final(v)@)),
        strings_view(final(v)@) == insert_name(strings_view(old(v)@), x@),
{
    let ghost ov = strings_view(v@);
    let mut p: usize = 0;
    while p < v.len() && crate::text::str_lt(v[p].as_str(), x)
        invariant
            p <= v@.len(),
            ov == strings_view(v@),
            forall|a: int| 0 <= a < p ==> seq_lt(#[trigger] ov[a], x@),
        decreases v@.len() - p,
    {
        p += 1;
    }
    proof {
        assert forall|a: int| p <= a < ov.len() implies !seq_lt(#[trigger] ov[a], x@) by {
            if a > p {
                assert(seq_lt(ov[p as int], ov[a]));
                if seq_lt(ov[a], x@) {
                    crate::text::lemma_seq_lt_transitive(ov[p as int], ov[a], x@);
                }
            }
        }
        lemma_count_below_split(ov, x@, p as int);
    }
    if p < v.len() && str_eq(v[p].as_str(), x) {
        return;
    }
    proof {
        assert forall|a: int| p <= a < ov.len() implies seq_lt(x@, #[trigger] ov[a]) by {
            crate::text::lemma_seq_lt_total(x@, ov[a]);
            if a > p {
                assert(seq_lt(ov[p as int], ov[a]));
                crate::text::lemma_seq_lt_total(x@, ov[p as int]);
                if seq_lt(x@, ov[p as int]) {
                    crate::text::lemma_seq_lt_transitive(x@, ov[p as int], ov[a]);
                }
            }
        }
        lemma_sorted_insert(ov, p as int, x@);
    }
    v.insert(p, str_to_string(x));
    assert(strings_view(v@) =~= ov.insert(p as int, x@));
}

/// The connection used when none is named: the configured default, or
/// else the one named `default`, or else the first name in order.
pub open spec fn spec_resolve_connection(default: Option<Seq<char>>, sorted_names: Seq<Seq<char>>) -> Option<Seq<char>> {
    match default {
        Some(d) => Some(d),
        None => if sorted_names.contains("default"@) {
            Some("default"@)
        } else if sorted_names.len() > 0 {
            Some(sorted_names[0])
        } else {
            None
        },
    }
}

/// Picks the connection used when none is named, from the default name and
/// the configured names in order.
pub fn resolve_connection(default: Option<String>, sorted_names: &Vec<String>) -> (r: Option<String>)
    ensures
        opt_view(r) == spec_resolve_connection(opt_view(default), strings_view(sorted_names@)),
{
    match default {
        Some(d) => Some(d),
        None => {
            let mut i: usize = 0;
            while i < sorted_names.len()
                invariant
                    i <= sorted_names@.len(),
                    default is None,
                    forall|j: int| 0 <= j < i ==> (#[trigger] sorted_names@[j])@ != "default"@,
                decreases sorted_names@.len() - i,
            {
                if str_eq(sorted_names[i].as_str(), "default") {
                    proof {
                        assert(strings_view(sorted_names@)[i as int] == "default"@);
                        assert(strings_view(sorted_names@).contains("default"@));
                    }
                    return Some(sorted_names[i].clone());
                }
                i += 1;
            }
            proof {
                assert(!strings_view(sorted_names@).contains("default"@)) by {
                    if strings_view(sorted_names@).contains("default"@) {
                        let k = choose|k: int| 0 <= k < sorted_names@.len() && strings_view(sorted_names@)[k] == "default"@;
                        assert(sorted_names@[k]@ == "default"@);
                    }
                }
            }
            if sorted_names.len() > 0 {
                Some(sorted_names[0].clone())
            } else {
                None
            }
        },
    }
}

/// The names of the configured connections.
pub fn connection_names(config: &SnowflakeConfig) -> (r: Vec<String>)
    ensures
        r@.len() == config.connections@.len(),
        forall|i: int| 0 <= i < r@.len() ==> (#[trigger] r@[i])@ == config.connections@[i].0@,
{
    let mut out: Vec<String> = Vec::new();
    let mut i: usize = 0;
    while i < config.connections.len()
        invariant
            i <= config.connections@.len(),
            out@.len() == i,
            forall|j: int| 0 <= j < i ==> (#[trigger] out@[j])@ == config.connections@[j].0@,
        decreases config.connections@.len() - i,
    {
        out.push(config.connections[i].0.clone());
        i += 1;
    }
    out
}

/// The connection names of a configuration are distinct.
pub open spec fn config_wf(config: SnowflakeConfig) -> bool {
    names_distinct(config.connections@.map_values(|c: (String, SnowflakeConnection)| c.0@))
}

/// The connection the application uses when a Snowflake configuration was
/// found: its default, or else the connection named `default`, or else the
/// first connection by name.
pub fn default_connection_name(config: &SnowflakeConfig) -> (r: Option<String>)
    requires
        config_wf(*config),
    ensures
        config.default_connection_name is Some ==> opt_view(r) == opt_view(config.default_connection_name),
        config.default_connection_name is None && config.connections@.len() == 0 ==> r is None,
        config.default_connection_name is None ==> match r {
            Some(n) => exists|i: int| 0 <= i < config.connections@.len() && (#[trigger] config.connections@[i]).0@ == n@,
            None => config.connections@.len() == 0,
        },
        config.default_connection_name is None && (exists|i: int| 0 <= i < config.connections@.len() && (#[trigger] config.connections@[i]).0@ == "default"@)
            ==> opt_view(r) == Some("default"@),
        config.default_connection_name is None && r is Some && r.unwrap()@ != "default"@ ==> forall|i: int|
            0 <= i < config.connections@.len() ==> !seq_lt((#[trigger] config.connections@[i]).0@, r.unwrap()@),
{
    let names = connection_names(config);
    let ghost nv = strings_view(names@);
    assert(nv =~= config.connections@.map_values(|c: (String, SnowflakeConnection)| c.0@));
    let sorted = sort_names(names);
    let default = match &config.default_connection_name {
        Some(d) => Some(d.clone()),
        None => None,
    };
    let r = resolve_connection(default, &sorted);
    proof {
        let sv = strings_view(sorted@);
        assert forall|i: int| 0 <= i < config.connections@.len() implies sv.contains(#[trigger] config.connections@[i].0@) by {
            assert(nv[i] == config.connections@[i].0@);
            assert(nv.contains(nv[i]));
        }
        if sv.len() > 0 {
            assert(sv.contains(sv[0]));
            assert(nv.contains(sv[0]));
            let k = choose|k: int| 0 <= k < nv.len() && #[trigger] nv[k] == sv[0];
            assert(config.connections@[k].0@ == sv[0]);
            assert forall|i: int| 0 <= i < config.connections@.len() implies !seq_lt((#[trigger] config.connections@[i]).0@, sv[0]) by {
                let e = config.connections@[i].0@;
                assert(sv.contains(e));
                let m = choose|m: int| 0 <= m < sv.len() && #[trigger] sv[m] == e;
                if m > 0 {
                    assert(seq_lt(sv[0], sv[m]));
                    crate::text::lemma_seq_lt_total(sv[0], e);
                    if seq_lt(e, sv[0]) {
                        crate::text::lemma_seq_lt_transitive(sv[0], e, sv[0]);
                        crate::text::lemma_seq_lt_irreflexive(sv[0]);
                    }
                } else {
                    crate::text::lemma_seq_lt_irreflexive(sv[0]);
                }
            }
        }
        if config.default_connection_name is None {
            if exists|i: int| 0 <= i < config.connections@.len() && (#[trigger] config.connections@[i]).0@ == "default"@ {
                let i = choose|i: int| 0 <= i < config.connections@.len() && (#[trigger] config.connections@[i]).0@ == "default"@;
                assert(sv.contains("default"@));
            }
            if sv.contains("default"@) {
                assert(nv.contains("default"@));
                let k = choose|k: int| 0 <= k < nv.len() && #[trigger] nv[k] == "default"@;
                assert(config.connections@[k].0@ == "default"@);
            }
        }
    }
    r
}

/// The connection the `snow` command line is run with.
#[derive(Debug, Clone)]
pub struct ConnectionConfig {
    pub connection_name: Option<String>,
}

/// The arguments every `snow` call starts with: run SQL with JSON output,
/// silently and with exit codes that tell errors apart, on the named
/// connection when there is one.
pub open spec fn spec_base_args(connection_name: Option<Seq<char>>) -> Seq<Seq<char>> {
    let base = seq!["sql"@, "--format"@, "JSON_EXT"@, "--silent"@, "--enhanced-exit-codes"@];
    match connection_name {
        Some(c) => base + seq!["-c"@, c],
        None => base,
    }
}

impl ConnectionConfig {
    pub fn from_app_config(config: &AppConfig) -> (r: Self)
        ensures
            opt_view(r.connection_name) == opt_view(config.connection_name),
    {
        ConnectionConfig { connection_name: crate::parser::clone_opt_string(&config.connection_name) }
    }

    /// Build the base snow CLI args.
    pub fn base_args(&self) -> (r: Vec<String>)
        ensures
            strings_view(r@) == spec_base_args(opt_view(self.connection_name)),
    {
        let mut args: Vec<String> = Vec::new();
        args.push(str_to_string("sql"));
        args.push(str_to_string("--format"));
        args.push(str_to_string("JSON_EXT"));
        args.push(str_to_string("--silent"));
        args.push(str_to_string("--enhanced-exit-codes"));
        match &self.connection_name {
            Some(conn) => {
                args.push(str_to_string("-c"));
                args.push(conn.clone());
            },
            None => {},
        }
        assert(strings_view(args@) =~= spec_base_args(opt_view(self.connection_name)));
        args
    }

    /// The arguments of a `snow` call that runs `query`.
    pub fn query_args(&self, query: &str) -> (r: Vec<String>)
        ensures
            strings_view(r@) == spec_base_args(opt_view(self.connection_name)) + seq!["-q"@, query@],
    {
        let mut args = self.base_args();
        let ghost before = strings_view(args@);
        args.push(str_to_string("-q"));
        args.push(str_to_string(query));
        assert(strings_view(args@) =~= before + seq!["-q"@, query@]);
        args
    }
}

/// The statement that describes the columns of a table.
pub open spec fn spec_describe_table(db: Seq<char>, schema: Seq<char>, table: Seq<char>) -> Seq<char> {
    "DESCRIBE TABLE \""@ + db + "\".\""@ + schema + "\".\""@ + table + "\""@
}

/// The statement that describes the columns of a table.
pub fn describe_table_query(db: &str, schema: &str, table: &str) -> (r: String)
    ensures
        r@ == spec_describe_table(db@, schema@, table@),
{
    let a = concat("DESCRIBE TABLE \"", db);
    let b = concat(a.as_str(), "\".\"");
    let c = concat(b.as_str(), schema);
    let d = concat(c.as_str(), "\".\"");
    let e = concat(d.as_str(), table);
    concat(e.as_str(), "\"")
}

/// The head of the catalog query, up to the database name.
pub open spec fn catalog_query_head() -> Seq<char> {
    "SELECT\n    c.TABLE_CATALOG AS database_name,\n    c.TABLE_SCHEMA AS schema_name,\n    t.TABLE_TYPE,\n    c.TABLE_NAME,\n    c.COLUMN_NAME,\n    c.ORDINAL_POSITION,\n    c.DATA_TYPE,\n    c.IS_NULLABLE,\n    t.ROW_COUNT,\n    t.BYTES,\n    t.CREATED,\n    t.CLUSTERING_KEY,\n    t.AUTO_CLUSTERING_ON,\n    t.COMMENT,\n    t.TABLE_OWNER\nFROM \""@
}

/// The statement that lists every column of every table of a database with
/// the metadata of its table, ordered by schema, table and position.
pub open spec fn spec_catalog_query(db: Seq<char>) -> Seq<char> {
    catalog_query_head() + db + "\".INFORMATION_SCHEMA.COLUMNS c\nJOIN \""@ + db
        + "\".INFORMATION_SCHEMA.TABLES t\n    ON c.TABLE_SCHEMA = t.TABLE_SCHEMA\n    AND c.TABLE_NAME = t.TABLE_NAME\nORDER BY c.TABLE_SCHEMA, c.TABLE_NAME, c.ORDINAL_POSITION"@
}

/// The statement that lists the columns of every table of a database.
pub fn catalog_query(db: &str) -> (r: String)
    ensures
        r@ == spec_catalog_query(db@),
{
    let a = concat(
        "SELECT\n    c.TABLE_CATALOG AS database_name,\n    c.TABLE_SCHEMA AS schema_name,\n    t.TABLE_TYPE,\n    c.TABLE_NAME,\n    c.COLUMN_NAME,\n    c.ORDINAL_POSITION,\n    c.DATA_TYPE,\n    c.IS_NULLABLE,\n    t.ROW_COUNT,\n    t.BYTES,\n    t.CREATED,\n    t.CLUSTERING_KEY,\n    t.AUTO_CLUSTERING_ON,\n    t.COMMENT,\n    t.TABLE_OWNER\nFROM \"",
        db,
    );
    let b = concat(a.as_str(), "\".INFORMATION_SCHEMA.COLUMNS c\nJOIN \"");
    let c = concat(b.as_str(), db);
    concat(
        c.as_str(),
        "\".INFORMATION_SCHEMA.TABLES t\n    ON c.TABLE_SCHEMA = t.TABLE_SCHEMA\n    AND c.TABLE_NAME = t.TABLE_NAME\nORDER BY c.TABLE_SCHEMA, c.TABLE_NAME, c.ORDINAL_POSITION",
    )
}

} // verus!
