//! The actions that components raise and the application carries out.

use vstd::prelude::*;
use crate::nav::Mode;
use crate::parser::{Column, Database, QueryResult, Schema, Table};
use crate::store::QueryHistoryEntry;
use crate::theme::ThemeConfig;

verus! {

/// Something for the application to do.
#[derive(Debug, Clone)]
pub enum Action {
    SwitchMode(Mode),
    Quit,
    ShowQuitDialog,
    HideQuitDialog,
    HeartbeatResult(bool),
    /// Databases, schemas and tables of the catalog, and when it was last
    /// refreshed (milliseconds since the epoch).
    CatalogLoaded(Vec<Database>, Vec<Schema>, Vec<Table>, Option<i64>),
    ColumnsLoaded { db: String, schema: String, table: String, columns: Vec<Column> },
    PreviewLoaded { db: String, schema: String, table: String, result: QueryResult },
    ExecuteQuery(String),
    QueryResultData(QueryResult),
    QueryError(String),
    ShowQueryHistory,
    LoadQueryFromHistory(String),
    ExportResults,
    StatusMessage(String),
    ClearStatus,
    SetQueryHistory(Vec<QueryHistoryEntry>),
    RefreshCatalog,
    LoadColumns { db: String, schema: String, table: String },
    RefreshColumns { db: String, schema: String, table: String },
    LoadPreview { db: String, schema: String, table: String },
    DatabasesLoaded(Vec<Database>),
    ObjectsLoaded(Vec<Schema>, Vec<Table>),
    CachedColumnsRefreshed,
    CatalogError(String),
    ColumnsError { db: String, schema: String, table: String, error: String },
    PreviewError { db: String, schema: String, table: String, error: String },
    ApplyOverrides { connection_name: Option<String> },
    ClearCache,
    CacheClearDone,
    CreateTask { source: String, name: String },
    CompleteTask(usize),
    ToggleBackgroundTasks,
    SaveQueryToHistory,
    ToggleSavedQueries,
    LoadSavedQuery { id: usize, sql: String },
    PersistSavedQueries,
    DatabaseCatalogLoaded { db: String, schemas: Vec<Schema>, tables: Vec<Table> },
    NvimReady,
    NvimExited(String),
    NvimRpcConnected,
    SetEditorContent(String),
    PushCatalogToNvim(String),
    NewQuery,
    Render,
    /// Nothing to do.
    NoOp,
    SaveTheme(Box<ThemeConfig>),
    ResetTheme,
    ThemeSaved,
}

} // verus!
