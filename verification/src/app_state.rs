//! The application's state between events: the mode shown, where the
//! keyboard is, the overlays, the background tasks and the three modes;
//! where a key goes, and what an action does to the state. The editor
//! process, the drawn charts and all input and output are the caller's.

use vstd::prelude::*;
use crate::action::Action;
use crate::bars::{QuitDialog, TopBar};
use crate::chart::{ChartTab, tab_content};
use crate::editor::EditorLifecycle;
use crate::explore::{ExploreState, explore_update_post};
use crate::search::FuzzySearch;
use crate::history::SavedQueriesPane;
use crate::store::{SaveOutcome, save_post};
use crate::keys::{KeyCode, KeyEvent};
use crate::nav::{ExploreFocus, Focus, Mode, SubPanes, subpane_count, subpane_index};
use crate::query_pane::{QueryFocus, QueryPaneState, query_update_post};
use crate::settings::{SettingsFocus, SettingsPane, settings_update_post};
use crate::tasks::{BackgroundTaskManager, BackgroundTasksPane, TaskStatus, count_matching};
use crate::theme::ThemeConfig;
use crate::text::str_eq;

verus! {

/// The source of the catalog refresh tasks.
pub open spec fn refresh_source() -> Seq<char> {
    "Catalog Refresh"@
}

/// Where a key goes.
#[derive(Debug, Clone, Copy, PartialEq, Eq, Structural)]
pub enum KeyRoute {
    /// The quit dialog takes every key.
    QuitDialog,
    /// The background tasks overlay takes every key.
    BackgroundTasks,
    /// The saved queries overlay takes every key.
    SavedQueries,
    /// Ctrl-D: ask whether to quit.
    ShowQuitDialog,
    /// Ctrl-B: show or hide the background tasks.
    ToggleBackgroundTasks,
    /// Ctrl-L in the query mode: show or hide the saved queries.
    ToggleSavedQueries,
    /// Tab on the top bar: into the mode's first sub-pane.
    TabFromTopBar,
    /// Tab in the mode: offered to the mode first, then to the next sub-pane.
    TabInContent,
    /// Shift-Tab: back to the previous sub-pane, or up to the top bar.
    BackTab,
    /// Esc in the mode: offered to the mode first, then up to the top bar.
    EscInContent,
    /// Esc or Enter on the top bar: back into the mode.
    ToContent,
    /// Any other key on the top bar.
    TopBar,
    /// Any other key in the mode.
    Component,
}

/// The application state.
pub struct App {
    pub mode: Mode,
    pub focus: Focus,
    /// Whether the connection answered: unknown until the first check.
    pub connected: Option<bool>,
    pub running: bool,
    pub top_bar: TopBar,
    pub quit_dialog: QuitDialog,
    pub explore: ExploreState,
    pub query: QueryPaneState,
    pub settings: SettingsPane,
    pub editor: EditorLifecycle,
    pub task_manager: BackgroundTaskManager,
    pub background_tasks_pane: BackgroundTasksPane,
    pub saved_queries_pane: SavedQueriesPane,
    /// The saved query loaded in the editor, if any.
    pub loaded_saved_query_id: Option<usize>,
}

/// Where the route of a key is decided.
pub open spec fn key_route(app: App, key: KeyEvent) -> KeyRoute {
    let ctrl = key.modifiers.control;
    let code = key.code;
    if app.quit_dialog.visible {
        KeyRoute::QuitDialog
    } else if app.background_tasks_pane.visible {
        KeyRoute::BackgroundTasks
    } else if app.saved_queries_pane.visible {
        KeyRoute::SavedQueries
    } else if ctrl && code == KeyCode::Char('d') {
        KeyRoute::ShowQuitDialog
    } else if ctrl && code == KeyCode::Char('b') {
        KeyRoute::ToggleBackgroundTasks
    } else if ctrl && code == KeyCode::Char('l') && app.mode == Mode::Query {
        KeyRoute::ToggleSavedQueries
    } else if code == KeyCode::Tab && !key.modifiers.shift {
        if app.focus == Focus::TopBar {
            KeyRoute::TabFromTopBar
        } else {
            KeyRoute::TabInContent
        }
    } else if code == KeyCode::BackTab {
        KeyRoute::BackTab
    } else if code == KeyCode::Esc {
        if app.focus == Focus::ModeContent {
            KeyRoute::EscInContent
        } else {
            KeyRoute::ToContent
        }
    } else if app.focus == Focus::TopBar && code == KeyCode::Enter {
        KeyRoute::ToContent
    } else if app.focus == Focus::TopBar {
        KeyRoute::TopBar
    } else {
        KeyRoute::Component
    }
}

/// The focused sub-pane of each mode.
pub open spec fn subpanes_of(app: App) -> SubPanes {
    SubPanes { explore: app.explore.focus, query: app.query.focus, settings: app.settings.focus }
}

/// The modes other than the one shown keep their state.
pub open spec fn others_unchanged(a: App, b: App, mode: Mode) -> bool {
    &&& mode != Mode::Explore ==> b.explore == a.explore
    &&& mode != Mode::Query ==> b.query == a.query
    &&& mode != Mode::Settings ==> b.settings == a.settings
}

/// `k` is the position of the first saved query with id `id`.
pub open spec fn first_with_id(queries: Seq<crate::store::SavedQuery>, id: usize, k: int) -> bool {
    0 <= k < queries.len() && queries[k].id == id && forall|j: int| 0 <= j < k ==> (#[trigger] queries[j]).id != id
}

/// The chart tabs of the first saved query with id `id`, with its position.
fn saved_charts(queries: &Vec<crate::store::SavedQuery>, id: usize) -> (r: Option<(usize, Vec<ChartTab>)>)
    ensures
        match r {
            Some((k, tabs)) => first_with_id(queries@, id, k as int) && tabs@.len() == queries@[k as int].charts@.len()
                && forall|c: int| 0 <= c < tabs@.len() ==> tab_content(#[trigger] tabs@[c]) == tab_content(queries@[k as int].charts@[c]),
            None => forall|j: int| 0 <= j < queries@.len() ==> (#[trigger] queries@[j]).id != id,
        },
{
    let mut i: usize = 0;
    while i < queries.len()
        invariant
            i <= queries@.len(),
            forall|j: int| 0 <= j < i ==> (#[trigger] queries@[j]).id != id,
        decreases queries@.len() - i,
    {
        if queries[i].id == id {
            return Some((i, clone_tabs(&queries[i].charts)));
        }
        i += 1;
    }
    None
}

/// Copies chart tabs.
fn clone_tabs(v: &Vec<ChartTab>) -> (r: Vec<ChartTab>)
    ensures
        r@.len() == v@.len(),
        forall|i: int| 0 <= i < v@.len() ==> tab_content(#[trigger] r@[i]) == tab_content(v@[i]),
{
    let mut out: Vec<ChartTab> = Vec::new();
    let mut i: usize = 0;
    while i < v.len()
        invariant
            i <= v@.len(),
            out@.len() == i,
            forall|k: int| 0 <= k < i ==> tab_content(#[trigger] out@[k]) == tab_content(v@[k]),
        decreases v@.len() - i,
    {
        out.push(v[i].clone());
        i += 1;
    }
    out
}

impl App {
    /// The parts hold together.
    pub open spec fn wf(&self) -> bool {
        &&& self.explore.wf()
        &&& self.query.wf()
        &&& self.settings.wf()
        &&& self.task_manager.wf()
        &&& self.saved_queries_pane.wf()
    }

    /// The application as it starts: the explore mode, the top bar
    /// focused, the connection not yet checked.
    pub fn new(nvim_available: bool) -> (r: Self)
        ensures
            r.wf(),
            r.mode == Mode::Explore,
            r.focus == Focus::TopBar,
            r.connected is None,
            r.running,
            r.top_bar.focused,
            !r.quit_dialog.visible,
            !r.background_tasks_pane.visible,
            !r.saved_queries_pane.visible,
            r.loaded_saved_query_id is None,
    {
        App {
            mode: Mode::Explore,
            focus: Focus::TopBar,
            connected: None,
            running: true,
            top_bar: TopBar::new(),
            quit_dialog: QuitDialog::new(),
            explore: ExploreState::new(),
            query: QueryPaneState::new(nvim_available),
            settings: SettingsPane::new(),
            editor: EditorLifecycle::new(),
            task_manager: BackgroundTaskManager::new(),
            background_tasks_pane: BackgroundTasksPane::new(),
            saved_queries_pane: SavedQueriesPane::new(),
            loaded_saved_query_id: None,
        }
    }

    /// Where a key goes: an open overlay takes it, then the global
    /// shortcuts, Tab, Shift-Tab and Esc move between the top bar and the
    /// mode's sub-panes, Enter on the top bar goes into the mode, and other
    /// keys go to the top bar or the mode, whichever has the keyboard.
    pub fn route_key(&self, key: KeyEvent) -> (r: KeyRoute)
        ensures
            r == key_route(*self, key),
    {
        let ctrl = key.modifiers.control;
        let code = key.code;
        if self.quit_dialog.visible {
            KeyRoute::QuitDialog
        } else if self.background_tasks_pane.visible {
            KeyRoute::BackgroundTasks
        } else if self.saved_queries_pane.visible {
            KeyRoute::SavedQueries
        } else if ctrl && code == KeyCode::Char('d') {
            KeyRoute::ShowQuitDialog
        } else if ctrl && code == KeyCode::Char('b') {
            KeyRoute::ToggleBackgroundTasks
        } else if ctrl && code == KeyCode::Char('l') && self.mode == Mode::Query {
            KeyRoute::ToggleSavedQueries
        } else if code == KeyCode::Tab && !key.modifiers.shift {
            if self.focus == Focus::TopBar {
                KeyRoute::TabFromTopBar
            } else {
                KeyRoute::TabInContent
            }
        } else if code == KeyCode::BackTab {
            KeyRoute::BackTab
        } else if code == KeyCode::Esc {
            if self.focus == Focus::ModeContent {
                KeyRoute::EscInContent
            } else {
                KeyRoute::ToContent
            }
        } else if self.focus == Focus::TopBar && code == KeyCode::Enter {
            KeyRoute::ToContent
        } else if self.focus == Focus::TopBar {
            KeyRoute::TopBar
        } else {
            KeyRoute::Component
        }
    }

    /// Focuses the first sub-pane of the mode shown.
    pub fn set_first_subpane(&mut self)
        requires
            old(self).wf(),
        ensures
            final(self).wf(),
            subpane_index(final(self).mode, subpanes_of(*final(self))) == 0,
            final(self).mode == old(self).mode,
            final(self).focus == old(self).focus,
            final(self).top_bar == old(self).top_bar,
            final(self).running == old(self).running,
            final(self).connected == old(self).connected,
            final(self).quit_dialog == old(self).quit_dialog,
            final(self).loaded_saved_query_id == old(self).loaded_saved_query_id,
            final(self).task_manager == old(self).task_manager,
            final(self).background_tasks_pane == old(self).background_tasks_pane,
            final(self).saved_queries_pane == old(self).saved_queries_pane,
    {
        match self.mode {
            Mode::Explore => {
                self.explore.app_focused = true;
                self.explore.focus = ExploreFocus::Tree;
            },
            Mode::Query => {
                self.query.app_focused = true;
                self.query.set_focus_editor();
            },
            Mode::Settings => {
                self.settings.app_focused = true;
                self.settings.focus = SettingsFocus::Connection;
            },
        }
    }

    /// Focuses the last sub-pane of the mode shown.
    pub fn set_last_subpane(&mut self)
        requires
            old(self).wf(),
        ensures
            final(self).wf(),
            subpane_index(final(self).mode, subpanes_of(*final(self))) == subpane_count(final(self).mode) - 1,
            final(self).mode == old(self).mode,
            final(self).focus == old(self).focus,
            final(self).top_bar == old(self).top_bar,
            final(self).running == old(self).running,
            final(self).connected == old(self).connected,
            final(self).quit_dialog == old(self).quit_dialog,
            final(self).loaded_saved_query_id == old(self).loaded_saved_query_id,
            final(self).task_manager == old(self).task_manager,
            final(self).background_tasks_pane == old(self).background_tasks_pane,
            final(self).saved_queries_pane == old(self).saved_queries_pane,
    {
        match self.mode {
            Mode::Explore => {
                self.explore.app_focused = true;
                self.explore.focus = ExploreFocus::Detail;
            },
            Mode::Query => {
                self.query.app_focused = true;
                self.query.set_focus_results();
            },
            Mode::Settings => {
                self.settings.app_focused = true;
                self.settings.focus = SettingsFocus::Theme;
            },
        }
    }

    /// Moves to the next sub-pane of the mode. Returns whether it moved
    /// (not past the last).
    pub fn advance_subpane(&mut self) -> (r: bool)
        requires
            old(self).wf(),
        ensures
            final(self).wf(),
            final(self).mode == old(self).mode,
            final(self).focus == old(self).focus,
            final(self).top_bar == old(self).top_bar,
            final(self).running == old(self).running,
            final(self).connected == old(self).connected,
            final(self).quit_dialog == old(self).quit_dialog,
            final(self).loaded_saved_query_id == old(self).loaded_saved_query_id,
            final(self).task_manager == old(self).task_manager,
            final(self).background_tasks_pane == old(self).background_tasks_pane,
            final(self).saved_queries_pane == old(self).saved_queries_pane,
            r == (subpane_index(old(self).mode, subpanes_of(*old(self))) < subpane_count(old(self).mode) - 1),
            subpane_index(final(self).mode, subpanes_of(*final(self))) == (if r {
                subpane_index(old(self).mode, subpanes_of(*old(self))) + 1
            } else {
                subpane_index(old(self).mode, subpanes_of(*old(self)))
            }),
    {
        match self.mode {
            Mode::Explore => match self.explore.focus {
                ExploreFocus::Tree => {
                    self.explore.focus = ExploreFocus::Detail;
                    true
                },
                ExploreFocus::Detail => false,
            },
            Mode::Query => self.query.advance_focus(),
            Mode::Settings => match self.settings.focus {
                SettingsFocus::Connection => {
                    self.settings.focus = SettingsFocus::Cache;
                    true
                },
                SettingsFocus::Cache => {
                    self.settings.focus = SettingsFocus::Theme;
                    true
                },
                SettingsFocus::Theme => false,
            },
        }
    }

    /// Moves to the previous sub-pane of the mode. Returns whether it
    /// moved (not before the first).
    pub fn retreat_subpane(&mut self) -> (r: bool)
        requires
            old(self).wf(),
        ensures
            final(self).wf(),
            final(self).mode == old(self).mode,
            final(self).focus == old(self).focus,
            final(self).top_bar == old(self).top_bar,
            final(self).running == old(self).running,
            final(self).connected == old(self).connected,
            final(self).quit_dialog == old(self).quit_dialog,
            final(self).loaded_saved_query_id == old(self).loaded_saved_query_id,
            final(self).task_manager == old(self).task_manager,
            final(self).background_tasks_pane == old(self).background_tasks_pane,
            final(self).saved_queries_pane == old(self).saved_queries_pane,
            r == (subpane_index(old(self).mode, subpanes_of(*old(self))) > 0),
            subpane_index(final(self).mode, subpanes_of(*final(self))) == (if r {
                subpane_index(old(self).mode, subpanes_of(*old(self))) - 1
            } else {
                subpane_index(old(self).mode, subpanes_of(*old(self)))
            }),
    {
        match self.mode {
            Mode::Explore => match self.explore.focus {
                ExploreFocus::Detail => {
                    self.explore.focus = ExploreFocus::Tree;
                    true
                },
                ExploreFocus::Tree => false,
            },
            Mode::Query => self.query.retreat_focus(),
            Mode::Settings => match self.settings.focus {
                SettingsFocus::Theme => {
                    self.settings.focus = SettingsFocus::Cache;
                    true
                },
                SettingsFocus::Cache => {
                    self.settings.focus = SettingsFocus::Connection;
                    true
                },
                SettingsFocus::Connection => false,
            },
        }
    }

    /// Tab from the top bar: into the mode, at its first sub-pane.
    pub fn tab_from_top_bar(&mut self)
        requires
            old(self).wf(),
        ensures
            final(self).wf(),
            final(self).focus == Focus::ModeContent,
            !final(self).top_bar.focused,
            final(self).mode == old(self).mode,
            subpane_index(final(self).mode, subpanes_of(*final(self))) == 0,
    {
        self.focus = Focus::ModeContent;
        self.top_bar.focused = false;
        self.set_first_subpane();
    }

    /// Tab that the mode did not take: to the next sub-pane. From the last
    /// one, the query mode goes back to its editor; the other modes go up
    /// to the top bar.
    pub fn tab_unconsumed(&mut self)
        requires
            old(self).wf(),
        ensures
            final(self).wf(),
            final(self).mode == old(self).mode,
            ({
                let i = subpane_index(old(self).mode, subpanes_of(*old(self)));
                if i < subpane_count(old(self).mode) - 1 {
                    final(self).focus == old(self).focus && subpane_index(final(self).mode, subpanes_of(*final(self)))
                        == i + 1
                } else if old(self).mode == Mode::Query {
                    final(self).focus == old(self).focus && final(self).query.focus == QueryFocus::Editor
                        && subpane_index(final(self).mode, subpanes_of(*final(self))) == 0
                } else {
                    final(self).focus == Focus::TopBar && final(self).top_bar.focused
                }
            }),
    {
        if !self.advance_subpane() {
            if self.mode == Mode::Query {
                self.query.set_focus_editor();
            } else {
                self.focus = Focus::TopBar;
                self.top_bar.focused = true;
            }
        }
    }

    /// Shift-Tab: from the top bar into the mode's last sub-pane; in the
    /// mode, to the previous sub-pane, or from the first up to the top bar.
    pub fn back_tab(&mut self)
        requires
            old(self).wf(),
        ensures
            final(self).wf(),
            final(self).mode == old(self).mode,
            old(self).focus == Focus::TopBar ==> final(self).focus == Focus::ModeContent && !final(self).top_bar.focused
                && subpane_index(final(self).mode, subpanes_of(*final(self))) == subpane_count(final(self).mode) - 1,
            old(self).focus == Focus::ModeContent ==> ({
                let i = subpane_index(old(self).mode, subpanes_of(*old(self)));
                if i > 0 {
                    final(self).focus == Focus::ModeContent && subpane_index(final(self).mode, subpanes_of(*final(self)))
                        == i - 1
                } else {
                    final(self).focus == Focus::TopBar && final(self).top_bar.focused
                }
            }),
    {
        match self.focus {
            Focus::TopBar => {
                self.focus = Focus::ModeContent;
                self.top_bar.focused = false;
                self.set_last_subpane();
            },
            Focus::ModeContent => {
                if !self.retreat_subpane() {
                    self.focus = Focus::TopBar;
                    self.top_bar.focused = true;
                }
            },
        }
    }

    /// Esc that the mode did not take: up to the top bar.
    pub fn esc_unconsumed(&mut self)
        ensures
            final(self).focus == Focus::TopBar,
            final(self).top_bar.focused,
            final(self).mode == old(self).mode,
            final(self).explore == old(self).explore,
            final(self).query == old(self).query,
            final(self).settings == old(self).settings,
    {
        self.focus = Focus::TopBar;
        self.top_bar.focused = true;
    }

    /// Esc or Enter on the top bar: back into the mode.
    pub fn to_content(&mut self)
        ensures
            final(self).focus == Focus::ModeContent,
            !final(self).top_bar.focused,
            final(self).mode == old(self).mode,
            final(self).explore == old(self).explore,
            final(self).query == old(self).query,
            final(self).settings == old(self).settings,
    {
        self.focus = Focus::ModeContent;
        self.top_bar.focused = false;
    }

    /// Saves the editor's query `sql` with the chart tabs of the query mode,
    /// at `now_ms`: nothing is saved from an empty editor; otherwise the
    /// loaded saved query is overwritten, or a new one is added and becomes
    /// the loaded one. Returns the status message to show.
    pub fn save_editor_query(&mut self, sql: String, now_ms: i64) -> (r: Action)
        requires
            old(self).wf(),
        ensures
            final(self).wf(),
            sql@.len() == 0 ==> (r matches Action::StatusMessage(m) && m@ == "Nothing to save \u{2014} editor is empty"@)
                && *final(self) == *old(self),
            sql@.len() > 0 && old(self).loaded_saved_query_id is None && (crate::store::max_id(
                old(self).saved_queries_pane.queries@,
            ) == usize::MAX || old(self).saved_queries_pane.queries@.len() == usize::MAX) ==> (r matches Action::StatusMessage(
                m,
            ) && m@ == "Cannot save: too many saved queries"@) && *final(self) == *old(self),
            sql@.len() > 0 && !(old(self).loaded_saved_query_id is None && (crate::store::max_id(
                old(self).saved_queries_pane.queries@,
            ) == usize::MAX || old(self).saved_queries_pane.queries@.len() == usize::MAX)) ==> (r matches Action::StatusMessage(
                m,
            ) && m@ == "Query saved"@) && exists|o: SaveOutcome|
                #![trigger save_post(old(self).saved_queries_pane.queries@, final(self).saved_queries_pane.queries@, old(self).loaded_saved_query_id, sql@, old(self).query.chart_tabs@.len(), now_ms, o)]
                save_post(
                    old(self).saved_queries_pane.queries@,
                    final(self).saved_queries_pane.queries@,
                    old(self).loaded_saved_query_id,
                    sql@,
                    old(self).query.chart_tabs@.len(),
                    now_ms,
                    o,
                ) && final(self).loaded_saved_query_id == (match o {
                    SaveOutcome::Added(id) => Some(id),
                    _ => old(self).loaded_saved_query_id,
                }),
            final(self).mode == old(self).mode,
            final(self).query == old(self).query,
            final(self).explore == old(self).explore,
            final(self).settings == old(self).settings,
            final(self).task_manager == old(self).task_manager,
    {
        if crate::text::str_chars(sql.as_str()).len() == 0 {
            return Action::StatusMessage(crate::text::str_to_string("Nothing to save \u{2014} editor is empty"));
        }
        let loaded = self.loaded_saved_query_id;
        if loaded.is_none() && (crate::store::max_saved_id(&self.saved_queries_pane.queries) == usize::MAX
            || self.saved_queries_pane.queries.len() == usize::MAX) {
            return Action::StatusMessage(crate::text::str_to_string("Cannot save: too many saved queries"));
        }
        let charts = self.query.get_chart_configs();
        let ghost sqlv = sql@;
        let o = crate::store::save_query(&mut self.saved_queries_pane.queries, loaded, sql, charts, now_ms);
        proof {
            assert(save_post(
                old(self).saved_queries_pane.queries@,
                self.saved_queries_pane.queries@,
                loaded,
                sqlv,
                old(self).query.chart_tabs@.len(),
                now_ms,
                o,
            ));
        }
        match o {
            SaveOutcome::Added(id) => {
                self.loaded_saved_query_id = Some(id);
            },
            _ => {},
        }
        proof {
            assert(save_post(
                old(self).saved_queries_pane.queries@,
                self.saved_queries_pane.queries@,
                old(self).loaded_saved_query_id,
                sql@,
                old(self).query.chart_tabs@.len(),
                now_ms,
                o,
            ));
            assert(self.loaded_saved_query_id == (match o {
                SaveOutcome::Added(id) => Some(id),
                _ => old(self).loaded_saved_query_id,
            }));
        }
        Action::StatusMessage(crate::text::str_to_string("Query saved"))
    }

    /// Takes the refresh progress from the task list to the tree and the
    /// settings.
    fn sync_refresh_counts(&mut self)
        ensures
            final(self).explore.tree.refresh_running == count_matching(
                old(self).task_manager.task_list(),
                refresh_source(),
                false,
            ),
            final(self).explore.tree.refresh_total == count_matching(
                old(self).task_manager.task_list(),
                refresh_source(),
                true,
            ),
            final(self).settings.refresh_running == final(self).explore.tree.refresh_running,
            final(self).settings.refresh_total == final(self).explore.tree.refresh_total,
            final(self).task_manager == old(self).task_manager,
            final(self).mode == old(self).mode,
            final(self).focus == old(self).focus,
            final(self).explore.wf() == old(self).explore.wf(),
            final(self).settings.wf() == old(self).settings.wf(),
            final(self).query == old(self).query,
            final(self).explore.focus == old(self).explore.focus,
            final(self).settings.focus == old(self).settings.focus,
            final(self).saved_queries_pane == old(self).saved_queries_pane,
    {
        let running = self.task_manager.running_count("Catalog Refresh");
        let total = self.task_manager.pending_or_running_count("Catalog Refresh");
        self.explore.tree.refresh_running = running;
        self.explore.tree.refresh_total = total;
        self.settings.refresh_running = running;
        self.settings.refresh_total = total;
    }

    /// Carries out an action on the state, with the path of the tree's
    /// selected node, the wall clock and the monotonic clock in
    /// milliseconds, and the theme in use. Quitting stops the loop; the
    /// quit dialog, the overlays, the connection state, the tasks (and the
    /// refresh progress shown from them), saved queries and new queries
    /// are the application's own; actions that need input or output are
    /// handed back for the caller; editor events go to the query mode;
    /// a saved theme goes to the settings; the rest goes to the mode shown.
    #[verifier::rlimit(40)]
    pub fn dispatch(
        &mut self,
        action: Action,
        selected: &Vec<String>,
        wall_ms: i64,
        mono_ms: u64,
        applied_theme: ThemeConfig,
    ) -> (r: Option<Action>)
        requires
            old(self).wf(),
            action is CreateTask ==> old(self).task_manager.next() < usize::MAX,
        ensures
            final(self).wf(),
            match action {
                Action::Quit => r is None && !final(self).running,
                Action::ShowQuitDialog => (r matches Some(Action::Render)) && final(self).quit_dialog.visible,
                Action::HideQuitDialog => (r matches Some(Action::Render)) && !final(self).quit_dialog.visible,
                Action::SwitchMode(mode) => (r matches Some(Action::Render)) && final(self).mode == mode
                    && final(self).focus == Focus::ModeContent && !final(self).top_bar.focused && subpane_index(
                    mode,
                    subpanes_of(*final(self)),
                ) == 0,
                Action::HeartbeatResult(ok) => (r matches Some(Action::Render)) && final(self).connected == Some(ok),
                Action::ToggleBackgroundTasks => (r matches Some(Action::Render))
                    && final(self).background_tasks_pane.visible == !old(self).background_tasks_pane.visible
                    && (!old(self).background_tasks_pane.visible ==> !final(self).saved_queries_pane.visible),
                Action::ToggleSavedQueries => (r matches Some(Action::Render))
                    && final(self).saved_queries_pane.visible == !old(self).saved_queries_pane.visible
                    && (!old(self).saved_queries_pane.visible ==> !final(self).background_tasks_pane.visible),
                Action::CreateTask { source, name } => (r matches Some(Action::Render))
                    && final(self).task_manager.task_list().len() == old(self).task_manager.task_list().len() + 1
                    && final(self).task_manager.task_list().last().source@ == source@
                    && final(self).task_manager.task_list().last().name@ == name@
                    && final(self).task_manager.task_list().last().id == old(self).task_manager.next()
                    && final(self).task_manager.task_list().drop_last() == old(self).task_manager.task_list()
                    && final(self).task_manager.task_list().last().status == TaskStatus::Running
                    && final(self).task_manager.task_list().last().created_at == wall_ms
                    && final(self).task_manager.task_list().last().completed_at is None
                    && (source@ == refresh_source() ==> final(self).explore.tree.refresh_running == count_matching(
                    final(self).task_manager.task_list(),
                    refresh_source(),
                    false,
                ) && final(self).explore.tree.refresh_total == count_matching(
                    final(self).task_manager.task_list(),
                    refresh_source(),
                    true,
                )),
                Action::CompleteTask(_) => (r matches Some(Action::Render)) && final(self).explore.tree.refresh_running
                    == count_matching(final(self).task_manager.task_list(), refresh_source(), false)
                    && final(self).explore.tree.refresh_total == count_matching(
                    final(self).task_manager.task_list(),
                    refresh_source(),
                    true,
                ) && final(self).settings.refresh_total == final(self).explore.tree.refresh_total,
                Action::LoadSavedQuery { id, .. } => (r matches Some(Action::Render)) && final(self).loaded_saved_query_id
                    == Some(id) && final(self).query.focus == QueryFocus::Editor && (forall|k: int|
                    #![trigger old(self).saved_queries_pane.queries@[k]]
                    first_with_id(old(self).saved_queries_pane.queries@, id, k) ==> final(self).query.chart_tabs@.len()
                        == old(self).saved_queries_pane.queries@[k].charts@.len() && forall|c: int|
                        0 <= c < final(self).query.chart_tabs@.len() ==> tab_content(#[trigger] final(self).query.chart_tabs@[c])
                            == tab_content(old(self).saved_queries_pane.queries@[k].charts@[c])
                            && final(self).query.chart_tabs@[c].settings_hidden) && ((forall|j: int|
                    0 <= j < old(self).saved_queries_pane.queries@.len() ==> (#[trigger] old(self).saved_queries_pane.queries@[j]).id
                        != id) ==> final(self).query.chart_tabs@ == old(self).query.chart_tabs@),
                Action::SaveQueryToHistory => r matches Some(Action::SaveQueryToHistory),
                Action::PersistSavedQueries => (r matches Some(Action::PersistSavedQueries)) && final(self).loaded_saved_query_id
                    == (match old(self).loaded_saved_query_id {
                    Some(id) => if (exists|i: int|
                        0 <= i < old(self).saved_queries_pane.queries@.len()
                            && #[trigger] old(self).saved_queries_pane.queries@[i].id == id) {
                        Some(id)
                    } else {
                        None
                    },
                    None => None,
                }),
                Action::NewQuery => (r matches Some(Action::Render)) && final(self).loaded_saved_query_id is None
                    && final(self).query.chart_tabs@.len() == 0 && final(self).query.results.result is None,
                Action::ExecuteQuery(sql) => (r matches Some(Action::ExecuteQuery(s)) && s@ == sql@) && *final(self)
                    == *old(self),
                Action::ApplyOverrides { .. } => (r matches Some(Action::ApplyOverrides { .. })) && *final(self)
                    == *old(self),
                Action::ClearCache => (r matches Some(Action::ClearCache)) && final(self).explore.tree.databases@.len() == 0
                    && final(self).explore.tree.schemas@.len() == 0 && final(self).explore.tree.tables@.len() == 0
                    && final(self).explore.tree.last_refreshed is None && final(self).explore.search.entries@.len() == 0
                    && !final(self).explore.catalog_loaded && final(self).mode == old(self).mode
                    && final(self).focus == old(self).focus && final(self).query == old(self).query
                    && final(self).settings == old(self).settings
                    && final(self).explore.detail == old(self).explore.detail
                    && final(self).explore.focus == old(self).explore.focus
                    && final(self).task_manager == old(self).task_manager,
                Action::SaveTheme(_) => (r matches Some(Action::SaveTheme(_))) && *final(self) == *old(self),
                Action::ResetTheme => (r matches Some(Action::ResetTheme)) && *final(self) == *old(self),
                Action::SetEditorContent(_) => (r matches Some(Action::SetEditorContent(_))) && *final(self)
                    == *old(self),
                Action::PushCatalogToNvim(_) => (r matches Some(Action::PushCatalogToNvim(_))) && *final(self)
                    == *old(self),
                Action::NvimReady => (r matches Some(Action::Render)) && *final(self) == *old(self),
                Action::NvimRpcConnected => (r matches Some(Action::Render)) && *final(self) == *old(self),
                Action::NvimExited(_) => r is None && final(self).mode == old(self).mode,
                Action::ThemeSaved => settings_update_post(
                    old(self).settings,
                    final(self).settings,
                    action,
                    applied_theme,
                    mono_ms,
                    r,
                ) && final(self).mode == old(self).mode && final(self).explore == old(self).explore
                    && final(self).query == old(self).query,
                Action::Render => r is None && *final(self) == *old(self),
                Action::NoOp => r is None && *final(self) == *old(self),
                _ => final(self).mode == old(self).mode && others_unchanged(*old(self), *final(self), old(self).mode)
                    && match old(self).mode {
                    Mode::Explore => explore_update_post(old(self).explore, final(self).explore, action, selected@, r),
                    Mode::Query => query_update_post(old(self).query, final(self).query, action, r),
                    Mode::Settings => settings_update_post(
                        old(self).settings,
                        final(self).settings,
                        action,
                        applied_theme,
                        mono_ms,
                        r,
                    ),
                },
            },
    {
        match action {
            Action::Quit => {
                self.running = false;
                None
            },
            Action::ShowQuitDialog => {
                self.quit_dialog.show();
                Some(Action::Render)
            },
            Action::HideQuitDialog => {
                self.quit_dialog.visible = false;
                Some(Action::Render)
            },
            Action::SwitchMode(mode) => {
                self.editor.reset_spawn_counter();
                self.mode = mode;
                self.focus = Focus::ModeContent;
                self.top_bar.focused = false;
                self.set_first_subpane();
                Some(Action::Render)
            },
            Action::HeartbeatResult(ok) => {
                self.connected = Some(ok);
                Some(Action::Render)
            },
            Action::ToggleBackgroundTasks => {
                if !self.background_tasks_pane.visible {
                    self.saved_queries_pane.visible = false;
                }
                self.background_tasks_pane.toggle();
                Some(Action::Render)
            },
            Action::ToggleSavedQueries => {
                if !self.saved_queries_pane.visible {
                    self.background_tasks_pane.visible = false;
                }
                self.saved_queries_pane.toggle();
                Some(Action::Render)
            },
            Action::CreateTask { source, name } => {
                let id = self.task_manager.create_task(source.as_str(), name.as_str(), wall_ms);
                self.task_manager.start_task(id);
                proof {
                    let n = old(self).task_manager.task_list().len();
                    assert(self.task_manager.task_list()[n as int].source@ == source@);
                }
                if str_eq(source.as_str(), "Catalog Refresh") {
                    self.sync_refresh_counts();
                }
                Some(Action::Render)
            },
            Action::CompleteTask(id) => {
                self.task_manager.complete_task(id, wall_ms);
                self.sync_refresh_counts();
                Some(Action::Render)
            },
            Action::LoadSavedQuery { id, sql } => {
                self.loaded_saved_query_id = Some(id);
                match saved_charts(&self.saved_queries_pane.queries, id) {
                    Some((_, tabs)) => self.query.restore_chart_configs(tabs),
                    None => {},
                }
                self.query.update(Action::LoadQueryFromHistory(sql));
                Some(Action::Render)
            },
            Action::SaveQueryToHistory => Some(Action::SaveQueryToHistory),
            Action::PersistSavedQueries => {
                match self.loaded_saved_query_id {
                    Some(id) => {
                        let mut present = false;
                        let mut i: usize = 0;
                        while i < self.saved_queries_pane.queries.len()
                            invariant
                                i <= self.saved_queries_pane.queries@.len(),
                                present == (exists|k: int|
                                    0 <= k < i && #[trigger] self.saved_queries_pane.queries@[k].id == id),
                            decreases self.saved_queries_pane.queries@.len() - i,
                        {
                            if self.saved_queries_pane.queries[i].id == id {
                                present = true;
                            }
                            i += 1;
                        }
                        if !present {
                            self.loaded_saved_query_id = None;
                        }
                    },
                    None => {},
                }
                Some(Action::PersistSavedQueries)
            },
            Action::NewQuery => {
                self.loaded_saved_query_id = None;
                self.query.update(Action::NewQuery);
                Some(Action::Render)
            },
            Action::ExecuteQuery(sql) => Some(Action::ExecuteQuery(sql)),
            Action::ApplyOverrides { connection_name } => Some(Action::ApplyOverrides { connection_name }),
            Action::ClearCache => {
                self.explore.tree.databases = Vec::new();
                self.explore.tree.schemas = Vec::new();
                self.explore.tree.tables = Vec::new();
                self.explore.tree.last_refreshed = None;
                self.explore.search = FuzzySearch::new();
                self.explore.catalog_loaded = false;
                Some(Action::ClearCache)
            },
            Action::SaveTheme(config) => Some(Action::SaveTheme(config)),
            Action::ResetTheme => Some(Action::ResetTheme),
            Action::SetEditorContent(sql) => Some(Action::SetEditorContent(sql)),
            Action::PushCatalogToNvim(json) => Some(Action::PushCatalogToNvim(json)),
            Action::NvimReady => Some(Action::Render),
            Action::NvimRpcConnected => Some(Action::Render),
            Action::NvimExited(_) => {
                self.editor.handle_nvim_exited(mono_ms);
                None
            },
            Action::ThemeSaved => self.settings.update(Action::ThemeSaved, applied_theme, mono_ms),
            Action::Render => None,
            Action::NoOp => None,
            other => match self.mode {
                Mode::Explore => self.explore.update(other, selected, wall_ms),
                Mode::Query => self.query.update(other),
                Mode::Settings => self.settings.update(other, applied_theme, mono_ms),
            },
        }
    }
}

} // verus!
