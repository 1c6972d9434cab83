//! The query mode's decisions: which sub-pane has the keyboard, the chart
//! tabs under the editor, and where each key goes. The editor itself and
//! the drawing of charts are driven by the caller, as the outcome of a key
//! says.

use vstd::prelude::*;
use crate::action::Action;
use crate::chart::{ChartConfig, ChartFocus, ChartSettings, ChartTab, MAX_CHART_TABS, chart_settings_key_post};
use crate::history::QueryHistory;
use crate::keys::{KeyCode, KeyEvent, KeyModifiers};
use crate::results::ResultsTable;
use crate::store::QueryHistoryEntry;
use crate::text::{str_chars, str_to_string};

verus! {

/// The longest chart title, in characters.
pub const MAX_TITLE_CHARS: usize = 20;

/// Which sub-pane of the query mode has the keyboard.
#[derive(Debug, Clone, Copy, PartialEq, Eq, Structural)]
pub enum QueryFocus {
    Editor,
    Results,
}

/// Which tab is shown under the editor: the results table, or a chart tab.
#[derive(Debug, Clone, Copy, PartialEq, Eq, Structural)]
pub enum BottomTab {
    Results,
    Chart(usize),
}

/// The chart pane's own state: its settings panel, which part has the
/// keyboard, and whether the panel is shown.
pub struct ChartPaneState {
    pub settings: ChartSettings,
    pub focus: ChartFocus,
    pub settings_visible: bool,
}

/// What a key does to the settings panel of the chart pane: it goes to the
/// panel, whose answer `s` tells whether Generate was pressed; when the
/// panel lets go of the keyboard the chart gets it back.
pub open spec fn settings_panel_key_post(
    pre: ChartPaneState,
    post: ChartPaneState,
    pre_cfg: ChartConfig,
    post_cfg: ChartConfig,
    key: KeyEvent,
    r: (Option<Action>, bool),
) -> bool {
    &&& r.0 matches Some(Action::Render)
    &&& post.settings_visible == pre.settings_visible
    &&& exists|s: Option<bool>|
        #![trigger chart_settings_key_post(pre.settings, post.settings, pre_cfg, post_cfg, key, s)]
        chart_settings_key_post(pre.settings, post.settings, pre_cfg, post_cfg, key, s) && r.1 == (s == Some(true))
            && (s is None ==> post.focus == ChartFocus::ChartDisplay) && (s is Some ==> post.focus == pre.focus)
}

/// What a key does to the chart pane: with a popup open or the settings
/// focused it goes to the settings panel; the chart itself takes no key.
pub open spec fn chart_pane_key_post(
    pre: ChartPaneState,
    post: ChartPaneState,
    pre_cfg: ChartConfig,
    post_cfg: ChartConfig,
    key: KeyEvent,
    r: (Option<Action>, bool),
) -> bool {
    if pre.settings.popup_open is None && pre.focus == ChartFocus::ChartDisplay {
        r == (None::<Action>, false) && post == pre && post_cfg == pre_cfg
    } else {
        settings_panel_key_post(pre, post, pre_cfg, post_cfg, key, r)
    }
}

impl ChartPaneState {
    pub fn new() -> (r: Self)
        ensures
            r.focus == ChartFocus::ChartDisplay,
            !r.settings_visible,
            r.settings.popup_open is None,
    {
        ChartPaneState { settings: ChartSettings::new(), focus: ChartFocus::ChartDisplay, settings_visible: false }
    }

    /// Shows or hides the settings panel; shown, it takes the keyboard.
    pub fn toggle_settings(&mut self)
        ensures
            final(self).settings_visible == !old(self).settings_visible,
            final(self).focus == (if old(self).settings_visible { ChartFocus::ChartDisplay } else { ChartFocus::Settings }),
    {
        if self.settings_visible {
            self.settings_visible = false;
            self.focus = ChartFocus::ChartDisplay;
        } else {
            self.settings_visible = true;
            self.focus = ChartFocus::Settings;
        }
    }

    /// A key for the settings panel. Returns the action and whether the
    /// chart is to be generated; Esc gives the keyboard back to the chart.
    pub fn handle_settings_key(&mut self, key: KeyEvent, config: &mut ChartConfig) -> (r: (Option<Action>, bool))
        ensures
            settings_panel_key_post(*old(self), *final(self), *old(config), *final(config), key, r),
    {
        let s = self.settings.handle_key(key, config);
        proof {
            assert(chart_settings_key_post(old(self).settings, self.settings, *old(config), *config, key, s));
        }
        match s {
            Some(true) => (Some(Action::Render), true),
            Some(false) => (Some(Action::Render), false),
            None => {
                self.focus = ChartFocus::ChartDisplay;
                (Some(Action::Render), false)
            },
        }
    }

    /// A key for the chart pane: with a popup open or the settings focused
    /// it goes to the settings; the chart itself takes no key.
    pub fn handle_key(&mut self, key: KeyEvent, config: &mut ChartConfig) -> (r: (Option<Action>, bool))
        ensures
            chart_pane_key_post(*old(self), *final(self), *old(config), *final(config), key, r),
    {
        if self.settings.popup_open.is_some() {
            return self.handle_settings_key(key, config);
        }
        match self.focus {
            ChartFocus::Settings => self.handle_settings_key(key, config),
            ChartFocus::ChartDisplay => (None, false),
        }
    }
}

/// What the caller does after a key of the query mode.
pub enum QueryKeyOutcome {
    /// The key was handled; return this action.
    Handled(Option<Action>),
    /// Give the key to the editor and return what the editor returns.
    ToEditor,
    /// Give the key to the editor, then return this action.
    ToEditorThen(Option<Action>),
    /// Generate the active tab's chart from its configuration, then return
    /// this action.
    Generate(Option<Action>),
    /// Prepare the active tab's chart if its configuration allows, then
    /// return this action.
    Prepare(Option<Action>),
}

/// The outcome asks for a redraw, with or without preparing a chart.
pub open spec fn renders(o: QueryKeyOutcome) -> bool {
    match o {
        QueryKeyOutcome::Handled(Some(Action::Render)) => true,
        QueryKeyOutcome::Prepare(Some(Action::Render)) => true,
        _ => false,
    }
}

/// The query mode, without the editor process and the drawn charts.
pub struct QueryPaneState {
    pub focus: QueryFocus,
    pub app_focused: bool,
    pub bottom_tab: BottomTab,
    /// Share of the height given to the editor, in percent.
    pub split_pct: u16,
    pub chart_tabs: Vec<ChartTab>,
    pub delete_confirm: bool,
    /// While a chart title is edited: the tab, the text typed, and the
    /// title before editing.
    pub title_edit: Option<(usize, String, String)>,
    pub nvim_available: bool,
    pub query_history_entries: Vec<QueryHistoryEntry>,
    pub history: QueryHistory,
    pub results: ResultsTable,
    pub chart: ChartPaneState,
    /// The status message shown under the results.
    pub status_message: Option<String>,
}

/// The chart tab shown is one that exists.
pub open spec fn tab_valid(tab: BottomTab, n: int) -> bool {
    match tab {
        BottomTab::Results => true,
        BottomTab::Chart(i) => i < n,
    }
}

/// Two history entries record the same run.
pub open spec fn same_entry(a: QueryHistoryEntry, b: QueryHistoryEntry) -> bool {
    &&& a.sql@ == b.sql@
    &&& a.executed_at == b.executed_at
    &&& a.row_count == b.row_count
    &&& a.elapsed_ms == b.elapsed_ms
    &&& crate::parser::opt_view(a.error) == crate::parser::opt_view(b.error)
}

/// Copies a history.
fn clone_history(v: &Vec<QueryHistoryEntry>) -> (r: Vec<QueryHistoryEntry>)
    ensures
        r@.len() == v@.len(),
        forall|i: int| 0 <= i < v@.len() ==> same_entry(#[trigger] r@[i], v@[i]),
{
    let mut out: Vec<QueryHistoryEntry> = Vec::new();
    let mut i: usize = 0;
    while i < v.len()
        invariant
            i <= v@.len(),
            out@.len() == i,
            forall|k: int| 0 <= k < i ==> same_entry(#[trigger] out@[k], v@[k]),
        decreases v@.len() - i,
    {
        let e = &v[i];
        out.push(
            QueryHistoryEntry {
                sql: e.sql.clone(),
                executed_at: e.executed_at,
                row_count: e.row_count,
                elapsed_ms: e.elapsed_ms,
                error: crate::parser::clone_opt_string(&e.error),
            },
        );
        i += 1;
    }
    out
}

/// A key on the results side of the query mode that reaches the results
/// side's own keys: no history overlay, title edit, delete confirmation or
/// chart popup is open, the editor is available, and the key is not Esc.
pub open spec fn results_side_key(q: QueryPaneState, key: KeyEvent) -> bool {
    &&& !q.history.visible
    &&& q.title_edit is None
    &&& !q.delete_confirm
    &&& !(q.bottom_tab is Chart && q.chart.settings.popup_open is Some)
    &&& q.nvim_available
    &&& q.focus == QueryFocus::Results
    &&& key.code != KeyCode::Esc
}

/// A chart tab is shown with its settings panel focused.
pub open spec fn chart_settings_focused(q: QueryPaneState) -> bool {
    q.bottom_tab is Chart && q.chart.focus == ChartFocus::Settings
}

/// A chart tab is shown with the chart itself focused.
pub open spec fn chart_display_focused(q: QueryPaneState) -> bool {
    q.bottom_tab is Chart && q.chart.focus == ChartFocus::ChartDisplay
}

/// The chart tab that a digit `1`-`9` picks (counted from 0).
pub open spec fn digit_tab(key: KeyEvent) -> Option<int> {
    match key.code {
        KeyCode::Char(ch) => if 49 <= (ch as int) && (ch as int) <= 57 {
            Some((ch as int) - 49)
        } else {
            None
        },
        _ => None,
    }
}

/// The key is one that the results side handles itself: `D` on a chart,
/// `T` or a digit of an existing chart tab outside the chart settings, and
/// with Ctrl: Up, Down, `n`, `s`, and on a chart tab `c` and `e`.
pub open spec fn results_side_special(q: QueryPaneState, key: KeyEvent) -> bool {
    let code = key.code;
    ||| chart_display_focused(q) && (code == KeyCode::Char('D') || code == KeyCode::Char('d'))
    ||| !chart_settings_focused(q) && (code == KeyCode::Char('t') || code == KeyCode::Char('T'))
    ||| !chart_settings_focused(q) && (digit_tab(key) matches Some(i) && i < q.chart_tabs@.len())
    ||| key.modifiers.control && (code == KeyCode::Up || code == KeyCode::Down || code == KeyCode::Char('n')
        || code == KeyCode::Char('s'))
    ||| key.modifiers.control && q.bottom_tab is Chart && (code == KeyCode::Char('c') || code == KeyCode::Char('e'))
}

/// A key handed to the chart tab shown: the tab stays shown, no tab comes
/// or goes, and the chart pane and the tab's configuration change as the
/// chart pane's contract says, with Generate reported as such.
pub open spec fn chart_forward_post(pre: QueryPaneState, post: QueryPaneState, key: KeyEvent, r: QueryKeyOutcome) -> bool {
    match pre.bottom_tab {
        BottomTab::Chart(i) => post.bottom_tab == pre.bottom_tab && post.chart_tabs@.len() == pre.chart_tabs@.len()
            && exists|a: Option<Action>, g: bool|
            #![trigger chart_pane_key_post(pre.chart, post.chart, pre.chart_tabs@[i as int].config, post.chart_tabs@[i as int].config, key, (a, g))]
            chart_pane_key_post(
                pre.chart,
                post.chart,
                pre.chart_tabs@[i as int].config,
                post.chart_tabs@[i as int].config,
                key,
                (a, g),
            ) && r == (if g {
                QueryKeyOutcome::Generate(a)
            } else {
                QueryKeyOutcome::Handled(a)
            }),
        BottomTab::Results => true,
    }
}

/// The chart tab shown is deleted: the tabs after it move up, and the one
/// now at its place is shown (the last one when it was the last, the table
/// when none is left). Nothing changes when the table is shown.
pub open spec fn chart_deleted(pre: QueryPaneState, post: QueryPaneState) -> bool {
    match pre.bottom_tab {
        BottomTab::Chart(i) => post.chart_tabs@ == pre.chart_tabs@.remove(i as int) && post.bottom_tab == (if post.chart_tabs@.len() == 0 {
            BottomTab::Results
        } else if i >= post.chart_tabs@.len() {
            BottomTab::Chart((post.chart_tabs@.len() - 1) as usize)
        } else {
            BottomTab::Chart(i)
        }),
        BottomTab::Results => post.chart_tabs@ == pre.chart_tabs@ && post.bottom_tab == pre.bottom_tab,
    }
}

/// What a key does while a chart title is edited.
pub open spec fn title_edit_key_post(pre: QueryPaneState, post: QueryPaneState, key: KeyEvent, r: Option<Action>) -> bool {
    &&& r matches Some(Action::Render)
    &&& post.chart_tabs@.len() == pre.chart_tabs@.len()
    &&& post.bottom_tab == pre.bottom_tab
    &&& post.focus == pre.focus
    &&& match pre.title_edit {
            Some((idx, buf, original)) => {
                let code = key.code;
                let shown = idx < pre.chart_tabs@.len();
                (!shown ==> post.chart_tabs@ == pre.chart_tabs@) && if code == KeyCode::Enter {
                    post.title_edit is None && (shown ==> post.chart_tabs@[idx as int].label@ == (if buf@.len() == 0 {
                        original@
                    } else {
                        buf@
                    }))
                } else if code == KeyCode::Esc {
                    post.title_edit is None && (shown ==> post.chart_tabs@[idx as int].label@ == original@)
                } else if code == KeyCode::Backspace {
                    let nb = if buf@.len() > 0 { buf@.drop_last() } else { buf@ };
                    (post.title_edit matches Some((j, b, o)) && j == idx && b@ == nb && o@ == original@)
                        && (shown ==> post.chart_tabs@[idx as int].label@ == (if nb.len() == 0 { original@ } else { nb }))
                } else if let KeyCode::Char(c) = code {
                    if buf@.len() < MAX_TITLE_CHARS {
                        (post.title_edit matches Some((j, b, o)) && j == idx && b@ == buf@.push(c) && o@ == original@)
                            && (shown ==> post.chart_tabs@[idx as int].label@ == buf@.push(c))
                    } else {
                        post.title_edit == pre.title_edit && post.chart_tabs@ == pre.chart_tabs@
                    }
                } else {
                    post.title_edit == pre.title_edit && post.chart_tabs@ == pre.chart_tabs@
                }
            },
            None => post == pre,
        }
}

/// What an action does to the query mode.
pub open spec fn query_update_post(pre: QueryPaneState, post: QueryPaneState, action: Action, r: Option<Action>) -> bool {
    &&& post.split_pct == pre.split_pct
    &&& post.app_focused == pre.app_focused
    &&& match action {
            Action::NewQuery => (r matches Some(Action::NewQuery)) && post.results.state is Empty
                && post.results.result is None && post.chart_tabs@.len() == 0
                && post.bottom_tab == BottomTab::Results && post.focus == QueryFocus::Editor
                && !post.results.focused && post.chart.settings.columns().len() == 0,
            Action::ExecuteQuery(sql) => (r matches Some(Action::ExecuteQuery(q)) && q@ == sql@)
                && post.results.state is Loading && post.results.result is None
                && post.bottom_tab == BottomTab::Results && post.focus == pre.focus
                && post.chart_tabs@ == pre.chart_tabs@
                && post.chart.settings.columns().len() == 0,
            Action::QueryResultData(result) => (r matches Some(Action::Render)) && post.results.state is Loaded
                && post.results.result == Some(result) && post.focus == QueryFocus::Results
                && post.results.focused == pre.app_focused
                && post.bottom_tab == pre.bottom_tab && post.chart_tabs@ == pre.chart_tabs@
                && post.chart.settings.columns().len() == result.columns@.len()
            && (forall|i: int|
                0 <= i < result.columns@.len() ==> #[trigger] post.chart.settings.columns()[i] == (
                    result.columns@[i]@,
                    crate::column_kind::kind_of_counts(
                        crate::column_kind::column_counts(crate::column_kind::result_rows(result), i),
                    ),
                )),
            Action::QueryError(error) => (r matches Some(Action::Render))
                && (post.results.state matches crate::results::ResultsState::Error(e) && e@ == error@)
                && post.focus == pre.focus && post.chart_tabs@ == pre.chart_tabs@,
            Action::ShowQueryHistory => (r matches Some(Action::Render)) && post.history.visible
                && post.history.entries@.len() == pre.query_history_entries@.len()
                && (forall|i: int| 0 <= i < pre.query_history_entries@.len() ==> same_entry(
                    #[trigger] post.history.entries@[i],
                    pre.query_history_entries@[i],
                )) && post.focus == pre.focus,
            Action::LoadQueryFromHistory(_) => (r matches Some(Action::Render)) && post.focus
                == QueryFocus::Editor && !post.results.focused && post.chart_tabs@ == pre.chart_tabs@,
            Action::SetQueryHistory(entries) => r is None && post.query_history_entries@ == entries@
                && post.focus == pre.focus,
            Action::StatusMessage(m) => (r matches Some(Action::Render)) && (post.status_message matches Some(s) && s@
                == m@) && post == QueryPaneState { status_message: post.status_message, ..pre },
            Action::ClearStatus => (r matches Some(Action::Render)) && post == QueryPaneState {
                status_message: None,
                ..pre
            },
            _ => r is None && post == pre,
        }
}

impl QueryPaneState {
    /// The chart tab shown exists, the history overlay is well formed, and
    /// the split stays between 15 and 85 percent in steps of five.
    pub open spec fn wf(&self) -> bool {
        &&& tab_valid(self.bottom_tab, self.chart_tabs@.len() as int)
        &&& self.history.wf()
        &&& 15 <= self.split_pct <= 85
        &&& self.split_pct % 5 == 0
    }

    /// The pane with nvim available or not: editor focused, results tab
    /// shown, split at forty percent, no chart tabs.
    pub fn new(nvim_available: bool) -> (r: Self)
        ensures
            r.wf(),
            r.focus == QueryFocus::Editor,
            r.app_focused,
            r.bottom_tab == BottomTab::Results,
            r.split_pct == 40,
            r.chart_tabs@.len() == 0,
            !r.delete_confirm,
            r.title_edit is None,
            r.nvim_available == nvim_available,
            r.status_message is None,
    {
        QueryPaneState {
            focus: QueryFocus::Editor,
            app_focused: true,
            bottom_tab: BottomTab::Results,
            split_pct: 40,
            chart_tabs: Vec::new(),
            delete_confirm: false,
            title_edit: None,
            nvim_available,
            query_history_entries: Vec::new(),
            history: QueryHistory::new(),
            results: ResultsTable::new(),
            chart: ChartPaneState::new(),
            status_message: None,
        }
    }

    /// Takes the history that the history overlay shows.
    pub fn set_history(&mut self, entries: Vec<QueryHistoryEntry>)
        ensures
            final(self).query_history_entries@ == entries@,
            final(self).focus == old(self).focus,
            final(self).chart_tabs@ == old(self).chart_tabs@,
            final(self).bottom_tab == old(self).bottom_tab,
    {
        self.query_history_entries = entries;
    }

    /// Takes an action for the query mode. A new query forgets the result,
    /// the chart tabs and the columns of the chart settings, shows the
    /// results tab and gives the keyboard to the editor, and goes on up. A
    /// query being run shows that it loads in the results tab, forgets the
    /// chart settings' columns, and goes on up. A result is shown in the
    /// table, its columns are taken by the chart settings, and the keyboard
    /// goes to the results; an error is shown in the table. The history
    /// overlay opens on the history; a query taken from it gives the
    /// keyboard to the editor. A new history is kept. Each of these but the
    /// history and the two that go on up is answered by a redraw; the rest
    /// are not for this state.
    pub fn update(&mut self, action: Action) -> (r: Option<Action>)
        requires
            old(self).wf(),
        ensures
            final(self).wf(),
            query_update_post(*old(self), *final(self), action, r),
    {
        match action {
            Action::NewQuery => {
                self.results.clear();
                self.chart.settings.clear_column_types();
                self.chart_tabs = Vec::new();
                self.bottom_tab = BottomTab::Results;
                self.focus = QueryFocus::Editor;
                self.results.focused = false;
                Some(Action::NewQuery)
            },
            Action::ExecuteQuery(sql) => {
                self.results.set_loading();
                self.chart.settings.clear_column_types();
                self.bottom_tab = BottomTab::Results;
                Some(Action::ExecuteQuery(sql))
            },
            Action::QueryResultData(result) => {
                self.chart.settings.update_column_types(&result);
                self.results.set_result(result);
                self.focus = QueryFocus::Results;
                self.results.focused = self.app_focused;
                Some(Action::Render)
            },
            Action::QueryError(error) => {
                self.results.set_error(error);
                Some(Action::Render)
            },
            Action::ShowQueryHistory => {
                let entries = clone_history(&self.query_history_entries);
                self.history.show(entries);
                Some(Action::Render)
            },
            Action::LoadQueryFromHistory(_) => {
                self.focus = QueryFocus::Editor;
                self.results.focused = false;
                Some(Action::Render)
            },
            Action::SetQueryHistory(entries) => {
                self.query_history_entries = entries;
                None
            },
            Action::StatusMessage(m) => {
                self.status_message = Some(m);
                Some(Action::Render)
            },
            Action::ClearStatus => {
                self.status_message = None;
                Some(Action::Render)
            },
            _ => None,
        }
    }

    /// The chart tabs, to be saved with a query.
    pub fn get_chart_configs(&self) -> (r: Vec<ChartTab>)
        ensures
            r@.len() == self.chart_tabs@.len(),
            forall|i: int| 0 <= i < r@.len() ==> (#[trigger] r@[i]).label@ == self.chart_tabs@[i].label@
                && r@[i].config.chart_type == self.chart_tabs@[i].config.chart_type,
    {
        let mut out: Vec<ChartTab> = Vec::new();
        let mut i: usize = 0;
        while i < self.chart_tabs.len()
            invariant
                i <= self.chart_tabs@.len(),
                out@.len() == i,
                forall|j: int| 0 <= j < i ==> (#[trigger] out@[j]).label@ == self.chart_tabs@[j].label@
                    && out@[j].config.chart_type == self.chart_tabs@[j].config.chart_type,
            decreases self.chart_tabs@.len() - i,
        {
            out.push(self.chart_tabs[i].clone());
            i += 1;
        }
        out
    }

    /// Restores the chart tabs of a saved query, each with its settings
    /// hidden; a chart tab shown that no longer exists gives way to the
    /// results tab.
    pub fn restore_chart_configs(&mut self, tabs: Vec<ChartTab>)
        requires
            old(self).wf(),
        ensures
            final(self).wf(),
            final(self).chart_tabs@.len() == tabs@.len(),
            forall|i: int| 0 <= i < tabs@.len() ==> (#[trigger] final(self).chart_tabs@[i]).settings_hidden
                && final(self).chart_tabs@[i].label == tabs@[i].label
                && final(self).chart_tabs@[i].config == tabs@[i].config,
            final(self).bottom_tab == (match old(self).bottom_tab {
                BottomTab::Chart(i) => if i >= tabs@.len() { BottomTab::Results } else { old(self).bottom_tab },
                BottomTab::Results => BottomTab::Results,
            }),
    {
        let mut tabs = tabs;
        let ghost orig = tabs@;
        let mut out: Vec<ChartTab> = Vec::new();
        let n = tabs.len();
        let mut i: usize = 0;
        while i < n
            invariant
                i <= n,
                n == orig.len(),
                tabs@ == orig.skip(i as int),
                out@.len() == i,
                forall|j: int| 0 <= j < i ==> (#[trigger] out@[j]).settings_hidden && out@[j].label == orig[j].label
                    && out@[j].config == orig[j].config,
            decreases n - i,
        {
            let mut t = tabs.remove(0);
            assert(tabs@ =~= orig.skip(i + 1));
            t.settings_hidden = true;
            out.push(t);
            i += 1;
        }
        self.chart_tabs = out;
        match self.bottom_tab {
            BottomTab::Chart(i) => {
                if i >= self.chart_tabs.len() {
                    self.bottom_tab = BottomTab::Results;
                }
            },
            BottomTab::Results => {},
        }
    }

    fn update_focus_state(&mut self)
        ensures
            final(self).results.focused == (old(self).app_focused && old(self).focus == QueryFocus::Results),
            final(self).focus == old(self).focus,
            final(self).app_focused == old(self).app_focused,
            final(self).bottom_tab == old(self).bottom_tab,
            final(self).chart_tabs@ == old(self).chart_tabs@,
            final(self).title_edit == old(self).title_edit,
            final(self).split_pct == old(self).split_pct,
            final(self).history == old(self).history,
            final(self).results.result == old(self).results.result,
            final(self).delete_confirm == old(self).delete_confirm,
    {
        self.results.focused = self.app_focused && self.focus == QueryFocus::Results;
    }

    /// The editor has the keyboard, when the mode has it.
    pub fn editor_focused(&self) -> (r: bool)
        ensures
            r == (self.app_focused && self.focus == QueryFocus::Editor),
    {
        self.app_focused && self.focus == QueryFocus::Editor
    }

    /// Gives the keyboard to the editor.
    pub fn set_focus_editor(&mut self)
        ensures
            final(self).focus == QueryFocus::Editor,
            !final(self).results.focused,
            final(self).bottom_tab == old(self).bottom_tab,
            final(self).chart_tabs@ == old(self).chart_tabs@,
            final(self).app_focused == old(self).app_focused,
            final(self).title_edit == old(self).title_edit,
            final(self).split_pct == old(self).split_pct,
            final(self).history == old(self).history,
    {
        self.focus = QueryFocus::Editor;
        self.update_focus_state();
    }

    /// Gives the keyboard to the tab under the editor.
    pub fn set_focus_results(&mut self)
        ensures
            final(self).focus == QueryFocus::Results,
            final(self).results.focused == old(self).app_focused,
            final(self).bottom_tab == old(self).bottom_tab,
            final(self).chart_tabs@ == old(self).chart_tabs@,
            final(self).app_focused == old(self).app_focused,
            final(self).title_edit == old(self).title_edit,
            final(self).split_pct == old(self).split_pct,
            final(self).history == old(self).history,
    {
        self.focus = QueryFocus::Results;
        self.update_focus_state();
    }

    /// Moves the keyboard from the editor down to the results. Returns
    /// whether it moved (it does not move past the last sub-pane).
    pub fn advance_focus(&mut self) -> (r: bool)
        ensures
            r == (old(self).focus == QueryFocus::Editor),
            final(self).focus == QueryFocus::Results,
            final(self).bottom_tab == old(self).bottom_tab,
            final(self).chart_tabs@ == old(self).chart_tabs@,
            final(self).app_focused == old(self).app_focused,
            final(self).title_edit == old(self).title_edit,
            final(self).split_pct == old(self).split_pct,
            final(self).history == old(self).history,
    {
        match self.focus {
            QueryFocus::Editor => {
                self.focus = QueryFocus::Results;
                self.update_focus_state();
                true
            },
            QueryFocus::Results => false,
        }
    }

    /// Moves the keyboard from the results up to the editor. Returns
    /// whether it moved (it does not move before the first sub-pane).
    pub fn retreat_focus(&mut self) -> (r: bool)
        ensures
            r == (old(self).focus == QueryFocus::Results),
            final(self).focus == QueryFocus::Editor,
            final(self).bottom_tab == old(self).bottom_tab,
            final(self).chart_tabs@ == old(self).chart_tabs@,
            final(self).app_focused == old(self).app_focused,
            final(self).title_edit == old(self).title_edit,
            final(self).split_pct == old(self).split_pct,
            final(self).history == old(self).history,
    {
        match self.focus {
            QueryFocus::Results => {
                self.focus = QueryFocus::Editor;
                self.update_focus_state();
                true
            },
            QueryFocus::Editor => false,
        }
    }

    /// A chart tab is shown.
    pub fn is_on_chart_tab(&self) -> (r: bool)
        ensures
            r == (self.bottom_tab is Chart),
    {
        match self.bottom_tab {
            BottomTab::Chart(_) => true,
            BottomTab::Results => false,
        }
    }

    /// The configuration of the chart tab shown, if a chart tab is shown.
    pub fn active_chart_config(&self) -> (r: Option<&ChartConfig>)
        requires
            self.wf(),
        ensures
            match self.bottom_tab {
                BottomTab::Chart(i) => r == Some(&self.chart_tabs@[i as int].config),
                BottomTab::Results => r is None,
            },
    {
        match self.bottom_tab {
            BottomTab::Chart(i) => Some(&self.chart_tabs[i].config),
            BottomTab::Results => None,
        }
    }

    /// Adds a chart tab numbered after the others and shows it, unless
    /// there are already nine. Returns whether it was added.
    pub fn create_new_chart_tab(&mut self) -> (r: bool)
        requires
            old(self).wf(),
        ensures
            final(self).wf(),
            r == (old(self).chart_tabs@.len() < MAX_CHART_TABS),
            r ==> final(self).chart_tabs@.len() == old(self).chart_tabs@.len() + 1
                && final(self).chart_tabs@.drop_last() == old(self).chart_tabs@
                && final(self).chart_tabs@.last().label@ == "Chart "@ + crate::text::decimal(final(self).chart_tabs@.len())
                && final(self).chart_tabs@.last().settings_hidden
                && final(self).chart_tabs@.last().config.x_column is None
                && final(self).chart_tabs@.last().config.y_column is None
                && final(self).bottom_tab == BottomTab::Chart(old(self).chart_tabs@.len() as usize)
                && final(self).chart.focus == ChartFocus::ChartDisplay
                && final(self).chart.settings_visible == !final(self).chart_tabs@.last().settings_hidden,
            !r ==> final(self).chart_tabs@ == old(self).chart_tabs@ && final(self).bottom_tab == old(self).bottom_tab,
            final(self).focus == old(self).focus,
    {
        if self.chart_tabs.len() >= MAX_CHART_TABS {
            return false;
        }
        let next_num = self.chart_tabs.len() + 1;
        self.chart_tabs.push(ChartTab::new(next_num));
        let new_index = self.chart_tabs.len() - 1;
        self.bottom_tab = BottomTab::Chart(new_index);
        self.sync_chart_pane_to_tab();
        true
    }

    /// Deletes the chart tab shown; the tab after it (or the one before,
    /// for the last) is shown, or the results when none is left. Returns
    /// whether a tab was deleted.
    pub fn delete_active_chart_tab(&mut self) -> (r: bool)
        requires
            old(self).wf(),
            old(self).title_edit is None,
        ensures
            final(self).wf(),
            r == (old(self).bottom_tab is Chart),
            match old(self).bottom_tab {
                BottomTab::Chart(i) => final(self).chart_tabs@ == old(self).chart_tabs@.remove(i as int)
                    && final(self).bottom_tab == (if final(self).chart_tabs@.len() == 0 {
                    BottomTab::Results
                } else if i >= final(self).chart_tabs@.len() {
                    BottomTab::Chart((final(self).chart_tabs@.len() - 1) as usize)
                } else {
                    BottomTab::Chart(i)
                }),
                BottomTab::Results => final(self).chart_tabs@ == old(self).chart_tabs@ && final(self).bottom_tab
                    == old(self).bottom_tab,
            },
            final(self).focus == old(self).focus,
            final(self).delete_confirm == old(self).delete_confirm,
            final(self).title_edit == old(self).title_edit,
    {
        match self.bottom_tab {
            BottomTab::Chart(i) => {
                self.chart_tabs.remove(i);
                if self.chart_tabs.len() == 0 {
                    self.bottom_tab = BottomTab::Results;
                } else {
                    let new_index = if i >= self.chart_tabs.len() {
                        self.chart_tabs.len() - 1
                    } else {
                        i
                    };
                    self.bottom_tab = BottomTab::Chart(new_index);
                    self.sync_chart_pane_to_tab();
                }
                true
            },
            BottomTab::Results => false,
        }
    }

    /// Loads the shown chart tab into the chart pane: its settings
    /// visibility, and the keyboard on the chart.
    pub fn sync_chart_pane_to_tab(&mut self)
        requires
            old(self).wf(),
        ensures
            final(self).wf(),
            final(self).chart_tabs@ == old(self).chart_tabs@,
            final(self).bottom_tab == old(self).bottom_tab,
            final(self).focus == old(self).focus,
            final(self).title_edit == old(self).title_edit,
            final(self).history == old(self).history,
            final(self).split_pct == old(self).split_pct,
            final(self).delete_confirm == old(self).delete_confirm,
            final(self).chart.settings == old(self).chart.settings,
            match old(self).bottom_tab {
                BottomTab::Chart(i) => final(self).chart.settings_visible == !old(self).chart_tabs@[i as int].settings_hidden
                    && final(self).chart.focus == ChartFocus::ChartDisplay,
                BottomTab::Results => final(self).chart == old(self).chart,
            },
    {
        match self.bottom_tab {
            BottomTab::Chart(i) => {
                self.chart.settings_visible = !self.chart_tabs[i].settings_hidden;
                self.chart.focus = ChartFocus::ChartDisplay;
            },
            BottomTab::Results => {},
        }
    }

    /// Writes the chart pane's settings visibility back to the shown tab.
    pub fn save_chart_pane_state(&mut self)
        requires
            old(self).wf(),
        ensures
            final(self).wf(),
            final(self).chart_tabs@.len() == old(self).chart_tabs@.len(),
            final(self).bottom_tab == old(self).bottom_tab,
            final(self).focus == old(self).focus,
            final(self).title_edit == old(self).title_edit,
            final(self).history == old(self).history,
            final(self).chart == old(self).chart,
            final(self).delete_confirm == old(self).delete_confirm,
            final(self).split_pct == old(self).split_pct,
            match old(self).bottom_tab {
                BottomTab::Chart(i) => final(self).chart_tabs@ == old(self).chart_tabs@.update(
                    i as int,
                    ChartTab { settings_hidden: !old(self).chart.settings_visible, ..old(self).chart_tabs@[i as int] },
                ),
                BottomTab::Results => final(self).chart_tabs@ == old(self).chart_tabs@,
            },
    {
        match self.bottom_tab {
            BottomTab::Chart(i) => {
                let mut t = self.chart_tabs.remove(i);
                t.settings_hidden = !self.chart.settings_visible;
                self.chart_tabs.insert(i, t);
            },
            BottomTab::Results => {},
        }
    }

    /// A key while a chart title is edited: Enter keeps the text (or the
    /// old title when it is empty), Esc puts back the old title, Backspace
    /// and characters (up to twenty) edit the text, which the tab shows as
    /// it is typed.
    pub fn handle_title_edit_key(&mut self, key: KeyEvent) -> (r: Option<Action>)
        requires
            old(self).wf(),
        ensures
            final(self).wf(),
            title_edit_key_post(*old(self), *final(self), key, r),
    {
        let edit = self.title_edit.take();
        match edit {
            Some((idx, buf, original)) => {
                match key.code {
                    KeyCode::Enter => {
                        let label = if str_chars(buf.as_str()).len() == 0 {
                            original
                        } else {
                            buf
                        };
                        self.set_label(idx, label);
                    },
                    KeyCode::Esc => {
                        self.set_label(idx, original);
                    },
                    KeyCode::Backspace => {
                        let mut chars = str_chars(buf.as_str());
                        if chars.len() > 0 {
                            chars.pop();
                        }
                        let nb = crate::text::chars_to_string(chars.as_slice());
                        let label = if chars.len() == 0 {
                            original.clone()
                        } else {
                            nb.clone()
                        };
                        self.set_label(idx, label);
                        self.title_edit = Some((idx, nb, original));
                    },
                    KeyCode::Char(c) => {
                        if str_chars(buf.as_str()).len() < MAX_TITLE_CHARS {
                            let mut nb = buf;
                            crate::text::string_push(&mut nb, c);
                            self.set_label(idx, nb.clone());
                            self.title_edit = Some((idx, nb, original));
                        } else {
                            self.title_edit = Some((idx, buf, original));
                        }
                    },
                    _ => {
                        self.title_edit = Some((idx, buf, original));
                    },
                }
            },
            None => {},
        }
        Some(Action::Render)
    }

    fn set_label(&mut self, idx: usize, label: String)
        ensures
            final(self).chart_tabs@.len() == old(self).chart_tabs@.len(),
            idx < old(self).chart_tabs@.len() ==> final(self).chart_tabs@[idx as int].label@ == label@,
            idx >= old(self).chart_tabs@.len() ==> final(self).chart_tabs@ == old(self).chart_tabs@,
            forall|j: int| 0 <= j < old(self).chart_tabs@.len() && j != idx ==> #[trigger] final(self).chart_tabs@[j] == old(self).chart_tabs@[j],
            final(self).bottom_tab == old(self).bottom_tab,
            final(self).focus == old(self).focus,
            final(self).title_edit == old(self).title_edit,
            final(self).history == old(self).history,
            final(self).split_pct == old(self).split_pct,
            final(self).delete_confirm == old(self).delete_confirm,
            final(self).chart == old(self).chart,
            final(self).nvim_available == old(self).nvim_available,
            final(self).results == old(self).results,
            final(self).app_focused == old(self).app_focused,
    {
        if idx < self.chart_tabs.len() {
            let mut t = self.chart_tabs.remove(idx);
            t.label = label;
            self.chart_tabs.insert(idx, t);
        }
    }

    /// Where a key of the query mode goes, given whether the editor is in
    /// normal mode. The history overlay, a chart title being edited and a
    /// delete confirmation each take every key first; then an open chart
    /// popup. Without nvim only Esc is left to the caller. Esc closes the
    /// row detail, gives the keyboard back from the chart settings, or goes
    /// to the editor (and on to the caller when the editor was already in
    /// normal mode). On the results side `D` asks to delete the chart shown,
    /// `T` shows the table and `1`-`9` show a chart tab. With Ctrl, Up and
    /// Down resize the editor, `c` toggles the chart settings, `n` adds a
    /// chart tab, `e` edits its title and `s` saves the query. Other keys go
    /// to the focused sub-pane.
    pub fn handle_key(&mut self, key: KeyEvent, editor_normal_mode: bool) -> (r: QueryKeyOutcome)
        requires
            old(self).wf(),
        ensures
            final(self).wf(),
            old(self).history.visible ==> (r matches QueryKeyOutcome::Handled(a) && crate::history::history_key_post(
                old(self).history,
                final(self).history,
                key,
                a,
            )) && *final(self) == (QueryPaneState { history: final(self).history, ..*old(self) }),
            !old(self).history.visible && old(self).title_edit is Some ==> (r matches QueryKeyOutcome::Handled(a)
                && title_edit_key_post(*old(self), *final(self), key, a)),
            !old(self).history.visible && old(self).title_edit is None && old(self).delete_confirm ==> !final(self).delete_confirm
                && renders(r)
                && ((key.code == KeyCode::Char('y') || key.code == KeyCode::Char('Y')) ==> chart_deleted(*old(self), *final(self)))
                && (!(key.code == KeyCode::Char('y') || key.code == KeyCode::Char('Y')) ==> final(self).chart_tabs@ == old(self).chart_tabs@
                && final(self).bottom_tab == old(self).bottom_tab),
            !old(self).history.visible && old(self).title_edit is None && !old(self).delete_confirm && old(self).bottom_tab is Chart
                && old(self).chart.settings.popup_open is Some ==> chart_forward_post(*old(self), *final(self), key, r),
            !old(self).history.visible && old(self).title_edit is None && !old(self).delete_confirm
                && !(old(self).bottom_tab is Chart && old(self).chart.settings.popup_open is Some)
                && !old(self).nvim_available ==> (r matches QueryKeyOutcome::Handled(a) && (key.code == KeyCode::Esc <==> a is None)),
            !old(self).history.visible && old(self).title_edit is None && !old(self).delete_confirm
                && !(old(self).bottom_tab is Chart && old(self).chart.settings.popup_open is Some)
                && old(self).nvim_available && key.code == KeyCode::Esc && old(self).focus == QueryFocus::Editor
                ==> (r matches QueryKeyOutcome::ToEditorThen(a) && (a is None <==> editor_normal_mode)),
            !old(self).history.visible && old(self).title_edit is None && !old(self).delete_confirm
                && !(old(self).bottom_tab is Chart && old(self).chart.settings.popup_open is Some)
                && old(self).nvim_available && key.modifiers.control && key.code == KeyCode::Up
                && old(self).focus == QueryFocus::Editor ==> (r matches QueryKeyOutcome::Handled(Some(Action::Render))
                && final(self).split_pct == (if old(self).split_pct > 15 { old(self).split_pct - 5 } else { old(self).split_pct as int })),
            !old(self).history.visible && old(self).title_edit is None && !old(self).delete_confirm
                && !(old(self).bottom_tab is Chart && old(self).chart.settings.popup_open is Some)
                && old(self).nvim_available && key.modifiers.control && key.code == KeyCode::Down
                && old(self).focus == QueryFocus::Editor ==> (r matches QueryKeyOutcome::Handled(Some(Action::Render))
                && final(self).split_pct == (if old(self).split_pct < 85 { old(self).split_pct + 5 } else { old(self).split_pct as int })),
            !old(self).history.visible && old(self).title_edit is None && !old(self).delete_confirm
                && !(old(self).bottom_tab is Chart && old(self).chart.settings.popup_open is Some)
                && old(self).nvim_available && key.code != KeyCode::Esc && !key.modifiers.control
                && old(self).focus == QueryFocus::Editor ==> (r matches QueryKeyOutcome::ToEditor),
            !old(self).history.visible && old(self).title_edit is None && !old(self).delete_confirm
                && !(old(self).bottom_tab is Chart && old(self).chart.settings.popup_open is Some)
                && old(self).nvim_available && key.modifiers.control && key.code == KeyCode::Char('s')
                && old(self).focus == QueryFocus::Results && !(old(self).bottom_tab is Chart && old(self).chart.focus == ChartFocus::ChartDisplay)
                ==> (r matches QueryKeyOutcome::Handled(Some(Action::SaveQueryToHistory))),
            results_side_key(*old(self), key) && chart_display_focused(*old(self)) && (key.code == KeyCode::Char('D')
                || key.code == KeyCode::Char('d')) ==> (r matches QueryKeyOutcome::Handled(Some(Action::Render)))
                && final(self).delete_confirm && final(self).chart_tabs@ == old(self).chart_tabs@
                && final(self).bottom_tab == old(self).bottom_tab,
            results_side_key(*old(self), key) && !chart_settings_focused(*old(self)) && (key.code == KeyCode::Char('t')
                || key.code == KeyCode::Char('T')) ==> (r matches QueryKeyOutcome::Handled(Some(Action::Render)))
                && final(self).bottom_tab == BottomTab::Results && final(self).chart_tabs@.len() == old(self).chart_tabs@.len(),
            results_side_key(*old(self), key) && !chart_settings_focused(*old(self)) && (digit_tab(key) matches Some(i)
                && i < old(self).chart_tabs@.len()) ==> (r matches QueryKeyOutcome::Prepare(Some(Action::Render)))
                && final(self).bottom_tab == BottomTab::Chart(digit_tab(key).unwrap() as usize)
                && final(self).chart_tabs@.len() == old(self).chart_tabs@.len(),
            results_side_key(*old(self), key) && key.modifiers.control && key.code == KeyCode::Char('n') ==> if old(
                self,
            ).chart_tabs@.len() < MAX_CHART_TABS {
                (r matches QueryKeyOutcome::Prepare(Some(Action::Render)))
                    && final(self).chart_tabs@.len() == old(self).chart_tabs@.len() + 1
                    && final(self).chart_tabs@.drop_last() == old(self).chart_tabs@
                    && final(self).chart_tabs@.last().label@ == "Chart "@ + crate::text::decimal(final(self).chart_tabs@.len())
                    && final(self).chart_tabs@.last().settings_hidden
                    && final(self).bottom_tab == BottomTab::Chart(old(self).chart_tabs@.len() as usize)
            } else {
                (r matches QueryKeyOutcome::Handled(Some(Action::Render))) && final(self).chart_tabs@ == old(self).chart_tabs@
                    && final(self).bottom_tab == old(self).bottom_tab
            },
            results_side_key(*old(self), key) && key.modifiers.control && key.code == KeyCode::Char('e') && (old(
                self,
            ).bottom_tab matches BottomTab::Chart(i)) ==> (r matches QueryKeyOutcome::Handled(Some(Action::Render)))
                && (final(self).title_edit matches Some((j, t, o)) && old(self).bottom_tab == BottomTab::Chart(j)
                && t@ == old(self).chart_tabs@[j as int].label@ && o@ == t@),
            results_side_key(*old(self), key) && !results_side_special(*old(self), key) && old(self).bottom_tab is Results
                ==> (r matches QueryKeyOutcome::Handled(a) && crate::results::results_key_post(
                old(self).results,
                final(self).results,
                key,
                a,
            )) && final(self).chart_tabs@ == old(self).chart_tabs@ && final(self).bottom_tab == old(self).bottom_tab,
            results_side_key(*old(self), key) && !results_side_special(*old(self), key) && old(self).bottom_tab is Chart
                ==> chart_forward_post(*old(self), *final(self), key, r),
    {
        if self.history.visible {
            return QueryKeyOutcome::Handled(self.history.handle_key(key));
        }
        if self.title_edit.is_some() {
            return QueryKeyOutcome::Handled(self.handle_title_edit_key(key));
        }
        if self.delete_confirm {
            match key.code {
                KeyCode::Char('y') | KeyCode::Char('Y') => {
                    self.delete_confirm = false;
                    let was_chart = self.is_on_chart_tab();
                    self.delete_active_chart_tab();
                    if was_chart && self.is_on_chart_tab() {
                        return QueryKeyOutcome::Prepare(Some(Action::Render));
                    }
                },
                _ => {
                    self.delete_confirm = false;
                },
            }
            return QueryKeyOutcome::Handled(Some(Action::Render));
        }
        if let BottomTab::Chart(i) = self.bottom_tab {
            if self.chart.settings.popup_open.is_some() {
                let ghost pre_chart = self.chart;
                let ghost pre_tabs = self.chart_tabs@;
                let mut tab = self.chart_tabs.remove(i);
                let (a, generate) = self.chart.handle_settings_key(key, &mut tab.config);
                let ghost cfg = tab.config;
                self.chart_tabs.insert(i, tab);
                self.save_chart_pane_state();
                proof {
                    assert(self.chart_tabs@[i as int].config == cfg);
                    assert(chart_pane_key_post(pre_chart, self.chart, pre_tabs[i as int].config, self.chart_tabs@[i as int].config, key, (a, generate)));
                }
                if generate {
                    return QueryKeyOutcome::Generate(a);
                }
                return QueryKeyOutcome::Handled(a);
            }
        }
        if !self.nvim_available {
            if key.code == KeyCode::Esc {
                return QueryKeyOutcome::Handled(None);
            }
            return QueryKeyOutcome::Handled(Some(Action::Render));
        }
        if key.code == KeyCode::Esc && self.focus == QueryFocus::Results && self.bottom_tab == BottomTab::Results
            && self.results.row_detail.visible {
            self.results.row_detail.handle_key(key);
            return QueryKeyOutcome::Handled(Some(Action::Render));
        }
        if key.code == KeyCode::Esc {
            if self.focus == QueryFocus::Results && self.is_on_chart_tab() {
                if self.chart.focus == ChartFocus::Settings {
                    self.chart.focus = ChartFocus::ChartDisplay;
                    return QueryKeyOutcome::Handled(Some(Action::Render));
                }
                return QueryKeyOutcome::Handled(None);
            }
            if self.focus != QueryFocus::Editor {
                return QueryKeyOutcome::Handled(None);
            }
            if editor_normal_mode {
                return QueryKeyOutcome::ToEditorThen(None);
            }
            return QueryKeyOutcome::ToEditorThen(Some(Action::Render));
        }
        if self.focus == QueryFocus::Results {
            if self.is_on_chart_tab() && self.chart.focus == ChartFocus::ChartDisplay {
                if key.code == KeyCode::Char('D') || key.code == KeyCode::Char('d') {
                    self.delete_confirm = true;
                    return QueryKeyOutcome::Handled(Some(Action::Render));
                }
            }
            let settings_focused = self.is_on_chart_tab() && self.chart.focus == ChartFocus::Settings;
            if !settings_focused {
                match key.code {
                    KeyCode::Char('t') | KeyCode::Char('T') => {
                        self.save_chart_pane_state();
                        self.bottom_tab = BottomTab::Results;
                        return QueryKeyOutcome::Handled(Some(Action::Render));
                    },
                    KeyCode::Char(ch) => {
                        if '1' <= ch && ch <= '9' {
                            let idx = (ch as u32 - '1' as u32) as usize;
                            if idx < self.chart_tabs.len() {
                                self.save_chart_pane_state();
                                self.bottom_tab = BottomTab::Chart(idx);
                                self.sync_chart_pane_to_tab();
                                return QueryKeyOutcome::Prepare(Some(Action::Render));
                            }
                        }
                    },
                    _ => {},
                }
            }
        }
        if key.modifiers.contains(KeyModifiers::control_only()) {
            match key.code {
                KeyCode::Up => {
                    if self.split_pct > 15 {
                        self.split_pct -= 5;
                    }
                    return QueryKeyOutcome::Handled(Some(Action::Render));
                },
                KeyCode::Down => {
                    if self.split_pct < 85 {
                        self.split_pct += 5;
                    }
                    return QueryKeyOutcome::Handled(Some(Action::Render));
                },
                KeyCode::Char('c') => {
                    if self.focus == QueryFocus::Results && self.is_on_chart_tab() {
                        self.chart.toggle_settings();
                        self.save_chart_pane_state();
                        return QueryKeyOutcome::Handled(Some(Action::Render));
                    }
                },
                KeyCode::Char('n') => {
                    if self.focus == QueryFocus::Results {
                        if self.create_new_chart_tab() {
                            return QueryKeyOutcome::Prepare(Some(Action::Render));
                        }
                        return QueryKeyOutcome::Handled(Some(Action::Render));
                    }
                },
                KeyCode::Char('e') => {
                    if self.focus == QueryFocus::Results {
                        if let BottomTab::Chart(i) = self.bottom_tab {
                            let current = self.chart_tabs[i].label.clone();
                            self.title_edit = Some((i, current.clone(), current));
                            return QueryKeyOutcome::Handled(Some(Action::Render));
                        }
                    }
                },
                KeyCode::Char('s') => {
                    if self.focus == QueryFocus::Results {
                        return QueryKeyOutcome::Handled(Some(Action::SaveQueryToHistory));
                    }
                },
                _ => {},
            }
        }
        match self.focus {
            QueryFocus::Editor => QueryKeyOutcome::ToEditor,
            QueryFocus::Results => match self.bottom_tab {
                BottomTab::Results => QueryKeyOutcome::Handled(self.results.handle_key(key)),
                BottomTab::Chart(i) => {
                    let ghost pre_chart = self.chart;
                    let ghost pre_tabs = self.chart_tabs@;
                    let mut tab = self.chart_tabs.remove(i);
                    let (a, generate) = self.chart.handle_key(key, &mut tab.config);
                    let ghost cfg = tab.config;
                    self.chart_tabs.insert(i, tab);
                    self.save_chart_pane_state();
                    proof {
                        assert(self.chart_tabs@[i as int].config == cfg);
                        assert(chart_pane_key_post(pre_chart, self.chart, pre_tabs[i as int].config, self.chart_tabs@[i as int].config, key, (a, generate)));
                    }
                    if generate {
                        QueryKeyOutcome::Generate(a)
                    } else {
                        QueryKeyOutcome::Handled(a)
                    }
                },
            },
        }
    }
}

} // verus!
