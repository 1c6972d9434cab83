//! The settings mode: the connection picker, the cache buttons and the
//! theme editor, and how keys move between and act on them.

use vstd::prelude::*;
use crate::action::Action;
use crate::config::{SnowflakeConnection, names_distinct, sort_names, spec_resolve_connection, strings_view};
use crate::keys::{KeyCode, KeyEvent};
use crate::parser::opt_view;
use crate::text::{str_eq, str_to_string};
use crate::theme::ThemeConfig;
use crate::theme_editor::{STATUS_TIMEOUT_MS, ThemeEditorPane, live_status, status_is};

verus! {

/// Which pane of the settings has the keyboard.
#[derive(Debug, Clone, Copy, PartialEq, Eq, Structural)]
pub enum SettingsFocus {
    Connection,
    Cache,
    Theme,
}

/// The fields of the connection pane.
#[derive(Debug, Clone, Copy, PartialEq, Eq, Structural)]
pub enum ConnField {
    Connection,
    ApplyButton,
}

/// The position of a connection pane field.
pub open spec fn conn_field_index(f: ConnField) -> usize {
    match f {
        ConnField::Connection => 0usize,
        ConnField::ApplyButton => 1usize,
    }
}

/// The position of a cache pane button.
pub open spec fn cache_field_index(f: CacheField) -> usize {
    match f {
        CacheField::ClearCacheButton => 0usize,
        CacheField::RefreshNowButton => 1usize,
    }
}

impl ConnField {
    /// The position of the field.
    pub fn index(self) -> (r: usize)
        ensures
            r == conn_field_index(self),
    {
        match self {
            ConnField::Connection => 0,
            ConnField::ApplyButton => 1,
        }
    }

    /// The field at a position (the last for positions past the end).
    pub fn from_index(idx: usize) -> (r: Self)
        ensures
            conn_field_index(r) == (if idx < 1 { idx } else { 1 }),
    {
        if idx == 0 {
            ConnField::Connection
        } else {
            ConnField::ApplyButton
        }
    }
}

/// The buttons of the cache pane.
#[derive(Debug, Clone, Copy, PartialEq, Eq, Structural)]
pub enum CacheField {
    ClearCacheButton,
    RefreshNowButton,
}

impl CacheField {
    /// The position of the button.
    pub fn index(self) -> (r: usize)
        ensures
            r == cache_field_index(self),
    {
        match self {
            CacheField::ClearCacheButton => 0,
            CacheField::RefreshNowButton => 1,
        }
    }

    /// The button at a position (the last for positions past the end).
    pub fn from_index(idx: usize) -> (r: Self)
        ensures
            cache_field_index(r) == (if idx < 1 { idx } else { 1 }),
    {
        if idx == 0 {
            CacheField::ClearCacheButton
        } else {
            CacheField::RefreshNowButton
        }
    }
}

/// Whether the connection list is open.
#[derive(Debug, Clone, Copy, PartialEq, Eq, Structural)]
pub enum InputMode {
    Normal,
    PopupOpen,
}

/// The settings mode.
pub struct SettingsPane {
    /// Whether the mode has the keyboard.
    pub app_focused: bool,
    /// Which pane is focused.
    pub focus: SettingsFocus,
    pub input_mode: InputMode,
    pub conn_field: ConnField,
    pub cache_field: CacheField,
    /// The configured connection names, sorted.
    pub connection_names: Vec<String>,
    /// The configured connections by name.
    pub connections: Vec<(String, SnowflakeConnection)>,
    /// The connection shown as selected.
    pub selected_connection_idx: usize,
    /// The entry highlighted in the connection list.
    pub popup_index: usize,
    /// The connection in use.
    pub active_connection: Option<String>,
    pub cache_dir: String,
    pub cache_last_refreshed: Option<String>,
    pub cache_size_bytes: u64,
    /// Catalog refresh progress.
    pub refresh_running: usize,
    pub refresh_total: usize,
    /// Status of the connection pane, and when it was set.
    pub conn_status: Option<(String, u64)>,
    /// Status of the cache pane, and when it was set.
    pub cache_status: Option<(String, u64)>,
    pub theme_pane: ThemeEditorPane,
}

/// The position of the first string equal to `name`.
fn find_name(v: &Vec<String>, name: &str) -> (r: Option<usize>)
    ensures
        match r {
            Some(i) => i < v@.len() && v@[i as int]@ == name@ && forall|j: int| 0 <= j < i ==> (#[trigger] v@[j])@ != name@,
            None => forall|j: int| 0 <= j < v@.len() ==> (#[trigger] v@[j])@ != name@,
        },
{
    let mut i: usize = 0;
    while i < v.len()
        invariant
            i <= v@.len(),
            forall|j: int| 0 <= j < i ==> (#[trigger] v@[j])@ != name@,
        decreases v@.len() - i,
    {
        if str_eq(v[i].as_str(), name) {
            return Some(i);
        }
        i += 1;
    }
    None
}

/// The position of the first name equal to `name`, or 0.
pub open spec fn name_position(names: Seq<Seq<char>>, name: Seq<char>) -> int {
    if exists|i: int| 0 <= i < names.len() && names[i] == name {
        choose|i: int| 0 <= i < names.len() && names[i] == name
    } else {
        0
    }
}

/// What a key does in the connection pane.
pub open spec fn conn_key_post(pre: SettingsPane, post: SettingsPane, key: KeyEvent, now_ms: u64, r: Option<Action>) -> bool {
    &&& post.connection_names@ == pre.connection_names@
    &&& post.focus == pre.focus
    &&& pre.input_mode == InputMode::Normal ==> ({
            let code = key.code;
            if code == KeyCode::Char('j') || code == KeyCode::Down || code == KeyCode::Char('k') || code == KeyCode::Up {
                r matches Some(Action::Render) && post.conn_field != pre.conn_field
                    && post.input_mode == InputMode::Normal
            } else if code == KeyCode::Enter || code == KeyCode::Char(' ') {
                match pre.conn_field {
                    ConnField::Connection => r matches Some(Action::Render),
                    ConnField::ApplyButton => (r matches Some(Action::ApplyOverrides { connection_name })
                        && opt_view(connection_name) == pre.selected_name())
                        && opt_view(post.active_connection) == pre.selected_name()
                        && status_is(post.conn_status, "Connection applied"@, now_ms),
                }
            } else if code == KeyCode::Char('l') || code == KeyCode::Right {
                if pre.conn_field == ConnField::Connection {
                    r matches Some(Action::Render) && (pre.connection_names@.len() > 0
                        ==> post.input_mode == InputMode::PopupOpen
                        && post.popup_index == pre.selected_connection_idx)
                } else {
                    r is None
                }
            } else {
                r is None && post.conn_field == pre.conn_field
                    && post.input_mode == pre.input_mode
            }
        })
}

/// What a key does while the connection list is open.
pub open spec fn popup_key_post(pre: SettingsPane, post: SettingsPane, key: KeyEvent, r: Option<Action>) -> bool {
    &&& post.connection_names@ == pre.connection_names@
    &&& post.focus == pre.focus
    &&& post.conn_field == pre.conn_field
    &&& post.active_connection == pre.active_connection
    &&& ({
            let count = pre.connection_names@.len();
            let code = key.code;
            if count == 0 {
                r matches Some(Action::Render) && post.input_mode == InputMode::Normal
            } else if code == KeyCode::Esc {
                r matches Some(Action::Render) && post.input_mode == InputMode::Normal
                    && post.selected_connection_idx == pre.selected_connection_idx
            } else if code == KeyCode::Char('j') || code == KeyCode::Down {
                r matches Some(Action::Render) && post.input_mode == pre.input_mode
                    && post.popup_index == (if pre.popup_index + 1 < count { pre.popup_index + 1 } else { pre.popup_index as int })
            } else if code == KeyCode::Char('k') || code == KeyCode::Up {
                r matches Some(Action::Render) && post.input_mode == pre.input_mode
                    && post.popup_index == (if pre.popup_index > 0 { pre.popup_index - 1 } else { 0 })
            } else if code == KeyCode::Enter {
                r matches Some(Action::Render) && post.input_mode == InputMode::Normal
                    && post.selected_connection_idx == pre.popup_index
            } else {
                r is None && post.input_mode == pre.input_mode
                    && post.popup_index == pre.popup_index
                    && post.selected_connection_idx == pre.selected_connection_idx
            }
        })
}

/// What a key does in the cache pane.
pub open spec fn cache_key_post(pre: SettingsPane, post: SettingsPane, key: KeyEvent, now_ms: u64, r: Option<Action>) -> bool {
    &&& post.connection_names@ == pre.connection_names@
    &&& post.focus == pre.focus
    &&& post.input_mode == pre.input_mode
    &&& ({
            let code = key.code;
            if code == KeyCode::Char('l') || code == KeyCode::Right || code == KeyCode::Char('h') || code == KeyCode::Left {
                r matches Some(Action::Render) && post.cache_field != pre.cache_field
            } else if code == KeyCode::Enter || code == KeyCode::Char(' ') {
                post.cache_field == pre.cache_field && match pre.cache_field {
                    CacheField::ClearCacheButton => r matches Some(Action::ClearCache)
                        && status_is(post.cache_status, "Clearing cache..."@, now_ms),
                    CacheField::RefreshNowButton => r matches Some(Action::RefreshCatalog)
                        && status_is(post.cache_status, "Refreshing catalog..."@, now_ms),
                }
            } else {
                r is None && post.cache_field == pre.cache_field
                    && post.cache_status == pre.cache_status
            }
        })
}

/// A key for the theme editor: it changes the editor as the editor's own
/// contract says, and nothing else of the settings.
pub open spec fn theme_key_post(pre: SettingsPane, post: SettingsPane, key: KeyEvent, now_ms: u64, r: Option<Action>) -> bool {
    &&& crate::theme_editor::key_post(pre.theme_pane, post.theme_pane, key, now_ms, r)
    &&& post == SettingsPane { theme_pane: post.theme_pane, ..pre }
}

/// What a key does in the settings mode: with the connection list open it
/// goes to the list; Esc is left to the caller with nothing changed, except
/// in the theme pane, which sees it first; other keys go to the focused pane.
pub open spec fn settings_key_post(pre: SettingsPane, post: SettingsPane, key: KeyEvent, now_ms: u64, r: Option<Action>) -> bool {
    if pre.focus == SettingsFocus::Connection && pre.input_mode == InputMode::PopupOpen {
        popup_key_post(pre, post, key, r)
    } else if key.code == KeyCode::Esc && pre.focus != SettingsFocus::Theme {
        r is None && post == pre
    } else {
        match pre.focus {
            SettingsFocus::Connection => conn_key_post(pre, post, key, now_ms, r),
            SettingsFocus::Cache => cache_key_post(pre, post, key, now_ms, r),
            SettingsFocus::Theme => theme_key_post(pre, post, key, now_ms, r),
        }
    }
}

/// What an action does to the settings: a status after the cache was
/// cleared or the catalog refreshed, the theme editor reloaded after a
/// saved theme; nothing else changes, and other actions change nothing.
pub open spec fn settings_update_post(
    pre: SettingsPane,
    post: SettingsPane,
    action: Action,
    applied_theme: ThemeConfig,
    now_ms: u64,
    r: Option<Action>,
) -> bool {
    match action {
        Action::CacheClearDone => r matches Some(Action::Render)
            && status_is(post.cache_status, "Cache cleared successfully"@, now_ms)
            && post == SettingsPane { cache_status: post.cache_status, ..pre },
        Action::CatalogLoaded(..) => r matches Some(Action::Render)
            && status_is(post.cache_status, "Catalog refreshed"@, now_ms)
            && post == SettingsPane { cache_status: post.cache_status, ..pre },
        Action::ThemeSaved => r matches Some(Action::Render) && post.theme_pane.working_config == applied_theme
            && !post.theme_pane.editing
            && status_is(post.theme_pane.status, "Theme saved and applied"@, now_ms)
            && post == SettingsPane { theme_pane: post.theme_pane, ..pre },
        _ => r is None && post == pre,
    }
}

impl SettingsPane {
    /// The theme editor is well formed.
    pub open spec fn wf(&self) -> bool {
        self.theme_pane.wf()
    }

    /// The name of the selected connection, if it exists.
    pub open spec fn selected_name(&self) -> Option<Seq<char>> {
        if self.selected_connection_idx < self.connection_names@.len() {
            Some(self.connection_names@[self.selected_connection_idx as int]@)
        } else {
            None
        }
    }

    pub fn new() -> (r: Self)
        ensures
            r.wf(),
            !r.app_focused,
            r.focus == SettingsFocus::Connection,
            r.input_mode == InputMode::Normal,
            r.conn_field == ConnField::Connection,
            r.cache_field == CacheField::ClearCacheButton,
            r.connection_names@.len() == 0,
            r.connections@.len() == 0,
            r.selected_connection_idx == 0,
            r.popup_index == 0,
            r.active_connection is None,
            r.cache_size_bytes == 0,
            r.refresh_running == 0,
            r.refresh_total == 0,
            r.conn_status is None,
            r.cache_status is None,
    {
        SettingsPane {
            app_focused: false,
            focus: SettingsFocus::Connection,
            input_mode: InputMode::Normal,
            conn_field: ConnField::Connection,
            cache_field: CacheField::ClearCacheButton,
            connection_names: Vec::new(),
            connections: Vec::new(),
            selected_connection_idx: 0,
            popup_index: 0,
            active_connection: None,
            cache_dir: String::new(),
            cache_last_refreshed: None,
            cache_size_bytes: 0,
            refresh_running: 0,
            refresh_total: 0,
            conn_status: None,
            cache_status: None,
            theme_pane: ThemeEditorPane::new(),
        }
    }

    /// Takes the configured connections (distinct names), the default
    /// connection, the cache directory and the theme in use. The names are
    /// sorted; the active connection is the default, or else the one named
    /// `default`, or else the first name; it is also the selected one.
    pub fn init_from_config(
        &mut self,
        connections: Vec<(String, SnowflakeConnection)>,
        default_connection: Option<String>,
        cache_dir: String,
        theme: ThemeConfig,
    )
        requires
            old(self).wf(),
            names_distinct(connections@.map_values(|c: (String, SnowflakeConnection)| c.0@)),
        ensures
            final(self).wf(),
            crate::config::names_sorted(strings_view(final(self).connection_names@)),
            forall|e: Seq<char>| strings_view(final(self).connection_names@).contains(e) <==> connections@.map_values(
                |c: (String, SnowflakeConnection)| c.0@,
            ).contains(e),
            final(self).connections@ == connections@,
            ({
                let resolved = spec_resolve_connection(opt_view(default_connection), strings_view(final(self).connection_names@));
                match resolved {
                    Some(name) => opt_view(final(self).active_connection) == Some(name)
                        && final(self).selected_connection_idx == name_position(strings_view(final(self).connection_names@), name),
                    None => final(self).active_connection == old(self).active_connection
                        && final(self).selected_connection_idx == old(self).selected_connection_idx,
                }
            }),
            final(self).cache_dir@ == cache_dir@,
            final(self).theme_pane.working_config == theme,
            final(self).focus == old(self).focus,
    {
        let mut names: Vec<String> = Vec::new();
        let mut i: usize = 0;
        while i < connections.len()
            invariant
                i <= connections@.len(),
                strings_view(names@) == connections@.take(i as int).map_values(|c: (String, SnowflakeConnection)| c.0@),
            decreases connections@.len() - i,
        {
            let ghost prev = names@;
            names.push(connections[i].0.clone());
            assert(strings_view(names@) =~= strings_view(prev).push(connections@[i as int].0@));
            assert(connections@.take(i + 1) =~= connections@.take(i as int).push(connections@[i as int]));
            assert(strings_view(names@) =~= connections@.take(i + 1).map_values(|c: (String, SnowflakeConnection)| c.0@));
            i += 1;
        }
        assert(connections@.take(connections@.len() as int) =~= connections@);
        let sorted = sort_names(names);
        self.connections = connections;
        let resolved = crate::config::resolve_connection(default_connection, &sorted);
        match &resolved {
            Some(name) => {
                let p = match find_name(&sorted, name.as_str()) {
                    Some(k) => k,
                    None => sorted.len(),
                };
                proof {
                    let sv = strings_view(sorted@);
                    if p < sorted@.len() {
                        assert(sv[p as int] == name@);
                        assert forall|j: int| 0 <= j < sv.len() && sv[j] == name@ implies j == p by {
                            if j < p {
                                assert(sorted@[j]@ != name@);
                            } else if j > p {
                                assert(crate::text::seq_lt(sv[p as int], sv[j]));
                                crate::text::lemma_seq_lt_irreflexive(name@);
                            }
                        }
                    } else {
                        assert forall|j: int| 0 <= j < sv.len() implies sv[j] != name@ by {
                            assert(sorted@[j]@ != name@);
                        }
                    }
                }
                self.selected_connection_idx = if p < sorted.len() {
                    p
                } else {
                    0
                };
                self.active_connection = Some(name.clone());
            },
            None => {},
        }
        self.connection_names = sorted;
        self.cache_dir = cache_dir;
        self.theme_pane.load_from_config(theme);
    }

    /// The name of the selected connection.
    pub fn current_connection_name(&self) -> (r: Option<String>)
        ensures
            opt_view(r) == self.selected_name(),
    {
        if self.selected_connection_idx < self.connection_names.len() {
            Some(self.connection_names[self.selected_connection_idx].clone())
        } else {
            None
        }
    }

    /// The status message still shown at `now`.
    pub fn active_status(status: &Option<(String, u64)>, now_ms: u64) -> (r: Option<String>)
        ensures
            opt_view(r) == live_status(*status, now_ms),
    {
        match status {
            Some((msg, ts)) => {
                if now_ms < *ts || now_ms - *ts < STATUS_TIMEOUT_MS {
                    Some(msg.clone())
                } else {
                    None
                }
            },
            None => None,
        }
    }

    /// Opens the connection list at the selected connection, when there are
    /// connections.
    pub fn open_connection_popup(&mut self)
        ensures
            old(self).connection_names@.len() > 0 ==> final(self).input_mode == InputMode::PopupOpen
                && final(self).popup_index == old(self).selected_connection_idx,
            old(self).connection_names@.len() == 0 ==> final(self).input_mode == old(self).input_mode
                && final(self).popup_index == old(self).popup_index,
            final(self).selected_connection_idx == old(self).selected_connection_idx,
            final(self).connection_names@ == old(self).connection_names@,
            final(self).active_connection == old(self).active_connection,
            final(self).conn_field == old(self).conn_field,
            final(self).focus == old(self).focus,
            final(self).theme_pane == old(self).theme_pane,
    {
        if self.connection_names.len() > 0 {
            self.input_mode = InputMode::PopupOpen;
            self.popup_index = self.selected_connection_idx;
        }
    }

    /// A key in the connection pane: with the list open it goes to the
    /// list; otherwise `j`/Down and `k`/Up cycle the fields, Enter/Space
    /// activate the focused field, and `l`/Right opens the list from the
    /// connection field.
    pub fn handle_conn_key(&mut self, key: KeyEvent, now_ms: u64) -> (r: Option<Action>)
        requires
            old(self).wf(),
        ensures
            final(self).wf(),
            conn_key_post(*old(self), *final(self), key, now_ms, r),
            old(self).input_mode == InputMode::PopupOpen ==> popup_key_post(*old(self), *final(self), key, r),
    {
        if self.input_mode == InputMode::PopupOpen {
            return self.handle_popup_key(key);
        }
        match key.code {
            KeyCode::Char('j') | KeyCode::Down => {
                let idx = self.conn_field.index();
                self.conn_field = ConnField::from_index((idx + 1) % 2);
                Some(Action::Render)
            },
            KeyCode::Char('k') | KeyCode::Up => {
                let idx = self.conn_field.index();
                self.conn_field = ConnField::from_index((idx + 2 - 1) % 2);
                Some(Action::Render)
            },
            KeyCode::Enter | KeyCode::Char(' ') => self.activate_conn_field(now_ms),
            KeyCode::Char('l') | KeyCode::Right => {
                if self.conn_field == ConnField::Connection {
                    self.open_connection_popup();
                    return Some(Action::Render);
                }
                None
            },
            _ => None,
        }
    }

    /// Activates the focused connection field: the connection field opens
    /// the list; Apply makes the selected connection the active one and
    /// asks the application to switch to it.
    pub fn activate_conn_field(&mut self, now_ms: u64) -> (r: Option<Action>)
        requires
            old(self).wf(),
        ensures
            final(self).wf(),
            final(self).connection_names@ == old(self).connection_names@,
            final(self).focus == old(self).focus,
            final(self).conn_field == old(self).conn_field,
            match old(self).conn_field {
                ConnField::Connection => r matches Some(Action::Render)
                    && (old(self).connection_names@.len() > 0 ==> final(self).input_mode == InputMode::PopupOpen
                    && final(self).popup_index == old(self).selected_connection_idx),
                ConnField::ApplyButton => (r matches Some(Action::ApplyOverrides { connection_name })
                    && opt_view(connection_name) == old(self).selected_name())
                    && opt_view(final(self).active_connection) == old(self).selected_name()
                    && status_is(final(self).conn_status, "Connection applied"@, now_ms)
                    && final(self).input_mode == old(self).input_mode,
            },
    {
        match self.conn_field {
            ConnField::Connection => {
                self.open_connection_popup();
                Some(Action::Render)
            },
            ConnField::ApplyButton => {
                let conn_name = self.current_connection_name();
                self.active_connection = crate::parser::clone_opt_string(&conn_name);
                self.conn_status = Some((str_to_string("Connection applied"), now_ms));
                Some(Action::ApplyOverrides { connection_name: conn_name })
            },
        }
    }

    /// A key while the connection list is open: Esc closes it, `j`/Down
    /// and `k`/Up move the highlight, Enter selects the highlighted
    /// connection and closes the list. An empty list is closed at once.
    pub fn handle_popup_key(&mut self, key: KeyEvent) -> (r: Option<Action>)
        requires
            old(self).wf(),
        ensures
            final(self).wf(),
            popup_key_post(*old(self), *final(self), key, r),
    {
        let count = self.connection_names.len();
        if count == 0 {
            self.input_mode = InputMode::Normal;
            return Some(Action::Render);
        }
        match key.code {
            KeyCode::Esc => {
                self.input_mode = InputMode::Normal;
                Some(Action::Render)
            },
            KeyCode::Char('j') | KeyCode::Down => {
                if self.popup_index < count - 1 {
                    self.popup_index += 1;
                }
                Some(Action::Render)
            },
            KeyCode::Char('k') | KeyCode::Up => {
                if self.popup_index > 0 {
                    self.popup_index -= 1;
                }
                Some(Action::Render)
            },
            KeyCode::Enter => {
                self.selected_connection_idx = self.popup_index;
                self.input_mode = InputMode::Normal;
                Some(Action::Render)
            },
            _ => None,
        }
    }

    /// A key in the cache pane: `l`/Right and `h`/Left switch between the
    /// buttons; Enter/Space presses the focused one (clear the cache, or
    /// refresh the catalog), with a status message.
    pub fn handle_cache_key(&mut self, key: KeyEvent, now_ms: u64) -> (r: Option<Action>)
        requires
            old(self).wf(),
        ensures
            final(self).wf(),
            cache_key_post(*old(self), *final(self), key, now_ms, r),
    {
        match key.code {
            KeyCode::Char('l') | KeyCode::Right => {
                let idx = self.cache_field.index();
                self.cache_field = CacheField::from_index((idx + 1) % 2);
                Some(Action::Render)
            },
            KeyCode::Char('h') | KeyCode::Left => {
                let idx = self.cache_field.index();
                self.cache_field = CacheField::from_index((idx + 2 - 1) % 2);
                Some(Action::Render)
            },
            KeyCode::Enter | KeyCode::Char(' ') => match self.cache_field {
                CacheField::ClearCacheButton => {
                    self.cache_status = Some((str_to_string("Clearing cache..."), now_ms));
                    Some(Action::ClearCache)
                },
                CacheField::RefreshNowButton => {
                    self.cache_status = Some((str_to_string("Refreshing catalog..."), now_ms));
                    Some(Action::RefreshCatalog)
                },
            },
            _ => None,
        }
    }

    /// A key for the settings mode. With the connection list open the key
    /// goes to it. Esc is left to the caller, except that the theme editor
    /// may take it. Other keys go to the focused pane.
    pub fn handle_key(&mut self, key: KeyEvent, now_ms: u64) -> (r: Option<Action>)
        requires
            old(self).wf(),
        ensures
            final(self).wf(),
            final(self).focus == old(self).focus,
            settings_key_post(*old(self), *final(self), key, now_ms, r),
    {
        if self.focus == SettingsFocus::Connection && self.input_mode == InputMode::PopupOpen {
            return self.handle_conn_key(key, now_ms);
        }
        if key.code == KeyCode::Esc {
            if self.focus == SettingsFocus::Theme {
                return self.theme_pane.handle_key(key, now_ms);
            }
            return None;
        }
        match self.focus {
            SettingsFocus::Connection => self.handle_conn_key(key, now_ms),
            SettingsFocus::Cache => self.handle_cache_key(key, now_ms),
            SettingsFocus::Theme => self.theme_pane.handle_key(key, now_ms),
        }
    }

    /// Handles the actions meant for the settings: a status after the cache
    /// was cleared or the catalog refreshed (the cache figures are read
    /// again by the caller), and a saved theme for the theme editor.
    pub fn update(&mut self, action: Action, applied_theme: ThemeConfig, now_ms: u64) -> (r: Option<Action>)
        requires
            old(self).wf(),
        ensures
            final(self).wf(),
            settings_update_post(*old(self), *final(self), action, applied_theme, now_ms, r),
    {
        match action {
            Action::CacheClearDone => {
                self.cache_status = Some((str_to_string("Cache cleared successfully"), now_ms));
                Some(Action::Render)
            },
            Action::CatalogLoaded(..) => {
                self.cache_status = Some((str_to_string("Catalog refreshed"), now_ms));
                Some(Action::Render)
            },
            Action::ThemeSaved => self.theme_pane.update(Action::ThemeSaved, applied_theme, now_ms),
            _ => None,
        }
    }
}

} // verus!
