//! The theme editor: a list of the theme's colours, a hex editor for the
//! selected one, and Save / Reset buttons.

use vstd::prelude::*;
use crate::action::Action;
use crate::keys::{KeyCode, KeyEvent};
use crate::text::{concat, spec_to_lowercase, str_chars, str_to_string, to_lowercase};
use crate::theme::{
    ThemeConfig, ThemeField, all_theme_fields, default_theme_fields, field_index, field_labels,
    is_hex_digit, parse_hex, spec_parse_hex, theme_fields,
};

verus! {

/// How long a status message stays visible, in milliseconds.
pub const STATUS_TIMEOUT_MS: u64 = 3000;

/// The number of theme fields.
pub const FIELD_COUNT: usize = 20;

/// A character of Unicode's `White_Space` property, the white space that
/// `str::trim` strips.
pub open spec fn is_white_space(c: char) -> bool {
    let n = c as u32;
    ||| 0x9 <= n <= 0xD
    ||| n == 0x20
    ||| n == 0x85
    ||| n == 0xA0
    ||| n == 0x1680
    ||| 0x2000 <= n <= 0x200A
    ||| n == 0x2028
    ||| n == 0x2029
    ||| n == 0x202F
    ||| n == 0x205F
    ||| n == 0x3000
}

/// The text without its leading white space.
pub open spec fn trim_start(s: Seq<char>) -> Seq<char>
    decreases s.len(),
{
    if s.len() > 0 && is_white_space(s[0]) {
        trim_start(s.drop_first())
    } else {
        s
    }
}

/// The text without its trailing white space.
pub open spec fn trim_end(s: Seq<char>) -> Seq<char>
    decreases s.len(),
{
    if s.len() > 0 && is_white_space(s.last()) {
        trim_end(s.drop_last())
    } else {
        s
    }
}

/// The text without leading and trailing white space, as `str::trim`
/// gives it.
pub open spec fn spec_trim(s: Seq<char>) -> Seq<char> {
    trim_end(trim_start(s))
}

fn white_space(c: char) -> (r: bool)
    ensures
        r == is_white_space(c),
{
    let n = c as u32;
    (0x9 <= n && n <= 0xD) || n == 0x20 || n == 0x85 || n == 0xA0 || n == 0x1680 || (0x2000 <= n && n <= 0x200A)
        || n == 0x2028 || n == 0x2029 || n == 0x202F || n == 0x205F || n == 0x3000
}

/// The text without leading and trailing white space.
fn trim(s: &str) -> (r: String)
    ensures
        r@ == spec_trim(s@),
{
    let v = str_chars(s);
    let n = v.len();
    let mut i: usize = 0;
    assert(v@.subrange(0, n as int) =~= v@);
    while i < n && white_space(v[i])
        invariant
            i <= n,
            n == v@.len(),
            trim_start(v@) == trim_start(v@.subrange(i as int, n as int)),
        decreases n - i,
    {
        assert(v@.subrange(i as int, n as int).drop_first() =~= v@.subrange(i + 1, n as int));
        i += 1;
    }
    let ghost t = v@.subrange(i as int, n as int);
    assert(trim_start(t) == t);
    let mut j: usize = n;
    while j > i && white_space(v[j - 1])
        invariant
            i <= j <= n,
            n == v@.len(),
            t == v@.subrange(i as int, n as int),
            trim_end(t) == trim_end(v@.subrange(i as int, j as int)),
        decreases j - i,
    {
        assert(v@.subrange(i as int, j as int).drop_last() =~= v@.subrange(i as int, j - 1));
        j -= 1;
    }
    assert(trim_end(v@.subrange(i as int, j as int)) == v@.subrange(i as int, j as int));
    let mut out: Vec<char> = Vec::new();
    let mut k: usize = i;
    while k < j
        invariant
            i <= k <= j <= n,
            n == v@.len(),
            out@ == v@.subrange(i as int, k as int),
        decreases j - k,
    {
        out.push(v[k]);
        assert(v@.subrange(i as int, k + 1) =~= v@.subrange(i as int, k as int).push(v@[k as int]));
        k += 1;
    }
    crate::text::chars_to_string(out.as_slice())
}

/// Which area of the editor has the keyboard.
#[derive(Debug, Clone, Copy, PartialEq, Eq, Structural)]
pub enum ThemeFocusArea {
    ColorList,
    Buttons,
}

/// Which button is focused.
#[derive(Debug, Clone, Copy, PartialEq, Eq, Structural)]
pub enum ThemeButton {
    Save,
    ResetDefaults,
}

/// The hex text an edit is stored as: trimmed, lowercased, and with a `#`
/// in front when it has none.
pub open spec fn spec_normalize_hex(input: Seq<char>) -> Seq<char> {
    let t = spec_trim(input);
    if t.len() > 0 && t[0] == '#' {
        spec_to_lowercase(t)
    } else {
        seq!['#'] + spec_to_lowercase(t)
    }
}

/// The status message still shown at `now`: set less than three seconds
/// before.
pub open spec fn live_status(status: Option<(String, u64)>, now_ms: u64) -> Option<Seq<char>> {
    match status {
        Some((msg, ts)) => if now_ms < ts || now_ms - ts < STATUS_TIMEOUT_MS {
            Some(msg@)
        } else {
            None
        },
        None => None,
    }
}

/// The status holds message `msg` set at `t`.
pub open spec fn status_is(status: Option<(String, u64)>, msg: Seq<char>, t: u64) -> bool {
    match status {
        Some((m, ts)) => m@ == msg && ts == t,
        None => false,
    }
}

/// The message shown when Save finds a field that is not a hex colour.
pub open spec fn invalid_hex_message(label: Seq<char>, hex: Seq<char>) -> Seq<char> {
    "Invalid hex for "@ + label + ": "@ + hex
}

/// The position of the first field of a configuration that is not a hex
/// colour.
fn first_invalid_field(config: &ThemeConfig) -> (r: Option<usize>)
    ensures
        match r {
            Some(i) => i < 20 && spec_parse_hex(theme_fields(*config)[i as int]) is None
                && forall|j: int| 0 <= j < i ==> spec_parse_hex(#[trigger] theme_fields(*config)[j]) is Some,
            None => forall|j: int| 0 <= j < 20 ==> spec_parse_hex(#[trigger] theme_fields(*config)[j]) is Some,
        },
{
    let fields = ThemeField::all();
    let ghost f = theme_fields(*config);
    let mut i: usize = 0;
    while i < fields.len()
        invariant
            i <= 20,
            fields@ == all_theme_fields(),
            f == theme_fields(*config),
            forall|j: int| 0 <= j < i ==> spec_parse_hex(#[trigger] f[j]) is Some,
        decreases 20 - i,
    {
        let field = fields[i];
        proof {
            assert(field_index(all_theme_fields()[i as int]) == i);
        }
        if parse_hex(field.get(config)).is_none() {
            return Some(i);
        }
        i += 1;
    }
    None
}

/// The theme editor.
pub struct ThemeEditorPane {
    /// Which colour entry is selected.
    pub selected_index: usize,
    /// Scroll offset of the list.
    pub scroll_offset: usize,
    /// The working copy of the theme configuration (not yet saved).
    pub working_config: ThemeConfig,
    /// Whether the selected entry's hex value is being edited.
    pub editing: bool,
    /// The hex input while editing.
    pub edit_buffer: String,
    /// Error for an invalid hex value.
    pub edit_error: Option<String>,
    /// Which button is focused in the button area.
    pub button_focus: ThemeButton,
    /// Whether the list or the buttons have the keyboard.
    pub focus_area: ThemeFocusArea,
    /// Status message and when it was set (milliseconds, monotonic).
    pub status: Option<(String, u64)>,
}

/// What a key does in the colour list.
pub open spec fn list_key_post(pre: ThemeEditorPane, post: ThemeEditorPane, key: KeyEvent, r: Option<Action>) -> bool {
    &&& post.working_config == pre.working_config
    &&& post.button_focus == pre.button_focus
    &&& post.status == pre.status
    &&& ({
            let code = key.code;
            if code == KeyCode::Char('j') || code == KeyCode::Down {
                r matches Some(Action::Render) && post.edit_error is None
                    && !post.editing == !pre.editing
                    && if pre.selected_index + 1 < FIELD_COUNT {
                    post.selected_index == pre.selected_index + 1
                        && post.focus_area == pre.focus_area
                } else {
                    post.selected_index == pre.selected_index
                        && post.focus_area == ThemeFocusArea::Buttons
                }
            } else if code == KeyCode::Char('k') || code == KeyCode::Up {
                r matches Some(Action::Render) && post.focus_area == pre.focus_area
                    && post.editing == pre.editing
                    && if pre.selected_index > 0 {
                    post.selected_index == pre.selected_index - 1 && post.edit_error is None
                } else {
                    post.selected_index == 0 && post.edit_error == pre.edit_error
                }
            } else if code == KeyCode::Enter {
                r matches Some(Action::Render) && post.editing && post.edit_error is None
                    && post.selected_index == pre.selected_index
                    && post.edit_buffer@ == theme_fields(pre.working_config)[pre.selected_index as int]
            } else {
                r is None && post == pre
            }
        })
}

/// What a key does on the buttons.
pub open spec fn button_key_post(pre: ThemeEditorPane, post: ThemeEditorPane, key: KeyEvent, now_ms: u64, r: Option<Action>) -> bool {
    &&& post.editing == pre.editing
    &&& ({
            let code = key.code;
            if code == KeyCode::Char('k') || code == KeyCode::Up {
                r matches Some(Action::Render) && post.focus_area == ThemeFocusArea::ColorList
                    && post.selected_index == FIELD_COUNT - 1
                    && post.working_config == pre.working_config
            } else if code == KeyCode::Char('h') || code == KeyCode::Left {
                r matches Some(Action::Render) && post.button_focus == ThemeButton::Save
                    && post.working_config == pre.working_config
                    && post.focus_area == pre.focus_area
            } else if code == KeyCode::Char('l') || code == KeyCode::Right {
                r matches Some(Action::Render) && post.button_focus == ThemeButton::ResetDefaults
                    && post.working_config == pre.working_config
                    && post.focus_area == pre.focus_area
            } else if code == KeyCode::Enter || code == KeyCode::Char(' ') {
                post.focus_area == pre.focus_area
                    && post.button_focus == pre.button_focus
                    && match pre.button_focus {
                    ThemeButton::Save => {
                        let f = theme_fields(pre.working_config);
                        post.working_config == pre.working_config
                            && if forall|i: int| 0 <= i < 20 ==> spec_parse_hex(#[trigger] f[i]) is Some {
                            r matches Some(Action::SaveTheme(c)) && theme_fields(*c) == f
                                && post.status == pre.status
                        } else {
                            r matches Some(Action::Render) && exists|i: int| 0 <= i < 20
                                && spec_parse_hex(#[trigger] f[i]) is None
                                && (forall|j: int| 0 <= j < i ==> spec_parse_hex(#[trigger] f[j]) is Some)
                                && status_is(post.status, invalid_hex_message(field_labels()[i], f[i]), now_ms)
                        }
                    },
                    ThemeButton::ResetDefaults => r matches Some(Action::ResetTheme)
                        && theme_fields(post.working_config) == default_theme_fields(),
                }
            } else {
                r is None && post == pre
            }
        })
}

/// What a key does while a hex value is edited.
pub open spec fn edit_key_post(pre: ThemeEditorPane, post: ThemeEditorPane, key: KeyEvent, r: Option<Action>) -> bool {
    &&& post.selected_index == pre.selected_index
    &&& post.focus_area == pre.focus_area
    &&& post.status == pre.status
    &&& ({
            let code = key.code;
            let buf = pre.edit_buffer@;
            if code == KeyCode::Esc {
                r matches Some(Action::Render) && !post.editing && post.edit_buffer@ == Seq::<char>::empty()
                    && post.edit_error is None && post.working_config == pre.working_config
            } else if code == KeyCode::Enter {
                r matches Some(Action::Render) && !post.editing && post.edit_buffer@ == Seq::<char>::empty()
                    && if spec_parse_hex(spec_normalize_hex(buf)) is Some {
                    post.edit_error is None && theme_fields(post.working_config) == theme_fields(
                        pre.working_config,
                    ).update(pre.selected_index as int, spec_normalize_hex(buf))
                } else {
                    post.edit_error matches Some(e) && e@ == "Invalid hex color"@
                        && post.working_config == pre.working_config
                }
            } else if code == KeyCode::Backspace {
                r matches Some(Action::Render) && post.editing == pre.editing
                    && post.edit_buffer@ == (if buf.len() > 0 { buf.drop_last() } else { buf })
                    && post.edit_error is None && post.working_config == pre.working_config
            } else if let KeyCode::Char(c) = code {
                r matches Some(Action::Render) && post.editing == pre.editing
                    && post.working_config == pre.working_config
                    && if (is_hex_digit(c) || c == '#') && buf.len() < 7 {
                    post.edit_buffer@ == buf.push(c) && post.edit_error is None
                } else {
                    post.edit_buffer@ == buf && post.edit_error == pre.edit_error
                }
            } else {
                r is None && post == pre
            }
        })
}

/// What a key does to the editor: while editing it goes to the hex
/// editor; otherwise Esc is left to the caller with nothing changed, and
/// other keys go to the list or to the buttons.
pub open spec fn key_post(pre: ThemeEditorPane, post: ThemeEditorPane, key: KeyEvent, now_ms: u64, r: Option<Action>) -> bool {
    if pre.editing {
        edit_key_post(pre, post, key, r)
    } else if key.code == KeyCode::Esc {
        r is None && post == pre
    } else {
        match pre.focus_area {
            ThemeFocusArea::ColorList => list_key_post(pre, post, key, r),
            ThemeFocusArea::Buttons => button_key_post(pre, post, key, now_ms, r),
        }
    }
}

impl ThemeEditorPane {
    /// The selected entry exists.
    pub open spec fn wf(&self) -> bool {
        self.selected_index < FIELD_COUNT
    }

    /// The editor on the default theme, first entry selected.
    pub fn new() -> (r: Self)
        ensures
            r.wf(),
            r.selected_index == 0,
            r.scroll_offset == 0,
            theme_fields(r.working_config) == default_theme_fields(),
            !r.editing,
            r.edit_buffer@ == Seq::<char>::empty(),
            r.edit_error is None,
            r.button_focus == ThemeButton::Save,
            r.focus_area == ThemeFocusArea::ColorList,
            r.status is None,
    {
        ThemeEditorPane {
            selected_index: 0,
            scroll_offset: 0,
            working_config: ThemeConfig::default(),
            editing: false,
            edit_buffer: String::new(),
            edit_error: None,
            button_focus: ThemeButton::Save,
            focus_area: ThemeFocusArea::ColorList,
            status: None,
        }
    }

    /// Loads a configuration into the working copy.
    pub fn load_from_config(&mut self, config: ThemeConfig)
        ensures
            final(self).working_config == config,
            final(self).selected_index == old(self).selected_index,
            final(self).editing == old(self).editing,
            final(self).focus_area == old(self).focus_area,
    {
        self.working_config = config;
    }

    /// Reloads the working copy from the theme in use and leaves editing.
    pub fn reload_from_applied(&mut self, applied: ThemeConfig)
        ensures
            final(self).working_config == applied,
            !final(self).editing,
            final(self).edit_buffer@ == Seq::<char>::empty(),
            final(self).edit_error is None,
            final(self).selected_index == old(self).selected_index,
            final(self).focus_area == old(self).focus_area,
            final(self).scroll_offset == old(self).scroll_offset,
            final(self).button_focus == old(self).button_focus,
            final(self).status == old(self).status,
    {
        self.working_config = applied;
        self.editing = false;
        self.edit_buffer = String::new();
        self.edit_error = None;
    }

    /// Shows a status message from `now`.
    pub fn set_status(&mut self, msg: &str, now_ms: u64)
        ensures
            status_is(final(self).status, msg@, now_ms),
            final(self).selected_index == old(self).selected_index,
            final(self).working_config == old(self).working_config,
            final(self).editing == old(self).editing,
            final(self).focus_area == old(self).focus_area,
            final(self).button_focus == old(self).button_focus,
    {
        self.status = Some((str_to_string(msg), now_ms));
    }

    /// The status message still shown at `now`.
    pub fn active_status(&self, now_ms: u64) -> (r: Option<String>)
        ensures
            crate::parser::opt_view(r) == live_status(self.status, now_ms),
    {
        match &self.status {
            Some((msg, ts)) => {
                if now_ms < *ts || now_ms - *ts < STATUS_TIMEOUT_MS {
                    Some(msg.clone())
                } else {
                    None
                }
            },
            None => None,
        }
    }

    /// Normalize a hex input: trimmed, lowercase, starting with `#`.
    pub fn normalize_hex(input: &str) -> (r: String)
        ensures
            r@ == spec_normalize_hex(input@),
    {
        let trimmed = trim(input);
        let chars = str_chars(trimmed.as_str());
        let lower = to_lowercase(trimmed.as_str());
        proof {
            reveal_strlit("#");
        }
        if chars.len() > 0 && chars[0] == '#' {
            lower
        } else {
            concat("#", lower.as_str())
        }
    }

    /// A key for the editor. While editing, keys go to the hex editor.
    /// Otherwise Esc is left to the caller (`None`), and other keys go to
    /// the list or to the buttons.
    pub fn handle_key(&mut self, key: KeyEvent, now_ms: u64) -> (r: Option<Action>)
        requires
            old(self).wf(),
        ensures
            final(self).wf(),
            key_post(*old(self), *final(self), key, now_ms, r),
    {
        if self.editing {
            return self.handle_edit_key(key);
        }
        if key.code == KeyCode::Esc {
            return None;
        }
        match self.focus_area {
            ThemeFocusArea::ColorList => self.handle_list_key(key),
            ThemeFocusArea::Buttons => self.handle_button_key(key, now_ms),
        }
    }

    /// A key in the colour list: `j`/Down moves down (past the last entry to
    /// the buttons), `k`/Up moves up, Enter starts editing the selected
    /// entry with its current value.
    pub fn handle_list_key(&mut self, key: KeyEvent) -> (r: Option<Action>)
        requires
            old(self).wf(),
        ensures
            final(self).wf(),
            list_key_post(*old(self), *final(self), key, r),
    {
        let fields = ThemeField::all();
        let field_count = fields.len();
        match key.code {
            KeyCode::Char('j') | KeyCode::Down => {
                if self.selected_index + 1 < field_count {
                    self.selected_index += 1;
                    self.edit_error = None;
                } else {
                    self.focus_area = ThemeFocusArea::Buttons;
                    self.edit_error = None;
                }
                Some(Action::Render)
            },
            KeyCode::Char('k') | KeyCode::Up => {
                if self.selected_index > 0 {
                    self.selected_index -= 1;
                    self.edit_error = None;
                }
                Some(Action::Render)
            },
            KeyCode::Enter => {
                let field = fields[self.selected_index];
                proof {
                    assert(field_index(all_theme_fields()[self.selected_index as int]) == self.selected_index);
                }
                self.edit_buffer = str_to_string(field.get(&self.working_config));
                self.editing = true;
                self.edit_error = None;
                Some(Action::Render)
            },
            _ => None,
        }
    }

    /// A key on the buttons: `k`/Up returns to the last list entry,
    /// `h`/Left and `l`/Right pick Save or Reset, Enter/Space presses the
    /// button. Save checks every field: the first that is not a hex colour
    /// is reported in the status; when all are valid the working copy is
    /// handed out to be saved. Reset puts back the default theme.
    pub fn handle_button_key(&mut self, key: KeyEvent, now_ms: u64) -> (r: Option<Action>)
        requires
            old(self).wf(),
        ensures
            final(self).wf(),
            button_key_post(*old(self), *final(self), key, now_ms, r),
    {
        match key.code {
            KeyCode::Char('k') | KeyCode::Up => {
                self.focus_area = ThemeFocusArea::ColorList;
                self.selected_index = FIELD_COUNT - 1;
                Some(Action::Render)
            },
            KeyCode::Char('h') | KeyCode::Left => {
                self.button_focus = ThemeButton::Save;
                Some(Action::Render)
            },
            KeyCode::Char('l') | KeyCode::Right => {
                self.button_focus = ThemeButton::ResetDefaults;
                Some(Action::Render)
            },
            KeyCode::Enter | KeyCode::Char(' ') => match self.button_focus {
                ThemeButton::Save => match first_invalid_field(&self.working_config) {
                    Some(i) => {
                        let fields = ThemeField::all();
                        let field = fields[i];
                        proof {
                            assert(field_index(all_theme_fields()[i as int]) == i);
                        }
                        let hex = field.get(&self.working_config);
                        let a = concat("Invalid hex for ", field.label());
                        let b = concat(a.as_str(), ": ");
                        let msg = concat(b.as_str(), hex);
                        self.status = Some((msg, now_ms));
                        Some(Action::Render)
                    },
                    None => Some(Action::SaveTheme(Box::new(self.working_config.clone()))),
                },
                ThemeButton::ResetDefaults => {
                    self.working_config = ThemeConfig::default();
                    Some(Action::ResetTheme)
                },
            },
            _ => None,
        }
    }

    /// A key while editing a hex value: Esc cancels, Enter stores the
    /// normalised input in the selected field when it is a hex colour (and
    /// reports an error otherwise), Backspace deletes, and a hex digit or
    /// `#` is appended while the input is shorter than seven characters.
    pub fn handle_edit_key(&mut self, key: KeyEvent) -> (r: Option<Action>)
        requires
            old(self).wf(),
        ensures
            final(self).wf(),
            edit_key_post(*old(self), *final(self), key, r),
    {
        match key.code {
            KeyCode::Esc => {
                self.editing = false;
                self.edit_buffer = String::new();
                self.edit_error = None;
                Some(Action::Render)
            },
            KeyCode::Enter => {
                let normalized = Self::normalize_hex(self.edit_buffer.as_str());
                if parse_hex(normalized.as_str()).is_some() {
                    let fields = ThemeField::all();
                    let field = fields[self.selected_index];
                    proof {
                        assert(field_index(all_theme_fields()[self.selected_index as int]) == self.selected_index);
                    }
                    field.set(&mut self.working_config, normalized);
                    self.editing = false;
                    self.edit_buffer = String::new();
                    self.edit_error = None;
                } else {
                    self.edit_error = Some(str_to_string("Invalid hex color"));
                    self.editing = false;
                    self.edit_buffer = String::new();
                }
                Some(Action::Render)
            },
            KeyCode::Backspace => {
                let mut chars = str_chars(self.edit_buffer.as_str());
                if chars.len() > 0 {
                    chars.pop();
                }
                self.edit_buffer = crate::text::chars_to_string(chars.as_slice());
                self.edit_error = None;
                Some(Action::Render)
            },
            KeyCode::Char(c) => {
                let is_hex = ('0' <= c && c <= '9') || ('a' <= c && c <= 'f') || ('A' <= c && c <= 'F');
                let len = str_chars(self.edit_buffer.as_str()).len();
                if (is_hex || c == '#') && len < 7 {
                    crate::text::string_push(&mut self.edit_buffer, c);
                    self.edit_error = None;
                }
                Some(Action::Render)
            },
            _ => None,
        }
    }

    /// Handles the actions meant for the editor: after a save the working
    /// copy is reloaded from the theme in use and a status is shown.
    pub fn update(&mut self, action: Action, applied: ThemeConfig, now_ms: u64) -> (r: Option<Action>)
        requires
            old(self).wf(),
        ensures
            final(self).wf(),
            match action {
                Action::ThemeSaved => r matches Some(Action::Render) && final(self).working_config == applied
                    && !final(self).editing && status_is(final(self).status, "Theme saved and applied"@, now_ms),
                _ => r is None && *final(self) == *old(self),
            },
    {
        match action {
            Action::ThemeSaved => {
                self.reload_from_applied(applied);
                self.set_status("Theme saved and applied", now_ms);
                Some(Action::Render)
            },
            _ => None,
        }
    }
}

} // verus!
