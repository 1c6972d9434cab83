//! The colour theme: its configuration as hex strings, the colours it
//! denotes, and the list of its fields that the theme editor walks.

use vstd::prelude::*;
use crate::text::{char_from_ascii_code, concat, str_chars, str_to_string};

verus! {

/// A colour as the terminal shows it: red, green and blue, or another
/// (named or indexed) colour.
#[derive(Debug, Clone, Copy, PartialEq, Eq, Structural)]
pub enum Color {
    Rgb(u8, u8, u8),
    Other,
}

/// Serializable theme configuration, held as hex strings.
#[derive(Debug)]
pub struct ThemeConfig {
    pub bg: String,
    pub bg_surface: String,
    pub bg_highlight: String,
    pub fg: String,
    pub fg_dim: String,
    pub fg_mid: String,
    pub fg_bright: String,
    pub accent: String,
    pub accent_dim: String,
    pub tab_active_bg: String,
    pub tab_inactive_bg: String,
    pub border: String,
    pub border_focus: String,
    pub green: String,
    pub red: String,
    pub yellow: String,
    pub chart_purple: String,
    pub chart_mint: String,
    pub dialog_bg: String,
    pub dialog_border: String,
}

/// The fields of a configuration, in theme-field order.
pub open spec fn theme_fields(c: ThemeConfig) -> Seq<Seq<char>> {
    seq![
        c.bg@,
        c.bg_surface@,
        c.bg_highlight@,
        c.fg@,
        c.fg_dim@,
        c.fg_mid@,
        c.fg_bright@,
        c.accent@,
        c.accent_dim@,
        c.tab_active_bg@,
        c.tab_inactive_bg@,
        c.border@,
        c.border_focus@,
        c.green@,
        c.red@,
        c.yellow@,
        c.chart_purple@,
        c.chart_mint@,
        c.dialog_bg@,
        c.dialog_border@,
    ]
}

/// The fields of the default configuration, in theme-field order.
pub open spec fn default_theme_fields() -> Seq<Seq<char>> {
    seq![
        "#282828"@,
        "#282828"@,
        "#3c3836"@,
        "#d5c4a1"@,
        "#928374"@,
        "#a89984"@,
        "#fbf1c7"@,
        "#83a598"@,
        "#458588"@,
        "#3c3836"@,
        "#282828"@,
        "#3c3836"@,
        "#458588"@,
        "#b8bb26"@,
        "#fb4934"@,
        "#fabd2f"@,
        "#a078d2"@,
        "#64c882"@,
        "#32302f"@,
        "#458588"@,
    ]
}

impl Clone for ThemeConfig {
    fn clone(&self) -> (r: Self)
        ensures
            theme_fields(r) == theme_fields(*self),
    {
        ThemeConfig {
            bg: self.bg.clone(),
            bg_surface: self.bg_surface.clone(),
            bg_highlight: self.bg_highlight.clone(),
            fg: self.fg.clone(),
            fg_dim: self.fg_dim.clone(),
            fg_mid: self.fg_mid.clone(),
            fg_bright: self.fg_bright.clone(),
            accent: self.accent.clone(),
            accent_dim: self.accent_dim.clone(),
            tab_active_bg: self.tab_active_bg.clone(),
            tab_inactive_bg: self.tab_inactive_bg.clone(),
            border: self.border.clone(),
            border_focus: self.border_focus.clone(),
            green: self.green.clone(),
            red: self.red.clone(),
            yellow: self.yellow.clone(),
            chart_purple: self.chart_purple.clone(),
            chart_mint: self.chart_mint.clone(),
            dialog_bg: self.dialog_bg.clone(),
            dialog_border: self.dialog_border.clone(),
        }
    }
}

impl Default for ThemeConfig {
    /// The built-in dark theme.
    fn default() -> (r: Self)
        ensures
            theme_fields(r) == default_theme_fields(),
    {
        ThemeConfig {
            bg: str_to_string("#282828"),
            bg_surface: str_to_string("#282828"),
            bg_highlight: str_to_string("#3c3836"),
            fg: str_to_string("#d5c4a1"),
            fg_dim: str_to_string("#928374"),
            fg_mid: str_to_string("#a89984"),
            fg_bright: str_to_string("#fbf1c7"),
            accent: str_to_string("#83a598"),
            accent_dim: str_to_string("#458588"),
            tab_active_bg: str_to_string("#3c3836"),
            tab_inactive_bg: str_to_string("#282828"),
            border: str_to_string("#3c3836"),
            border_focus: str_to_string("#458588"),
            green: str_to_string("#b8bb26"),
            red: str_to_string("#fb4934"),
            yellow: str_to_string("#fabd2f"),
            chart_purple: str_to_string("#a078d2"),
            chart_mint: str_to_string("#64c882"),
            dialog_bg: str_to_string("#32302f"),
            dialog_border: str_to_string("#458588"),
        }
    }
}

/// Runtime colour values parsed from a [`ThemeConfig`].
#[derive(Debug, Clone, Copy)]
pub struct ThemeColors {
    pub bg: Color,
    pub bg_surface: Color,
    pub bg_highlight: Color,
    pub fg: Color,
    pub fg_dim: Color,
    pub fg_mid: Color,
    pub fg_bright: Color,
    pub accent: Color,
    pub accent_dim: Color,
    pub tab_active_bg: Color,
    pub tab_inactive_bg: Color,
    pub border: Color,
    pub border_focus: Color,
    pub green: Color,
    pub red: Color,
    pub yellow: Color,
    pub chart_purple: Color,
    pub chart_mint: Color,
    pub dialog_bg: Color,
    pub dialog_border: Color,
}

/// The colours of a theme, in theme-field order.
pub open spec fn theme_colors(c: ThemeColors) -> Seq<Color> {
    seq![
        c.bg,
        c.bg_surface,
        c.bg_highlight,
        c.fg,
        c.fg_dim,
        c.fg_mid,
        c.fg_bright,
        c.accent,
        c.accent_dim,
        c.tab_active_bg,
        c.tab_inactive_bg,
        c.border,
        c.border_focus,
        c.green,
        c.red,
        c.yellow,
        c.chart_purple,
        c.chart_mint,
        c.dialog_bg,
        c.dialog_border,
    ]
}

/// The names of the configuration fields, in theme-field order.
pub open spec fn field_names() -> Seq<Seq<char>> {
    seq![
        "bg"@,
        "bg_surface"@,
        "bg_highlight"@,
        "fg"@,
        "fg_dim"@,
        "fg_mid"@,
        "fg_bright"@,
        "accent"@,
        "accent_dim"@,
        "tab_active_bg"@,
        "tab_inactive_bg"@,
        "border"@,
        "border_focus"@,
        "green"@,
        "red"@,
        "yellow"@,
        "chart_purple"@,
        "chart_mint"@,
        "dialog_bg"@,
        "dialog_border"@,
    ]
}

/// A field of the theme, in the order the editor lists them.
#[derive(Debug, Clone, Copy, PartialEq, Eq, Structural)]
pub enum ThemeField {
    Bg,
    BgSurface,
    BgHighlight,
    Fg,
    FgDim,
    FgMid,
    FgBright,
    Accent,
    AccentDim,
    TabActiveBg,
    TabInactiveBg,
    Border,
    BorderFocus,
    Green,
    Red,
    Yellow,
    ChartPurple,
    ChartMint,
    DialogBg,
    DialogBorder,
}

/// The position of a field in the list.
pub open spec fn field_index(f: ThemeField) -> int {
    match f {
        ThemeField::Bg => 0,
        ThemeField::BgSurface => 1,
        ThemeField::BgHighlight => 2,
        ThemeField::Fg => 3,
        ThemeField::FgDim => 4,
        ThemeField::FgMid => 5,
        ThemeField::FgBright => 6,
        ThemeField::Accent => 7,
        ThemeField::AccentDim => 8,
        ThemeField::TabActiveBg => 9,
        ThemeField::TabInactiveBg => 10,
        ThemeField::Border => 11,
        ThemeField::BorderFocus => 12,
        ThemeField::Green => 13,
        ThemeField::Red => 14,
        ThemeField::Yellow => 15,
        ThemeField::ChartPurple => 16,
        ThemeField::ChartMint => 17,
        ThemeField::DialogBg => 18,
        ThemeField::DialogBorder => 19,
    }
}

/// Every field, in list order.
pub open spec fn all_theme_fields() -> Seq<ThemeField> {
    seq![
        ThemeField::Bg,
        ThemeField::BgSurface,
        ThemeField::BgHighlight,
        ThemeField::Fg,
        ThemeField::FgDim,
        ThemeField::FgMid,
        ThemeField::FgBright,
        ThemeField::Accent,
        ThemeField::AccentDim,
        ThemeField::TabActiveBg,
        ThemeField::TabInactiveBg,
        ThemeField::Border,
        ThemeField::BorderFocus,
        ThemeField::Green,
        ThemeField::Red,
        ThemeField::Yellow,
        ThemeField::ChartPurple,
        ThemeField::ChartMint,
        ThemeField::DialogBg,
        ThemeField::DialogBorder,
    ]
}

/// The label the editor shows for each field, in list order.
pub open spec fn field_labels() -> Seq<Seq<char>> {
    seq![
        "Background"@,
        "Surface"@,
        "Highlight"@,
        "Foreground"@,
        "Fg Dim"@,
        "Fg Mid"@,
        "Fg Bright"@,
        "Accent"@,
        "Accent Dim"@,
        "Tab Active"@,
        "Tab Inactive"@,
        "Border"@,
        "Border Focus"@,
        "Green"@,
        "Red"@,
        "Yellow"@,
        "Chart Purple"@,
        "Chart Mint"@,
        "Dialog Bg"@,
        "Dialog Border"@,
    ]
}

impl ThemeField {
    /// Every field, in list order.
    pub fn all() -> (r: Vec<ThemeField>)
        ensures
            r@ == all_theme_fields(),
    {
        let r = vec![
            ThemeField::Bg,
            ThemeField::BgSurface,
            ThemeField::BgHighlight,
            ThemeField::Fg,
            ThemeField::FgDim,
            ThemeField::FgMid,
            ThemeField::FgBright,
            ThemeField::Accent,
            ThemeField::AccentDim,
            ThemeField::TabActiveBg,
            ThemeField::TabInactiveBg,
            ThemeField::Border,
            ThemeField::BorderFocus,
            ThemeField::Green,
            ThemeField::Red,
            ThemeField::Yellow,
            ThemeField::ChartPurple,
            ThemeField::ChartMint,
            ThemeField::DialogBg,
            ThemeField::DialogBorder,
        ];
        assert(r@ =~= all_theme_fields());
        r
    }

    /// The label the editor shows.
    pub fn label(self) -> (r: &'static str)
        ensures
            r@ == field_labels()[field_index(self)],
    {
        match self {
            ThemeField::Bg => "Background",
            ThemeField::BgSurface => "Surface",
            ThemeField::BgHighlight => "Highlight",
            ThemeField::Fg => "Foreground",
            ThemeField::FgDim => "Fg Dim",
            ThemeField::FgMid => "Fg Mid",
            ThemeField::FgBright => "Fg Bright",
            ThemeField::Accent => "Accent",
            ThemeField::AccentDim => "Accent Dim",
            ThemeField::TabActiveBg => "Tab Active",
            ThemeField::TabInactiveBg => "Tab Inactive",
            ThemeField::Border => "Border",
            ThemeField::BorderFocus => "Border Focus",
            ThemeField::Green => "Green",
            ThemeField::Red => "Red",
            ThemeField::Yellow => "Yellow",
            ThemeField::ChartPurple => "Chart Purple",
            ThemeField::ChartMint => "Chart Mint",
            ThemeField::DialogBg => "Dialog Bg",
            ThemeField::DialogBorder => "Dialog Border",
        }
    }

    /// The field's value in a configuration.
    pub fn get(self, config: &ThemeConfig) -> (r: &str)
        ensures
            r@ == theme_fields(*config)[field_index(self)],
    {
        match self {
            ThemeField::Bg => config.bg.as_str(),
            ThemeField::BgSurface => config.bg_surface.as_str(),
            ThemeField::BgHighlight => config.bg_highlight.as_str(),
            ThemeField::Fg => config.fg.as_str(),
            ThemeField::FgDim => config.fg_dim.as_str(),
            ThemeField::FgMid => config.fg_mid.as_str(),
            ThemeField::FgBright => config.fg_bright.as_str(),
            ThemeField::Accent => config.accent.as_str(),
            ThemeField::AccentDim => config.accent_dim.as_str(),
            ThemeField::TabActiveBg => config.tab_active_bg.as_str(),
            ThemeField::TabInactiveBg => config.tab_inactive_bg.as_str(),
            ThemeField::Border => config.border.as_str(),
            ThemeField::BorderFocus => config.border_focus.as_str(),
            ThemeField::Green => config.green.as_str(),
            ThemeField::Red => config.red.as_str(),
            ThemeField::Yellow => config.yellow.as_str(),
            ThemeField::ChartPurple => config.chart_purple.as_str(),
            ThemeField::ChartMint => config.chart_mint.as_str(),
            ThemeField::DialogBg => config.dialog_bg.as_str(),
            ThemeField::DialogBorder => config.dialog_border.as_str(),
        }
    }

    /// Sets the field's value in a configuration; the other fields stay.
    pub fn set(self, config: &mut ThemeConfig, value: String)
        ensures
            theme_fields(*final(config)) == theme_fields(*old(config)).update(field_index(self), value@),
    {
        let ghost v = value@;
        match self {
            ThemeField::Bg => config.bg = value,
            ThemeField::BgSurface => config.bg_surface = value,
            ThemeField::BgHighlight => config.bg_highlight = value,
            ThemeField::Fg => config.fg = value,
            ThemeField::FgDim => config.fg_dim = value,
            ThemeField::FgMid => config.fg_mid = value,
            ThemeField::FgBright => config.fg_bright = value,
            ThemeField::Accent => config.accent = value,
            ThemeField::AccentDim => config.accent_dim = value,
            ThemeField::TabActiveBg => config.tab_active_bg = value,
            ThemeField::TabInactiveBg => config.tab_inactive_bg = value,
            ThemeField::Border => config.border = value,
            ThemeField::BorderFocus => config.border_focus = value,
            ThemeField::Green => config.green = value,
            ThemeField::Red => config.red = value,
            ThemeField::Yellow => config.yellow = value,
            ThemeField::ChartPurple => config.chart_purple = value,
            ThemeField::ChartMint => config.chart_mint = value,
            ThemeField::DialogBg => config.dialog_bg = value,
            ThemeField::DialogBorder => config.dialog_border = value,
        }
        assert(theme_fields(*config) =~= theme_fields(*old(config)).update(field_index(self), v));
    }
}

/// The error for a field that does not hold a hex colour:
/// `Invalid {name}: {value}`.
pub open spec fn invalid_field_message(name: Seq<char>, value: Seq<char>) -> Seq<char> {
    "Invalid "@ + name + ": "@ + value
}

fn parse_field(name: &str, value: &String) -> (r: Result<Color, String>)
    ensures
        match r {
            Ok(c) => spec_parse_hex(value@) == Some(c),
            Err(e) => spec_parse_hex(value@) is None && e@ == invalid_field_message(name@, value@),
        },
{
    match parse_hex(value.as_str()) {
        Some(c) => Ok(c),
        None => {
            let a = concat("Invalid ", name);
            let b = concat(a.as_str(), ": ");
            Err(concat(b.as_str(), value.as_str()))
        },
    }
}

impl ThemeColors {
    /// The colours of a configuration: each field parsed as a hex colour;
    /// the error names the first field that does not parse.
    pub fn from_config(config: &ThemeConfig) -> (r: Result<ThemeColors, String>)
        ensures
            match r {
                Ok(c) => forall|i: int| 0 <= i < 20 ==> spec_parse_hex(#[trigger] theme_fields(*config)[i]) == Some(theme_colors(c)[i]),
                Err(e) => exists|i: int| 0 <= i < 20 && spec_parse_hex(#[trigger] theme_fields(*config)[i]) is None
                    && (forall|j: int| 0 <= j < i ==> spec_parse_hex(#[trigger] theme_fields(*config)[j]) is Some)
                    && e@ == invalid_field_message(field_names()[i], theme_fields(*config)[i]),
            },
    {
        let c0 = match parse_field("bg", &config.bg) {
            Ok(c) => c,
            Err(e) => {
                assert(theme_fields(*config)[0] == config.bg@);
                assert(field_names()[0] == "bg"@);
                return Err(e);
            },
        };
        let c1 = match parse_field("bg_surface", &config.bg_surface) {
            Ok(c) => c,
            Err(e) => {
                assert(theme_fields(*config)[1] == config.bg_surface@);
                assert(field_names()[1] == "bg_surface"@);
                assert(forall|j: int| 0 <= j < 1 ==> spec_parse_hex(#[trigger] theme_fields(*config)[j]) is Some) by {
                    assert(theme_fields(*config)[0] == config.bg@);
                }
                return Err(e);
            },
        };
        let c2 = match parse_field("bg_highlight", &config.bg_highlight) {
            Ok(c) => c,
            Err(e) => {
                assert(theme_fields(*config)[2] == config.bg_highlight@);
                assert(field_names()[2] == "bg_highlight"@);
                assert(forall|j: int| 0 <= j < 2 ==> spec_parse_hex(#[trigger] theme_fields(*config)[j]) is Some) by {
                    assert(theme_fields(*config)[0] == config.bg@);
                    assert(theme_fields(*config)[1] == config.bg_surface@);
                }
                return Err(e);
            },
        };
        let c3 = match parse_field("fg", &config.fg) {
            Ok(c) => c,
            Err(e) => {
                assert(theme_fields(*config)[3] == config.fg@);
                assert(field_names()[3] == "fg"@);
                assert(forall|j: int| 0 <= j < 3 ==> spec_parse_hex(#[trigger] theme_fields(*config)[j]) is Some) by {
                    assert(theme_fields(*config)[0] == config.bg@);
                    assert(theme_fields(*config)[1] == config.bg_surface@);
                    assert(theme_fields(*config)[2] == config.bg_highlight@);
                }
                return Err(e);
            },
        };
        let c4 = match parse_field("fg_dim", &config.fg_dim) {
            Ok(c) => c,
            Err(e) => {
                assert(theme_fields(*config)[4] == config.fg_dim@);
                assert(field_names()[4] == "fg_dim"@);
                assert(forall|j: int| 0 <= j < 4 ==> spec_parse_hex(#[trigger] theme_fields(*config)[j]) is Some) by {
                    assert(theme_fields(*config)[0] == config.bg@);
                    assert(theme_fields(*config)[1] == config.bg_surface@);
                    assert(theme_fields(*config)[2] == config.bg_highlight@);
                    assert(theme_fields(*config)[3] == config.fg@);
                }
                return Err(e);
            },
        };
        let c5 = match parse_field("fg_mid", &config.fg_mid) {
            Ok(c) => c,
            Err(e) => {
                assert(theme_fields(*config)[5] == config.fg_mid@);
                assert(field_names()[5] == "fg_mid"@);
                assert(forall|j: int| 0 <= j < 5 ==> spec_parse_hex(#[trigger] theme_fields(*config)[j]) is Some) by {
                    assert(theme_fields(*config)[0] == config.bg@);
                    assert(theme_fields(*config)[1] == config.bg_surface@);
                    assert(theme_fields(*config)[2] == config.bg_highlight@);
                    assert(theme_fields(*config)[3] == config.fg@);
                    assert(theme_fields(*config)[4] == config.fg_dim@);
                }
                return Err(e);
            },
        };
        let c6 = match parse_field("fg_bright", &config.fg_bright) {
            Ok(c) => c,
            Err(e) => {
                assert(theme_fields(*config)[6] == config.fg_bright@);
                assert(field_names()[6] == "fg_bright"@);
                assert(forall|j: int| 0 <= j < 6 ==> spec_parse_hex(#[trigger] theme_fields(*config)[j]) is Some) by {
                    assert(theme_fields(*config)[0] == config.bg@);
                    assert(theme_fields(*config)[1] == config.bg_surface@);
                    assert(theme_fields(*config)[2] == config.bg_highlight@);
                    assert(theme_fields(*config)[3] == config.fg@);
                    assert(theme_fields(*config)[4] == config.fg_dim@);
                    assert(theme_fields(*config)[5] == config.fg_mid@);
                }
                return Err(e);
            },
        };
        let c7 = match parse_field("accent", &config.accent) {
            Ok(c) => c,
            Err(e) => {
                assert(theme_fields(*config)[7] == config.accent@);
                assert(field_names()[7] == "accent"@);
                assert(forall|j: int| 0 <= j < 7 ==> spec_parse_hex(#[trigger] theme_fields(*config)[j]) is Some) by {
                    assert(theme_fields(*config)[0] == config.bg@);
                    assert(theme_fields(*config)[1] == config.bg_surface@);
                    assert(theme_fields(*config)[2] == config.bg_highlight@);
                    assert(theme_fields(*config)[3] == config.fg@);
                    assert(theme_fields(*config)[4] == config.fg_dim@);
                    assert(theme_fields(*config)[5] == config.fg_mid@);
                    assert(theme_fields(*config)[6] == config.fg_bright@);
                }
                return Err(e);
            },
        };
        let c8 = match parse_field("accent_dim", &config.accent_dim) {
            Ok(c) => c,
            Err(e) => {
                assert(theme_fields(*config)[8] == config.accent_dim@);
                assert(field_names()[8] == "accent_dim"@);
                assert(forall|j: int| 0 <= j < 8 ==> spec_parse_hex(#[trigger] theme_fields(*config)[j]) is Some) by {
                    assert(theme_fields(*config)[0] == config.bg@);
                    assert(theme_fields(*config)[1] == config.bg_surface@);
                    assert(theme_fields(*config)[2] == config.bg_highlight@);
                    assert(theme_fields(*config)[3] == config.fg@);
                    assert(theme_fields(*config)[4] == config.fg_dim@);
                    assert(theme_fields(*config)[5] == config.fg_mid@);
                    assert(theme_fields(*config)[6] == config.fg_bright@);
                    assert(theme_fields(*config)[7] == config.accent@);
                }
                return Err(e);
            },
        };
        let c9 = match parse_field("tab_active_bg", &config.tab_active_bg) {
            Ok(c) => c,
            Err(e) => {
                assert(theme_fields(*config)[9] == config.tab_active_bg@);
                assert(field_names()[9] == "tab_active_bg"@);
                assert(forall|j: int| 0 <= j < 9 ==> spec_parse_hex(#[trigger] theme_fields(*config)[j]) is Some) by {
                    assert(theme_fields(*config)[0] == config.bg@);
                    assert(theme_fields(*config)[1] == config.bg_surface@);
                    assert(theme_fields(*config)[2] == config.bg_highlight@);
                    assert(theme_fields(*config)[3] == config.fg@);
                    assert(theme_fields(*config)[4] == config.fg_dim@);
                    assert(theme_fields(*config)[5] == config.fg_mid@);
                    assert(theme_fields(*config)[6] == config.fg_bright@);
                    assert(theme_fields(*config)[7] == config.accent@);
                    assert(theme_fields(*config)[8] == config.accent_dim@);
                }
                return Err(e);
            },
        };
        let c10 = match parse_field("tab_inactive_bg", &config.tab_inactive_bg) {
            Ok(c) => c,
            Err(e) => {
                assert(theme_fields(*config)[10] == config.tab_inactive_bg@);
                assert(field_names()[10] == "tab_inactive_bg"@);
                assert(forall|j: int| 0 <= j < 10 ==> spec_parse_hex(#[trigger] theme_fields(*config)[j]) is Some) by {
                    assert(theme_fields(*config)[0] == config.bg@);
                    assert(theme_fields(*config)[1] == config.bg_surface@);
                    assert(theme_fields(*config)[2] == config.bg_highlight@);
                    assert(theme_fields(*config)[3] == config.fg@);
                    assert(theme_fields(*config)[4] == config.fg_dim@);
                    assert(theme_fields(*config)[5] == config.fg_mid@);
                    assert(theme_fields(*config)[6] == config.fg_bright@);
                    assert(theme_fields(*config)[7] == config.accent@);
                    assert(theme_fields(*config)[8] == config.accent_dim@);
                    assert(theme_fields(*config)[9] == config.tab_active_bg@);
                }
                return Err(e);
            },
        };
        let c11 = match parse_field("border", &config.border) {
            Ok(c) => c,
            Err(e) => {
                assert(theme_fields(*config)[11] == config.border@);
                assert(field_names()[11] == "border"@);
                assert(forall|j: int| 0 <= j < 11 ==> spec_parse_hex(#[trigger] theme_fields(*config)[j]) is Some) by {
                    assert(theme_fields(*config)[0] == config.bg@);
                    assert(theme_fields(*config)[1] == config.bg_surface@);
                    assert(theme_fields(*config)[2] == config.bg_highlight@);
                    assert(theme_fields(*config)[3] == config.fg@);
                    assert(theme_fields(*config)[4] == config.fg_dim@);
                    assert(theme_fields(*config)[5] == config.fg_mid@);
                    assert(theme_fields(*config)[6] == config.fg_bright@);
                    assert(theme_fields(*config)[7] == config.accent@);
                    assert(theme_fields(*config)[8] == config.accent_dim@);
                    assert(theme_fields(*config)[9] == config.tab_active_bg@);
                    assert(theme_fields(*config)[10] == config.tab_inactive_bg@);
                }
                return Err(e);
            },
        };
        let c12 = match parse_field("border_focus", &config.border_focus) {
            Ok(c) => c,
            Err(e) => {
                assert(theme_fields(*config)[12] == config.border_focus@);
                assert(field_names()[12] == "border_focus"@);
                assert(forall|j: int| 0 <= j < 12 ==> spec_parse_hex(#[trigger] theme_fields(*config)[j]) is Some) by {
                    assert(theme_fields(*config)[0] == config.bg@);
                    assert(theme_fields(*config)[1] == config.bg_surface@);
                    assert(theme_fields(*config)[2] == config.bg_highlight@);
                    assert(theme_fields(*config)[3] == config.fg@);
                    assert(theme_fields(*config)[4] == config.fg_dim@);
                    assert(theme_fields(*config)[5] == config.fg_mid@);
                    assert(theme_fields(*config)[6] == config.fg_bright@);
                    assert(theme_fields(*config)[7] == config.accent@);
                    assert(theme_fields(*config)[8] == config.accent_dim@);
                    assert(theme_fields(*config)[9] == config.tab_active_bg@);
                    assert(theme_fields(*config)[10] == config.tab_inactive_bg@);
                    assert(theme_fields(*config)[11] == config.border@);
                }
                return Err(e);
            },
        };
        let c13 = match parse_field("green", &config.green) {
            Ok(c) => c,
            Err(e) => {
                assert(theme_fields(*config)[13] == config.green@);
                assert(field_names()[13] == "green"@);
                assert(forall|j: int| 0 <= j < 13 ==> spec_parse_hex(#[trigger] theme_fields(*config)[j]) is Some) by {
                    assert(theme_fields(*config)[0] == config.bg@);
                    assert(theme_fields(*config)[1] == config.bg_surface@);
                    assert(theme_fields(*config)[2] == config.bg_highlight@);
                    assert(theme_fields(*config)[3] == config.fg@);
                    assert(theme_fields(*config)[4] == config.fg_dim@);
                    assert(theme_fields(*config)[5] == config.fg_mid@);
                    assert(theme_fields(*config)[6] == config.fg_bright@);
                    assert(theme_fields(*config)[7] == config.accent@);
                    assert(theme_fields(*config)[8] == config.accent_dim@);
                    assert(theme_fields(*config)[9] == config.tab_active_bg@);
                    assert(theme_fields(*config)[10] == config.tab_inactive_bg@);
                    assert(theme_fields(*config)[11] == config.border@);
                    assert(theme_fields(*config)[12] == config.border_focus@);
                }
                return Err(e);
            },
        };
        let c14 = match parse_field("red", &config.red) {
            Ok(c) => c,
            Err(e) => {
                assert(theme_fields(*config)[14] == config.red@);
                assert(field_names()[14] == "red"@);
                assert(forall|j: int| 0 <= j < 14 ==> spec_parse_hex(#[trigger] theme_fields(*config)[j]) is Some) by {
                    assert(theme_fields(*config)[0] == config.bg@);
                    assert(theme_fields(*config)[1] == config.bg_surface@);
                    assert(theme_fields(*config)[2] == config.bg_highlight@);
                    assert(theme_fields(*config)[3] == config.fg@);
                    assert(theme_fields(*config)[4] == config.fg_dim@);
                    assert(theme_fields(*config)[5] == config.fg_mid@);
                    assert(theme_fields(*config)[6] == config.fg_bright@);
                    assert(theme_fields(*config)[7] == config.accent@);
                    assert(theme_fields(*config)[8] == config.accent_dim@);
                    assert(theme_fields(*config)[9] == config.tab_active_bg@);
                    assert(theme_fields(*config)[10] == config.tab_inactive_bg@);
                    assert(theme_fields(*config)[11] == config.border@);
                    assert(theme_fields(*config)[12] == config.border_focus@);
                    assert(theme_fields(*config)[13] == config.green@);
                }
                return Err(e);
            },
        };
        let c15 = match parse_field("yellow", &config.yellow) {
            Ok(c) => c,
            Err(e) => {
                assert(theme_fields(*config)[15] == config.yellow@);
                assert(field_names()[15] == "yellow"@);
                assert(forall|j: int| 0 <= j < 15 ==> spec_parse_hex(#[trigger] theme_fields(*config)[j]) is Some) by {
                    assert(theme_fields(*config)[0] == config.bg@);
                    assert(theme_fields(*config)[1] == config.bg_surface@);
                    assert(theme_fields(*config)[2] == config.bg_highlight@);
                    assert(theme_fields(*config)[3] == config.fg@);
                    assert(theme_fields(*config)[4] == config.fg_dim@);
                    assert(theme_fields(*config)[5] == config.fg_mid@);
                    assert(theme_fields(*config)[6] == config.fg_bright@);
                    assert(theme_fields(*config)[7] == config.accent@);
                    assert(theme_fields(*config)[8] == config.accent_dim@);
                    assert(theme_fields(*config)[9] == config.tab_active_bg@);
                    assert(theme_fields(*config)[10] == config.tab_inactive_bg@);
                    assert(theme_fields(*config)[11] == config.border@);
                    assert(theme_fields(*config)[12] == config.border_focus@);
                    assert(theme_fields(*config)[13] == config.green@);
                    assert(theme_fields(*config)[14] == config.red@);
                }
                return Err(e);
            },
        };
        let c16 = match parse_field("chart_purple", &config.chart_purple) {
            Ok(c) => c,
            Err(e) => {
                assert(theme_fields(*config)[16] == config.chart_purple@);
                assert(field_names()[16] == "chart_purple"@);
                assert(forall|j: int| 0 <= j < 16 ==> spec_parse_hex(#[trigger] theme_fields(*config)[j]) is Some) by {
                    assert(theme_fields(*config)[0] == config.bg@);
                    assert(theme_fields(*config)[1] == config.bg_surface@);
                    assert(theme_fields(*config)[2] == config.bg_highlight@);
                    assert(theme_fields(*config)[3] == config.fg@);
                    assert(theme_fields(*config)[4] == config.fg_dim@);
                    assert(theme_fields(*config)[5] == config.fg_mid@);
                    assert(theme_fields(*config)[6] == config.fg_bright@);
                    assert(theme_fields(*config)[7] == config.accent@);
                    assert(theme_fields(*config)[8] == config.accent_dim@);
                    assert(theme_fields(*config)[9] == config.tab_active_bg@);
                    assert(theme_fields(*config)[10] == config.tab_inactive_bg@);
                    assert(theme_fields(*config)[11] == config.border@);
                    assert(theme_fields(*config)[12] == config.border_focus@);
                    assert(theme_fields(*config)[13] == config.green@);
                    assert(theme_fields(*config)[14] == config.red@);
                    assert(theme_fields(*config)[15] == config.yellow@);
                }
                return Err(e);
            },
        };
        let c17 = match parse_field("chart_mint", &config.chart_mint) {
            Ok(c) => c,
            Err(e) => {
                assert(theme_fields(*config)[17] == config.chart_mint@);
                assert(field_names()[17] == "chart_mint"@);
                assert(forall|j: int| 0 <= j < 17 ==> spec_parse_hex(#[trigger] theme_fields(*config)[j]) is Some) by {
                    assert(theme_fields(*config)[0] == config.bg@);
                    assert(theme_fields(*config)[1] == config.bg_surface@);
                    assert(theme_fields(*config)[2] == config.bg_highlight@);
                    assert(theme_fields(*config)[3] == config.fg@);
                    assert(theme_fields(*config)[4] == config.fg_dim@);
                    assert(theme_fields(*config)[5] == config.fg_mid@);
                    assert(theme_fields(*config)[6] == config.fg_bright@);
                    assert(theme_fields(*config)[7] == config.accent@);
                    assert(theme_fields(*config)[8] == config.accent_dim@);
                    assert(theme_fields(*config)[9] == config.tab_active_bg@);
                    assert(theme_fields(*config)[10] == config.tab_inactive_bg@);
                    assert(theme_fields(*config)[11] == config.border@);
                    assert(theme_fields(*config)[12] == config.border_focus@);
                    assert(theme_fields(*config)[13] == config.green@);
                    assert(theme_fields(*config)[14] == config.red@);
                    assert(theme_fields(*config)[15] == config.yellow@);
                    assert(theme_fields(*config)[16] == config.chart_purple@);
                }
                return Err(e);
            },
        };
        let c18 = match parse_field("dialog_bg", &config.dialog_bg) {
            Ok(c) => c,
            Err(e) => {
                assert(theme_fields(*config)[18] == config.dialog_bg@);
                assert(field_names()[18] == "dialog_bg"@);
                assert(forall|j: int| 0 <= j < 18 ==> spec_parse_hex(#[trigger] theme_fields(*config)[j]) is Some) by {
                    assert(theme_fields(*config)[0] == config.bg@);
                    assert(theme_fields(*config)[1] == config.bg_surface@);
                    assert(theme_fields(*config)[2] == config.bg_highlight@);
                    assert(theme_fields(*config)[3] == config.fg@);
                    assert(theme_fields(*config)[4] == config.fg_dim@);
                    assert(theme_fields(*config)[5] == config.fg_mid@);
                    assert(theme_fields(*config)[6] == config.fg_bright@);
                    assert(theme_fields(*config)[7] == config.accent@);
                    assert(theme_fields(*config)[8] == config.accent_dim@);
                    assert(theme_fields(*config)[9] == config.tab_active_bg@);
                    assert(theme_fields(*config)[10] == config.tab_inactive_bg@);
                    assert(theme_fields(*config)[11] == config.border@);
                    assert(theme_fields(*config)[12] == config.border_focus@);
                    assert(theme_fields(*config)[13] == config.green@);
                    assert(theme_fields(*config)[14] == config.red@);
                    assert(theme_fields(*config)[15] == config.yellow@);
                    assert(theme_fields(*config)[16] == config.chart_purple@);
                    assert(theme_fields(*config)[17] == config.chart_mint@);
                }
                return Err(e);
            },
        };
        let c19 = match parse_field("dialog_border", &config.dialog_border) {
            Ok(c) => c,
            Err(e) => {
                assert(theme_fields(*config)[19] == config.dialog_border@);
                assert(field_names()[19] == "dialog_border"@);
                assert(forall|j: int| 0 <= j < 19 ==> spec_parse_hex(#[trigger] theme_fields(*config)[j]) is Some) by {
                    assert(theme_fields(*config)[0] == config.bg@);
                    assert(theme_fields(*config)[1] == config.bg_surface@);
                    assert(theme_fields(*config)[2] == config.bg_highlight@);
                    assert(theme_fields(*config)[3] == config.fg@);
                    assert(theme_fields(*config)[4] == config.fg_dim@);
                    assert(theme_fields(*config)[5] == config.fg_mid@);
                    assert(theme_fields(*config)[6] == config.fg_bright@);
                    assert(theme_fields(*config)[7] == config.accent@);
                    assert(theme_fields(*config)[8] == config.accent_dim@);
                    assert(theme_fields(*config)[9] == config.tab_active_bg@);
                    assert(theme_fields(*config)[10] == config.tab_inactive_bg@);
                    assert(theme_fields(*config)[11] == config.border@);
                    assert(theme_fields(*config)[12] == config.border_focus@);
                    assert(theme_fields(*config)[13] == config.green@);
                    assert(theme_fields(*config)[14] == config.red@);
                    assert(theme_fields(*config)[15] == config.yellow@);
                    assert(theme_fields(*config)[16] == config.chart_purple@);
                    assert(theme_fields(*config)[17] == config.chart_mint@);
                    assert(theme_fields(*config)[18] == config.dialog_bg@);
                }
                return Err(e);
            },
        };
        let r = ThemeColors {
            bg: c0,
            bg_surface: c1,
            bg_highlight: c2,
            fg: c3,
            fg_dim: c4,
            fg_mid: c5,
            fg_bright: c6,
            accent: c7,
            accent_dim: c8,
            tab_active_bg: c9,
            tab_inactive_bg: c10,
            border: c11,
            border_focus: c12,
            green: c13,
            red: c14,
            yellow: c15,
            chart_purple: c16,
            chart_mint: c17,
            dialog_bg: c18,
            dialog_border: c19,
        };
        proof {
            assert forall|i: int| 0 <= i < 20 implies spec_parse_hex(#[trigger] theme_fields(*config)[i]) == Some(theme_colors(r)[i]) by {
                assert(theme_fields(*config)[0] == config.bg@ && theme_colors(r)[0] == c0);
                assert(theme_fields(*config)[1] == config.bg_surface@ && theme_colors(r)[1] == c1);
                assert(theme_fields(*config)[2] == config.bg_highlight@ && theme_colors(r)[2] == c2);
                assert(theme_fields(*config)[3] == config.fg@ && theme_colors(r)[3] == c3);
                assert(theme_fields(*config)[4] == config.fg_dim@ && theme_colors(r)[4] == c4);
                assert(theme_fields(*config)[5] == config.fg_mid@ && theme_colors(r)[5] == c5);
                assert(theme_fields(*config)[6] == config.fg_bright@ && theme_colors(r)[6] == c6);
                assert(theme_fields(*config)[7] == config.accent@ && theme_colors(r)[7] == c7);
                assert(theme_fields(*config)[8] == config.accent_dim@ && theme_colors(r)[8] == c8);
                assert(theme_fields(*config)[9] == config.tab_active_bg@ && theme_colors(r)[9] == c9);
                assert(theme_fields(*config)[10] == config.tab_inactive_bg@ && theme_colors(r)[10] == c10);
                assert(theme_fields(*config)[11] == config.border@ && theme_colors(r)[11] == c11);
                assert(theme_fields(*config)[12] == config.border_focus@ && theme_colors(r)[12] == c12);
                assert(theme_fields(*config)[13] == config.green@ && theme_colors(r)[13] == c13);
                assert(theme_fields(*config)[14] == config.red@ && theme_colors(r)[14] == c14);
                assert(theme_fields(*config)[15] == config.yellow@ && theme_colors(r)[15] == c15);
                assert(theme_fields(*config)[16] == config.chart_purple@ && theme_colors(r)[16] == c16);
                assert(theme_fields(*config)[17] == config.chart_mint@ && theme_colors(r)[17] == c17);
                assert(theme_fields(*config)[18] == config.dialog_bg@ && theme_colors(r)[18] == c18);
                assert(theme_fields(*config)[19] == config.dialog_border@ && theme_colors(r)[19] == c19);
            }
        }
        Ok(r)
    }

    /// The configuration that writes each colour back as hex (an empty
    /// string for a colour that is not RGB).
    pub fn to_config(&self) -> (r: ThemeConfig)
        ensures
            forall|i: int| 0 <= i < 20 ==> #[trigger] theme_fields(r)[i] == hex_text_of(theme_colors(*self)[i]),
    {
        let r = ThemeConfig {
            bg: hex_or_empty(self.bg),
            bg_surface: hex_or_empty(self.bg_surface),
            bg_highlight: hex_or_empty(self.bg_highlight),
            fg: hex_or_empty(self.fg),
            fg_dim: hex_or_empty(self.fg_dim),
            fg_mid: hex_or_empty(self.fg_mid),
            fg_bright: hex_or_empty(self.fg_bright),
            accent: hex_or_empty(self.accent),
            accent_dim: hex_or_empty(self.accent_dim),
            tab_active_bg: hex_or_empty(self.tab_active_bg),
            tab_inactive_bg: hex_or_empty(self.tab_inactive_bg),
            border: hex_or_empty(self.border),
            border_focus: hex_or_empty(self.border_focus),
            green: hex_or_empty(self.green),
            red: hex_or_empty(self.red),
            yellow: hex_or_empty(self.yellow),
            chart_purple: hex_or_empty(self.chart_purple),
            chart_mint: hex_or_empty(self.chart_mint),
            dialog_bg: hex_or_empty(self.dialog_bg),
            dialog_border: hex_or_empty(self.dialog_border),
        };
        proof {
            assert forall|i: int| 0 <= i < 20 implies #[trigger] theme_fields(r)[i] == hex_text_of(theme_colors(*self)[i]) by {
                assert(theme_fields(r)[0] == r.bg@ && theme_colors(*self)[0] == self.bg);
                assert(theme_fields(r)[1] == r.bg_surface@ && theme_colors(*self)[1] == self.bg_surface);
                assert(theme_fields(r)[2] == r.bg_highlight@ && theme_colors(*self)[2] == self.bg_highlight);
                assert(theme_fields(r)[3] == r.fg@ && theme_colors(*self)[3] == self.fg);
                assert(theme_fields(r)[4] == r.fg_dim@ && theme_colors(*self)[4] == self.fg_dim);
                assert(theme_fields(r)[5] == r.fg_mid@ && theme_colors(*self)[5] == self.fg_mid);
                assert(theme_fields(r)[6] == r.fg_bright@ && theme_colors(*self)[6] == self.fg_bright);
                assert(theme_fields(r)[7] == r.accent@ && theme_colors(*self)[7] == self.accent);
                assert(theme_fields(r)[8] == r.accent_dim@ && theme_colors(*self)[8] == self.accent_dim);
                assert(theme_fields(r)[9] == r.tab_active_bg@ && theme_colors(*self)[9] == self.tab_active_bg);
                assert(theme_fields(r)[10] == r.tab_inactive_bg@ && theme_colors(*self)[10] == self.tab_inactive_bg);
                assert(theme_fields(r)[11] == r.border@ && theme_colors(*self)[11] == self.border);
                assert(theme_fields(r)[12] == r.border_focus@ && theme_colors(*self)[12] == self.border_focus);
                assert(theme_fields(r)[13] == r.green@ && theme_colors(*self)[13] == self.green);
                assert(theme_fields(r)[14] == r.red@ && theme_colors(*self)[14] == self.red);
                assert(theme_fields(r)[15] == r.yellow@ && theme_colors(*self)[15] == self.yellow);
                assert(theme_fields(r)[16] == r.chart_purple@ && theme_colors(*self)[16] == self.chart_purple);
                assert(theme_fields(r)[17] == r.chart_mint@ && theme_colors(*self)[17] == self.chart_mint);
                assert(theme_fields(r)[18] == r.dialog_bg@ && theme_colors(*self)[18] == self.dialog_bg);
                assert(theme_fields(r)[19] == r.dialog_border@ && theme_colors(*self)[19] == self.dialog_border);
            }
        }
        r
    }
}

/// The character is a hexadecimal digit.
pub open spec fn is_hex_digit(c: char) -> bool {
    ('0' <= c && c <= '9') || ('a' <= c && c <= 'f') || ('A' <= c && c <= 'F')
}

/// The value of a hexadecimal digit.
pub open spec fn hex_value(c: char) -> int {
    if '0' <= c && c <= '9' {
        c as int - 48
    } else if 'a' <= c && c <= 'f' {
        c as int - 87
    } else {
        c as int - 55
    }
}

/// A string without its leading `#`, when it has one.
pub open spec fn strip_hash(s: Seq<char>) -> Seq<char> {
    if s.len() > 0 && s[0] == '#' {
        s.drop_first()
    } else {
        s
    }
}

/// The colour a hex string such as `#282828` or `282828` denotes: six
/// hexadecimal digits, two for each of red, green and blue.
pub open spec fn spec_parse_hex(s: Seq<char>) -> Option<Color> {
    let h = strip_hash(s);
    if h.len() == 6 && (forall|i: int| 0 <= i < 6 ==> is_hex_digit(#[trigger] h[i])) {
        Some(
            Color::Rgb(
                (hex_value(h[0]) * 16 + hex_value(h[1])) as u8,
                (hex_value(h[2]) * 16 + hex_value(h[3])) as u8,
                (hex_value(h[4]) * 16 + hex_value(h[5])) as u8,
            ),
        )
    } else {
        None
    }
}

/// The value of a hex digit character, if it is one.
fn hex_digit(c: char) -> (r: Option<u8>)
    ensures
        match r {
            Some(v) => is_hex_digit(c) && v == hex_value(c) && v < 16,
            None => !is_hex_digit(c),
        },
{
    if '0' <= c && c <= '9' {
        Some((c as u32 - 48) as u8)
    } else if 'a' <= c && c <= 'f' {
        Some((c as u32 - 87) as u8)
    } else if 'A' <= c && c <= 'F' {
        Some((c as u32 - 55) as u8)
    } else {
        None
    }
}

/// Parse a hex string like `#282828` or `282828` into an RGB colour.
/// Returns `None` if invalid.
pub fn parse_hex(hex: &str) -> (r: Option<Color>)
    ensures
        r == spec_parse_hex(hex@),
{
    let all = str_chars(hex);
    let start: usize = if all.len() > 0 && all[0] == '#' {
        1
    } else {
        0
    };
    let ghost h = strip_hash(hex@);
    assert(h =~= all@.subrange(start as int, all@.len() as int));
    if all.len() - start != 6 {
        return None;
    }
    let mut digits: Vec<u8> = Vec::new();
    let mut i: usize = 0;
    while i < 6
        invariant
            i <= 6,
            start <= 1,
            h == strip_hash(hex@),
            all@.len() == start + 6,
            h =~= all@.subrange(start as int, all@.len() as int),
            digits@.len() == i,
            forall|j: int| 0 <= j < i ==> is_hex_digit(#[trigger] h[j]) && digits@[j] == hex_value(h[j]) && digits@[j] < 16,
        decreases 6 - i,
    {
        assert(h[i as int] == all@[start + i]);
        match hex_digit(all[start + i]) {
            Some(v) => {
                digits.push(v);
            },
            None => {
                assert(!is_hex_digit(h[i as int]));
                assert(!(forall|j: int| 0 <= j < 6 ==> is_hex_digit(#[trigger] h[j])));
                assert(strip_hash(hex@) == h);
                return None;
            },
        }
        i += 1;
    }
    let r = digits[0] * 16 + digits[1];
    let g = digits[2] * 16 + digits[3];
    let b = digits[4] * 16 + digits[5];
    Some(Color::Rgb(r, g, b))
}

/// The lowercase hexadecimal digit of a value below 16.
pub open spec fn lower_hex_digit(d: int) -> char {
    if d < 10 {
        (48 + d) as char
    } else {
        (87 + d) as char
    }
}

/// Two lowercase hexadecimal digits for a byte.
pub open spec fn hex_pair(b: u8) -> Seq<char> {
    seq![lower_hex_digit((b / 16) as int), lower_hex_digit((b % 16) as int)]
}

/// The `#rrggbb` text of an RGB colour, with lowercase digits.
pub open spec fn spec_color_hex(r: u8, g: u8, b: u8) -> Seq<char> {
    seq!['#'] + hex_pair(r) + hex_pair(g) + hex_pair(b)
}

/// The hex text of a colour: `#rrggbb` for RGB, empty otherwise.
pub open spec fn hex_text_of(c: Color) -> Seq<char> {
    match c {
        Color::Rgb(r, g, b) => spec_color_hex(r, g, b),
        Color::Other => Seq::empty(),
    }
}

fn push_hex_pair(out: &mut Vec<char>, b: u8)
    ensures
        final(out)@ == old(out)@ + hex_pair(b),
{
    let hi = b / 16;
    let lo = b % 16;
    let hc = if hi < 10 {
        char_from_ascii_code(48 + hi as u32)
    } else {
        char_from_ascii_code(87 + hi as u32)
    };
    let lc = if lo < 10 {
        char_from_ascii_code(48 + lo as u32)
    } else {
        char_from_ascii_code(87 + lo as u32)
    };
    out.push(hc);
    out.push(lc);
    assert(final(out)@ =~= old(out)@ + hex_pair(b));
}

/// Format an RGB colour as `#rrggbb`. Returns `None` for other colours.
pub fn color_to_hex(color: Color) -> (r: Option<String>)
    ensures
        match color {
            Color::Rgb(red, green, blue) => r is Some && r.unwrap()@ == spec_color_hex(red, green, blue),
            Color::Other => r is None,
        },
{
    match color {
        Color::Rgb(red, green, blue) => {
            let mut v: Vec<char> = Vec::new();
            v.push('#');
            push_hex_pair(&mut v, red);
            push_hex_pair(&mut v, green);
            push_hex_pair(&mut v, blue);
            assert(v@ =~= spec_color_hex(red, green, blue));
            Some(crate::text::chars_to_string(v.as_slice()))
        },
        Color::Other => None,
    }
}

fn hex_or_empty(c: Color) -> (r: String)
    ensures
        r@ == hex_text_of(c),
{
    match color_to_hex(c) {
        Some(s) => s,
        None => String::new(),
    }
}

proof fn lemma_hex_digit_round_trip(d: int)
    requires
        0 <= d < 16,
    ensures
        is_hex_digit(lower_hex_digit(d)),
        hex_value(lower_hex_digit(d)) == d,
{
}

/// Writing an RGB colour as hex and parsing the text gives the colour back.
pub proof fn lemma_hex_round_trip(r: u8, g: u8, b: u8)
    ensures
        spec_parse_hex(spec_color_hex(r, g, b)) == Some(Color::Rgb(r, g, b)),
{
    let s = spec_color_hex(r, g, b);
    let h = strip_hash(s);
    assert(h =~= hex_pair(r) + hex_pair(g) + hex_pair(b));
    lemma_hex_digit_round_trip((r / 16) as int);
    lemma_hex_digit_round_trip((r % 16) as int);
    lemma_hex_digit_round_trip((g / 16) as int);
    lemma_hex_digit_round_trip((g % 16) as int);
    lemma_hex_digit_round_trip((b / 16) as int);
    lemma_hex_digit_round_trip((b % 16) as int);
    assert forall|i: int| 0 <= i < 6 implies is_hex_digit(#[trigger] h[i]) by {}
}

/// The colours a theme loads with: those of the configuration when it is
/// given and valid, those of the default configuration otherwise.
pub fn load(config: Option<ThemeConfig>) -> (r: ThemeColors)
    ensures
        match config {
            Some(c) => if forall|i: int| 0 <= i < 20 ==> spec_parse_hex(#[trigger] theme_fields(c)[i]) is Some {
                forall|i: int| 0 <= i < 20 ==> spec_parse_hex(#[trigger] theme_fields(c)[i]) == Some(theme_colors(r)[i])
            } else {
                forall|i: int| 0 <= i < 20 ==> spec_parse_hex(#[trigger] default_theme_fields()[i]) == Some(theme_colors(r)[i])
            },
            None => forall|i: int| 0 <= i < 20 ==> spec_parse_hex(#[trigger] default_theme_fields()[i]) == Some(theme_colors(r)[i]),
        },
        all_rgb(r),
{
    if let Some(c) = &config {
        if let Ok(colors) = ThemeColors::from_config(c) {
            proof {
                assert forall|i: int| 0 <= i < 20 implies (#[trigger] theme_colors(colors)[i]) is Rgb by {
                    lemma_parsed_is_rgb(theme_fields(*c)[i]);
                }
            }
            return colors;
        }
    }
    let d = default_colors();
    proof {
        assert forall|i: int| 0 <= i < 20 implies (#[trigger] theme_colors(d)[i]) is Rgb by {
            lemma_parsed_is_rgb(default_theme_fields()[i]);
        }
    }
    d
}

/// The colours of the default configuration.
pub fn default_colors() -> (r: ThemeColors)
    ensures
        forall|i: int| 0 <= i < 20 ==> spec_parse_hex(#[trigger] default_theme_fields()[i]) == Some(theme_colors(r)[i]),
{
    let d = ThemeConfig::default();
    proof {
        lemma_default_theme_valid();
    }
    match ThemeColors::from_config(&d) {
        Ok(c) => c,
        Err(_) => vstd::pervasive::unreached(),
    }
}

/// Every field of the default configuration holds a hex colour.
pub proof fn lemma_default_theme_valid()
    ensures
        forall|i: int| 0 <= i < 20 ==> spec_parse_hex(#[trigger] default_theme_fields()[i]) is Some,
{
    assert forall|i: int| 0 <= i < 20 implies spec_parse_hex(#[trigger] default_theme_fields()[i]) is Some by {
        reveal_strlit("#282828");
        reveal_strlit("#3c3836");
        reveal_strlit("#d5c4a1");
        reveal_strlit("#928374");
        reveal_strlit("#a89984");
        reveal_strlit("#fbf1c7");
        reveal_strlit("#83a598");
        reveal_strlit("#458588");
        reveal_strlit("#b8bb26");
        reveal_strlit("#fb4934");
        reveal_strlit("#fabd2f");
        reveal_strlit("#a078d2");
        reveal_strlit("#64c882");
        reveal_strlit("#32302f");
        let h = strip_hash(default_theme_fields()[i]);
        assert(h =~= default_theme_fields()[i].drop_first());
        assert(h.len() == 6);
        assert(forall|j: int| 0 <= j < 6 ==> is_hex_digit(#[trigger] h[j]));
    }
}

/// What applying `config` does to the colours `pre`, giving `post`.
pub open spec fn apply_post(config: ThemeConfig, pre: ThemeColors, post: ThemeColors, r: Result<(), String>) -> bool {
    match r {
        Ok(()) => forall|i: int| 0 <= i < 20 ==> spec_parse_hex(#[trigger] theme_fields(config)[i]) == Some(theme_colors(post)[i]),
        Err(e) => post == pre && exists|i: int| 0 <= i < 20 && spec_parse_hex(#[trigger] theme_fields(config)[i]) is None
            && (forall|j: int| 0 <= j < i ==> spec_parse_hex(#[trigger] theme_fields(config)[j]) is Some)
            && e@ == invalid_field_message(field_names()[i], theme_fields(config)[i]),
    }
}

/// `#` followed by six lowercase hexadecimal digits.
pub open spec fn is_lower_hex_color(s: Seq<char>) -> bool {
    &&& s.len() == 7
    &&& s[0] == '#'
    &&& forall|i: int| 1 <= i < 7 ==> ('0' <= #[trigger] s[i] <= '9' || 'a' <= s[i] <= 'f')
}

/// Every colour of a theme is an RGB colour.
pub open spec fn all_rgb(colors: ThemeColors) -> bool {
    forall|i: int| 0 <= i < 20 ==> (#[trigger] theme_colors(colors)[i]) is Rgb
}

/// A colour read from hex text is an RGB colour.
pub proof fn lemma_parsed_is_rgb(s: Seq<char>)
    ensures
        spec_parse_hex(s) matches Some(c) ==> c is Rgb,
{
}

/// The configuration of a theme whose colours are all RGB, as
/// `current_config` writes it, holds in each field `#` and six lowercase
/// hex digits, and reads back as the same colour.
pub proof fn lemma_current_config_round_trip(colors: ThemeColors)
    requires
        all_rgb(colors),
    ensures
        forall|i: int|
            0 <= i < 20 ==> is_lower_hex_color(#[trigger] hex_text_of(theme_colors(colors)[i]))
                && spec_parse_hex(hex_text_of(theme_colors(colors)[i])) == Some(theme_colors(colors)[i]),
{
    assert forall|i: int| 0 <= i < 20 implies is_lower_hex_color(#[trigger] hex_text_of(theme_colors(colors)[i]))
        && spec_parse_hex(hex_text_of(theme_colors(colors)[i])) == Some(theme_colors(colors)[i]) by {
        match theme_colors(colors)[i] {
            Color::Rgb(r, g, b) => {
                lemma_hex_round_trip(r, g, b);
                lemma_hex_digit_round_trip((r / 16) as int);
                lemma_hex_digit_round_trip((r % 16) as int);
                lemma_hex_digit_round_trip((g / 16) as int);
                lemma_hex_digit_round_trip((g % 16) as int);
                lemma_hex_digit_round_trip((b / 16) as int);
                lemma_hex_digit_round_trip((b % 16) as int);
            },
            Color::Other => {},
        }
    }
}

/// Applying the configuration that `current_config` wrote for a theme of
/// RGB colours succeeds and keeps the colours, so that the configuration
/// written afterwards is the same.
pub proof fn lemma_reapply_current_config(before: ThemeColors, config: ThemeConfig, after: ThemeColors, r: Result<(), String>)
    requires
        all_rgb(before),
        forall|i: int| 0 <= i < 20 ==> #[trigger] theme_fields(config)[i] == hex_text_of(theme_colors(before)[i]),
        apply_post(config, before, after, r),
    ensures
        r is Ok,
        theme_colors(after) == theme_colors(before),
        forall|i: int| 0 <= i < 20 ==> #[trigger] hex_text_of(theme_colors(after)[i]) == theme_fields(config)[i],
{
    lemma_current_config_round_trip(before);
    assert forall|i: int| 0 <= i < 20 implies spec_parse_hex(#[trigger] theme_fields(config)[i]) is Some by {
        assert(spec_parse_hex(hex_text_of(theme_colors(before)[i])) == Some(theme_colors(before)[i]));
    }
    assert forall|i: int| 0 <= i < 20 implies #[trigger] theme_colors(after)[i] == theme_colors(before)[i] by {
        assert(spec_parse_hex(theme_fields(config)[i]) == Some(theme_colors(after)[i]));
        assert(spec_parse_hex(hex_text_of(theme_colors(before)[i])) == Some(theme_colors(before)[i]));
    }
    assert(theme_colors(after) =~= theme_colors(before));
}

/// Apply a new configuration: when every field holds a hex colour the
/// colours become those of the configuration; otherwise they stay and the
/// error names the first invalid field.
pub fn apply(config: &ThemeConfig, colors: &mut ThemeColors) -> (r: Result<(), String>)
    ensures
        apply_post(*config, *old(colors), *final(colors), r),
{
    match ThemeColors::from_config(config) {
        Ok(c) => {
            *colors = c;
            Ok(())
        },
        Err(e) => Err(e),
    }
}

/// The configuration of the colours in use, written back as hex.
pub fn current_config(colors: &ThemeColors) -> (r: ThemeConfig)
    ensures
        forall|i: int| 0 <= i < 20 ==> #[trigger] theme_fields(r)[i] == hex_text_of(theme_colors(*colors)[i]),
{
    colors.to_config()
}

} // verus!
