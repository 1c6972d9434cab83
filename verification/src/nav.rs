//! Where the keyboard is: the mode shown, whether the top bar or the mode's
//! content has focus, and which sub-pane of the mode is focused.

use vstd::prelude::*;
use crate::query_pane::{QueryFocus, QueryPaneState};
use crate::settings::SettingsFocus;

verus! {

/// The mode the application shows.
#[derive(Debug, Clone, Copy, PartialEq, Eq, Structural)]
pub enum Mode {
    Explore,
    Query,
    Settings,
}

/// Whether the top bar or the mode's content has the keyboard.
#[derive(Debug, Clone, Copy, PartialEq, Eq, Structural)]
pub enum Focus {
    TopBar,
    ModeContent,
}

/// Which sub-pane of the explorer has the keyboard.
#[derive(Debug, Clone, Copy, PartialEq, Eq, Structural)]
pub enum ExploreFocus {
    Tree,
    Detail,
}

/// The sub-panes of every mode that can hold the keyboard.
pub struct SubPanes {
    pub explore: ExploreFocus,
    pub query: QueryFocus,
    pub settings: SettingsFocus,
}

/// The position of the focused sub-pane within its mode.
pub open spec fn subpane_index(mode: Mode, p: SubPanes) -> int {
    match mode {
        Mode::Explore => match p.explore {
            ExploreFocus::Tree => 0,
            ExploreFocus::Detail => 1,
        },
        Mode::Query => match p.query {
            QueryFocus::Editor => 0,
            QueryFocus::Results => 1,
        },
        Mode::Settings => match p.settings {
            SettingsFocus::Connection => 0,
            SettingsFocus::Cache => 1,
            SettingsFocus::Theme => 2,
        },
    }
}

/// The number of sub-panes of a mode.
pub open spec fn subpane_count(mode: Mode) -> int {
    match mode {
        Mode::Settings => 3,
        _ => 2,
    }
}

impl SubPanes {
    /// The first sub-pane of each mode.
    pub fn new() -> (r: Self)
        ensures
            subpane_index(Mode::Explore, r) == 0,
            subpane_index(Mode::Query, r) == 0,
            subpane_index(Mode::Settings, r) == 0,
    {
        SubPanes { explore: ExploreFocus::Tree, query: QueryFocus::Editor, settings: SettingsFocus::Connection }
    }

    /// Focuses the first sub-pane of a mode.
    pub fn set_first_subpane(&mut self, mode: Mode)
        ensures
            subpane_index(mode, *final(self)) == 0,
            forall|m: Mode| m != mode ==> subpane_index(m, *final(self)) == subpane_index(m, *old(self)),
    {
        match mode {
            Mode::Explore => self.explore = ExploreFocus::Tree,
            Mode::Query => self.query = QueryFocus::Editor,
            Mode::Settings => self.settings = SettingsFocus::Connection,
        }
    }

    /// Focuses the last sub-pane of a mode.
    pub fn set_last_subpane(&mut self, mode: Mode)
        ensures
            subpane_index(mode, *final(self)) == subpane_count(mode) - 1,
            forall|m: Mode| m != mode ==> subpane_index(m, *final(self)) == subpane_index(m, *old(self)),
    {
        match mode {
            Mode::Explore => self.explore = ExploreFocus::Detail,
            Mode::Query => self.query = QueryFocus::Results,
            Mode::Settings => self.settings = SettingsFocus::Theme,
        }
    }

    /// Advance to the next sub-pane. Returns true if advanced, false if at
    /// the last sub-pane.
    pub fn advance_subpane(&mut self, mode: Mode) -> (r: bool)
        ensures
            r == (subpane_index(mode, *old(self)) < subpane_count(mode) - 1),
            subpane_index(mode, *final(self)) == (if r { subpane_index(mode, *old(self)) + 1 } else { subpane_index(mode, *old(self)) }),
            forall|m: Mode| m != mode ==> subpane_index(m, *final(self)) == subpane_index(m, *old(self)),
    {
        match mode {
            Mode::Explore => match self.explore {
                ExploreFocus::Tree => {
                    self.explore = ExploreFocus::Detail;
                    true
                },
                ExploreFocus::Detail => false,
            },
            Mode::Query => match self.query {
                QueryFocus::Editor => {
                    self.query = QueryFocus::Results;
                    true
                },
                QueryFocus::Results => false,
            },
            Mode::Settings => match self.settings {
                SettingsFocus::Connection => {
                    self.settings = SettingsFocus::Cache;
                    true
                },
                SettingsFocus::Cache => {
                    self.settings = SettingsFocus::Theme;
                    true
                },
                SettingsFocus::Theme => false,
            },
        }
    }

    /// Retreat to the previous sub-pane. Returns true if retreated, false
    /// if at the first sub-pane.
    pub fn retreat_subpane(&mut self, mode: Mode) -> (r: bool)
        ensures
            r == (subpane_index(mode, *old(self)) > 0),
            subpane_index(mode, *final(self)) == (if r { subpane_index(mode, *old(self)) - 1 } else { subpane_index(mode, *old(self)) }),
            forall|m: Mode| m != mode ==> subpane_index(m, *final(self)) == subpane_index(m, *old(self)),
    {
        match mode {
            Mode::Explore => match self.explore {
                ExploreFocus::Detail => {
                    self.explore = ExploreFocus::Tree;
                    true
                },
                ExploreFocus::Tree => false,
            },
            Mode::Query => match self.query {
                QueryFocus::Results => {
                    self.query = QueryFocus::Editor;
                    true
                },
                QueryFocus::Editor => false,
            },
            Mode::Settings => match self.settings {
                SettingsFocus::Theme => {
                    self.settings = SettingsFocus::Cache;
                    true
                },
                SettingsFocus::Cache => {
                    self.settings = SettingsFocus::Connection;
                    true
                },
                SettingsFocus::Connection => false,
            },
        }
    }
}

/// Each sub-pane of a mode has its own position.
pub proof fn lemma_subpane_index_determines(mode: Mode, a: SubPanes, b: SubPanes)
    requires
        subpane_index(mode, a) == subpane_index(mode, b),
    ensures
        mode == Mode::Explore ==> a.explore == b.explore,
        mode == Mode::Query ==> a.query == b.query,
        mode == Mode::Settings ==> a.settings == b.settings,
        0 <= subpane_index(mode, a) < subpane_count(mode),
{
}

/// The focus of a mode's sub-panes.
pub open spec fn same_focus(mode: Mode, a: SubPanes, b: SubPanes) -> bool {
    match mode {
        Mode::Explore => a.explore == b.explore,
        Mode::Query => a.query == b.query,
        Mode::Settings => a.settings == b.settings,
    }
}

/// Tab then Shift+Tab returns to the sub-pane one started from, when Tab
/// moved; and Shift+Tab then Tab does too, when Shift+Tab moved. (The
/// relations are those that `advance_subpane` and `retreat_subpane`
/// ensure.)
pub proof fn lemma_advance_retreat_inverse(mode: Mode, start: SubPanes, mid: SubPanes, end: SubPanes)
    ensures
        subpane_index(mode, start) < subpane_count(mode) - 1 && subpane_index(mode, mid) == subpane_index(mode, start) + 1
            && subpane_index(mode, mid) > 0 && subpane_index(mode, end) == subpane_index(mode, mid) - 1
            ==> same_focus(mode, end, start),
        subpane_index(mode, start) > 0 && subpane_index(mode, mid) == subpane_index(mode, start) - 1
            && subpane_index(mode, mid) < subpane_count(mode) - 1 && subpane_index(mode, end) == subpane_index(mode, mid) + 1
            ==> same_focus(mode, end, start),
{
    if subpane_index(mode, end) == subpane_index(mode, start) {
        lemma_subpane_index_determines(mode, end, start);
    }
}

} // verus!
