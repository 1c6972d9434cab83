//! The top bar that switches modes, and the dialog that confirms quitting.

use vstd::prelude::*;
use crate::action::Action;
use crate::keys::{KeyCode, KeyEvent};
use crate::nav::Mode;

verus! {

/// The answer highlighted in the quit dialog.
#[derive(Debug, Clone, Copy, PartialEq, Eq, Structural)]
pub enum QuitSelection {
    Yes,
    No,
}

/// The dialog that asks whether to quit.
pub struct QuitDialog {
    pub visible: bool,
    pub selection: QuitSelection,
}

impl QuitDialog {
    pub fn new() -> (r: Self)
        ensures
            !r.visible,
            r.selection == QuitSelection::Yes,
    {
        QuitDialog { visible: false, selection: QuitSelection::Yes }
    }

    /// Shows the dialog with Yes highlighted.
    pub fn show(&mut self)
        ensures
            final(self).visible,
            final(self).selection == QuitSelection::Yes,
    {
        self.visible = true;
        self.selection = QuitSelection::Yes;
    }

    /// Hides the dialog.
    pub fn dismiss(&mut self)
        ensures
            !final(self).visible,
            final(self).selection == old(self).selection,
    {
        self.visible = false;
    }

    /// A key while the dialog is shown; every key is taken. Left/`h` and
    /// Right/`l` highlight Yes or No, Enter answers with the highlighted
    /// choice, `y` quits, `n` or Esc cancels. Hidden, it takes no key.
    pub fn handle_key(&mut self, key: KeyEvent) -> (r: Option<Action>)
        ensures
            !old(self).visible ==> r is None && *final(self) == *old(self),
            old(self).visible ==> ({
                let code = key.code;
                if code == KeyCode::Left || code == KeyCode::Char('h') {
                    r matches Some(Action::Render) && final(self).visible && final(self).selection == QuitSelection::Yes
                } else if code == KeyCode::Right || code == KeyCode::Char('l') {
                    r matches Some(Action::Render) && final(self).visible && final(self).selection == QuitSelection::No
                } else if code == KeyCode::Enter {
                    !final(self).visible && match old(self).selection {
                        QuitSelection::Yes => r matches Some(Action::Quit),
                        QuitSelection::No => r matches Some(Action::HideQuitDialog),
                    }
                } else if code == KeyCode::Char('y') || code == KeyCode::Char('Y') {
                    !final(self).visible && r matches Some(Action::Quit)
                } else if code == KeyCode::Char('n') || code == KeyCode::Char('N') || code == KeyCode::Esc {
                    !final(self).visible && r matches Some(Action::HideQuitDialog)
                } else {
                    r matches Some(Action::NoOp) && *final(self) == *old(self)
                }
            }),
    {
        if !self.visible {
            return None;
        }
        match key.code {
            KeyCode::Left | KeyCode::Char('h') => {
                self.selection = QuitSelection::Yes;
                Some(Action::Render)
            },
            KeyCode::Right | KeyCode::Char('l') => {
                self.selection = QuitSelection::No;
                Some(Action::Render)
            },
            KeyCode::Enter => {
                self.visible = false;
                match self.selection {
                    QuitSelection::Yes => Some(Action::Quit),
                    QuitSelection::No => Some(Action::HideQuitDialog),
                }
            },
            KeyCode::Char('y') | KeyCode::Char('Y') => {
                self.visible = false;
                Some(Action::Quit)
            },
            KeyCode::Char('n') | KeyCode::Char('N') | KeyCode::Esc => {
                self.visible = false;
                Some(Action::HideQuitDialog)
            },
            _ => Some(Action::NoOp),
        }
    }
}

/// The bar at the top that shows the modes.
pub struct TopBar {
    pub focused: bool,
}

impl TopBar {
    pub fn new() -> (r: Self)
        ensures
            r.focused,
    {
        TopBar { focused: true }
    }

    /// A key while the bar has the keyboard: `e`, `q` and `s` (either case)
    /// switch to Explore, Query and Settings.
    pub fn handle_key(&self, key: KeyEvent) -> (r: Option<Action>)
        ensures
            !self.focused ==> r is None,
            self.focused ==> ({
                let code = key.code;
                if code == KeyCode::Char('e') || code == KeyCode::Char('E') {
                    r matches Some(Action::SwitchMode(Mode::Explore))
                } else if code == KeyCode::Char('q') || code == KeyCode::Char('Q') {
                    r matches Some(Action::SwitchMode(Mode::Query))
                } else if code == KeyCode::Char('s') || code == KeyCode::Char('S') {
                    r matches Some(Action::SwitchMode(Mode::Settings))
                } else {
                    r is None
                }
            }),
    {
        if !self.focused {
            return None;
        }
        match key.code {
            KeyCode::Char('e') | KeyCode::Char('E') => Some(Action::SwitchMode(Mode::Explore)),
            KeyCode::Char('q') | KeyCode::Char('Q') => Some(Action::SwitchMode(Mode::Query)),
            KeyCode::Char('s') | KeyCode::Char('S') => Some(Action::SwitchMode(Mode::Settings)),
            _ => None,
        }
    }
}

} // verus!
