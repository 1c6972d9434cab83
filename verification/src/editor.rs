//! The decisions of the embedded editor: its lifecycle, whether it is in
//! normal mode, and which keys the application takes before the editor.

use vstd::prelude::*;
use crate::action::Action;
use crate::keys::{KeyCode, KeyEvent, KeyModifiers};
use crate::text::{seq_contains, spec_to_lowercase, str_contains, str_eq, str_starts_with, str_to_string, to_lowercase};

verus! {

/// Spawns in quick succession after which the editor is not restarted.
pub const MAX_QUICK_SPAWNS: u32 = 3;

/// A crash within this many milliseconds of a spawn counts as quick.
pub const QUICK_CRASH_MS: u64 = 3000;

/// The state of the editor process.
#[derive(Debug, Clone)]
pub enum NvimStatus {
    /// Not yet started.
    NotStarted,
    /// Running normally.
    Running,
    /// Process exited or crashed, with why.
    Exited(String),
}

/// The editor process's bookkeeping: its status, how often it was spawned,
/// and when last (milliseconds, monotonic).
pub struct EditorLifecycle {
    pub status: NvimStatus,
    pub spawn_attempts: u32,
    pub last_spawn: Option<u64>,
    pub rpc_connected: bool,
}

/// A mode name that counts as normal mode: `n`, `no`, or one starting with
/// `nt`.
pub open spec fn is_normal_mode_name(mode: Seq<char>) -> bool {
    mode == "n"@ || mode == "no"@ || (mode.len() >= 2 && mode.take(2) == "nt"@)
}

/// A status line that shows no insert, visual, replace or select marker.
pub open spec fn status_line_normal(line: Seq<char>) -> bool {
    let l = spec_to_lowercase(line);
    !seq_contains(l, "-- insert --"@) && !seq_contains(l, "-- visual"@) && !seq_contains(l, "-- replace --"@)
        && !seq_contains(l, "-- select --"@)
}

/// Whether the editor mode reported by RPC is normal mode (`n` or `no`, or
/// a mode starting with `nt`).
pub fn is_normal_mode_name_exec(mode: &str) -> (r: bool)
    ensures
        r == is_normal_mode_name(mode@),
{
    proof {
        reveal_strlit("nt");
    }
    let r = str_eq(mode, "n") || str_eq(mode, "no") || str_starts_with(mode, "nt");
    r
}

/// Whether the editor's last screen line shows normal mode.
pub fn status_line_is_normal(line: &str) -> (r: bool)
    ensures
        r == status_line_normal(line@),
{
    let l = to_lowercase(line);
    !str_contains(l.as_str(), "-- insert --") && !str_contains(l.as_str(), "-- visual")
        && !str_contains(l.as_str(), "-- replace --") && !str_contains(l.as_str(), "-- select --")
}

/// Whether the editor counts as in normal mode: when not running it does;
/// otherwise the mode reported by RPC decides when there is one, and the
/// screen's status line when not.
pub fn is_normal_mode(running: bool, rpc_mode: Option<&str>, status_line: &str) -> (r: bool)
    ensures
        r == (!running || match rpc_mode {
            Some(m) => is_normal_mode_name(m@),
            None => status_line_normal(status_line@),
        }),
{
    if !running {
        return true;
    }
    match rpc_mode {
        Some(m) => is_normal_mode_name_exec(m),
        None => status_line_is_normal(status_line),
    }
}

/// What happens to a key given to the editor.
pub enum EditorKeyOutcome {
    /// The editor does not take the key.
    Ignored,
    /// The application acts on the key; the editor does not see it.
    Act(Action),
    /// Run the editor's text, or say that there is none.
    RunQuery,
    /// The key is written to the editor.
    Forward,
}

/// Where a key for the editor goes. A stopped editor takes no key. Tab in
/// normal mode is left to the application. Ctrl+R runs the query, Ctrl+P
/// shows the history, Ctrl+S saves the query, Ctrl+E exports the results,
/// Ctrl+N starts a new query in normal mode; every other key is written to
/// the editor.
pub fn editor_key(key: KeyEvent, running: bool, normal_mode: bool) -> (r: EditorKeyOutcome)
    ensures
        !running ==> r is Ignored,
        running && key.code == KeyCode::Tab && key.modifiers.is_none() && normal_mode ==> r is Ignored,
        running && !(key.code == KeyCode::Tab && key.modifiers.is_none() && normal_mode) ==> ({
            let ctrl = key.modifiers.control;
            if ctrl && key.code == KeyCode::Char('r') {
                r is RunQuery
            } else if ctrl && key.code == KeyCode::Char('p') {
                r matches EditorKeyOutcome::Act(Action::ShowQueryHistory)
            } else if ctrl && key.code == KeyCode::Char('s') {
                r matches EditorKeyOutcome::Act(Action::SaveQueryToHistory)
            } else if ctrl && key.code == KeyCode::Char('e') {
                r matches EditorKeyOutcome::Act(Action::ExportResults)
            } else if ctrl && key.code == KeyCode::Char('n') && normal_mode {
                r matches EditorKeyOutcome::Act(Action::NewQuery)
            } else {
                r is Forward
            }
        }),
{
    if !running {
        return EditorKeyOutcome::Ignored;
    }
    if key.code == KeyCode::Tab && key.modifiers.is_empty() && normal_mode {
        return EditorKeyOutcome::Ignored;
    }
    let ctrl = key.modifiers.contains(KeyModifiers::control_only());
    if ctrl && key.code == KeyCode::Char('r') {
        return EditorKeyOutcome::RunQuery;
    }
    if ctrl && key.code == KeyCode::Char('p') {
        return EditorKeyOutcome::Act(Action::ShowQueryHistory);
    }
    if ctrl && key.code == KeyCode::Char('s') {
        return EditorKeyOutcome::Act(Action::SaveQueryToHistory);
    }
    if ctrl && key.code == KeyCode::Char('e') {
        return EditorKeyOutcome::Act(Action::ExportResults);
    }
    if ctrl && key.code == KeyCode::Char('n') && normal_mode {
        return EditorKeyOutcome::Act(Action::NewQuery);
    }
    EditorKeyOutcome::Forward
}

/// The action for running the editor's text: the query, or a message when
/// the editor is empty.
pub fn run_query_action(sql: String) -> (r: Action)
    ensures
        sql@.len() > 0 ==> (r matches Action::ExecuteQuery(s) && s@ == sql@),
        sql@.len() == 0 ==> (r matches Action::StatusMessage(m) && m@ == "No SQL to execute"@),
{
    if crate::text::str_chars(sql.as_str()).len() > 0 {
        Action::ExecuteQuery(sql)
    } else {
        Action::StatusMessage(str_to_string("No SQL to execute"))
    }
}

impl EditorLifecycle {
    pub fn new() -> (r: Self)
        ensures
            r.status is NotStarted,
            r.spawn_attempts == 0,
            r.last_spawn is None,
            !r.rpc_connected,
    {
        EditorLifecycle { status: NvimStatus::NotStarted, spawn_attempts: 0, last_spawn: None, rpc_connected: false }
    }

    /// Records a spawn at `now`.
    pub fn record_spawn(&mut self, now_ms: u64)
        ensures
            final(self).spawn_attempts == (if old(self).spawn_attempts < u32::MAX { old(self).spawn_attempts + 1 } else { u32::MAX as int }),
            final(self).last_spawn == Some(now_ms),
            final(self).status is Running,
            final(self).rpc_connected == old(self).rpc_connected,
    {
        self.spawn_attempts = self.spawn_attempts.saturating_add(1);
        self.last_spawn = Some(now_ms);
        self.status = NvimStatus::Running;
    }

    /// The editor exited at `now`: it may be restarted on the next draw,
    /// unless it was spawned three or more times and crashed less than
    /// three seconds after the last spawn, in which case it stays down.
    /// The RPC connection is dropped either way.
    pub fn handle_nvim_exited(&mut self, now_ms: u64)
        ensures
            !final(self).rpc_connected,
            final(self).spawn_attempts == old(self).spawn_attempts,
            final(self).last_spawn == old(self).last_spawn,
            ({
                let quick = match old(self).last_spawn {
                    Some(t) => now_ms < t || now_ms - t < QUICK_CRASH_MS,
                    None => false,
                };
                if old(self).spawn_attempts >= MAX_QUICK_SPAWNS && quick {
                    final(self).status matches NvimStatus::Exited(m)
                        && m@ == "nvim crashed too many times -- switch away and back to retry"@
                } else {
                    final(self).status is NotStarted
                }
            }),
    {
        self.rpc_connected = false;
        let quick = match self.last_spawn {
            Some(t) => now_ms < t || now_ms - t < QUICK_CRASH_MS,
            None => false,
        };
        if self.spawn_attempts >= MAX_QUICK_SPAWNS && quick {
            self.status = NvimStatus::Exited(str_to_string("nvim crashed too many times -- switch away and back to retry"));
        } else {
            self.status = NvimStatus::NotStarted;
        }
    }

    /// Forgets the spawns, so that the editor may be started again.
    pub fn reset_spawn_counter(&mut self)
        ensures
            final(self).spawn_attempts == 0,
            final(self).last_spawn is None,
            final(self).rpc_connected == old(self).rpc_connected,
    {
        self.spawn_attempts = 0;
        self.last_spawn = None;
    }

    /// The editor was shut down: a running editor is marked exited.
    pub fn shutdown(&mut self)
        ensures
            !final(self).rpc_connected,
            (old(self).status is Running) ==> (final(self).status matches NvimStatus::Exited(m) && m@ == "shutdown"@),
            !(old(self).status is Running) ==> final(self).status == old(self).status,
    {
        self.rpc_connected = false;
        if let NvimStatus::Running = self.status {
            self.status = NvimStatus::Exited(str_to_string("shutdown"));
        }
    }
}

} // verus!
