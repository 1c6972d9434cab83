//! Background tasks: the catalog refreshes and other work that runs while
//! the user goes on, with the overlay that lists them.

use vstd::prelude::*;
use crate::action::Action;
use crate::keys::{KeyCode, KeyEvent};
use crate::text::{str_eq, str_to_string};

verus! {

/// The most completed tasks that are kept.
pub const MAX_COMPLETED_TASKS: usize = 200;

/// The rows of the task list visible at once.
pub const TASK_ROWS: usize = 18;

/// Where a task is in its life.
#[derive(Debug, Clone, Copy, PartialEq, Eq, Structural)]
pub enum TaskStatus {
    Pending,
    Running,
    Complete,
}

impl TaskStatus {
    /// The status as shown.
    pub fn label(&self) -> (r: &'static str)
        ensures
            r@ == (match *self {
                TaskStatus::Pending => "Pending"@,
                TaskStatus::Running => "Running"@,
                TaskStatus::Complete => "Complete"@,
            }),
    {
        match self {
            TaskStatus::Pending => "Pending",
            TaskStatus::Running => "Running",
            TaskStatus::Complete => "Complete",
        }
    }
}

/// A background task: its id, status, when it was created and completed
/// (milliseconds since the epoch), what started it and what it does.
#[derive(Debug, Clone)]
pub struct BackgroundTask {
    pub id: usize,
    pub status: TaskStatus,
    pub created_at: i64,
    pub completed_at: Option<i64>,
    pub source: String,
    pub name: String,
}

/// The number of completed tasks.
pub open spec fn count_complete(s: Seq<BackgroundTask>) -> nat
    decreases s.len(),
{
    if s.len() == 0 {
        0
    } else {
        count_complete(s.drop_last()) + if s.last().status == TaskStatus::Complete {
            1nat
        } else {
            0nat
        }
    }
}

/// The tasks without the oldest `to_remove` completed ones, in order.
pub open spec fn prune_completed(s: Seq<BackgroundTask>, to_remove: nat) -> Seq<BackgroundTask>
    decreases s.len(),
{
    if s.len() == 0 {
        s
    } else {
        let rest = prune_completed(s.drop_last(), to_remove);
        if s.last().status == TaskStatus::Complete && count_complete(s.drop_last()) < to_remove {
            rest
        } else {
            rest.push(s.last())
        }
    }
}

/// The number of tasks of `source` whose status satisfies `pending`
/// (pending or running) or is running.
pub open spec fn count_matching(s: Seq<BackgroundTask>, source: Seq<char>, with_pending: bool) -> nat
    decreases s.len(),
{
    if s.len() == 0 {
        0
    } else {
        let t = s.last();
        count_matching(s.drop_last(), source, with_pending) + if t.source@ == source && (t.status
            == TaskStatus::Running || (with_pending && t.status == TaskStatus::Pending)) {
            1nat
        } else {
            0nat
        }
    }
}

/// The task list after `complete_task(id)` marks the first task with that
/// id complete at `now`.
pub open spec fn mark_complete(s: Seq<BackgroundTask>, id: usize, now: i64) -> Seq<BackgroundTask> {
    if exists|i: int| 0 <= i < s.len() && (#[trigger] s[i]).id == id {
        let i = choose|i: int| 0 <= i < s.len() && (#[trigger] s[i]).id == id;
        s.update(i, BackgroundTask { status: TaskStatus::Complete, completed_at: Some(now), ..s[i] })
    } else {
        s
    }
}

/// Background tasks, with the id the next task gets.
pub struct BackgroundTaskManager {
    tasks: Vec<BackgroundTask>,
    next_id: usize,
}

/// The ids increase along the list and are below `next`.
pub open spec fn ids_increasing(s: Seq<BackgroundTask>, next: usize) -> bool {
    &&& forall|i: int, j: int| 0 <= i < j < s.len() ==> (#[trigger] s[i]).id < (#[trigger] s[j]).id
    &&& forall|i: int| 0 <= i < s.len() ==> (#[trigger] s[i]).id < next
}

proof fn lemma_count_complete_bound(s: Seq<BackgroundTask>)
    ensures
        count_complete(s) <= s.len(),
    decreases s.len(),
{
    if s.len() > 0 {
        lemma_count_complete_bound(s.drop_last());
    }
}

proof fn lemma_prune_count(s: Seq<BackgroundTask>, k: nat)
    ensures
        count_complete(prune_completed(s, k)) == count_complete(s) - (if count_complete(s) < k { count_complete(s) } else { k }),
    decreases s.len(),
{
    if s.len() > 0 {
        let init = s.drop_last();
        lemma_prune_count(init, k);
        let rest = prune_completed(init, k);
        assert(rest.push(s.last()).drop_last() =~= rest);
    }
}

proof fn lemma_prune_subsequence(s: Seq<BackgroundTask>, k: nat)
    ensures
        forall|i: int| 0 <= i < prune_completed(s, k).len() ==> exists|j: int| 0 <= j < s.len() && #[trigger] prune_completed(s, k)[i] == s[j],
        forall|i: int, j: int| 0 <= i < j < prune_completed(s, k).len() ==> exists|a: int, b: int| 0 <= a < b < s.len()
            && #[trigger] prune_completed(s, k)[i] == s[a] && #[trigger] prune_completed(s, k)[j] == s[b],
        prune_completed(s, k).len() <= s.len(),
    decreases s.len(),
{
    if s.len() > 0 {
        let init = s.drop_last();
        lemma_prune_subsequence(init, k);
        let rest = prune_completed(init, k);
        let p = prune_completed(s, k);
        assert forall|i: int| 0 <= i < p.len() implies exists|j: int| 0 <= j < s.len() && #[trigger] p[i] == s[j] by {
            if i < rest.len() {
                assert(p[i] == rest[i]);
                let j = choose|j: int| 0 <= j < init.len() && #[trigger] rest[i] == init[j];
                assert(s[j] == init[j]);
            } else {
                assert(p[i] == s[s.len() - 1]);
            }
        }
        assert forall|i: int, j: int| 0 <= i < j < p.len() implies exists|a: int, b: int| 0 <= a < b < s.len()
            && #[trigger] p[i] == s[a] && #[trigger] p[j] == s[b] by {
            if j < rest.len() {
                assert(p[i] == rest[i] && p[j] == rest[j]);
                let (a, b) = choose|a: int, b: int| 0 <= a < b < init.len() && #[trigger] rest[i] == init[a] && #[trigger] rest[j] == init[b];
                assert(s[a] == init[a] && s[b] == init[b]);
            } else {
                assert(p[i] == rest[i]);
                let a = choose|a: int| 0 <= a < init.len() && #[trigger] rest[i] == init[a];
                assert(s[a] == init[a]);
                assert(p[j] == s[s.len() - 1]);
            }
        }
    }
}

impl BackgroundTaskManager {
    /// The tasks, in the order they were created.
    pub closed spec fn task_list(&self) -> Seq<BackgroundTask> {
        self.tasks@
    }

    /// The id the next task gets.
    pub closed spec fn next(&self) -> usize {
        self.next_id
    }

    /// The id the next task gets.
    pub fn next_id(&self) -> (r: usize)
        ensures
            r == self.next(),
    {
        self.next_id
    }

    /// Ids increase in creation order and are below the next id.
    pub closed spec fn wf(&self) -> bool {
        ids_increasing(self.tasks@, self.next_id) && self.next_id >= 1
    }

    /// No tasks; the first id is 1.
    pub fn new() -> (r: Self)
        ensures
            r.wf(),
            r.task_list().len() == 0,
            r.next() == 1,
    {
        BackgroundTaskManager { tasks: Vec::new(), next_id: 1 }
    }

    /// Adds a pending task created at `now` and returns its id, which is
    /// the next id.
    pub fn create_task(&mut self, source: &str, name: &str, now_ms: i64) -> (r: usize)
        requires
            old(self).wf(),
            old(self).next() < usize::MAX,
        ensures
            final(self).wf(),
            r == old(self).next(),
            forall|i: int| 0 <= i < old(self).task_list().len() ==> (#[trigger] old(self).task_list()[i]).id < r,
            final(self).next() == old(self).next() + 1,
            final(self).task_list().len() == old(self).task_list().len() + 1,
            final(self).task_list().drop_last() == old(self).task_list(),
            ({
                let t = final(self).task_list().last();
                t.id == r && t.status == TaskStatus::Pending && t.created_at == now_ms && t.completed_at is None
                    && t.source@ == source@ && t.name@ == name@
            }),
    {
        let id = self.next_id;
        self.next_id += 1;
        self.tasks.push(
            BackgroundTask {
                id,
                status: TaskStatus::Pending,
                created_at: now_ms,
                completed_at: None,
                source: str_to_string(source),
                name: str_to_string(name),
            },
        );
        assert(self.tasks@.drop_last() =~= old(self).tasks@);
        id
    }

    /// The position of the first task with id `id`.
    fn position_of(&self, id: usize) -> (r: Option<usize>)
        ensures
            match r {
                Some(i) => i < self.tasks@.len() && self.tasks@[i as int].id == id,
                None => forall|i: int| 0 <= i < self.tasks@.len() ==> (#[trigger] self.tasks@[i]).id != id,
            },
    {
        let mut i: usize = 0;
        while i < self.tasks.len()
            invariant
                i <= self.tasks@.len(),
                forall|j: int| 0 <= j < i ==> (#[trigger] self.tasks@[j]).id != id,
            decreases self.tasks@.len() - i,
        {
            if self.tasks[i].id == id {
                return Some(i);
            }
            i += 1;
        }
        None
    }

    /// Marks the task with id `id` running.
    pub fn start_task(&mut self, id: usize)
        requires
            old(self).wf(),
        ensures
            final(self).wf(),
            final(self).next() == old(self).next(),
            final(self).task_list().len() == old(self).task_list().len(),
            forall|i: int| 0 <= i < old(self).task_list().len() ==> {
                let t = #[trigger] final(self).task_list()[i];
                let o = old(self).task_list()[i];
                if o.id == id {
                    t == BackgroundTask { status: TaskStatus::Running, ..o }
                } else {
                    t == o
                }
            },
    {
        match self.position_of(id) {
            Some(i) => {
                let mut t = self.tasks.remove(i);
                t.status = TaskStatus::Running;
                self.tasks.insert(i, t);
                proof {
                    assert forall|a: int, b: int| 0 <= a < b < self.tasks@.len() implies (#[trigger] self.tasks@[a]).id < (#[trigger] self.tasks@[b]).id by {
                        assert(self.tasks@[a].id == old(self).tasks@[a].id);
                        assert(self.tasks@[b].id == old(self).tasks@[b].id);
                    }
                    assert forall|j: int| 0 <= j < old(self).tasks@.len() && old(self).tasks@[j].id == id implies j == i by {
                        if j < i {
                            assert(old(self).tasks@[j].id < old(self).tasks@[i as int].id);
                        } else if j > i {
                            assert(old(self).tasks@[i as int].id < old(self).tasks@[j].id);
                        }
                    }
                }
            },
            None => {},
        }
    }

    /// Marks the task with id `id` complete at `now`, then forgets the
    /// oldest completed tasks beyond the two hundred newest.
    pub fn complete_task(&mut self, id: usize, now_ms: i64)
        requires
            old(self).wf(),
        ensures
            final(self).wf(),
            final(self).next() == old(self).next(),
            ({
                let marked = mark_complete(old(self).task_list(), id, now_ms);
                let c = count_complete(marked);
                final(self).task_list() == if c > MAX_COMPLETED_TASKS {
                    prune_completed(marked, (c - MAX_COMPLETED_TASKS) as nat)
                } else {
                    marked
                }
            }),
            count_complete(final(self).task_list()) <= MAX_COMPLETED_TASKS
                || count_complete(final(self).task_list()) == count_complete(mark_complete(old(self).task_list(), id, now_ms)),
    {
        let ghost s0 = self.tasks@;
        match self.position_of(id) {
            Some(i) => {
                let mut t = self.tasks.remove(i);
                t.status = TaskStatus::Complete;
                t.completed_at = Some(now_ms);
                self.tasks.insert(i, t);
                proof {
                    assert forall|j: int| 0 <= j < s0.len() && (#[trigger] s0[j]).id == id implies j == i by {
                        if j < i {
                            assert(s0[j].id < s0[i as int].id);
                        } else if j > i {
                            assert(s0[i as int].id < s0[j].id);
                        }
                    }
                    assert(self.tasks@ =~= mark_complete(s0, id, now_ms));
                }
            },
            None => {
                assert(self.tasks@ =~= mark_complete(s0, id, now_ms));
            },
        }
        let ghost marked = self.tasks@;
        assert(ids_increasing(marked, self.next_id)) by {
            assert forall|a: int, b: int| 0 <= a < b < marked.len() implies (#[trigger] marked[a]).id < (#[trigger] marked[b]).id by {
                assert(marked[a].id == s0[a].id && marked[b].id == s0[b].id);
            }
            assert forall|a: int| 0 <= a < marked.len() implies (#[trigger] marked[a]).id < self.next_id by {
                assert(marked[a].id == s0[a].id);
            }
        }
        let mut completed: usize = 0;
        let mut k: usize = 0;
        while k < self.tasks.len()
            invariant
                k <= self.tasks@.len(),
                self.tasks@ == marked,
                completed == count_complete(marked.take(k as int)),
            decreases self.tasks@.len() - k,
        {
            assert(marked.take(k + 1).drop_last() =~= marked.take(k as int));
            proof {
                lemma_count_complete_bound(marked.take(k as int));
            }
            if self.tasks[k].status == TaskStatus::Complete {
                completed += 1;
            }
            k += 1;
        }
        assert(marked.take(marked.len() as int) =~= marked);
        if completed > MAX_COMPLETED_TASKS {
            let to_remove = completed - MAX_COMPLETED_TASKS;
            let mut kept: Vec<BackgroundTask> = Vec::new();
            let mut rest: Vec<BackgroundTask> = Vec::new();
            std::mem::swap(&mut rest, &mut self.tasks);
            let n = rest.len();
            let mut removed: usize = 0;
            let mut j: usize = 0;
            while j < n
                invariant
                    j <= n,
                    n == marked.len(),
                    rest@ == marked.skip(j as int),
                    to_remove == completed - MAX_COMPLETED_TASKS,
                    kept@ == prune_completed(marked.take(j as int), to_remove as nat),
                    removed == (if count_complete(marked.take(j as int)) < to_remove { count_complete(marked.take(j as int)) } else { to_remove as nat }),
                decreases n - j,
            {
                assert(marked.take(j + 1).drop_last() =~= marked.take(j as int));
                assert(marked.take(j + 1).last() == marked[j as int]);
                let t = rest.remove(0);
                assert(rest@ =~= marked.skip(j + 1));
                if t.status == TaskStatus::Complete && removed < to_remove {
                    removed += 1;
                } else {
                    kept.push(t);
                }
                j += 1;
            }
            assert(marked.take(marked.len() as int) =~= marked);
            proof {
                lemma_prune_count(marked, to_remove as nat);
                lemma_prune_subsequence(marked, to_remove as nat);
                let p = prune_completed(marked, to_remove as nat);
                assert forall|a: int, b: int| 0 <= a < b < p.len() implies (#[trigger] p[a]).id < (#[trigger] p[b]).id by {
                    let (x, y) = choose|x: int, y: int| 0 <= x < y < marked.len() && #[trigger] p[a] == marked[x] && #[trigger] p[b] == marked[y];
                }
                assert forall|a: int| 0 <= a < p.len() implies (#[trigger] p[a]).id < self.next_id by {
                    let x = choose|x: int| 0 <= x < marked.len() && #[trigger] p[a] == marked[x];
                }
            }
            self.tasks = kept;
        }
    }

    /// The number of running tasks of a source.
    pub fn running_count(&self, source: &str) -> (r: usize)
        ensures
            r == count_matching(self.task_list(), source@, false),
    {
        self.count_of(source, false)
    }

    /// The number of pending or running tasks of a source.
    pub fn pending_or_running_count(&self, source: &str) -> (r: usize)
        ensures
            r == count_matching(self.task_list(), source@, true),
    {
        self.count_of(source, true)
    }

    fn count_of(&self, source: &str, with_pending: bool) -> (r: usize)
        ensures
            r == count_matching(self.tasks@, source@, with_pending),
    {
        let mut n: usize = 0;
        let mut i: usize = 0;
        while i < self.tasks.len()
            invariant
                i <= self.tasks@.len(),
                n == count_matching(self.tasks@.take(i as int), source@, with_pending),
                n <= i,
            decreases self.tasks@.len() - i,
        {
            assert(self.tasks@.take(i + 1).drop_last() =~= self.tasks@.take(i as int));
            let t = &self.tasks[i];
            if str_eq(t.source.as_str(), source) && (t.status == TaskStatus::Running || (with_pending
                && t.status == TaskStatus::Pending)) {
                n += 1;
            }
            i += 1;
        }
        assert(self.tasks@.take(self.tasks@.len() as int) =~= self.tasks@);
        n
    }

    /// Find a running (or pending) task by source and name, newest first,
    /// and return its id.
    pub fn find_running_task(&self, source: &str, name: &str) -> (r: Option<usize>)
        ensures
            match r {
                Some(id) => exists|i: int| 0 <= i < self.task_list().len() && #[trigger] self.task_list()[i].id == id
                    && self.task_list()[i].source@ == source@ && self.task_list()[i].name@ == name@
                    && (self.task_list()[i].status == TaskStatus::Running || self.task_list()[i].status == TaskStatus::Pending)
                    && forall|j: int| i < j < self.task_list().len() ==> !(#[trigger] self.task_list()[j].source@ == source@
                        && self.task_list()[j].name@ == name@ && (self.task_list()[j].status == TaskStatus::Running
                        || self.task_list()[j].status == TaskStatus::Pending)),
                None => forall|j: int| 0 <= j < self.task_list().len() ==> !(#[trigger] self.task_list()[j].source@ == source@
                    && self.task_list()[j].name@ == name@ && (self.task_list()[j].status == TaskStatus::Running
                    || self.task_list()[j].status == TaskStatus::Pending)),
            },
    {
        let mut i: usize = self.tasks.len();
        while i > 0
            invariant
                i <= self.tasks@.len(),
                forall|j: int| i <= j < self.tasks@.len() ==> !(#[trigger] self.tasks@[j].source@ == source@
                    && self.tasks@[j].name@ == name@ && (self.tasks@[j].status == TaskStatus::Running
                    || self.tasks@[j].status == TaskStatus::Pending)),
            decreases i,
        {
            i -= 1;
            let t = &self.tasks[i];
            if str_eq(t.source.as_str(), source) && str_eq(t.name.as_str(), name) && (t.status
                == TaskStatus::Running || t.status == TaskStatus::Pending) {
                assert(self.tasks@[i as int].id == t.id);
                return Some(t.id);
            }
        }
        None
    }

    /// The tasks, in creation order.
    pub fn tasks(&self) -> (r: &Vec<BackgroundTask>)
        ensures
            r@ == self.task_list(),
    {
        &self.tasks
    }
}

/// Task ids are unique: creating tasks never reuses an id, since each new
/// id is above every id held.
pub proof fn lemma_task_ids_unique(s: Seq<BackgroundTask>, next: usize)
    requires
        ids_increasing(s, next),
    ensures
        forall|i: int, j: int| 0 <= i < s.len() && 0 <= j < s.len() && i != j ==> (#[trigger] s[i]).id != (#[trigger] s[j]).id,
        forall|i: int| 0 <= i < s.len() ==> (#[trigger] s[i]).id != next,
{
    assert forall|i: int, j: int| 0 <= i < s.len() && 0 <= j < s.len() && i != j implies (#[trigger] s[i]).id != (#[trigger] s[j]).id by {
        if i < j {
            assert(s[i].id < s[j].id);
        } else {
            assert(s[j].id < s[i].id);
        }
    }
}

/// Completing a task leaves at most two hundred completed tasks when there
/// were more.
pub proof fn lemma_prune_leaves_limit(marked: Seq<BackgroundTask>)
    requires
        count_complete(marked) > MAX_COMPLETED_TASKS,
    ensures
        count_complete(prune_completed(marked, (count_complete(marked) - MAX_COMPLETED_TASKS) as nat)) == MAX_COMPLETED_TASKS,
{
    lemma_prune_count(marked, (count_complete(marked) - MAX_COMPLETED_TASKS) as nat);
}

/// The overlay that lists background tasks.
pub struct BackgroundTasksPane {
    pub visible: bool,
    pub selected: usize,
    pub scroll_offset: usize,
}

impl BackgroundTasksPane {
    pub fn new() -> (r: Self)
        ensures
            !r.visible,
            r.selected == 0,
            r.scroll_offset == 0,
    {
        BackgroundTasksPane { visible: false, selected: 0, scroll_offset: 0 }
    }

    /// Shows or hides the overlay.
    pub fn toggle(&mut self)
        ensures
            final(self).visible == !old(self).visible,
            final(self).selected == old(self).selected,
            final(self).scroll_offset == old(self).scroll_offset,
    {
        self.visible = !self.visible;
    }

    /// Scrolls so that the selected row is among the eighteen shown.
    pub fn adjust_scroll(&mut self)
        ensures
            final(self).visible == old(self).visible,
            final(self).selected == old(self).selected,
            final(self).scroll_offset <= final(self).selected,
            final(self).selected < final(self).scroll_offset + TASK_ROWS,
            old(self).scroll_offset <= old(self).selected < old(self).scroll_offset + TASK_ROWS
                ==> final(self).scroll_offset == old(self).scroll_offset,
    {
        let sel = self.selected;
        if sel < self.scroll_offset {
            self.scroll_offset = sel;
        } else if sel - self.scroll_offset >= TASK_ROWS {
            self.scroll_offset = sel - (TASK_ROWS - 1);
        }
    }

    /// Keeps the selection on an existing row of a list of `count` tasks.
    pub fn clamp_selection(&mut self, count: usize)
        ensures
            final(self).selected == (if count == 0 { 0 } else if old(self).selected >= count { (count - 1) as usize } else { old(self).selected }),
            final(self).visible == old(self).visible,
            final(self).scroll_offset == old(self).scroll_offset,
    {
        if count == 0 {
            self.selected = 0;
        } else if self.selected >= count {
            self.selected = count - 1;
        }
    }

    /// A key for the overlay: Esc hides it, Down/`j` and Up/`k` move the
    /// selection; any other key is swallowed. Hidden, it takes no key.
    pub fn handle_key(&mut self, key: KeyEvent) -> (r: Option<Action>)
        ensures
            !old(self).visible ==> r is None && *final(self) == *old(self),
            old(self).visible ==> ({
                let code = key.code;
                if code == KeyCode::Esc {
                    r matches Some(Action::Render) && !final(self).visible && final(self).selected == old(self).selected
                } else if code == KeyCode::Down || code == KeyCode::Char('j') {
                    r matches Some(Action::Render) && final(self).visible
                        && final(self).selected == (if old(self).selected < usize::MAX { old(self).selected + 1 } else { usize::MAX as int })
                        && final(self).scroll_offset <= final(self).selected < final(self).scroll_offset + TASK_ROWS
                } else if code == KeyCode::Up || code == KeyCode::Char('k') {
                    r matches Some(Action::Render) && final(self).visible
                        && final(self).selected == (if old(self).selected > 0 { old(self).selected - 1 } else { 0 })
                        && final(self).scroll_offset <= final(self).selected < final(self).scroll_offset + TASK_ROWS
                } else {
                    r matches Some(Action::NoOp) && *final(self) == *old(self)
                }
            }),
    {
        if !self.visible {
            return None;
        }
        match key.code {
            KeyCode::Esc => {
                self.visible = false;
                Some(Action::Render)
            },
            KeyCode::Down | KeyCode::Char('j') => {
                self.selected = self.selected.saturating_add(1);
                self.adjust_scroll();
                Some(Action::Render)
            },
            KeyCode::Up | KeyCode::Char('k') => {
                self.selected = self.selected.saturating_sub(1);
                self.adjust_scroll();
                Some(Action::Render)
            },
            _ => Some(Action::NoOp),
        }
    }
}

} // verus!
