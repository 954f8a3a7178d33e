//! What the dispatcher and a worker each keep about finished work.

use vstd::prelude::*;

use crate::ids::fresh_id;
use crate::protocol::{Task, TaskResult, TaskResultView, TaskView};
use crate::scheduler::task_views;
use crate::text::str_eq;

verus! {

/// The views of a sequence of results.
pub open spec fn result_views(s: Seq<TaskResult>) -> Seq<TaskResultView> {
    s.map_values(|r: TaskResult| r@)
}

/// No two entries of `s` are for the same task.
pub open spec fn distinct_task_ids(s: Seq<TaskResultView>) -> bool {
    forall|i: int, j: int|
        0 <= i < s.len() && 0 <= j < s.len() && i != j ==> #[trigger] s[i].task_id
            != #[trigger] s[j].task_id
}

/// The results of `s` keyed by task id; a later entry for an id wins.
pub open spec fn results_map(s: Seq<TaskResultView>) -> Map<Seq<char>, TaskResultView>
    decreases s.len(),
{
    if s.len() == 0 {
        Map::empty()
    } else {
        results_map(s.drop_last()).insert(s.last().task_id, s.last())
    }
}

proof fn lemma_results_map_absent(s: Seq<TaskResultView>, k: Seq<char>)
    requires
        forall|i: int| 0 <= i < s.len() ==> (#[trigger] s[i]).task_id != k,
    ensures
        !results_map(s).contains_key(k),
    decreases s.len(),
{
    if s.len() > 0 {
        lemma_results_map_absent(s.drop_last(), k);
    }
}

proof fn lemma_results_map_lookup(s: Seq<TaskResultView>, i: int)
    requires
        distinct_task_ids(s),
        0 <= i < s.len(),
    ensures
        results_map(s).contains_key(s[i].task_id),
        results_map(s)[s[i].task_id] == s[i],
    decreases s.len(),
{
    if i < s.len() - 1 {
        let pre = s.drop_last();
        assert(s[i].task_id != s[s.len() - 1].task_id);
        assert(distinct_task_ids(pre)) by {
            assert forall|a: int, b: int|
                0 <= a < pre.len() && 0 <= b < pre.len() && a != b implies #[trigger] pre[a].task_id
                != #[trigger] pre[b].task_id by {
                assert(pre[a] == s[a] && pre[b] == s[b]);
            }
        }
        lemma_results_map_lookup(pre, i);
    }
}

proof fn lemma_results_map_len(s: Seq<TaskResultView>)
    requires
        distinct_task_ids(s),
    ensures
        results_map(s).dom().finite(),
        results_map(s).dom().len() == s.len(),
    decreases s.len(),
{
    if s.len() > 0 {
        let pre = s.drop_last();
        assert(distinct_task_ids(pre)) by {
            assert forall|a: int, b: int|
                0 <= a < pre.len() && 0 <= b < pre.len() && a != b implies #[trigger] pre[a].task_id
                != #[trigger] pre[b].task_id by {
                assert(pre[a] == s[a] && pre[b] == s[b]);
            }
        }
        lemma_results_map_len(pre);
        assert forall|i: int| 0 <= i < pre.len() implies (#[trigger] pre[i]).task_id
            != s.last().task_id by {
            assert(pre[i] == s[i]);
        }
        lemma_results_map_absent(pre, s.last().task_id);
    }
}

proof fn lemma_results_map_update(s: Seq<TaskResultView>, i: int, r: TaskResultView)
    requires
        distinct_task_ids(s),
        0 <= i < s.len(),
        r.task_id == s[i].task_id,
    ensures
        distinct_task_ids(s.update(i, r)),
        results_map(s.update(i, r)) == results_map(s).insert(r.task_id, r),
{
    let t = s.update(i, r);
    assert(distinct_task_ids(t)) by {
        assert forall|a: int, b: int|
            0 <= a < t.len() && 0 <= b < t.len() && a != b implies #[trigger] t[a].task_id
            != #[trigger] t[b].task_id by {
            assert(t[a].task_id == s[a].task_id);
            assert(t[b].task_id == s[b].task_id);
        }
    }
    let lhs = results_map(t);
    let rhs = results_map(s).insert(r.task_id, r);
    assert forall|k: Seq<char>| #[trigger] lhs.contains_key(k) == rhs.contains_key(k) && (
    lhs.contains_key(k) ==> lhs[k] == rhs[k]) by {
        if k == r.task_id {
            lemma_results_map_lookup(t, i);
        } else if exists|j: int| 0 <= j < s.len() && (#[trigger] s[j]).task_id == k {
            let j = choose|j: int| 0 <= j < s.len() && (#[trigger] s[j]).task_id == k;
            lemma_results_map_lookup(t, j);
            lemma_results_map_lookup(s, j);
        } else {
            lemma_results_map_absent(s, k);
            assert forall|j: int| 0 <= j < t.len() implies (#[trigger] t[j]).task_id != k by {
                if j != i {
                    assert(t[j] == s[j]);
                }
            }
            lemma_results_map_absent(t, k);
        }
    }
    assert(lhs =~= rhs);
}

/// The dispatcher's identity and its record of finished work: the latest
/// result reported for each task, and the tasks marked completed.
pub struct DispatcherState {
    id: String,
    name: String,
    port: u16,
    task_results: Vec<TaskResult>,
    completed_tasks: Vec<Task>,
}

/// What a [`DispatcherState`] holds.
pub struct DispatcherStateView {
    pub id: Seq<char>,
    pub name: Seq<char>,
    pub port: u16,
    pub results: Map<Seq<char>, TaskResultView>,
    pub completed: Seq<TaskView>,
}

impl View for DispatcherState {
    type V = DispatcherStateView;

    closed spec fn view(&self) -> DispatcherStateView {
        DispatcherStateView {
            id: self.id@,
            name: self.name@,
            port: self.port,
            results: results_map(result_views(self.task_results@)),
            completed: task_views(self.completed_tasks@),
        }
    }
}

impl DispatcherState {
    /// At most one stored result per task id.
    pub closed spec fn wf(&self) -> bool {
        distinct_task_ids(result_views(self.task_results@))
    }

    /// A dispatcher called `name` on `port`, with a fresh id and no results.
    pub fn new(name: String, port: u16) -> (r: DispatcherState)
        ensures
            r.wf(),
            r@.name == name@,
            r@.port == port,
            r@.results == Map::<Seq<char>, TaskResultView>::empty(),
            r@.completed.len() == 0,
    {
        let r = DispatcherState {
            id: fresh_id(),
            name,
            port,
            task_results: Vec::new(),
            completed_tasks: Vec::new(),
        };
        assert(result_views(r.task_results@) =~= Seq::<TaskResultView>::empty());
        r
    }

    /// The dispatcher's id.
    pub fn id(&self) -> (r: &String)
        ensures
            r@ == self@.id,
    {
        &self.id
    }

    /// The dispatcher's name.
    pub fn name(&self) -> (r: &String)
        ensures
            r@ == self@.name,
    {
        &self.name
    }

    /// The port the dispatcher listens on.
    pub fn port(&self) -> (r: u16)
        ensures
            r == self@.port,
    {
        self.port
    }

    /// The position of the result stored for `task_id`, if any.
    fn position_of(&self, task_id: &str) -> (r: Option<usize>)
        ensures
            match r {
                Some(i) => i < self.task_results@.len() && self.task_results@[i as int]@.task_id
                    == task_id@,
                None => forall|i: int|
                    0 <= i < self.task_results@.len() ==> (#[trigger] self.task_results@[i])@.task_id
                        != task_id@,
            },
    {
        let mut i: usize = 0;
        while i < self.task_results.len()
            invariant
                i <= self.task_results@.len(),
                forall|j: int|
                    0 <= j < i ==> (#[trigger] self.task_results@[j])@.task_id != task_id@,
            decreases self.task_results@.len() - i,
        {
            if str_eq(self.task_results[i].task_id.as_str(), task_id) {
                return Some(i);
            }
            i = i + 1;
        }
        None
    }

    /// Records `result` under its task id, replacing any earlier result for
    /// the same task.
    pub fn store_result(&mut self, result: TaskResult)
        requires
            old(self).wf(),
        ensures
            final(self).wf(),
            final(self)@.results == old(self)@.results.insert(result@.task_id, result@),
            final(self)@.completed == old(self)@.completed,
            final(self)@.id == old(self)@.id,
            final(self)@.name == old(self)@.name,
            final(self)@.port == old(self)@.port,
    {
        let ghost rv = result@;
        let ghost before = result_views(self.task_results@);
        match self.position_of(result.task_id.as_str()) {
            Some(i) => {
                proof {
                    lemma_results_map_update(before, i as int, rv);
                }
                self.task_results.set(i, result);
                assert(result_views(self.task_results@) =~= before.update(i as int, rv));
            },
            None => {
                self.task_results.push(result);
                assert(result_views(self.task_results@) =~= before.push(rv));
                assert(before.push(rv).drop_last() =~= before);
                assert(distinct_task_ids(before.push(rv))) by {
                    let t = before.push(rv);
                    assert forall|a: int, b: int|
                        0 <= a < t.len() && 0 <= b < t.len() && a != b implies #[trigger] t[a].task_id
                        != #[trigger] t[b].task_id by {
                        if a < before.len() && b < before.len() {
                            assert(t[a] == before[a] && t[b] == before[b]);
                        } else if a < before.len() {
                            assert(t[a] == before[a]);
                            assert(before[a] == self.task_results@[a]@);
                        } else {
                            assert(t[b] == before[b]);
                            assert(before[b] == self.task_results@[b]@);
                        }
                    }
                }
            },
        }
    }

    /// A copy of the result stored for `task_id`, if any.
    pub fn get_result(&self, task_id: &str) -> (r: Option<TaskResult>)
        requires
            self.wf(),
        ensures
            r is Some == self@.results.contains_key(task_id@),
            r matches Some(x) ==> x@ == self@.results[task_id@],
    {
        let ghost s = result_views(self.task_results@);
        match self.position_of(task_id) {
            Some(i) => {
                proof {
                    lemma_results_map_lookup(s, i as int);
                }
                Some(self.task_results[i].clone())
            },
            None => {
                proof {
                    assert forall|j: int| 0 <= j < s.len() implies (#[trigger] s[j]).task_id
                        != task_id@ by {
                        assert(s[j] == self.task_results@[j]@);
                    }
                    lemma_results_map_absent(s, task_id@);
                }
                None
            },
        }
    }

    /// Records `task` as completed.
    pub fn add_completed_task(&mut self, task: Task)
        requires
            old(self).wf(),
        ensures
            final(self).wf(),
            final(self)@.completed == old(self)@.completed.push(task@),
            final(self)@.results == old(self)@.results,
            final(self)@.id == old(self)@.id,
            final(self)@.name == old(self)@.name,
            final(self)@.port == old(self)@.port,
    {
        self.completed_tasks.push(task);
        assert(task_views(self.completed_tasks@) =~= old(self)@.completed.push(task@));
    }

    /// Copies of the tasks recorded as completed, in the order recorded.
    pub fn get_completed_tasks(&self) -> (r: Vec<Task>)
        ensures
            task_views(r@) == self@.completed,
    {
        let r = self.completed_tasks.clone();
        assert(task_views(r@) =~= task_views(self.completed_tasks@));
        r
    }

    /// The number of tasks that have a stored result.
    pub fn get_history_count(&self) -> (r: usize)
        requires
            self.wf(),
        ensures
            r == self@.results.len(),
    {
        proof {
            lemma_results_map_len(result_views(self.task_results@));
        }
        self.task_results.len()
    }
}

/// A worker's identity, the task it is running, if any, and the results it
/// has produced.
pub struct WorkerState {
    id: String,
    name: String,
    port: u16,
    current_task: Option<Task>,
    completed_tasks: Vec<TaskResult>,
}

/// What a [`WorkerState`] holds.
pub struct WorkerStateView {
    pub id: Seq<char>,
    pub name: Seq<char>,
    pub port: u16,
    pub current_task: Option<TaskView>,
    pub completed: Seq<TaskResultView>,
}

/// The view of an optional task.
pub open spec fn task_option_view(t: Option<Task>) -> Option<TaskView> {
    match t {
        Some(t) => Some(t@),
        None => None,
    }
}

impl View for WorkerState {
    type V = WorkerStateView;

    closed spec fn view(&self) -> WorkerStateView {
        WorkerStateView {
            id: self.id@,
            name: self.name@,
            port: self.port,
            current_task: task_option_view(self.current_task),
            completed: result_views(self.completed_tasks@),
        }
    }
}

impl WorkerState {
    /// A worker called `name` on `port`, with a fresh id, running nothing.
    pub fn new(name: String, port: u16) -> (r: WorkerState)
        ensures
            r@.name == name@,
            r@.port == port,
            r@.current_task is None,
            r@.completed.len() == 0,
    {
        let r = WorkerState {
            id: fresh_id(),
            name,
            port,
            current_task: None,
            completed_tasks: Vec::new(),
        };
        assert(result_views(r.completed_tasks@) =~= Seq::<TaskResultView>::empty());
        r
    }

    /// The worker's id.
    pub fn id(&self) -> (r: &String)
        ensures
            r@ == self@.id,
    {
        &self.id
    }

    /// The worker's name.
    pub fn name(&self) -> (r: &String)
        ensures
            r@ == self@.name,
    {
        &self.name
    }

    /// The port the worker listens on.
    pub fn port(&self) -> (r: u16)
        ensures
            r == self@.port,
    {
        self.port
    }

    /// Fills or clears the current-task slot.
    pub fn set_current_task(&mut self, task: Option<Task>)
        ensures
            final(self)@ == (WorkerStateView { current_task: task_option_view(task), ..old(self)@ }),
    {
        self.current_task = task;
    }

    /// A copy of the task being run, if any.
    pub fn get_current_task(&self) -> (r: Option<Task>)
        ensures
            task_option_view(r) == self@.current_task,
    {
        match &self.current_task {
            Some(t) => Some(t.clone()),
            None => None,
        }
    }

    /// Records a result the worker produced.
    pub fn add_completed_task(&mut self, result: TaskResult)
        ensures
            final(self)@ == (WorkerStateView {
                completed: old(self)@.completed.push(result@),
                ..old(self)@
            }),
    {
        self.completed_tasks.push(result);
        assert(result_views(self.completed_tasks@) =~= old(self)@.completed.push(result@));
    }

    /// How many results the worker has recorded.
    pub fn get_completed_count(&self) -> (r: usize)
        ensures
            r == self@.completed.len(),
    {
        self.completed_tasks.len()
    }

    /// Copies of the recorded results, oldest first.
    pub fn get_completed_tasks(&self) -> (r: Vec<TaskResult>)
        ensures
            result_views(r@) == self@.completed,
    {
        let r = self.completed_tasks.clone();
        assert(result_views(r@) =~= result_views(self.completed_tasks@));
        r
    }
}

} // verus!
