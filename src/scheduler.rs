//! The dispatcher's task queue and worker registry, and the step that matches
//! one queued task with one idle worker.

use std::collections::VecDeque;
use vstd::prelude::*;

use crate::clock::{unix_now, TIMESTAMP_BOUND};
use crate::protocol::{Task, TaskView, WorkerInfo, WorkerInfoView};
use crate::text::str_eq;

verus! {

/// The views of a sequence of tasks.
pub open spec fn task_views(q: Seq<Task>) -> Seq<TaskView> {
    q.map_values(|t: Task| t@)
}

/// The views of a sequence of workers.
pub open spec fn worker_views(ws: Seq<WorkerInfo>) -> Seq<WorkerInfoView> {
    ws.map_values(|w: WorkerInfo| w@)
}

/// No worker runs more jobs than it accepts.
pub open spec fn all_within_capacity(ws: Seq<WorkerInfoView>) -> bool {
    forall|i: int| 0 <= i < ws.len() ==> #[trigger] ws[i].current_jobs <= ws[i].max_jobs
}

/// Some worker has room for another job.
pub open spec fn has_idle(ws: Seq<WorkerInfoView>) -> bool {
    exists|i: int| 0 <= i < ws.len() && #[trigger] ws[i].is_idle()
}

/// `i` is the first position that holds an idle worker.
pub open spec fn is_first_idle(ws: Seq<WorkerInfoView>, i: int) -> bool {
    &&& 0 <= i < ws.len()
    &&& ws[i].is_idle()
    &&& forall|j: int| 0 <= j < i ==> !(#[trigger] ws[j].is_idle())
}

/// Some worker carries `id`.
pub open spec fn has_id(ws: Seq<WorkerInfoView>, id: Seq<char>) -> bool {
    exists|i: int| 0 <= i < ws.len() && #[trigger] ws[i].id == id
}

/// `i` is the first position that holds a worker with `id`.
pub open spec fn is_first_with_id(ws: Seq<WorkerInfoView>, id: Seq<char>, i: int) -> bool {
    &&& 0 <= i < ws.len()
    &&& ws[i].id == id
    &&& forall|j: int| 0 <= j < i ==> (#[trigger] ws[j].id) != id
}

/// The position of the first worker with `id`, where there is one.
pub open spec fn index_of(ws: Seq<WorkerInfoView>, id: Seq<char>) -> int {
    choose|i: int| is_first_with_id(ws, id, i)
}

/// The registry after the first entry with `id` is replaced by `w`; unchanged
/// when no entry has that id.
pub open spec fn replaced(ws: Seq<WorkerInfoView>, id: Seq<char>, w: WorkerInfoView) -> Seq<
    WorkerInfoView,
> {
    if has_id(ws, id) {
        ws.update(index_of(ws, id), w)
    } else {
        ws
    }
}

/// A worker's load after one of its jobs completes: one less, but not below zero.
pub open spec fn after_completion(jobs: usize) -> usize {
    if jobs > 0 {
        (jobs - 1) as usize
    } else {
        0
    }
}

/// The registry after the first worker with `id` reports a completed job;
/// unchanged when no entry has that id.
pub open spec fn completed_one(ws: Seq<WorkerInfoView>, id: Seq<char>) -> Seq<WorkerInfoView> {
    if has_id(ws, id) {
        let i = index_of(ws, id);
        ws.update(i, ws[i].with_jobs(after_completion(ws[i].current_jobs)))
    } else {
        ws
    }
}

/// The registry after the first worker with `id` is marked as heard from at
/// `now`; unchanged when no entry has that id.
pub open spec fn heartbeat_recorded(ws: Seq<WorkerInfoView>, id: Seq<char>, now: i64) -> Seq<
    WorkerInfoView,
> {
    if has_id(ws, id) {
        let i = index_of(ws, id);
        ws.update(i, ws[i].with_heartbeat(now))
    } else {
        ws
    }
}

/// The entries of `ws` for which `keep` holds, in their order.
pub open spec fn kept(ws: Seq<WorkerInfoView>, keep: spec_fn(WorkerInfoView) -> bool) -> Seq<
    WorkerInfoView,
>
    decreases ws.len(),
{
    if ws.len() == 0 {
        ws
    } else {
        let rest = kept(ws.drop_last(), keep);
        if keep(ws.last()) {
            rest.push(ws.last())
        } else {
            rest
        }
    }
}

/// A worker last heard from less than `timeout` seconds before `now`.
pub open spec fn is_live(w: WorkerInfoView, now: i64, timeout: i64) -> bool {
    now - w.last_heartbeat < timeout
}

/// The registry after every worker not heard from for `timeout` seconds or
/// more at `now` is removed.
pub open spec fn reaped(ws: Seq<WorkerInfoView>, now: i64, timeout: i64) -> Seq<WorkerInfoView> {
    kept(ws, |w: WorkerInfoView| is_live(w, now, timeout))
}

/// The idle entries of the registry, in their order.
pub open spec fn idle_workers(ws: Seq<WorkerInfoView>) -> Seq<WorkerInfoView> {
    kept(ws, |w: WorkerInfoView| w.is_idle())
}

/// At most one position is the first with a given id.
pub proof fn lemma_first_with_id_unique(ws: Seq<WorkerInfoView>, id: Seq<char>, i: int, j: int)
    requires
        is_first_with_id(ws, id, i),
        is_first_with_id(ws, id, j),
    ensures
        i == j,
{
    if i < j {
        assert(ws[i].id == id);
    } else if j < i {
        assert(ws[j].id == id);
    }
}

/// The dispatcher's pending tasks, in arrival order, and its known workers.
pub struct Scheduler {
    queue: VecDeque<Task>,
    workers: Vec<WorkerInfo>,
}

/// What a [`Scheduler`] holds: the queue from head to tail, and the registry
/// in iteration order.
pub struct SchedulerView {
    pub queue: Seq<TaskView>,
    pub workers: Seq<WorkerInfoView>,
}

impl View for Scheduler {
    type V = SchedulerView;

    closed spec fn view(&self) -> SchedulerView {
        SchedulerView { queue: task_views(self.queue@), workers: worker_views(self.workers@) }
    }
}

impl Scheduler {
    /// A scheduler with no tasks and no workers.
    pub fn new() -> (r: Scheduler)
        ensures
            r@.queue.len() == 0,
            r@.workers.len() == 0,
    {
        let r = Scheduler { queue: VecDeque::new(), workers: Vec::new() };
        assert(r@.queue =~= Seq::<TaskView>::empty());
        assert(r@.workers =~= Seq::<WorkerInfoView>::empty());
        r
    }

    /// Appends `task` at the tail of the queue.
    pub fn enqueue(&mut self, task: Task)
        ensures
            final(self)@.queue == old(self)@.queue.push(task@),
            final(self)@.workers == old(self)@.workers,
    {
        self.queue.push_back(task);
        assert(self@.queue =~= old(self)@.queue.push(task@));
    }

    /// Removes and returns the task at the head of the queue; `None`, and
    /// nothing changed, when the queue is empty.
    pub fn dequeue(&mut self) -> (r: Option<Task>)
        ensures
            old(self)@.queue.len() == 0 ==> r is None && final(self)@ == old(self)@,
            old(self)@.queue.len() > 0 ==> {
                &&& r is Some
                &&& r->0@ == old(self)@.queue[0]
                &&& final(self)@.queue == old(self)@.queue.drop_first()
            },
            final(self)@.workers == old(self)@.workers,
    {
        let r = self.queue.pop_front();
        assert(self@.queue =~= old(self)@.queue.drop_first() || old(self)@.queue.len() == 0);
        r
    }

    /// The number of tasks waiting.
    pub fn queue_size(&self) -> (r: usize)
        ensures
            r == self@.queue.len(),
    {
        self.queue.len()
    }

    /// Adds `worker` at the end of the registry. A worker that announces twice
    /// is held twice, under its two ids.
    pub fn register_worker(&mut self, worker: WorkerInfo)
        ensures
            final(self)@.workers == old(self)@.workers.push(worker@),
            final(self)@.queue == old(self)@.queue,
    {
        self.workers.push(worker);
        assert(self@.workers =~= old(self)@.workers.push(worker@));
    }

    /// The position of the first worker with `worker_id`, if any.
    fn position_of(&self, worker_id: &str) -> (r: Option<usize>)
        ensures
            match r {
                Some(i) => is_first_with_id(self@.workers, worker_id@, i as int),
                None => !has_id(self@.workers, worker_id@),
            },
    {
        let mut i: usize = 0;
        while i < self.workers.len()
            invariant
                i <= self.workers@.len(),
                forall|j: int| 0 <= j < i ==> self@.workers[j].id != worker_id@,
            decreases self.workers@.len() - i,
        {
            if str_eq(self.workers[i].id.as_str(), worker_id) {
                return Some(i);
            }
            i = i + 1;
        }
        None
    }

    /// Replaces the first worker whose id is `worker_id` with `worker`; does
    /// nothing when no worker has that id.
    pub fn update_worker(&mut self, worker_id: &str, worker: WorkerInfo)
        ensures
            final(self)@.workers == replaced(old(self)@.workers, worker_id@, worker@),
            final(self)@.queue == old(self)@.queue,
    {
        match self.position_of(worker_id) {
            Some(i) => {
                proof {
                    lemma_first_with_id_unique(self@.workers, worker_id@, i as int, index_of(self@.workers, worker_id@));
                }
                self.workers.set(i, worker);
                assert(self@.workers =~= old(self)@.workers.update(i as int, worker@));
            },
            None => {},
        }
    }

    /// Takes one job off the first worker whose id is `worker_id`, never going
    /// below zero; does nothing when no worker has that id.
    pub fn worker_job_completed(&mut self, worker_id: &str)
        ensures
            final(self)@.workers == completed_one(old(self)@.workers, worker_id@),
            final(self)@.queue == old(self)@.queue,
    {
        match self.position_of(worker_id) {
            Some(i) => {
                proof {
                    lemma_first_with_id_unique(self@.workers, worker_id@, i as int, index_of(self@.workers, worker_id@));
                }
                let jobs = self.workers[i].current_jobs;
                let jobs = if jobs > 0 { jobs - 1 } else { 0 };
                self.workers[i].current_jobs = jobs;
                assert(self@.workers =~= old(self)@.workers.update(
                    i as int,
                    old(self)@.workers[i as int].with_jobs(jobs),
                ));
            },
            None => {},
        }
    }

    /// Marks the first worker with `worker_id` as heard from at `now`, and
    /// says whether there was one.
    pub fn record_heartbeat(&mut self, worker_id: &str, now: i64) -> (r: bool)
        ensures
            r == has_id(old(self)@.workers, worker_id@),
            final(self)@.workers == heartbeat_recorded(old(self)@.workers, worker_id@, now),
            final(self)@.queue == old(self)@.queue,
    {
        match self.position_of(worker_id) {
            Some(i) => {
                proof {
                    lemma_first_with_id_unique(self@.workers, worker_id@, i as int, index_of(self@.workers, worker_id@));
                }
                self.workers[i].last_heartbeat = now;
                assert(self@.workers =~= old(self)@.workers.update(
                    i as int,
                    old(self)@.workers[i as int].with_heartbeat(now),
                ));
                true
            },
            None => false,
        }
    }

    /// The position of the first idle worker, if any.
    fn first_idle(&self) -> (r: Option<usize>)
        ensures
            match r {
                Some(i) => is_first_idle(self@.workers, i as int),
                None => !has_idle(self@.workers),
            },
    {
        let mut i: usize = 0;
        while i < self.workers.len()
            invariant
                i <= self.workers@.len(),
                forall|j: int| 0 <= j < i ==> !(#[trigger] self@.workers[j].is_idle()),
            decreases self.workers@.len() - i,
        {
            if self.workers[i].is_idle() {
                return Some(i);
            }
            i = i + 1;
        }
        None
    }

    /// A copy of the first idle worker in iteration order; `None` when every
    /// worker is at capacity or there is none.
    pub fn get_idle_worker(&self) -> (r: Option<WorkerInfo>)
        ensures
            match r {
                Some(w) => exists|i: int| is_first_idle(self@.workers, i) && w@ == self@.workers[i],
                None => !has_idle(self@.workers),
            },
    {
        match self.first_idle() {
            Some(i) => Some(self.workers[i].clone()),
            None => None,
        }
    }

    /// Copies of the entries of `ws[..n]` that `keep` selects, in order.
    fn copy_kept(
        ws: &Vec<WorkerInfo>,
        Ghost(keep): Ghost<spec_fn(WorkerInfoView) -> bool>,
        n: usize,
        flags: &Vec<bool>,
    ) -> (r: Vec<WorkerInfo>)
        requires
            n == ws@.len(),
            flags@.len() == n,
            forall|i: int| 0 <= i < n ==> flags@[i] == keep(#[trigger] ws@[i]@),
        ensures
            worker_views(r@) == kept(worker_views(ws@), keep),
    {
        let mut r: Vec<WorkerInfo> = Vec::new();
        let mut i: usize = 0;
        while i < n
            invariant
                n == ws@.len(),
                flags@.len() == n,
                forall|k: int| 0 <= k < n ==> flags@[k] == keep(#[trigger] ws@[k]@),
                i <= n,
                worker_views(r@) == kept(worker_views(ws@).take(i as int), keep),
            decreases n - i,
        {
            let ghost before = worker_views(r@);
            assert(worker_views(ws@).take(i + 1).drop_last() =~= worker_views(ws@).take(i as int));
            if flags[i] {
                r.push(ws[i].clone());
                assert(worker_views(r@) =~= before.push(ws@[i as int]@));
            }
            i = i + 1;
        }
        assert(worker_views(ws@).take(n as int) =~= worker_views(ws@));
        r
    }

    /// Copies of every idle worker, in iteration order.
    pub fn get_idle_workers(&self) -> (r: Vec<WorkerInfo>)
        ensures
            worker_views(r@) == idle_workers(self@.workers),
    {
        let n = self.workers.len();
        let mut flags: Vec<bool> = Vec::new();
        let mut i: usize = 0;
        while i < n
            invariant
                n == self.workers@.len(),
                i <= n,
                flags@.len() == i,
                forall|k: int| 0 <= k < i ==> flags@[k] == (#[trigger] self.workers@[k]@).is_idle(),
            decreases n - i,
        {
            flags.push(self.workers[i].is_idle());
            i = i + 1;
        }
        Self::copy_kept(&self.workers, Ghost(|w: WorkerInfoView| w.is_idle()), n, &flags)
    }

    /// Copies of every worker, in iteration order.
    pub fn get_workers(&self) -> (r: Vec<WorkerInfo>)
        ensures
            worker_views(r@) == self@.workers,
    {
        let r = self.workers.clone();
        assert(worker_views(r@) =~= worker_views(self.workers@));
        r
    }

    /// Removes every worker whose last heartbeat lies `timeout_secs` seconds
    /// or more before `now`.
    pub fn reap(&mut self, now: i64, timeout_secs: i64)
        ensures
            final(self)@.workers == reaped(old(self)@.workers, now, timeout_secs),
            final(self)@.queue == old(self)@.queue,
    {
        let n = self.workers.len();
        let mut flags: Vec<bool> = Vec::new();
        let mut i: usize = 0;
        while i < n
            invariant
                n == self.workers@.len(),
                i <= n,
                flags@.len() == i,
                forall|k: int| 0 <= k < i ==> flags@[k] == is_live(#[trigger] self.workers@[k]@, now, timeout_secs),
            decreases n - i,
        {
            let age = now as i128 - self.workers[i].last_heartbeat as i128;
            flags.push(age < timeout_secs as i128);
            i = i + 1;
        }
        let live = Self::copy_kept(
            &self.workers,
            Ghost(|w: WorkerInfoView| is_live(w, now, timeout_secs)),
            n,
            &flags,
        );
        self.workers = live;
    }

    /// Removes every worker not heard from for `heartbeat_timeout_secs`
    /// seconds or more, measured against the clock at the time of the call.
    pub fn cleanup_offline_workers(&mut self, heartbeat_timeout_secs: i64)
        ensures
            exists|now: i64|
                0 <= now < TIMESTAMP_BOUND
                && final(self)@.workers == reaped(old(self)@.workers, now, heartbeat_timeout_secs),
            final(self)@.queue == old(self)@.queue,
    {
        let now = unix_now();
        self.reap(now, heartbeat_timeout_secs);
    }

    /// One scheduling step. Takes the head of the queue; if some worker is
    /// idle, adds one job to the first idle worker and returns the task with a
    /// copy of that worker as updated. If no worker is idle the task goes back
    /// to the tail of the queue and `None` is returned; with an empty queue
    /// nothing changes.
    pub fn schedule_next_task(&mut self) -> (r: Option<(Task, WorkerInfo)>)
        ensures
            old(self)@.queue.len() == 0 ==> r is None && final(self)@ == old(self)@,
            old(self)@.queue.len() > 0 && !has_idle(old(self)@.workers) ==> {
                &&& r is None
                &&& final(self)@.queue == old(self)@.queue.drop_first().push(old(self)@.queue[0])
                &&& final(self)@.workers == old(self)@.workers
            },
            old(self)@.queue.len() > 0 && has_idle(old(self)@.workers) ==> (r matches Some((t, w))
                && t@ == old(self)@.queue[0]
                && final(self)@.queue == old(self)@.queue.drop_first()
                && exists|i: int|
                #![trigger old(self)@.workers[i]]
                {
                    &&& is_first_idle(old(self)@.workers, i)
                    &&& w@ == old(self)@.workers[i].with_jobs(
                        (old(self)@.workers[i].current_jobs + 1) as usize,
                    )
                    &&& final(self)@.workers == old(self)@.workers.update(i, w@)
                }),
            r matches Some((t, w)) ==> w@.current_jobs <= w@.max_jobs,
            all_within_capacity(old(self)@.workers) ==> all_within_capacity(final(self)@.workers),
    {
        let task = match self.dequeue() {
            Some(t) => t,
            None => {
                return None;
            },
        };
        match self.first_idle() {
            Some(i) => {
                let jobs = self.workers[i].current_jobs + 1;
                self.workers[i].current_jobs = jobs;
                let worker = self.workers[i].clone();
                assert(self@.workers =~= old(self)@.workers.update(i as int, worker@));
                Some((task, worker))
            },
            None => {
                self.enqueue(task);
                None
            },
        }
    }

    /// Undoes a dispatch whose message could not be sent: takes the job back
    /// off the first worker with `worker_id` and puts `task` at the tail of
    /// the queue.
    pub fn dispatch_failed(&mut self, task: Task, worker_id: &str)
        ensures
            final(self)@.workers == completed_one(old(self)@.workers, worker_id@),
            final(self)@.queue == old(self)@.queue.push(task@),
    {
        self.worker_job_completed(worker_id);
        self.enqueue(task);
    }
} // impl Scheduler

impl Default for Scheduler {
    fn default() -> (r: Scheduler)
        ensures
            r@.queue.len() == 0,
            r@.workers.len() == 0,
    {
        Scheduler::new()
    }
}

} // verus!

verus! {

/// The tasks that dequeuing `q` until it is empty hands out, in order.
pub open spec fn drained(q: Seq<TaskView>) -> Seq<TaskView>
    decreases q.len(),
{
    if q.len() == 0 {
        q
    } else {
        seq![q[0]] + drained(q.drop_first())
    }
}

/// The queue `q` after each task of `ts` is enqueued, first to last.
pub open spec fn enqueued(q: Seq<TaskView>, ts: Seq<TaskView>) -> Seq<TaskView>
    decreases ts.len(),
{
    if ts.len() == 0 {
        q
    } else {
        enqueued(q.push(ts[0]), ts.drop_first())
    }
}

proof fn lemma_drained_is_queue(q: Seq<TaskView>)
    ensures
        drained(q) == q,
    decreases q.len(),
{
    if q.len() > 0 {
        lemma_drained_is_queue(q.drop_first());
        assert(seq![q[0]] + q.drop_first() =~= q);
    }
}

proof fn lemma_enqueued_appends(q: Seq<TaskView>, ts: Seq<TaskView>)
    ensures
        enqueued(q, ts) == q + ts,
    decreases ts.len(),
{
    if ts.len() > 0 {
        lemma_enqueued_appends(q.push(ts[0]), ts.drop_first());
        assert(q.push(ts[0]) + ts.drop_first() =~= q + ts);
    }
}

/// First in, first out: tasks enqueued one after another on an empty queue
/// are dequeued in the order they were enqueued.
pub proof fn lemma_queue_is_fifo(ts: Seq<TaskView>)
    ensures
        drained(enqueued(Seq::empty(), ts)) == ts,
{
    lemma_enqueued_appends(Seq::empty(), ts);
    lemma_drained_is_queue(Seq::<TaskView>::empty() + ts);
    assert(Seq::<TaskView>::empty() + ts =~= ts);
}

/// A task taken from the head of the queue for a dispatch whose send failed,
/// and put back at the tail, is handed out again, after every task that was
/// behind it, with exactly the fields it had.
pub proof fn lemma_requeued_task_unchanged(q: Seq<TaskView>)
    requires
        q.len() > 0,
    ensures
        drained(q.drop_first().push(q[0])).len() == q.len(),
        drained(q.drop_first().push(q[0]))[q.len() - 1] == q[0],
        drained(q.drop_first().push(q[0])).take(q.len() - 1) == q.drop_first(),
{
    lemma_drained_is_queue(q.drop_first().push(q[0]));
    assert(q.drop_first().push(q[0]).take(q.len() - 1) =~= q.drop_first());
}

/// Applying a filter twice keeps what applying it once keeps.
pub proof fn lemma_kept_idempotent(ws: Seq<WorkerInfoView>, keep: spec_fn(WorkerInfoView) -> bool)
    ensures
        kept(kept(ws, keep), keep) == kept(ws, keep),
    decreases ws.len(),
{
    if ws.len() > 0 {
        let rest = kept(ws.drop_last(), keep);
        lemma_kept_idempotent(ws.drop_last(), keep);
        if keep(ws.last()) {
            assert(rest.push(ws.last()).drop_last() =~= rest);
        }
    }
}

/// Reaping twice at the same instant with the same threshold leaves the same
/// registry as reaping once.
pub proof fn lemma_reap_idempotent(ws: Seq<WorkerInfoView>, now: i64, timeout: i64)
    ensures
        reaped(reaped(ws, now, timeout), now, timeout) == reaped(ws, now, timeout),
{
    lemma_kept_idempotent(ws, |w: WorkerInfoView| is_live(w, now, timeout));
}

/// How many of `events` are dispatches (`true`) to a worker.
pub open spec fn dispatch_count(events: Seq<bool>) -> nat
    decreases events.len(),
{
    if events.len() == 0 {
        0
    } else {
        dispatch_count(events.drop_last()) + if events.last() {
            1nat
        } else {
            0nat
        }
    }
}

/// How many of `events` are completions (`false`) reported by a worker.
pub open spec fn completion_count(events: Seq<bool>) -> nat
    decreases events.len(),
{
    if events.len() == 0 {
        0
    } else {
        completion_count(events.drop_last()) + if events.last() {
            0nat
        } else {
            1nat
        }
    }
}

/// A worker's load after `events`, starting from `jobs`: a dispatch adds one
/// job (as `schedule_next_task` does), a completion takes one off and stops
/// at zero (as `worker_job_completed` does).
pub open spec fn load_after(jobs: nat, events: Seq<bool>) -> nat
    decreases events.len(),
{
    if events.len() == 0 {
        jobs
    } else {
        let before = load_after(jobs, events.drop_last());
        if events.last() {
            before + 1
        } else {
            after_completion(before as usize) as nat
        }
    }
}

/// No prefix of `events` holds more completions than dispatches: every
/// completion answers an earlier dispatch.
pub open spec fn completions_follow_dispatches(events: Seq<bool>) -> bool {
    forall|k: int|
        0 <= k <= events.len() ==> completion_count(#[trigger] events.take(k)) <= dispatch_count(
            events.take(k),
        )
}

proof fn lemma_load_tracks_counts(jobs: nat, events: Seq<bool>)
    requires
        completions_follow_dispatches(events),
        jobs + dispatch_count(events) <= usize::MAX,
    ensures
        load_after(jobs, events) == jobs + dispatch_count(events) - completion_count(events),
    decreases events.len(),
{
    if events.len() > 0 {
        let pre = events.drop_last();
        assert forall|k: int| 0 <= k <= pre.len() implies completion_count(#[trigger] pre.take(k))
            <= dispatch_count(pre.take(k)) by {
            assert(pre.take(k) =~= events.take(k));
        }
        assert(events.take(events.len() as int) =~= events);
        lemma_load_tracks_counts(jobs, pre);
    }
}

/// After as many completions as dispatches for one worker, each completion
/// answering an earlier dispatch, its load is what it was at the start.
pub proof fn lemma_balanced_events_restore_load(jobs: nat, events: Seq<bool>)
    requires
        completions_follow_dispatches(events),
        dispatch_count(events) == completion_count(events),
        jobs + dispatch_count(events) <= usize::MAX,
    ensures
        load_after(jobs, events) == jobs,
{
    lemma_load_tracks_counts(jobs, events);
}

/// A completion reported by the worker a dispatch went to undoes that
/// dispatch: adding one job to the worker at `i`, as `schedule_next_task`
/// does, and then taking one off the first worker with its id, as
/// `worker_job_completed` does, leaves the registry as it was, provided no
/// earlier entry carries the same id.
pub proof fn lemma_completion_undoes_dispatch(ws: Seq<WorkerInfoView>, i: int)
    requires
        is_first_with_id(ws, ws[i].id, i),
        ws[i].is_idle(),
    ensures
        completed_one(
            ws.update(i, ws[i].with_jobs((ws[i].current_jobs + 1) as usize)),
            ws[i].id,
        ) == ws,
{
    let id = ws[i].id;
    let up = ws.update(i, ws[i].with_jobs((ws[i].current_jobs + 1) as usize));
    assert(is_first_with_id(up, id, i)) by {
        assert forall|j: int| 0 <= j < i implies (#[trigger] up[j].id) != id by {
            assert(up[j] == ws[j]);
        }
    }
    assert(has_id(up, id));
    lemma_first_with_id_unique(up, id, i, index_of(up, id));
    assert(up[i].with_jobs(after_completion(up[i].current_jobs)) == ws[i]);
    assert(up.update(i, ws[i]) =~= ws);
}

/// An empty registry has no idle worker, so `get_idle_worker` returns `None`
/// on it.
pub proof fn lemma_empty_registry_has_no_idle(ws: Seq<WorkerInfoView>)
    requires
        ws.len() == 0,
    ensures
        !has_idle(ws),
{
}

/// A registry whose workers all run as many jobs as they accept has no idle
/// worker, so `get_idle_worker` returns `None` on it.
pub proof fn lemma_full_registry_has_no_idle(ws: Seq<WorkerInfoView>)
    requires
        forall|i: int| 0 <= i < ws.len() ==> #[trigger] ws[i].current_jobs == ws[i].max_jobs,
    ensures
        !has_idle(ws),
{
}

} // verus!
