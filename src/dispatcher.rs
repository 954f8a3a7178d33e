//! How the dispatcher reacts to each message a worker sends it.

use vstd::prelude::*;

use crate::protocol::Message;
use crate::scheduler::{completed_one, has_id, heartbeat_recorded, Scheduler};
use crate::state::{DispatcherState, DispatcherStateView};

verus! {

/// What handling one message did, for the caller to report.
#[derive(Debug, Clone, Copy, PartialEq, Eq, Structural)]
pub enum DispatcherEvent {
    /// A worker was added to the registry.
    WorkerRegistered,
    /// A result was stored and the reporting worker's load lowered.
    ResultStored,
    /// A progress report was received; nothing changes.
    ProgressReported,
    /// A known worker's heartbeat time was set.
    HeartbeatRecorded,
    /// A heartbeat named no registered worker and was ignored.
    HeartbeatFromUnknown,
    /// The message is one the dispatcher never expects; it was ignored.
    Unexpected,
}

/// Applies one message from a worker, received at `now`, to the registry and
/// the result store.
///
/// An announcement registers the worker. A completion stores its result and
/// takes one job off the worker it names, if that worker is known. A
/// heartbeat sets the named worker's last heartbeat to `now`, if that worker
/// is known. Progress reports change nothing, and assignments, cancellations
/// and acknowledgements are not meant for the dispatcher.
pub fn handle_dispatcher_message(
    msg: Message,
    scheduler: &mut Scheduler,
    state: &mut DispatcherState,
    now: i64,
) -> (r: DispatcherEvent)
    requires
        old(state).wf(),
    ensures
        final(state).wf(),
        final(scheduler)@.queue == old(scheduler)@.queue,
        match msg {
            Message::WorkerAnnounce(w) => {
                &&& r == DispatcherEvent::WorkerRegistered
                &&& final(scheduler)@.workers == old(scheduler)@.workers.push(w@)
                &&& final(state)@ == old(state)@
            },
            Message::TaskCompleted(res) => {
                &&& r == DispatcherEvent::ResultStored
                &&& final(state)@ == (DispatcherStateView {
                    results: old(state)@.results.insert(res@.task_id, res@),
                    ..old(state)@
                })
                &&& final(scheduler)@.workers == completed_one(
                    old(scheduler)@.workers,
                    res@.worker_id,
                )
            },
            Message::Heartbeat { worker_id, timestamp: _ } => {
                &&& r == if has_id(old(scheduler)@.workers, worker_id@) {
                    DispatcherEvent::HeartbeatRecorded
                } else {
                    DispatcherEvent::HeartbeatFromUnknown
                }
                &&& final(scheduler)@.workers == heartbeat_recorded(
                    old(scheduler)@.workers,
                    worker_id@,
                    now,
                )
                &&& final(state)@ == old(state)@
            },
            Message::TaskProgress { .. } => {
                &&& r == DispatcherEvent::ProgressReported
                &&& final(scheduler)@ == old(scheduler)@
                &&& final(state)@ == old(state)@
            },
            _ => {
                &&& r == DispatcherEvent::Unexpected
                &&& final(scheduler)@ == old(scheduler)@
                &&& final(state)@ == old(state)@
            },
        },
{
    match msg {
        Message::WorkerAnnounce(w) => {
            scheduler.register_worker(w);
            DispatcherEvent::WorkerRegistered
        },
        Message::TaskCompleted(res) => {
            let worker_id = res.worker_id.clone();
            state.store_result(res);
            scheduler.worker_job_completed(worker_id.as_str());
            DispatcherEvent::ResultStored
        },
        Message::Heartbeat { worker_id, timestamp: _ } => {
            if scheduler.record_heartbeat(worker_id.as_str(), now) {
                DispatcherEvent::HeartbeatRecorded
            } else {
                DispatcherEvent::HeartbeatFromUnknown
            }
        },
        Message::TaskProgress { .. } => DispatcherEvent::ProgressReported,
        _ => DispatcherEvent::Unexpected,
    }
}

} // verus!
