use octaskly::api::CreateTaskRequest;
use octaskly::auth::{AuthManager, Claims, Role};
use octaskly::cmd::{Cli, Command};
use octaskly::dispatcher::{handle_dispatcher_message, DispatcherEvent};
use octaskly::executor::{ExecutionResult, Executor, ExecutorError};
use octaskly::protocol::{Message, Task, TaskResult, TaskStatus, WorkerInfo};
use octaskly::sandbox::{IsolationLevel, Sandbox};
use octaskly::scheduler::Scheduler;
use octaskly::security::Security;
use octaskly::state::{DispatcherState, WorkerState};
use octaskly::text::{decimal_string, pad_right, str_contains, str_eq, str_starts_with};
use octaskly::transport::{
    decode_frame, encode_frame, frame_payload_len, is_disconnect, port_candidates, FrameParse,
};
use octaskly::tui::Dashboard;
use octaskly::worker::{finish_task, handle_worker_message, WorkerAction};
use std::path::PathBuf;
use std::time::{SystemTime, UNIX_EPOCH};

fn worker(name: &str, max_jobs: usize, current_jobs: usize) -> WorkerInfo {
    let mut w = WorkerInfo::new(
        name.to_string(),
        "127.0.0.1".to_string(),
        7879,
        max_jobs,
        "linux".to_string(),
    );
    w.current_jobs = current_jobs;
    w
}

fn result_for(task_id: &str, worker_id: &str, stdout: &str) -> TaskResult {
    TaskResult {
        task_id: task_id.to_string(),
        worker_id: worker_id.to_string(),
        status: TaskStatus::Completed,
        stdout: stdout.to_string(),
        stderr: String::new(),
        exit_code: Some(0),
        duration_ms: 100,
        completed_at: 1_700_000_000,
    }
}

fn unix_seconds() -> i64 {
    SystemTime::now().duration_since(UNIX_EPOCH).unwrap().as_secs() as i64
}

#[test]
fn dispatch_keeps_every_worker_within_capacity() {
    let mut s = Scheduler::new();
    s.register_worker(worker("full", 1, 1));
    s.register_worker(worker("free", 2, 1));
    s.enqueue(Task::new("echo a".to_string()));
    s.enqueue(Task::new("echo b".to_string()));
    let first = s.schedule_next_task();
    let (_, w) = first.expect("one worker has room");
    assert_eq!(w.name, "free");
    assert_eq!(w.current_jobs, 2);
    assert!(s.get_workers().iter().all(|w| w.current_jobs <= w.max_jobs));
    assert!(s.schedule_next_task().is_none());
    assert!(s.get_workers().iter().all(|w| w.current_jobs <= w.max_jobs));
    assert_eq!(s.queue_size(), 1);
}

#[test]
fn equal_dispatches_and_completions_restore_load() {
    let mut s = Scheduler::new();
    let w = worker("w", 3, 1);
    let id = w.id.clone();
    s.register_worker(w);
    for i in 0..2 {
        s.enqueue(Task::new(format!("echo {}", i)));
        assert!(s.schedule_next_task().is_some());
    }
    assert_eq!(s.get_workers()[0].current_jobs, 3);
    s.worker_job_completed(&id);
    s.worker_job_completed(&id);
    assert_eq!(s.get_workers()[0].current_jobs, 1);
}

#[test]
fn completion_stops_at_zero_and_ignores_unknown_ids() {
    let mut s = Scheduler::new();
    let w = worker("w", 2, 0);
    let id = w.id.clone();
    s.register_worker(w);
    s.worker_job_completed(&id);
    assert_eq!(s.get_workers()[0].current_jobs, 0);
    s.worker_job_completed("no-such-worker");
    assert_eq!(s.get_workers()[0].current_jobs, 0);
}

#[test]
fn fifo_order_of_three_tasks() {
    let mut s = Scheduler::new();
    let tasks: Vec<Task> = (0..3).map(|i| Task::new(format!("echo {}", i))).collect();
    let ids: Vec<String> = tasks.iter().map(|t| t.id.clone()).collect();
    for t in tasks {
        s.enqueue(t);
    }
    for id in ids {
        assert_eq!(s.dequeue().unwrap().id, id);
    }
    assert!(s.dequeue().is_none());
}

#[test]
fn reap_twice_equals_reap_once() {
    let now = 1_000_000;
    let mut s = Scheduler::new();
    let mut stale = worker("stale", 1, 0);
    stale.last_heartbeat = now - 30;
    let mut fresh = worker("fresh", 1, 0);
    fresh.last_heartbeat = now - 29;
    s.register_worker(stale);
    s.register_worker(fresh);
    s.reap(now, 30);
    let once: Vec<String> = s.get_workers().iter().map(|w| w.name.clone()).collect();
    s.reap(now, 30);
    let twice: Vec<String> = s.get_workers().iter().map(|w| w.name.clone()).collect();
    assert_eq!(once, vec!["fresh".to_string()]);
    assert_eq!(once, twice);
}

#[test]
fn unloaded_worker_with_one_slot_is_idle() {
    let w = worker("w", 1, 0);
    assert!(w.is_idle());
    assert!(!worker("none", 0, 0).is_idle());
}

#[test]
fn frame_round_trip() {
    let payload: Vec<u8> = (0..300u32).map(|i| (i % 251) as u8).collect();
    let frame = encode_frame(&payload).unwrap();
    assert_eq!(&frame[..4], &(payload.len() as u32).to_le_bytes());
    assert_eq!(frame_payload_len(&frame[..4]), 300);
    let mut stream = frame.clone();
    stream.extend_from_slice(&[9, 9, 9]);
    match decode_frame(&stream) {
        FrameParse::Complete { payload: p, consumed } => {
            assert_eq!(p, payload);
            assert_eq!(consumed, 304);
        }
        FrameParse::Incomplete => panic!("a whole frame was given"),
    }
}

#[test]
fn frame_of_empty_payload_and_partial_buffers() {
    let frame = encode_frame(&[]).unwrap();
    assert_eq!(frame, vec![0, 0, 0, 0]);
    assert!(matches!(decode_frame(&frame[..3]), FrameParse::Incomplete));
    let full = encode_frame(b"abc").unwrap();
    assert!(matches!(decode_frame(&full[..6]), FrameParse::Incomplete));
    assert_eq!(frame_payload_len(&[0x01, 0x02, 0x00, 0x00]), 0x0201);
}

#[test]
fn requeued_task_comes_back_unchanged() {
    let mut s = Scheduler::new();
    let w = worker("w", 1, 0);
    let wid = w.id.clone();
    s.register_worker(w);
    let mut t = Task::new("echo again".to_string());
    t.inputs = vec!["in.txt".to_string()];
    t.timeout = 42;
    t.env.insert("K".to_string(), "V".to_string());
    let original = t.clone();
    s.enqueue(t);
    s.enqueue(Task::new("echo other".to_string()));
    let (task, worker) = s.schedule_next_task().unwrap();
    s.dispatch_failed(task, &worker.id);
    assert_eq!(s.get_workers()[0].current_jobs, 0);
    let (other, _) = s.schedule_next_task().unwrap();
    s.worker_job_completed(&wid);
    assert_eq!(other.command, "echo other");
    let (again, _) = s.schedule_next_task().unwrap();
    assert_eq!(again.id, original.id);
    assert_eq!(again.command, original.command);
    assert_eq!(again.inputs, original.inputs);
    assert_eq!(again.outputs, original.outputs);
    assert_eq!(again.timeout, original.timeout);
    assert_eq!(again.env, original.env);
    assert_eq!(again.created_at, original.created_at);
}

#[test]
fn dequeue_on_empty_queue_is_none() {
    let mut s = Scheduler::new();
    assert!(s.dequeue().is_none());
    assert_eq!(s.queue_size(), 0);
}

#[test]
fn idle_lookup_on_empty_registry_is_none() {
    let s = Scheduler::new();
    assert!(s.get_idle_worker().is_none());
    assert!(s.get_idle_workers().is_empty());
}

#[test]
fn idle_lookup_with_all_workers_full_is_none() {
    let mut s = Scheduler::new();
    s.register_worker(worker("a", 2, 2));
    s.register_worker(worker("b", 1, 1));
    assert!(s.get_idle_worker().is_none());
    s.enqueue(Task::new("echo x".to_string()));
    assert!(s.schedule_next_task().is_none());
    assert_eq!(s.queue_size(), 1);
}

#[test]
fn first_idle_worker_in_order_is_chosen() {
    let mut s = Scheduler::new();
    s.register_worker(worker("a", 1, 1));
    s.register_worker(worker("b", 2, 0));
    s.register_worker(worker("c", 2, 0));
    assert_eq!(s.get_idle_worker().unwrap().name, "b");
    let names: Vec<String> = s.get_idle_workers().into_iter().map(|w| w.name).collect();
    assert_eq!(names, vec!["b".to_string(), "c".to_string()]);
}

#[test]
fn zero_timeout_gives_timed_out_at_once() {
    let mut task = Task::new("sleep 10".to_string());
    task.timeout = 0;
    let r = ExecutionResult::timed_out(&task);
    assert_eq!(r.status, TaskStatus::TimedOut);
    assert_eq!(r.duration_ms, 0);
    assert_eq!(r.stderr, "Task timed out after 0 seconds");
    assert!(r.stdout.is_empty());
    assert_eq!(r.exit_code, None);
}

#[test]
fn validate_rejects_each_pattern_and_accepts_plain_rm() {
    let e = Executor::new(PathBuf::from("/tmp"), true);
    assert!(!e.validate_command("sudo rm -rf / --no-preserve-root"));
    assert!(!e.validate_command("dd if=/dev/zero of=/dev/sda"));
    assert!(!e.validate_command("x; :(){:|:&};:"));
    assert!(e.validate_command("rm file.txt"));
    assert!(e.validate_command("rm -rf ./build"));
    assert!(e.validate_command("echo farm"));
    let off = Executor::new(PathBuf::from("/tmp"), false);
    assert!(!off.validate_command("echo hello"));
}

#[test]
fn executor_refuses_when_shell_disabled() {
    let on = Executor::new(PathBuf::from("/tmp"), true);
    assert_eq!(on.check_allowed(), Ok(()));
    let off = Executor::new(PathBuf::from("/work"), false);
    assert_eq!(off.check_allowed(), Err(ExecutorError::ShellNotAllowed));
    assert_eq!(off.workdir(), &PathBuf::from("/work"));
    assert!(!off.allow_shell());
}

#[test]
fn echo_run_is_completed() {
    let task = Task::new("echo 'test'".to_string());
    let r = ExecutionResult::finished(&task, Some(0), "test\n".to_string(), String::new(), 5);
    assert_eq!(r.status, TaskStatus::Completed);
    assert_eq!(r.exit_code, Some(0));
    assert!(r.stdout.contains("test"));
    assert_eq!(r.task_id, task.id);
}

#[test]
fn nonzero_or_missing_exit_code_is_failed() {
    let task = Task::new("false".to_string());
    let r = ExecutionResult::finished(&task, Some(1), String::new(), "boom".to_string(), 3);
    assert_eq!(r.status, TaskStatus::Failed);
    let r = ExecutionResult::finished(&task, None, String::new(), String::new(), 3);
    assert_eq!(r.status, TaskStatus::Failed);
}

#[test]
fn one_second_timeout_record() {
    let mut task = Task::new("sleep 10".to_string());
    task.timeout = 1;
    let r = ExecutionResult::timed_out(&task);
    assert_eq!(r.status, TaskStatus::TimedOut);
    assert!(r.stderr.contains("timed out after 1 seconds"));
    assert_eq!(r.duration_ms, 1000);
}

#[test]
fn huge_timeout_duration_is_held_at_max() {
    let mut task = Task::new("sleep 10".to_string());
    task.timeout = u64::MAX;
    let r = ExecutionResult::timed_out(&task);
    assert_eq!(r.duration_ms, u64::MAX);
    assert_eq!(r.stderr, format!("Task timed out after {} seconds", u64::MAX));
}

#[test]
fn queue_scenario_echo_one_then_two() {
    let mut s = Scheduler::new();
    let t1 = Task::new("echo 1".to_string());
    let t2 = Task::new("echo 2".to_string());
    s.enqueue(t1);
    s.enqueue(t2);
    assert_eq!(s.dequeue().unwrap().command, "echo 1");
    assert_eq!(s.dequeue().unwrap().command, "echo 2");
}

#[test]
fn idle_scenario_two_slots() {
    let mut w = worker("W", 2, 0);
    assert!(w.is_idle());
    w.current_jobs = 2;
    assert!(!w.is_idle());
    w.current_jobs = 1;
    assert!(w.is_idle());
}

#[test]
fn stale_announced_worker_is_reaped() {
    let mut s = Scheduler::new();
    let mut d = DispatcherState::new("d".to_string(), 7878);
    let now = unix_seconds();
    let mut w = worker("W", 2, 0);
    w.last_heartbeat = now - 60;
    let ev = handle_dispatcher_message(Message::WorkerAnnounce(w), &mut s, &mut d, now);
    assert_eq!(ev, DispatcherEvent::WorkerRegistered);
    assert_eq!(s.get_workers().len(), 1);
    s.reap(now, 30);
    assert!(s.get_workers().is_empty());
}

#[test]
fn cleanup_removes_workers_silent_for_an_hour() {
    let mut s = Scheduler::new();
    let mut old = worker("old", 1, 0);
    old.last_heartbeat = unix_seconds() - 3600;
    s.register_worker(old);
    s.register_worker(worker("new", 1, 0));
    s.cleanup_offline_workers(30);
    let names: Vec<String> = s.get_workers().into_iter().map(|w| w.name).collect();
    assert_eq!(names, vec!["new".to_string()]);
}

#[test]
fn result_store_overwrites_same_task() {
    let mut d = DispatcherState::new("d".to_string(), 7878);
    d.store_result(result_for("task-1", "w", "first"));
    assert_eq!(d.get_result("task-1").unwrap().stdout, "first");
    assert_eq!(d.get_history_count(), 1);
    d.store_result(result_for("task-1", "w", "second"));
    assert_eq!(d.get_history_count(), 1);
    assert_eq!(d.get_result("task-1").unwrap().stdout, "second");
    d.store_result(result_for("task-2", "w", "x"));
    assert_eq!(d.get_history_count(), 2);
    assert!(d.get_result("task-3").is_none());
}

#[test]
fn dispatcher_state_identity_and_completed_tasks() {
    let mut d = DispatcherState::new("disp".to_string(), 9000);
    assert_eq!(d.name(), "disp");
    assert_eq!(d.port(), 9000);
    assert!(!d.id().is_empty());
    let t = Task::new("echo done".to_string());
    d.add_completed_task(t.clone());
    let done = d.get_completed_tasks();
    assert_eq!(done.len(), 1);
    assert_eq!(done[0].id, t.id);
}

#[test]
fn completion_message_stores_and_frees_a_slot() {
    let mut s = Scheduler::new();
    let mut d = DispatcherState::new("d".to_string(), 7878);
    let w = worker("w", 2, 2);
    let wid = w.id.clone();
    s.register_worker(w);
    let ev = handle_dispatcher_message(
        Message::TaskCompleted(result_for("t1", &wid, "ok")),
        &mut s,
        &mut d,
        0,
    );
    assert_eq!(ev, DispatcherEvent::ResultStored);
    assert_eq!(s.get_workers()[0].current_jobs, 1);
    assert_eq!(d.get_result("t1").unwrap().stdout, "ok");
}

#[test]
fn heartbeat_message_updates_known_worker_only() {
    let mut s = Scheduler::new();
    let mut d = DispatcherState::new("d".to_string(), 7878);
    let w = worker("w", 2, 0);
    let wid = w.id.clone();
    s.register_worker(w);
    let ev = handle_dispatcher_message(
        Message::Heartbeat { worker_id: wid.clone(), timestamp: 5 },
        &mut s,
        &mut d,
        123,
    );
    assert_eq!(ev, DispatcherEvent::HeartbeatRecorded);
    assert_eq!(s.get_workers()[0].last_heartbeat, 123);
    let ev = handle_dispatcher_message(
        Message::Heartbeat { worker_id: "ghost".to_string(), timestamp: 5 },
        &mut s,
        &mut d,
        456,
    );
    assert_eq!(ev, DispatcherEvent::HeartbeatFromUnknown);
    assert_eq!(s.get_workers()[0].last_heartbeat, 123);
}

#[test]
fn dispatcher_ignores_progress_and_misdirected_messages() {
    let mut s = Scheduler::new();
    let mut d = DispatcherState::new("d".to_string(), 7878);
    let ev = handle_dispatcher_message(
        Message::TaskProgress { task_id: "t".to_string(), progress_bits: 0.5f32.to_bits() },
        &mut s,
        &mut d,
        0,
    );
    assert_eq!(ev, DispatcherEvent::ProgressReported);
    let ev = handle_dispatcher_message(
        Message::AssignTask(Task::new("echo".to_string())),
        &mut s,
        &mut d,
        0,
    );
    assert_eq!(ev, DispatcherEvent::Unexpected);
    let ev = handle_dispatcher_message(
        Message::Ack { message_id: "m".to_string() },
        &mut s,
        &mut d,
        0,
    );
    assert_eq!(ev, DispatcherEvent::Unexpected);
    assert_eq!(s.queue_size(), 0);
    assert_eq!(d.get_history_count(), 0);
}

#[test]
fn worker_runs_assigned_task_and_reports() {
    let mut ws = WorkerState::new("w".to_string(), 7879);
    let t = Task::new("echo hi".to_string());
    let tid = t.id.clone();
    match handle_worker_message(Message::AssignTask(t), &mut ws) {
        WorkerAction::Execute(task) => assert_eq!(task.id, tid),
        other => panic!("expected a task to run, got {:?}", other),
    }
    assert_eq!(ws.get_current_task().unwrap().id, tid);
    let task = ws.get_current_task().unwrap();
    let outcome = ExecutionResult::finished(&task, Some(0), "hi\n".to_string(), String::new(), 7);
    let report = finish_task(&mut ws, "worker-9".to_string(), outcome, 1_700_000_001);
    assert_eq!(report.task_id, tid);
    assert_eq!(report.worker_id, "worker-9");
    assert_eq!(report.status, TaskStatus::Completed);
    assert_eq!(report.completed_at, 1_700_000_001);
    assert!(ws.get_current_task().is_none());
    assert_eq!(ws.get_completed_count(), 1);
    assert_eq!(ws.get_completed_tasks()[0].stdout, "hi\n");
}

#[test]
fn cancel_clears_only_the_matching_task() {
    let mut ws = WorkerState::new("w".to_string(), 7879);
    let t = Task::new("sleep 5".to_string());
    let tid = t.id.clone();
    ws.set_current_task(Some(t));
    let a = handle_worker_message(Message::CancelTask { task_id: "other".to_string() }, &mut ws);
    assert!(matches!(a, WorkerAction::Nothing));
    assert!(ws.get_current_task().is_some());
    let a = handle_worker_message(Message::CancelTask { task_id: tid }, &mut ws);
    assert!(matches!(a, WorkerAction::Nothing));
    assert!(ws.get_current_task().is_none());
    let a = handle_worker_message(Message::Ack { message_id: "m".to_string() }, &mut ws);
    assert!(matches!(a, WorkerAction::Unexpected));
    assert_eq!(ws.name(), "w");
    assert_eq!(ws.port(), 7879);
}

#[test]
fn update_worker_replaces_matching_entry() {
    let mut s = Scheduler::new();
    let w = worker("w", 2, 0);
    let id = w.id.clone();
    s.register_worker(w);
    let mut changed = s.get_workers()[0].clone();
    changed.current_jobs = 2;
    s.update_worker(&id, changed);
    assert_eq!(s.get_workers()[0].current_jobs, 2);
    s.update_worker("missing", worker("x", 1, 0));
    assert_eq!(s.get_workers().len(), 1);
    assert_eq!(s.get_workers()[0].name, "w");
    assert!(s.record_heartbeat(&id, 77));
    assert_eq!(s.get_workers()[0].last_heartbeat, 77);
    assert!(!s.record_heartbeat("missing", 78));
}

#[test]
fn disconnect_errors_are_recognised() {
    assert!(is_disconnect("failed to fill whole buffer: unexpected end of file"));
    assert!(is_disconnect("connection reset by peer"));
    assert!(!is_disconnect("invalid value: integer `7`"));
}

#[test]
fn worker_ports_are_scanned_upward() {
    let ports = port_candidates(7879);
    assert_eq!(ports.len(), 100);
    assert_eq!(ports[0], 7879);
    assert_eq!(ports[99], 7978);
    let top = port_candidates(65500);
    assert_eq!(top.len(), 36);
    assert_eq!(*top.last().unwrap(), 65535);
}

#[test]
fn dashboard_worker_lines_match_column_layout() {
    let mut d = Dashboard::new();
    let mut busy = worker("builder", 1, 1);
    busy.platform = "macos".to_string();
    let idle = worker("a-very-long-worker-name-here", 4, 3);
    let expected: Vec<String> = [&busy, &idle]
        .iter()
        .map(|w| {
            format!(
                "{:20} | {} | Jobs: {}/{} | {}",
                w.name,
                if w.is_idle() { "[IDLE]" } else { "[BUSY]" },
                w.current_jobs,
                w.max_jobs,
                w.platform
            )
        })
        .collect();
    d.update_workers(vec![busy, idle]);
    assert_eq!(d.workers_display(), &expected);
    assert_eq!(
        d.workers_display()[0],
        "builder              | [BUSY] | Jobs: 1/1 | macos"
    );
}

#[test]
fn dashboard_task_lines_and_wrapping_tabs() {
    let mut d = Dashboard::new();
    d.update_tasks(12, 0);
    assert_eq!(
        d.tasks_display(),
        &vec!["Completed Tasks: 12".to_string(), "Queued Tasks: 0".to_string()]
    );
    d.prev_tab();
    assert_eq!(d.current_tab(), 2);
    d.next_tab();
    assert_eq!(d.current_tab(), 0);
}

#[test]
fn dashboard_log_keeps_newest_hundred() {
    let mut d = Dashboard::new();
    for i in 0..105 {
        d.add_log(format!("line {}", i));
    }
    assert_eq!(d.logs().len(), 100);
    assert_eq!(d.logs()[0], "line 5");
    assert_eq!(d.logs()[99], "line 104");
}

#[test]
fn whitelist_and_passthrough_crypto() {
    let mut s = Security::default();
    assert!(s.is_whitelisted("anyone"));
    s.add_to_whitelist("worker-1".to_string());
    assert!(s.is_whitelisted("worker-1"));
    assert!(!s.is_whitelisted("worker-2"));
    assert_eq!(s.encrypt(b"data").unwrap(), b"data".to_vec());
    assert_eq!(s.decrypt(b"data").unwrap(), b"data".to_vec());
}

#[test]
fn role_names_and_claims() {
    assert_eq!(Role::Admin.to_string(), "admin");
    assert_eq!(Role::Dispatcher.to_string(), "dispatcher");
    assert_eq!(Role::Worker.to_string(), "worker");
    assert_eq!(Role::Client.to_string(), "client");
    assert_eq!(
        Role::Client.default_permissions(),
        vec!["create_task".to_string(), "view_own_tasks".to_string()]
    );
    let c = Claims::new("u".to_string(), "admin".to_string(), Role::Admin.default_permissions());
    assert_eq!(c.exp - c.iat, 86_400);
    assert!((c.iat - unix_seconds()).abs() <= 5);
    let m = AuthManager::default();
    assert!(m.has_permission(&c, "anything"));
    let w = Claims::new("w".to_string(), "worker".to_string(), Role::Worker.default_permissions());
    assert!(m.has_permission(&w, "execute_task"));
    assert!(!m.has_permission(&w, "manage_users"));
    assert!(m.has_role(&w, "worker"));
    assert!(!m.has_role(&w, "admin"));
}

#[test]
fn submission_overrides_task_defaults() {
    let req = CreateTaskRequest {
        command: "make".to_string(),
        timeout: Some(60),
        inputs: Some(vec!["a".to_string()]),
        outputs: None,
    };
    let t = req.into_task();
    assert_eq!(t.command, "make");
    assert_eq!(t.timeout, 60);
    assert_eq!(t.inputs, vec!["a".to_string()]);
    assert!(t.outputs.is_empty());
    let d = CreateTaskRequest { command: "ls".to_string(), timeout: None, inputs: None, outputs: None }
        .into_task();
    assert_eq!(d.timeout, 600);
}

#[test]
fn new_records_get_fresh_ids_and_current_time() {
    let a = Task::new("a".to_string());
    let b = Task::new("b".to_string());
    assert_eq!(a.id.len(), 36);
    assert_ne!(a.id, b.id);
    assert!((a.created_at - unix_seconds()).abs() <= 5);
    let w = worker("w", 1, 0);
    assert_ne!(w.id, a.id);
    assert!((w.last_heartbeat - unix_seconds()).abs() <= 5);
    assert!(w.allow_shell);
    assert_eq!(w.platform, "linux");
}

#[test]
fn sandbox_environment_plans() {
    let p = Sandbox::new(IsolationLevel::Unconfined).env_plan();
    assert!(!p.clear);
    assert!(p.vars.is_empty());
    let p = Sandbox::new(IsolationLevel::Strict).env_plan();
    assert!(p.clear);
    assert_eq!(p.vars[0], ("PATH".to_string(), "/usr/bin:/bin".to_string()));
    assert_eq!(p.vars[2], ("TMPDIR".to_string(), "/tmp".to_string()));
    let p = Sandbox::new(IsolationLevel::VeryStrict).env_plan();
    assert_eq!(p.vars[0], ("PATH".to_string(), String::new()));
    assert!(Sandbox::new(IsolationLevel::Unconfined).is_path_allowed("/etc/passwd"));
    assert!(!Sandbox::new(IsolationLevel::Unconfined).is_path_allowed("relative"));
}

#[test]
fn text_helpers() {
    assert!(str_contains("abcabd", "abd"));
    assert!(!str_contains("ab", "abc"));
    assert!(str_contains("x", ""));
    assert!(str_starts_with("/tmp/x", "/tmp"));
    assert!(!str_starts_with("/tm", "/tmp"));
    assert!(str_eq("é", "é"));
    assert!(!str_eq("a", "ab"));
    assert_eq!(decimal_string(0), "0");
    assert_eq!(decimal_string(1000), "1000");
    assert_eq!(decimal_string(u64::MAX), u64::MAX.to_string());
    assert_eq!(pad_right("ab", 4), "ab  ");
    assert_eq!(pad_right("abcdef", 4), "abcdef");
}

#[test]
fn shortcut_commands_expand() {
    let d = Cli { command: Some(Command::D { bind: "0.0.0.0".to_string(), port: 7878, ui: true }) };
    match d.into_command() {
        Some(Command::Dispatcher { bind, port, workdir, ui }) => {
            assert_eq!(bind, "0.0.0.0");
            assert_eq!(port, 7878);
            assert_eq!(workdir, "./tasks");
            assert!(ui);
        }
        other => panic!("expected a dispatcher, got {:?}", other),
    }
    let w = Cli { command: Some(Command::W { name: "n".to_string(), max_jobs: 2 }) };
    match w.into_command() {
        Some(Command::Worker { name, allow_shell, max_jobs, dispatcher }) => {
            assert_eq!(name, "n");
            assert!(allow_shell);
            assert_eq!(max_jobs, 2);
            assert!(dispatcher.is_none());
        }
        other => panic!("expected a worker, got {:?}", other),
    }
    let full = Cli {
        command: Some(Command::Worker {
            name: "m".to_string(),
            allow_shell: false,
            max_jobs: 1,
            dispatcher: Some(vec!["10.0.0.1:7878".to_string()]),
        }),
    };
    assert!(matches!(
        full.into_command(),
        Some(Command::Worker { allow_shell: false, max_jobs: 1, .. })
    ));
    assert!(Cli { command: None }.into_command().is_none());
}
