use octaskly::executor::Executor;
use octaskly::protocol::{Task, TaskResult, TaskStatus, WorkerInfo};
use octaskly::scheduler::Scheduler;
use octaskly::state::{DispatcherState, WorkerState};
use std::path::PathBuf;

fn local_worker(name: &str, max_jobs: usize) -> WorkerInfo {
    WorkerInfo::new(
        name.to_string(),
        "127.0.0.1".to_string(),
        7879,
        max_jobs,
        "linux".to_string(),
    )
}

#[test]
fn test_scheduler_enqueue_dequeue() {
    let mut scheduler = Scheduler::new();
    let task = Task::new("echo hello".to_string());
    let task_id = task.id.clone();

    scheduler.enqueue(task);
    assert_eq!(scheduler.queue_size(), 1);

    let dequeued = scheduler.dequeue();
    assert!(dequeued.is_some());
    assert_eq!(dequeued.unwrap().id, task_id);
}

#[test]
fn test_dispatcher_state() {
    let dispatcher = DispatcherState::new("dispatcher-1".to_string(), 7878);
    assert_eq!(dispatcher.get_history_count(), 0);
}

#[test]
fn test_worker_state() {
    let worker = WorkerState::new("worker-1".to_string(), 7879);
    assert!(worker.get_current_task().is_none());
}

#[test]
fn test_dispatcher_worker_workflow() {
    let _dispatcher = DispatcherState::new("test-dispatcher".to_string(), 7878);
    let mut scheduler = Scheduler::new();

    let worker = WorkerInfo::new(
        "test-worker".to_string(),
        "127.0.0.1".to_string(),
        7879,
        2,
        "linux".to_string(),
    );

    scheduler.register_worker(worker.clone());
    let workers = scheduler.get_workers();
    assert_eq!(workers.len(), 1);
    assert_eq!(workers[0].name, "test-worker");
}

#[test]
fn test_task_queue_fifo() {
    let mut scheduler = Scheduler::new();

    let task1 = Task::new("echo '1'".to_string());
    let task2 = Task::new("echo '2'".to_string());
    let id1 = task1.id.clone();
    let id2 = task2.id.clone();

    scheduler.enqueue(task1);
    scheduler.enqueue(task2);

    assert_eq!(scheduler.queue_size(), 2);

    let dequeued1 = scheduler.dequeue();
    assert!(dequeued1.is_some());
    assert_eq!(dequeued1.unwrap().id, id1);

    let dequeued2 = scheduler.dequeue();
    assert!(dequeued2.is_some());
    assert_eq!(dequeued2.unwrap().id, id2);
}

#[test]
fn test_worker_state_management() {
    let mut worker_state = WorkerState::new("test-worker".to_string(), 7879);

    assert!(worker_state.get_current_task().is_none());

    let task = Task::new("test command".to_string());
    worker_state.set_current_task(Some(task.clone()));

    let current = worker_state.get_current_task();
    assert!(current.is_some());
    assert_eq!(current.unwrap().id, task.id);

    worker_state.set_current_task(None);
    assert!(worker_state.get_current_task().is_none());
}

#[test]
fn test_dispatcher_state_results() {
    let mut dispatcher = DispatcherState::new("test-dispatcher".to_string(), 7878);

    assert_eq!(dispatcher.get_history_count(), 0);

    let result = TaskResult {
        task_id: "task-1".to_string(),
        worker_id: "worker-1".to_string(),
        status: TaskStatus::Completed,
        stdout: "test output".to_string(),
        stderr: String::new(),
        exit_code: Some(0),
        duration_ms: 100,
        completed_at: 1_700_000_000,
    };

    dispatcher.store_result(result.clone());
    assert_eq!(dispatcher.get_history_count(), 1);

    let stored = dispatcher.get_result("task-1");
    assert!(stored.is_some());
    assert_eq!(stored.unwrap().task_id, "task-1");
}

#[test]
fn test_worker_idle_state() {
    let mut worker = local_worker("test", 2);

    assert!(worker.is_idle());

    worker.current_jobs = 2;
    assert!(!worker.is_idle());

    worker.current_jobs = 1;
    assert!(worker.is_idle());
}

#[test]
fn test_command_validation() {
    let executor = Executor::new(PathBuf::from("/tmp"), true);

    assert!(executor.validate_command("echo 'hello'"));
    assert!(executor.validate_command("ls -la"));
    assert!(executor.validate_command("cargo build"));

    assert!(!executor.validate_command("rm -rf /"));
    assert!(!executor.validate_command("dd if=/dev/zero"));
    assert!(!executor.validate_command(":(){:|:&};:"));
}
