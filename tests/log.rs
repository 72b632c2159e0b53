use capsule_core::log::{CreateInstanceLog, InstanceState, Log, LogError, UpdateInstanceLog};
use std::sync::Arc;
use std::sync::Mutex;

fn create(task_id: &str, task_name: &str, agent: &str, version: &str, fuel_limit: u64) -> CreateInstanceLog {
    CreateInstanceLog {
        agent_name: agent.to_string(),
        agent_version: version.to_string(),
        task_id: task_id.to_string(),
        task_name: task_name.to_string(),
        state: InstanceState::Created,
        fuel_limit,
        fuel_consumed: 0,
    }
}

fn update(task_id: &str, state: InstanceState, fuel_consumed: u64) -> UpdateInstanceLog {
    UpdateInstanceLog { task_id: task_id.to_string(), state, fuel_consumed }
}

#[test]
fn test_new_log() {
    let log = Log::new();
    assert!(log.get_logs("instance_log").unwrap().is_empty());
}

#[test]
fn test_commit_log() {
    let mut log = Log::new();

    let callback_invoked = Arc::new(Mutex::new(false));
    let callback_invoked_clone = callback_invoked.clone();

    let _ = log.commit_log(
        CreateInstanceLog {
            agent_name: "agent_name".to_string(),
            agent_version: "agent_version".to_string(),
            task_id: "task_id".to_string(),
            task_name: "task_name".to_string(),
            state: InstanceState::Created,
            fuel_limit: 100,
            fuel_consumed: 0,
        },
        move |result| {
            *callback_invoked_clone.lock().unwrap() = true;
            assert!(result.is_ok(), "Commit should succeed: {:?}", result);
        },
    );

    assert!(*callback_invoked.lock().unwrap(), "Callback should have been invoked");

    let rows = log.get_logs("task_id").unwrap();
    assert_eq!(rows.len(), 1, "instance does not exist");
    assert_eq!(rows[0].task_name, "task_name");
}

#[test]
fn test_update_log() {
    let mut log = Log::new();
    log.commit_log(create("test_task_123", "Test Task", "test_agent", "1.0.0", 15000000), |_| {})
        .unwrap();

    let _ = log.update_log(UpdateInstanceLog {
        task_id: "test_task_123".to_string(),
        state: InstanceState::Running,
        fuel_consumed: 10,
    });

    let rows = log.get_logs("test_task_123").unwrap();
    assert_eq!(rows[0].state.to_string(), "running", "State should be updated to running");
    assert_eq!(rows[0].fuel_consumed, 10, "Fuel consumed should be updated to 10");
}

#[test]
fn test_get_logs() {
    let mut log = Log::new();
    log.commit_log(create("test_task_123", "Test Task", "test_agent", "1.0.0", 10000), |_| {}).unwrap();
    log.commit_log(create("other_task_456", "Other Task", "other_agent", "2.0.0", 5000), |_| {}).unwrap();
    log.update_log(update("test_task_123", InstanceState::Running, 5000)).unwrap();
    log.update_log(update("other_task_456", InstanceState::Running, 1500)).unwrap();
    log.update_log(update("other_task_456", InstanceState::Failed, 2500)).unwrap();
    log.update_log(update("test_task_123", InstanceState::Completed, 8500)).unwrap();

    let logs = log.get_logs("test_task_123").expect("Failed to get logs");
    assert_eq!(logs.len(), 1);
    assert_eq!(logs[0].state.to_string(), "completed", "First log should be completed");
    assert_eq!(logs[0].fuel_consumed, 8500, "First log fuel_consumed should be 8500");
    assert_eq!(logs[0].fuel_limit, 10000);
    assert!(logs[0].created_at <= logs[0].updated_at);
    for log_entry in &logs {
        assert_eq!(log_entry.task_id, "test_task_123", "All logs should have task_id test_task_123");
        assert_eq!(log_entry.agent_name, "test_agent", "All logs should have agent_name test_agent");
        assert_eq!(log_entry.task_name, "Test Task", "All logs should have task_name Test Task");
    }

    let other = log.get_logs("other_task_456").unwrap();
    assert_eq!(other[0].state.to_string(), "failed");
    assert_eq!(other[0].fuel_consumed, 2500);

    let empty_logs = log.get_logs("non_existent_task").expect("Failed to get logs for non-existent task");
    assert_eq!(empty_logs.len(), 0, "Expected 0 logs for non-existent task");
}

#[test]
fn test_delete_log() {
    let mut log = Log::new();
    log.commit_log(create("task_to_delete", "Task To Delete", "test_agent", "1.0.0", 10000), |_| {}).unwrap();
    log.update_log(update("task_to_delete", InstanceState::Running, 5000)).unwrap();
    log.commit_log(create("task_to_keep", "Task To Keep", "other_agent", "2.0.0", 5000), |_| {}).unwrap();
    log.update_log(update("task_to_keep", InstanceState::Running, 1500)).unwrap();
    log.update_log(update("task_to_keep", InstanceState::Completed, 2500)).unwrap();

    let logs_before = log.get_logs("task_to_delete").expect("Failed to get logs before deletion");
    assert_eq!(logs_before.len(), 1);

    log.delete_log("task_to_delete").expect("Failed to delete logs");

    let logs_after = log.get_logs("task_to_delete").expect("Failed to get logs after deletion");
    assert_eq!(logs_after.len(), 0, "Expected 0 logs for task_to_delete after deletion");

    let kept_logs = log.get_logs("task_to_keep").expect("Failed to get logs for task_to_keep");
    assert_eq!(kept_logs.len(), 1, "Expected 1 log for task_to_keep to remain");
    assert_eq!(kept_logs[0].task_id, "task_to_keep", "Kept log should have correct task_id");
    assert_eq!(kept_logs[0].state.to_string(), "completed", "Kept log should have correct state");
}

#[test]
fn illegal_transitions_are_refused() {
    let mut log = Log::new();
    log.commit_log(create("t", "n", "a", "v", 100), |_| {}).unwrap();
    assert_eq!(log.update_log(update("t", InstanceState::Completed, 5)), Err(LogError::IllegalTransition));
    assert_eq!(log.update_log(update("t", InstanceState::Interrupted, 5)), Err(LogError::IllegalTransition));
    log.update_log(update("t", InstanceState::Running, 5)).unwrap();
    assert_eq!(log.update_log(update("t", InstanceState::Running, 6)), Err(LogError::IllegalTransition));
    assert_eq!(log.update_log(update("t", InstanceState::Created, 6)), Err(LogError::IllegalTransition));
    log.update_log(update("t", InstanceState::Interrupted, 7)).unwrap();
    assert_eq!(log.update_log(update("t", InstanceState::Failed, 7)), Err(LogError::IllegalTransition));
    let rows = log.get_logs("t").unwrap();
    assert_eq!(rows[0].state, InstanceState::Interrupted);
    assert_eq!(rows[0].fuel_consumed, 7);
}

#[test]
fn created_can_fail_directly() {
    let mut log = Log::new();
    log.commit_log(create("t", "n", "a", "v", 100), |_| {}).unwrap();
    log.update_log(update("t", InstanceState::Failed, 0)).unwrap();
    assert_eq!(log.get_logs("t").unwrap()[0].state, InstanceState::Failed);
}

#[test]
fn fuel_bounds_are_enforced() {
    let mut log = Log::new();
    log.commit_log(create("t", "n", "a", "v", 100), |_| {}).unwrap();
    assert_eq!(log.update_log(update("t", InstanceState::Running, 101)), Err(LogError::FuelOutOfRange));
    log.update_log(update("t", InstanceState::Running, 50)).unwrap();
    assert_eq!(log.update_log(update("t", InstanceState::Completed, 40)), Err(LogError::FuelOutOfRange));
    log.update_log(update("t", InstanceState::Completed, 100)).unwrap();
    assert_eq!(log.get_logs("t").unwrap()[0].fuel_consumed, 100);
}

#[test]
fn commit_errors() {
    let mut log = Log::new();
    log.commit_log(create("t", "n", "a", "v", 100), |_| {}).unwrap();
    assert_eq!(log.commit_log(create("t", "n", "a", "v", 100), |_| {}), Err(LogError::DuplicateTask));
    let mut running = create("u", "n", "a", "v", 100);
    running.state = InstanceState::Running;
    assert_eq!(log.commit_log(running, |_| {}), Err(LogError::IllegalTransition));
    let mut over = create("w", "n", "a", "v", 100);
    over.fuel_consumed = 101;
    assert_eq!(log.commit_log(over, |r| assert!(r.is_err())), Err(LogError::FuelOutOfRange));
    assert!(log.get_logs("u").unwrap().is_empty());
    assert!(log.get_logs("w").unwrap().is_empty());
}

#[test]
fn update_of_unknown_task_changes_nothing() {
    let mut log = Log::new();
    log.commit_log(create("t", "n", "a", "v", 100), |_| {}).unwrap();
    assert_eq!(log.update_log(update("nope", InstanceState::Running, 1)), Ok(()));
    assert_eq!(log.get_logs("t").unwrap()[0].state, InstanceState::Created);
}

#[test]
fn state_names_round_trip() {
    for s in [
        InstanceState::Created,
        InstanceState::Running,
        InstanceState::Completed,
        InstanceState::Failed,
        InstanceState::Interrupted,
    ] {
        assert_eq!(InstanceState::from_text(&s.to_string()), Some(s));
    }
    assert_eq!(InstanceState::from_text("paused"), None);
    assert_eq!(InstanceState::Interrupted.to_string(), "interrupted");
}

#[test]
fn log_error_messages() {
    assert_eq!(LogError::DatabaseError("disk".to_string()).message(), "Log error > disk");
    assert_eq!(LogError::DuplicateTask.message(), "Log error > task already has a row");
}

#[test]
fn snapshot_and_restore() {
    let mut log = Log::new();
    log.commit_log(create("a", "n", "x", "1", 100), |_| {}).unwrap();
    log.commit_log(create("b", "n", "x", "1", 100), |_| {}).unwrap();
    log.update_log(update("a", InstanceState::Running, 10)).unwrap();
    let rows = log.rows();
    assert_eq!(rows.len(), 2);
    assert_eq!(rows[0].task_id, "a");
    assert_eq!(rows[1].task_id, "b");

    let mut restored = Log::from_rows(log.rows()).unwrap();
    assert_eq!(restored.get_logs("a").unwrap()[0].fuel_consumed, 10);
    restored.update_log(update("a", InstanceState::Completed, 20)).unwrap();
    let after = restored.get_logs("a").unwrap();
    assert!(after[0].updated_at >= rows[0].updated_at);

    let mut dup = log.rows();
    dup[1].task_id = "a".to_string();
    assert!(Log::from_rows(dup).is_none());
    let mut over = log.rows();
    over[0].fuel_consumed = 101;
    assert!(Log::from_rows(over).is_none());
    let mut early = log.rows();
    early[0].created_at = early[0].updated_at + 1;
    assert!(Log::from_rows(early).is_none());
}
