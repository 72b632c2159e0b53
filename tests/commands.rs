use capsule_core::bridge::{RetryLoop, RetryStep, TaskError, TaskEvent};
use capsule_core::commands::{
    consumed_fuel, entry_args_json, env_pairs, guest_error_json, split_env_var, instantiation_failed, resolve_preopen, task_args_json,
    CreateInstance, GuestOutcome, RunInstance,
};
use capsule_core::log::{InstanceState, Log, LogError};
use capsule_core::policy::{Compute, ExecutionPolicy};
use capsule_core::runtime::{RuntimeConfig, WasmRuntimeError};

fn launch(log: &mut Log, policy: &ExecutionPolicy, name: &str) -> (String, u64) {
    let cmd = CreateInstance::new(policy.clone(), vec![]).task_name(name);
    let plan = cmd.begin(log).ok().unwrap();
    (plan.task_id, plan.fuel)
}

fn state_of(log: &Log, task_id: &str) -> (InstanceState, u64) {
    let rows = log.get_logs(task_id).unwrap();
    assert_eq!(rows.len(), 1);
    (rows[0].state, rows[0].fuel_consumed)
}

#[test]
fn happy_path_completes() {
    let mut log = Log::new();
    let policy = ExecutionPolicy::new().compute(Some(Compute::High));
    let (task_id, fuel) = launch(&mut log, &policy, "main");
    assert_eq!(fuel, 50_000_000_000);
    assert_eq!(state_of(&log, &task_id), (InstanceState::Created, 0));

    let args = task_args_json("main", "[]");
    let run = RunInstance::new(task_id.clone(), policy, args);
    run.start(&mut log, Some(fuel)).ok().unwrap();
    assert_eq!(state_of(&log, &task_id), (InstanceState::Running, 0));

    let out = run
        .finish(&mut log, Some(fuel - 1234), GuestOutcome::Returned("{\"result\":\"hi\"}".to_string()))
        .ok()
        .unwrap();
    assert_eq!(out, "{\"result\":\"hi\"}");
    let (state, consumed) = state_of(&log, &task_id);
    assert_eq!(state, InstanceState::Completed);
    assert!(consumed > 0);
    assert_eq!(consumed, 1234);
}

#[test]
fn fuel_exhaustion_fails() {
    let mut log = Log::new();
    let policy = ExecutionPolicy::new().compute(Some(Compute::Custom(1000)));
    let (task_id, fuel) = launch(&mut log, &policy, "spin");
    assert_eq!(fuel, 1000);
    let run = RunInstance::new(task_id.clone(), policy, task_args_json("spin", "[]"));
    run.start(&mut log, Some(1000)).ok().unwrap();
    let r = run.finish(&mut log, Some(0), GuestOutcome::Trapped("all fuel consumed".to_string()));
    assert!(matches!(r, Err(WasmRuntimeError::WasmtimeError(ref m)) if m == "all fuel consumed"));
    assert_eq!(state_of(&log, &task_id), (InstanceState::Failed, 1000));
}

#[test]
fn memory_breach_fails() {
    let mut log = Log::new();
    let policy = ExecutionPolicy::new().ram(Some(1 << 20));
    let cmd = CreateInstance::new(policy.clone(), vec![]);
    let plan = cmd.begin(&mut log).ok().unwrap();
    assert_eq!(plan.memory_limit, Some(1_048_576));
    let run = RunInstance::new(plan.task_id.clone(), policy, task_args_json("main", "[]"));
    run.start(&mut log, Some(plan.fuel)).ok().unwrap();
    let r = run.finish(&mut log, Some(plan.fuel - 10), GuestOutcome::Trapped("memory limit exceeded".to_string()));
    match r {
        Err(e) => assert!(e.message().contains("memory limit exceeded")),
        Ok(_) => panic!("a memory breach must fail"),
    }
    assert_eq!(state_of(&log, &plan.task_id).0, InstanceState::Failed);
}

#[test]
fn nested_task_success() {
    let mut log = Log::new();
    let policy = ExecutionPolicy::new();
    let (outer, outer_fuel) = launch(&mut log, &policy, "main");
    let outer_run = RunInstance::new(outer.clone(), policy.clone(), task_args_json("main", "[]"));
    outer_run.start(&mut log, Some(outer_fuel)).ok().unwrap();

    let mut retry = RetryLoop::new(policy.max_retries);
    assert!(matches!(retry.next_step(), RetryStep::Attempt));
    let (inner, inner_fuel) = launch(&mut log, &policy, "inner");
    assert_ne!(inner, outer);
    let args = task_args_json("inner", "[1,2]");
    assert_eq!(args, "{\"task_name\":\"inner\",\"args\":[1,2],\"kwargs\":{}}");
    let inner_run = RunInstance::new(inner.clone(), policy.clone(), args);
    inner_run.start(&mut log, Some(inner_fuel)).ok().unwrap();
    let inner_out = inner_run
        .finish(&mut log, Some(inner_fuel - 5), GuestOutcome::Returned("{\"result\":3}".to_string()))
        .ok()
        .unwrap();
    let step = retry.on_event(TaskEvent::RunSucceeded(inner_out));
    let seen = match step {
        RetryStep::Done(Ok(v)) => v,
        _ => panic!("the nested task succeeded"),
    };
    assert_eq!(seen, "{\"result\":3}");

    let outer_out = format!("{{\"result\":{}}}", seen);
    let r = outer_run.finish(&mut log, Some(outer_fuel - 20), GuestOutcome::Returned(outer_out.clone())).ok().unwrap();
    assert!(r.contains("{\"result\":3}"));
    assert_eq!(state_of(&log, &outer).0, InstanceState::Completed);
    assert_eq!(state_of(&log, &inner).0, InstanceState::Completed);
}

#[test]
fn nested_task_retry() {
    let mut log = Log::new();
    let policy = ExecutionPolicy::new().max_retries(Some(2));
    let mut retry = RetryLoop::new(policy.max_retries);
    let mut ids = Vec::new();
    let mut result = None;
    for attempt in 0..3 {
        assert!(matches!(retry.next_step(), RetryStep::Attempt));
        let (id, fuel) = launch(&mut log, &policy, "inner");
        ids.push(id.clone());
        let run = RunInstance::new(id, policy.clone(), task_args_json("inner", "[]"));
        run.start(&mut log, Some(fuel)).ok().unwrap();
        let outcome = if attempt < 2 {
            GuestOutcome::Trapped("boom".to_string())
        } else {
            GuestOutcome::Returned("{\"result\":1}".to_string())
        };
        let event = match run.finish(&mut log, Some(fuel - 1), outcome) {
            Ok(v) => TaskEvent::RunSucceeded(v),
            Err(e) => TaskEvent::RunFailed(e),
        };
        match retry.on_event(event) {
            RetryStep::Attempt => {}
            RetryStep::Done(r) => {
                result = Some(r);
                break;
            }
        }
    }
    assert_eq!(result, Some(Ok("{\"result\":1}".to_string())));
    assert_eq!(ids.len(), 3);
    assert_eq!(state_of(&log, &ids[0]).0, InstanceState::Failed);
    assert_eq!(state_of(&log, &ids[1]).0, InstanceState::Failed);
    assert_eq!(state_of(&log, &ids[2]).0, InstanceState::Completed);
}

#[test]
fn retries_exhausted_report_last_error() {
    let mut retry = RetryLoop::new(1);
    let boom = WasmRuntimeError::WasmtimeError("boom".to_string());
    assert!(matches!(retry.on_event(TaskEvent::CreateFailed(boom.clone())), RetryStep::Attempt));
    match retry.on_event(TaskEvent::RunFailed(boom)) {
        RetryStep::Done(Err(TaskError::InternalError(m))) => {
            assert_eq!(m, "Failed to run instance: Runtime error > Wasmtime error > boom")
        }
        _ => panic!("two failures exhaust one retry"),
    }
    assert!(matches!(retry.next_step(), RetryStep::Done(Err(_))));
}

#[test]
fn no_attempt_when_retries_negative() {
    let retry = RetryLoop::new(-1);
    match retry.next_step() {
        RetryStep::Done(Err(TaskError::InternalError(m))) => assert_eq!(m, "Unknown error after retries"),
        _ => panic!("no attempt is owed"),
    }
}

#[test]
fn timeout_interrupts_only_the_child() {
    let mut log = Log::new();
    let parent_policy = ExecutionPolicy::new();
    let (parent, parent_fuel) = launch(&mut log, &parent_policy, "main");
    RunInstance::new(parent.clone(), parent_policy, task_args_json("main", "[]"))
        .start(&mut log, Some(parent_fuel))
        .ok()
        .unwrap();

    let policy = ExecutionPolicy::new().timeout(Some(100));
    let (child, fuel) = launch(&mut log, &policy, "sleepy");
    let run = RunInstance::new(child.clone(), policy, task_args_json("sleepy", "[]"));
    run.start(&mut log, Some(fuel)).ok().unwrap();
    let r = run.finish(&mut log, Some(fuel - 7), GuestOutcome::TimedOut);
    assert!(matches!(r, Err(WasmRuntimeError::Timeout(ref t)) if *t == child));
    assert_eq!(state_of(&log, &child), (InstanceState::Interrupted, 7));
    assert_eq!(state_of(&log, &parent).0, InstanceState::Running);
}

#[test]
fn guest_reported_error_is_data() {
    let mut log = Log::new();
    let policy = ExecutionPolicy::new();
    let (id, fuel) = launch(&mut log, &policy, "main");
    let run = RunInstance::new(id.clone(), policy, task_args_json("main", "[]"));
    run.start(&mut log, Some(fuel)).ok().unwrap();
    let out = run.finish(&mut log, Some(fuel), GuestOutcome::Reported("bad input".to_string())).ok().unwrap();
    assert_eq!(out, "{\"error\":\"bad input\"}");
    assert_eq!(guest_error_json("x"), "{\"error\":\"x\"}");
    assert_eq!(state_of(&log, &id).0, InstanceState::Failed);
}

#[test]
fn failed_instantiation_is_journaled() {
    let mut log = Log::new();
    let policy = ExecutionPolicy::new();
    let (id, _) = launch(&mut log, &policy, "main");
    let e = instantiation_failed(&id, &mut log, "bad component".to_string());
    assert!(matches!(e, WasmRuntimeError::WasmtimeError(ref m) if m == "bad component"));
    assert_eq!(state_of(&log, &id), (InstanceState::Failed, 0));
    let again = instantiation_failed(&id, &mut log, "x".to_string());
    assert!(matches!(again, WasmRuntimeError::LogError(LogError::IllegalTransition)));
}

#[test]
fn create_command_defaults_and_errors() {
    let cmd = CreateInstance::new(ExecutionPolicy::new(), vec!["a".to_string()]);
    assert_eq!(cmd.task_id.chars().count(), 10);
    assert!(cmd.task_id.chars().all(|c| c.is_ascii_alphanumeric() || c == '_' || c == '-'));
    assert_eq!(cmd.task_name, "default_task_name");
    assert_eq!(cmd.agent_name, "default_agent");
    assert_eq!(cmd.agent_version, "0.0.0");
    assert_eq!(cmd.wasm_path, ".capsule/capsule.wasm");
    let other = CreateInstance::new(ExecutionPolicy::new(), vec![]);
    assert_ne!(cmd.task_id, other.task_id);
    let cmd = cmd.agent_name("agent").agent_version("1.2.3").wasm_path("/x.wasm").project_root("/proj");
    assert_eq!(cmd.agent_name, "agent");
    assert_eq!(cmd.agent_version, "1.2.3");
    assert_eq!(cmd.project_root, Some("/proj".to_string()));

    let mut log = Log::new();
    let bad = CreateInstance::new(ExecutionPolicy::new().compute(Some(Compute::Custom(-5))), vec![]);
    assert!(matches!(bad.begin(&mut log), Err(WasmRuntimeError::ConfigError(_))));
    let bad_ram = CreateInstance::new(ExecutionPolicy::new().ram(Some(-1)), vec![]);
    let id = bad_ram.task_id.clone();
    assert!(matches!(bad_ram.begin(&mut log), Err(WasmRuntimeError::ConfigError(_))));
    assert!(log.get_logs(&id).unwrap().is_empty());
}

#[test]
fn plan_carries_policy_grants() {
    let policy = ExecutionPolicy::new()
        .env_vars(Some(vec!["K=V".to_string()]))
        .allowed_files(Some(vec![".".to_string(), "data".to_string(), "/tmp".to_string()]));
    let mut log = Log::new();
    let plan = CreateInstance::new(policy, vec!["x".to_string()])
        .project_root("/proj")
        .begin(&mut log)
        .ok()
        .unwrap();
    assert_eq!(plan.env_vars, vec!["K=V".to_string()]);
    assert_eq!(plan.args, vec!["x".to_string()]);
    assert_eq!(plan.preopens, vec!["/proj".to_string(), "/proj/data".to_string(), "/tmp".to_string()]);
    assert_eq!(resolve_preopen(&None, "data"), "data");
}

#[test]
fn consumed_fuel_is_clamped() {
    assert_eq!(consumed_fuel(100, Some(40)), 60);
    assert_eq!(consumed_fuel(100, Some(400)), 0);
    assert_eq!(consumed_fuel(100, None), 100);
}

#[test]
fn runtime_texts() {
    assert_eq!(RuntimeConfig::default().state_db_path(), ".capsule/state.db");
    assert_eq!(WasmRuntimeError::Timeout("abc".to_string()).message(), "Task 'abc' timed out");
    assert_eq!(
        WasmRuntimeError::LogError(LogError::DatabaseError("x".to_string())).message(),
        "Runtime error > Log error > x"
    );
    assert_eq!(WasmRuntimeError::ConfigError("c".to_string()).message(), "Runtime error > Config > c");
}

#[test]
fn env_entries_split_at_first_equals() {
    assert_eq!(split_env_var("A=1=2"), Some(("A".to_string(), "1=2".to_string())));
    assert_eq!(split_env_var("=x"), Some((String::new(), "x".to_string())));
    assert_eq!(split_env_var("NOVALUE"), None);
    let pairs = env_pairs(&vec!["K=V".to_string(), "bad".to_string(), "X=".to_string()]);
    assert_eq!(pairs, vec![("K".to_string(), "V".to_string()), ("X".to_string(), String::new())]);
}

#[test]
fn deadline_from_timeout() {
    assert_eq!(ExecutionPolicy::new().timeout(Some(100)).deadline_ms(), Some(100));
    assert_eq!(ExecutionPolicy::new().timeout(Some(-5)).deadline_ms(), None);
    assert_eq!(ExecutionPolicy::new().deadline_ms(), None);
}

#[test]
fn entry_arguments_are_encoded_as_json() {
    let args = vec!["a".to_string(), "say \"hi\"".to_string()];
    assert_eq!(
        entry_args_json("main", &args),
        Some("{\"task_name\":\"main\",\"args\":[\"a\",\"say \\\"hi\\\"\"],\"kwargs\":{}}".to_string())
    );
    assert_eq!(
        entry_args_json("main", &vec![]),
        Some("{\"task_name\":\"main\",\"args\":[],\"kwargs\":{}}".to_string())
    );
}
