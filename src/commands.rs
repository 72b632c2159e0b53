use vstd::prelude::*;

use crate::log::{
    CreateInstanceLog, InstanceState, Log, LogError, UpdateInstanceLog, commit_error, row_from,
    update_effect, update_result,
};
use crate::host::texts;
use crate::paths::{join, join_path};
use crate::policy::{ExecutionPolicy, fuel_of};
use crate::runtime::WasmRuntimeError;

verus! {

/// Length of a generated task id.
pub const TASK_ID_LEN: usize = 10;

/// The characters of nanoid's default alphabet.
pub open spec fn is_id_char(c: char) -> bool {
    ('a' <= c && c <= 'z') || ('A' <= c && c <= 'Z') || ('0' <= c && c <= '9') || c == '_' || c
        == '-'
}

/// Relies on `nanoid::format` with nanoid's default random source and its
/// `SAFE` alphabet (`_`, `-`, digits, ASCII letters): it returns exactly
/// `size` characters, each from the alphabet. Which ones is up to chance.
/// With `size` zero it would never return.
#[verifier::external_body]
fn random_id(size: usize) -> (r: String)
    requires
        1 <= size <= 1024,
    ensures
        r@.len() == size,
        forall|i: int| 0 <= i < r@.len() ==> is_id_char(#[trigger] r@[i]),
{
    nanoid::format(nanoid::rngs::default, &nanoid::alphabet::SAFE, size)
}

/// Where the component is loaded from when no path is given.
pub open spec fn default_wasm_path() -> Seq<char> {
    ".capsule/capsule.wasm"@
}

/// The command that journals a new task and prepares its instance.
#[derive(Debug, Clone)]
pub struct CreateInstance {
    pub policy: ExecutionPolicy,
    pub args: Vec<String>,
    pub task_id: String,
    pub task_name: String,
    pub agent_name: String,
    pub agent_version: String,
    pub wasm_path: String,
    pub project_root: Option<String>,
}

/// What the engine needs to build the store and instance of a journaled task.
#[derive(Debug, Clone)]
pub struct InstancePlan {
    pub task_id: String,
    /// Initial fuel of the store.
    pub fuel: u64,
    /// Memory ceiling of the store in bytes, if the policy sets one.
    pub memory_limit: Option<u64>,
    pub args: Vec<String>,
    pub env_vars: Vec<String>,
    /// Host directories to grant the guest, in the policy's order.
    pub preopens: Vec<String>,
    pub wasm_path: String,
}

/// The directory that an allowed-file entry grants: relative entries are
/// taken from the project root when there is one, and `.` is the root itself.
pub open spec fn preopen_of(root: Option<Seq<char>>, entry: Seq<char>) -> Seq<char> {
    match root {
        None => entry,
        Some(r) => if entry == "."@ {
            r
        } else if entry.len() > 0 && entry[0] == '/' {
            entry
        } else {
            join_path(r, entry)
        },
    }
}

/// The name and value of a `KEY=VALUE` entry, split at its first `=`; an
/// entry without `=` has none.
pub open spec fn env_pair_of(entry: Seq<char>) -> Option<(Seq<char>, Seq<char>)> {
    match first_index_of(entry, '=') {
        Some(k) => Some((entry.subrange(0, k), entry.subrange(k + 1, entry.len() as int))),
        None => None,
    }
}

/// The position of the first `c` in `s`, if any.
pub open spec fn first_index_of(s: Seq<char>, c: char) -> Option<int> {
    if exists|k: int| 0 <= k < s.len() && s[k] == c {
        Some(choose|k: int| 0 <= k < s.len() && s[k] == c && forall|j: int| 0 <= j < k ==> s[j] != c)
    } else {
        None
    }
}

/// Splits a `KEY=VALUE` entry at its first `=`.
pub fn split_env_var(entry: &str) -> (r: Option<(String, String)>)
    ensures
        match env_pair_of(entry@) {
            Some((k, v)) => r matches Some((a, b)) && a@ == k && b@ == v,
            None => r is None,
        },
{
    let n = entry.unicode_len();
    let mut i: usize = 0;
    while i < n
        invariant
            n == entry@.len(),
            i <= n,
            forall|j: int| 0 <= j < i ==> entry@[j] != '=',
        decreases n - i,
    {
        if entry.get_char(i) == '=' {
            assert(forall|k: int|
                0 <= k < entry@.len() && entry@[k] == '=' && (forall|j: int| 0 <= j < k ==> entry@[j] != '=')
                    ==> k == i);
            let name = String::from_str(entry.substring_char(0, i));
            let value = String::from_str(entry.substring_char(i + 1, n));
            return Some((name, value));
        }
        i += 1;
    }
    None
}

/// The split form of each `KEY=VALUE` entry, in order, leaving out entries
/// without `=`.
pub open spec fn env_pairs_of(entries: Seq<String>) -> Seq<(Seq<char>, Seq<char>)>
    decreases entries.len(),
{
    if entries.len() == 0 {
        Seq::empty()
    } else {
        let rest = env_pairs_of(entries.drop_last());
        match env_pair_of(entries.last()@) {
            Some(p) => rest.push(p),
            None => rest,
        }
    }
}

/// The texts of a list of name and value pairs.
pub open spec fn pair_texts(v: Seq<(String, String)>) -> Seq<(Seq<char>, Seq<char>)> {
    v.map_values(|p: (String, String)| (p.0@, p.1@))
}

/// The environment of a guest (see `env_pairs_of`).
pub fn env_pairs(entries: &Vec<String>) -> (r: Vec<(String, String)>)
    ensures
        pair_texts(r@) == env_pairs_of(entries@),
{
    let mut out: Vec<(String, String)> = Vec::new();
    let mut i: usize = 0;
    while i < entries.len()
        invariant
            i <= entries@.len(),
            pair_texts(out@) == env_pairs_of(entries@.subrange(0, i as int)),
        decreases entries@.len() - i,
    {
        let ghost next = entries@.subrange(0, i + 1);
        assert(next.drop_last() =~= entries@.subrange(0, i as int));
        match split_env_var(entries[i].as_str()) {
            Some(pair) => {
                out.push(pair);
                assert(pair_texts(out@) =~= env_pairs_of(next));
            },
            None => {},
        }
        i += 1;
    }
    assert(entries@.subrange(0, entries@.len() as int) =~= entries@);
    out
}

/// The row that a create command writes for a fuel budget.
pub open spec fn create_row(c: CreateInstance, fuel: u64) -> CreateInstanceLog {
    CreateInstanceLog {
        agent_name: c.agent_name,
        agent_version: c.agent_version,
        task_id: c.task_id,
        task_name: c.task_name,
        state: InstanceState::Created,
        fuel_limit: fuel,
        fuel_consumed: 0,
    }
}

/// Whether the policy can be turned into engine limits.
pub open spec fn policy_translates(p: ExecutionPolicy) -> bool {
    fuel_of(p.compute) is Some && (p.ram matches Some(b) ==> b >= 0)
}

fn texts_of(v: &Vec<String>) -> (r: Vec<String>)
    ensures
        r@ == v@,
{
    let mut out: Vec<String> = Vec::new();
    let mut i: usize = 0;
    while i < v.len()
        invariant
            i <= v@.len(),
            out@ == v@.subrange(0, i as int),
        decreases v@.len() - i,
    {
        out.push(v[i].clone());
        i += 1;
        assert(out@ =~= v@.subrange(0, i as int));
    }
    assert(out@ =~= v@);
    out
}

/// The directory that an allowed-file entry grants (see `preopen_of`).
pub fn resolve_preopen(root: &Option<String>, entry: &str) -> (r: String)
    ensures
        r@ == preopen_of(
            match root {
                Some(s) => Some(s@),
                None => None,
            },
            entry@,
        ),
{
    match root {
        None => String::from_str(entry),
        Some(r) => {
            let n = entry.unicode_len();
            if n == 1 && entry.get_char(0) == '.' {
                proof {
                    reveal_strlit(".");
                }
                assert(entry@ =~= "."@);
                return r.clone();
            }
            proof {
                reveal_strlit(".");
            }
            if n > 0 && entry.get_char(0) == '/' {
                String::from_str(entry)
            } else {
                join(r.as_str(), entry)
            }
        },
    }
}

impl CreateInstance {
    /// A command for `policy` and guest arguments `args`, with a fresh task id.
    pub fn new(policy: ExecutionPolicy, args: Vec<String>) -> (r: Self)
        ensures
            r.policy == policy,
            r.args == args,
            r.task_id@.len() == TASK_ID_LEN,
            forall|i: int| 0 <= i < r.task_id@.len() ==> is_id_char(#[trigger] r.task_id@[i]),
            r.task_name@ == "default_task_name"@,
            r.agent_name@ == "default_agent"@,
            r.agent_version@ == "0.0.0"@,
            r.wasm_path@ == default_wasm_path(),
            r.project_root is None,
    {
        CreateInstance {
            policy,
            args,
            task_id: random_id(TASK_ID_LEN),
            task_name: String::from_str("default_task_name"),
            agent_name: String::from_str("default_agent"),
            agent_version: String::from_str("0.0.0"),
            wasm_path: String::from_str(".capsule/capsule.wasm"),
            project_root: None,
        }
    }

    pub fn task_name(self, task_name: &str) -> (r: Self)
        ensures
            r == (CreateInstance { task_name: r.task_name, ..self }),
            r.task_name@ == task_name@,
    {
        let mut c = self;
        c.task_name = String::from_str(task_name);
        c
    }

    pub fn agent_name(self, agent_name: &str) -> (r: Self)
        ensures
            r == (CreateInstance { agent_name: r.agent_name, ..self }),
            r.agent_name@ == agent_name@,
    {
        let mut c = self;
        c.agent_name = String::from_str(agent_name);
        c
    }

    pub fn agent_version(self, agent_version: &str) -> (r: Self)
        ensures
            r == (CreateInstance { agent_version: r.agent_version, ..self }),
            r.agent_version@ == agent_version@,
    {
        let mut c = self;
        c.agent_version = String::from_str(agent_version);
        c
    }

    pub fn wasm_path(self, wasm_path: &str) -> (r: Self)
        ensures
            r == (CreateInstance { wasm_path: r.wasm_path, ..self }),
            r.wasm_path@ == wasm_path@,
    {
        let mut c = self;
        c.wasm_path = String::from_str(wasm_path);
        c
    }

    pub fn project_root(self, project_root: &str) -> (r: Self)
        ensures
            r == (CreateInstance { project_root: r.project_root, ..self }),
            r.project_root matches Some(p) && p@ == project_root@,
    {
        let mut c = self;
        c.project_root = Some(String::from_str(project_root));
        c
    }

    /// Journals the task as created and says how to build its instance.
    ///
    /// A policy with no fuel budget or a negative memory ceiling is a
    /// configuration error, and nothing is written. Otherwise the row
    /// (state created, the policy's fuel as limit, nothing consumed) is
    /// committed; a journal failure is returned as such.
    pub fn begin(self, log: &mut Log) -> (r: Result<InstancePlan, WasmRuntimeError>)
        requires
            old(log).wf(),
        ensures
            final(log).wf(),
            !policy_translates(self.policy) ==> r is Err && r->Err_0 is ConfigError && final(log)@
                == old(log)@,
            policy_translates(self.policy) ==> {
                let fuel = fuel_of(self.policy.compute)->0;
                let row = create_row(self, fuel);
                &&& (r is Ok <==> commit_error(old(log)@, row) is None)
                &&& (commit_error(old(log)@, row) matches Some(e) ==> r == Err::<
                    InstancePlan,
                    WasmRuntimeError,
                >(WasmRuntimeError::LogError(e)) && final(log)@ == old(log)@)
                &&& (r matches Ok(plan) ==> {
                    &&& final(log)@.len() == old(log)@.len() + 1
                    &&& final(log)@.drop_last() == old(log)@
                    &&& row_from(final(log)@.last(), row)
                    &&& plan.task_id == self.task_id
                    &&& plan.fuel == fuel
                    &&& plan.memory_limit == (match self.policy.ram {
                        Some(b) => Some(b as u64),
                        None => None,
                    })
                    &&& plan.args@ == self.args@
                    &&& plan.env_vars@ == (match self.policy.env_vars {
                        Some(v) => v@,
                        None => Seq::empty(),
                    })
                    &&& plan.preopens@.len() == self.policy.allowed_files@.len()
                    &&& forall|i: int|
                        0 <= i < plan.preopens@.len() ==> (#[trigger] plan.preopens@[i])@
                            == preopen_of(
                            match self.project_root {
                                Some(s) => Some(s@),
                                None => None,
                            },
                            self.policy.allowed_files@[i]@,
                        )
                    &&& plan.wasm_path == self.wasm_path
                })
            },
    {
        let fuel = match self.policy.compute.as_fuel() {
            Some(f) => f,
            None => {
                return Err(WasmRuntimeError::ConfigError(String::from_str("invalid fuel budget")));
            },
        };
        let memory_limit = match self.policy.ram {
            Some(b) => if b < 0 {
                return Err(
                    WasmRuntimeError::ConfigError(String::from_str("negative memory ceiling")),
                );
            } else {
                Some(b as u64)
            },
            None => None,
        };
        let env_vars = match &self.policy.env_vars {
            Some(v) => texts_of(v),
            None => Vec::new(),
        };
        let mut preopens: Vec<String> = Vec::new();
        let files = &self.policy.allowed_files;
        let mut i: usize = 0;
        while i < files.len()
            invariant
                i <= files@.len(),
                preopens@.len() == i,
                forall|j: int|
                    0 <= j < i ==> (#[trigger] preopens@[j])@ == preopen_of(
                        match self.project_root {
                            Some(s) => Some(s@),
                            None => None,
                        },
                        files@[j]@,
                    ),
            decreases files@.len() - i,
        {
            preopens.push(resolve_preopen(&self.project_root, files[i].as_str()));
            i += 1;
        }
        let ghost row = create_row(self, fuel);
        let request = CreateInstanceLog {
            agent_name: self.agent_name,
            agent_version: self.agent_version,
            task_id: self.task_id.clone(),
            task_name: self.task_name,
            state: InstanceState::Created,
            fuel_limit: fuel,
            fuel_consumed: 0,
        };
        assert(request == row);
        match log.commit_log(request, |res: Result<(), LogError>| {}) {
            Ok(()) => {},
            Err(e) => {
                return Err(WasmRuntimeError::LogError(e));
            },
        }
        Ok(
            InstancePlan {
                task_id: self.task_id,
                fuel,
                memory_limit,
                args: self.args,
                env_vars,
                preopens,
                wasm_path: self.wasm_path,
            },
        )
    }
}

/// What the journal update of a failed instantiation turns into: the
/// journal's failure if it failed, else the engine's error.
pub open spec fn failure_result(update: Result<(), LogError>, error: String) -> WasmRuntimeError {
    match update {
        Err(e) => WasmRuntimeError::LogError(e),
        Ok(()) => WasmRuntimeError::WasmtimeError(error),
    }
}

/// Journals a failed instantiation of task `task_id` (state failed, no fuel
/// consumed) and gives the error to return.
pub fn instantiation_failed(task_id: &str, log: &mut Log, error: String) -> (r: WasmRuntimeError)
    requires
        old(log).wf(),
    ensures
        final(log).wf(),
        r == failure_result(
            update_result(old(log)@, task_id@, InstanceState::Failed, 0),
            error,
        ),
        update_effect(old(log)@, final(log)@, task_id@, InstanceState::Failed, 0),
{
    let upd = UpdateInstanceLog {
        task_id: String::from_str(task_id),
        state: InstanceState::Failed,
        fuel_consumed: 0,
    };
    match log.update_log(upd) {
        Ok(()) => WasmRuntimeError::WasmtimeError(error),
        Err(e) => WasmRuntimeError::LogError(e),
    }
}

/// Fuel consumed by a store that started with `limit` and has `remaining`
/// left, clamped to `[0, limit]`; an unreadable remainder counts as none left.
pub open spec fn consumed_of(limit: u64, remaining: Option<u64>) -> u64 {
    match remaining {
        None => limit,
        Some(left) => if left >= limit {
            0
        } else {
            (limit - left) as u64
        },
    }
}

/// Fuel consumed by a store (see `consumed_of`).
pub fn consumed_fuel(limit: u64, remaining: Option<u64>) -> (r: u64)
    ensures
        r == consumed_of(limit, remaining),
        r <= limit,
{
    match remaining {
        None => limit,
        Some(left) => if left >= limit {
            0
        } else {
            limit - left
        },
    }
}

/// The arguments document handed to a guest entry point.
pub open spec fn args_json_text(task_name: Seq<char>, args: Seq<char>) -> Seq<char> {
    "{\"task_name\":\""@ + task_name + "\",\"args\":"@ + args + ",\"kwargs\":{}}"@
}

/// Builds `{"task_name":"<name>","args":<args>,"kwargs":{}}`; `args` is
/// already a JSON array and is placed as it is.
pub fn task_args_json(task_name: &str, args: &str) -> (r: String)
    ensures
        r@ == args_json_text(task_name@, args@),
{
    let mut s = String::from_str("{\"task_name\":\"");
    s.append(task_name);
    s.append("\",\"args\":");
    s.append(args);
    s.append(",\"kwargs\":{}}");
    s
}

/// What `serde_json::to_string` gives for a list of strings: their JSON array.
pub uninterp spec fn json_array_text(items: Seq<Seq<char>>) -> Seq<char>;

#[verifier::external_type_specification]
#[verifier::external_body]
pub struct ExJsonError(serde_json::Error);

/// Relies on `serde_json::to_string` on a list of strings: on success, the
/// JSON array of the strings, a function of their characters alone.
#[verifier::external_body]
fn encode_string_array(items: &Vec<String>) -> (r: Result<String, serde_json::Error>)
    ensures
        r matches Ok(s) ==> s@ == json_array_text(texts(items@)),
{
    serde_json::to_string(items)
}

/// The arguments document for guest arguments given as strings: they are
/// encoded as a JSON array (see `task_args_json`). `None` when the encoder
/// fails.
pub fn entry_args_json(task_name: &str, args: &Vec<String>) -> (r: Option<String>)
    ensures
        r matches Some(s) ==> s@ == args_json_text(task_name@, json_array_text(texts(args@))),
{
    match encode_string_array(args) {
        Ok(array) => Some(task_args_json(task_name, array.as_str())),
        Err(_) => None,
    }
}

/// The result document of a task whose guest reported an error.
pub open spec fn error_json_text(message: Seq<char>) -> Seq<char> {
    "{\"error\":\""@ + message + "\"}"@
}

/// Builds `{"error":"<message>"}`.
pub fn guest_error_json(message: &str) -> (r: String)
    ensures
        r@ == error_json_text(message@),
{
    let mut s = String::from_str("{\"error\":\"");
    s.append(message);
    s.append("\"}");
    s
}

/// How a guest call ended.
#[derive(Debug, Clone)]
pub enum GuestOutcome {
    /// The guest returned this result document.
    Returned(String),
    /// The guest reported a task error with this message.
    Reported(String),
    /// The engine stopped the guest: a trap, fuel exhaustion or a memory
    /// limit, with the engine's message.
    Trapped(String),
    /// The run exceeded the policy's deadline and was dropped.
    TimedOut,
}

/// The state that a task's row takes for an outcome.
pub open spec fn outcome_state(o: GuestOutcome) -> InstanceState {
    match o {
        GuestOutcome::Returned(_) => InstanceState::Completed,
        GuestOutcome::Reported(_) => InstanceState::Failed,
        GuestOutcome::Trapped(_) => InstanceState::Failed,
        GuestOutcome::TimedOut => InstanceState::Interrupted,
    }
}

/// Whether `r` is what a run of task `task_id` returns for outcome `o`
/// once the journal has taken it.
pub open spec fn outcome_returns(task_id: Seq<char>, o: GuestOutcome, r: Result<String, WasmRuntimeError>) -> bool {
    match o {
        GuestOutcome::Returned(v) => r matches Ok(s) && s@ == v@,
        GuestOutcome::Reported(m) => r matches Ok(s) && s@ == error_json_text(m@),
        GuestOutcome::Trapped(e) => r == Err::<String, WasmRuntimeError>(
            WasmRuntimeError::WasmtimeError(e),
        ),
        GuestOutcome::TimedOut => r matches Err(WasmRuntimeError::Timeout(t)) && t@ == task_id,
    }
}

/// The command that runs a prepared instance and journals how it ended. The
/// store and the guest call belong to the engine; this command decides what
/// is written and returned around them.
#[derive(Debug, Clone)]
pub struct RunInstance {
    pub task_id: String,
    pub policy: ExecutionPolicy,
    pub args_json: String,
}

impl RunInstance {
    pub fn new(task_id: String, policy: ExecutionPolicy, args_json: String) -> (r: Self)
        ensures
            r.task_id == task_id,
            r.policy == policy,
            r.args_json == args_json,
    {
        RunInstance { task_id, policy, args_json }
    }

    /// Journals the task as running, with the fuel consumed so far.
    pub fn start(&self, log: &mut Log, remaining_fuel: Option<u64>) -> (r: Result<(), WasmRuntimeError>)
        requires
            old(log).wf(),
        ensures
            final(log).wf(),
            fuel_of(self.policy.compute) is None ==> r is Err && r->Err_0 is ConfigError && final(log)@
                == old(log)@,
            fuel_of(self.policy.compute) matches Some(limit) ==> update_effect(
                old(log)@,
                final(log)@,
                self.task_id@,
                InstanceState::Running,
                consumed_of(limit, remaining_fuel),
            ),
            fuel_of(self.policy.compute) matches Some(limit) ==> r == match update_result(
                old(log)@,
                self.task_id@,
                InstanceState::Running,
                consumed_of(limit, remaining_fuel),
            ) {
                Ok(()) => Ok(()),
                Err(e) => Err(WasmRuntimeError::LogError(e)),
            },
    {
        let limit = match self.policy.compute.as_fuel() {
            Some(f) => f,
            None => {
                return Err(WasmRuntimeError::ConfigError(String::from_str("invalid fuel budget")));
            },
        };
        let upd = UpdateInstanceLog {
            task_id: self.task_id.clone(),
            state: InstanceState::Running,
            fuel_consumed: consumed_fuel(limit, remaining_fuel),
        };
        match log.update_log(upd) {
            Ok(()) => Ok(()),
            Err(e) => Err(WasmRuntimeError::LogError(e)),
        }
    }

    /// Journals how the guest call ended and gives the command's result: the
    /// guest's document on success, `{"error":"..."}` for a reported task
    /// error, the engine's error for a trap, `Timeout` past the deadline. A
    /// failed journal write is returned in place of all of these.
    pub fn finish(&self, log: &mut Log, remaining_fuel: Option<u64>, outcome: GuestOutcome) -> (r: Result<String, WasmRuntimeError>)
        requires
            old(log).wf(),
        ensures
            final(log).wf(),
            fuel_of(self.policy.compute) is None ==> r is Err && r->Err_0 is ConfigError && final(log)@
                == old(log)@,
            fuel_of(self.policy.compute) matches Some(limit) ==> update_effect(
                old(log)@,
                final(log)@,
                self.task_id@,
                outcome_state(outcome),
                consumed_of(limit, remaining_fuel),
            ),
            fuel_of(self.policy.compute) matches Some(limit) ==> match update_result(
                old(log)@,
                self.task_id@,
                outcome_state(outcome),
                consumed_of(limit, remaining_fuel),
            ) {
                Err(e) => r == Err::<String, WasmRuntimeError>(WasmRuntimeError::LogError(e)),
                Ok(()) => outcome_returns(self.task_id@, outcome, r),
            },
    {
        let limit = match self.policy.compute.as_fuel() {
            Some(f) => f,
            None => {
                return Err(WasmRuntimeError::ConfigError(String::from_str("invalid fuel budget")));
            },
        };
        let state = match &outcome {
            GuestOutcome::Returned(_) => InstanceState::Completed,
            GuestOutcome::Reported(_) => InstanceState::Failed,
            GuestOutcome::Trapped(_) => InstanceState::Failed,
            GuestOutcome::TimedOut => InstanceState::Interrupted,
        };
        let upd = UpdateInstanceLog {
            task_id: self.task_id.clone(),
            state,
            fuel_consumed: consumed_fuel(limit, remaining_fuel),
        };
        match log.update_log(upd) {
            Ok(()) => {},
            Err(e) => {
                return Err(WasmRuntimeError::LogError(e));
            },
        }
        match outcome {
            GuestOutcome::Returned(v) => Ok(v),
            GuestOutcome::Reported(m) => Ok(guest_error_json(m.as_str())),
            GuestOutcome::Trapped(e) => Err(WasmRuntimeError::WasmtimeError(e)),
            GuestOutcome::TimedOut => Err(WasmRuntimeError::Timeout(self.task_id.clone())),
        }
    }
}

} // verus!
