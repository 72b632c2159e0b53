use vstd::prelude::*;

use crate::text::{chars_of, same_chars};

verus! {

/// Lifecycle state of one task instance.
#[derive(Debug, Clone, Copy, PartialEq, Eq, Structural)]
pub enum InstanceState {
    Created,
    Running,
    Completed,
    Failed,
    Interrupted,
}

/// The lowercase name under which a state is stored.
pub open spec fn state_text(s: InstanceState) -> Seq<char> {
    match s {
        InstanceState::Created => "created"@,
        InstanceState::Running => "running"@,
        InstanceState::Completed => "completed"@,
        InstanceState::Failed => "failed"@,
        InstanceState::Interrupted => "interrupted"@,
    }
}

/// The transitions that the journal accepts: a created task starts running,
/// or fails when it cannot be instantiated; a running task completes,
/// fails or is interrupted. Nothing leaves the last three.
pub open spec fn legal_transition(from: InstanceState, to: InstanceState) -> bool {
    match (from, to) {
        (InstanceState::Created, InstanceState::Running) => true,
        (InstanceState::Created, InstanceState::Failed) => true,
        (InstanceState::Running, InstanceState::Completed) => true,
        (InstanceState::Running, InstanceState::Failed) => true,
        (InstanceState::Running, InstanceState::Interrupted) => true,
        _ => false,
    }
}

impl InstanceState {
    /// The stored name of the state.
    pub fn to_string(&self) -> (r: String)
        ensures
            r@ == state_text(*self),
    {
        match self {
            InstanceState::Created => String::from_str("created"),
            InstanceState::Running => String::from_str("running"),
            InstanceState::Completed => String::from_str("completed"),
            InstanceState::Failed => String::from_str("failed"),
            InstanceState::Interrupted => String::from_str("interrupted"),
        }
    }

    /// The state stored under a name, `None` for a name of no state.
    pub fn from_text(text: &str) -> (r: Option<InstanceState>)
        ensures
            r matches Some(s) ==> state_text(s) == text@,
            r is None ==> forall|s: InstanceState| state_text(s) != text@,
    {
        let t = chars_of(text);
        if same_chars(t.as_slice(), chars_of("created").as_slice()) {
            Some(InstanceState::Created)
        } else if same_chars(t.as_slice(), chars_of("running").as_slice()) {
            Some(InstanceState::Running)
        } else if same_chars(t.as_slice(), chars_of("completed").as_slice()) {
            Some(InstanceState::Completed)
        } else if same_chars(t.as_slice(), chars_of("failed").as_slice()) {
            Some(InstanceState::Failed)
        } else if same_chars(t.as_slice(), chars_of("interrupted").as_slice()) {
            Some(InstanceState::Interrupted)
        } else {
            None
        }
    }

    /// Whether a task may go from this state to `to`.
    pub fn can_become(&self, to: InstanceState) -> (r: bool)
        ensures
            r == legal_transition(*self, to),
    {
        match (self, to) {
            (InstanceState::Created, InstanceState::Running) => true,
            (InstanceState::Created, InstanceState::Failed) => true,
            (InstanceState::Running, InstanceState::Completed) => true,
            (InstanceState::Running, InstanceState::Failed) => true,
            (InstanceState::Running, InstanceState::Interrupted) => true,
            _ => false,
        }
    }
}

/// No two states are stored under one name.
pub proof fn lemma_state_text_injective(a: InstanceState, b: InstanceState)
    ensures
        state_text(a) == state_text(b) ==> a == b,
{
    reveal_strlit("created");
    reveal_strlit("running");
    reveal_strlit("completed");
    reveal_strlit("failed");
    reveal_strlit("interrupted");
    if state_text(a) == state_text(b) && a != b {
        let x = state_text(a);
        let y = state_text(b);
        assert(x.len() == y.len());
        assert(x[0] == y[0]);
    }
}

/// Failures of the journal.
#[derive(Debug, Clone, PartialEq, Eq)]
pub enum LogError {
    /// The store beneath the journal failed.
    DatabaseError(String),
    /// The task id already has a row.
    DuplicateTask,
    /// The requested state does not follow from the row's state.
    IllegalTransition,
    /// Fuel consumed would exceed the limit or go down.
    FuelOutOfRange,
}

/// The text of a journal failure.
pub open spec fn log_error_text(e: LogError) -> Seq<char> {
    match e {
        LogError::DatabaseError(m) => "Log error > "@ + m@,
        LogError::DuplicateTask => "Log error > task already has a row"@,
        LogError::IllegalTransition => "Log error > illegal state transition"@,
        LogError::FuelOutOfRange => "Log error > fuel consumed out of range"@,
    }
}

impl LogError {
    /// The text of the failure.
    pub fn message(&self) -> (r: String)
        ensures
            r@ == log_error_text(*self),
    {
        match self {
            LogError::DatabaseError(m) => {
                let mut s = String::from_str("Log error > ");
                s.append(m.as_str());
                s
            },
            LogError::DuplicateTask => String::from_str("Log error > task already has a row"),
            LogError::IllegalTransition => String::from_str("Log error > illegal state transition"),
            LogError::FuelOutOfRange => String::from_str("Log error > fuel consumed out of range"),
        }
    }
}

/// One journal row.
#[derive(Debug, Clone)]
pub struct InstanceLog {
    pub id: u128,
    pub agent_name: String,
    pub agent_version: String,
    pub task_id: String,
    pub task_name: String,
    pub state: InstanceState,
    pub fuel_limit: u64,
    pub fuel_consumed: u64,
    pub created_at: i64,
    pub updated_at: i64,
}

impl InstanceLog {
    /// A row equal to this one in every field.
    pub fn duplicate(&self) -> (r: InstanceLog)
        ensures
            r == *self,
    {
        InstanceLog {
            id: self.id,
            agent_name: self.agent_name.clone(),
            agent_version: self.agent_version.clone(),
            task_id: self.task_id.clone(),
            task_name: self.task_name.clone(),
            state: self.state,
            fuel_limit: self.fuel_limit,
            fuel_consumed: self.fuel_consumed,
            created_at: self.created_at,
            updated_at: self.updated_at,
        }
    }
}

/// What a new row holds.
#[derive(Debug, Clone)]
pub struct CreateInstanceLog {
    pub agent_name: String,
    pub agent_version: String,
    pub task_id: String,
    pub task_name: String,
    pub state: InstanceState,
    pub fuel_limit: u64,
    pub fuel_consumed: u64,
}

/// A change of state and fuel for the row of a task.
#[derive(Debug, Clone)]
pub struct UpdateInstanceLog {
    pub task_id: String,
    pub state: InstanceState,
    pub fuel_consumed: u64,
}

/// Whether some row belongs to task `t`.
pub open spec fn has_task(rows: Seq<InstanceLog>, t: Seq<char>) -> bool {
    exists|i: int| 0 <= i < rows.len() && (#[trigger] rows[i]).task_id@ == t
}

/// The journal's invariant: one row per task id, and no row has consumed
/// more fuel than its limit.
pub open spec fn journal_ok(rows: Seq<InstanceLog>) -> bool {
    &&& forall|i: int, j: int|
        0 <= i < j < rows.len() ==> (#[trigger] rows[i]).task_id@ != (#[trigger] rows[j]).task_id@
    &&& forall|i: int| 0 <= i < rows.len() ==> (#[trigger] rows[i]).fuel_consumed <= rows[i].fuel_limit
}

/// The rows of task `t`, newest first.
pub open spec fn rows_for(rows: Seq<InstanceLog>, t: Seq<char>) -> Seq<InstanceLog>
    decreases rows.len(),
{
    if rows.len() == 0 {
        Seq::empty()
    } else {
        let rest = rows_for(rows.drop_last(), t);
        if rows.last().task_id@ == t {
            seq![rows.last()] + rest
        } else {
            rest
        }
    }
}

/// The rows that do not belong to task `t`, in their order.
pub open spec fn without_task(rows: Seq<InstanceLog>, t: Seq<char>) -> Seq<InstanceLog>
    decreases rows.len(),
{
    if rows.len() == 0 {
        Seq::empty()
    } else {
        let rest = without_task(rows.drop_last(), t);
        if rows.last().task_id@ != t {
            rest.push(rows.last())
        } else {
            rest
        }
    }
}

/// Whether `row` is the row that `log` asks for.
pub open spec fn row_from(row: InstanceLog, log: CreateInstanceLog) -> bool {
    &&& row.agent_name == log.agent_name
    &&& row.agent_version == log.agent_version
    &&& row.task_id == log.task_id
    &&& row.task_name == log.task_name
    &&& row.state == log.state
    &&& row.fuel_limit == log.fuel_limit
    &&& row.fuel_consumed == log.fuel_consumed
    &&& row.created_at == row.updated_at
}

/// The error that `commit_log` gives for `log`, if any.
pub open spec fn commit_error(rows: Seq<InstanceLog>, log: CreateInstanceLog) -> Option<LogError> {
    if has_task(rows, log.task_id@) {
        Some(LogError::DuplicateTask)
    } else if log.state != InstanceState::Created {
        Some(LogError::IllegalTransition)
    } else if log.fuel_consumed > log.fuel_limit {
        Some(LogError::FuelOutOfRange)
    } else {
        None
    }
}

/// The error that `update_log` gives for moving `row` to `state` with
/// `fuel` consumed, if any.
pub open spec fn update_error(row: InstanceLog, state: InstanceState, fuel: u64) -> Option<LogError> {
    if !legal_transition(row.state, state) {
        Some(LogError::IllegalTransition)
    } else if fuel < row.fuel_consumed || fuel > row.fuel_limit {
        Some(LogError::FuelOutOfRange)
    } else {
        None
    }
}

/// What `update_log` returns for moving task `t` to `state` with `fuel`
/// consumed, on a journal holding `rows`.
pub open spec fn update_result(rows: Seq<InstanceLog>, t: Seq<char>, state: InstanceState, fuel: u64) -> Result<(), LogError> {
    if has_task(rows, t) {
        let k = choose|k: int| 0 <= k < rows.len() && (#[trigger] rows[k]).task_id@ == t;
        match update_error(rows[k], state, fuel) {
            Some(e) => Err(e),
            None => Ok(()),
        }
    } else {
        Ok(())
    }
}

/// Whether `new` is `old` moved to `state` with `fuel` consumed, at a later
/// update time.
pub open spec fn row_updated(old: InstanceLog, new: InstanceLog, state: InstanceState, fuel: u64) -> bool {
    new == InstanceLog {
        state: state,
        fuel_consumed: fuel,
        updated_at: new.updated_at,
        ..old
    } && new.updated_at >= old.updated_at
}

/// What an update of task `t` to `state` with `fuel` consumed does to the
/// journal `old`, giving `new`: when the journal accepts it, the task's row
/// takes the new state and fuel (see `row_updated`) and every other row is
/// kept; when it refuses, or the task has no row, nothing changes.
pub open spec fn update_effect(
    old: Seq<InstanceLog>,
    new: Seq<InstanceLog>,
    t: Seq<char>,
    state: InstanceState,
    fuel: u64,
) -> bool {
    if has_task(old, t) && update_result(old, t, state, fuel) is Ok {
        &&& new.len() == old.len()
        &&& forall|k: int|
            0 <= k < old.len() ==> if (#[trigger] old[k]).task_id@ == t {
                row_updated(old[k], new[k], state, fuel)
            } else {
                new[k] == old[k]
            }
    } else {
        new == old
    }
}

/// Append-and-update journal of task lifecycles. Rows are kept in the order
/// of their creation; timestamps come from the journal's own clock, which
/// advances with every write.
pub struct Log {
    rows: Vec<InstanceLog>,
    clock: i64,
}

impl View for Log {
    type V = Seq<InstanceLog>;

    closed spec fn view(&self) -> Seq<InstanceLog> {
        self.rows@
    }
}

impl Log {
    /// The time of the latest write.
    pub closed spec fn clock(&self) -> i64 {
        self.clock
    }

    pub open spec fn wf(&self) -> bool {
        &&& journal_ok(self@)
        &&& forall|i: int|
            0 <= i < self@.len() ==> (#[trigger] self@[i]).created_at <= self@[i].updated_at
                <= self.clock()
    }

    /// An empty journal.
    pub fn new() -> (r: Log)
        ensures
            r@ == Seq::<InstanceLog>::empty(),
            r.wf(),
    {
        Log { rows: Vec::new(), clock: 0 }
    }

    fn tick(&mut self) -> (now: i64)
        ensures
            now == final(self).clock(),
            now >= old(self).clock(),
            final(self)@ == old(self)@,
    {
        if self.clock < i64::MAX {
            self.clock = self.clock + 1;
        }
        self.clock
    }

    fn find_task(&self, task_id: &String) -> (r: Option<usize>)
        ensures
            r matches Some(k) ==> k < self@.len() && self@[k as int].task_id@ == task_id@,
            r is None ==> !has_task(self@, task_id@),
    {
        let mut i: usize = 0;
        while i < self.rows.len()
            invariant
                i <= self.rows@.len(),
                forall|j: int| 0 <= j < i ==> (#[trigger] self.rows@[j]).task_id@ != task_id@,
            decreases self.rows@.len() - i,
        {
            if self.rows[i].task_id == *task_id {
                return Some(i);
            }
            i += 1;
        }
        None
    }

    /// Appends the row that `log` describes and hands the outcome to
    /// `on_commit` as well as returning it.
    pub fn commit_log<F: FnOnce(Result<(), LogError>)>(
        &mut self,
        log: CreateInstanceLog,
        on_commit: F,
    ) -> (r: Result<(), LogError>)
        requires
            old(self).wf(),
            forall|x: Result<(), LogError>| on_commit.requires((x,)),
        ensures
            final(self).wf(),
            r is Ok <==> commit_error(old(self)@, log) is None,
            r matches Err(e) ==> Some(e) == commit_error(old(self)@, log),
            r is Err ==> final(self)@ == old(self)@,
            r is Ok ==> final(self)@.len() == old(self)@.len() + 1
                && final(self)@.drop_last() == old(self)@
                && row_from(final(self)@.last(), log),
    {
        let res = self.insert_row(log);
        let told = match &res {
            Ok(()) => Ok(()),
            Err(e) => Err(e.clone()),
        };
        on_commit(told);
        res
    }

    fn insert_row(&mut self, log: CreateInstanceLog) -> (r: Result<(), LogError>)
        requires
            old(self).wf(),
        ensures
            final(self).wf(),
            r is Ok <==> commit_error(old(self)@, log) is None,
            r matches Err(e) ==> Some(e) == commit_error(old(self)@, log),
            r is Err ==> final(self)@ == old(self)@,
            r is Ok ==> final(self)@.len() == old(self)@.len() + 1
                && final(self)@.drop_last() == old(self)@
                && row_from(final(self)@.last(), log),
    {
        if self.find_task(&log.task_id).is_some() {
            return Err(LogError::DuplicateTask);
        }
        if log.state != InstanceState::Created {
            return Err(LogError::IllegalTransition);
        }
        if log.fuel_consumed > log.fuel_limit {
            return Err(LogError::FuelOutOfRange);
        }
        let now = self.tick();
        let row = InstanceLog {
            id: new_row_id(),
            agent_name: log.agent_name,
            agent_version: log.agent_version,
            task_id: log.task_id,
            task_name: log.task_name,
            state: log.state,
            fuel_limit: log.fuel_limit,
            fuel_consumed: log.fuel_consumed,
            created_at: now,
            updated_at: now,
        };
        let ghost before = self.rows@;
        self.rows.push(row);
        assert(self.rows@.drop_last() =~= before);
        Ok(())
    }

    /// Sets the state and fuel consumed of the row of `log.task_id`. A task
    /// with no row leaves the journal as it is.
    pub fn update_log(&mut self, log: UpdateInstanceLog) -> (r: Result<(), LogError>)
        requires
            old(self).wf(),
        ensures
            final(self).wf(),
            r == update_result(old(self)@, log.task_id@, log.state, log.fuel_consumed),
            update_effect(old(self)@, final(self)@, log.task_id@, log.state, log.fuel_consumed),
            !has_task(old(self)@, log.task_id@) ==> r is Ok && final(self)@ == old(self)@,
            forall|k: int|
                0 <= k < old(self)@.len() && (#[trigger] old(self)@[k]).task_id@ == log.task_id@
                    ==> {
                    &&& (r is Ok <==> update_error(old(self)@[k], log.state, log.fuel_consumed) is None)
                    &&& (r matches Err(e) ==> Some(e) == update_error(old(self)@[k], log.state, log.fuel_consumed))
                    &&& (r is Err ==> final(self)@ == old(self)@)
                    &&& (r is Ok ==> final(self)@.len() == old(self)@.len()
                        && row_updated(old(self)@[k], final(self)@[k], log.state, log.fuel_consumed)
                        && forall|j: int|
                        0 <= j < old(self)@.len() && j != k ==> final(self)@[j] == old(self)@[j])
                },
    {
        let k = match self.find_task(&log.task_id) {
            Some(k) => k,
            None => return Ok(()),
        };
        assert(forall|j: int|
            0 <= j < self@.len() && self@[j].task_id@ == log.task_id@ ==> j == k);
        if !self.rows[k].state.can_become(log.state) {
            return Err(LogError::IllegalTransition);
        }
        if log.fuel_consumed < self.rows[k].fuel_consumed || log.fuel_consumed > self.rows[k].fuel_limit {
            return Err(LogError::FuelOutOfRange);
        }
        let now = self.tick();
        let ghost before = self.rows@;
        let mut row = self.rows.remove(k);
        row.state = log.state;
        row.fuel_consumed = log.fuel_consumed;
        row.updated_at = now;
        self.rows.insert(k, row);
        assert(self.rows@ =~= before.update(k as int, self.rows@[k as int]));
        Ok(())
    }

    /// Every row, in order of creation.
    pub fn rows(&self) -> (r: Vec<InstanceLog>)
        ensures
            r@ == self@,
    {
        let mut out: Vec<InstanceLog> = Vec::new();
        let mut i: usize = 0;
        while i < self.rows.len()
            invariant
                i <= self.rows@.len(),
                out@ == self.rows@.subrange(0, i as int),
            decreases self.rows@.len() - i,
        {
            out.push(self.rows[i].duplicate());
            i += 1;
            assert(out@ =~= self.rows@.subrange(0, i as int));
        }
        assert(out@ =~= self.rows@);
        out
    }

    /// A journal holding `rows`, if they keep its invariant and no row was
    /// updated before it was created; its clock starts at the latest update.
    pub fn from_rows(rows: Vec<InstanceLog>) -> (r: Option<Log>)
        ensures
            r matches Some(l) ==> l@ == rows@ && l.wf(),
            r is None <==> !(journal_ok(rows@) && forall|i: int|
                0 <= i < rows@.len() ==> (#[trigger] rows@[i]).created_at <= rows@[i].updated_at),
    {
        let n = rows.len();
        let mut clock: i64 = 0;
        let mut i: usize = 0;
        while i < n
            invariant
                n == rows@.len(),
                i <= n,
                forall|a: int, b: int|
                    0 <= a < b < i ==> (#[trigger] rows@[a]).task_id@ != (#[trigger] rows@[b]).task_id@,
                forall|a: int|
                    0 <= a < i ==> (#[trigger] rows@[a]).fuel_consumed <= rows@[a].fuel_limit
                        && rows@[a].created_at <= rows@[a].updated_at && rows@[a].updated_at
                        <= clock,
            decreases n - i,
        {
            if rows[i].fuel_consumed > rows[i].fuel_limit || rows[i].created_at > rows[i].updated_at {
                return None;
            }
            let mut j: usize = 0;
            while j < i
                invariant
                    n == rows@.len(),
                    j <= i < n,
                    forall|b: int| 0 <= b < j ==> (#[trigger] rows@[b]).task_id@ != rows@[i as int].task_id@,
                decreases i - j,
            {
                if rows[j].task_id == rows[i].task_id {
                    assert(!journal_ok(rows@)) by {
                        assert(rows@[j as int].task_id@ == rows@[i as int].task_id@);
                    }
                    return None;
                }
                j += 1;
            }
            if rows[i].updated_at > clock {
                clock = rows[i].updated_at;
            }
            i += 1;
        }
        Some(Log { rows, clock })
    }

    /// All rows of a task, newest first.
    pub fn get_logs(&self, task_id: &str) -> (r: Result<Vec<InstanceLog>, LogError>)
        ensures
            r matches Ok(v) && v@ == rows_for(self@, task_id@),
    {
        let t = String::from_str(task_id);
        let mut out: Vec<InstanceLog> = Vec::new();
        let mut i: usize = 0;
        while i < self.rows.len()
            invariant
                i <= self.rows@.len(),
                t@ == task_id@,
                out@ == rows_for(self.rows@.subrange(0, i as int), task_id@),
            decreases self.rows@.len() - i,
        {
            let ghost next = self.rows@.subrange(0, i + 1);
            assert(next.drop_last() =~= self.rows@.subrange(0, i as int));
            if self.rows[i].task_id == t {
                let row = self.rows[i].duplicate();
                out.insert(0, row);
                assert(out@ =~= seq![next.last()] + rows_for(next.drop_last(), task_id@));
            }
            i += 1;
        }
        assert(self.rows@.subrange(0, self.rows@.len() as int) =~= self.rows@);
        Ok(out)
    }

    /// Removes every row of a task.
    pub fn delete_log(&mut self, task_id: &str) -> (r: Result<(), LogError>)
        requires
            old(self).wf(),
        ensures
            final(self).wf(),
            r is Ok,
            final(self)@ == without_task(old(self)@, task_id@),
    {
        let t = String::from_str(task_id);
        let ghost before = self.rows@;
        let mut kept: Vec<InstanceLog> = Vec::new();
        let mut i: usize = 0;
        while i < self.rows.len()
            invariant
                i <= self.rows@.len(),
                self.rows@ == before,
                t@ == task_id@,
                kept@ == without_task(before.subrange(0, i as int), task_id@),
            decreases self.rows@.len() - i,
        {
            let ghost next = before.subrange(0, i + 1);
            assert(next.drop_last() =~= before.subrange(0, i as int));
            if self.rows[i].task_id != t {
                kept.push(self.rows[i].duplicate());
            }
            i += 1;
        }
        assert(before.subrange(0, before.len() as int) =~= before);
        proof {
            lemma_without_task_ok(before, task_id@, self.clock);
        }
        self.rows = kept;
        Ok(())
    }
}

/// Every row of `without_task(rows, t)` is a row of `rows`.
proof fn lemma_without_task_sub(rows: Seq<InstanceLog>, t: Seq<char>)
    ensures
        forall|a: int|
            0 <= a < without_task(rows, t).len() ==> exists|j: int|
                0 <= j < rows.len() && rows[j] == #[trigger] without_task(rows, t)[a],
    decreases rows.len(),
{
    if rows.len() > 0 {
        let d = rows.drop_last();
        lemma_without_task_sub(d, t);
        let w = without_task(rows, t);
        assert forall|a: int| 0 <= a < w.len() implies exists|j: int|
            0 <= j < rows.len() && rows[j] == #[trigger] w[a] by {
            if a < without_task(d, t).len() {
                let j = choose|j: int| 0 <= j < d.len() && d[j] == without_task(d, t)[a];
                assert(rows[j] == w[a]);
            } else {
                assert(rows[rows.len() - 1] == w[a]);
            }
        }
    }
}

/// Dropping the rows of a task keeps the journal's invariant and its clock
/// bound.
proof fn lemma_without_task_ok(rows: Seq<InstanceLog>, t: Seq<char>, clock: i64)
    requires
        journal_ok(rows),
        forall|i: int|
            0 <= i < rows.len() ==> (#[trigger] rows[i]).created_at <= rows[i].updated_at <= clock,
    ensures
        journal_ok(without_task(rows, t)),
        forall|i: int|
            0 <= i < without_task(rows, t).len() ==> (#[trigger] without_task(rows, t)[i]).created_at
                <= without_task(rows, t)[i].updated_at <= clock,
    decreases rows.len(),
{
    if rows.len() > 0 {
        let d = rows.drop_last();
        assert(forall|i: int| 0 <= i < d.len() ==> d[i] == rows[i]);
        lemma_without_task_ok(d, t, clock);
        lemma_without_task_sub(d, t);
        let w = without_task(d, t);
        let last = rows.last();
        if last.task_id@ != t {
            let v = w.push(last);
            assert forall|i: int, j: int| 0 <= i < j < v.len() implies (#[trigger] v[i]).task_id@
                != (#[trigger] v[j]).task_id@ by {
                if j == v.len() - 1 {
                    let k = choose|k: int| 0 <= k < d.len() && d[k] == #[trigger] w[i];
                    assert(rows[k] == v[i]);
                    assert(rows[rows.len() - 1] == v[j]);
                } else {
                    assert(v[i] == w[i] && v[j] == w[j]);
                }
            }
        }
    }
}

/// An update that the journal accepts moves the task along its lifecycle
/// (created, then running, then completed, failed or interrupted; or from
/// created straight to failed when it cannot be instantiated), never lowers
/// the fuel consumed and never takes it past the limit.
pub proof fn lemma_accepted_update(
    rows: Seq<InstanceLog>,
    k: int,
    state: InstanceState,
    fuel: u64,
)
    requires
        journal_ok(rows),
        0 <= k < rows.len(),
        update_result(rows, rows[k].task_id@, state, fuel) is Ok,
    ensures
        legal_transition(rows[k].state, state),
        rows[k].fuel_consumed <= fuel <= rows[k].fuel_limit,
{
    let t = rows[k].task_id@;
    assert(has_task(rows, t));
    let j = choose|j: int| 0 <= j < rows.len() && (#[trigger] rows[j]).task_id@ == t;
    if j != k {
        if j < k {
            assert(rows[j].task_id@ != rows[k].task_id@);
        } else {
            assert(rows[k].task_id@ != rows[j].task_id@);
        }
    }
}

/// An accepted update keeps the journal's invariant.
pub proof fn lemma_update_keeps_journal(
    old: Seq<InstanceLog>,
    new: Seq<InstanceLog>,
    t: Seq<char>,
    state: InstanceState,
    fuel: u64,
)
    requires
        journal_ok(old),
        update_effect(old, new, t, state, fuel),
    ensures
        journal_ok(new),
        forall|k: int| 0 <= k < new.len() ==> (#[trigger] new[k]).task_id@ == old[k].task_id@,
{
    if has_task(old, t) && update_result(old, t, state, fuel) is Ok {
        assert forall|k: int| 0 <= k < new.len() implies (#[trigger] new[k]).task_id@ == old[k].task_id@
            && new[k].fuel_consumed <= new[k].fuel_limit by {
            if old[k].task_id@ == t {
                lemma_accepted_update(old, k, state, fuel);
            }
        }
        assert forall|i: int, j: int| 0 <= i < j < new.len() implies (#[trigger] new[i]).task_id@
            != (#[trigger] new[j]).task_id@ by {
            assert(old[i].task_id@ != old[j].task_id@);
            assert(new[i].task_id@ == old[i].task_id@);
            assert(new[j].task_id@ == old[j].task_id@);
        }
    }
}

/// A run of a created task: the journal accepts Running, then a final
/// state. The final state is one of completed, failed or interrupted; the
/// task's row holds it with the last fuel figure; fuel consumed never goes
/// down along the way and stays within the limit; every other row is kept.
pub proof fn lemma_run_lifecycle(
    j0: Seq<InstanceLog>,
    j1: Seq<InstanceLog>,
    j2: Seq<InstanceLog>,
    k: int,
    running_fuel: u64,
    last: InstanceState,
    last_fuel: u64,
)
    requires
        journal_ok(j0),
        0 <= k < j0.len(),
        j0[k].state == InstanceState::Created,
        update_effect(j0, j1, j0[k].task_id@, InstanceState::Running, running_fuel),
        update_result(j0, j0[k].task_id@, InstanceState::Running, running_fuel) is Ok,
        update_effect(j1, j2, j0[k].task_id@, last, last_fuel),
        update_result(j1, j0[k].task_id@, last, last_fuel) is Ok,
    ensures
        last == InstanceState::Completed || last == InstanceState::Failed || last
            == InstanceState::Interrupted,
        j2.len() == j0.len(),
        j2[k].state == last,
        j2[k].fuel_consumed == last_fuel,
        j0[k].fuel_consumed <= running_fuel <= last_fuel <= j0[k].fuel_limit,
        j2[k].fuel_limit == j0[k].fuel_limit,
        forall|i: int| 0 <= i < j0.len() && i != k ==> #[trigger] j2[i] == j0[i],
{
    let t = j0[k].task_id@;
    assert(has_task(j0, t));
    lemma_accepted_update(j0, k, InstanceState::Running, running_fuel);
    lemma_update_keeps_journal(j0, j1, t, InstanceState::Running, running_fuel);
    assert(j1[k].task_id@ == t);
    assert(has_task(j1, t));
    lemma_accepted_update(j1, k, last, last_fuel);
    assert forall|i: int| 0 <= i < j0.len() && i != k implies #[trigger] j2[i] == j0[i] by {
        if j0[i].task_id@ == t {
            if i < k {
                assert(j0[i].task_id@ != j0[k].task_id@);
            } else {
                assert(j0[k].task_id@ != j0[i].task_id@);
            }
        }
        assert(j1[i] == j0[i]);
    }
}

/// After the rows of task `t` are deleted, `t` has no rows left and every
/// other task has exactly the rows it had.
pub proof fn lemma_delete_isolated(rows: Seq<InstanceLog>, t: Seq<char>, other: Seq<char>)
    ensures
        rows_for(without_task(rows, t), t) == Seq::<InstanceLog>::empty(),
        other != t ==> rows_for(without_task(rows, t), other) == rows_for(rows, other),
    decreases rows.len(),
{
    if rows.len() > 0 {
        let d = rows.drop_last();
        lemma_delete_isolated(d, t, other);
        let w = without_task(d, t);
        if rows.last().task_id@ != t {
            assert(w.push(rows.last()).drop_last() =~= w);
        }
    }
}

/// Relies on `uuid::Uuid::new_v4`: a random identifier for a row, read as
/// its 128-bit value. Nothing is promised of the value.
#[verifier::external_body]
fn new_row_id() -> u128 {
    uuid::Uuid::new_v4().as_u128()
}

} // verus!
