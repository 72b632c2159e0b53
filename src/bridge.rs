use vstd::prelude::*;

use crate::runtime::{WasmRuntimeError, runtime_error_text};

verus! {

/// Guest-visible failure of a nested task.
#[derive(Debug, Clone, PartialEq, Eq)]
pub enum TaskError {
    InternalError(String),
}

/// What the engine reports after one step of a nested attempt.
#[derive(Debug, Clone)]
pub enum TaskEvent {
    /// The create command failed.
    CreateFailed(WasmRuntimeError),
    /// The run command returned this output.
    RunSucceeded(String),
    /// The run command failed.
    RunFailed(WasmRuntimeError),
}

/// What the engine is to do next for a nested task.
#[derive(Debug)]
pub enum RetryStep {
    /// Create and run one more instance.
    Attempt,
    /// Hand this result back to the guest.
    Done(Result<String, TaskError>),
}

/// The text of the last failure, or the fallback when no attempt was made.
pub open spec fn final_error_text(last_error: Option<Seq<char>>) -> Seq<char> {
    match last_error {
        Some(m) => m,
        None => "Unknown error after retries"@,
    }
}

/// The text recorded for a failure event.
pub open spec fn event_error_text(ev: TaskEvent) -> Seq<char> {
    match ev {
        TaskEvent::CreateFailed(e) => "Failed to create instance: "@ + runtime_error_text(e),
        TaskEvent::RunFailed(e) => "Failed to run instance: "@ + runtime_error_text(e),
        TaskEvent::RunSucceeded(_) => Seq::empty(),
    }
}

/// The retry decisions of a nested `schedule_task`: attempts `0..=max_retries`
/// are made until one run succeeds; after the last failure the guest gets
/// the last error. Every failure, of creation or of a run, counts as an
/// attempt.
#[derive(Debug, Clone)]
pub struct RetryLoop {
    attempts: u64,
    max_retries: i64,
    last_error: Option<String>,
}

impl RetryLoop {
    /// Attempts that ended in failure so far.
    pub closed spec fn attempts(&self) -> nat {
        self.attempts as nat
    }

    pub closed spec fn max_retries(&self) -> int {
        self.max_retries as int
    }

    pub closed spec fn last_error(&self) -> Option<Seq<char>> {
        match self.last_error {
            Some(m) => Some(m@),
            None => None,
        }
    }

    /// Whether one more attempt is owed.
    pub open spec fn owes_attempt(&self) -> bool {
        self.attempts() <= self.max_retries()
    }

    pub closed spec fn wf(&self) -> bool {
        self.attempts as int <= if self.max_retries < 0 {
            0
        } else {
            self.max_retries + 1
        }
    }

    /// A loop that has made no attempt.
    pub fn new(max_retries: i64) -> (r: Self)
        ensures
            r.wf(),
            r.attempts() == 0,
            r.max_retries() == max_retries,
            r.last_error() is None,
    {
        RetryLoop { attempts: 0, max_retries, last_error: None }
    }

    /// The next step: another attempt while one is owed, else the last error.
    pub fn next_step(&self) -> (r: RetryStep)
        requires
            self.wf(),
        ensures
            self.owes_attempt() ==> r is Attempt,
            !self.owes_attempt() ==> (r matches RetryStep::Done(Err(TaskError::InternalError(m)))
                && m@ == final_error_text(self.last_error())),
    {
        if (self.attempts as i128) <= (self.max_retries as i128) {
            RetryStep::Attempt
        } else {
            let m = match &self.last_error {
                Some(m) => m.clone(),
                None => String::from_str("Unknown error after retries"),
            };
            RetryStep::Done(Err(TaskError::InternalError(m)))
        }
    }

    /// Takes the event of the attempt in progress and gives the next step.
    /// A successful run ends the loop with its output. A failure is
    /// recorded as the last error and counts as an attempt. With no attempt
    /// owed the event is ignored.
    pub fn on_event(&mut self, event: TaskEvent) -> (r: RetryStep)
        requires
            old(self).wf(),
        ensures
            final(self).wf(),
            final(self).max_retries() == old(self).max_retries(),
            !old(self).owes_attempt() ==> *final(self) == *old(self) && (r matches RetryStep::Done(
                Err(TaskError::InternalError(m)),
            ) && m@ == final_error_text(old(self).last_error())),
            old(self).owes_attempt() ==> match event {
                TaskEvent::RunSucceeded(out) => r matches RetryStep::Done(Ok(v)) && v == out
                    && *final(self) == *old(self),
                _ => {
                    &&& final(self).attempts() == old(self).attempts() + 1
                    &&& final(self).last_error() == Some(event_error_text(event))
                    &&& final(self).owes_attempt() ==> r is Attempt
                    &&& !final(self).owes_attempt() ==> (r matches RetryStep::Done(
                        Err(TaskError::InternalError(m)),
                    ) && m@ == event_error_text(event))
                },
            },
    {
        if (self.attempts as i128) > (self.max_retries as i128) {
            return self.next_step();
        }
        let text = match event {
            TaskEvent::RunSucceeded(out) => {
                return RetryStep::Done(Ok(out));
            },
            TaskEvent::CreateFailed(e) => {
                let mut s = String::from_str("Failed to create instance: ");
                let m = e.message();
                s.append(m.as_str());
                s
            },
            TaskEvent::RunFailed(e) => {
                let mut s = String::from_str("Failed to run instance: ");
                let m = e.message();
                s.append(m.as_str());
                s
            },
        };
        self.attempts = self.attempts + 1;
        self.last_error = Some(text);
        self.next_step()
    }
}

} // verus!
