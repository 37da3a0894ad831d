//! Lifecycle record of one pipeline stage.
//!
//! A task starts `Pending`, becomes `Running`, and ends in exactly one
//! terminal state, `Completed` or `Failed`.  Once terminal, a record never
//! changes again: every mutator below leaves a terminal record untouched.
//! The derived `worktime` always equals the span from `started_at` to
//! `completed_at` (or, before completion, to `last_updated_at`).
//!
//! Each stamping operation comes in two layers: a `..._at` function takes a
//! clock reading as an argument and pins every stamp exactly, and the plain
//! function feeds it the wall clock, of whose value nothing can be said.

use vstd::prelude::*;
use crate::clock::{clock_now_nanos, stamp_or};

verus! {

/// The terminal payload: a return code and a short description.
#[derive(Debug, Clone)]
pub struct TaskStatusMessage {
    pub code: i64,
    pub message: String,
}

/// The stage lifecycle state machine.
#[derive(Debug, Clone)]
pub enum TaskStatus {
    Pending,
    Running,
    Completed(TaskStatusMessage),
    Failed(TaskStatusMessage),
}

impl TaskStatus {
    /// A status is terminal when the stage has stopped for good.
    pub open spec fn spec_is_terminal(&self) -> bool {
        self is Completed || self is Failed
    }

    /// Run-time test of the same predicate.
    #[verifier::when_used_as_spec(spec_is_terminal)]
    pub fn is_terminal(&self) -> (r: bool)
        ensures
            r == self.spec_is_terminal(),
    {
        match self {
            TaskStatus::Completed(_) => true,
            TaskStatus::Failed(_) => true,
            TaskStatus::Pending => false,
            TaskStatus::Running => false,
        }
    }
}

/// One stage's lifecycle record.
#[derive(Debug, Clone)]
pub struct Task {
    pub status: TaskStatus,
    pub started_at: i64,
    pub completed_at: Option<i64>,
    pub worktime: i128,
    pub last_updated_at: i64,
    pub return_code: i32,
}

/// The record's standing invariant: `worktime` is the span from the start to
/// the completion stamp, or to the latest liveness stamp while the stage is
/// still going.
pub open spec fn worktime_derived(t: Task) -> bool {
    t.worktime == (match t.completed_at {
        Some(c) => c as int,
        None => t.last_updated_at as int,
    }) - t.started_at
}

impl Task {
    /// A fresh record in `Pending`, with both stamps equal to the given
    /// clock reading (or zero when the clock could not be read).
    pub fn new_at(reading: Option<i64>) -> (r: Self)
        ensures
            r.status is Pending,
            r.completed_at is None,
            r.worktime == 0,
            r.return_code == 0,
            r.started_at == stamp_or(reading, 0),
            r.last_updated_at == r.started_at,
            worktime_derived(r),
    {
        let now: i64 = match reading {
            Some(n) => n,
            None => 0,
        };
        Task {
            status: TaskStatus::Pending,
            started_at: now,
            completed_at: None,
            worktime: 0,
            last_updated_at: now,
            return_code: 0,
        }
    }

    /// A fresh record in `Pending`, stamped with one wall-clock reading.
    pub fn new() -> (r: Self)
        ensures
            r.status is Pending,
            r.completed_at is None,
            r.worktime == 0,
            r.return_code == 0,
            r.started_at == r.last_updated_at,
            worktime_derived(r),
    {
        Task::new_at(clock_now_nanos())
    }

    /// Moves the liveness stamp to the given clock reading (an unreadable
    /// clock leaves it in place) and recomputes the work time.
    pub fn ping_at(&mut self, reading: Option<i64>)
        ensures
            final(self).status == old(self).status,
            final(self).started_at == old(self).started_at,
            final(self).completed_at == old(self).completed_at,
            final(self).return_code == old(self).return_code,
            final(self).last_updated_at == stamp_or(reading, old(self).last_updated_at),
            worktime_derived(*final(self)),
    {
        match reading {
            Some(n) => self.last_updated_at = n,
            None => {},
        }
        self.update_worktime();
    }

    /// Refreshes the liveness stamp from the wall clock and recomputes the
    /// work time.
    pub fn ping(&mut self)
        ensures
            final(self).status == old(self).status,
            final(self).started_at == old(self).started_at,
            final(self).completed_at == old(self).completed_at,
            final(self).return_code == old(self).return_code,
            worktime_derived(*final(self)),
    {
        self.ping_at(clock_now_nanos());
    }

    /// Recomputes `worktime` from the current stamps.
    pub fn update_worktime(&mut self)
        ensures
            final(self).status == old(self).status,
            final(self).started_at == old(self).started_at,
            final(self).completed_at == old(self).completed_at,
            final(self).last_updated_at == old(self).last_updated_at,
            final(self).return_code == old(self).return_code,
            worktime_derived(*final(self)),
    {
        match self.completed_at {
            Some(c) => self.worktime = (c as i128) - (self.started_at as i128),
            None => self.worktime = (self.last_updated_at as i128) - (self.started_at as i128),
        }
    }

    /// Moves a non-terminal record to `status`; a terminal record is left
    /// untouched.
    pub fn change_state(&mut self, status: TaskStatus)
        ensures
            old(self).status.is_terminal() ==> *final(self) == *old(self),
            !old(self).status.is_terminal() ==> {
                &&& final(self).status == status
                &&& final(self).started_at == old(self).started_at
                &&& final(self).completed_at == old(self).completed_at
                &&& final(self).return_code == old(self).return_code
                &&& worktime_derived(*final(self))
            },
    {
        if !self.status.is_terminal() {
            self.ping();
            self.update_worktime();
            self.status = status;
        }
    }

    /// Ends a non-terminal record in `Completed`, stamping completion and
    /// liveness with the given clock reading (an unreadable clock reuses
    /// the latest liveness stamp); a terminal record is left untouched.
    pub fn complete_at(&mut self, return_code: i64, reading: Option<i64>)
        ensures
            old(self).status.is_terminal() ==> *final(self) == *old(self),
            !old(self).status.is_terminal() ==> {
                &&& final(self).status matches TaskStatus::Completed(m)
                    && m.code == return_code
                    && m.message@ == "Task completed successfully"@
                &&& final(self).completed_at == Some(
                    stamp_or(reading, old(self).last_updated_at),
                )
                &&& final(self).last_updated_at == stamp_or(reading, old(self).last_updated_at)
                &&& final(self).started_at == old(self).started_at
                &&& final(self).return_code == old(self).return_code
                &&& worktime_derived(*final(self))
            },
    {
        if !self.status.is_terminal() {
            self.completed_at = Some(match reading {
                Some(n) => n,
                None => self.last_updated_at,
            });
            self.ping_at(reading);
            self.status = TaskStatus::Completed(TaskStatusMessage {
                code: return_code,
                message: "Task completed successfully".to_owned(),
            });
        }
    }

    /// Ends a non-terminal record in `Completed` with the given return
    /// code, stamped from the wall clock; a terminal record is left
    /// untouched.
    pub fn complete(&mut self, return_code: i64)
        ensures
            old(self).status.is_terminal() ==> *final(self) == *old(self),
            !old(self).status.is_terminal() ==> {
                &&& final(self).status matches TaskStatus::Completed(m)
                    && m.code == return_code
                    && m.message@ == "Task completed successfully"@
                &&& final(self).completed_at is Some
                &&& final(self).started_at == old(self).started_at
                &&& final(self).return_code == old(self).return_code
                &&& worktime_derived(*final(self))
            },
    {
        self.complete_at(return_code, clock_now_nanos());
    }

    /// Ends a non-terminal record in `Failed`, stamping completion and
    /// liveness with the given clock reading (an unreadable clock reuses
    /// the latest liveness stamp); a terminal record is left untouched.
    pub fn fail_at(&mut self, return_code: i64, reading: Option<i64>)
        ensures
            old(self).status.is_terminal() ==> *final(self) == *old(self),
            !old(self).status.is_terminal() ==> {
                &&& final(self).status matches TaskStatus::Failed(m)
                    && m.code == return_code
                    && m.message@ == "Task failed"@
                &&& final(self).completed_at == Some(
                    stamp_or(reading, old(self).last_updated_at),
                )
                &&& final(self).last_updated_at == stamp_or(reading, old(self).last_updated_at)
                &&& final(self).started_at == old(self).started_at
                &&& final(self).return_code == old(self).return_code
                &&& worktime_derived(*final(self))
            },
    {
        if !self.status.is_terminal() {
            self.completed_at = Some(match reading {
                Some(n) => n,
                None => self.last_updated_at,
            });
            self.ping_at(reading);
            self.status = TaskStatus::Failed(TaskStatusMessage {
                code: return_code,
                message: "Task failed".to_owned(),
            });
        }
    }

    /// Ends a non-terminal record in `Failed` with the given return code,
    /// stamped from the wall clock; a terminal record is left untouched.
    pub fn fail(&mut self, return_code: i64)
        ensures
            old(self).status.is_terminal() ==> *final(self) == *old(self),
            !old(self).status.is_terminal() ==> {
                &&& final(self).status matches TaskStatus::Failed(m)
                    && m.code == return_code
                    && m.message@ == "Task failed"@
                &&& final(self).completed_at is Some
                &&& final(self).started_at == old(self).started_at
                &&& final(self).return_code == old(self).return_code
                &&& worktime_derived(*final(self))
            },
    {
        self.fail_at(return_code, clock_now_nanos());
    }
}

} // verus!
