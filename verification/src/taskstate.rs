//! Vocabulary of a possible inter-task message bus.
//!
//! The copy pipeline itself coordinates through the channel and the task
//! registry alone; these types name the message kinds, failure modes and
//! task states such a bus would use, as an extension point.

use vstd::prelude::*;

verus! {

/// What a bus message would be for.
#[derive(Debug, Clone, PartialEq, Eq)]
pub enum ItcMessageKind {
    /// A task asks another for something.
    Request,
    /// The answer to an earlier request.
    Response,
    /// A notification: checkpoint reached, error, task death.
    Notice,
    /// A control order: pause, stop, resume, reconfigure.
    Control,
    /// A free-form data message.
    Data,
}

/// Why delivering or handling one message failed.
#[derive(Debug, Clone, PartialEq, Eq)]
pub enum ItcMessageError {
    Unknown(String),
    Invalid(String),
    ActivelyDropped(String),
    Timeout(String),
    Unauthorized(String),
    Internal(String),
    Generic(String),
}

/// Why the bus itself refused an operation.
#[derive(Debug, Clone)]
pub enum ItcMessageBusError {
    Unknown(String),
    SpotTaken(String),
    Timeout(String),
    Unauthorized(String),
    Internal(String),
    Generic(String),
}

/// The richer task lifecycle such a bus would track.
#[derive(Debug, Clone)]
pub enum TaskState {
    /// Not initialized yet.
    Uninitialized,
    /// Cancelled before running.
    Cancelled,
    /// Initialized, pending start.
    Pending,
    /// Running.
    Running,
    /// Paused.
    Paused,
    /// Awaiting a resource or a signal.
    Awaiting,
    /// Completed successfully.
    Completed,
    /// Failed.
    Failed,
    /// Stopped abruptly.
    Stopped,
    /// Stopped abruptly, but the crash was caught.
    Crashed,
    /// A caller-defined state.
    Custom(String),
    /// Not known or never set.
    Unknown,
}

} // verus!
