//! The errors that the runtime's request and response handles report.

use vstd::prelude::*;

verus! {

/// Why a request or response operation was refused.
#[derive(Clone, Copy, Debug, PartialEq, Eq, Structural)]
pub enum RuntimeError {
    /// The request body was already read to its end and closed.
    RequestBodyFinished,
    /// The client request was already handed over to the body reader.
    RequestTaken,
    /// The response body is finished; nothing more can be sent.
    ResponseFinished,
    /// The response handle was asked for after it was handed over to the
    /// streaming body.
    ResponseUsed,
    /// The response handle was already handed over to the streaming body.
    ResponseTaken,
}

/// The message printed for each error.
pub open spec fn error_message(e: RuntimeError) -> Seq<char> {
    match e {
        RuntimeError::RequestBodyFinished => "response already finished"@,
        RuntimeError::RequestTaken => "fastly request handle taken"@,
        RuntimeError::ResponseFinished => "response already finished"@,
        RuntimeError::ResponseUsed => "Fastly Response Handle used"@,
        RuntimeError::ResponseTaken => "fastly response handle taken"@,
    }
}

impl RuntimeError {
    /// The message the runtime prints for this error.
    pub fn message(&self) -> (m: &'static str)
        ensures
            m@ == error_message(*self),
    {
        match self {
            RuntimeError::RequestBodyFinished => "response already finished",
            RuntimeError::RequestTaken => "fastly request handle taken",
            RuntimeError::ResponseFinished => "response already finished",
            RuntimeError::ResponseUsed => "Fastly Response Handle used",
            RuntimeError::ResponseTaken => "fastly response handle taken",
        }
    }
}

} // verus!
