//! The failure a protocol method reports to its peer.

use vstd::prelude::*;

verus! {

/// The standard RPC status codes that stand for a failure.
#[derive(Clone, Copy, Debug, PartialEq, Eq, Structural)]
pub enum Code {
    Cancelled,
    Unknown,
    InvalidArgument,
    DeadlineExceeded,
    NotFound,
    AlreadyExists,
    PermissionDenied,
    ResourceExhausted,
    FailedPrecondition,
    Aborted,
    OutOfRange,
    Unimplemented,
    Internal,
    Unavailable,
    DataLoss,
    Unauthenticated,
}

/// A status code with a message for the peer.
#[derive(Debug, PartialEq, Eq)]
pub struct Status {
    pub code: Code,
    pub message: String,
}

impl Clone for Status {
    fn clone(&self) -> (copy: Self)
        ensures
            copy == *self,
    {
        Status { code: self.code, message: self.message.clone() }
    }
}

impl Status {
    /// A status with the given code and message.
    pub fn new(code: Code, message: &str) -> (status: Status)
        ensures
            status.code == code,
            status.message@ == message@,
    {
        Status { code, message: message.to_owned() }
    }

    /// The cause is not known.
    pub fn unknown(message: &str) -> (status: Status)
        ensures
            status.code == Code::Unknown,
            status.message@ == message@,
    {
        Status::new(Code::Unknown, message)
    }

    /// The operation cannot be served now, as when the node's devices cannot
    /// be read.
    pub fn unavailable(message: &str) -> (status: Status)
        ensures
            status.code == Code::Unavailable,
            status.message@ == message@,
    {
        Status::new(Code::Unavailable, message)
    }

    /// The plugin does not offer the operation.
    pub fn unimplemented(message: &str) -> (status: Status)
        ensures
            status.code == Code::Unimplemented,
            status.message@ == message@,
    {
        Status::new(Code::Unimplemented, message)
    }
}

} // verus!
