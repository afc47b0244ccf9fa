//! Call status: the code and the message with which a request is refused.

use vstd::prelude::*;

verus! {

/// gRPC status code of a refused request.
#[derive(Clone, Copy, PartialEq, Eq, Debug, Structural)]
pub enum Code {
    InvalidArgument,
    NotFound,
    AlreadyExists,
    PermissionDenied,
    ResourceExhausted,
    FailedPrecondition,
    OutOfRange,
    Unimplemented,
    Internal,
    Unavailable,
    Unauthenticated,
}

/// Why a request is refused.
#[derive(Debug)]
pub struct Status {
    pub code: Code,
    pub message: String,
}

impl View for Status {
    type V = (Code, Seq<char>);

    open spec fn view(&self) -> (Code, Seq<char>) {
        (self.code, self.message@)
    }
}

impl Clone for Status {
    fn clone(&self) -> (r: Self)
        ensures
            r == *self,
    {
        Status { code: self.code, message: self.message.clone() }
    }
}

impl Status {
    pub fn new(code: Code, message: &str) -> (r: Status)
        ensures
            r@ == (code, message@),
    {
        Status { code, message: message.to_owned() }
    }

    /// The status with a message that was put together.
    pub fn with_message(code: Code, message: String) -> (r: Status)
        ensures
            r.code == code,
            r.message == message,
    {
        Status { code, message }
    }

    pub fn invalid_argument(message: &str) -> (r: Status)
        ensures
            r@ == (Code::InvalidArgument, message@),
    {
        Status::new(Code::InvalidArgument, message)
    }

    pub fn not_found(message: &str) -> (r: Status)
        ensures
            r@ == (Code::NotFound, message@),
    {
        Status::new(Code::NotFound, message)
    }

    pub fn failed_precondition(message: &str) -> (r: Status)
        ensures
            r@ == (Code::FailedPrecondition, message@),
    {
        Status::new(Code::FailedPrecondition, message)
    }

    pub fn internal(message: &str) -> (r: Status)
        ensures
            r@ == (Code::Internal, message@),
    {
        Status::new(Code::Internal, message)
    }

    pub fn out_of_range(message: &str) -> (r: Status)
        ensures
            r@ == (Code::OutOfRange, message@),
    {
        Status::new(Code::OutOfRange, message)
    }

    pub fn permission_denied(message: &str) -> (r: Status)
        ensures
            r@ == (Code::PermissionDenied, message@),
    {
        Status::new(Code::PermissionDenied, message)
    }
}

} // verus!
