use vstd::prelude::*;

verus! {

/// The kinds of failure that the library reports.
#[derive(Debug, Clone, Copy, PartialEq, Eq, Structural)]
pub enum ErrorCode {
    /// An internal failure, such as a malformed identifier.
    Internal,
    /// A single upload is larger than the configured limit.
    SingleUploadLimitExceeded,
}

/// An error with its kind and a human-readable message.
#[derive(Debug, Clone)]
pub struct FlowyError {
    pub code: ErrorCode,
    pub msg: String,
}

impl FlowyError {
    /// Creates an error of the given kind with the given message.
    pub fn new(code: ErrorCode, msg: &str) -> (r: FlowyError)
        ensures
            r.code == code,
            r.msg@ == msg@,
    {
        FlowyError { code, msg: msg.to_owned() }
    }
}

} // verus!
