//! Command rejections: the status class, a stable code, a message and
//! named detail fields.

use vstd::prelude::*;

verus! {

/// Why a command was refused.
#[derive(Debug, Clone, Copy, PartialEq, Eq)]
pub enum ErrorStatus {
    /// The aggregate's state does not allow the command.
    PreconditionFailed,
    /// The command itself is malformed.
    InvalidArgument,
}

impl ErrorStatus {
    /// The wire name of the status.
    pub fn status_code(&self) -> (s: &'static str)
        ensures
            (*self == ErrorStatus::PreconditionFailed) ==> s@ == "FAILED_PRECONDITION"@,
            (*self == ErrorStatus::InvalidArgument) ==> s@ == "INVALID_ARGUMENT"@,
    {
        match self {
            ErrorStatus::PreconditionFailed => "FAILED_PRECONDITION",
            ErrorStatus::InvalidArgument => "INVALID_ARGUMENT",
        }
    }
}

/// A refused command.
#[derive(Debug, Clone, PartialEq, Eq)]
pub struct Rejection {
    /// Stable machine-readable code; empty for ad-hoc rejections.
    pub code: String,
    pub status: ErrorStatus,
    /// Human-readable message (the unrendered template for catalog errors).
    pub message: String,
    /// Named values that accompany the message.
    pub details: Vec<(String, String)>,
}

impl Rejection {
    /// The value of a named detail, when present.
    pub fn detail(&self, name: &str) -> (r: Option<String>)
        ensures
            r is Some ==> exists|i: int|
                0 <= i < self.details@.len() && self.details@[i].0@ == name@ && #[trigger] self.details@[i].1 == r->0,
            r is None ==> forall|i: int| 0 <= i < self.details@.len() ==> #[trigger] self.details@[i].0@ != name@,
    {
        let key = String::from_str(name);
        let mut i: usize = 0;
        while i < self.details.len()
            invariant
                i <= self.details@.len(),
                key@ == name@,
                forall|j: int| 0 <= j < i ==> #[trigger] self.details@[j].0@ != name@,
            decreases self.details@.len() - i,
        {
            if self.details[i].0 == key {
                return Some(self.details[i].1.clone());
            }
            i = i + 1;
        }
        None
    }
}

/// An ad-hoc rejection of a command the state does not allow.
pub fn rejected(message: &str) -> (r: Rejection)
    ensures
        r.status == ErrorStatus::PreconditionFailed,
        r.message@ == message@,
        r.code@.len() == 0,
        r.details@.len() == 0,
{
    Rejection {
        code: String::new(),
        status: ErrorStatus::PreconditionFailed,
        message: String::from_str(message),
        details: Vec::new(),
    }
}

/// An ad-hoc rejection of a malformed command.
pub fn invalid_arg(message: &str) -> (r: Rejection)
    ensures
        r.status == ErrorStatus::InvalidArgument,
        r.message@ == message@,
        r.code@.len() == 0,
        r.details@.len() == 0,
{
    Rejection {
        code: String::new(),
        status: ErrorStatus::InvalidArgument,
        message: String::from_str(message),
        details: Vec::new(),
    }
}

/// `r` is an error with the given status and message.
pub open spec fn refused<T>(r: Result<T, Rejection>, status: ErrorStatus, message: Seq<char>) -> bool {
    &&& r is Err
    &&& r->Err_0.status == status
    &&& r->Err_0.message@ == message
}

} // verus!
