//! The status codes with which a transport reports the end of a call.

use vstd::prelude::*;

verus! {

/// A gRPC status code.
///
/// The set is closed. A number that names none of them is read as
/// [`StatusCode::Unknown`], so a code that a later transport adds is never
/// mistaken for one that a retry policy lists.
#[derive(Clone, Copy, Debug, PartialEq, Eq, Hash, Structural)]
pub enum StatusCode {
    /// The call did not fail. A failure never carries this code; it is here so
    /// that every number of the transport has a name.
    Success,
    Cancelled,
    Unknown,
    InvalidArgument,
    DeadlineExceeded,
    NotFound,
    AlreadyExists,
    PermissionDenied,
    ResourceExhausted,
    FailedPrecondition,
    Aborted,
    OutOfRange,
    Unimplemented,
    Internal,
    Unavailable,
    DataLoss,
    Unauthenticated,
}

impl StatusCode {
    /// The number that stands for this code on the wire.
    pub open spec fn number(self) -> int {
        match self {
            StatusCode::Success => 0,
            StatusCode::Cancelled => 1,
            StatusCode::Unknown => 2,
            StatusCode::InvalidArgument => 3,
            StatusCode::DeadlineExceeded => 4,
            StatusCode::NotFound => 5,
            StatusCode::AlreadyExists => 6,
            StatusCode::PermissionDenied => 7,
            StatusCode::ResourceExhausted => 8,
            StatusCode::FailedPrecondition => 9,
            StatusCode::Aborted => 10,
            StatusCode::OutOfRange => 11,
            StatusCode::Unimplemented => 12,
            StatusCode::Internal => 13,
            StatusCode::Unavailable => 14,
            StatusCode::DataLoss => 15,
            StatusCode::Unauthenticated => 16,
        }
    }

    /// The code that a number stands for; `Unknown` where it stands for none.
    pub open spec fn of_number(n: int) -> StatusCode {
        if n == 0 {
            StatusCode::Success
        } else if n == 1 {
            StatusCode::Cancelled
        } else if n == 3 {
            StatusCode::InvalidArgument
        } else if n == 4 {
            StatusCode::DeadlineExceeded
        } else if n == 5 {
            StatusCode::NotFound
        } else if n == 6 {
            StatusCode::AlreadyExists
        } else if n == 7 {
            StatusCode::PermissionDenied
        } else if n == 8 {
            StatusCode::ResourceExhausted
        } else if n == 9 {
            StatusCode::FailedPrecondition
        } else if n == 10 {
            StatusCode::Aborted
        } else if n == 11 {
            StatusCode::OutOfRange
        } else if n == 12 {
            StatusCode::Unimplemented
        } else if n == 13 {
            StatusCode::Internal
        } else if n == 14 {
            StatusCode::Unavailable
        } else if n == 15 {
            StatusCode::DataLoss
        } else if n == 16 {
            StatusCode::Unauthenticated
        } else {
            StatusCode::Unknown
        }
    }

    /// The number that stands for this code on the wire.
    pub fn to_i32(self) -> (n: i32)
        ensures
            n == self.number(),
    {
        match self {
            StatusCode::Success => 0,
            StatusCode::Cancelled => 1,
            StatusCode::Unknown => 2,
            StatusCode::InvalidArgument => 3,
            StatusCode::DeadlineExceeded => 4,
            StatusCode::NotFound => 5,
            StatusCode::AlreadyExists => 6,
            StatusCode::PermissionDenied => 7,
            StatusCode::ResourceExhausted => 8,
            StatusCode::FailedPrecondition => 9,
            StatusCode::Aborted => 10,
            StatusCode::OutOfRange => 11,
            StatusCode::Unimplemented => 12,
            StatusCode::Internal => 13,
            StatusCode::Unavailable => 14,
            StatusCode::DataLoss => 15,
            StatusCode::Unauthenticated => 16,
        }
    }

    /// Reads a code from its number. Every number is read: one that no code
    /// has gives `Unknown`.
    pub fn from_i32(n: i32) -> (code: StatusCode)
        ensures
            code == StatusCode::of_number(n as int),
    {
        match n {
            0 => StatusCode::Success,
            1 => StatusCode::Cancelled,
            3 => StatusCode::InvalidArgument,
            4 => StatusCode::DeadlineExceeded,
            5 => StatusCode::NotFound,
            6 => StatusCode::AlreadyExists,
            7 => StatusCode::PermissionDenied,
            8 => StatusCode::ResourceExhausted,
            9 => StatusCode::FailedPrecondition,
            10 => StatusCode::Aborted,
            11 => StatusCode::OutOfRange,
            12 => StatusCode::Unimplemented,
            13 => StatusCode::Internal,
            14 => StatusCode::Unavailable,
            15 => StatusCode::DataLoss,
            16 => StatusCode::Unauthenticated,
            _ => StatusCode::Unknown,
        }
    }
}

/// Every code is read back from its own number.
pub proof fn lemma_number_round_trip(code: StatusCode)
    ensures
        0 <= code.number() <= 16,
        StatusCode::of_number(code.number()) == code,
{
}

} // verus!
