//! The outcome code that every transport operation reports.

use vstd::prelude::*;

verus! {

/// The code with which the service reports that an operation succeeded.
pub const CODE_SUCCESS: u32 = 0;

/// The code with which the service reports that no message is waiting.
pub const CODE_NO_MESSAGE: u32 = 1;

/// The code with which the service reports that the destination buffer cannot
/// hold the message at the head of the queue.
pub const CODE_BUFFER_TOO_SMALL: u32 = 2;

/// The code with which the service reports that the session is not connected.
pub const CODE_SERVICE_UNAVAILABLE: u32 = 3;

/// The code with which the service reports that a call's arguments were
/// malformed.
pub const CODE_INVALID_ARGUMENT: u32 = 4;

/// Outcome of a transport operation, as reported by the service.
///
/// The set of codes belongs to the service. A code that is not one of the known
/// five is kept as it came, in `Unrecognized`.
#[derive(Clone, Copy, Debug, PartialEq, Eq, Structural)]
pub enum OperationResult {
    /// The operation did what was asked.
    Success,
    /// The receive queue is empty.
    NoMessage,
    /// The destination buffer is smaller than the waiting message.
    BufferTooSmall,
    /// The session behind the channel is not connected.
    ServiceUnavailable,
    /// The service rejected the call's arguments.
    InvalidArgument,
    /// A code outside the known set, unchanged.
    Unrecognized(u32),
}

impl OperationResult {
    /// The outcome that a raw code stands for.
    pub open spec fn from_code_spec(code: u32) -> OperationResult {
        if code == CODE_SUCCESS {
            OperationResult::Success
        } else if code == CODE_NO_MESSAGE {
            OperationResult::NoMessage
        } else if code == CODE_BUFFER_TOO_SMALL {
            OperationResult::BufferTooSmall
        } else if code == CODE_SERVICE_UNAVAILABLE {
            OperationResult::ServiceUnavailable
        } else if code == CODE_INVALID_ARGUMENT {
            OperationResult::InvalidArgument
        } else {
            OperationResult::Unrecognized(code)
        }
    }

    /// The raw code of an outcome.
    pub open spec fn code_spec(self) -> u32 {
        match self {
            OperationResult::Success => CODE_SUCCESS,
            OperationResult::NoMessage => CODE_NO_MESSAGE,
            OperationResult::BufferTooSmall => CODE_BUFFER_TOO_SMALL,
            OperationResult::ServiceUnavailable => CODE_SERVICE_UNAVAILABLE,
            OperationResult::InvalidArgument => CODE_INVALID_ARGUMENT,
            OperationResult::Unrecognized(code) => code,
        }
    }

    /// An outcome is canonical when it is the one its own code decodes to:
    /// `Unrecognized` never hides a known code.
    pub open spec fn is_canonical(self) -> bool {
        Self::from_code_spec(self.code_spec()) == self
    }

    /// Decodes a raw code. Every `u32` has an outcome; none is collapsed into
    /// another.
    pub fn from_code(code: u32) -> (r: OperationResult)
        ensures
            r == Self::from_code_spec(code),
            r.code_spec() == code,
            r.is_canonical(),
    {
        if code == CODE_SUCCESS {
            OperationResult::Success
        } else if code == CODE_NO_MESSAGE {
            OperationResult::NoMessage
        } else if code == CODE_BUFFER_TOO_SMALL {
            OperationResult::BufferTooSmall
        } else if code == CODE_SERVICE_UNAVAILABLE {
            OperationResult::ServiceUnavailable
        } else if code == CODE_INVALID_ARGUMENT {
            OperationResult::InvalidArgument
        } else {
            OperationResult::Unrecognized(code)
        }
    }

    /// The raw code of this outcome.
    pub fn code(&self) -> (c: u32)
        ensures
            c == self.code_spec(),
    {
        match self {
            OperationResult::Success => CODE_SUCCESS,
            OperationResult::NoMessage => CODE_NO_MESSAGE,
            OperationResult::BufferTooSmall => CODE_BUFFER_TOO_SMALL,
            OperationResult::ServiceUnavailable => CODE_SERVICE_UNAVAILABLE,
            OperationResult::InvalidArgument => CODE_INVALID_ARGUMENT,
            OperationResult::Unrecognized(code) => *code,
        }
    }

    /// Whether this outcome is `Success`.
    pub fn is_success(&self) -> (b: bool)
        ensures
            b <==> *self == OperationResult::Success,
    {
        match self {
            OperationResult::Success => true,
            _ => false,
        }
    }
}

/// Decoding undoes encoding on canonical outcomes, and encoding undoes decoding
/// on every code: no two codes share an outcome.
pub proof fn lemma_code_round_trip(code: u32, other: u32)
    ensures
        OperationResult::from_code_spec(code).code_spec() == code,
        OperationResult::from_code_spec(code).is_canonical(),
        OperationResult::from_code_spec(code) == OperationResult::from_code_spec(other) ==> code
            == other,
{
}

} // verus!
