//! Reasons a decode call can fail.

use vstd::prelude::*;

verus! {

/// Why a message could not be decoded.
#[derive(Clone, Copy, Debug, PartialEq, Eq, Structural)]
pub enum DecodeError {
    /// The input ends before the message does: `needed` bytes were wanted at `offset`.
    UnexpectedEof { offset: usize, needed: usize },
    /// The side field at `offset` holds a code that names neither side.
    InvalidSide { offset: usize, code: u8 },
    /// The message refers to an order that is not active.
    UnknownOrder { refno: u64 },
    /// The message takes more shares from an order than it has left.
    SharesExceeded { refno: u64, remaining: u32, requested: u32 },
}

impl DecodeError {
    /// Whether the error reports a registry that does not fit the message.
    pub open spec fn is_registry_error(self) -> bool {
        self is UnknownOrder || self is SharesExceeded
    }

    /// Tells registry-consistency errors from input errors.
    pub fn registry_error(&self) -> (r: bool)
        ensures
            r == self.is_registry_error(),
    {
        match self {
            DecodeError::UnknownOrder { .. } => true,
            DecodeError::SharesExceeded { .. } => true,
            _ => false,
        }
    }
}

/// Whether `result` is the failure `error`.
pub open spec fn fails_with<T>(result: Result<T, DecodeError>, error: DecodeError) -> bool {
    match result {
        Ok(_) => false,
        Err(e) => e == error,
    }
}

} // verus!
