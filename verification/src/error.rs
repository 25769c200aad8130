//! The ways a transition can fail.

use vstd::prelude::*;

verus! {

/// Why a transition was rejected. Every error is terminal for the invocation
/// that raised it: the caller corrects the input and submits again.
#[derive(Clone, Copy, Debug, PartialEq, Eq, Structural, Hash)]
pub enum ErrorCode {
    MemoTooLong,
    Overflow,
    InvalidAmount,
    SelfPayment,
    InsufficientBalance,
    InvalidReceiver,
    AlreadyInitialized,
}

impl ErrorCode {
    /// The human-readable text of each error.
    pub open spec fn message_text(self) -> Seq<char> {
        match self {
            ErrorCode::MemoTooLong => "Memo cannot be longer than 200 characters."@,
            ErrorCode::Overflow => "Operation overflowed."@,
            ErrorCode::InvalidAmount => "Payment amount must be greater than zero."@,
            ErrorCode::SelfPayment => "Sender and receiver cannot be the same account."@,
            ErrorCode::InsufficientBalance =>
                "Sender does not have sufficient balance for this transaction."@,
            ErrorCode::InvalidReceiver =>
                "Receiver account is not valid for receiving SOL (must be system-owned)."@,
            ErrorCode::AlreadyInitialized => "Program state is already initialized."@,
        }
    }

    /// The message shown to the caller for this error.
    pub fn message(&self) -> (text: &'static str)
        ensures
            text@ == self.message_text(),
    {
        match self {
            ErrorCode::MemoTooLong => "Memo cannot be longer than 200 characters.",
            ErrorCode::Overflow => "Operation overflowed.",
            ErrorCode::InvalidAmount => "Payment amount must be greater than zero.",
            ErrorCode::SelfPayment => "Sender and receiver cannot be the same account.",
            ErrorCode::InsufficientBalance =>
                "Sender does not have sufficient balance for this transaction.",
            ErrorCode::InvalidReceiver =>
                "Receiver account is not valid for receiving SOL (must be system-owned).",
            ErrorCode::AlreadyInitialized => "Program state is already initialized.",
        }
    }
}

} // verus!
