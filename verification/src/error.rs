//! Error kinds of the program. All three are reserved for the borrow and
//! repay logic to come: no current entry point raises any of them.

use vstd::prelude::*;

verus! {

/// The program's error kinds, each with a fixed human-readable message.
#[derive(Clone, Copy, Debug, PartialEq, Eq, Structural)]
pub enum ErrorCode {
    /// The payer lacks the funds the operation needs.
    InsufficientFunds,
    /// The requested amount exceeds the maximum borrowable amount.
    OverBorrowableAmount,
    /// The repay amount exceeds the borrowed amount.
    RepayAmountExceedsBorrowed,
}

impl ErrorCode {
    /// The human-readable message of this error kind.
    pub open spec fn spec_message(self) -> Seq<char> {
        match self {
            ErrorCode::InsufficientFunds => "Insufficient funds for the operation."@,
            ErrorCode::OverBorrowableAmount => "Requested amount exceeds the maximum borrowable amount."@,
            ErrorCode::RepayAmountExceedsBorrowed => "Repay amount exceeds the borrowed amount."@,
        }
    }

    /// Returns the message of this error kind.
    pub fn message(&self) -> (m: &'static str)
        ensures
            m@ == self.spec_message(),
    {
        match self {
            ErrorCode::InsufficientFunds => "Insufficient funds for the operation.",
            ErrorCode::OverBorrowableAmount => "Requested amount exceeds the maximum borrowable amount.",
            ErrorCode::RepayAmountExceedsBorrowed => "Repay amount exceeds the borrowed amount.",
        }
    }
}

} // verus!
