//! The ways in which an operation is refused.

use vstd::prelude::*;

verus! {

/// The presale's own reasons to refuse an operation.
#[derive(Clone, Copy, Debug, PartialEq, Eq, Structural)]
pub enum ErrorCode {
    /// A purchase was attempted while the presale is paused.
    PresaleIsPaused,
    /// A balance would have grown past the largest amount an account can hold.
    Overflow,
    /// More was asked of a balance than it can give.
    Underflow,
    /// The caller is not the owner of the presale.
    Unauthorized,
    /// The payment wallet handed in is not the one the presale is set to.
    InvalidPaymentWallet,
    /// The amount that arrived is not the amount that was expected. No
    /// operation of this crate reports it: it is kept for the caller that
    /// compares the two.
    InvalidAmountTransferred,
}

impl ErrorCode {
    /// The sentence that tells a user what went wrong.
    pub open spec fn message_text(self) -> Seq<char> {
        match self {
            ErrorCode::PresaleIsPaused => "The presale is currently paused."@,
            ErrorCode::Overflow => "Operation overflowed."@,
            ErrorCode::Underflow => "Operation underflowed."@,
            ErrorCode::Unauthorized => "Unauthorized."@,
            ErrorCode::InvalidPaymentWallet => "Invalid payment wallet provided."@,
            ErrorCode::InvalidAmountTransferred => "Invalid amount of SOL transferred."@,
        }
    }

    /// The sentence that tells a user what went wrong.
    pub fn message(&self) -> (text: &'static str)
        ensures
            text@ == self.message_text(),
    {
        match self {
            ErrorCode::PresaleIsPaused => "The presale is currently paused.",
            ErrorCode::Overflow => "Operation overflowed.",
            ErrorCode::Underflow => "Operation underflowed.",
            ErrorCode::Unauthorized => "Unauthorized.",
            ErrorCode::InvalidPaymentWallet => "Invalid payment wallet provided.",
            ErrorCode::InvalidAmountTransferred => "Invalid amount of SOL transferred.",
        }
    }
}

/// Why an operation was refused. A refused operation has changed nothing.
#[derive(Clone, Copy, Debug, PartialEq, Eq, Structural)]
pub enum PresaleError {
    /// One of the presale's own reasons.
    Custom(ErrorCode),
    /// An argument makes no sense for the operation: a purchase in which the
    /// buyer would pay itself.
    InvalidArgument,
}

} // verus!
