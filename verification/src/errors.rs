//! Error taxonomy of the accounting engine.  Every failing operation returns
//! one of these and leaves every ledger unchanged.

use vstd::prelude::*;

verus! {

/// Why a deposit or withdrawal was rejected.
#[derive(Clone, Copy, PartialEq, Eq, Debug)]
pub enum ErrorCode {
    /// An addition or multiplication would exceed the counter's range.
    Overflow,
    /// A subtraction would go below zero.
    Underflow,
    /// The depositor's live balance is below the requested deposit amount.
    InsufficientFunds,
    /// The pool's custody balance is below the requested release amount.
    VaultInsufficientFunds,
}

} // verus!
