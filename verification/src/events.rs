//! Domain events.  Each successful operation returns the event it gives rise
//! to; emitting it is the caller's concern.

use vstd::prelude::*;
use crate::state::Identity;

verus! {

/// The vault was created.
#[derive(Clone, Copy, PartialEq, Eq, Debug)]
pub struct InitializeEvent {
    pub authority: Identity,
    pub mint: Identity,
    pub reward_rate: u64,
}

/// A user ledger was created.
#[derive(Clone, Copy, PartialEq, Eq, Debug)]
pub struct UserInitializedEvent {
    pub user: Identity,
}

/// A deposit completed.
#[derive(Clone, Copy, PartialEq, Eq, Debug)]
pub struct DepositEvent {
    pub user: Identity,
    pub amount_sol: u64,
    pub shares_minted: u64,
}

/// A withdrawal completed.
#[derive(Clone, Copy, PartialEq, Eq, Debug)]
pub struct WithdrawEvent {
    pub user: Identity,
    pub amount_sol: u64,
    pub shares_burned: u64,
}

} // verus!
