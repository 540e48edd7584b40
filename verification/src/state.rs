//! Ledger records: the immutable configuration, the aggregate pool ledger,
//! and the per-user ledger.

use vstd::prelude::*;

verus! {

/// A 32-byte account identity, as the chain addresses accounts.
#[derive(Clone, Copy, PartialEq, Eq, Debug)]
pub struct Identity {
    pub bytes: [u8; 32],
}

/// Immutable vault parameters, fixed at initialization.
#[derive(Clone, Copy, PartialEq, Eq, Debug)]
pub struct Config {
    /// Identity permitted to initialize the vault.
    pub authority: Identity,
    /// Identity of the share-token issuer.
    pub mint: Identity,
    /// Shares minted per unit deposited; divisor for withdrawal conversion.
    pub reward_rate: u64,
    /// Address-derivation byte recorded at creation.
    pub bump: u8,
}

impl Config {
    /// A well-formed configuration has a positive reward rate.
    pub open spec fn wf(self) -> bool {
        self.reward_rate >= 1
    }
}

/// Aggregate pool ledger: one per vault, touched by every deposit and
/// withdrawal.
#[derive(Clone, Copy, PartialEq, Eq, Debug)]
pub struct Vault {
    /// Reserved for future pause semantics; never set by any operation.
    pub locked: bool,
    /// Sum of all outstanding user deposits held by the pool.
    pub amount_deposited: u64,
}

/// Per-user ledger: one per depositor, touched only by that user's deposits
/// and withdrawals.
#[derive(Clone, Copy, PartialEq, Eq, Debug)]
pub struct UserAccount {
    /// Identity of the depositing account.
    pub user: Identity,
    /// Base-asset units currently locked on behalf of this user.
    pub amount_deposited: u64,
    /// Cumulative shares minted to this user, reduced on withdrawal.
    pub reward_earned: u64,
    /// Shares currently outstanding for this user.
    pub shares_minted: u64,
    /// Address-derivation byte recorded at registration.
    pub bump: u8,
}

} // verus!
