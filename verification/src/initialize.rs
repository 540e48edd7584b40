//! Creation of the vault's records: the one-time configuration with its
//! empty pool ledger, and a zeroed per-user ledger at registration.

use vstd::prelude::*;
use crate::events::{InitializeEvent, UserInitializedEvent};
use crate::state::{Config, Identity, UserAccount, Vault};

verus! {

/// Create the vault: the immutable configuration and an empty pool ledger.
///
/// Called once per vault instance; duplicate creation is refused by the
/// environment's storage layer, not here.
pub fn initialize_vault(
    authority: Identity,
    mint: Identity,
    reward_rate: u64,
    bump: u8,
) -> (r: (Config, Vault, InitializeEvent))
    requires
        reward_rate > 0,
    ensures
        r.0 == (Config { authority: authority, mint: mint, reward_rate: reward_rate, bump: bump }),
        r.0.wf(),
        r.1 == (Vault { locked: false, amount_deposited: 0 }),
        r.2 == (InitializeEvent { authority: authority, mint: mint, reward_rate: reward_rate }),
{
    let config = Config { authority, mint, reward_rate, bump };
    let vault = Vault { locked: false, amount_deposited: 0 };
    let event = InitializeEvent { authority, mint, reward_rate };
    (config, vault, event)
}

/// Register a depositor: create that user's ledger with every counter at
/// zero.
///
/// Duplicate registration is refused by the environment's storage layer, not
/// here.
pub fn init_user(user: Identity, bump: u8) -> (r: (UserAccount, UserInitializedEvent))
    ensures
        r.0 == (UserAccount {
            user: user,
            amount_deposited: 0,
            reward_earned: 0,
            shares_minted: 0,
            bump: bump,
        }),
        r.1 == (UserInitializedEvent { user: user }),
{
    let account = UserAccount { user, amount_deposited: 0, reward_earned: 0, shares_minted: 0, bump };
    let event = UserInitializedEvent { user };
    (account, event)
}

} // verus!
