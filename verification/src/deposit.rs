//! Deposit: lock base-asset units in the pool and mint shares at the fixed
//! rate.

use vstd::prelude::*;
use crate::errors::ErrorCode;
use crate::events::DepositEvent;
use crate::state::{Config, UserAccount, Vault};

verus! {

/// Every counter update of a deposit of `amount` at rate `rate` fits in a
/// `u64`.
pub open spec fn deposit_fits(user: UserAccount, vault: Vault, rate: u64, amount: u64) -> bool {
    &&& amount * rate <= u64::MAX
    &&& user.amount_deposited + amount <= u64::MAX
    &&& user.reward_earned + amount * rate <= u64::MAX
    &&& user.shares_minted + amount * rate <= u64::MAX
    &&& vault.amount_deposited + amount <= u64::MAX
}

/// The user ledger after a deposit of `amount` at rate `rate`.
pub open spec fn deposited_user(user: UserAccount, rate: u64, amount: u64) -> UserAccount {
    UserAccount {
        amount_deposited: (user.amount_deposited + amount) as u64,
        reward_earned: (user.reward_earned + amount * rate) as u64,
        shares_minted: (user.shares_minted + amount * rate) as u64,
        ..user
    }
}

/// The pool ledger after a deposit of `amount`.
pub open spec fn deposited_vault(vault: Vault, amount: u64) -> Vault {
    Vault { amount_deposited: (vault.amount_deposited + amount) as u64, ..vault }
}

/// Deposit `amount` base-asset units on behalf of the owner of `user`.
///
/// `signer_balance` is the depositor's live balance as the environment
/// reports it; the deposit is rejected with `InsufficientFunds` when it is
/// below `amount`.  `amount * reward_rate` shares are minted, every counter
/// addition is overflow-checked, and on any failure both ledgers are left
/// exactly as they were.  On success the returned event records the amount
/// moved and the shares minted.
pub fn deposit_sol(
    config: &Config,
    vault: &mut Vault,
    user: &mut UserAccount,
    signer_balance: u64,
    amount: u64,
) -> (r: Result<DepositEvent, ErrorCode>)
    requires
        config.wf(),
        amount > 0,
    ensures
        r is Ok <==> (signer_balance >= amount && deposit_fits(
            *old(user),
            *old(vault),
            config.reward_rate,
            amount,
        )),
        r is Ok ==> *final(user) == deposited_user(*old(user), config.reward_rate, amount),
        r is Ok ==> *final(vault) == deposited_vault(*old(vault), amount),
        r is Ok ==> r->Ok_0 == (DepositEvent {
            user: old(user).user,
            amount_sol: amount,
            shares_minted: (amount * config.reward_rate) as u64,
        }),
        r is Err ==> *final(user) == *old(user) && *final(vault) == *old(vault),
        r is Err && r->Err_0 == ErrorCode::InsufficientFunds <==> signer_balance < amount,
        signer_balance >= amount && !deposit_fits(
            *old(user),
            *old(vault),
            config.reward_rate,
            amount,
        ) ==> r is Err && r->Err_0 == ErrorCode::Overflow,
{
    if signer_balance < amount {
        return Err(ErrorCode::InsufficientFunds);
    }
    let reward = match amount.checked_mul(config.reward_rate) {
        Some(v) => v,
        None => return Err(ErrorCode::Overflow),
    };
    let new_amount_deposited = match user.amount_deposited.checked_add(amount) {
        Some(v) => v,
        None => return Err(ErrorCode::Overflow),
    };
    let new_reward_earned = match user.reward_earned.checked_add(reward) {
        Some(v) => v,
        None => return Err(ErrorCode::Overflow),
    };
    let new_shares_minted = match user.shares_minted.checked_add(reward) {
        Some(v) => v,
        None => return Err(ErrorCode::Overflow),
    };
    let new_total_deposited = match vault.amount_deposited.checked_add(amount) {
        Some(v) => v,
        None => return Err(ErrorCode::Overflow),
    };
    user.amount_deposited = new_amount_deposited;
    user.reward_earned = new_reward_earned;
    user.shares_minted = new_shares_minted;
    vault.amount_deposited = new_total_deposited;
    Ok(DepositEvent { user: user.user, amount_sol: amount, shares_minted: reward })
}

} // verus!
