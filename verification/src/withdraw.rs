//! Withdrawal: burn shares and release base-asset units from the pool at the
//! inverse of the fixed rate.

use vstd::prelude::*;
use crate::errors::ErrorCode;
use crate::events::WithdrawEvent;
use crate::state::{Config, UserAccount, Vault};

verus! {

/// Base-asset units released for `shares` at rate `rate`.  Floor division:
/// the remainder of shares not evenly divisible by the rate is permanently
/// truncated.
pub open spec fn withdraw_amount(shares: u64, rate: u64) -> int {
    shares as int / rate as int
}

/// Every counter subtraction of a withdrawal of `shares` at rate `rate`
/// stays at or above zero.
pub open spec fn withdraw_fits(user: UserAccount, vault: Vault, rate: u64, shares: u64) -> bool {
    &&& shares <= user.shares_minted
    &&& shares <= user.reward_earned
    &&& withdraw_amount(shares, rate) <= user.amount_deposited
    &&& withdraw_amount(shares, rate) <= vault.amount_deposited
}

/// The user ledger after a withdrawal of `shares` at rate `rate`.
pub open spec fn withdrawn_user(user: UserAccount, rate: u64, shares: u64) -> UserAccount {
    UserAccount {
        amount_deposited: (user.amount_deposited - withdraw_amount(shares, rate)) as u64,
        reward_earned: (user.reward_earned - shares) as u64,
        shares_minted: (user.shares_minted - shares) as u64,
        ..user
    }
}

/// The pool ledger after a withdrawal of `shares` at rate `rate`.
pub open spec fn withdrawn_vault(vault: Vault, rate: u64, shares: u64) -> Vault {
    Vault {
        amount_deposited: (vault.amount_deposited - withdraw_amount(shares, rate)) as u64,
        ..vault
    }
}

/// Burn `shares` from the owner of `user` and release the corresponding
/// base-asset units.
///
/// The released amount is `shares / reward_rate`, floor division.  Every
/// counter subtraction is underflow-checked and fails with `Underflow`;
/// `vault_balance` is the pool's live custody balance as the environment
/// reports it, and a release beyond it fails with `VaultInsufficientFunds`.
/// On any failure both ledgers are left exactly as they were.  On success
/// the returned event records the amount released and the shares burned.
pub fn withdraw_sol(
    config: &Config,
    vault: &mut Vault,
    user: &mut UserAccount,
    vault_balance: u64,
    shares: u64,
) -> (r: Result<WithdrawEvent, ErrorCode>)
    requires
        config.wf(),
        shares > 0,
    ensures
        r is Ok <==> (withdraw_fits(*old(user), *old(vault), config.reward_rate, shares)
            && withdraw_amount(shares, config.reward_rate) <= vault_balance),
        r is Ok ==> *final(user) == withdrawn_user(*old(user), config.reward_rate, shares),
        r is Ok ==> *final(vault) == withdrawn_vault(*old(vault), config.reward_rate, shares),
        r is Ok ==> r->Ok_0 == (WithdrawEvent {
            user: old(user).user,
            amount_sol: withdraw_amount(shares, config.reward_rate) as u64,
            shares_burned: shares,
        }),
        r is Err ==> *final(user) == *old(user) && *final(vault) == *old(vault),
        r is Err && r->Err_0 == ErrorCode::Underflow <==> !withdraw_fits(
            *old(user),
            *old(vault),
            config.reward_rate,
            shares,
        ),
        r is Err && r->Err_0 == ErrorCode::VaultInsufficientFunds <==> (withdraw_fits(
            *old(user),
            *old(vault),
            config.reward_rate,
            shares,
        ) && vault_balance < withdraw_amount(shares, config.reward_rate)),
{
    let sol_amount = shares / config.reward_rate;
    let new_amount_deposited = match user.amount_deposited.checked_sub(sol_amount) {
        Some(v) => v,
        None => return Err(ErrorCode::Underflow),
    };
    let new_reward_earned = match user.reward_earned.checked_sub(shares) {
        Some(v) => v,
        None => return Err(ErrorCode::Underflow),
    };
    let new_shares_minted = match user.shares_minted.checked_sub(shares) {
        Some(v) => v,
        None => return Err(ErrorCode::Underflow),
    };
    let new_total_deposited = match vault.amount_deposited.checked_sub(sol_amount) {
        Some(v) => v,
        None => return Err(ErrorCode::Underflow),
    };
    if vault_balance < sol_amount {
        return Err(ErrorCode::VaultInsufficientFunds);
    }
    user.amount_deposited = new_amount_deposited;
    user.reward_earned = new_reward_earned;
    user.shares_minted = new_shares_minted;
    vault.amount_deposited = new_total_deposited;
    Ok(WithdrawEvent { user: user.user, amount_sol: sol_amount, shares_burned: shares })
}

} // verus!
