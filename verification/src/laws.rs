//! Laws of the accounting engine, proved once and for all: pool
//! conservation, share consistency, and the deposit/withdraw round trip.

use vstd::prelude::*;
use vstd::arithmetic::div_mod::{lemma_div_by_multiple, lemma_div_pos_is_pos};
use crate::deposit::{deposit_fits, deposited_user, deposited_vault};
use crate::state::{UserAccount, Vault};
use crate::withdraw::{withdraw_amount, withdraw_fits, withdrawn_user, withdrawn_vault};

verus! {

/// Sum of `amount_deposited` over a sequence of user ledgers.
pub open spec fn sum_deposited(users: Seq<UserAccount>) -> int
    decreases users.len(),
{
    if users.len() == 0 {
        0
    } else {
        users[0].amount_deposited + sum_deposited(users.subrange(1, users.len() as int))
    }
}

/// Pool conservation: the pool total equals the sum of every registered
/// user's deposited amount.
pub open spec fn pool_conserved(vault: Vault, users: Seq<UserAccount>) -> bool {
    vault.amount_deposited == sum_deposited(users)
}

/// Share consistency: shares outstanding equal the deposited amount times
/// the rate.
pub open spec fn shares_consistent(user: UserAccount, rate: u64) -> bool {
    user.shares_minted == user.amount_deposited * rate
}

proof fn lemma_sum_push(users: Seq<UserAccount>, u: UserAccount)
    ensures
        sum_deposited(users.push(u)) == sum_deposited(users) + u.amount_deposited,
    decreases users.len(),
{
    let s = users.push(u);
    if users.len() == 0 {
        assert(s.subrange(1, 1) =~= Seq::<UserAccount>::empty());
        assert(sum_deposited(s) == u.amount_deposited + sum_deposited(s.subrange(1, 1)));
    } else {
        let rest = users.subrange(1, users.len() as int);
        assert(s.subrange(1, s.len() as int) =~= rest.push(u));
        lemma_sum_push(rest, u);
        assert(sum_deposited(s) == users[0].amount_deposited + sum_deposited(
            s.subrange(1, s.len() as int),
        ));
    }
}

proof fn lemma_sum_update(users: Seq<UserAccount>, i: int, u: UserAccount)
    requires
        0 <= i < users.len(),
    ensures
        sum_deposited(users.update(i, u)) == sum_deposited(users) - users[i].amount_deposited
            + u.amount_deposited,
    decreases users.len(),
{
    let upd = users.update(i, u);
    if i == 0 {
        assert(upd.subrange(1, upd.len() as int) =~= users.subrange(1, users.len() as int));
    } else {
        let rest = users.subrange(1, users.len() as int);
        assert(upd.subrange(1, upd.len() as int) =~= rest.update(i - 1, u));
        lemma_sum_update(rest, i - 1, u);
        assert(rest[i - 1] == users[i]);
    }
}

/// Initialization establishes pool conservation: the fresh pool total, zero,
/// equals the sum over the empty set of users.
pub proof fn lemma_initialize_establishes_conservation(vault: Vault)
    requires
        vault.amount_deposited == 0,
    ensures
        pool_conserved(vault, Seq::empty()),
{
}

/// Registration preserves pool conservation: a new user ledger starts with
/// nothing deposited, so the sum over all users is unchanged.
pub proof fn lemma_register_preserves_conservation(
    vault: Vault,
    users: Seq<UserAccount>,
    u: UserAccount,
)
    requires
        pool_conserved(vault, users),
        u.amount_deposited == 0,
    ensures
        pool_conserved(vault, users.push(u)),
{
    lemma_sum_push(users, u);
}

/// A successful deposit preserves pool conservation: the depositor's ledger
/// and the pool total rise by the same amount.
pub proof fn lemma_deposit_preserves_conservation(
    vault: Vault,
    users: Seq<UserAccount>,
    i: int,
    rate: u64,
    amount: u64,
)
    requires
        pool_conserved(vault, users),
        0 <= i < users.len(),
        deposit_fits(users[i], vault, rate, amount),
    ensures
        pool_conserved(
            deposited_vault(vault, amount),
            users.update(i, deposited_user(users[i], rate, amount)),
        ),
{
    lemma_sum_update(users, i, deposited_user(users[i], rate, amount));
}

/// A successful withdrawal preserves pool conservation: the withdrawer's
/// ledger and the pool total fall by the same released amount.
pub proof fn lemma_withdraw_preserves_conservation(
    vault: Vault,
    users: Seq<UserAccount>,
    i: int,
    rate: u64,
    shares: u64,
)
    requires
        pool_conserved(vault, users),
        0 <= i < users.len(),
        1 <= rate,
        withdraw_fits(users[i], vault, rate, shares),
    ensures
        pool_conserved(
            withdrawn_vault(vault, rate, shares),
            users.update(i, withdrawn_user(users[i], rate, shares)),
        ),
{
    lemma_div_pos_is_pos(shares as int, rate as int);
    lemma_sum_update(users, i, withdrawn_user(users[i], rate, shares));
}

/// Registration establishes share consistency: zero shares against zero
/// deposited.
pub proof fn lemma_register_establishes_share_consistency(user: UserAccount, rate: u64)
    requires
        user.amount_deposited == 0,
        user.shares_minted == 0,
    ensures
        shares_consistent(user, rate),
{
}

/// A successful deposit preserves share consistency under a constant rate:
/// the deposit adds `amount` to the deposited amount and `amount * rate` to
/// the shares, so the product relation carries over.
pub proof fn lemma_deposit_preserves_share_consistency(
    user: UserAccount,
    rate: u64,
    amount: u64,
)
    requires
        shares_consistent(user, rate),
        user.amount_deposited + amount <= u64::MAX,
        user.shares_minted + amount * rate <= u64::MAX,
    ensures
        shares_consistent(deposited_user(user, rate, amount), rate),
{
    assert((user.amount_deposited + amount) * rate == user.amount_deposited * rate + amount
        * rate) by (nonlinear_arith);
}

/// Round trip: depositing `amount` and then withdrawing every share that the
/// deposit minted releases exactly `amount` and restores both ledgers to
/// their pre-deposit state.  The shares minted are `amount * rate`, which is
/// divisible by the rate, so the floor division loses nothing.
pub proof fn lemma_round_trip(user: UserAccount, vault: Vault, rate: u64, amount: u64)
    requires
        1 <= rate,
        deposit_fits(user, vault, rate, amount),
    ensures
        ({
            let minted = (amount * rate) as u64;
            let user_after = deposited_user(user, rate, amount);
            let vault_after = deposited_vault(vault, amount);
            &&& withdraw_fits(user_after, vault_after, rate, minted)
            &&& withdraw_amount(minted, rate) == amount
            &&& withdrawn_user(user_after, rate, minted) == user
            &&& withdrawn_vault(vault_after, rate, minted) == vault
        }),
{
    lemma_div_by_multiple(amount as int, rate as int);
}

} // verus!
