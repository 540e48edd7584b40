//! Stand-alone reward arithmetic.

use vstd::prelude::*;
use crate::errors::ErrorCode;

verus! {

/// Linear reward for `staked_amount` held over `duration_in_slots` at
/// `reward_rate` per slot: the product of the three, with every step
/// overflow-checked.
pub fn calculate_reward(
    staked_amount: u64,
    duration_in_slots: u64,
    reward_rate: u64,
) -> (r: Result<u64, ErrorCode>)
    ensures
        r is Ok <==> (staked_amount * duration_in_slots <= u64::MAX
            && staked_amount * duration_in_slots * reward_rate <= u64::MAX),
        r is Ok ==> r->Ok_0 == staked_amount * duration_in_slots * reward_rate,
        r is Err ==> r->Err_0 == ErrorCode::Overflow,
{
    match staked_amount.checked_mul(duration_in_slots) {
        Some(v) => match v.checked_mul(reward_rate) {
            Some(w) => Ok(w),
            None => Err(ErrorCode::Overflow),
        },
        None => Err(ErrorCode::Overflow),
    }
}

} // verus!
