use vstd::prelude::*;
use crate::errors::LoyaltyError;

verus! {

/// A whole rate: 10000 basis points, one hundred percent.
pub const BASIS_POINT_SCALE: u64 = 10000;

/// The reward owed on a payment: the floor of `amount * basis_points /
/// 10000`, in integer arithmetic.
pub open spec fn reward_of(amount: u64, basis_points: u16) -> int {
    (amount * basis_points) / (BASIS_POINT_SCALE as int)
}

/// Whether the reward computation stays inside the checked numeric range.
pub open spec fn reward_fits(amount: u64, basis_points: u16) -> bool {
    amount * basis_points <= u64::MAX
}

/// Computes the reward for a payment amount at a basis-point rate.  The
/// multiplication is checked: if it would exceed the numeric range the
/// computation fails with `ArithmeticOverflow` and nothing else, and it
/// succeeds on exactly the inputs whose product fits.
pub fn compute_reward(amount: u64, basis_points: u16) -> (r: Result<u64, LoyaltyError>)
    ensures
        reward_fits(amount, basis_points) ==> r == Ok::<u64, LoyaltyError>(
            reward_of(amount, basis_points) as u64,
        ),
        !reward_fits(amount, basis_points) ==> r == Err::<u64, LoyaltyError>(
            LoyaltyError::ArithmeticOverflow,
        ),
{
    match amount.checked_mul(basis_points as u64) {
        Some(product) => Ok(product / BASIS_POINT_SCALE),
        None => Err(LoyaltyError::ArithmeticOverflow),
    }
}

/// Reward rounding: for every amount and every rate of at most one
/// hundred percent, the computed reward is the exact floor of
/// `amount * basis_points / 10000`, that is
/// `reward * 10000 <= amount * basis_points < (reward + 1) * 10000`,
/// and it fits in the numeric range.
pub proof fn lemma_reward_rounding(amount: u64, basis_points: u16)
    requires
        basis_points <= 10000,
    ensures
        reward_fits(amount, basis_points) || amount * basis_points > u64::MAX,
        reward_of(amount, basis_points) * 10000 <= amount * basis_points,
        amount * basis_points < (reward_of(amount, basis_points) + 1) * 10000,
        0 <= reward_of(amount, basis_points) <= amount,
{
    let p = amount * basis_points;
    let r = reward_of(amount, basis_points);
    vstd::arithmetic::div_mod::lemma_fundamental_div_mod(p, 10000);
    vstd::arithmetic::div_mod::lemma_mod_bound(p, 10000);
    assert(p == 10000 * r + p % 10000);
    assert(r * 10000 <= p < (r + 1) * 10000) by (nonlinear_arith)
        requires
            p == 10000 * r + p % 10000,
            0 <= p % 10000 < 10000,
    ;
    assert(p <= amount * 10000) by (nonlinear_arith)
        requires
            basis_points <= 10000,
            p == amount * basis_points,
            amount >= 0,
    ;
    assert(r <= amount) by (nonlinear_arith)
        requires
            r * 10000 <= p,
            p <= amount * 10000,
    ;
    assert(r >= 0) by (nonlinear_arith)
        requires
            p >= 0,
            p == 10000 * r + p % 10000,
            p % 10000 < 10000,
    ;
}

} // verus!
