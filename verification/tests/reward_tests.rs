use grizzly_loyalty::errors::LoyaltyError;
use grizzly_loyalty::rewards::compute_reward;

#[test]
fn reward_rounding_examples() {
    assert_eq!(compute_reward(10000, 250), Ok(250));
    assert_eq!(compute_reward(1, 1), Ok(0));
    assert_eq!(compute_reward(2000, 700), Ok(140));
}

#[test]
fn reward_zero_cases() {
    assert_eq!(compute_reward(0, 10000), Ok(0));
    assert_eq!(compute_reward(123456, 0), Ok(0));
}

#[test]
fn reward_full_rate_is_identity() {
    assert_eq!(compute_reward(987654, 10000), Ok(987654));
}

#[test]
fn reward_floor_is_exact() {
    // 9999 * 9999 = 99980001; floor(99980001 / 10000) = 9998.
    assert_eq!(compute_reward(9999, 9999), Ok(9998));
}

#[test]
fn reward_overflow_detected() {
    assert_eq!(compute_reward(u64::MAX, 2), Err(LoyaltyError::ArithmeticOverflow));
    // The largest product that still fits.
    assert_eq!(compute_reward(u64::MAX, 1), Ok(u64::MAX / 10000));
}
