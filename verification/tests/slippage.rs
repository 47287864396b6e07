use pumpdotfun_sdk::errors::ErrorCode;
use pumpdotfun_sdk::slippage::apply_slippage;

#[test]
fn zero_slippage_keeps_the_amount() {
    assert_eq!(apply_slippage(0, 0), Ok(0));
    assert_eq!(apply_slippage(1_000_000, 0), Ok(1_000_000));
    assert_eq!(apply_slippage(u64::MAX, 0), Ok(u64::MAX));
}

#[test]
fn slippage_500_adds_five_times_the_amount() {
    assert_eq!(apply_slippage(10_000_000, 500), Ok(60_000_000));
    assert_eq!(apply_slippage(100, 500), Ok(600));
}

#[test]
fn slippage_rounds_the_addition_down() {
    assert_eq!(apply_slippage(1_000_000, 10), Ok(1_100_000));
    assert_eq!(apply_slippage(1_000, 1), Ok(1_010));
    assert_eq!(apply_slippage(99, 1), Ok(99));
    assert_eq!(apply_slippage(199, 1), Ok(200));
    assert_eq!(apply_slippage(1, 150), Ok(2));
}

#[test]
fn negative_slippage_is_refused() {
    assert_eq!(apply_slippage(1_000, -1), Err(ErrorCode::InvalidSlippage));
    assert_eq!(apply_slippage(0, i64::MIN), Err(ErrorCode::InvalidSlippage));
}

#[test]
fn amounts_near_the_maximum_overflow() {
    assert_eq!(apply_slippage(u64::MAX, 1), Err(ErrorCode::Overflow));
    assert_eq!(apply_slippage(u64::MAX - 1000, 10), Err(ErrorCode::Overflow));
    assert_eq!(apply_slippage(u64::MAX, i64::MAX), Err(ErrorCode::Overflow));
    assert_eq!(apply_slippage(u64::MAX / 6 + 1, 500), Err(ErrorCode::Overflow));
    assert_eq!(apply_slippage(u64::MAX / 6, 500), Ok(u64::MAX / 6 * 6));
}

#[test]
fn small_amounts_below_a_hundredth_are_unchanged_by_slippage_one() {
    assert_eq!(apply_slippage(u64::MAX, 0), Ok(u64::MAX));
    assert_eq!(apply_slippage(50, 1), Ok(50));
}

#[test]
fn error_messages() {
    assert_eq!(ErrorCode::InvalidSlippage.message(), "Invalid Slippage");
    assert_eq!(ErrorCode::ConfigNotFound.message(), "Failed to fetch global state from chain");
    assert_eq!(ErrorCode::DecodeError.message(), "Failed to deserialize global state");
    assert_eq!(ErrorCode::Overflow.message(), "Overflow");
}
