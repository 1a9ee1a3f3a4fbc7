use vstd::prelude::*;

verus! {

/// Basis points in one whole.
pub const BPS_DENOMINATOR: u64 = 10_000;

/// The minimum collateralisation ratio, in basis points (150%).
pub const MIN_COLLATERAL_RATIO_BPS: u64 = 15_000;

/// Seconds in a (non-leap) year, the period over which a rate accrues.
pub const SECONDS_PER_YEAR: u64 = 31_536_000;

/// `BPS_DENOMINATOR * SECONDS_PER_YEAR`: a yearly rate in basis points,
/// scaled to one second.
pub const ACCRUAL_DIVISOR: u128 = 315_360_000_000;

/// The collateral that a loan of `amount` needs at the minimum ratio.
pub open spec fn required_spec(amount: u64) -> int {
    amount * MIN_COLLATERAL_RATIO_BPS / BPS_DENOMINATOR as int
}

/// Seconds between `start` and `now`, or zero if `now` is not later.
pub open spec fn elapsed_spec(start: i64, now: i64) -> int {
    if now > start {
        now - start
    } else {
        0
    }
}

/// The interest product `principal * rate * elapsed` before scaling.
pub open spec fn interest_product(principal: u64, rate: u32, start: i64, now: i64) -> int {
    principal * rate * elapsed_spec(start, now)
}

/// Simple interest: what a loan of `principal` at `rate` basis points a year
/// owes at `now` when it started at `start`.
pub open spec fn accrued_spec(principal: u64, rate: u32, start: i64, now: i64) -> int {
    principal + interest_product(principal, rate, start, now) / ACCRUAL_DIVISOR as int
}

/// Whether computing `accrued_spec` overflows: the interest product must fit
/// in 128 bits and the amount owed in 64.
pub open spec fn accrual_overflows(principal: u64, rate: u32, start: i64, now: i64) -> bool {
    interest_product(principal, rate, start, now) > u128::MAX || accrued_spec(
        principal,
        rate,
        start,
        now,
    ) > u64::MAX
}

/// The collateral needed to borrow `amount`. It is computed in 128 bits, so
/// it never overflows.
pub fn required_collateral(amount: u64) -> (r: u128)
    ensures
        r == required_spec(amount),
{
    (amount as u128) * (MIN_COLLATERAL_RATIO_BPS as u128) / (BPS_DENOMINATOR as u128)
}

/// Seconds elapsed from `start` to `now`, zero when `now` is not later.
pub fn elapsed_seconds(start: i64, now: i64) -> (r: u128)
    ensures
        r == elapsed_spec(start, now),
{
    if now > start {
        ((now as i128) - (start as i128)) as u128
    } else {
        0
    }
}

/// What is owed on a loan at `now`, or `None` where the computation would
/// overflow.
pub fn accrued(principal: u64, rate: u32, start: i64, now: i64) -> (r: Option<u64>)
    ensures
        r is None <==> accrual_overflows(principal, rate, start, now),
        r matches Some(v) ==> v == accrued_spec(principal, rate, start, now),
{
    let elapsed = elapsed_seconds(start, now);
    assert(principal as int * rate as int <= u64::MAX as int * u32::MAX as int) by (nonlinear_arith);
    let base: u128 = (principal as u128) * (rate as u128);
    match base.checked_mul(elapsed) {
        None => {
            assert(interest_product(principal, rate, start, now) == base * elapsed);
            None
        },
        Some(product) => {
            assert(interest_product(principal, rate, start, now) == product);
            let interest: u128 = product / ACCRUAL_DIVISOR;
            let total: u128 = match (principal as u128).checked_add(interest) {
                Some(t) => t,
                None => {
                    return None;
                },
            };
            if total > (u64::MAX as u128) {
                None
            } else {
                Some(total as u64)
            }
        },
    }
}

} // verus!
