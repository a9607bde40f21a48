//! Elapsed-time and earnings arithmetic.
//!
//! A session at `rate_cents` cents per hour earns `rate_cents * elapsed / 3600`
//! cents after `elapsed` seconds. A catch-up of `m` minutes backdates the
//! session: the effective start is the real start minus `m * 60` seconds.

use vstd::prelude::*;

verus! {

/// Latest instant the model admits: the last second of year 9999.
pub const MAX_INSTANT: i64 = 253402300799;

/// Largest admitted hourly rate, in cents per hour.
pub const MAX_RATE_CENTS: u32 = 100000000;

/// Seconds elapsed from `start` to `now`, clamped at zero.
pub open spec fn elapsed_spec(start: int, now: int) -> int {
    if now >= start {
        now - start
    } else {
        0
    }
}

/// Cents earned after `elapsed` seconds at `rate_cents` cents per hour.
pub open spec fn earned_spec(rate_cents: int, elapsed: int) -> int {
    rate_cents * elapsed / 3600
}

/// The session start after crediting `catch_up_minutes` of already-worked time.
pub open spec fn effective_start_spec(start: int, catch_up_minutes: int) -> int {
    start - catch_up_minutes * 60
}

pub fn elapsed_seconds(start: i64, now: i64) -> (r: i64)
    requires
        0 <= start,
        now <= MAX_INSTANT,
    ensures
        r == elapsed_spec(start as int, now as int),
        0 <= r <= MAX_INSTANT,
{
    if now >= start {
        now - start
    } else {
        0
    }
}

pub fn earned_cents(rate_cents: u32, elapsed: i64) -> (r: u64)
    requires
        rate_cents <= MAX_RATE_CENTS,
        0 <= elapsed <= MAX_INSTANT,
    ensures
        r == earned_spec(rate_cents as int, elapsed as int),
{
    proof {
        assert((rate_cents as int) * (elapsed as int) <= (MAX_RATE_CENTS as int) * (
        MAX_INSTANT as int)) by (nonlinear_arith)
            requires
                0 <= rate_cents <= MAX_RATE_CENTS,
                0 <= elapsed <= MAX_INSTANT,
        ;
        assert((rate_cents as int) * (elapsed as int) >= 0) by (nonlinear_arith)
            requires
                0 <= rate_cents,
                0 <= elapsed,
        ;
    }
    let product: u128 = (rate_cents as u128) * (elapsed as u128);
    proof {
        vstd::arithmetic::div_mod::lemma_div_is_ordered(
            product as int,
            (MAX_RATE_CENTS as int) * (MAX_INSTANT as int),
            3600,
        );
    }
    (product / 3600) as u64
}

pub fn effective_start(start: i64, catch_up_minutes: u64) -> (r: i64)
    requires
        catch_up_minutes * 60 <= start,
    ensures
        r == effective_start_spec(start as int, catch_up_minutes as int),
        0 <= r <= start,
{
    start - (catch_up_minutes * 60) as i64
}

/// Backdating by catch-up is exactly starting earlier: earnings measured from
/// the effective start equal earnings of a session that had truly started
/// `catch_up_minutes * 60` seconds before the real start.
pub proof fn lemma_catch_up_equivalence(
    start: int,
    catch_up_minutes: int,
    rate_cents: int,
    now: int,
)
    requires
        catch_up_minutes >= 0,
    ensures
        effective_start_spec(start, catch_up_minutes) == start - catch_up_minutes * 60,
        earned_spec(
            rate_cents,
            elapsed_spec(effective_start_spec(start, catch_up_minutes), now),
        ) == earned_spec(rate_cents, elapsed_spec(start - catch_up_minutes * 60, now)),
{
}

} // verus!

