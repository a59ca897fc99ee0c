//! Periods and clock skew.

use vstd::prelude::*;
use crate::error::ErrorCode;
use crate::state::Grant;

verus! {

/// Largest tolerated distance, in seconds, between the time at which a proof
/// was issued and the time at which it is checked.
pub const POP_MAX_SKEW_SECONDS: i64 = 600;

/// The distance between two times, unless it is more than an `i64` holds.
pub open spec fn absolute_i64_diff_spec(a: i64, b: i64) -> Result<i64, ErrorCode> {
    let distance = if a >= b {
        a - b
    } else {
        b - a
    };
    if distance > i64::MAX {
        Err(ErrorCode::MathOverflow)
    } else {
        Ok(distance as i64)
    }
}

/// The distance between two times. A distance that no `i64` holds is an
/// overflow.
pub fn absolute_i64_diff(a: i64, b: i64) -> (r: Result<i64, ErrorCode>)
    ensures
        r == absolute_i64_diff_spec(a, b),
{
    let distance: Option<i64> = if a >= b {
        a.checked_sub(b)
    } else {
        b.checked_sub(a)
    };
    match distance {
        Some(d) => Ok(d),
        None => Err(ErrorCode::MathOverflow),
    }
}

/// Why a proof issued at `issued_at` is not fresh at `now`, if it is not: it
/// is fresh up to `POP_MAX_SKEW_SECONDS` before or after.
pub open spec fn skew_error(now: i64, issued_at: i64) -> Option<ErrorCode> {
    match absolute_i64_diff_spec(now, issued_at) {
        Err(e) => Some(e),
        Ok(skew) => if skew <= POP_MAX_SKEW_SECONDS {
            None
        } else {
            Some(ErrorCode::PopProofExpired)
        },
    }
}

/// Checks that a proof issued at `issued_at` is fresh at `now`.
pub fn require_fresh_proof(now: i64, issued_at: i64) -> (r: Result<(), ErrorCode>)
    ensures
        r == (match skew_error(now, issued_at) {
            Some(e) => Err::<(), ErrorCode>(e),
            None => Ok::<(), ErrorCode>(()),
        }),
{
    let skew: i64 = absolute_i64_diff(now, issued_at)?;
    if skew <= POP_MAX_SKEW_SECONDS {
        Ok(())
    } else {
        Err(ErrorCode::PopProofExpired)
    }
}

/// The period of `grant` that is running at `now`: the number of whole
/// periods since the start. There is none after the expiry and none before
/// the start.
pub open spec fn current_period_index_spec(grant: Grant, now: i64) -> Result<u64, ErrorCode> {
    if grant.expires_at != 0 && now > grant.expires_at {
        Err(ErrorCode::GrantExpired)
    } else if now < grant.start_ts {
        Err(ErrorCode::GrantNotStarted)
    } else if now - grant.start_ts > i64::MAX {
        Err(ErrorCode::MathOverflow)
    } else {
        Ok(((now - grant.start_ts) / (grant.period_seconds as int)) as u64)
    }
}

/// Computes the period of `grant` that is running at `now`.
///
/// A period ends with the second before the next one starts: at
/// `start_ts + k * period_seconds` the index is `k`.
pub fn current_period_index(grant: &Grant, now: i64) -> (r: Result<u64, ErrorCode>)
    requires
        grant.wf(),
    ensures
        r == current_period_index_spec(*grant, now),
{
    if grant.expires_at != 0 && now > grant.expires_at {
        return Err(ErrorCode::GrantExpired);
    }
    if now < grant.start_ts {
        return Err(ErrorCode::GrantNotStarted);
    }
    let elapsed: i64 = match now.checked_sub(grant.start_ts) {
        Some(elapsed) => elapsed,
        None => {
            return Err(ErrorCode::MathOverflow);
        },
    };
    let index: i64 = elapsed / grant.period_seconds;
    assert(0 <= index <= elapsed) by (nonlinear_arith)
        requires
            index == elapsed / grant.period_seconds,
            elapsed >= 0,
            grant.period_seconds > 0,
    ;
    Ok(index as u64)
}

/// Why a claim for `period_index` comes at the wrong time, if it does: the
/// index has to be the one of the running period.
pub open spec fn claim_timing_error(grant: Grant, now: i64, period_index: u64) -> Option<
    ErrorCode,
> {
    match current_period_index_spec(grant, now) {
        Err(e) => Some(e),
        Ok(expected) => if period_index == expected {
            None
        } else {
            Some(ErrorCode::InvalidPeriodIndex)
        },
    }
}

/// Checks that `grant` is open at `now` and that `period_index` is the
/// running period.
pub fn require_claim_timing(grant: &Grant, now: i64, period_index: u64) -> (r: Result<
    (),
    ErrorCode,
>)
    requires
        grant.wf(),
    ensures
        r == (match claim_timing_error(*grant, now, period_index) {
            Some(e) => Err::<(), ErrorCode>(e),
            None => Ok::<(), ErrorCode>(()),
        }),
{
    let expected_period_index: u64 = current_period_index(grant, now)?;
    if period_index == expected_period_index {
        Ok(())
    } else {
        Err(ErrorCode::InvalidPeriodIndex)
    }
}

/// A proof issued 600 seconds before or after `now` is fresh, and one issued
/// 601 seconds before or after is not.
pub proof fn lemma_skew_boundary(now: i64)
    requires
        i64::MIN + 601 <= now <= i64::MAX - 601,
    ensures
        skew_error(now, (now - 600) as i64) is None,
        skew_error(now, (now + 600) as i64) is None,
        skew_error(now, (now - 601) as i64) == Some(ErrorCode::PopProofExpired),
        skew_error(now, (now + 601) as i64) == Some(ErrorCode::PopProofExpired),
{
}

/// Period `k` runs from `k` whole periods after the start up to the second
/// before period `k + 1`: at every time `start_ts + k * period_seconds + r`
/// with `r` less than a period, the running period is `k`, as long as the
/// grant has not expired.
pub proof fn lemma_period_index(grant: Grant, k: u64, r: i64, now: i64)
    requires
        grant.wf(),
        0 <= r < grant.period_seconds,
        now == grant.start_ts + k * grant.period_seconds + r,
        now - grant.start_ts <= i64::MAX,
        grant.expires_at == 0 || now <= grant.expires_at,
    ensures
        current_period_index_spec(grant, now) == Ok::<u64, ErrorCode>(k),
        claim_timing_error(grant, now, k) is None,
        forall|other: u64| other != k ==> claim_timing_error(grant, now, other) == Some(
            ErrorCode::InvalidPeriodIndex,
        ),
{
    let p = grant.period_seconds as int;
    let elapsed = now - grant.start_ts;
    assert(elapsed == k * p + r);
    assert(elapsed / p == k) by (nonlinear_arith)
        requires
            elapsed == k * p + r,
            0 <= r < p,
            p > 0,
            k >= 0,
    ;
}

} // verus!
