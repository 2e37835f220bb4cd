//! The cooldown rule that decides whether a claimer may claim again.
use vstd::prelude::*;
use crate::errors::TapShieldErr;

verus! {

/// The verdict of the cooldown rule: a claimer who never claimed may always
/// claim; otherwise `cooldown_seconds` must have passed since the last claim.
/// A non-positive cooldown is refused, and so is an elapsed time that does not
/// fit in an `i64`.
pub open spec fn eligibility(
    now: i64,
    last_claim_timestamp: i64,
    cooldown_seconds: i64,
    has_claimed_before: bool,
) -> Result<bool, TapShieldErr> {
    if cooldown_seconds <= 0 {
        Err(TapShieldErr::InvalidCooldown)
    } else if !has_claimed_before {
        Ok(true)
    } else if now - last_claim_timestamp < i64::MIN || now - last_claim_timestamp > i64::MAX {
        Err(TapShieldErr::InvalidTimestamp)
    } else {
        Ok(now - last_claim_timestamp >= cooldown_seconds)
    }
}

/// Applies the cooldown rule.
pub fn is_eligible(
    now: i64,
    last_claim_timestamp: i64,
    cooldown_seconds: i64,
    has_claimed_before: bool,
) -> (r: Result<bool, TapShieldErr>)
    ensures
        r == eligibility(now, last_claim_timestamp, cooldown_seconds, has_claimed_before),
{
    if cooldown_seconds <= 0 {
        return Err(TapShieldErr::InvalidCooldown);
    }
    if !has_claimed_before {
        return Ok(true);
    }
    match now.checked_sub(last_claim_timestamp) {
        Some(elapsed) => Ok(elapsed >= cooldown_seconds),
        None => Err(TapShieldErr::InvalidTimestamp),
    }
}

} // verus!
