//! Physical rate limiting (cooldown enforcement).
//!
//! A minimum wall-clock interval is enforced between two successful
//! attestations, using only local device state: no network round-trip, no
//! centralized state to attack or bypass. An attacker without physical
//! access cannot trigger attestations faster than the cooldown allows.
//!
//! The cooldown state is an explicit value owned by the composition root
//! and passed in by reference, together with the current time, so that the
//! gate logic is a pure function of its inputs and can be exercised with
//! any clock.

use vstd::prelude::*;

verus! {

/// Minimum milliseconds between successful attestations.
pub const COOLDOWN_MS: u64 = 1000;

/// Timestamp of the last approved attestation, if any. Holds `None`
/// until the first attestation of the current power cycle succeeds.
pub struct CooldownState {
    pub last_success_ms: Option<u64>,
}

/// Result of a cooldown check.
#[derive(Debug, Clone, Copy, PartialEq, Eq, Structural)]
pub enum CooldownResult {
    /// Attestation allowed, cooldown has elapsed.
    Ready,
    /// Attestation blocked, must wait.
    Wait { remaining_ms: u64 },
}

/// Milliseconds elapsed from `last` to `now`, saturating at zero if the
/// clock reads earlier than the recorded success.
pub open spec fn spec_elapsed(last: u64, now: u64) -> int {
    if now >= last {
        now - last
    } else {
        0
    }
}

/// What `check` returns for a given state and clock reading.
pub open spec fn spec_check(state: CooldownState, now_ms: u64) -> CooldownResult {
    match state.last_success_ms {
        None => CooldownResult::Ready,
        Some(last) => {
            if spec_elapsed(last, now_ms) >= COOLDOWN_MS {
                CooldownResult::Ready
            } else {
                CooldownResult::Wait { remaining_ms: (COOLDOWN_MS - spec_elapsed(last, now_ms)) as u64 }
            }
        },
    }
}

impl CooldownState {
    /// Fresh state at boot: no attestation has succeeded yet.
    pub fn new() -> (r: CooldownState)
        ensures
            r.last_success_ms is None,
    {
        CooldownState { last_success_ms: None }
    }
}

/// Check whether enough time has passed since the last successful
/// attestation: `Ready` if no success was recorded yet or at least
/// [`COOLDOWN_MS`] elapsed, otherwise `Wait` with the exact remainder.
pub fn check(state: &CooldownState, now_ms: u64) -> (r: CooldownResult)
    ensures
        r == spec_check(*state, now_ms),
{
    match state.last_success_ms {
        None => CooldownResult::Ready,
        Some(last) => {
            let elapsed = if now_ms >= last {
                now_ms - last
            } else {
                0
            };
            if elapsed >= COOLDOWN_MS {
                CooldownResult::Ready
            } else {
                CooldownResult::Wait { remaining_ms: COOLDOWN_MS - elapsed }
            }
        },
    }
}

/// Record that an attestation was just produced at `now_ms`.
///
/// Call this immediately after successful signing, before output.
pub fn record_attestation(state: &mut CooldownState, now_ms: u64)
    ensures
        final(state).last_success_ms == Some(now_ms),
{
    state.last_success_ms = Some(now_ms);
}

/// Check and record as one compound operation.
///
/// Returns `Ok(())` and records `now_ms` if the attestation is allowed;
/// returns `Err(remaining_ms)` and leaves the state unchanged if the
/// cooldown is still active.
pub fn gate(state: &mut CooldownState, now_ms: u64) -> (r: Result<(), u64>)
    ensures
        spec_check(*old(state), now_ms) is Ready ==> ({
            &&& r == Ok::<(), u64>(())
            &&& final(state).last_success_ms == Some(now_ms)
        }),
        forall|w: u64| spec_check(*old(state), now_ms) == (CooldownResult::Wait { remaining_ms: w }) ==> ({
            &&& r == Err::<(), u64>(w)
            &&& *final(state) == *old(state)
        }),
{
    match check(state, now_ms) {
        CooldownResult::Ready => {
            record_attestation(state, now_ms);
            Ok(())
        },
        CooldownResult::Wait { remaining_ms } => Err(remaining_ms),
    }
}

} // verus!
