//! Horizon-crossing decisions.
//!
//! Two strategies serve the two bodies.  Sunset uses a fixed-point
//! iteration whose per-step arithmetic and stopping rule live here; the
//! surrounding loop recomputes the equation of time and the hour angle at
//! each candidate instant and feeds them back.  Moonset scans sampled
//! altitudes for a sign change and interpolates inside the bracketing
//! minute.  Either way, a day without the sought crossing yields an
//! explicit `NoEvent`, never a sentinel hour.

use vstd::prelude::*;

verus! {

/// A horizon crossing: the local clock instant in milliseconds, or the
/// explicit absence of one.
#[derive(Clone, Copy, Debug, PartialEq, Eq, Structural)]
pub enum HorizonEvent {
    At(i64),
    NoEvent,
}

/// The hour-angle equation's outcome at a candidate instant: the
/// half-arc in milliseconds, or no solution (`|cos H| > 1`, polar cases).
#[derive(Clone, Copy, Debug, PartialEq, Eq, Structural)]
pub enum HourAngleOutcome {
    Possible(i64),
    NoCrossing,
}

/// One step of the sunset fixed-point iteration.
#[derive(Clone, Copy, Debug, PartialEq, Eq, Structural)]
pub enum SunsetStep {
    /// The sun never reaches the target altitude on this day.
    NoSunset,
    /// The next candidate local time, and whether it moved less than the
    /// convergence tolerance from the previous one.
    Step { next_local_ms: i64, converged: bool },
}

/// Advance the sunset solver by one step: from the equation of time and
/// the hour angle evaluated at the previous candidate instant, produce
/// the next candidate local clock time `12h - EoT + H + kwd` and report
/// convergence when the candidate moved by less than 0.001 h (3.6 s).
///
/// `kwd_ms` is the offset of the local zone clock from local mean solar
/// time (`timezone - longitude/15` in hours, as milliseconds).
pub fn calculate_sunset(
    prev_local_ms: i64,
    eot_ms: i64,
    hour_angle: &HourAngleOutcome,
    kwd_ms: i64,
) -> (r: SunsetStep)
    requires
        -86_400_000 <= prev_local_ms <= 172_800_000,
        -86_400_000 <= eot_ms <= 86_400_000,
        -86_400_000 <= kwd_ms <= 86_400_000,
        hour_angle matches HourAngleOutcome::Possible(h) ==> 0 <= *h <= 86_400_000,
    ensures
        (r matches SunsetStep::NoSunset) == (hour_angle matches HourAngleOutcome::NoCrossing),
        hour_angle matches HourAngleOutcome::Possible(h) ==> (r matches SunsetStep::Step {
            next_local_ms,
            converged,
        } && next_local_ms == 43_200_000 - eot_ms + *h + kwd_ms && converged == (-3_600
            < next_local_ms - prev_local_ms < 3_600)),
{
    match hour_angle {
        HourAngleOutcome::NoCrossing => SunsetStep::NoSunset,
        HourAngleOutcome::Possible(h) => {
            let next_local_ms: i64 = 43_200_000 - eot_ms + *h + kwd_ms;
            let delta: i64 = next_local_ms - prev_local_ms;
            SunsetStep::Step { next_local_ms, converged: -3_600 < delta && delta < 3_600 }
        },
    }
}

/// A descending horizon crossing sits between samples `i-1` and `i`:
/// above the target before, at or below it after.
pub open spec fn is_descent(samples: Seq<i64>, i: int) -> bool {
    0 < i < samples.len() && samples[i - 1] > 0 && samples[i] <= 0
}

/// The interpolated crossing instant for the descent at index `i`, when
/// sample `i` was taken at local millisecond
/// `start_minute * 60_000 + i * 60_000`: linear interpolation inside the
/// bracketing minute, truncated to the millisecond.
pub open spec fn spec_descent_time(samples: Seq<i64>, start_minute: int, i: int) -> int {
    (start_minute + i) * 60_000 - 60_000 * (-samples[i]) / (samples[i - 1] - samples[i])
}

/// Scan one-minute altitude samples for the moment the body sets.
///
/// `samples[k]` is the altitude (microdegrees, relative to the target
/// altitude) at local minute `start_minute + k`.  The scan finds the
/// first sign change from above to at-or-below and interpolates within
/// that minute; if no sample pair brackets a descent, there is no event.
pub fn find_setting_time(samples: &Vec<i64>, start_minute: i64) -> (r: HorizonEvent)
    requires
        0 <= start_minute <= 1440,
        samples@.len() <= 1441,
        forall|k: int|
            0 <= k < samples@.len() ==> -360_000_000 <= #[trigger] samples@[k] <= 360_000_000,
    ensures
        (r matches HorizonEvent::NoEvent) == (forall|i: int| !is_descent(samples@, i)),
        r matches HorizonEvent::At(t) ==> exists|i: int|
            is_descent(samples@, i) && (forall|j: int| 0 < j < i ==> !is_descent(samples@, j)) && t
                == spec_descent_time(samples@, start_minute as int, i) && (start_minute + i - 1)
                * 60_000 <= t <= (start_minute + i) * 60_000,
{
    let n = samples.len();
    if n == 0 {
        return HorizonEvent::NoEvent;
    }
    let mut i: usize = 1;
    while i < n
        invariant
            1 <= i <= n,
            n == samples@.len() <= 1441,
            0 <= start_minute <= 1440,
            forall|k: int|
                0 <= k < samples@.len() ==> -360_000_000 <= #[trigger] samples@[k] <= 360_000_000,
            forall|j: int| 0 < j < i ==> !is_descent(samples@, j),
        decreases n - i,
    {
        let prev = samples[i - 1];
        let cur = samples[i];
        if prev > 0 && cur <= 0 {
            let minute_ms: i64 = (start_minute + i as i64) * 60_000;
            let t: i64 = minute_ms - 60_000 * (-cur) / (prev - cur);
            proof {
                assert(is_descent(samples@, i as int));
                assert(t == spec_descent_time(samples@, start_minute as int, i as int));
                assert(0 <= 60_000 * (-cur) / (prev - cur) <= 60_000) by (nonlinear_arith)
                    requires
                        prev > 0 && cur <= 0 && -360_000_000 <= cur && prev <= 360_000_000,
                ;
            }
            return HorizonEvent::At(t);
        }
        i = i + 1;
    }
    HorizonEvent::NoEvent
}

} // verus!
