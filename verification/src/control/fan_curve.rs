//! Software fan-curve scheduling: the controlling temperature is smoothed,
//! and a new target is only written after a quiet second and a change of at
//! least one level.
use vstd::prelude::*;

use super::safety::{age, elapsed};
use crate::domain::evidence::Sample;
use crate::domain::policy::{FanCurve, FanLevels, FINE, FINE_PER_MILLI};

verus! {

/// The oldest temperature a curve target may rest on, in milliseconds.
pub const TEMP_FRESH_FOR_CURVE: u64 = 5_000;

/// The shortest time between two curve writes, in milliseconds.
pub const MIN_WRITE_INTERVAL: u64 = 1_000;

/// The smallest change of a level that is worth a write.
pub const MIN_LEVEL_CHANGE: u16 = 1;

/// The curve controller's memory.
#[derive(Clone, Copy, Debug, PartialEq, Eq, Structural)]
pub struct FanCurveController {
    pub last_target: Option<FanLevels>,
    /// Smoothed controlling temperature in fine units: its fraction of a
    /// millidegree is kept.
    pub smoothed_temp: Option<i128>,
    /// When a target was last written, or a write last failed.
    pub last_write_at: Option<u64>,
}

/// The value of a sample that is fresh.
pub open spec fn fresh(sample: Option<Sample>, now: u64) -> Option<i64> {
    match sample {
        Some(s) => if age(now, s.at) <= TEMP_FRESH_FOR_CURVE { Some(s.value) } else { None },
        None => None,
    }
}

fn fresh_value(sample: Option<Sample>, now: u64) -> (r: Option<i64>)
    ensures
        r == fresh(sample, now),
{
    match sample {
        Some(s) => if elapsed(now, s.at) <= TEMP_FRESH_FOR_CURVE { Some(s.value) } else { None },
        None => None,
    }
}

/// The controlling temperature: the hotter of the fresh samples, and none
/// without a fresh CPU sample.
pub open spec fn controlling_temp(cpu: Option<Sample>, gpu: Option<Sample>, now: u64) -> Option<i64> {
    match (fresh(cpu, now), fresh(gpu, now)) {
        (Some(c), Some(g)) => Some(if c >= g { c } else { g }),
        (Some(c), None) => Some(c),
        (None, _) => None,
    }
}

/// The controlling temperature of a software curve.
pub fn effective_temperature(cpu: Option<Sample>, gpu: Option<Sample>, now: u64) -> (r: Option<i64>)
    ensures
        r == controlling_temp(cpu, gpu, now),
{
    match (fresh_value(cpu, now), fresh_value(gpu, now)) {
        (Some(c), Some(g)) => Some(if c >= g { c } else { g }),
        (Some(c), None) => Some(c),
        (None, _) => None,
    }
}

/// Half way from `previous` to `temp`; of two whole numbers in the middle, the
/// one that is nearer to `temp`.
pub open spec fn halfway(previous: int, temp: int) -> int {
    if previous <= temp { temp - (temp - previous) / 2 } else { temp + (previous - temp) / 2 }
}

fn distance(low: i128, high: i128) -> (r: u128)
    requires
        low <= high,
    ensures
        r == high - low,
{
    if low >= 0 || high < 0 {
        (high - low) as u128
    } else {
        high as u128 + ((-(low + 1)) as u128 + 1)
    }
}

fn middle(previous: i128, temp: i128) -> (r: i128)
    ensures
        r == halfway(previous as int, temp as int),
{
    if previous <= temp {
        temp - (distance(previous, temp) / 2) as i128
    } else {
        temp + (distance(temp, previous) / 2) as i128
    }
}

/// A temperature in millidegrees, in fine units.
pub open spec fn fine(temp: i64) -> int {
    temp * FINE_PER_MILLI
}

fn to_fine(temp: i64) -> (r: i128)
    ensures
        r == fine(temp),
{
    temp as i128 * FINE_PER_MILLI
}

/// How far two levels are apart.
pub fn level_delta(left: u16, right: u16) -> (r: u16)
    ensures
        r == if left >= right { left - right } else { right - left },
{
    if left >= right { left - right } else { right - left }
}

impl FanCurveController {
    /// A controller that has written nothing.
    pub open spec fn spec_new() -> FanCurveController {
        FanCurveController { last_target: None, smoothed_temp: None, last_write_at: None }
    }

    /// The controller after a curve was started at a target and temperature.
    pub open spec fn spec_started(target: FanLevels, temp: i64, now: u64) -> FanCurveController {
        FanCurveController {
            last_target: Some(target),
            smoothed_temp: Some(fine(temp) as i128),
            last_write_at: Some(now),
        }
    }

    pub fn new() -> (r: FanCurveController)
        ensures
            r == FanCurveController::spec_new(),
    {
        FanCurveController { last_target: None, smoothed_temp: None, last_write_at: None }
    }

    /// Starts a curve whose first target has just been written.
    pub fn reset(&mut self, target: FanLevels, temp: i64, now: u64)
        ensures
            *final(self) == FanCurveController::spec_started(target, temp, now),
    {
        self.last_target = Some(target);
        self.smoothed_temp = Some(to_fine(temp));
        self.last_write_at = Some(now);
    }

    /// Forgets the curve.
    pub fn clear(&mut self)
        ensures
            *final(self) == FanCurveController::spec_new(),
    {
        *self = FanCurveController::new();
    }

    pub fn last_target(&self) -> (r: Option<FanLevels>)
        ensures
            r == self.last_target,
    {
        self.last_target
    }

    /// The smoothed temperature once `temp` has been taken in, in fine units.
    pub open spec fn spec_smoothed(self, temp: i64) -> int {
        match self.smoothed_temp {
            Some(previous) => halfway(previous as int, fine(temp)),
            None => fine(temp),
        }
    }

    /// `target` is worth a write: it differs from the last one by a level.
    pub open spec fn spec_changed(self, target: (int, int)) -> bool {
        match self.last_target {
            Some(last) => last.left != target.0 || last.right != target.1,
            None => true,
        }
    }

    /// The last write is long enough ago.
    pub open spec fn spec_quiet(self, now: u64) -> bool {
        self.last_write_at matches Some(at) ==> age(now, at) >= MIN_WRITE_INTERVAL
    }

    /// The next target to write and the smoothed temperature it rests on, if
    /// this tick may write one. Every tick with a controlling temperature
    /// takes that temperature in; one without changes nothing.
    pub fn next_target(
        &mut self,
        curve: &FanCurve,
        cpu: Option<Sample>,
        gpu: Option<Sample>,
        now: u64,
    ) -> (r: Option<(FanLevels, i128)>)
        ensures
            controlling_temp(cpu, gpu, now) is None ==> r is None && *final(self) == *old(self),
            controlling_temp(cpu, gpu, now) matches Some(temp) ==> ({
                let smoothed = old(self).spec_smoothed(temp);
                let target = curve.spec_target_in(smoothed, FINE as int);
                &&& *final(self) == (FanCurveController {
                    smoothed_temp: Some(smoothed as i128),
                    ..*old(self)
                })
                &&& r is Some <==> old(self).spec_changed(target) && old(self).spec_quiet(now)
                &&& r matches Some((levels, t)) ==> t == smoothed && (levels.left as int, levels.right as int)
                    == target
            }),
    {
        let temp = match effective_temperature(cpu, gpu, now) {
            Some(temp) => temp,
            None => return None,
        };
        let smoothed: i128 = match self.smoothed_temp {
            Some(previous) => middle(previous, to_fine(temp)),
            None => to_fine(temp),
        };
        self.smoothed_temp = Some(smoothed);
        let target = curve.target_in(smoothed, FINE);
        let changed = match self.last_target {
            Some(last) => level_delta(last.left, target.left) >= MIN_LEVEL_CHANGE || level_delta(
                last.right,
                target.right,
            ) >= MIN_LEVEL_CHANGE,
            None => true,
        };
        let quiet = match self.last_write_at {
            Some(at) => elapsed(now, at) >= MIN_WRITE_INTERVAL,
            None => true,
        };
        if changed && quiet { Some((target, smoothed)) } else { None }
    }

    /// Takes note of a target that was written.
    pub fn record_write(&mut self, target: FanLevels, now: u64)
        ensures
            *final(self) == (FanCurveController {
                last_target: Some(target),
                last_write_at: Some(now),
                ..*old(self)
            }),
    {
        self.last_target = Some(target);
        self.last_write_at = Some(now);
    }

    /// Takes note of a write that failed: it is not retried at once, and the
    /// last target stays.
    pub fn record_failure(&mut self, now: u64)
        ensures
            *final(self) == (FanCurveController { last_write_at: Some(now), ..*old(self) }),
    {
        self.last_write_at = Some(now);
    }
}

/// Smoothing moves the temperature half way toward the new sample and never
/// past it. It comes to rest only at the sample itself.
pub proof fn smoothing_moves_toward_the_sample(previous: int, temp: int)
    ensures
        previous <= temp ==> previous <= halfway(previous, temp) <= temp,
        temp <= previous ==> temp <= halfway(previous, temp) <= previous,
        halfway(previous, temp) == previous <==> previous == temp,
        previous <= temp ==> previous + temp <= 2 * halfway(previous, temp) <= previous + temp + 1,
        temp <= previous ==> previous + temp - 1 <= 2 * halfway(previous, temp) <= previous + temp,
{
}

/// Without a fresh CPU sample there is no controlling temperature, whatever
/// the GPU reads.
pub proof fn no_cpu_sample_no_control(cpu: Option<Sample>, gpu: Option<Sample>, now: u64)
    requires
        fresh(cpu, now) is None,
    ensures
        controlling_temp(cpu, gpu, now) is None,
{
}

} // verus!
