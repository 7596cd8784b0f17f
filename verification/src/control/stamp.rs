//! Stamps on the observed state: what a readback or a write teaches.
use vstd::prelude::*;

use crate::domain::evidence::{Knob, Target};
use crate::domain::policy::{BoostPolicy, FanMode, GpuPlatformPolicy, PpmRail, WindowsPpmState};
use crate::domain::state::{Channel, ObservedState, ObservedValue};

verus! {

/// A value that was read back.
pub open spec fn verified<T>(value: T, at: u64, source: Channel) -> ObservedValue<T> {
    ObservedValue::Verified { value, at, source }
}

/// A value that was written on trust.
pub open spec fn trusted<T>(value: T, at: u64) -> ObservedValue<T> {
    ObservedValue::TrustedWrite { value, at }
}

/// A new reading replaces what was known; without one, what was known stays.
pub open spec fn restamped<T>(
    known: ObservedValue<T>,
    reading: Option<T>,
    at: u64,
    source: Channel,
) -> ObservedValue<T> {
    match reading {
        Some(value) => verified(value, at, source),
        None => known,
    }
}

fn restamp<T: Copy>(known: ObservedValue<T>, reading: Option<T>, at: u64, source: Channel) -> (r: ObservedValue<T>)
    ensures
        r == restamped(known, reading, at, source),
{
    match reading {
        Some(value) => ObservedValue::Verified { value, at, source },
        None => known,
    }
}

/// The state with every processor setting restamped that was read.
pub open spec fn with_rails(o: ObservedState, ac: PpmRail, dc: PpmRail, now: u64) -> ObservedState {
    ObservedState {
        epp_ac: restamped(o.epp_ac, ac.epp, now, Channel::Ppm(Knob::Epp)),
        epp_dc: restamped(o.epp_dc, dc.epp, now, Channel::Ppm(Knob::Epp)),
        epp1_ac: restamped(o.epp1_ac, ac.epp1, now, Channel::Ppm(Knob::Epp1)),
        epp1_dc: restamped(o.epp1_dc, dc.epp1, now, Channel::Ppm(Knob::Epp1)),
        max_freq_ac: restamped(o.max_freq_ac, ac.max_freq_mhz, now, Channel::Ppm(Knob::MaxFrequency)),
        max_freq_dc: restamped(o.max_freq_dc, dc.max_freq_mhz, now, Channel::Ppm(Knob::MaxFrequency)),
        boost_ac: restamped(o.boost_ac, ac.boost_policy, now, Channel::Ppm(Knob::Boost)),
        boost_dc: restamped(o.boost_dc, dc.boost_policy, now, Channel::Ppm(Knob::Boost)),
        min_performance_ac: restamped(
            o.min_performance_ac,
            ac.min_performance,
            now,
            Channel::Ppm(Knob::MinPerformance),
        ),
        min_performance_dc: restamped(
            o.min_performance_dc,
            dc.min_performance,
            now,
            Channel::Ppm(Knob::MinPerformance),
        ),
        max_performance_ac: restamped(
            o.max_performance_ac,
            ac.max_performance,
            now,
            Channel::Ppm(Knob::MaxPerformance),
        ),
        max_performance_dc: restamped(
            o.max_performance_dc,
            dc.max_performance,
            now,
            Channel::Ppm(Knob::MaxPerformance),
        ),
        ..o
    }
}

/// Stamps every processor setting that was read.
pub fn stamp_rails(o: &mut ObservedState, ac: &PpmRail, dc: &PpmRail, now: u64)
    ensures
        *final(o) == with_rails(*old(o), *ac, *dc, now),
{
    o.epp_ac = restamp(o.epp_ac, ac.epp, now, Channel::Ppm(Knob::Epp));
    o.epp_dc = restamp(o.epp_dc, dc.epp, now, Channel::Ppm(Knob::Epp));
    o.epp1_ac = restamp(o.epp1_ac, ac.epp1, now, Channel::Ppm(Knob::Epp1));
    o.epp1_dc = restamp(o.epp1_dc, dc.epp1, now, Channel::Ppm(Knob::Epp1));
    o.max_freq_ac = restamp(o.max_freq_ac, ac.max_freq_mhz, now, Channel::Ppm(Knob::MaxFrequency));
    o.max_freq_dc = restamp(o.max_freq_dc, dc.max_freq_mhz, now, Channel::Ppm(Knob::MaxFrequency));
    o.boost_ac = restamp(o.boost_ac, ac.boost_policy, now, Channel::Ppm(Knob::Boost));
    o.boost_dc = restamp(o.boost_dc, dc.boost_policy, now, Channel::Ppm(Knob::Boost));
    o.min_performance_ac = restamp(
        o.min_performance_ac,
        ac.min_performance,
        now,
        Channel::Ppm(Knob::MinPerformance),
    );
    o.min_performance_dc = restamp(
        o.min_performance_dc,
        dc.min_performance,
        now,
        Channel::Ppm(Knob::MinPerformance),
    );
    o.max_performance_ac = restamp(
        o.max_performance_ac,
        ac.max_performance,
        now,
        Channel::Ppm(Knob::MaxPerformance),
    );
    o.max_performance_dc = restamp(
        o.max_performance_dc,
        dc.max_performance,
        now,
        Channel::Ppm(Knob::MaxPerformance),
    );
}

/// Stamps every processor setting that the Windows state holds.
pub fn stamp_windows_ppm(observed: &mut ObservedState, state: &WindowsPpmState, now: u64)
    ensures
        *final(observed) == with_rails(*old(observed), state.ac, state.dc, now),
{
    stamp_rails(observed, &state.ac, &state.dc, now);
}

/// The processor settings read one by one, each on mains and on battery;
/// `None` where one could not be read.
#[derive(Clone, Copy, Debug, PartialEq)]
pub struct PpmReads {
    pub epp: Option<(u8, u8)>,
    pub epp1: Option<(u8, u8)>,
    pub max_freq_mhz: Option<(u32, u32)>,
    pub boost_policy: Option<(BoostPolicy, BoostPolicy)>,
    pub min_performance: Option<(u8, u8)>,
    pub max_performance: Option<(u8, u8)>,
}

/// The mains side of a pair.
pub open spec fn ac_side<T>(pair: Option<(T, T)>) -> Option<T> {
    match pair {
        Some(p) => Some(p.0),
        None => None,
    }
}

/// The battery side of a pair.
pub open spec fn dc_side<T>(pair: Option<(T, T)>) -> Option<T> {
    match pair {
        Some(p) => Some(p.1),
        None => None,
    }
}

fn sides<T: Copy>(pair: Option<(T, T)>) -> (r: (Option<T>, Option<T>))
    ensures
        r == (ac_side(pair), dc_side(pair)),
{
    match pair {
        Some(p) => (Some(p.0), Some(p.1)),
        None => (None, None),
    }
}

impl PpmReads {
    pub open spec fn ac_rail(self) -> PpmRail {
        PpmRail {
            epp: ac_side(self.epp),
            epp1: ac_side(self.epp1),
            max_freq_mhz: ac_side(self.max_freq_mhz),
            boost_policy: ac_side(self.boost_policy),
            min_performance: ac_side(self.min_performance),
            max_performance: ac_side(self.max_performance),
        }
    }

    pub open spec fn dc_rail(self) -> PpmRail {
        PpmRail {
            epp: dc_side(self.epp),
            epp1: dc_side(self.epp1),
            max_freq_mhz: dc_side(self.max_freq_mhz),
            boost_policy: dc_side(self.boost_policy),
            min_performance: dc_side(self.min_performance),
            max_performance: dc_side(self.max_performance),
        }
    }

    /// The readings by power source.
    pub fn rails(&self) -> (r: (PpmRail, PpmRail))
        ensures
            r == (self.ac_rail(), self.dc_rail()),
    {
        let (epp_ac, epp_dc) = sides(self.epp);
        let (epp1_ac, epp1_dc) = sides(self.epp1);
        let (freq_ac, freq_dc) = sides(self.max_freq_mhz);
        let (boost_ac, boost_dc) = sides(self.boost_policy);
        let (min_ac, min_dc) = sides(self.min_performance);
        let (max_ac, max_dc) = sides(self.max_performance);
        (
            PpmRail {
                epp: epp_ac,
                epp1: epp1_ac,
                max_freq_mhz: freq_ac,
                boost_policy: boost_ac,
                min_performance: min_ac,
                max_performance: max_ac,
            },
            PpmRail {
                epp: epp_dc,
                epp1: epp1_dc,
                max_freq_mhz: freq_dc,
                boost_policy: boost_dc,
                min_performance: min_dc,
                max_performance: max_dc,
            },
        )
    }
}

/// The state with the GPU policy restamped if it was read.
pub open spec fn with_gpu(o: ObservedState, gpu: Option<GpuPlatformPolicy>, now: u64) -> ObservedState {
    ObservedState {
        gpu_platform_policy: restamped(o.gpu_platform_policy, gpu, now, Channel::GpuPolicy),
        ..o
    }
}

/// Stamps a GPU policy that was read.
pub fn stamp_gpu(o: &mut ObservedState, gpu: Option<GpuPlatformPolicy>, now: u64)
    ensures
        *final(o) == with_gpu(*old(o), gpu, now),
{
    o.gpu_platform_policy = restamp(o.gpu_platform_policy, gpu, now, Channel::GpuPolicy);
}

/// What the machine is known to do at start: the Windows state if there is
/// one, else the settings read one by one, and the GPU policy.
pub fn initial_observed(
    windows_ppm: Option<&WindowsPpmState>,
    reads: &PpmReads,
    gpu: Option<GpuPlatformPolicy>,
    now: u64,
) -> (r: ObservedState)
    ensures
        r == with_gpu(
            match windows_ppm {
                Some(state) => with_rails(ObservedState::spec_blank(), state.ac, state.dc, now),
                None => with_rails(ObservedState::spec_blank(), reads.ac_rail(), reads.dc_rail(), now),
            },
            gpu,
            now,
        ),
{
    let mut o = ObservedState::default();
    match windows_ppm {
        Some(state) => stamp_windows_ppm(&mut o, state, now),
        None => {
            let (ac, dc) = reads.rails();
            stamp_rails(&mut o, &ac, &dc, now);
        },
    }
    stamp_gpu(&mut o, gpu, now);
    o
}

/// The state once a readback has shown `target`.
pub open spec fn with_target(o: ObservedState, target: Target, now: u64) -> ObservedState {
    match target {
        Target::Fan(levels) => ObservedState {
            fan_mode: verified(FanMode::Manual(levels), now, Channel::FanLevels),
            ..o
        },
        Target::Gpu(policy, _) => ObservedState {
            gpu_platform_policy: verified(policy, now, Channel::GpuPolicy),
            ..o
        },
        Target::Power(limits) => ObservedState {
            power_limits: verified(limits, now, Channel::PowerLimits),
            ..o
        },
    }
}

/// Stamps what a readback has shown.
pub fn stamp_verified(o: &mut ObservedState, target: Target, now: u64)
    ensures
        *final(o) == with_target(*old(o), target, now),
{
    match target {
        Target::Fan(levels) => {
            o.fan_mode = ObservedValue::Verified {
                value: FanMode::Manual(levels),
                at: now,
                source: Channel::FanLevels,
            };
        },
        Target::Gpu(policy, _) => {
            o.gpu_platform_policy = ObservedValue::Verified { value: policy, at: now, source: Channel::GpuPolicy };
        },
        Target::Power(limits) => {
            o.power_limits = ObservedValue::Verified { value: limits, at: now, source: Channel::PowerLimits };
        },
    }
}

/// A restamp never erases knowledge: what was known stays known.
pub proof fn restamp_keeps_knowledge<T>(known: ObservedValue<T>, reading: Option<T>, at: u64, source: Channel)
    ensures
        known.known() is Some ==> restamped(known, reading, at, source).known() is Some,
        reading is None ==> restamped(known, reading, at, source) == known,
        reading matches Some(v) ==> restamped(known, reading, at, source).known() == Some(v),
{
}

} // verus!
