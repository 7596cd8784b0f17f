//! Delayed readbacks: scheduled work, never a wait on the control thread.
use vstd::prelude::*;

use super::keepalive::{after, moment_after};
use super::safety::ThermalFeed;
use crate::domain::command::Verification;
use crate::domain::evidence::{Evidence, FanSample, Target};
use crate::domain::policy::{CpuPowerLimits, FanLevels, GpuPlatformPolicy};

verus! {

/// Tolerated distance between a fan target and its tachometer, in levels.
pub const FAN_TOLERANCE: u16 = 10;

/// Tolerated distance between a power limit and its readback, in milliwatts.
pub const POWER_TOLERANCE_MW: u64 = 1_000;

/// What the firmware reported when a readback was polled; `None` where it
/// could not be read.
#[derive(Clone, Copy, Debug, PartialEq, Eq, Structural)]
pub struct Readback {
    pub fan: Option<FanSample>,
    pub gpu: Option<GpuPlatformPolicy>,
}

/// A write whose effect is still to be read back.
#[derive(Clone, Copy, Debug, PartialEq, Eq, Structural)]
pub struct PendingVerification {
    pub target: Target,
    pub written_at: u64,
    pub next_due: u64,
    /// Polls that are left.
    pub remaining: u32,
    /// Milliseconds between polls.
    pub interval: u64,
    /// The target as the last readback showed it.
    pub actual_target: Option<Target>,
}

/// Two integers are at most `tolerance` apart.
pub open spec fn near(a: int, b: int, tolerance: int) -> bool {
    -tolerance <= a - b <= tolerance
}

fn near_level(a: u16, b: u16) -> (r: bool)
    ensures
        r == near(a as int, b as int, FAN_TOLERANCE as int),
{
    if a >= b { a - b <= FAN_TOLERANCE } else { b - a <= FAN_TOLERANCE }
}

fn near_power(mw: u64, watts: u8) -> (r: bool)
    ensures
        r == near(mw as int, watts * 1000, POWER_TOLERANCE_MW as int),
{
    let target: u64 = watts as u64 * 1000;
    if mw >= target { mw - target <= POWER_TOLERANCE_MW } else { target - mw <= POWER_TOLERANCE_MW }
}

/// A fan reading taken after the write shows the target; a channel left to
/// firmware shows anything.
pub open spec fn fan_shown(target: FanLevels, sample: Option<FanSample>, written_at: u64) -> bool {
    sample matches Some(s) && s.at >= written_at && (target.left == 0 || near(
        s.levels.left as int,
        target.left as int,
        FAN_TOLERANCE as int,
    )) && (target.right == 0 || near(s.levels.right as int, target.right as int, FAN_TOLERANCE as int))
}

/// A GPU policy readback shows the target; the power state only counts where
/// it was requested.
pub open spec fn gpu_shown(target: GpuPlatformPolicy, dstate_requested: bool, read: Option<GpuPlatformPolicy>) -> bool {
    read matches Some(actual) && actual.ctgp == target.ctgp && actual.ppab == target.ppab && actual.slowdown_temp_c
        == target.slowdown_temp_c && (dstate_requested ==> actual.dstate == target.dstate)
}

/// Power readings taken after the write show the limits; the peak limit only
/// counts where it was requested.
pub open spec fn power_shown(target: CpuPowerLimits, feed: ThermalFeed, written_at: u64) -> bool {
    &&& feed.power_limits matches Some(s) && s.at >= written_at && near(
        s.pl1_mw as int,
        target.pl1_w * 1000,
        POWER_TOLERANCE_MW as int,
    ) && near(s.pl2_mw as int, target.pl2_w * 1000, POWER_TOLERANCE_MW as int)
    &&& target.pl4_w != 0 ==> (feed.pl4 matches Some(s) && s.at >= written_at && near(
        s.pl4_mw as int,
        target.pl4_w * 1000,
        POWER_TOLERANCE_MW as int,
    ))
}

/// The target is shown by what was read.
pub open spec fn shown(target: Target, read: Readback, feed: ThermalFeed, written_at: u64) -> bool {
    match target {
        Target::Fan(levels) => fan_shown(levels, read.fan, written_at),
        Target::Gpu(policy, dstate) => gpu_shown(policy, dstate, read.gpu),
        Target::Power(limits) => power_shown(limits, feed, written_at),
    }
}

/// What a poll found, as evidence.
pub open spec fn found(target: Target, read: Readback, feed: ThermalFeed) -> Evidence {
    match target {
        Target::Fan(_) => match read.fan {
            Some(s) => Evidence::FanReading(s.levels),
            None => Evidence::FanUnavailable,
        },
        Target::Gpu(_, _) => match read.gpu {
            Some(p) => Evidence::GpuReading(p),
            None => Evidence::GpuUnavailable,
        },
        Target::Power(_) => Evidence::PowerReading { power: feed.power_limits, pl4: feed.pl4 },
    }
}

fn fan_matches(target: &FanLevels, sample: &Option<FanSample>, written_at: u64) -> (r: bool)
    ensures
        r == fan_shown(*target, *sample, written_at),
{
    match sample {
        Some(s) => s.at >= written_at && (target.left == 0 || near_level(s.levels.left, target.left)) && (target.right
            == 0 || near_level(s.levels.right, target.right)),
        None => false,
    }
}

fn gpu_matches(target: &GpuPlatformPolicy, dstate_requested: bool, read: &Option<GpuPlatformPolicy>) -> (r: bool)
    ensures
        r == gpu_shown(*target, dstate_requested, *read),
{
    match read {
        Some(actual) => actual.ctgp == target.ctgp && actual.ppab == target.ppab && actual.slowdown_temp_c
            == target.slowdown_temp_c && (!dstate_requested || actual.dstate == target.dstate),
        None => false,
    }
}

fn power_matches(target: &CpuPowerLimits, feed: &ThermalFeed, written_at: u64) -> (r: bool)
    ensures
        r == power_shown(*target, *feed, written_at),
{
    let pl12 = match feed.power_limits {
        Some(s) => s.at >= written_at && near_power(s.pl1_mw, target.pl1_w) && near_power(s.pl2_mw, target.pl2_w),
        None => false,
    };
    let pl4 = if target.pl4_w == 0 {
        true
    } else {
        match feed.pl4 {
            Some(s) => s.at >= written_at && near_power(s.pl4_mw, target.pl4_w),
            None => false,
        }
    };
    pl12 && pl4
}

impl PendingVerification {
    pub open spec fn spec_new(target: Target, written_at: u64, polls: u32, interval: u64) -> PendingVerification {
        PendingVerification {
            target,
            written_at,
            next_due: after(written_at, interval),
            remaining: if polls >= 1 { polls } else { 1 },
            interval,
            actual_target: None,
        }
    }

    /// A verification with at least one poll, the first one interval after
    /// the write.
    pub fn new(target: Target, written_at: u64, polls: u32, interval: u64) -> (r: PendingVerification)
        ensures
            r == PendingVerification::spec_new(target, written_at, polls, interval),
    {
        PendingVerification {
            target,
            written_at,
            next_due: moment_after(written_at, interval),
            remaining: if polls >= 1 { polls } else { 1 },
            interval,
            actual_target: None,
        }
    }

    /// The target as the readback shows it: a GPU policy that could be read,
    /// else what was shown before.
    pub open spec fn spec_actual(self, read: Readback) -> Option<Target> {
        match (self.target, read.gpu) {
            (Target::Gpu(_, dstate), Some(actual)) => Some(Target::Gpu(actual, dstate)),
            _ => self.actual_target,
        }
    }

    /// One poll: nothing before it is due; then a verdict as soon as the
    /// target is shown, and a failure once no poll is left.
    #[verifier::opaque]
    pub open spec fn spec_poll(self, read: Readback, feed: ThermalFeed, now: u64) -> (
        PendingVerification,
        Option<Verification>,
    ) {
        let seen = PendingVerification { actual_target: self.spec_actual(read), ..self };
        if now < self.next_due {
            (self, None)
        } else if shown(self.target, read, feed, self.written_at) {
            (seen, Some(Verification::Verified))
        } else {
            (
                PendingVerification {
                    remaining: if self.remaining >= 1 { (self.remaining - 1) as u32 } else { 0 },
                    next_due: after(now, self.interval),
                    ..seen
                },
                if self.remaining <= 1 {
                    Some(
                        Verification::Failed {
                            expected: Evidence::Requested(self.target),
                            actual: found(self.target, read, feed),
                        },
                    )
                } else {
                    None
                },
            )
        }
    }

    /// Polls once.
    pub fn poll(&mut self, read: &Readback, feed: &ThermalFeed, now: u64) -> (r: Option<Verification>)
        ensures
            (*final(self), r) == old(self).spec_poll(*read, *feed, now),
            final(self).target == old(self).target,
    {
        proof {
            reveal(PendingVerification::spec_poll);
        }
        if now < self.next_due {
            return None;
        }
        let (hit, actual) = match self.target {
            Target::Fan(target) => (
                fan_matches(&target, &read.fan, self.written_at),
                match read.fan {
                    Some(s) => Evidence::FanReading(s.levels),
                    None => Evidence::FanUnavailable,
                },
            ),
            Target::Gpu(target, dstate_requested) => {
                if let Some(actual) = read.gpu {
                    self.actual_target = Some(Target::Gpu(actual, dstate_requested));
                }
                (
                    gpu_matches(&target, dstate_requested, &read.gpu),
                    match read.gpu {
                        Some(p) => Evidence::GpuReading(p),
                        None => Evidence::GpuUnavailable,
                    },
                )
            },
            Target::Power(target) => (
                power_matches(&target, feed, self.written_at),
                Evidence::PowerReading { power: feed.power_limits, pl4: feed.pl4 },
            ),
        };
        if hit {
            return Some(Verification::Verified);
        }
        self.remaining = if self.remaining >= 1 { self.remaining - 1 } else { 0 };
        self.next_due = moment_after(now, self.interval);
        if self.remaining == 0 {
            Some(Verification::Failed { expected: Evidence::Requested(self.target), actual })
        } else {
            None
        }
    }
}

/// A fan or power sample from before the write never verifies it.
pub proof fn old_samples_never_verify(target: Target, read: Readback, feed: ThermalFeed, written_at: u64)
    requires
        target is Fan ==> (read.fan matches Some(s) ==> s.at < written_at),
        target is Power ==> (feed.power_limits matches Some(s) ==> s.at < written_at),
        !(target is Gpu),
    ensures
        !shown(target, read, feed, written_at),
{
}

/// A power state that was not requested may drift without failing the
/// verification.
pub proof fn unrequested_dstate_may_drift(target: GpuPlatformPolicy, read: GpuPlatformPolicy, dstate: u8)
    ensures
        gpu_shown(target, false, Some(read)) <==> gpu_shown(
            target,
            false,
            Some(GpuPlatformPolicy { dstate, ..read }),
        ),
{
}

} // verus!
