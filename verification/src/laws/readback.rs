//! Readbacks: what shows that a write has taken effect, and drift away from a
//! profile.
use vstd::prelude::*;

use crate::control::advance::{readback_verdict, shown_in, with_verdict};
use crate::control::coordinator::ControlCoordinator;
use crate::control::drift::profile_holds;
use crate::control::safety::ThermalFeed;
use crate::control::verification::{shown, PendingVerification, Readback};
use crate::domain::command::{Note, StepOutcome, Verification};
use crate::domain::evidence::{Evidence, Target};
use crate::domain::policy::{CpuPowerLimits, FanLevels, FanMode, GpuPlatformPolicy};
use crate::domain::profile::PerformanceProfile;
use crate::domain::state::{ObservedState, ObservedValue};

verus! {

/// A channel shows its level: it is left to firmware, or the tachometer is at
/// most ten levels away.
pub open spec fn turns_at(read: u16, target: u16) -> bool {
    target == 0 || (read <= target + 10 && target <= read + 10)
}

/// Fan levels are shown exactly by a sample that was taken no earlier than the
/// write and is near on both channels.
pub proof fn fan_levels_are_shown(target: FanLevels, read: Readback, feed: ThermalFeed, written_at: u64)
    ensures
        shown(Target::Fan(target), read, feed, written_at) <==> read.fan is Some && read.fan->Some_0.at >= written_at
            && turns_at(read.fan->Some_0.levels.left, target.left) && turns_at(
            read.fan->Some_0.levels.right,
            target.right,
        ),
{
}

/// A graphics policy is shown exactly by a reading with the same fields; the
/// power state counts only where it was requested.
pub proof fn graphics_policy_is_shown(
    target: GpuPlatformPolicy,
    dstate_requested: bool,
    read: Readback,
    feed: ThermalFeed,
    written_at: u64,
)
    ensures
        shown(Target::Gpu(target, true), read, feed, written_at) <==> read.gpu == Some(target),
        shown(Target::Gpu(target, false), read, feed, written_at) <==> read.gpu is Some && read.gpu->Some_0.ctgp
            == target.ctgp && read.gpu->Some_0.ppab == target.ppab && read.gpu->Some_0.slowdown_temp_c
            == target.slowdown_temp_c,
{
}

/// A limit shows: the register is at most a watt away.
pub open spec fn limits_at(mw: u64, watts: u8) -> bool {
    mw <= watts * 1000 + 1000 && watts * 1000 <= mw + 1000
}

/// Power limits are shown exactly by registers that were read no earlier than
/// the write and are near on every limit that was requested.
pub proof fn power_limits_are_shown(target: CpuPowerLimits, read: Readback, feed: ThermalFeed, written_at: u64)
    ensures
        shown(Target::Power(target), read, feed, written_at) <==> {
            &&& feed.power_limits is Some && feed.power_limits->Some_0.at >= written_at
            &&& limits_at(feed.power_limits->Some_0.pl1_mw, target.pl1_w)
            &&& limits_at(feed.power_limits->Some_0.pl2_mw, target.pl2_w)
            &&& target.pl4_w == 0 || (feed.pl4 is Some && feed.pl4->Some_0.at >= written_at && limits_at(
                feed.pl4->Some_0.pl4_mw,
                target.pl4_w,
            ))
        },
{
}

/// A new check polls at least once, first one interval after the write.
pub proof fn checks_start_later(target: Target, written_at: u64, polls: u32, interval: u64)
    ensures
        ({
            let p = PendingVerification::spec_new(target, written_at, polls, interval);
            &&& p.target == target && p.written_at == written_at && p.interval == interval
            &&& p.remaining == (if polls == 0 { 1 } else { polls })
            &&& written_at + interval <= u64::MAX ==> p.next_due == written_at + interval
            &&& p.actual_target is None
        }),
{
}

/// A poll does nothing before it is due. Then it verifies exactly if the
/// target is shown; else it uses one poll up, and the last one that is used up
/// fails the check with what was found. A check of a fan target fails at once
/// while an override holds the fans.
pub proof fn polls_decide(c: ControlCoordinator, p: PendingVerification, read: Readback, feed: ThermalFeed, now: u64)
    ensures
        ({
            let (q, v) = readback_verdict(c, p, read, feed, now);
            let overridden = p.target is Fan && c.safety.override_saved is Some;
            let hit = shown(p.target, read, feed, p.written_at);
            &&& q.target == p.target && q.written_at == p.written_at && q.interval == p.interval
            &&& overridden ==> q == p && v is Some && v->Some_0 is Failed
            &&& !overridden && now < p.next_due ==> q == p && v is None
            &&& !overridden && now >= p.next_due ==> {
                &&& v == Some(Verification::Verified) <==> hit
                &&& !hit ==> (v is Some && v->Some_0 is Failed <==> p.remaining <= 1) && (v is None <==> p.remaining > 1)
                &&& hit ==> q.remaining == p.remaining && q.next_due == p.next_due
                &&& !hit ==> q.remaining == (if p.remaining == 0 { 0 } else { p.remaining - 1 }) && (now + p.interval
                    <= u64::MAX ==> q.next_due == now + p.interval)
                &&& v matches Some(Verification::Failed { expected, actual }) ==> expected == Evidence::Requested(
                    p.target,
                ) && (p.target is Gpu && read.gpu is Some ==> actual == Evidence::GpuReading(read.gpu->Some_0)) && (
                p.target is Fan && read.fan is Some ==> actual == Evidence::FanReading(read.fan->Some_0.levels)) && (
                p.target is Power ==> actual == (Evidence::PowerReading { power: feed.power_limits, pl4: feed.pl4 }))
                &&& p.target is Gpu && read.gpu is Some ==> q.actual_target == Some(
                    Target::Gpu(read.gpu->Some_0, p.target->Gpu_1),
                )
                &&& !(p.target is Gpu && read.gpu is Some) ==> q.actual_target == p.actual_target
            }
        }),
{
    reveal(readback_verdict);
    reveal(PendingVerification::spec_poll);
}

/// A verified target becomes what is known of the machine, and nothing else
/// changes; any other verdict teaches nothing.
pub proof fn verified_targets_are_known(c: ControlCoordinator, p: PendingVerification, v: Verification, now: u64)
    ensures
        ({
            let d = shown_in(c, p, v, now);
            let t = match p.actual_target {
                Some(actual) => actual,
                None => p.target,
            };
            &&& !(v is Verified) ==> d == c
            &&& v is Verified ==> {
                &&& t matches Target::Fan(l) ==> d.observed.fan_mode.known() == Some(FanMode::Manual(l))
                    && d.observed.fan_mode is Verified && d.observed == (ObservedState {
                    fan_mode: d.observed.fan_mode,
                    ..c.observed
                })
                &&& t matches Target::Gpu(g, _) ==> d.observed.gpu_platform_policy.known() == Some(g)
                    && d.observed.gpu_platform_policy is Verified && d.observed == (ObservedState {
                    gpu_platform_policy: d.observed.gpu_platform_policy,
                    ..c.observed
                })
                &&& t matches Target::Power(l) ==> d.observed.power_limits.known() == Some(l)
                    && d.observed.power_limits is Verified && d.observed == (ObservedState {
                    power_limits: d.observed.power_limits,
                    ..c.observed
                })
                &&& d == (ControlCoordinator { observed: d.observed, ..c })
            }
        }),
{
    reveal(shown_in);
}

/// A verdict goes into the last step's evidence, and every other step stays.
pub proof fn verdicts_go_into_the_last_step(steps: Seq<StepOutcome>, p: PendingVerification, v: Verification)
    ensures
        ({
            let filled = with_verdict(steps, p, v);
            &&& filled.len() == steps.len()
            &&& forall|i: int| 0 <= i < steps.len() - 1 ==> #[trigger] filled[i] == steps[i]
            &&& steps.len() > 0 ==> {
                &&& filled.last().verification == v
                &&& filled.last().step == steps.last().step
                &&& filled.last().before == steps.last().before
                &&& filled.last().firmware_return == steps.last().firmware_return
                &&& filled.last().after == Some(Note::Readback { verdict: v, readback: p.actual_target })
            }
        }),
{
}

/// A setting that the profile makes is the one that is known.
pub open spec fn as_set<T>(target: Option<T>, actual: ObservedValue<T>) -> bool {
    target is None || (actual matches ObservedValue::Verified { value, .. } && value == target->Some_0) || (
    actual matches ObservedValue::TrustedWrite { value, .. } && value == target->Some_0)
}

/// The machine has drifted from a profile exactly if some setting that the
/// profile makes, of the processor or the graphics policy, is not the one that
/// is known. Fans, thermal mode and power limits do not count.
pub proof fn drift_is_a_changed_setting(p: PerformanceProfile, o: ObservedState)
    ensures
        profile_holds(p, o) <==> {
            &&& as_set(p.cpu.epp_ac, o.epp_ac)
            &&& as_set(p.cpu.epp_dc, o.epp_dc)
            &&& as_set(p.cpu.epp1_ac, o.epp1_ac)
            &&& as_set(p.cpu.epp1_dc, o.epp1_dc)
            &&& as_set(p.cpu.max_freq_mhz_ac, o.max_freq_ac)
            &&& as_set(p.cpu.max_freq_mhz_dc, o.max_freq_dc)
            &&& as_set(p.cpu.min_performance_ac, o.min_performance_ac)
            &&& as_set(p.cpu.min_performance_dc, o.min_performance_dc)
            &&& as_set(p.cpu.max_performance_ac, o.max_performance_ac)
            &&& as_set(p.cpu.max_performance_dc, o.max_performance_dc)
            &&& as_set(if p.cpu.boost_policy_ac is Some { p.cpu.boost_policy_ac } else { p.cpu.boost_policy }, o.boost_ac)
            &&& as_set(if p.cpu.boost_policy_dc is Some { p.cpu.boost_policy_dc } else { p.cpu.boost_policy }, o.boost_dc)
            &&& p.gpu_policy is None || (o.gpu_platform_policy.known() is Some && p.gpu_policy->Some_0.spec_apply(
                o.gpu_platform_policy.known()->Some_0,
            ) == o.gpu_platform_policy.known()->Some_0)
        },
{
}

/// A profile is dropped exactly if it is registered and the machine has
/// drifted from it.
pub proof fn drifted_profiles(c: ControlCoordinator)
    ensures
        c.spec_drifted() <==> c.observed.active_profile is Some && c.profiles.lookup(
            c.observed.active_profile->Some_0@,
        ) is Some && !profile_holds(c.profiles.lookup(c.observed.active_profile->Some_0@)->Some_0, c.observed),
{
}

} // verus!
