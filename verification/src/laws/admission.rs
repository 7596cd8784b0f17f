//! Write-time validation: which commands are admitted, and why the others are
//! refused.
use vstd::prelude::*;

use crate::control::safety::{SafetySupervisor, ThermalFeed};
use crate::domain::capability::{CapabilitySet, Support};
use crate::domain::command::ControlCommand;
use crate::domain::error::{ControlError, UnsafeReason};
use crate::domain::policy::{
    CpuPolicy, CpuPowerLimits, FanCurve, FanCurvePoint, FanLevels, FanMode, GpuPlatformPolicy, GpuPolicyPatch,
    ThermalMode,
};
use crate::domain::state::{ObservedState, ObservedValue};

verus! {

/// An unsafe request.
pub open spec fn unsafe_for(reason: UnsafeReason) -> Option<ControlError> {
    Some(ControlError::UnsafeRequest { reason })
}

/// The overlay is known to be on.
pub open spec fn overlay_on(observed: ObservedState) -> bool {
    match observed.max_fan {
        ObservedValue::Unknown => false,
        ObservedValue::Verified { value, .. } => value,
        ObservedValue::TrustedWrite { value, .. } => value,
    }
}

/// A level that is neither left to firmware nor inside the range.
pub open spec fn outside(level: u16, low: u16, high: u16) -> bool {
    level != 0 && (level < low || level > high)
}

/// Why one pair of levels is refused on this board, if it is.
pub open spec fn levels_against(left: u16, right: u16, caps: CapabilitySet) -> Option<ControlError> {
    if left == 0 && right == 0 {
        None
    } else if caps.fan.clamp_min is None || caps.fan.clamp_max is None {
        unsafe_for(UnsafeReason::NoFanClamp)
    } else {
        let (low, high) = (caps.fan.clamp_min->Some_0, caps.fan.clamp_max->Some_0);
        if outside(left, low, high) {
            unsafe_for(UnsafeReason::FanLevelClamp { right: false, level: left, low, high })
        } else if outside(right, low, high) {
            unsafe_for(UnsafeReason::FanLevelClamp { right: true, level: right, low, high })
        } else {
            None
        }
    }
}

/// Why the user may not hold the fans at all, if so.
pub open spec fn holding_against(s: SafetySupervisor, caps: CapabilitySet, observed: ObservedState) -> Option<
    ControlError,
> {
    if caps.fan_manual_level != Support::Supported {
        Some(ControlError::Unsupported)
    } else if s.override_saved is Some {
        unsafe_for(UnsafeReason::ThermalOverrideActive)
    } else if overlay_on(observed) {
        unsafe_for(UnsafeReason::MaxFanOn)
    } else {
        None
    }
}

/// The package temperature is at most five seconds old.
pub open spec fn temperature_known(feed: ThermalFeed, now: u64) -> bool {
    feed.pkg_temp matches Some(s) && now - s.at <= 5_000
}

/// Manual levels are admitted exactly if the board takes them, no override is
/// active, the overlay is off, each channel by itself is left to firmware or
/// inside the clamp range, and the package temperature is fresh. What stands
/// first in this order is the reason of a refusal.
pub proof fn manual_levels_admission(
    s: SafetySupervisor,
    levels: FanLevels,
    caps: CapabilitySet,
    feed: ThermalFeed,
    observed: ObservedState,
    now: u64,
)
    ensures
        s.refusal(ControlCommand::SetFanMode(FanMode::Manual(levels)), caps, feed, observed, now) == (
        if holding_against(s, caps, observed) is Some {
            holding_against(s, caps, observed)
        } else if levels_against(levels.left, levels.right, caps) is Some {
            levels_against(levels.left, levels.right, caps)
        } else if !temperature_known(feed, now) {
            unsafe_for(UnsafeReason::NoFreshTemperature)
        } else {
            None
        }),
{
}

/// Levels inside the clamp range are never refused for their values: if the
/// board takes manual levels, nothing overrides them and the temperature is
/// fresh, they are admitted, whatever the two channels are to one another.
pub proof fn levels_in_the_clamp_are_admitted(
    s: SafetySupervisor,
    levels: FanLevels,
    caps: CapabilitySet,
    feed: ThermalFeed,
    observed: ObservedState,
    now: u64,
    low: u16,
    high: u16,
)
    requires
        caps.fan_manual_level == Support::Supported,
        caps.fan.clamp_min == Some(low),
        caps.fan.clamp_max == Some(high),
        s.override_saved is None,
        !overlay_on(observed),
        temperature_known(feed, now),
        levels.left == 0 || low <= levels.left <= high,
        levels.right == 0 || low <= levels.right <= high,
    ensures
        s.refusal(ControlCommand::SetFanMode(FanMode::Manual(levels)), caps, feed, observed, now) is None,
{
}

/// Whether manual levels are admitted does not depend on which channel has
/// which level.
pub proof fn channels_are_alike(
    s: SafetySupervisor,
    a: u16,
    b: u16,
    caps: CapabilitySet,
    feed: ThermalFeed,
    observed: ObservedState,
    now: u64,
)
    ensures
        s.refusal(
            ControlCommand::SetFanMode(FanMode::Manual(FanLevels { left: a, right: b })),
            caps,
            feed,
            observed,
            now,
        ) is None <==> s.refusal(
            ControlCommand::SetFanMode(FanMode::Manual(FanLevels { left: b, right: a })),
            caps,
            feed,
            observed,
            now,
        ) is None,
{
}

/// Why a curve is refused for its points, if it is: the first bad one counts.
pub open spec fn points_against(curve: FanCurve, caps: CapabilitySet) -> Option<ControlError> {
    let against = |p: FanCurvePoint| levels_against(p.left, p.right, caps);
    if against(curve.first) is Some {
        against(curve.first)
    } else if against(curve.second) is Some {
        against(curve.second)
    } else if against(curve.third) is Some {
        against(curve.third)
    } else {
        against(curve.fourth)
    }
}

/// A curve is admitted exactly if the user may hold the fans, the curve is
/// usable, each of its points has levels that the board takes, and the package
/// temperature is fresh.
pub proof fn curve_admission(
    s: SafetySupervisor,
    curve: FanCurve,
    caps: CapabilitySet,
    feed: ThermalFeed,
    observed: ObservedState,
    now: u64,
)
    ensures
        s.refusal(ControlCommand::SetFanMode(FanMode::Curve(curve)), caps, feed, observed, now) == (
        if holding_against(s, caps, observed) is Some {
            holding_against(s, caps, observed)
        } else if !curve.valid() {
            unsafe_for(UnsafeReason::InvalidCurve)
        } else if points_against(curve, caps) is Some {
            points_against(curve, caps)
        } else if !temperature_known(feed, now) {
            unsafe_for(UnsafeReason::NoFreshCurveTemperature)
        } else {
            None
        }),
{
}

/// Max fan and the thermal modes need no more than the board's support.
pub proof fn modes_need_support_only(
    s: SafetySupervisor,
    mode: ThermalMode,
    caps: CapabilitySet,
    feed: ThermalFeed,
    observed: ObservedState,
    now: u64,
)
    ensures
        s.refusal(ControlCommand::SetFanMode(FanMode::Max), caps, feed, observed, now) == (if caps.max_fan
            == Support::Supported {
            None::<ControlError>
        } else {
            Some(ControlError::Unsupported)
        }),
        s.refusal(ControlCommand::SetThermalMode(mode), caps, feed, observed, now) == (if caps.thermal_mode
            == Support::Supported {
            None::<ControlError>
        } else {
            Some(ControlError::Unsupported)
        }),
        s.refusal(ControlCommand::RestoreSession, caps, feed, observed, now) is None,
{
}

/// What expands into a plan is never itself a step of one, and the multiplexer
/// is not written by validation's leave.
pub proof fn only_settings_are_steps(
    s: SafetySupervisor,
    cmd: ControlCommand,
    caps: CapabilitySet,
    feed: ThermalFeed,
    observed: ObservedState,
    now: u64,
)
    requires
        cmd is ApplyProfile || cmd is ApplyProfileDefinition || cmd is ApplyScopedProfile
            || cmd is RestoreScopedProfile || cmd is SetMuxMode,
    ensures
        s.refusal(cmd, caps, feed, observed, now) == Some(ControlError::Unsupported),
{
}

/// Why a power state of the graphics processor is refused, if it is.
pub open spec fn dstate_against(d: u8) -> Option<ControlError> {
    if d == 0 || d > 4 { unsafe_for(UnsafeReason::DStateRange { dstate: d }) } else { None }
}

/// Why a slowdown temperature is refused, if it is; 0 stands for none.
pub open spec fn slowdown_against(t: u8) -> Option<ControlError> {
    if t != 0 && (t < 30 || t > 110) { unsafe_for(UnsafeReason::SlowdownBand { celsius: t }) } else { None }
}

/// A graphics policy is admitted exactly if the board takes it, its power
/// state is one of four and its slowdown temperature is none or plausible.
pub proof fn gpu_policy_admission(
    s: SafetySupervisor,
    p: GpuPlatformPolicy,
    caps: CapabilitySet,
    feed: ThermalFeed,
    observed: ObservedState,
    now: u64,
)
    ensures
        s.refusal(ControlCommand::SetGpuPlatformPolicy(p), caps, feed, observed, now) == (
        if caps.gpu_platform_policy != Support::Supported {
            Some(ControlError::Unsupported)
        } else if dstate_against(p.dstate) is Some {
            dstate_against(p.dstate)
        } else {
            slowdown_against(p.slowdown_temp_c)
        }),
{
}

/// A sparse change of the graphics policy is admitted exactly if the board
/// takes it, it changes something, and each field that it sets would be
/// admitted in a whole policy.
pub proof fn gpu_patch_admission(
    s: SafetySupervisor,
    q: GpuPolicyPatch,
    caps: CapabilitySet,
    feed: ThermalFeed,
    observed: ObservedState,
    now: u64,
)
    ensures
        s.refusal(ControlCommand::SetGpuPlatformPolicyPatch(q), caps, feed, observed, now) == (
        if caps.gpu_platform_policy != Support::Supported {
            Some(ControlError::Unsupported)
        } else if q.ctgp is None && q.ppab is None && q.dstate is None && q.slowdown_temp_c is None {
            unsafe_for(UnsafeReason::EmptyGpuPatch)
        } else if q.dstate is Some && dstate_against(q.dstate->Some_0) is Some {
            dstate_against(q.dstate->Some_0)
        } else if q.slowdown_temp_c is Some {
            slowdown_against(q.slowdown_temp_c->Some_0)
        } else {
            None
        }),
{
}

/// Power limits are admitted exactly if the build takes them, the board
/// declares them experimental, each lies in its envelope and the short one is
/// no lower than the long one, and what they change can be read back.
pub proof fn power_limits_admission(
    s: SafetySupervisor,
    l: CpuPowerLimits,
    caps: CapabilitySet,
    feed: ThermalFeed,
    observed: ObservedState,
    now: u64,
)
    ensures
        s.refusal(ControlCommand::SetPowerLimits(l), caps, feed, observed, now) == (
        if !s.experimental_power_limits || caps.power_limits != Support::Experimental {
            Some(ControlError::Unsupported)
        } else if l.cpu_gpu_concurrent_w != 0 {
            unsafe_for(UnsafeReason::ConcurrentLimit)
        } else if l.pl1_w < 15 || l.pl1_w > 130 {
            unsafe_for(UnsafeReason::Pl1Envelope { watts: l.pl1_w })
        } else if l.pl2_w < 15 || l.pl2_w > 157 {
            unsafe_for(UnsafeReason::Pl2Envelope { watts: l.pl2_w })
        } else if l.pl2_w < l.pl1_w {
            unsafe_for(UnsafeReason::Pl2BelowPl1 { pl2: l.pl2_w, pl1: l.pl1_w })
        } else if l.pl4_w != 0 && (l.pl4_w < 30 || l.pl4_w > 200) {
            unsafe_for(UnsafeReason::Pl4Envelope { watts: l.pl4_w })
        } else if !(feed.power_limits matches Some(r) && now - r.at <= 5_000) {
            unsafe_for(UnsafeReason::PowerReadbackStale)
        } else if l.pl4_w != 0 && !(feed.pl4 matches Some(r) && now - r.at <= 5_000) {
            unsafe_for(UnsafeReason::Pl4ReadbackStale)
        } else {
            None
        }),
{
}

/// Why a setting in percent is refused, if it is.
pub open spec fn percent_against(
    ac: Option<u8>,
    dc: Option<u8>,
    support: Support,
    privileged: bool,
    reason: spec_fn(u8) -> UnsafeReason,
) -> Option<ControlError> {
    if ac is None && dc is None {
        None
    } else if support != Support::Supported {
        Some(ControlError::Unsupported)
    } else if !privileged {
        Some(ControlError::PermissionDenied)
    } else if ac is Some && ac->Some_0 > 100 {
        unsafe_for(reason(ac->Some_0))
    } else if dc is Some && dc->Some_0 > 100 {
        unsafe_for(reason(dc->Some_0))
    } else {
        None
    }
}

/// A frequency that is neither unlimited nor plausible.
pub open spec fn implausible(mhz: Option<u32>) -> bool {
    mhz is Some && mhz->Some_0 != 0 && (mhz->Some_0 < 400 || mhz->Some_0 > 6000)
}

/// Why frequency limits are refused, if they are.
pub open spec fn frequency_against(p: CpuPolicy, caps: CapabilitySet) -> Option<ControlError> {
    if p.max_freq_mhz_ac is None && p.max_freq_mhz_dc is None {
        None
    } else if caps.ppm.max_freq != Support::Supported {
        Some(ControlError::Unsupported)
    } else if !caps.ppm.write_privileged {
        Some(ControlError::PermissionDenied)
    } else if implausible(p.max_freq_mhz_ac) {
        unsafe_for(UnsafeReason::MaxFrequencyBand { mhz: p.max_freq_mhz_ac->Some_0 })
    } else if implausible(p.max_freq_mhz_dc) {
        unsafe_for(UnsafeReason::MaxFrequencyBand { mhz: p.max_freq_mhz_dc->Some_0 })
    } else {
        None
    }
}

/// A processor policy is refused as a whole for power limits, else for the
/// first of preference, second preference, frequency and boost that the board,
/// the privilege or the value speaks against.
pub proof fn processor_policy_admission(
    s: SafetySupervisor,
    p: CpuPolicy,
    caps: CapabilitySet,
    feed: ThermalFeed,
    observed: ObservedState,
    now: u64,
)
    ensures
        ({
            let privileged = caps.ppm.write_privileged;
            let epp = percent_against(
                p.epp_ac,
                p.epp_dc,
                caps.ppm.epp,
                privileged,
                |v: u8| UnsafeReason::EppRange { value: v },
            );
            let epp1 = percent_against(
                p.epp1_ac,
                p.epp1_dc,
                caps.ppm.epp1,
                privileged,
                |v: u8| UnsafeReason::Epp1Range { value: v },
            );
            s.refusal(ControlCommand::SetCpuPolicy(p), caps, feed, observed, now) == (if p.power_limits is Some {
                Some(ControlError::Unsupported)
            } else if epp is Some {
                epp
            } else if epp1 is Some {
                epp1
            } else if frequency_against(p, caps) is Some {
                frequency_against(p, caps)
            } else if p.boost_policy is Some && !privileged {
                Some(ControlError::PermissionDenied)
            } else {
                None
            })
        }),
{
}

} // verus!
