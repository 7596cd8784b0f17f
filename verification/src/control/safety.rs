//! Safety supervisor: the write-time validator and the runtime safety net.
//! When support, freshness or state is uncertain, the answer is no write.
//!
//! While the user holds the fans (manual levels, a software curve or max
//! fan) the firmware curve no longer protects the machine. At
//! `FORCE_MAX_FAN_AT` the supervisor forces max fan and remembers the user's
//! mode; at `RELEASE_MAX_FAN_AT` it hands that mode back. If temperature or
//! fan samples stop flowing, control returns to firmware.
use vstd::prelude::*;

use crate::domain::capability::{CapabilitySet, Support};
use crate::domain::command::ControlCommand;
use crate::domain::error::{ControlError, UnsafeReason};
use crate::domain::evidence::{FanSample, Pl4Sample, PowerSample, Sample};
use crate::domain::policy::{
    CpuPolicy, CpuPowerLimits, FanCurve, FanCurvePoint, FanLevels, FanMode, GpuPlatformPolicy, GpuPolicyPatch,
};
use crate::domain::state::ObservedState;

verus! {

/// CPU package temperature at which user fan control is suspended, in
/// millidegrees.
pub const FORCE_MAX_FAN_AT: i64 = 90_000;

/// At or below this temperature the saved fan mode is handed back, in
/// millidegrees.
pub const RELEASE_MAX_FAN_AT: i64 = 85_000;

/// Samples older than this count as stopped, in milliseconds.
pub const SENSOR_STALE_AFTER: u64 = 90_000;

/// The oldest sample a write may rest on, in milliseconds.
pub const PREWRITE_FRESH: u64 = 5_000;

/// The age of a sample taken at `at`; a sample from the future is new.
pub open spec fn age(now: u64, at: u64) -> int {
    if now >= at { now - at } else { 0 }
}

/// Milliseconds from `at` to `now`, 0 where `at` is later.
pub fn elapsed(now: u64, at: u64) -> (r: u64)
    ensures
        r == age(now, at),
{
    if now >= at { now - at } else { 0 }
}

/// The latest telemetry the safety layer looks at.
#[derive(Clone, Copy, Debug, PartialEq, Eq, Structural)]
pub struct ThermalFeed {
    /// CPU package temperature in millidegrees.
    pub pkg_temp: Option<Sample>,
    /// GPU temperature in millidegrees.
    pub gpu_temp: Option<Sample>,
    /// Fan readback (0x2D).
    pub fan_levels: Option<FanSample>,
    /// PL1 and PL2 readback (MSR 0x610).
    pub power_limits: Option<PowerSample>,
    /// PL4 readback (MCHBAR 0x59B0).
    pub pl4: Option<Pl4Sample>,
}

/// What the safety net asks for.
#[derive(Clone, Copy, Debug, PartialEq, Eq, Structural)]
pub enum SafetyAction {
    /// Too hot at manual levels or max fan: force max fan now.
    ForceMaxFan,
    /// Cooled down: restore the saved user mode.
    ReleaseTo(FanMode),
    /// The sensors froze while the user held the fans: firmware takes over.
    WatchdogRestoreAuto,
}

/// The supervisor's memory.
#[derive(Clone, Copy, Debug, PartialEq, Eq, Structural)]
pub struct SafetySupervisor {
    /// The fan mode to release to; `Some` while a thermal override is active.
    pub override_saved: Option<FanMode>,
    /// Whether this build takes experimental CPU power limits at all.
    pub experimental_power_limits: bool,
}

/// The user, not the firmware, holds the fans.
pub open spec fn user_holds_fans(observed: ObservedState) -> bool {
    ||| observed.fan_mode.known() matches Some(FanMode::Manual(_))
    ||| observed.fan_mode.known() matches Some(FanMode::Curve(_))
    ||| observed.max_fan.known() == Some(true)
}

/// The user holds the fans at levels that do not follow the temperature: at
/// manual levels or at max. A software curve does follow it.
pub open spec fn user_fixes_fans(observed: ObservedState) -> bool {
    ||| observed.fan_mode.known() matches Some(FanMode::Manual(_))
    ||| observed.max_fan.known() == Some(true)
}

fn fans_user_fixed(observed: &ObservedState) -> (r: bool)
    ensures
        r == user_fixes_fans(*observed),
{
    let manual = match observed.fan_mode.get() {
        Some(FanMode::Manual(_)) => true,
        _ => false,
    };
    manual || observed.max_fan.get() == Some(true)
}

fn fans_user_held(observed: &ObservedState) -> (r: bool)
    ensures
        r == user_holds_fans(*observed),
{
    let by_mode = match observed.fan_mode.get() {
        Some(FanMode::Manual(_)) => true,
        Some(FanMode::Curve(_)) => true,
        _ => false,
    };
    by_mode || observed.max_fan.get() == Some(true)
}

/// Temperature or fan samples have stopped flowing.
pub open spec fn blind(feed: ThermalFeed, now: u64) -> bool {
    ||| feed.pkg_temp is None
    ||| age(now, feed.pkg_temp->Some_0.at) > SENSOR_STALE_AFTER
    ||| feed.fan_levels is None
    ||| age(now, feed.fan_levels->Some_0.at) > SENSOR_STALE_AFTER
}

fn sensors_blind(feed: &ThermalFeed, now: u64) -> (r: bool)
    ensures
        r == blind(*feed, now),
{
    let temp_stale = match feed.pkg_temp {
        None => true,
        Some(s) => elapsed(now, s.at) > SENSOR_STALE_AFTER,
    };
    let fan_stale = match feed.fan_levels {
        None => true,
        Some(s) => elapsed(now, s.at) > SENSOR_STALE_AFTER,
    };
    temp_stale || fan_stale
}

/// The package temperature, if its sample has not stopped flowing.
pub open spec fn live_temp(feed: ThermalFeed, now: u64) -> Option<i64> {
    match feed.pkg_temp {
        Some(s) => if age(now, s.at) <= SENSOR_STALE_AFTER { Some(s.value) } else { None },
        None => None,
    }
}

fn live_temperature(feed: &ThermalFeed, now: u64) -> (r: Option<i64>)
    ensures
        r == live_temp(*feed, now),
{
    match feed.pkg_temp {
        Some(s) => if elapsed(now, s.at) <= SENSOR_STALE_AFTER { Some(s.value) } else { None },
        None => None,
    }
}

/// The package temperature is fresh enough to start holding the fans.
pub open spec fn temp_fresh_for_write(feed: ThermalFeed, now: u64) -> bool {
    feed.pkg_temp matches Some(s) && age(now, s.at) <= PREWRITE_FRESH
}

fn require_supported(s: Support) -> (r: Option<ControlError>)
    ensures
        r == need(s == Support::Supported, ControlError::Unsupported),
{
    if s == Support::Supported { None } else { Some(ControlError::Unsupported) }
}

fn require_elevated(caps: &CapabilitySet) -> (r: Option<ControlError>)
    ensures
        r == need(caps.ppm.write_privileged, ControlError::PermissionDenied),
{
    if caps.ppm.write_privileged { None } else { Some(ControlError::PermissionDenied) }
}

/// The refusal `error` unless `ok`.
pub open spec fn need(ok: bool, error: ControlError) -> Option<ControlError> {
    if ok { None } else { Some(error) }
}

/// The refusal of an unsafe request unless `ok`.
pub open spec fn need_safe(ok: bool, reason: UnsafeReason) -> Option<ControlError> {
    need(ok, ControlError::UnsafeRequest { reason })
}

/// The first refusal, if any.
pub open spec fn first(a: Option<ControlError>, b: Option<ControlError>) -> Option<ControlError> {
    if a is Some { a } else { b }
}

fn either(a: Option<ControlError>, b: Option<ControlError>) -> (r: Option<ControlError>)
    ensures
        r == first(a, b),
{
    if a.is_some() { a } else { b }
}

fn safe(ok: bool, reason: UnsafeReason) -> (r: Option<ControlError>)
    ensures
        r == need_safe(ok, reason),
{
    if ok { None } else { Some(ControlError::UnsafeRequest { reason }) }
}

/// A processor preference lies in its range; an absent one does.
pub open spec fn percent(v: Option<u8>) -> bool {
    v matches Some(v) ==> v <= 100
}

fn is_percent(v: Option<u8>) -> (r: bool)
    ensures
        r == percent(v),
{
    match v {
        Some(v) => v <= 100,
        None => true,
    }
}

/// A frequency limit is off (0) or plausible; an absent one is.
pub open spec fn plausible_mhz(v: Option<u32>) -> bool {
    v matches Some(v) ==> v == 0 || 400 <= v <= 6000
}

fn is_plausible_mhz(v: Option<u32>) -> (r: bool)
    ensures
        r == plausible_mhz(v),
{
    match v {
        Some(v) => v == 0 || (400 <= v && v <= 6000),
        None => true,
    }
}

/// The first of two sides that is out of range.
pub open spec fn worse_side(ac: Option<u8>, dc: Option<u8>) -> u8 {
    if !percent(ac) { ac->Some_0 } else { dc->Some_0 }
}

fn bad_side(ac: Option<u8>, dc: Option<u8>) -> (r: u8)
    requires
        !percent(ac) || !percent(dc),
    ensures
        r == worse_side(ac, dc),
{
    match ac {
        Some(v) => if v > 100 { v } else { dc.unwrap() },
        None => dc.unwrap(),
    }
}

/// What stands against a setting with a value per power source: a missing
/// capability, a missing privilege, or a value out of range.
pub open spec fn percent_refusal(
    ac: Option<u8>,
    dc: Option<u8>,
    support: Support,
    caps: CapabilitySet,
    reason: UnsafeReason,
) -> Option<ControlError> {
    if ac is None && dc is None {
        None
    } else {
        first(
            need(support == Support::Supported, ControlError::Unsupported),
            first(
                need(caps.ppm.write_privileged, ControlError::PermissionDenied),
                need_safe(percent(ac) && percent(dc), reason),
            ),
        )
    }
}

/// What stands against a processor policy. The bounds on processor
/// performance are taken as they come: the readback settles them.
pub open spec fn cpu_refusal(p: CpuPolicy, caps: CapabilitySet) -> Option<ControlError> {
    first(
        need(p.power_limits is None, ControlError::Unsupported),
        first(
            percent_refusal(
                p.epp_ac,
                p.epp_dc,
                caps.ppm.epp,
                caps,
                UnsafeReason::EppRange { value: worse_side(p.epp_ac, p.epp_dc) },
            ),
            first(
                percent_refusal(
                    p.epp1_ac,
                    p.epp1_dc,
                    caps.ppm.epp1,
                    caps,
                    UnsafeReason::Epp1Range { value: worse_side(p.epp1_ac, p.epp1_dc) },
                ),
                first(
                    frequency_refusal(p, caps),
                    need(
                        p.boost_policy is None || caps.ppm.write_privileged,
                        ControlError::PermissionDenied,
                    ),
                ),
            ),
        ),
    )
}

/// What stands against the frequency limits of a processor policy.
pub open spec fn frequency_refusal(p: CpuPolicy, caps: CapabilitySet) -> Option<ControlError> {
    if p.max_freq_mhz_ac is None && p.max_freq_mhz_dc is None {
        None
    } else {
        first(
            need(caps.ppm.max_freq == Support::Supported, ControlError::Unsupported),
            first(
                need(caps.ppm.write_privileged, ControlError::PermissionDenied),
                need_safe(
                    plausible_mhz(p.max_freq_mhz_ac) && plausible_mhz(p.max_freq_mhz_dc),
                    UnsafeReason::MaxFrequencyBand {
                        mhz: if !plausible_mhz(p.max_freq_mhz_ac) {
                            p.max_freq_mhz_ac->Some_0
                        } else {
                            p.max_freq_mhz_dc->Some_0
                        },
                    },
                ),
            ),
        )
    }
}

/// A fan level is left to firmware (0) or lies in the clamp range.
pub open spec fn level_in_clamp(level: u16, low: u16, high: u16) -> bool {
    level == 0 || low <= level <= high
}

/// What stands against a pair of fan levels.
pub open spec fn levels_refusal(levels: FanLevels, caps: CapabilitySet) -> Option<ControlError> {
    if levels.spec_is_auto() {
        None
    } else {
        match (caps.fan.clamp_min, caps.fan.clamp_max) {
            (Some(low), Some(high)) => first(
                need_safe(
                    level_in_clamp(levels.left, low, high),
                    UnsafeReason::FanLevelClamp { right: false, level: levels.left, low, high },
                ),
                need_safe(
                    level_in_clamp(levels.right, low, high),
                    UnsafeReason::FanLevelClamp { right: true, level: levels.right, low, high },
                ),
            ),
            _ => Some(ControlError::UnsafeRequest { reason: UnsafeReason::NoFanClamp }),
        }
    }
}

/// What stands against the levels of a curve: the first bad point.
pub open spec fn curve_refusal(curve: FanCurve, caps: CapabilitySet) -> Option<ControlError> {
    first(
        need_safe(curve.valid(), UnsafeReason::InvalidCurve),
        first(
            levels_refusal(curve.first.levels(), caps),
            first(
                levels_refusal(curve.second.levels(), caps),
                first(levels_refusal(curve.third.levels(), caps), levels_refusal(curve.fourth.levels(), caps)),
            ),
        ),
    )
}

/// The power state lies in 1..=4.
pub open spec fn dstate_ok(d: u8) -> bool {
    1 <= d <= 4
}

/// The slowdown temperature is absent on this board (0) or plausible.
pub open spec fn slowdown_ok(t: u8) -> bool {
    t == 0 || 30 <= t <= 110
}

/// What stands against a GPU platform policy.
pub open spec fn gpu_refusal(p: GpuPlatformPolicy, caps: CapabilitySet) -> Option<ControlError> {
    first(
        need(caps.gpu_platform_policy == Support::Supported, ControlError::Unsupported),
        first(
            need_safe(dstate_ok(p.dstate), UnsafeReason::DStateRange { dstate: p.dstate }),
            need_safe(slowdown_ok(p.slowdown_temp_c), UnsafeReason::SlowdownBand { celsius: p.slowdown_temp_c }),
        ),
    )
}

/// What stands against a sparse GPU policy change.
pub open spec fn gpu_patch_refusal(p: GpuPolicyPatch, caps: CapabilitySet) -> Option<ControlError> {
    first(
        need(caps.gpu_platform_policy == Support::Supported, ControlError::Unsupported),
        first(
            need_safe(p != GpuPolicyPatch::spec_empty(), UnsafeReason::EmptyGpuPatch),
            first(
                match p.dstate {
                    Some(d) => need_safe(dstate_ok(d), UnsafeReason::DStateRange { dstate: d }),
                    None => None,
                },
                match p.slowdown_temp_c {
                    Some(t) => need_safe(slowdown_ok(t), UnsafeReason::SlowdownBand { celsius: t }),
                    None => None,
                },
            ),
        ),
    )
}

/// What stands against CPU power limits. Two independent gates come first:
/// the build takes them, and the board declares them experimental. A limit
/// that could not be read back could be neither verified nor restored.
pub open spec fn power_refusal(
    l: CpuPowerLimits,
    compiled: bool,
    caps: CapabilitySet,
    feed: ThermalFeed,
    now: u64,
) -> Option<ControlError> {
    first(
        need(compiled && caps.power_limits == Support::Experimental, ControlError::Unsupported),
        first(
            need_safe(l.cpu_gpu_concurrent_w == 0, UnsafeReason::ConcurrentLimit),
            first(
                need_safe(15 <= l.pl1_w <= 130, UnsafeReason::Pl1Envelope { watts: l.pl1_w }),
                first(
                    need_safe(15 <= l.pl2_w <= 157, UnsafeReason::Pl2Envelope { watts: l.pl2_w }),
                    first(
                        need_safe(l.pl1_w <= l.pl2_w, UnsafeReason::Pl2BelowPl1 { pl2: l.pl2_w, pl1: l.pl1_w }),
                        first(
                            need_safe(
                                l.pl4_w == 0 || 30 <= l.pl4_w <= 200,
                                UnsafeReason::Pl4Envelope { watts: l.pl4_w },
                            ),
                            first(
                                need_safe(power_fresh(feed, now), UnsafeReason::PowerReadbackStale),
                                need_safe(l.pl4_w == 0 || pl4_fresh(feed, now), UnsafeReason::Pl4ReadbackStale),
                            ),
                        ),
                    ),
                ),
            ),
        ),
    )
}

/// The PL1/PL2 readback is fresh.
pub open spec fn power_fresh(feed: ThermalFeed, now: u64) -> bool {
    feed.power_limits matches Some(s) && age(now, s.at) <= PREWRITE_FRESH
}

/// The PL4 readback is fresh.
pub open spec fn pl4_fresh(feed: ThermalFeed, now: u64) -> bool {
    feed.pl4 matches Some(s) && age(now, s.at) <= PREWRITE_FRESH
}

impl SafetySupervisor {
    /// What stands against a command; `None` means that it may run.
    pub open spec fn refusal(
        self,
        cmd: ControlCommand,
        caps: CapabilitySet,
        feed: ThermalFeed,
        observed: ObservedState,
        now: u64,
    ) -> Option<ControlError> {
        self.refusal_under(cmd, caps, feed, observed.max_fan.known() == Some(true), now)
    }

    /// What stands against a command, given whether the max-fan overlay is
    /// on.
    pub open spec fn refusal_under(
        self,
        cmd: ControlCommand,
        caps: CapabilitySet,
        feed: ThermalFeed,
        overlay_on: bool,
        now: u64,
    ) -> Option<ControlError> {
        match cmd {
            ControlCommand::ApplyProfile { .. } => Some(ControlError::Unsupported),
            ControlCommand::ApplyProfileDefinition { .. } => Some(ControlError::Unsupported),
            ControlCommand::ApplyScopedProfile { .. } => Some(ControlError::Unsupported),
            ControlCommand::RestoreScopedProfile { .. } => Some(ControlError::Unsupported),
            ControlCommand::SetMuxMode(_) => Some(ControlError::Unsupported),
            ControlCommand::RestoreSession => None,
            ControlCommand::SetPowerLimits(l) =>
                power_refusal(l, self.experimental_power_limits, caps, feed, now),
            ControlCommand::SetGpuPlatformPolicy(p) => gpu_refusal(p, caps),
            ControlCommand::SetGpuPlatformPolicyPatch(p) => gpu_patch_refusal(p, caps),
            ControlCommand::SetCpuPolicy(p) => cpu_refusal(p, caps),
            ControlCommand::SetThermalMode(_) =>
                need(caps.thermal_mode == Support::Supported, ControlError::Unsupported),
            ControlCommand::SetFanMode(FanMode::FirmwareAuto) => None,
            ControlCommand::SetFanMode(FanMode::Max) =>
                need(caps.max_fan == Support::Supported, ControlError::Unsupported),
            ControlCommand::SetFanMode(FanMode::Manual(levels)) => first(
                self.hold_refusal(caps, overlay_on),
                first(
                    levels_refusal(levels, caps),
                    need_safe(temp_fresh_for_write(feed, now), UnsafeReason::NoFreshTemperature),
                ),
            ),
            ControlCommand::SetFanMode(FanMode::Curve(curve)) => first(
                self.hold_refusal(caps, overlay_on),
                first(
                    curve_refusal(curve, caps),
                    need_safe(temp_fresh_for_write(feed, now), UnsafeReason::NoFreshCurveTemperature),
                ),
            ),
        }
    }

    /// What stands against the user holding the fans at levels of their own.
    pub open spec fn hold_refusal(self, caps: CapabilitySet, overlay_on: bool) -> Option<ControlError> {
        first(
            need(caps.fan_manual_level == Support::Supported, ControlError::Unsupported),
            first(
                need_safe(self.override_saved is None, UnsafeReason::ThermalOverrideActive),
                need_safe(!overlay_on, UnsafeReason::MaxFanOn),
            ),
        )
    }

    /// A supervisor without an override that refuses experimental power limits.
    pub fn new() -> (r: SafetySupervisor)
        ensures
            r == (SafetySupervisor { override_saved: None, experimental_power_limits: false }),
    {
        SafetySupervisor { override_saved: None, experimental_power_limits: false }
    }

    /// A supervisor without an override, with or without experimental power
    /// limits.
    pub fn with_experimental(experimental_power_limits: bool) -> (r: SafetySupervisor)
        ensures
            r == (SafetySupervisor { override_saved: None, experimental_power_limits }),
    {
        SafetySupervisor { override_saved: None, experimental_power_limits }
    }

    /// Whether a thermal override is active.
    pub fn override_active(&self) -> (r: bool)
        ensures
            r == (self.override_saved is Some),
    {
        self.override_saved.is_some()
    }

    /// Takes note of a fan mode that the user set. Firmware control releases
    /// an override; any other mode replaces the one an override will release
    /// to.
    pub fn note_user_fan_mode(&mut self, mode: FanMode)
        ensures
            *final(self) == old(self).spec_noted(mode),
    {
        match mode {
            FanMode::FirmwareAuto => self.override_saved = None,
            m => {
                if self.override_saved.is_some() {
                    self.override_saved = Some(m);
                }
            },
        }
    }

    pub open spec fn spec_noted(self, mode: FanMode) -> SafetySupervisor {
        SafetySupervisor {
            override_saved: if mode == FanMode::FirmwareAuto || self.override_saved is None {
                None
            } else {
                Some(mode)
            },
            ..self
        }
    }

    /// Keeps the override after a failed release, to release to `mode` later.
    pub fn retain_override(&mut self, mode: FanMode)
        ensures
            *final(self) == (SafetySupervisor { override_saved: Some(mode), ..*old(self) }),
    {
        self.override_saved = Some(mode);
    }

    /// Write-time validation, before anything touches hardware.
    pub fn validate(
        &self,
        cmd: &ControlCommand,
        caps: &CapabilitySet,
        feed: &ThermalFeed,
        observed: &ObservedState,
        now: u64,
    ) -> (r: Result<(), ControlError>)
        ensures
            r is Ok <==> self.refusal(*cmd, *caps, *feed, *observed, now) is None,
            r matches Err(e) ==> self.refusal(*cmd, *caps, *feed, *observed, now) == Some(e),
    {
        self.validate_under(cmd, caps, feed, observed.max_fan.get() == Some(true), now)
    }

    /// Write-time validation, given whether the max-fan overlay is on. A fan
    /// command releases the overlay itself before it changes the levels, so
    /// the writer validates its own steps without it.
    pub fn validate_under(
        &self,
        cmd: &ControlCommand,
        caps: &CapabilitySet,
        feed: &ThermalFeed,
        overlay_on: bool,
        now: u64,
    ) -> (r: Result<(), ControlError>)
        ensures
            r is Ok <==> self.refusal_under(*cmd, *caps, *feed, overlay_on, now) is None,
            r matches Err(e) ==> self.refusal_under(*cmd, *caps, *feed, overlay_on, now) == Some(e),
    {
        let refusal = match cmd {
            ControlCommand::ApplyProfile { .. } => Some(ControlError::Unsupported),
            ControlCommand::ApplyProfileDefinition { .. } => Some(ControlError::Unsupported),
            ControlCommand::ApplyScopedProfile { .. } => Some(ControlError::Unsupported),
            ControlCommand::RestoreScopedProfile { .. } => Some(ControlError::Unsupported),
            ControlCommand::SetMuxMode(_) => Some(ControlError::Unsupported),
            ControlCommand::RestoreSession => None,
            ControlCommand::SetPowerLimits(l) => self.validate_power_limits(l, caps, feed, now),
            ControlCommand::SetGpuPlatformPolicy(p) => validate_gpu_policy(p, caps),
            ControlCommand::SetGpuPlatformPolicyPatch(p) => validate_gpu_patch(p, caps),
            ControlCommand::SetCpuPolicy(p) => validate_cpu_policy(p, caps),
            ControlCommand::SetThermalMode(_) => require_supported(caps.thermal_mode),
            ControlCommand::SetFanMode(FanMode::FirmwareAuto) => None,
            ControlCommand::SetFanMode(FanMode::Max) => require_supported(caps.max_fan),
            ControlCommand::SetFanMode(FanMode::Manual(levels)) => either(
                self.validate_hold(caps, overlay_on),
                either(
                    validate_fan_levels(levels, caps),
                    safe(prewrite_temp_fresh(feed, now), UnsafeReason::NoFreshTemperature),
                ),
            ),
            ControlCommand::SetFanMode(FanMode::Curve(curve)) => either(
                self.validate_hold(caps, overlay_on),
                either(
                    validate_curve(curve, caps),
                    safe(prewrite_temp_fresh(feed, now), UnsafeReason::NoFreshCurveTemperature),
                ),
            ),
        };
        match refusal {
            None => Ok(()),
            Some(e) => Err(e),
        }
    }

    fn validate_hold(&self, caps: &CapabilitySet, overlay_on: bool) -> (r: Option<ControlError>)
        ensures
            r == self.hold_refusal(*caps, overlay_on),
    {
        either(
            require_supported(caps.fan_manual_level),
            either(
                safe(self.override_saved.is_none(), UnsafeReason::ThermalOverrideActive),
                safe(!overlay_on, UnsafeReason::MaxFanOn),
            ),
        )
    }

    fn validate_power_limits(
        &self,
        l: &CpuPowerLimits,
        caps: &CapabilitySet,
        feed: &ThermalFeed,
        now: u64,
    ) -> (r: Option<ControlError>)
        ensures
            r == power_refusal(*l, self.experimental_power_limits, *caps, *feed, now),
    {
        if !self.experimental_power_limits || caps.power_limits != Support::Experimental {
            return Some(ControlError::Unsupported);
        }
        let power_seen = match feed.power_limits {
            Some(s) => elapsed(now, s.at) <= PREWRITE_FRESH,
            None => false,
        };
        let pl4_seen = match feed.pl4 {
            Some(s) => elapsed(now, s.at) <= PREWRITE_FRESH,
            None => false,
        };
        either(
            safe(l.cpu_gpu_concurrent_w == 0, UnsafeReason::ConcurrentLimit),
            either(
                safe(15 <= l.pl1_w && l.pl1_w <= 130, UnsafeReason::Pl1Envelope { watts: l.pl1_w }),
                either(
                    safe(15 <= l.pl2_w && l.pl2_w <= 157, UnsafeReason::Pl2Envelope { watts: l.pl2_w }),
                    either(
                        safe(l.pl1_w <= l.pl2_w, UnsafeReason::Pl2BelowPl1 { pl2: l.pl2_w, pl1: l.pl1_w }),
                        either(
                            safe(
                                l.pl4_w == 0 || (30 <= l.pl4_w && l.pl4_w <= 200),
                                UnsafeReason::Pl4Envelope { watts: l.pl4_w },
                            ),
                            either(
                                safe(power_seen, UnsafeReason::PowerReadbackStale),
                                safe(l.pl4_w == 0 || pl4_seen, UnsafeReason::Pl4ReadbackStale),
                            ),
                        ),
                    ),
                ),
            ),
        )
    }

    /// What the safety net does now: the action, and the fan mode an override
    /// will release to afterwards. Blindness comes first; an override then
    /// holds until the machine has cooled down; a new one starts only while
    /// the user holds the fans at manual levels or at max.
    pub open spec fn verdict(
        self,
        feed: ThermalFeed,
        observed: ObservedState,
        now: u64,
    ) -> (Option<SafetyAction>, Option<FanMode>) {
        if (user_holds_fans(observed) || self.override_saved is Some) && blind(feed, now) {
            (Some(SafetyAction::WatchdogRestoreAuto), None)
        } else if self.override_saved is Some {
            if live_temp(feed, now) matches Some(t) && t <= RELEASE_MAX_FAN_AT {
                (Some(SafetyAction::ReleaseTo(self.override_saved->Some_0)), None)
            } else {
                (None, self.override_saved)
            }
        } else if user_fixes_fans(observed) && (live_temp(feed, now) matches Some(t) && t >= FORCE_MAX_FAN_AT) {
            (Some(SafetyAction::ForceMaxFan), Some(observed.fan_mode.known().unwrap_or(FanMode::FirmwareAuto)))
        } else {
            (None, None)
        }
    }

    /// Runtime safety evaluation.
    pub fn evaluate(&mut self, feed: &ThermalFeed, observed: &ObservedState, now: u64) -> (r: Option<SafetyAction>)
        ensures
            r == old(self).verdict(*feed, *observed, now).0,
            *final(self) == (SafetySupervisor {
                override_saved: old(self).verdict(*feed, *observed, now).1,
                ..*old(self)
            }),
    {
        let held = fans_user_held(observed);
        if (held || self.override_saved.is_some()) && sensors_blind(feed, now) {
            self.override_saved = None;
            return Some(SafetyAction::WatchdogRestoreAuto);
        }
        let temp = live_temperature(feed, now);
        if let Some(saved) = self.override_saved {
            return match temp {
                Some(t) => if t <= RELEASE_MAX_FAN_AT {
                    self.override_saved = None;
                    Some(SafetyAction::ReleaseTo(saved))
                } else {
                    None
                },
                None => None,
            };
        }
        if fans_user_fixed(observed) {
            if let Some(t) = temp {
                if t >= FORCE_MAX_FAN_AT {
                    let current = observed.fan_mode.get().unwrap_or(FanMode::FirmwareAuto);
                    self.override_saved = Some(current);
                    return Some(SafetyAction::ForceMaxFan);
                }
            }
        }
        None
    }
}

fn prewrite_temp_fresh(feed: &ThermalFeed, now: u64) -> (r: bool)
    ensures
        r == temp_fresh_for_write(*feed, now),
{
    match feed.pkg_temp {
        Some(s) => elapsed(now, s.at) <= PREWRITE_FRESH,
        None => false,
    }
}

fn validate_gpu_policy(p: &GpuPlatformPolicy, caps: &CapabilitySet) -> (r: Option<ControlError>)
    ensures
        r == gpu_refusal(*p, *caps),
{
    either(
        require_supported(caps.gpu_platform_policy),
        either(
            safe(1 <= p.dstate && p.dstate <= 4, UnsafeReason::DStateRange { dstate: p.dstate }),
            safe(
                p.slowdown_temp_c == 0 || (30 <= p.slowdown_temp_c && p.slowdown_temp_c <= 110),
                UnsafeReason::SlowdownBand { celsius: p.slowdown_temp_c },
            ),
        ),
    )
}

fn validate_gpu_patch(p: &GpuPolicyPatch, caps: &CapabilitySet) -> (r: Option<ControlError>)
    ensures
        r == gpu_patch_refusal(*p, *caps),
{
    either(
        require_supported(caps.gpu_platform_policy),
        either(
            safe(*p != GpuPolicyPatch::default(), UnsafeReason::EmptyGpuPatch),
            either(
                match p.dstate {
                    Some(d) => safe(1 <= d && d <= 4, UnsafeReason::DStateRange { dstate: d }),
                    None => None,
                },
                match p.slowdown_temp_c {
                    Some(t) => safe(
                        t == 0 || (30 <= t && t <= 110),
                        UnsafeReason::SlowdownBand { celsius: t },
                    ),
                    None => None,
                },
            ),
        ),
    )
}

fn validate_percent(
    ac: Option<u8>,
    dc: Option<u8>,
    support: Support,
    caps: &CapabilitySet,
) -> (r: Option<Option<ControlError>>)
    ensures
        r matches Some(refusal) ==> forall|reason: UnsafeReason|
            refusal == #[trigger] percent_refusal(ac, dc, support, *caps, reason),
        r is None ==> (!percent(ac) || !percent(dc)) && forall|reason: UnsafeReason|
            #[trigger] percent_refusal(ac, dc, support, *caps, reason) == Some(
                ControlError::UnsafeRequest { reason },
            ),
{
    if ac.is_none() && dc.is_none() {
        return Some(None);
    }
    let gate = either(require_supported(support), require_elevated(caps));
    if gate.is_some() {
        return Some(gate);
    }
    if is_percent(ac) && is_percent(dc) { Some(None) } else { None }
}

fn validate_frequency(p: &CpuPolicy, caps: &CapabilitySet) -> (r: Option<ControlError>)
    ensures
        r == frequency_refusal(*p, *caps),
{
    if p.max_freq_mhz_ac.is_none() && p.max_freq_mhz_dc.is_none() {
        return None;
    }
    let gate = either(require_supported(caps.ppm.max_freq), require_elevated(caps));
    if gate.is_some() {
        return gate;
    }
    if !is_plausible_mhz(p.max_freq_mhz_ac) {
        Some(ControlError::UnsafeRequest {
            reason: UnsafeReason::MaxFrequencyBand { mhz: p.max_freq_mhz_ac.unwrap() },
        })
    } else if !is_plausible_mhz(p.max_freq_mhz_dc) {
        Some(ControlError::UnsafeRequest {
            reason: UnsafeReason::MaxFrequencyBand { mhz: p.max_freq_mhz_dc.unwrap() },
        })
    } else {
        None
    }
}

fn validate_cpu_policy(p: &CpuPolicy, caps: &CapabilitySet) -> (r: Option<ControlError>)
    ensures
        r == cpu_refusal(*p, *caps),
{
    if p.power_limits.is_some() {
        return Some(ControlError::Unsupported);
    }
    let epp = match validate_percent(p.epp_ac, p.epp_dc, caps.ppm.epp, caps) {
        Some(refusal) => refusal,
        None => Some(ControlError::UnsafeRequest {
            reason: UnsafeReason::EppRange { value: bad_side(p.epp_ac, p.epp_dc) },
        }),
    };
    if epp.is_some() {
        return epp;
    }
    let epp1 = match validate_percent(p.epp1_ac, p.epp1_dc, caps.ppm.epp1, caps) {
        Some(refusal) => refusal,
        None => Some(ControlError::UnsafeRequest {
            reason: UnsafeReason::Epp1Range { value: bad_side(p.epp1_ac, p.epp1_dc) },
        }),
    };
    if epp1.is_some() {
        return epp1;
    }
    let frequency = validate_frequency(p, caps);
    if frequency.is_some() {
        return frequency;
    }
    if p.boost_policy.is_some() { require_elevated(caps) } else { None }
}

fn validate_fan_levels(levels: &FanLevels, caps: &CapabilitySet) -> (r: Option<ControlError>)
    ensures
        r == levels_refusal(*levels, *caps),
{
    if levels.is_auto() {
        return None;
    }
    match (caps.fan.clamp_min, caps.fan.clamp_max) {
        (Some(low), Some(high)) => either(
            safe(
                levels.left == 0 || (low <= levels.left && levels.left <= high),
                UnsafeReason::FanLevelClamp { right: false, level: levels.left, low, high },
            ),
            safe(
                levels.right == 0 || (low <= levels.right && levels.right <= high),
                UnsafeReason::FanLevelClamp { right: true, level: levels.right, low, high },
            ),
        ),
        _ => Some(ControlError::UnsafeRequest { reason: UnsafeReason::NoFanClamp }),
    }
}

fn point_levels(p: &FanCurvePoint) -> (r: FanLevels)
    ensures
        r == p.levels(),
{
    FanLevels { left: p.left, right: p.right }
}

fn validate_curve(curve: &FanCurve, caps: &CapabilitySet) -> (r: Option<ControlError>)
    ensures
        r == curve_refusal(*curve, *caps),
{
    either(
        safe(curve.validate(), UnsafeReason::InvalidCurve),
        either(
            validate_fan_levels(&point_levels(&curve.first), caps),
            either(
                validate_fan_levels(&point_levels(&curve.second), caps),
                either(
                    validate_fan_levels(&point_levels(&curve.third), caps),
                    validate_fan_levels(&point_levels(&curve.fourth), caps),
                ),
            ),
        ),
    )
}


/// Handing the fans back to firmware is never refused.
pub proof fn firmware_auto_always_allowed(
    s: SafetySupervisor,
    caps: CapabilitySet,
    feed: ThermalFeed,
    observed: ObservedState,
    now: u64,
)
    ensures
        s.refusal(ControlCommand::SetFanMode(FanMode::FirmwareAuto), caps, feed, observed, now) is None,
{
}

/// On a board of which nothing is known, no command that could write
/// anything is admitted: only the hand-back to firmware, a session restore
/// and a processor policy that sets no more than the bounds on performance,
/// or one power source's boost, are.
pub proof fn unknown_capability_is_unsupported(
    s: SafetySupervisor,
    cmd: ControlCommand,
    feed: ThermalFeed,
    observed: ObservedState,
    now: u64,
)
    requires
        s.refusal(cmd, CapabilitySet::spec_unknown(), feed, observed, now) is None,
    ensures
        cmd == ControlCommand::SetFanMode(FanMode::FirmwareAuto) || cmd is RestoreSession || (
        cmd matches ControlCommand::SetCpuPolicy(p) && unguarded(p)),
{
}

/// Whether a processor policy sets nothing that validation weighs.
pub open spec fn unguarded(p: CpuPolicy) -> bool {
    p == (CpuPolicy {
        min_performance_ac: p.min_performance_ac,
        min_performance_dc: p.min_performance_dc,
        max_performance_ac: p.max_performance_ac,
        max_performance_dc: p.max_performance_dc,
        boost_policy_ac: p.boost_policy_ac,
        boost_policy_dc: p.boost_policy_dc,
        ..CpuPolicy::spec_empty()
    })
}

/// A processor policy is admitted exactly when it sets no power limits, each
/// preference and frequency limit that it sets is supported, privileged and
/// in range, and the boost policy, where set, is privileged. What it asks of
/// the bounds on performance never matters.
pub proof fn cpu_policy_admission(p: CpuPolicy, q: CpuPolicy, caps: CapabilitySet)
    requires
        q == (CpuPolicy {
            min_performance_ac: q.min_performance_ac,
            min_performance_dc: q.min_performance_dc,
            max_performance_ac: q.max_performance_ac,
            max_performance_dc: q.max_performance_dc,
            ..p
        }),
    ensures
        cpu_refusal(p, caps) is None <==> {
            &&& p.power_limits is None
            &&& (p.epp_ac is Some || p.epp_dc is Some) ==> caps.ppm.epp == Support::Supported
                && caps.ppm.write_privileged && percent(p.epp_ac) && percent(p.epp_dc)
            &&& (p.epp1_ac is Some || p.epp1_dc is Some) ==> caps.ppm.epp1 == Support::Supported
                && caps.ppm.write_privileged && percent(p.epp1_ac) && percent(p.epp1_dc)
            &&& (p.max_freq_mhz_ac is Some || p.max_freq_mhz_dc is Some) ==> caps.ppm.max_freq
                == Support::Supported && caps.ppm.write_privileged && plausible_mhz(p.max_freq_mhz_ac)
                && plausible_mhz(p.max_freq_mhz_dc)
            &&& p.boost_policy is Some ==> caps.ppm.write_privileged
        },
        cpu_refusal(q, caps) == cpu_refusal(p, caps),
{
}

/// Fan levels that validation admits are left to firmware or lie in the
/// board's clamp range, and the package temperature is fresh.
pub proof fn admitted_levels_are_clamped(
    s: SafetySupervisor,
    levels: FanLevels,
    caps: CapabilitySet,
    feed: ThermalFeed,
    observed: ObservedState,
    now: u64,
)
    requires
        s.refusal(ControlCommand::SetFanMode(FanMode::Manual(levels)), caps, feed, observed, now) is None,
    ensures
        temp_fresh_for_write(feed, now),
        s.override_saved is None,
        levels.spec_is_auto() || (caps.fan.clamp_min matches Some(low) && caps.fan.clamp_max matches Some(high)
            && level_in_clamp(levels.left, low, high) && level_in_clamp(levels.right, low, high)),
{
}

/// Power limits that validation admits are compiled in, declared experimental
/// by the board, inside the envelope, and readable.
pub proof fn admitted_power_limits_are_inside_the_envelope(
    s: SafetySupervisor,
    l: CpuPowerLimits,
    caps: CapabilitySet,
    feed: ThermalFeed,
    observed: ObservedState,
    now: u64,
)
    requires
        s.refusal(ControlCommand::SetPowerLimits(l), caps, feed, observed, now) is None,
    ensures
        s.experimental_power_limits,
        caps.power_limits == Support::Experimental,
        15 <= l.pl1_w <= l.pl2_w <= 157,
        l.pl1_w <= 130,
        l.pl4_w == 0 || 30 <= l.pl4_w <= 200,
        l.cpu_gpu_concurrent_w == 0,
        power_fresh(feed, now),
        l.pl4_w != 0 ==> pl4_fresh(feed, now),
{
}

/// While firmware holds the fans and no override is active, the safety net
/// does nothing, however hot the machine is.
pub proof fn firmware_control_is_left_alone(
    s: SafetySupervisor,
    feed: ThermalFeed,
    observed: ObservedState,
    now: u64,
)
    requires
        !user_holds_fans(observed),
        s.override_saved is None,
    ensures
        s.verdict(feed, observed, now) == (None::<SafetyAction>, None::<FanMode>),
{
}

/// A software curve follows the temperature by itself: however hot the machine
/// is, heat alone never overrides it.
pub proof fn curve_is_not_overridden(
    s: SafetySupervisor,
    feed: ThermalFeed,
    observed: ObservedState,
    now: u64,
)
    requires
        observed.fan_mode.known() matches Some(FanMode::Curve(_)),
        observed.max_fan.known() != Some(true),
        s.override_saved is None,
        !blind(feed, now),
    ensures
        s.verdict(feed, observed, now) == (None::<SafetyAction>, None::<FanMode>),
{
}

/// A controller that holds the fans blindly always hands them back.
pub proof fn blind_control_is_handed_back(
    s: SafetySupervisor,
    feed: ThermalFeed,
    observed: ObservedState,
    now: u64,
)
    requires
        user_holds_fans(observed) || s.override_saved is Some,
        blind(feed, now),
    ensures
        s.verdict(feed, observed, now) == (Some(SafetyAction::WatchdogRestoreAuto), None::<FanMode>),
{
}

/// Hysteresis: an override that started at or above the upper threshold
/// keeps holding above the lower one, whatever else changes, and then
/// releases to the mode that it replaced.
pub proof fn override_holds_until_cool(
    s: SafetySupervisor,
    hot: ThermalFeed,
    observed: ObservedState,
    start: u64,
    feed: ThermalFeed,
    later: ObservedState,
    now: u64,
)
    requires
        s.verdict(hot, observed, start).0 == Some(SafetyAction::ForceMaxFan),
        !blind(feed, now),
    ensures
        ({
            let saved = s.verdict(hot, observed, start).1;
            let latched = SafetySupervisor { override_saved: saved, ..s };
            let mode = observed.fan_mode.known().unwrap_or(FanMode::FirmwareAuto);
            &&& saved == Some(mode)
            &&& hot.pkg_temp->Some_0.value >= FORCE_MAX_FAN_AT
            &&& feed.pkg_temp->Some_0.value > RELEASE_MAX_FAN_AT ==> latched.verdict(feed, later, now) == (
                None::<SafetyAction>,
                saved,
            )
            &&& feed.pkg_temp->Some_0.value <= RELEASE_MAX_FAN_AT ==> latched.verdict(feed, later, now) == (
                Some(SafetyAction::ReleaseTo(mode)),
                None::<FanMode>,
            )
        }),
{
}

/// A manual or curve request is refused for as long as an override is
/// active.
pub proof fn override_blocks_user_levels(
    s: SafetySupervisor,
    mode: FanMode,
    caps: CapabilitySet,
    feed: ThermalFeed,
    observed: ObservedState,
    now: u64,
)
    requires
        s.override_saved is Some,
        mode is Manual || mode is Curve,
    ensures
        s.refusal(ControlCommand::SetFanMode(mode), caps, feed, observed, now) is Some,
{
}

} // verus!
