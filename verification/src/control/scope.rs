//! Automatic sessions: before a profile is applied for one, what it replaces
//! is captured, field for field.
use vstd::prelude::*;

use super::coordinator::ControlCoordinator;
use super::exec::cpu::wanted;
use super::exec::power::{watts, whole_watts};
use super::safety::{age, elapsed, first, need, ThermalFeed, PREWRITE_FRESH};
use crate::domain::error::{
    map_hp_error, mapped_hp_error, ControlError, HpWmiError, Missing, PlatformError, UnsafeReason,
};
use crate::domain::policy::{
    BoostPolicy, CpuPolicy, CpuPowerLimits, FanMode, GpuPlatformPolicy, GpuPolicyPatch, ThermalMode,
};
use crate::domain::profile::PerformanceProfile;
use crate::text::same_text;

verus! {

/// The settings read before an automatic session; one that its profile does
/// not name is not looked at.
#[derive(Debug, PartialEq)]
pub struct ScopeReads {
    pub epp: Result<(u8, u8), PlatformError>,
    pub epp1: Result<(u8, u8), PlatformError>,
    pub max_freq: Result<(u32, u32), PlatformError>,
    pub min_performance: Result<(u8, u8), PlatformError>,
    pub max_performance: Result<(u8, u8), PlatformError>,
    pub boost: Result<(BoostPolicy, BoostPolicy), PlatformError>,
    pub gpu: Result<GpuPlatformPolicy, HpWmiError>,
}

/// A processor setting that is named has to be readable.
pub open spec fn unread<T>(ac: Option<T>, dc: Option<T>, read: Result<(T, T), PlatformError>) -> Option<ControlError> {
    match read {
        Err(e) => need(
            !wanted(ac, dc),
            ControlError::BackendUnavailable { what: Missing::Named { what: e.what } },
        ),
        Ok(_) => None,
    }
}

fn check_read<T: Copy>(ac: &Option<T>, dc: &Option<T>, read: &Result<(T, T), PlatformError>) -> (r: Option<ControlError>)
    ensures
        r == unread(*ac, *dc, *read),
{
    match read {
        Err(e) => if ac.is_some() || dc.is_some() {
            Some(ControlError::BackendUnavailable { what: Missing::Named { what: e.what.clone() } })
        } else {
            None
        },
        Ok(_) => None,
    }
}

/// The value to return to on mains.
pub open spec fn base_ac<T>(ac: Option<T>, read: Result<(T, T), PlatformError>) -> Option<T> {
    if ac is Some && read is Ok { Some(read->Ok_0.0) } else { None }
}

/// The value to return to on battery.
pub open spec fn base_dc<T>(dc: Option<T>, read: Result<(T, T), PlatformError>) -> Option<T> {
    if dc is Some && read is Ok { Some(read->Ok_0.1) } else { None }
}

fn base_sides<T: Copy>(ac: Option<T>, dc: Option<T>, read: &Result<(T, T), PlatformError>) -> (r: (
    Option<T>,
    Option<T>,
))
    ensures
        r == (base_ac(ac, *read), base_dc(dc, *read)),
{
    match read {
        Ok(pair) => (
            if ac.is_some() { Some(pair.0) } else { None },
            if dc.is_some() { Some(pair.1) } else { None },
        ),
        Err(_) => (None, None),
    }
}

/// What stands against capturing the GPU policy.
pub open spec fn gpu_uncaptured(c: ControlCoordinator, target: PerformanceProfile, reads: ScopeReads) -> Option<
    ControlError,
> {
    if target.gpu_policy is None {
        None
    } else if !c.hp_present {
        Some(ControlError::Unsupported)
    } else {
        match reads.gpu {
            Err(e) => Some(mapped_hp_error(e)),
            Ok(_) => None,
        }
    }
}

/// What stands against capturing the power limits: they have to be readable,
/// and fresh.
pub open spec fn power_uncaptured(target: PerformanceProfile, feed: ThermalFeed, now: u64) -> Option<ControlError> {
    match target.power_limits {
        None => None,
        Some(limits) => match feed.power_limits {
            None => Some(ControlError::Unsupported),
            Some(s) => if age(now, s.at) > PREWRITE_FRESH {
                Some(ControlError::UnsafeRequest { reason: UnsafeReason::PowerBaselineStale })
            } else if limits.pl4_w == 0 {
                None
            } else {
                match feed.pl4 {
                    None => Some(ControlError::Unsupported),
                    Some(s4) => if age(now, s4.at) > PREWRITE_FRESH {
                        Some(ControlError::UnsafeRequest { reason: UnsafeReason::Pl4BaselineStale })
                    } else {
                        None
                    },
                }
            },
        },
    }
}

/// What stands against capturing what `target` would replace.
pub open spec fn scope_refusal(
    c: ControlCoordinator,
    target: PerformanceProfile,
    reads: ScopeReads,
    feed: ThermalFeed,
    now: u64,
) -> Option<ControlError> {
    let cpu = target.cpu;
    first(
        unread(cpu.epp_ac, cpu.epp_dc, reads.epp),
        first(
            unread(cpu.epp1_ac, cpu.epp1_dc, reads.epp1),
            first(
                unread(cpu.max_freq_mhz_ac, cpu.max_freq_mhz_dc, reads.max_freq),
                first(
                    unread(cpu.min_performance_ac, cpu.min_performance_dc, reads.min_performance),
                    first(
                        unread(cpu.max_performance_ac, cpu.max_performance_dc, reads.max_performance),
                        first(
                            unread(cpu.spec_boost_ac(), cpu.spec_boost_dc(), reads.boost),
                            first(gpu_uncaptured(c, target, reads), power_uncaptured(target, feed, now)),
                        ),
                    ),
                ),
            ),
        ),
    )
}

/// The processor settings to return to: of each that the target names, what
/// was read.
pub open spec fn cpu_baseline(target: CpuPolicy, reads: ScopeReads) -> CpuPolicy {
    CpuPolicy {
        epp_ac: base_ac(target.epp_ac, reads.epp),
        epp_dc: base_dc(target.epp_dc, reads.epp),
        epp1_ac: base_ac(target.epp1_ac, reads.epp1),
        epp1_dc: base_dc(target.epp1_dc, reads.epp1),
        max_freq_mhz_ac: base_ac(target.max_freq_mhz_ac, reads.max_freq),
        max_freq_mhz_dc: base_dc(target.max_freq_mhz_dc, reads.max_freq),
        min_performance_ac: base_ac(target.min_performance_ac, reads.min_performance),
        min_performance_dc: base_dc(target.min_performance_dc, reads.min_performance),
        max_performance_ac: base_ac(target.max_performance_ac, reads.max_performance),
        max_performance_dc: base_dc(target.max_performance_dc, reads.max_performance),
        boost_policy: None,
        boost_policy_ac: base_ac(target.spec_boost_ac(), reads.boost),
        boost_policy_dc: base_dc(target.spec_boost_dc(), reads.boost),
        power_limits: None,
    }
}

/// The GPU fields to return to.
pub open spec fn gpu_baseline(target: Option<GpuPolicyPatch>, read: Result<GpuPlatformPolicy, HpWmiError>) -> Option<
    GpuPolicyPatch,
> {
    match (target, read) {
        (Some(patch), Ok(actual)) => Some(
            GpuPolicyPatch {
                ctgp: if patch.ctgp is Some { Some(actual.ctgp) } else { None },
                ppab: if patch.ppab is Some { Some(actual.ppab) } else { None },
                dstate: if patch.dstate is Some { Some(actual.dstate) } else { None },
                slowdown_temp_c: if patch.slowdown_temp_c is Some { Some(actual.slowdown_temp_c) } else { None },
            },
        ),
        _ => None,
    }
}

/// The power limits to return to; a peak limit that the target leaves alone
/// is left alone.
pub open spec fn power_baseline(target: Option<CpuPowerLimits>, feed: ThermalFeed) -> Option<CpuPowerLimits> {
    match (target, feed.power_limits) {
        (Some(limits), Some(s)) => Some(
            CpuPowerLimits {
                pl1_w: watts(s.pl1_mw),
                pl2_w: watts(s.pl2_mw),
                pl4_w: if limits.pl4_w == 0 || feed.pl4 is None { 0 } else { watts(feed.pl4->Some_0.pl4_mw) },
                cpu_gpu_concurrent_w: 0,
            },
        ),
        _ => None,
    }
}

/// `baseline` is what `target` would replace, and nothing else.
pub open spec fn is_baseline(
    baseline: PerformanceProfile,
    c: ControlCoordinator,
    target: PerformanceProfile,
    reads: ScopeReads,
    feed: ThermalFeed,
) -> bool {
    &&& baseline.cpu == cpu_baseline(target.cpu, reads)
    &&& baseline.fan == (if target.fan is Some {
        Some(c.observed.fan_mode.known().unwrap_or(FanMode::FirmwareAuto))
    } else {
        None
    })
    &&& baseline.thermal_mode == (if target.thermal_mode is Some {
        Some(c.observed.thermal_mode.known().unwrap_or(ThermalMode::Balanced))
    } else {
        None
    })
    &&& baseline.gpu_policy == gpu_baseline(target.gpu_policy, reads.gpu)
    &&& baseline.power_limits == power_baseline(target.power_limits, feed)
    &&& baseline.description@ == Seq::<char>::empty()
}

fn capture_cpu(cpu: &CpuPolicy, reads: &ScopeReads) -> (r: CpuPolicy)
    ensures
        r == cpu_baseline(*cpu, *reads),
{
    let (epp_ac, epp_dc) = base_sides(cpu.epp_ac, cpu.epp_dc, &reads.epp);
    let (epp1_ac, epp1_dc) = base_sides(cpu.epp1_ac, cpu.epp1_dc, &reads.epp1);
    let (max_freq_mhz_ac, max_freq_mhz_dc) = base_sides(cpu.max_freq_mhz_ac, cpu.max_freq_mhz_dc, &reads.max_freq);
    let (min_performance_ac, min_performance_dc) = base_sides(
        cpu.min_performance_ac,
        cpu.min_performance_dc,
        &reads.min_performance,
    );
    let (max_performance_ac, max_performance_dc) = base_sides(
        cpu.max_performance_ac,
        cpu.max_performance_dc,
        &reads.max_performance,
    );
    let (boost_policy_ac, boost_policy_dc) = base_sides(cpu.boost_ac(), cpu.boost_dc(), &reads.boost);
    CpuPolicy {
        epp_ac,
        epp_dc,
        epp1_ac,
        epp1_dc,
        max_freq_mhz_ac,
        max_freq_mhz_dc,
        min_performance_ac,
        min_performance_dc,
        max_performance_ac,
        max_performance_dc,
        boost_policy: None,
        boost_policy_ac,
        boost_policy_dc,
        power_limits: None,
    }
}

fn capture_gpu(target: &Option<GpuPolicyPatch>, read: &Result<GpuPlatformPolicy, HpWmiError>) -> (r: Option<
    GpuPolicyPatch,
>)
    ensures
        r == gpu_baseline(*target, *read),
{
    match (target, read) {
        (Some(patch), Ok(actual)) => Some(
            GpuPolicyPatch {
                ctgp: if patch.ctgp.is_some() { Some(actual.ctgp) } else { None },
                ppab: if patch.ppab.is_some() { Some(actual.ppab) } else { None },
                dstate: if patch.dstate.is_some() { Some(actual.dstate) } else { None },
                slowdown_temp_c: if patch.slowdown_temp_c.is_some() { Some(actual.slowdown_temp_c) } else { None },
            },
        ),
        _ => None,
    }
}

fn capture_power(target: &Option<CpuPowerLimits>, feed: &ThermalFeed) -> (r: Option<CpuPowerLimits>)
    ensures
        r == power_baseline(*target, *feed),
{
    match (target, feed.power_limits) {
        (Some(limits), Some(s)) => Some(
            CpuPowerLimits {
                pl1_w: whole_watts(s.pl1_mw),
                pl2_w: whole_watts(s.pl2_mw),
                pl4_w: match feed.pl4 {
                    Some(s4) => if limits.pl4_w == 0 { 0 } else { whole_watts(s4.pl4_mw) },
                    None => 0,
                },
                cpu_gpu_concurrent_w: 0,
            },
        ),
        _ => None,
    }
}

fn check_power(target: &PerformanceProfile, feed: &ThermalFeed, now: u64) -> (r: Option<ControlError>)
    ensures
        r == power_uncaptured(*target, *feed, now),
{
    match target.power_limits {
        None => None,
        Some(limits) => match feed.power_limits {
            None => Some(ControlError::Unsupported),
            Some(s) => if elapsed(now, s.at) > PREWRITE_FRESH {
                Some(ControlError::UnsafeRequest { reason: UnsafeReason::PowerBaselineStale })
            } else if limits.pl4_w == 0 {
                None
            } else {
                match feed.pl4 {
                    None => Some(ControlError::Unsupported),
                    Some(s4) => if elapsed(now, s4.at) > PREWRITE_FRESH {
                        Some(ControlError::UnsafeRequest { reason: UnsafeReason::Pl4BaselineStale })
                    } else {
                        None
                    },
                }
            },
        },
    }
}

fn check_gpu(c: &ControlCoordinator, target: &PerformanceProfile, reads: &ScopeReads) -> (r: Option<ControlError>)
    ensures
        r == gpu_uncaptured(*c, *target, *reads),
{
    if target.gpu_policy.is_none() {
        None
    } else if !c.hp_present {
        Some(ControlError::Unsupported)
    } else {
        match &reads.gpu {
            Err(e) => Some(map_hp_error(e)),
            Ok(_) => None,
        }
    }
}

fn check_reads(c: &ControlCoordinator, target: &PerformanceProfile, reads: &ScopeReads, feed: &ThermalFeed, now: u64) -> (r:
    Option<ControlError>)
    ensures
        r == scope_refusal(*c, *target, *reads, *feed, now),
{
    let cpu = &target.cpu;
    let e = check_read(&cpu.epp_ac, &cpu.epp_dc, &reads.epp);
    if e.is_some() {
        return e;
    }
    let e = check_read(&cpu.epp1_ac, &cpu.epp1_dc, &reads.epp1);
    if e.is_some() {
        return e;
    }
    let e = check_read(&cpu.max_freq_mhz_ac, &cpu.max_freq_mhz_dc, &reads.max_freq);
    if e.is_some() {
        return e;
    }
    let e = check_read(&cpu.min_performance_ac, &cpu.min_performance_dc, &reads.min_performance);
    if e.is_some() {
        return e;
    }
    let e = check_read(&cpu.max_performance_ac, &cpu.max_performance_dc, &reads.max_performance);
    if e.is_some() {
        return e;
    }
    let e = check_read(&cpu.boost_ac(), &cpu.boost_dc(), &reads.boost);
    if e.is_some() {
        return e;
    }
    let e = check_gpu(c, target, reads);
    if e.is_some() {
        return e;
    }
    check_power(target, feed, now)
}

/// Captures what `target` would replace. A setting without a readback falls
/// back to what this session last wrote, else to firmware control.
pub fn capture_scope_baseline(
    c: &ControlCoordinator,
    target: &PerformanceProfile,
    reads: &ScopeReads,
    feed: &ThermalFeed,
    now: u64,
) -> (r: Result<PerformanceProfile, ControlError>)
    ensures
        r is Ok <==> scope_refusal(*c, *target, *reads, *feed, now) is None,
        r matches Err(e) ==> scope_refusal(*c, *target, *reads, *feed, now) == Some(e),
        r matches Ok(baseline) ==> is_baseline(baseline, *c, *target, *reads, *feed),
{
    if let Some(e) = check_reads(c, target, reads, feed, now) {
        return Err(e);
    }
    Ok(
        PerformanceProfile {
            description: String::new(),
            cpu: capture_cpu(&target.cpu, reads),
            power_limits: capture_power(&target.power_limits, feed),
            gpu_policy: capture_gpu(&target.gpu_policy, &reads.gpu),
            thermal_mode: if target.thermal_mode.is_some() {
                Some(c.observed.thermal_mode.get().unwrap_or(ThermalMode::Balanced))
            } else {
                None
            },
            fan: if target.fan.is_some() {
                Some(c.observed.fan_mode.get().unwrap_or(FanMode::FirmwareAuto))
            } else {
                None
            },
        },
    )
}

/// The power scheme is the one that the automatic session was started in.
pub open spec fn scheme_kept(c: ControlCoordinator, scheme: Option<String>) -> bool {
    c.scoped_session matches Some(scope) ==> (scope.scheme matches Some(expected) ==> (scheme matches Some(actual)
        && actual@ == expected@))
}

/// Whether the power scheme is the one that the automatic session was started
/// in.
pub fn validate_scope_scheme(c: &ControlCoordinator, scheme: &Option<String>) -> (r: Result<(), ControlError>)
    ensures
        r is Ok <==> scheme_kept(*c, *scheme),
        r matches Err(e) ==> e == (ControlError::UnsafeRequest { reason: UnsafeReason::SchemeChanged }),
{
    let kept = match &c.scoped_session {
        None => true,
        Some(scope) => match (&scope.scheme, scheme) {
            (None, _) => true,
            (Some(expected), Some(actual)) => same_text(actual.as_str(), expected.as_str()),
            (Some(_), None) => false,
        },
    };
    if kept {
        Ok(())
    } else {
        Err(ControlError::UnsafeRequest { reason: UnsafeReason::SchemeChanged })
    }
}

/// An automatic session owns exactly the fields that its profile names: a
/// field that the profile leaves alone is in no way part of the restore.
pub proof fn baseline_owns_only_named_fields(
    baseline: PerformanceProfile,
    c: ControlCoordinator,
    target: PerformanceProfile,
    reads: ScopeReads,
    feed: ThermalFeed,
    now: u64,
)
    requires
        is_baseline(baseline, c, target, reads, feed),
        scope_refusal(c, target, reads, feed, now) is None,
    ensures
        baseline.cpu.epp_ac is Some <==> target.cpu.epp_ac is Some,
        baseline.cpu.epp_dc is Some <==> target.cpu.epp_dc is Some,
        baseline.cpu.epp1_ac is Some <==> target.cpu.epp1_ac is Some,
        baseline.cpu.epp1_dc is Some <==> target.cpu.epp1_dc is Some,
        baseline.cpu.max_freq_mhz_ac is Some <==> target.cpu.max_freq_mhz_ac is Some,
        baseline.cpu.max_freq_mhz_dc is Some <==> target.cpu.max_freq_mhz_dc is Some,
        baseline.cpu.min_performance_ac is Some <==> target.cpu.min_performance_ac is Some,
        baseline.cpu.min_performance_dc is Some <==> target.cpu.min_performance_dc is Some,
        baseline.cpu.max_performance_ac is Some <==> target.cpu.max_performance_ac is Some,
        baseline.cpu.max_performance_dc is Some <==> target.cpu.max_performance_dc is Some,
        baseline.cpu.spec_boost_ac() is Some <==> target.cpu.spec_boost_ac() is Some,
        baseline.cpu.spec_boost_dc() is Some <==> target.cpu.spec_boost_dc() is Some,
        baseline.fan is Some <==> target.fan is Some,
        baseline.thermal_mode is Some <==> target.thermal_mode is Some,
        baseline.gpu_policy is Some <==> target.gpu_policy is Some,
        baseline.power_limits is Some <==> target.power_limits is Some,
{
}

} // verus!
