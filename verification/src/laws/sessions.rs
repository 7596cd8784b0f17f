//! Automatic sessions: what they capture, and that it gives the machine back.
use vstd::prelude::*;

use crate::control::coordinator::ControlCoordinator;
use crate::control::safety::ThermalFeed;
use crate::control::scope::{gpu_baseline, is_baseline, scope_refusal, ScopeReads};
use crate::domain::error::{mapped_hp_error, ControlError, HpWmiError, Missing, PlatformError, UnsafeReason};
use crate::domain::policy::{FanMode, GpuPlatformPolicy, GpuPolicyPatch, ThermalMode};
use crate::domain::profile::PerformanceProfile;

verus! {

/// A sparse change sets the fields that it names, each to its value, and keeps
/// the others.
pub proof fn patches_set_what_they_name(q: GpuPolicyPatch, live: GpuPlatformPolicy)
    ensures
        ({
            let r = q.spec_apply(live);
            &&& q.ctgp matches Some(v) ==> r.ctgp == v
            &&& q.ctgp is None ==> r.ctgp == live.ctgp
            &&& q.ppab matches Some(v) ==> r.ppab == v
            &&& q.ppab is None ==> r.ppab == live.ppab
            &&& q.dstate matches Some(v) ==> r.dstate == v
            &&& q.dstate is None ==> r.dstate == live.dstate
            &&& q.slowdown_temp_c matches Some(v) ==> r.slowdown_temp_c == v
            &&& q.slowdown_temp_c is None ==> r.slowdown_temp_c == live.slowdown_temp_c
        }),
        q.spec_apply(q.spec_apply(live)) == q.spec_apply(live),
{
}

/// Capturing and then putting back gives the graphics policy back: whatever
/// the session's profile changed, its baseline undoes.
pub proof fn graphics_policy_comes_back(q: GpuPolicyPatch, live: GpuPlatformPolicy, read: Result<GpuPlatformPolicy, HpWmiError>)
    requires
        read == Ok::<GpuPlatformPolicy, HpWmiError>(live),
    ensures
        ({
            let b = gpu_baseline(Some(q), read);
            &&& b is Some
            &&& b->Some_0.spec_apply(q.spec_apply(live)) == live
            &&& b->Some_0.ctgp == (if q.ctgp is Some { Some(live.ctgp) } else { None })
            &&& b->Some_0.ppab == (if q.ppab is Some { Some(live.ppab) } else { None })
            &&& b->Some_0.dstate == (if q.dstate is Some { Some(live.dstate) } else { None })
            &&& b->Some_0.slowdown_temp_c == (if q.slowdown_temp_c is Some {
                Some(live.slowdown_temp_c)
            } else {
                None
            })
        }),
        gpu_baseline(None, read) is None,
{
}

/// One side of a processor setting as the baseline has it: what was read,
/// where the session's profile names the side, and nothing elsewhere.
pub open spec fn captured<T>(named: Option<T>, kept: Option<T>, read: T) -> bool {
    kept == (if named is Some { Some(read) } else { None })
}

/// Both sides of a processor setting are captured from a reading.
pub open spec fn captured_pair<T>(
    ac: Option<T>,
    dc: Option<T>,
    kept_ac: Option<T>,
    kept_dc: Option<T>,
    read: Result<(T, T), PlatformError>,
) -> bool {
    &&& ac is Some || dc is Some ==> read is Ok
    &&& read matches Ok(pair) ==> captured(ac, kept_ac, pair.0) && captured(dc, kept_dc, pair.1)
    &&& ac is None && dc is None ==> kept_ac is None && kept_dc is None
}

/// The boost policy that is asked for on a side: the side's own, else the
/// shared one.
pub open spec fn boost_of<T>(side: Option<T>, shared: Option<T>) -> Option<T> {
    match side {
        Some(v) => Some(v),
        None => shared,
    }
}

/// What an accepted session captures is what was read or known before the
/// write, field for field, and never what the profile sets.
pub proof fn sessions_capture_what_they_replace(
    baseline: PerformanceProfile,
    c: ControlCoordinator,
    target: PerformanceProfile,
    reads: ScopeReads,
    feed: ThermalFeed,
    now: u64,
)
    requires
        is_baseline(baseline, c, target, reads, feed),
        scope_refusal(c, target, reads, feed, now) is None,
    ensures
        ({
            let (t, b) = (target.cpu, baseline.cpu);
            let (boost_ac, boost_dc) = (
                boost_of(t.boost_policy_ac, t.boost_policy),
                boost_of(t.boost_policy_dc, t.boost_policy),
            );
            &&& captured_pair(t.epp_ac, t.epp_dc, b.epp_ac, b.epp_dc, reads.epp)
            &&& captured_pair(t.epp1_ac, t.epp1_dc, b.epp1_ac, b.epp1_dc, reads.epp1)
            &&& captured_pair(
                t.max_freq_mhz_ac,
                t.max_freq_mhz_dc,
                b.max_freq_mhz_ac,
                b.max_freq_mhz_dc,
                reads.max_freq,
            )
            &&& captured_pair(
                t.min_performance_ac,
                t.min_performance_dc,
                b.min_performance_ac,
                b.min_performance_dc,
                reads.min_performance,
            )
            &&& captured_pair(
                t.max_performance_ac,
                t.max_performance_dc,
                b.max_performance_ac,
                b.max_performance_dc,
                reads.max_performance,
            )
            &&& captured_pair(boost_ac, boost_dc, b.boost_policy_ac, b.boost_policy_dc, reads.boost)
            &&& b.boost_policy is None
            &&& b.power_limits is None
        }),
        target.fan is Some ==> baseline.fan == Some(
            match c.observed.fan_mode.known() {
                Some(mode) => mode,
                None => FanMode::FirmwareAuto,
            },
        ),
        target.fan is None ==> baseline.fan is None,
        target.thermal_mode is Some ==> baseline.thermal_mode == Some(
            match c.observed.thermal_mode.known() {
                Some(mode) => mode,
                None => ThermalMode::Balanced,
            },
        ),
        target.thermal_mode is None ==> baseline.thermal_mode is None,
        target.gpu_policy matches Some(q) ==> c.hp_present && reads.gpu is Ok && baseline.gpu_policy is Some
            && baseline.gpu_policy->Some_0.spec_apply(q.spec_apply(reads.gpu->Ok_0)) == reads.gpu->Ok_0
            && (baseline.gpu_policy->Some_0.ctgp is Some <==> q.ctgp is Some)
            && (baseline.gpu_policy->Some_0.ppab is Some <==> q.ppab is Some)
            && (baseline.gpu_policy->Some_0.dstate is Some <==> q.dstate is Some)
            && (baseline.gpu_policy->Some_0.slowdown_temp_c is Some <==> q.slowdown_temp_c is Some),
        target.gpu_policy is None ==> baseline.gpu_policy is None,
        target.power_limits is None ==> baseline.power_limits is None,
        target.power_limits is Some ==> {
            let (l, b) = (target.power_limits->Some_0, baseline.power_limits->Some_0);
            &&& baseline.power_limits is Some
            &&& feed.power_limits is Some
            &&& near_watts(b.pl1_w, feed.power_limits->Some_0.pl1_mw as int)
            &&& near_watts(b.pl2_w, feed.power_limits->Some_0.pl2_mw as int)
            &&& l.pl4_w == 0 ==> b.pl4_w == 0
            &&& l.pl4_w != 0 ==> feed.pl4 is Some && near_watts(b.pl4_w, feed.pl4->Some_0.pl4_mw as int)
            &&& b.cpu_gpu_concurrent_w == 0
        },
{
}

/// A limit in watts is the reading in milliwatts, rounded to the nearest with
/// halves upwards, as far as a byte goes.
pub open spec fn near_watts(w: u8, mw: int) -> bool {
    if mw >= 255_500 { w == 255 } else { w * 1000 <= mw + 500 < w * 1000 + 1000 }
}

/// A processor setting that is asked for could not be read.
pub open spec fn missed<T>(ac: Option<T>, dc: Option<T>, read: Result<(T, T), PlatformError>) -> bool {
    (ac is Some || dc is Some) && read is Err
}

/// A session starts exactly if everything that it would replace has been read:
/// each processor setting that is asked for, the graphics policy where the
/// firmware is there to tell it, and power limits no older than five seconds,
/// with the peak limit where it is set.
pub proof fn sessions_start_where_everything_was_read(
    c: ControlCoordinator,
    target: PerformanceProfile,
    reads: ScopeReads,
    feed: ThermalFeed,
    now: u64,
)
    ensures
        ({
            let t = target.cpu;
            let refusal = scope_refusal(c, target, reads, feed, now);
            let cpu_missed = missed(t.epp_ac, t.epp_dc, reads.epp) || missed(t.epp1_ac, t.epp1_dc, reads.epp1) || missed(
                t.max_freq_mhz_ac,
                t.max_freq_mhz_dc,
                reads.max_freq,
            ) || missed(t.min_performance_ac, t.min_performance_dc, reads.min_performance) || missed(
                t.max_performance_ac,
                t.max_performance_dc,
                reads.max_performance,
            ) || missed(
                boost_of(t.boost_policy_ac, t.boost_policy),
                boost_of(t.boost_policy_dc, t.boost_policy),
                reads.boost,
            );
            let gpu_missed = target.gpu_policy is Some && (!c.hp_present || reads.gpu is Err);
            let limits_old = feed.power_limits is Some && now - feed.power_limits->Some_0.at > 5_000;
            let peak_set = target.power_limits is Some && target.power_limits->Some_0.pl4_w != 0;
            let peak_old = feed.pl4 is Some && now - feed.pl4->Some_0.at > 5_000;
            let power_missed = target.power_limits is Some && (feed.power_limits is None || limits_old || (peak_set && (
            feed.pl4 is None || peak_old)));
            &&& refusal is None <==> !cpu_missed && !gpu_missed && !power_missed
            &&& cpu_missed ==> refusal->Some_0 is BackendUnavailable
            &&& missed(t.epp_ac, t.epp_dc, reads.epp) ==> refusal == Some(
                ControlError::BackendUnavailable { what: Missing::Named { what: reads.epp->Err_0.what } },
            )
            &&& !cpu_missed && gpu_missed ==> refusal == Some(
                if c.hp_present {
                    mapped_hp_error(reads.gpu->Err_0)
                } else {
                    ControlError::Unsupported
                },
            )
            &&& !cpu_missed && !gpu_missed && power_missed ==> refusal == Some(
                if feed.power_limits is None {
                    ControlError::Unsupported
                } else if limits_old {
                    ControlError::UnsafeRequest { reason: UnsafeReason::PowerBaselineStale }
                } else if feed.pl4 is None {
                    ControlError::Unsupported
                } else {
                    ControlError::UnsafeRequest { reason: UnsafeReason::Pl4BaselineStale }
                },
            )
        }),
{
}

} // verus!
