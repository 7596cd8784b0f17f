//! Comparison of a profile with the observed machine, over the fields the
//! profile owns and no others.
use vstd::prelude::*;

use crate::domain::policy::{BoostPolicy, GpuPlatformPolicy, GpuPolicyPatch};
use crate::domain::profile::PerformanceProfile;
use crate::domain::state::{ObservedState, ObservedValue};

verus! {

/// A field that the profile sets has the value it sets.
pub open spec fn holds<T>(target: Option<T>, actual: ObservedValue<T>) -> bool {
    target matches Some(v) ==> actual.known() == Some(v)
}

/// A patch field that is set has the live value.
pub open spec fn patch_field<T>(target: Option<T>, actual: T) -> bool {
    target matches Some(v) ==> v == actual
}

/// The policy has every value the patch sets.
pub open spec fn patch_holds(patch: GpuPolicyPatch, actual: GpuPlatformPolicy) -> bool {
    &&& patch_field(patch.ctgp, actual.ctgp)
    &&& patch_field(patch.ppab, actual.ppab)
    &&& patch_field(patch.dstate, actual.dstate)
    &&& patch_field(patch.slowdown_temp_c, actual.slowdown_temp_c)
}

/// Every read-backable field that the profile owns has its value.
pub open spec fn profile_holds(profile: PerformanceProfile, observed: ObservedState) -> bool {
    let cpu = profile.cpu;
    &&& holds(cpu.epp_ac, observed.epp_ac)
    &&& holds(cpu.epp_dc, observed.epp_dc)
    &&& holds(cpu.epp1_ac, observed.epp1_ac)
    &&& holds(cpu.epp1_dc, observed.epp1_dc)
    &&& holds(cpu.max_freq_mhz_ac, observed.max_freq_ac)
    &&& holds(cpu.max_freq_mhz_dc, observed.max_freq_dc)
    &&& holds(cpu.min_performance_ac, observed.min_performance_ac)
    &&& holds(cpu.min_performance_dc, observed.min_performance_dc)
    &&& holds(cpu.max_performance_ac, observed.max_performance_ac)
    &&& holds(cpu.max_performance_dc, observed.max_performance_dc)
    &&& holds(cpu.spec_boost_ac(), observed.boost_ac)
    &&& holds(cpu.spec_boost_dc(), observed.boost_dc)
    &&& profile.gpu_policy matches Some(patch) ==> (observed.gpu_platform_policy.known() matches Some(actual)
        && patch_holds(patch, actual))
}

fn holds_u8(target: Option<u8>, actual: &ObservedValue<u8>) -> (r: bool)
    ensures
        r == holds(target, *actual),
{
    match target {
        Some(v) => actual.get() == Some(v),
        None => true,
    }
}

fn holds_u32(target: Option<u32>, actual: &ObservedValue<u32>) -> (r: bool)
    ensures
        r == holds(target, *actual),
{
    match target {
        Some(v) => actual.get() == Some(v),
        None => true,
    }
}

fn holds_boost(target: Option<BoostPolicy>, actual: &ObservedValue<BoostPolicy>) -> (r: bool)
    ensures
        r == holds(target, *actual),
{
    match target {
        Some(v) => match actual.get() {
            Some(a) => a == v,
            None => false,
        },
        None => true,
    }
}

fn patch_bool(target: Option<bool>, actual: bool) -> (r: bool)
    ensures
        r == patch_field(target, actual),
{
    match target {
        Some(v) => v == actual,
        None => true,
    }
}

fn patch_u8(target: Option<u8>, actual: u8) -> (r: bool)
    ensures
        r == patch_field(target, actual),
{
    match target {
        Some(v) => v == actual,
        None => true,
    }
}

/// Whether the machine still has every value that the profile sets.
pub fn matches(profile: &PerformanceProfile, observed: &ObservedState) -> (r: bool)
    ensures
        r == profile_holds(*profile, *observed),
{
    let cpu = &profile.cpu;
    let cpu_matches = holds_u8(cpu.epp_ac, &observed.epp_ac) && holds_u8(cpu.epp_dc, &observed.epp_dc) && holds_u8(
        cpu.epp1_ac,
        &observed.epp1_ac,
    ) && holds_u8(cpu.epp1_dc, &observed.epp1_dc) && holds_u32(cpu.max_freq_mhz_ac, &observed.max_freq_ac)
        && holds_u32(cpu.max_freq_mhz_dc, &observed.max_freq_dc) && holds_u8(
        cpu.min_performance_ac,
        &observed.min_performance_ac,
    ) && holds_u8(cpu.min_performance_dc, &observed.min_performance_dc) && holds_u8(
        cpu.max_performance_ac,
        &observed.max_performance_ac,
    ) && holds_u8(cpu.max_performance_dc, &observed.max_performance_dc) && holds_boost(
        cpu.boost_ac(),
        &observed.boost_ac,
    ) && holds_boost(cpu.boost_dc(), &observed.boost_dc);
    let gpu_matches = match profile.gpu_policy {
        Some(patch) => match observed.gpu_platform_policy.get() {
            Some(actual) => patch_bool(patch.ctgp, actual.ctgp) && patch_bool(patch.ppab, actual.ppab) && patch_u8(
                patch.dstate,
                actual.dstate,
            ) && patch_u8(patch.slowdown_temp_c, actual.slowdown_temp_c),
            None => false,
        },
        None => true,
    };
    cpu_matches && gpu_matches
}

/// A patched policy has every value the patch sets, and keeps the others.
pub proof fn applied_patch_holds(patch: GpuPolicyPatch, live: GpuPlatformPolicy)
    ensures
        patch_holds(patch, patch.spec_apply(live)),
        patch.ctgp is None ==> patch.spec_apply(live).ctgp == live.ctgp,
        patch.ppab is None ==> patch.spec_apply(live).ppab == live.ppab,
        patch.dstate is None ==> patch.spec_apply(live).dstate == live.dstate,
        patch.slowdown_temp_c is None ==> patch.spec_apply(live).slowdown_temp_c == live.slowdown_temp_c,
{
}

/// GPU state that the profile does not own never counts as drift.
pub proof fn unowned_gpu_state_is_no_drift(
    profile: PerformanceProfile,
    observed: ObservedState,
    other: ObservedState,
    actual: GpuPlatformPolicy,
    changed: GpuPlatformPolicy,
    patch: GpuPolicyPatch,
)
    requires
        profile.gpu_policy == Some(patch),
        observed.gpu_platform_policy.known() == Some(actual),
        other.gpu_platform_policy.known() == Some(changed),
        other == (ObservedState { gpu_platform_policy: other.gpu_platform_policy, ..observed }),
        patch.ctgp is Some ==> actual.ctgp == changed.ctgp,
        patch.ppab is Some ==> actual.ppab == changed.ppab,
        patch.dstate is Some ==> actual.dstate == changed.dstate,
        patch.slowdown_temp_c is Some ==> actual.slowdown_temp_c == changed.slowdown_temp_c,
    ensures
        profile_holds(profile, observed) <==> profile_holds(profile, other),
{
}

} // verus!
