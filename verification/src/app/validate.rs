//! Checks before a profile is handed to the writer.
use vstd::prelude::*;

use crate::domain::capability::{CapabilitySet, Support};
use crate::domain::error::UnsafeReason;
use crate::domain::profile::PerformanceProfile;

verus! {

/// The profile sets power limits.
pub open spec fn carries_power_limits(profile: PerformanceProfile) -> bool {
    profile.power_limits is Some || profile.cpu.power_limits is Some
}

/// The reason why a profile may not be applied, if any. Power limits need a
/// build that can write them and a board on which they are experimental.
pub open spec fn gate_refusal(profile: PerformanceProfile, built: bool, caps: Option<CapabilitySet>) -> Option<
    UnsafeReason,
> {
    if !carries_power_limits(profile) {
        None
    } else if !built {
        Some(UnsafeReason::ExperimentalNotBuilt)
    } else if caps matches Some(c) && c.power_limits is Experimental {
        None
    } else {
        Some(UnsafeReason::PowerLimitsNotExperimental)
    }
}

/// Decides whether a profile may be handed to the writer.
pub fn profile_apply_gate(profile: &PerformanceProfile, built: bool, caps: &Option<CapabilitySet>) -> (r: Result<
    (),
    UnsafeReason,
>)
    ensures
        match gate_refusal(*profile, built, *caps) {
            None => r is Ok,
            Some(reason) => r == Err::<(), UnsafeReason>(reason),
        },
{
    if !(profile.power_limits.is_some() || profile.cpu.power_limits.is_some()) {
        return Ok(());
    }
    if !built {
        return Err(UnsafeReason::ExperimentalNotBuilt);
    }
    match caps {
        Some(c) if matches!(c.power_limits, Support::Experimental) => Ok(()),
        _ => Err(UnsafeReason::PowerLimitsNotExperimental),
    }
}

} // verus!
