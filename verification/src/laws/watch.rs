//! The runtime safety net.
use vstd::prelude::*;

use crate::control::safety::{age, SafetyAction, SafetySupervisor, ThermalFeed};
use crate::domain::policy::FanMode;
use crate::domain::state::{ObservedState, ObservedValue};

verus! {

/// A value is known if it was read back or written on trust, and then it is
/// the one that was read or written.
pub proof fn known_values<T>(v: ObservedValue<T>, value: T)
    ensures
        v.known() == Some(value) <==> (v matches ObservedValue::Verified { value: x, .. } && x == value) || (
        v matches ObservedValue::TrustedWrite { value: x, .. } && x == value),
        v.known() is None <==> v is Unknown,
{
}

/// Time that has passed, added to the moment, is now; a moment to come is no
/// time ago.
pub proof fn time_passes(now: u64, at: u64)
    ensures
        at <= now ==> at + age(now, at) == now,
        now < at ==> age(now, at) == 0,
{
}

/// Samples of the package temperature and of the fans both arrived within the
/// last ninety seconds.
pub open spec fn sees(feed: ThermalFeed, now: u64) -> bool {
    &&& feed.pkg_temp matches Some(s) && now - s.at <= 90_000
    &&& feed.fan_levels matches Some(s) && now - s.at <= 90_000
}

/// The fans run at levels of the user, at a curve or at max.
pub open spec fn fans_are_the_users(observed: ObservedState) -> bool {
    ||| observed.fan_mode.known() matches Some(FanMode::Manual(_))
    ||| observed.fan_mode.known() matches Some(FanMode::Curve(_))
    ||| observed.max_fan.known() == Some(true)
}

/// The whole safety net. A controller that holds the fans and does not see
/// hands back. One that sees and overrides releases at 85 degrees and no
/// earlier, to what it replaced. One that does not override starts at 90
/// degrees, at manual levels or max fan only, and remembers the mode. In every
/// other case nothing happens and nothing is remembered.
pub proof fn the_safety_net(s: SafetySupervisor, feed: ThermalFeed, observed: ObservedState, now: u64)
    ensures
        ({
            let (action, saved) = s.verdict(feed, observed, now);
            let holds = fans_are_the_users(observed) || s.override_saved is Some;
            let temp = feed.pkg_temp->Some_0.value;
            let fresh = feed.pkg_temp matches Some(t) && now - t.at <= 90_000;
            let fixed = observed.fan_mode.known() matches Some(FanMode::Manual(_)) || observed.max_fan.known() == Some(
                true,
            );
            &&& action == Some(SafetyAction::WatchdogRestoreAuto) <==> holds && !sees(feed, now)
            &&& action == Some(SafetyAction::ForceMaxFan) <==> sees(feed, now) && s.override_saved is None && fixed
                && temp >= 90_000
            &&& action is Some && action->Some_0 is ReleaseTo <==> sees(feed, now) && s.override_saved is Some && temp
                <= 85_000
            &&& action matches Some(SafetyAction::ReleaseTo(mode)) ==> s.override_saved == Some(mode)
            &&& action is Some && action->Some_0 is ForceMaxFan ==> saved == Some(
                match observed.fan_mode.known() {
                    Some(mode) => mode,
                    None => FanMode::FirmwareAuto,
                },
            )
            &&& action is Some && !(action->Some_0 is ForceMaxFan) ==> saved is None
            &&& action is None ==> saved == s.override_saved
        }),
{
}

/// A mode that the user sets is what an override will release to; firmware
/// control ends the override, and without one nothing is remembered.
pub proof fn user_modes_are_remembered(s: SafetySupervisor, mode: FanMode)
    ensures
        s.override_saved is None ==> s.spec_noted(mode) == s,
        s.spec_noted(FanMode::FirmwareAuto).override_saved is None,
        s.override_saved is Some && mode != FanMode::FirmwareAuto ==> s.spec_noted(mode).override_saved == Some(mode),
        s.spec_noted(mode).experimental_power_limits == s.experimental_power_limits,
{
}

} // verus!
