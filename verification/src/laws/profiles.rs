//! Profiles and the commands that they stand for.
use vstd::prelude::*;

use crate::control::coordinator::profile_commands;
use crate::domain::command::ControlCommand;
use crate::domain::policy::CpuPolicy;
use crate::domain::profile::PerformanceProfile;

verus! {

/// Some setting of the processor policy is given.
pub open spec fn asks_something(p: CpuPolicy) -> bool {
    ||| p.epp_ac is Some
    ||| p.epp_dc is Some
    ||| p.epp1_ac is Some
    ||| p.epp1_dc is Some
    ||| p.max_freq_mhz_ac is Some
    ||| p.max_freq_mhz_dc is Some
    ||| p.min_performance_ac is Some
    ||| p.min_performance_dc is Some
    ||| p.max_performance_ac is Some
    ||| p.max_performance_dc is Some
    ||| p.boost_policy is Some
    ||| p.boost_policy_ac is Some
    ||| p.boost_policy_dc is Some
    ||| p.power_limits is Some
}

/// The profile asks for the command: for its kind, with its very argument.
pub open spec fn asked_for(p: PerformanceProfile, cmd: ControlCommand) -> bool {
    match cmd {
        ControlCommand::SetCpuPolicy(x) => x == p.cpu && asks_something(x),
        ControlCommand::SetPowerLimits(l) => p.power_limits == Some(l),
        ControlCommand::SetGpuPlatformPolicyPatch(q) => p.gpu_policy == Some(q),
        ControlCommand::SetThermalMode(m) => p.thermal_mode == Some(m),
        ControlCommand::SetFanMode(f) => p.fan == Some(f),
        _ => false,
    }
}

/// How late a kind of command comes: the fans last.
pub open spec fn turn_of(cmd: ControlCommand) -> int {
    match cmd {
        ControlCommand::SetCpuPolicy(_) => 0,
        ControlCommand::SetPowerLimits(_) => 1,
        ControlCommand::SetGpuPlatformPolicyPatch(_) => 2,
        ControlCommand::SetThermalMode(_) => 3,
        _ => 4,
    }
}

/// The commands of a profile are those that it asks for, each with the value
/// that the profile sets and each once, in the order processor, power limits,
/// graphics, thermal mode, fans.
pub proof fn profile_commands_carry_its_values(p: PerformanceProfile)
    ensures
        forall|cmd: ControlCommand| profile_commands(p).contains(cmd) <==> #[trigger] asked_for(p, cmd),
        forall|i: int, j: int|
            0 <= i < j < profile_commands(p).len() ==> turn_of(#[trigger] profile_commands(p)[i]) < turn_of(
                #[trigger] profile_commands(p)[j],
            ),
{
    let c = profile_commands(p);
    let n0: int = if asks_something(p.cpu) { 1 } else { 0 };
    let n1: int = n0 + (if p.power_limits is Some { 1int } else { 0 });
    let n2: int = n1 + (if p.gpu_policy is Some { 1int } else { 0 });
    let n3: int = n2 + (if p.thermal_mode is Some { 1int } else { 0 });
    assert(asks_something(p.cpu) <==> p.cpu != CpuPolicy::spec_empty());
    assert(asks_something(p.cpu) ==> c[0] == ControlCommand::SetCpuPolicy(p.cpu));
    assert(p.power_limits matches Some(l) ==> c[n0] == ControlCommand::SetPowerLimits(l));
    assert(p.gpu_policy matches Some(q) ==> c[n1] == ControlCommand::SetGpuPlatformPolicyPatch(q));
    assert(p.thermal_mode matches Some(m) ==> c[n2] == ControlCommand::SetThermalMode(m));
    assert(p.fan matches Some(f) ==> c[n3] == ControlCommand::SetFanMode(f));
    assert forall|cmd: ControlCommand| c.contains(cmd) implies asked_for(p, cmd) by {
        let i = choose|i: int| 0 <= i < c.len() && c[i] == cmd;
        assert(c[i] == cmd);
    }
}

/// A profile whose fans are set ends with exactly that fan mode.
pub proof fn fans_follow_the_profile(p: PerformanceProfile)
    ensures
        p.fan matches Some(f) ==> profile_commands(p).len() > 0 && profile_commands(p).last()
            == ControlCommand::SetFanMode(f),
        p.fan is None ==> forall|f| !profile_commands(p).contains(ControlCommand::SetFanMode(f)),
{
    profile_commands_carry_its_values(p);
    if let Some(f) = p.fan {
        let c = profile_commands(p);
        assert(c.contains(ControlCommand::SetFanMode(f)));
        let i = choose|i: int| 0 <= i < c.len() && c[i] == ControlCommand::SetFanMode(f);
        if i < c.len() - 1 {
            assert(turn_of(c[i]) < turn_of(c[c.len() - 1]));
        }
    }
}

/// Two profiles that ask for different things never become the same plan: what
/// a profile sets can be read off its commands.
pub proof fn commands_tell_profiles_apart(p: PerformanceProfile, q: PerformanceProfile)
    requires
        profile_commands(p) == profile_commands(q),
    ensures
        p.cpu == q.cpu,
        p.power_limits == q.power_limits,
        p.gpu_policy == q.gpu_policy,
        p.thermal_mode == q.thermal_mode,
        p.fan == q.fan,
{
    profile_commands_carry_its_values(p);
    profile_commands_carry_its_values(q);
    let c = profile_commands(p);
    assert(asked_for(p, ControlCommand::SetCpuPolicy(p.cpu)) ==> asked_for(q, ControlCommand::SetCpuPolicy(p.cpu))) by {
        assert(c.contains(ControlCommand::SetCpuPolicy(p.cpu)) <==> asked_for(p, ControlCommand::SetCpuPolicy(p.cpu)));
    }
    assert(asked_for(q, ControlCommand::SetCpuPolicy(q.cpu)) ==> asked_for(p, ControlCommand::SetCpuPolicy(q.cpu))) by {
        assert(c.contains(ControlCommand::SetCpuPolicy(q.cpu)) <==> asked_for(p, ControlCommand::SetCpuPolicy(q.cpu)));
    }
    if let Some(x) = p.power_limits {
        let cmd = ControlCommand::SetPowerLimits(x);
        assert(asked_for(p, cmd));
        assert(asked_for(q, cmd));
    }
    if let Some(x) = q.power_limits {
        let cmd = ControlCommand::SetPowerLimits(x);
        assert(asked_for(q, cmd));
        assert(asked_for(p, cmd));
    }
    if let Some(x) = p.gpu_policy {
        let cmd = ControlCommand::SetGpuPlatformPolicyPatch(x);
        assert(asked_for(p, cmd));
        assert(asked_for(q, cmd));
    }
    if let Some(x) = q.gpu_policy {
        let cmd = ControlCommand::SetGpuPlatformPolicyPatch(x);
        assert(asked_for(q, cmd));
        assert(asked_for(p, cmd));
    }
    if let Some(x) = p.thermal_mode {
        let cmd = ControlCommand::SetThermalMode(x);
        assert(asked_for(p, cmd));
        assert(asked_for(q, cmd));
    }
    if let Some(x) = q.thermal_mode {
        let cmd = ControlCommand::SetThermalMode(x);
        assert(asked_for(q, cmd));
        assert(asked_for(p, cmd));
    }
    if let Some(x) = p.fan {
        let cmd = ControlCommand::SetFanMode(x);
        assert(asked_for(p, cmd));
        assert(asked_for(q, cmd));
    }
    if let Some(x) = q.fan {
        let cmd = ControlCommand::SetFanMode(x);
        assert(asked_for(q, cmd));
        assert(asked_for(p, cmd));
    }
}

} // verus!
