//! The single writer: its state, and the rules that relate the state to
//! what it owes and what it keeps alive.
use vstd::prelude::*;

use super::drift;
use super::fan_curve::FanCurveController;
use super::keepalive::{item_if, tracked_writes, KeepAliveService, ReAssert, PERIOD};
use super::mux::MuxLifecycle;
use super::recovery::{RecoveryRecord, ScopedSession};
use super::safety::SafetySupervisor;
use super::stamp::{self, with_gpu, with_rails, PpmReads};
use super::verification::PendingVerification;
use crate::domain::capability::CapabilitySet;
use crate::domain::command::ControlCommand;
use crate::domain::error::{ControlError, ProfileName, UnsafeReason};
use crate::domain::policy::{
    CpuPolicy, CpuPowerLimits, FanCurve, FanMode, GpuPlatformPolicy, PpmRail, WindowsPpmState,
};
use crate::domain::profile::{PerformanceProfile, ProfileRegistry};
use crate::domain::state::{ControlNotice, DesiredState, ObservedState};

verus! {

/// Requests that may wait behind an active plan.
pub const QUEUE_DEPTH: usize = 32;

/// How long to sleep while nothing is tracked and no fan is user-held, in
/// milliseconds.
pub const IDLE_WAIT: u64 = 3_600_000;

/// Cadence of the safety net while the user holds the fans, in milliseconds.
pub const SAFETY_TICK: u64 = 1_000;

/// Readback polls after a write.
pub const FAN_VERIFY_POLLS: u32 = 8;

/// Milliseconds between readback polls.
pub const VERIFY_POLL_INTERVAL: u64 = 1_000;

/// The state of the single writer.
#[derive(Debug, PartialEq)]
pub struct ControlCoordinator {
    pub caps: CapabilitySet,
    /// Whether the firmware interface is there; without it only processor
    /// settings can be written.
    pub hp_present: bool,
    pub safety: SafetySupervisor,
    pub fan_curve: FanCurveController,
    pub keepalive: KeepAliveService,
    pub profiles: ProfileRegistry,
    pub verify_polls: u32,
    pub verify_poll_interval: u64,
    pub safety_tick: u64,
    /// A readback that the last write asked for.
    pub verification_requested: Option<PendingVerification>,
    /// Counts hand-backs to firmware; a plan of an earlier count is void.
    pub control_epoch: u64,
    pub board: String,
    pub bios: String,
    /// The unfinished ledger of an earlier session.
    pub previous_recovery: Option<RecoveryRecord>,
    pub scoped_session: Option<ScopedSession>,
    pub mux_lifecycle: MuxLifecycle,
    pub desired: DesiredState,
    pub observed: ObservedState,
    pub windows_ppm: Option<WindowsPpmState>,
    /// The GPU policy to restore.
    pub gpu_policy_startup: Option<GpuPlatformPolicy>,
    pub gpu_policy_dirty: bool,
    /// The power limits to restore, captured before the first write; a peak
    /// limit of 0 was never measured and is never written back.
    pub power_limits_baseline: Option<CpuPowerLimits>,
    pub power_limits_dirty: bool,
    /// This session changed fan control.
    pub fan_control_dirty: bool,
    /// This session changed the thermal mode.
    pub thermal_mode_dirty: bool,
    /// The last curve that was applied, for editing.
    pub last_saved_fan_curve: Option<FanCurve>,
}

/// What a new coordinator starts from.
#[derive(Debug, PartialEq)]
pub struct ControlConfig {
    pub caps: CapabilitySet,
    pub hp_present: bool,
    pub experimental_power_limits: bool,
    pub board: String,
    pub bios: String,
    pub profiles: ProfileRegistry,
    pub verify_polls: u32,
    pub verify_poll_interval: u64,
    pub keepalive_period: u64,
    pub safety_tick: u64,
}

impl ControlConfig {
    /// A configuration with the default timings and no profiles.
    pub fn new(caps: CapabilitySet, hp_present: bool, board: String, bios: String) -> (r: ControlConfig)
        ensures
            r.caps == caps,
            r.hp_present == hp_present,
            !r.experimental_power_limits,
            r.board == board,
            r.bios == bios,
            r.profiles.entries@.len() == 0,
            r.verify_polls == FAN_VERIFY_POLLS,
            r.verify_poll_interval == VERIFY_POLL_INTERVAL,
            r.keepalive_period == PERIOD,
            r.safety_tick == SAFETY_TICK,
    {
        ControlConfig {
            caps,
            hp_present,
            experimental_power_limits: false,
            board,
            bios,
            profiles: ProfileRegistry::empty(),
            verify_polls: FAN_VERIFY_POLLS,
            verify_poll_interval: VERIFY_POLL_INTERVAL,
            keepalive_period: PERIOD,
            safety_tick: SAFETY_TICK,
        }
    }
}

/// The user holds the fans, or an override holds them.
pub open spec fn fans_held(c: ControlCoordinator) -> bool {
    ||| c.observed.fan_mode.known() matches Some(FanMode::Manual(_))
    ||| c.observed.fan_mode.known() matches Some(FanMode::Curve(_))
    ||| c.observed.max_fan.known() == Some(true)
    ||| c.safety.override_saved is Some
}

/// The commands a profile stands for, in order: processor policy, power
/// limits, GPU policy, thermal mode, and the fans last, because holding the
/// fans suspends the firmware's own thermal control.
pub open spec fn profile_commands(p: PerformanceProfile) -> Seq<ControlCommand> {
    with_fan(hardware_commands(p), p.fan)
}

/// The commands of a profile before its fan command.
pub open spec fn hardware_commands(p: PerformanceProfile) -> Seq<ControlCommand> {
    let cpu = if p.cpu != CpuPolicy::spec_empty() {
        seq![ControlCommand::SetCpuPolicy(p.cpu)]
    } else {
        Seq::empty()
    };
    let power = match p.power_limits {
        Some(l) => cpu.push(ControlCommand::SetPowerLimits(l)),
        None => cpu,
    };
    let gpu = match p.gpu_policy {
        Some(patch) => power.push(ControlCommand::SetGpuPlatformPolicyPatch(patch)),
        None => power,
    };
    match p.thermal_mode {
        Some(m) => gpu.push(ControlCommand::SetThermalMode(m)),
        None => gpu,
    }
}

/// The fan command comes after all others.
pub open spec fn with_fan(commands: Seq<ControlCommand>, fan: Option<FanMode>) -> Seq<ControlCommand> {
    match fan {
        Some(f) => commands.push(ControlCommand::SetFanMode(f)),
        None => commands,
    }
}

/// Expands a profile into its commands; one without any is refused.
pub fn expand_definition(p: &PerformanceProfile, name: &ProfileName) -> (r: Result<Vec<ControlCommand>, ControlError>)
    ensures
        r is Ok <==> profile_commands(*p).len() > 0,
        r matches Ok(plan) ==> plan@ == profile_commands(*p),
        r matches Err(e) ==> e == (ControlError::UnsafeRequest { reason: UnsafeReason::EmptyProfile { name: *name } }),
{
    let mut plan: Vec<ControlCommand> = Vec::new();
    if p.cpu != CpuPolicy::default() {
        plan.push(ControlCommand::SetCpuPolicy(p.cpu));
    }
    if let Some(l) = p.power_limits {
        plan.push(ControlCommand::SetPowerLimits(l));
    }
    if let Some(patch) = p.gpu_policy {
        plan.push(ControlCommand::SetGpuPlatformPolicyPatch(patch));
    }
    if let Some(m) = p.thermal_mode {
        plan.push(ControlCommand::SetThermalMode(m));
    }
    if let Some(f) = p.fan {
        plan.push(ControlCommand::SetFanMode(f));
    }
    assert(plan@ =~= profile_commands(*p));
    if plan.len() == 0 {
        return Err(ControlError::UnsafeRequest { reason: UnsafeReason::EmptyProfile { name: name.clone() } });
    }
    Ok(plan)
}

/// A command that a plan can execute, other than a fan command.
pub open spec fn hardware_command(cmd: ControlCommand) -> bool {
    cmd is SetCpuPolicy || cmd is SetPowerLimits || cmd is SetGpuPlatformPolicyPatch || cmd is SetThermalMode
}

/// In the commands of a profile a fan command only ever comes last; the
/// others are settings, never profiles.
pub proof fn fan_comes_last(p: PerformanceProfile, i: int)
    requires
        0 <= i < profile_commands(p).len(),
    ensures
        profile_commands(p)[i] is SetFanMode ==> i == profile_commands(p).len() - 1,
        !(profile_commands(p)[i] is SetFanMode) ==> hardware_command(profile_commands(p)[i]),
{
    let front = hardware_commands(p);
    assert(forall|k: int| 0 <= k < front.len() ==> hardware_command(#[trigger] front[k]));
    if i < front.len() {
        assert(profile_commands(p)[i] == front[i]);
        assert(hardware_command(front[i]));
    }
}

/// A profile has commands exactly if it asks for something.
pub proof fn empty_profiles_have_no_commands(p: PerformanceProfile)
    ensures
        profile_commands(p).len() == 0 <==> p.spec_empty(),
{
}

impl ControlCoordinator {
    /// What this session owes the machine.
    pub open spec fn spec_record(self) -> RecoveryRecord {
        RecoveryRecord {
            board: self.board,
            bios: self.bios,
            fan: self.fan_control_dirty,
            thermal: self.thermal_mode_dirty,
            gpu: if self.gpu_policy_dirty { self.gpu_policy_startup } else { None },
            power: if self.power_limits_dirty { self.power_limits_baseline } else { None },
            scoped: self.scoped_session,
        }
    }

    /// The ledger to save: an unfinished earlier session's is never
    /// overwritten.
    pub open spec fn spec_ledger(self) -> RecoveryRecord {
        match self.previous_recovery {
            Some(record) => record,
            None => self.spec_record(),
        }
    }

    /// What this session owes the machine.
    pub fn recovery_record(&self) -> (r: RecoveryRecord)
        ensures
            r == self.spec_record(),
    {
        RecoveryRecord {
            board: self.board.clone(),
            bios: self.bios.clone(),
            fan: self.fan_control_dirty,
            thermal: self.thermal_mode_dirty,
            gpu: if self.gpu_policy_dirty { self.gpu_policy_startup } else { None },
            power: if self.power_limits_dirty { self.power_limits_baseline } else { None },
            scoped: match &self.scoped_session {
                Some(s) => Some(s.clone()),
                None => None,
            },
        }
    }

    /// The ledger to save.
    pub fn ledger(&self) -> (r: RecoveryRecord)
        ensures
            r == self.spec_ledger(),
    {
        match &self.previous_recovery {
            Some(record) => record.clone(),
            None => self.recovery_record(),
        }
    }

    /// Everything the heartbeat keeps alive.
    pub open spec fn spec_tracked(self) -> Seq<ReAssert> {
        tracked_writes(self.observed) + item_if(
            self.power_limits_dirty && self.observed.power_limits is Verified,
            ReAssert::PowerLimits,
        )
    }

    /// Everything the heartbeat keeps alive.
    pub fn tracked_set(&self) -> (r: Vec<ReAssert>)
        ensures
            r@ == self.spec_tracked(),
    {
        let mut t = KeepAliveService::tracked_set(&self.observed);
        if self.power_limits_dirty && self.observed.power_limits.is_verified() {
            t.push(ReAssert::PowerLimits);
        }
        assert(t@ =~= self.spec_tracked());
        t
    }

    /// The state with the heartbeat rescheduled for what is kept alive.
    pub open spec fn spec_rescheduled(self, now: u64) -> ControlCoordinator {
        ControlCoordinator {
            keepalive: self.keepalive.spec_rescheduled(self.spec_tracked(), now),
            ..self
        }
    }

    /// Reschedules the heartbeat for what is kept alive.
    pub fn reschedule(&mut self, now: u64)
        ensures
            *final(self) == old(self).spec_rescheduled(now),
    {
        let items = self.tracked_set();
        self.keepalive.reschedule_tracked(items.as_slice(), now);
    }

    /// How long the writer may sleep: until the next heartbeat, or the idle
    /// wait where none is scheduled, and no longer than the safety cadence
    /// while the fans are held.
    pub open spec fn spec_wait(self, now: u64) -> u64 {
        let heartbeat = match self.keepalive.next_due {
            Some(due) => if due >= now { (due - now) as u64 } else { 0 },
            None => IDLE_WAIT,
        };
        if fans_held(self) && self.safety_tick < heartbeat { self.safety_tick } else { heartbeat }
    }

    /// How long the writer may sleep.
    pub fn compute_wait(&self, now: u64) -> (r: u64)
        ensures
            r == self.spec_wait(now),
    {
        let by_mode = match self.observed.fan_mode.get() {
            Some(FanMode::Manual(_)) => true,
            Some(FanMode::Curve(_)) => true,
            _ => false,
        };
        let held = by_mode || self.observed.max_fan.get() == Some(true) || self.safety.override_active();
        let wait: u64 = self.keepalive.until_due(now, IDLE_WAIT);
        if held && self.safety_tick < wait { self.safety_tick } else { wait }
    }

    /// The state after a read-only re-probe. Every source fails on its own:
    /// what could not be read keeps its old stamp.
    pub open spec fn spec_refreshed(
        self,
        windows_ppm: Option<WindowsPpmState>,
        reads: PpmReads,
        gpu: Option<GpuPlatformPolicy>,
        now: u64,
    ) -> ControlCoordinator {
        ControlCoordinator {
            observed: with_gpu(
                match windows_ppm {
                    Some(state) => with_rails(self.observed, state.ac, state.dc, now),
                    None => with_rails(
                        self.observed,
                        PpmRail {
                            max_freq_mhz: None,
                            boost_policy: None,
                            min_performance: None,
                            max_performance: None,
                            ..reads.ac_rail()
                        },
                        PpmRail {
                            max_freq_mhz: None,
                            boost_policy: None,
                            min_performance: None,
                            max_performance: None,
                            ..reads.dc_rail()
                        },
                        now,
                    ),
                },
                if self.hp_present { gpu } else { None },
                now,
            ),
            windows_ppm: if windows_ppm is Some { windows_ppm } else { self.windows_ppm },
            ..self
        }
    }

    /// Re-stamps what was re-read: the Windows state if there is one, else
    /// the two energy preferences, and the GPU policy.
    pub fn refresh_observed(
        &mut self,
        windows_ppm: Option<WindowsPpmState>,
        reads: &PpmReads,
        gpu: Option<GpuPlatformPolicy>,
        now: u64,
    )
        ensures
            *final(self) == old(self).spec_refreshed(windows_ppm, *reads, gpu, now),
    {
        match windows_ppm {
            Some(state) => {
                stamp::stamp_windows_ppm(&mut self.observed, &state, now);
                self.windows_ppm = Some(state);
            },
            None => {
                let (ac, dc) = reads.rails();
                let state = WindowsPpmState {
                    ac: PpmRail {
                        max_freq_mhz: None,
                        boost_policy: None,
                        min_performance: None,
                        max_performance: None,
                        ..ac
                    },
                    dc: PpmRail {
                        max_freq_mhz: None,
                        boost_policy: None,
                        min_performance: None,
                        max_performance: None,
                        ..dc
                    },
                    active_scheme_guid: String::new(),
                };
                stamp::stamp_windows_ppm(&mut self.observed, &state, now);
            },
        }
        if self.hp_present {
            stamp::stamp_gpu(&mut self.observed, gpu, now);
        }
    }

    /// The active profile is known and the machine no longer has its values.
    pub open spec fn spec_drifted(self) -> bool {
        self.observed.active_profile matches Some(name) && (self.profiles.lookup(name@) matches Some(profile)
            && !drift::profile_holds(profile, self.observed))
    }

    /// Drops the active profile if the machine has drifted away from it. What
    /// the user asked for stays.
    pub fn reconcile_profile(&mut self)
        ensures
            *final(self) == (if old(self).spec_drifted() {
                ControlCoordinator {
                    observed: ObservedState {
                        active_profile: None,
                        control_notice: Some(ControlNotice::ProfileDrifted),
                        ..old(self).observed
                    },
                    ..*old(self)
                }
            } else {
                *old(self)
            }),
    {
        let drifted = match &self.observed.active_profile {
            Some(name) => match self.profiles.get(name.as_str()) {
                Some(profile) => !drift::matches(profile, &self.observed),
                None => false,
            },
            None => false,
        };
        if drifted {
            self.observed.active_profile = None;
            self.observed.control_notice = Some(ControlNotice::ProfileDrifted);
        }
    }

    /// The profile name no longer describes the machine.
    pub open spec fn spec_unstamped(self) -> ControlCoordinator {
        ControlCoordinator {
            desired: DesiredState { profile: None, ..self.desired },
            observed: ObservedState { active_profile: None, ..self.observed },
            ..self
        }
    }

    /// Clears only the profile name: a write happened, so whatever a named
    /// profile set up no longer describes the machine.
    pub fn clear_profile_stamp(&mut self)
        ensures
            *final(self) == old(self).spec_unstamped(),
    {
        self.desired.profile = None;
        self.observed.active_profile = None;
    }

    /// The intent that an applied command leaves behind. The merged value of
    /// a GPU patch is recorded where it is computed.
    pub open spec fn spec_intent(d: DesiredState, cmd: ControlCommand) -> DesiredState {
        match cmd {
            ControlCommand::SetThermalMode(m) => DesiredState { thermal_mode: Some(m), ..d },
            ControlCommand::SetFanMode(m) => DesiredState { fan_mode: Some(m), ..d },
            ControlCommand::SetCpuPolicy(p) => DesiredState { cpu_policy: Some(p), ..d },
            ControlCommand::SetGpuPlatformPolicy(p) => DesiredState { gpu_platform_policy: Some(p), ..d },
            ControlCommand::SetPowerLimits(l) => DesiredState { power_limits: Some(l), ..d },
            _ => d,
        }
    }

    /// The state once an applied command has been recorded: its intent, and
    /// no profile name, unless the command is itself the profile.
    pub open spec fn spec_recorded(self, cmd: ControlCommand) -> ControlCoordinator {
        let c = ControlCoordinator { desired: ControlCoordinator::spec_intent(self.desired, cmd), ..self };
        if cmd is ApplyProfile { c } else { c.spec_unstamped() }
    }

    /// Records the intent of an applied command.
    pub fn record_desired(&mut self, cmd: &ControlCommand)
        ensures
            *final(self) == old(self).spec_recorded(*cmd),
    {
        match cmd {
            ControlCommand::SetThermalMode(m) => self.desired.thermal_mode = Some(*m),
            ControlCommand::SetFanMode(m) => self.desired.fan_mode = Some(*m),
            ControlCommand::SetCpuPolicy(p) => self.desired.cpu_policy = Some(*p),
            ControlCommand::SetGpuPlatformPolicy(p) => self.desired.gpu_platform_policy = Some(*p),
            ControlCommand::SetPowerLimits(l) => self.desired.power_limits = Some(*l),
            _ => {},
        }
        if !matches!(cmd, ControlCommand::ApplyProfile { .. }) {
            self.clear_profile_stamp();
        }
    }

    /// Replaces the profiles.
    pub fn replace_profiles(&mut self, profiles: ProfileRegistry)
        ensures
            *final(self) == (ControlCoordinator { profiles, ..*old(self) }),
    {
        self.profiles = profiles;
    }
}

/// An unfinished ledger of an earlier session is what gets saved, whatever
/// this session has done.
pub proof fn earlier_ledger_is_never_overwritten(c: ControlCoordinator, record: RecoveryRecord)
    requires
        c.previous_recovery == Some(record),
    ensures
        c.spec_ledger() == record,
{
}

} // verus!
