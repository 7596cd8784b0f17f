//! Control commands from the command line. Arguments are refused before
//! anything starts; a refused command leaves no trace on the hardware.
use vstd::prelude::*;

use crate::control::keepalive::{after, moment_after};
use crate::control::safety::{age, elapsed};
use crate::domain::command::{ControlCommand, ControlStatus, Verification};
use crate::domain::policy::{
    BoostPolicy, CpuPolicy, CpuPowerLimits, FanLevels, FanMode, GpuPlatformPolicy, GpuPolicyPatch, ThermalMode,
};
use crate::domain::state::ObservedValue;
use crate::app::fmt::{control_error_text, control_error_zh};
use crate::format::{cat2, cat3, cat5, seconds, seconds_text};
use crate::number::{trimmed, trimmed_chars};
use crate::text::{decimal, decimal_text};

verus! {

#[derive(Clone, Copy, Debug, PartialEq, Eq, Structural)]
pub struct ControlArgs {
    pub cmd: ControlCmd,
}

/// What is asked for.
#[allow(inconsistent_fields)]
#[derive(Clone, Copy, Debug, PartialEq, Eq, Structural)]
pub enum ControlCmd {
    Status,
    Epp { ac: Option<u8>, dc: Option<u8> },
    Epp1 { ac: Option<u8>, dc: Option<u8> },
    MaxFreq { ac: Option<u32>, dc: Option<u32> },
    Boost { mode: BoostPolicy },
    Thermal { mode: ThermalMode, hold: u64 },
    Fan { mode: FanCmd },
    PowerLimits { pl1: u8, pl2: u8, pl4: Option<u8>, hold: u64 },
    GpuPolicy { patch: GpuPolicyPatch, hold: u64 },
}

/// What is asked of the fans; targets are in revolutions per minute.
#[derive(Clone, Copy, Debug, PartialEq, Eq, Structural)]
pub enum FanCmd {
    Auto,
    Max { on: bool, hold: u64 },
    Manual { cpu: u16, gpu: u16, hold: u64 },
}

/// How long a dispatched command is waited for, in milliseconds.
pub const DISPATCH_TIMEOUT: u64 = 30_000;

/// What one invocation will do.
#[derive(Debug, PartialEq)]
pub enum Plan {
    Status,
    /// Dispatches once and ends.
    Change(ControlCommand),
    /// Dispatches, keeps the heartbeat alive for so many seconds, then
    /// restores.
    HpState(ControlCommand, u64),
    /// Changes some fields of the graphics policy as read, then as before.
    GpuPolicyMerge { patch: GpuPolicyPatch, hold: u64 },
}

/// Why the arguments are refused.
#[derive(Clone, Copy, Debug, PartialEq, Eq, Structural)]
pub enum PlanError {
    NoSide,
    NoGpuField,
    MaxFreq { battery: bool, mhz: u32 },
    Pl1 { watts: u8 },
    Pl2 { watts: u8 },
    Pl2BelowPl1,
    Pl4 { watts: u8 },
    DState { dstate: u8 },
    SlowdownTemp { celsius: u8 },
    NotHundreds,
    ZeroLevel,
    /// A state that needs the heartbeat is held for no time at all.
    NoHold,
}

impl PlanError {
    pub open spec fn spec_text(self) -> Seq<char> {
        match self {
            PlanError::NoSide => "nothing to do: pass --ac and/or --dc"@,
            PlanError::NoGpuField =>
                "nothing to do: pass at least one of --ctgp/--ppab/--dstate/--slowdown-temp"@,
            PlanError::MaxFreq { battery, mhz } => (if battery { "--dc: "@ } else { "--ac: "@ }) + decimal(mhz as nat)
                + " MHz out of sane range (0 = unlimited, else 400..=6000)"@,
            PlanError::Pl1 { watts } => "--pl1: "@ + decimal(watts as nat) + "W out of 13900HX envelope 15..=130"@,
            PlanError::Pl2 { watts } => "--pl2: "@ + decimal(watts as nat) + "W out of 13900HX envelope 15..=157"@,
            PlanError::Pl2BelowPl1 => "--pl2 must be >= --pl1 (kernel-validated invariant)"@,
            PlanError::Pl4 { watts } => "--pl4: "@ + decimal(watts as nat)
                + "W outside envelope 30..=200 (factory ceiling, SDD byte5)"@,
            PlanError::DState { dstate } => "--dstate: "@ + decimal(dstate as nat)
                + " out of range 1..=4 (100/50/25/12.5%)"@,
            PlanError::SlowdownTemp { celsius } => "--slowdown-temp: "@ + decimal(celsius as nat)
                + " outside plausible band 30..=110 °C"@,
            PlanError::NotHundreds => "fan targets must be multiples of 100 RPM (0x2E wire unit)"@,
            PlanError::ZeroLevel =>
                "manual levels must be nonzero on both channels (0 = firmware-auto — use `fan auto`)"@,
            PlanError::NoHold =>
                "--hold must be greater than zero: the heartbeat keeps this state, and its restore is never skipped"@,
        }
    }

    /// The error in words.
    pub fn text(&self) -> (r: String)
        ensures
            r@ == self.spec_text(),
    {
        match *self {
            PlanError::NoSide => String::from_str("nothing to do: pass --ac and/or --dc"),
            PlanError::NoGpuField => String::from_str(
                "nothing to do: pass at least one of --ctgp/--ppab/--dstate/--slowdown-temp",
            ),
            PlanError::MaxFreq { battery, mhz } => cat3(
                if battery {
                    "--dc: "
                } else {
                    "--ac: "
                },
                decimal_text(mhz as u64).as_str(),
                " MHz out of sane range (0 = unlimited, else 400..=6000)",
            ),
            PlanError::Pl1 { watts } => cat3(
                "--pl1: ",
                decimal_text(watts as u64).as_str(),
                "W out of 13900HX envelope 15..=130",
            ),
            PlanError::Pl2 { watts } => cat3(
                "--pl2: ",
                decimal_text(watts as u64).as_str(),
                "W out of 13900HX envelope 15..=157",
            ),
            PlanError::Pl2BelowPl1 => String::from_str("--pl2 must be >= --pl1 (kernel-validated invariant)"),
            PlanError::Pl4 { watts } => cat3(
                "--pl4: ",
                decimal_text(watts as u64).as_str(),
                "W outside envelope 30..=200 (factory ceiling, SDD byte5)",
            ),
            PlanError::DState { dstate } => cat3(
                "--dstate: ",
                decimal_text(dstate as u64).as_str(),
                " out of range 1..=4 (100/50/25/12.5%)",
            ),
            PlanError::SlowdownTemp { celsius } => cat3(
                "--slowdown-temp: ",
                decimal_text(celsius as u64).as_str(),
                " outside plausible band 30..=110 °C",
            ),
            PlanError::NotHundreds => String::from_str(
                "fan targets must be multiples of 100 RPM (0x2E wire unit)",
            ),
            PlanError::ZeroLevel => String::from_str(
                "manual levels must be nonzero on both channels (0 = firmware-auto — use `fan auto`)",
            ),
            PlanError::NoHold => String::from_str(
                "--hold must be greater than zero: the heartbeat keeps this state, and its restore is never skipped",
            ),
        }
    }
}

/// A frequency that can be asked for: none at all, or a plausible one.
pub open spec fn plausible_freq(side: Option<u32>) -> bool {
    side matches Some(mhz) ==> mhz == 0 || 400 <= mhz <= 6000
}

fn freq_is_plausible(side: Option<u32>) -> (r: bool)
    ensures
        r == plausible_freq(side),
{
    match side {
        Some(mhz) => mhz == 0 || (400 <= mhz && mhz <= 6000),
        None => true,
    }
}

/// The change of processor settings that the arguments ask for.
pub open spec fn planned_cpu(cmd: ControlCmd) -> Result<CpuPolicy, PlanError> {
    match cmd {
        ControlCmd::Epp { ac, dc } => if ac is None && dc is None {
            Err(PlanError::NoSide)
        } else {
            Ok(CpuPolicy { epp_ac: ac, epp_dc: dc, ..CpuPolicy::spec_empty() })
        },
        ControlCmd::Epp1 { ac, dc } => if ac is None && dc is None {
            Err(PlanError::NoSide)
        } else {
            Ok(CpuPolicy { epp1_ac: ac, epp1_dc: dc, ..CpuPolicy::spec_empty() })
        },
        ControlCmd::MaxFreq { ac, dc } => if ac is None && dc is None {
            Err(PlanError::NoSide)
        } else if !plausible_freq(ac) {
            Err(PlanError::MaxFreq { battery: false, mhz: ac->0 })
        } else if !plausible_freq(dc) {
            Err(PlanError::MaxFreq { battery: true, mhz: dc->0 })
        } else {
            Ok(CpuPolicy { max_freq_mhz_ac: ac, max_freq_mhz_dc: dc, ..CpuPolicy::spec_empty() })
        },
        ControlCmd::Boost { mode } => Ok(CpuPolicy { boost_policy: Some(mode), ..CpuPolicy::spec_empty() }),
        _ => Ok(CpuPolicy::spec_empty()),
    }
}

/// The power limits that the arguments ask for; a peak limit that is not
/// given is left unchanged.
pub open spec fn planned_limits(pl1: u8, pl2: u8, pl4: Option<u8>) -> Result<CpuPowerLimits, PlanError> {
    if !(15 <= pl1 <= 130) {
        Err(PlanError::Pl1 { watts: pl1 })
    } else if !(15 <= pl2 <= 157) {
        Err(PlanError::Pl2 { watts: pl2 })
    } else if pl2 < pl1 {
        Err(PlanError::Pl2BelowPl1)
    } else if pl4 matches Some(p) && !(30 <= p <= 200) {
        Err(PlanError::Pl4 { watts: pl4->0 })
    } else {
        Ok(
            CpuPowerLimits {
                pl1_w: pl1,
                pl2_w: pl2,
                pl4_w: match pl4 {
                    Some(p) => p,
                    None => 0,
                },
                cpu_gpu_concurrent_w: 0,
            },
        )
    }
}

/// The change of the graphics policy that the arguments ask for.
pub open spec fn planned_patch(patch: GpuPolicyPatch) -> Result<GpuPolicyPatch, PlanError> {
    if patch.ctgp is None && patch.ppab is None && patch.dstate is None && patch.slowdown_temp_c is None {
        Err(PlanError::NoGpuField)
    } else if patch.dstate matches Some(d) && !(1 <= d <= 4) {
        Err(PlanError::DState { dstate: patch.dstate->0 })
    } else if patch.slowdown_temp_c matches Some(t) && !(30 <= t <= 110) {
        Err(PlanError::SlowdownTemp { celsius: patch.slowdown_temp_c->0 })
    } else {
        Ok(patch)
    }
}

/// How long the arguments ask to hold a state that needs the heartbeat.
pub open spec fn held_for(cmd: ControlCmd) -> Option<u64> {
    match cmd {
        ControlCmd::Thermal { hold, .. } => Some(hold),
        ControlCmd::PowerLimits { hold, .. } => Some(hold),
        ControlCmd::GpuPolicy { hold, .. } => Some(hold),
        ControlCmd::Fan { mode: FanCmd::Max { hold, .. } } => Some(hold),
        ControlCmd::Fan { mode: FanCmd::Manual { hold, .. } } => Some(hold),
        _ => None,
    }
}

fn hold_asked(cmd: &ControlCmd) -> (r: Option<u64>)
    ensures
        r == held_for(*cmd),
{
    match *cmd {
        ControlCmd::Thermal { hold, .. } => Some(hold),
        ControlCmd::PowerLimits { hold, .. } => Some(hold),
        ControlCmd::GpuPolicy { hold, .. } => Some(hold),
        ControlCmd::Fan { mode } => match mode {
            FanCmd::Auto => None,
            FanCmd::Max { hold, .. } => Some(hold),
            FanCmd::Manual { hold, .. } => Some(hold),
        },
        _ => None,
    }
}

/// What the arguments ask for, or why they are refused. A state that needs
/// the heartbeat is held for some time.
pub open spec fn planned(cmd: ControlCmd) -> Result<Plan, PlanError> {
    if held_for(cmd) == Some(0u64) {
        Err(PlanError::NoHold)
    } else {
        planned_change(cmd)
    }
}

/// What the arguments ask for, how long it is held left aside.
pub open spec fn planned_change(cmd: ControlCmd) -> Result<Plan, PlanError> {
    match cmd {
        ControlCmd::Status => Ok(Plan::Status),
        ControlCmd::Epp { .. } | ControlCmd::Epp1 { .. } | ControlCmd::MaxFreq { .. } | ControlCmd::Boost { .. } =>
            match planned_cpu(cmd) {
                Ok(policy) => Ok(Plan::Change(ControlCommand::SetCpuPolicy(policy))),
                Err(e) => Err(e),
            },
        ControlCmd::Thermal { mode, hold } => Ok(Plan::HpState(ControlCommand::SetThermalMode(mode), hold)),
        ControlCmd::PowerLimits { pl1, pl2, pl4, hold } => match planned_limits(pl1, pl2, pl4) {
            Ok(limits) => Ok(Plan::HpState(ControlCommand::SetPowerLimits(limits), hold)),
            Err(e) => Err(e),
        },
        ControlCmd::GpuPolicy { patch, hold } => match planned_patch(patch) {
            Ok(patch) => Ok(Plan::GpuPolicyMerge { patch, hold }),
            Err(e) => Err(e),
        },
        ControlCmd::Fan { mode } => match mode {
            FanCmd::Auto => Ok(Plan::Change(ControlCommand::SetFanMode(FanMode::FirmwareAuto))),
            FanCmd::Max { on, hold } => Ok(
                Plan::HpState(
                    ControlCommand::SetFanMode(if on { FanMode::Max } else { FanMode::FirmwareAuto }),
                    hold,
                ),
            ),
            FanCmd::Manual { cpu, gpu, hold } => if cpu % 100 != 0 || gpu % 100 != 0 {
                Err(PlanError::NotHundreds)
            } else if cpu == 0 || gpu == 0 {
                Err(PlanError::ZeroLevel)
            } else {
                Ok(
                    Plan::HpState(
                        ControlCommand::SetFanMode(
                            FanMode::Manual(FanLevels { left: cpu / 100, right: gpu / 100 }),
                        ),
                        hold,
                    ),
                )
            },
        },
    }
}

fn plan_cpu(cmd: &ControlCmd) -> (r: Result<CpuPolicy, PlanError>)
    ensures
        r == planned_cpu(*cmd),
{
    let mut policy = CpuPolicy::default();
    match *cmd {
        ControlCmd::Epp { ac, dc } => {
            if ac.is_none() && dc.is_none() {
                return Err(PlanError::NoSide);
            }
            policy.epp_ac = ac;
            policy.epp_dc = dc;
        },
        ControlCmd::Epp1 { ac, dc } => {
            if ac.is_none() && dc.is_none() {
                return Err(PlanError::NoSide);
            }
            policy.epp1_ac = ac;
            policy.epp1_dc = dc;
        },
        ControlCmd::MaxFreq { ac, dc } => {
            if ac.is_none() && dc.is_none() {
                return Err(PlanError::NoSide);
            }
            if let Some(mhz) = ac {
                if !freq_is_plausible(ac) {
                    return Err(PlanError::MaxFreq { battery: false, mhz });
                }
            }
            if let Some(mhz) = dc {
                if !freq_is_plausible(dc) {
                    return Err(PlanError::MaxFreq { battery: true, mhz });
                }
            }
            policy.max_freq_mhz_ac = ac;
            policy.max_freq_mhz_dc = dc;
        },
        ControlCmd::Boost { mode } => {
            policy.boost_policy = Some(mode);
        },
        _ => {},
    }
    Ok(policy)
}

fn plan_limits(pl1: u8, pl2: u8, pl4: Option<u8>) -> (r: Result<CpuPowerLimits, PlanError>)
    ensures
        r == planned_limits(pl1, pl2, pl4),
{
    if !(15 <= pl1 && pl1 <= 130) {
        return Err(PlanError::Pl1 { watts: pl1 });
    }
    if !(15 <= pl2 && pl2 <= 157) {
        return Err(PlanError::Pl2 { watts: pl2 });
    }
    if pl2 < pl1 {
        return Err(PlanError::Pl2BelowPl1);
    }
    let pl4_w: u8 = match pl4 {
        Some(p) => {
            if !(30 <= p && p <= 200) {
                return Err(PlanError::Pl4 { watts: p });
            }
            p
        },
        None => 0,
    };
    Ok(CpuPowerLimits { pl1_w: pl1, pl2_w: pl2, pl4_w, cpu_gpu_concurrent_w: 0 })
}

fn plan_patch(patch: GpuPolicyPatch) -> (r: Result<GpuPolicyPatch, PlanError>)
    ensures
        r == planned_patch(patch),
{
    if patch.ctgp.is_none() && patch.ppab.is_none() && patch.dstate.is_none() && patch.slowdown_temp_c.is_none() {
        return Err(PlanError::NoGpuField);
    }
    if let Some(d) = patch.dstate {
        if !(1 <= d && d <= 4) {
            return Err(PlanError::DState { dstate: d });
        }
    }
    if let Some(t) = patch.slowdown_temp_c {
        if !(30 <= t && t <= 110) {
            return Err(PlanError::SlowdownTemp { celsius: t });
        }
    }
    Ok(patch)
}

/// Maps the arguments to what will be done, or refuses them.
pub fn plan(args: &ControlArgs) -> (r: Result<Plan, PlanError>)
    ensures
        r == planned(args.cmd),
{
    if let Some(hold) = hold_asked(&args.cmd) {
        if hold == 0 {
            return Err(PlanError::NoHold);
        }
    }
    match args.cmd {
        ControlCmd::Status => Ok(Plan::Status),
        ControlCmd::Epp { .. } | ControlCmd::Epp1 { .. } | ControlCmd::MaxFreq { .. } | ControlCmd::Boost { .. } =>
            match plan_cpu(&args.cmd) {
                Ok(policy) => Ok(Plan::Change(ControlCommand::SetCpuPolicy(policy))),
                Err(e) => Err(e),
            },
        ControlCmd::Thermal { mode, hold } => Ok(Plan::HpState(ControlCommand::SetThermalMode(mode), hold)),
        ControlCmd::PowerLimits { pl1, pl2, pl4, hold } => match plan_limits(pl1, pl2, pl4) {
            Ok(limits) => Ok(Plan::HpState(ControlCommand::SetPowerLimits(limits), hold)),
            Err(e) => Err(e),
        },
        ControlCmd::GpuPolicy { patch, hold } => match plan_patch(patch) {
            Ok(patch) => Ok(Plan::GpuPolicyMerge { patch, hold }),
            Err(e) => Err(e),
        },
        ControlCmd::Fan { mode } => match mode {
            FanCmd::Auto => Ok(Plan::Change(ControlCommand::SetFanMode(FanMode::FirmwareAuto))),
            FanCmd::Max { on, hold } => {
                let mode = if on { FanMode::Max } else { FanMode::FirmwareAuto };
                Ok(Plan::HpState(ControlCommand::SetFanMode(mode), hold))
            },
            FanCmd::Manual { cpu, gpu, hold } => {
                if cpu % 100 != 0 || gpu % 100 != 0 {
                    return Err(PlanError::NotHundreds);
                }
                if cpu == 0 || gpu == 0 {
                    return Err(PlanError::ZeroLevel);
                }
                Ok(
                    Plan::HpState(
                        ControlCommand::SetFanMode(FanMode::Manual(FanLevels::new(cpu / 100, gpu / 100))),
                        hold,
                    ),
                )
            },
        },
    }
}

/// What is done once the engine runs.
#[derive(Debug, PartialEq)]
pub enum RunAction {
    Status,
    Change(ControlCommand),
    HpState(ControlCommand, u64),
}

/// Why a plan cannot be carried out.
#[derive(Clone, Copy, Debug, PartialEq, Eq, Structural)]
pub enum RunError {
    /// The engine has no writer.
    NoControl,
    /// The graphics policy is not known, so what is not given cannot be kept.
    NoGpuReadback,
}

impl RunError {
    pub open spec fn spec_text(self) -> Seq<char> {
        match self {
            RunError::NoControl => "control unavailable (engine is telemetry-only — see startup warnings)"@,
            RunError::NoGpuReadback =>
                "0x21 readback unavailable — cannot preserve unspecified fields (gpu_platform_policy observed is Unknown)"@,
        }
    }

    /// The error in words.
    pub fn text(&self) -> (r: String)
        ensures
            r@ == self.spec_text(),
    {
        match *self {
            RunError::NoControl => String::from_str(
                "control unavailable (engine is telemetry-only — see startup warnings)",
            ),
            RunError::NoGpuReadback => String::from_str(
                "0x21 readback unavailable — cannot preserve unspecified fields (gpu_platform_policy observed is Unknown)",
            ),
        }
    }
}

/// What is done for a plan. The status is shown with or without a writer; all
/// else needs one, and a change of the graphics policy needs to know it.
pub open spec fn run_action(plan: Plan, gpu: Option<ObservedValue<GpuPlatformPolicy>>) -> Result<RunAction, RunError> {
    match plan {
        Plan::Status => Ok(RunAction::Status),
        Plan::Change(cmd) => if gpu is Some {
            Ok(RunAction::Change(cmd))
        } else {
            Err(RunError::NoControl)
        },
        Plan::HpState(cmd, hold) => if gpu is Some {
            Ok(RunAction::HpState(cmd, hold))
        } else {
            Err(RunError::NoControl)
        },
        Plan::GpuPolicyMerge { patch, hold } => match gpu {
            None => Err(RunError::NoControl),
            Some(seen) => match seen.known() {
                None => Err(RunError::NoGpuReadback),
                Some(live) => Ok(
                    RunAction::HpState(ControlCommand::SetGpuPlatformPolicy(patch.spec_apply(live)), hold),
                ),
            },
        },
    }
}

/// Decides what is done for a plan. `gpu` is the graphics policy as the writer
/// knows it, where there is a writer.
pub fn run(plan: Plan, gpu: Option<ObservedValue<GpuPlatformPolicy>>) -> (r: Result<RunAction, RunError>)
    ensures
        r == run_action(plan, gpu),
{
    match plan {
        Plan::Status => Ok(RunAction::Status),
        Plan::Change(cmd) => if gpu.is_some() {
            Ok(RunAction::Change(cmd))
        } else {
            Err(RunError::NoControl)
        },
        Plan::HpState(cmd, hold) => if gpu.is_some() {
            Ok(RunAction::HpState(cmd, hold))
        } else {
            Err(RunError::NoControl)
        },
        Plan::GpuPolicyMerge { patch, hold } => match gpu {
            None => Err(RunError::NoControl),
            Some(seen) => match seen.get() {
                None => Err(RunError::NoGpuReadback),
                Some(live) => Ok(RunAction::HpState(ControlCommand::SetGpuPlatformPolicy(patch.apply(live)), hold)),
            },
        },
    }
}

/// What follows a change of firmware state.
#[derive(Clone, Copy, Debug, PartialEq, Eq, Structural)]
pub enum AfterChange {
    /// Keeps the heartbeat alive for so many seconds, then restores.
    Hold(u64),
    /// Restores at once.
    Restore,
}

/// Decides what follows a change: a failed one is restored at once, a
/// successful one is held and then restored.
pub fn after_change(changed: bool, hold: u64) -> (r: AfterChange)
    ensures
        r == (if changed { AfterChange::Hold(hold) } else { AfterChange::Restore }),
{
    if changed { AfterChange::Hold(hold) } else { AfterChange::Restore }
}

/// What changes a state that the heartbeat keeps is held for some time
/// whenever it is carried out: no arguments lead to a write without the hold
/// and the restore behind it.
pub proof fn heartbeat_states_are_always_held(cmd: ControlCmd, gpu: Option<ObservedValue<GpuPlatformPolicy>>)
    ensures
        held_for(cmd) == Some(0u64) <==> planned(cmd) == Err::<Plan, PlanError>(PlanError::NoHold),
        planned(cmd) matches Ok(plan) ==> match run_action(plan, gpu) {
            Ok(RunAction::HpState(change, hold)) => hold > 0 && held_for(cmd) == Some(hold),
            Ok(RunAction::Change(change)) => held_for(cmd) is None && (change is SetCpuPolicy || change
                == ControlCommand::SetFanMode(FanMode::FirmwareAuto)),
            _ => true,
        },
{
}

/// A turn of holding.
#[derive(Clone, Copy, Debug, PartialEq, Eq, Structural)]
pub enum HoldStep {
    Interrupted,
    Elapsed,
    /// Sleeps for so many milliseconds.
    Sleep(u64),
}

/// The longest sleep between two looks at the interrupt, in milliseconds.
pub const HOLD_POLL: u64 = 200;

/// When a hold of so many seconds ends.
pub fn hold_deadline(now: u64, hold: u64) -> (r: u64)
    ensures
        r == after(now, if hold > 18_446_744_073_709_551 { u64::MAX } else { (hold * 1000) as u64 }),
{
    moment_after(
        now,
        if hold > 18_446_744_073_709_551 {
            u64::MAX
        } else {
            hold * 1000
        },
    )
}

/// Decides a turn of holding; it never sleeps past the deadline.
pub fn hold_step(stop: bool, now: u64, deadline: u64) -> (r: HoldStep)
    ensures
        r == (if stop {
            HoldStep::Interrupted
        } else if now >= deadline {
            HoldStep::Elapsed
        } else {
            HoldStep::Sleep(if deadline - now < HOLD_POLL { (deadline - now) as u64 } else { HOLD_POLL })
        }),
{
    if stop {
        HoldStep::Interrupted
    } else if now >= deadline {
        HoldStep::Elapsed
    } else {
        let left: u64 = deadline - now;
        HoldStep::Sleep(if left < HOLD_POLL { left } else { HOLD_POLL })
    }
}

/// An observed value in words, given its own text.
pub open spec fn observed_text<T>(v: ObservedValue<T>, shown: Seq<char>, now: u64) -> Seq<char> {
    match v {
        ObservedValue::Verified { at, source, .. } => "VERIFIED "@ + shown + " (via "@ + source.spec_label() + ", "@
            + seconds(age(now, at) as u64) + "s ago)"@,
        ObservedValue::TrustedWrite { at, .. } => "trusted-write "@ + shown + " ("@ + seconds(age(now, at) as u64)
            + "s ago, keep-alive maintained)"@,
        ObservedValue::Unknown => "unknown"@,
    }
}

/// Formats an observed value, given its own text.
pub fn fmt_obs<T>(v: &ObservedValue<T>, shown: &str, now: u64) -> (r: String)
    ensures
        r@ == observed_text(*v, shown@, now),
{
    match v {
        ObservedValue::Verified { at, source, .. } => {
            let mut s = cat5("VERIFIED ", shown, " (via ", source.label(), ", ");
            s.append(seconds_text(elapsed(now, *at)).as_str());
            s.append("s ago)");
            s
        },
        ObservedValue::TrustedWrite { at, .. } => cat5(
            "trusted-write ",
            shown,
            " (",
            seconds_text(elapsed(now, *at)).as_str(),
            "s ago, keep-alive maintained)",
        ),
        ObservedValue::Unknown => String::from_str("unknown"),
    }
}

/// A verdict in words.
pub open spec fn verdict_text(v: Verification) -> Seq<char> {
    match v {
        Verification::Verified => "verified"@,
        Verification::TrustedNoReadback => "trusted (no readback exists)"@,
        Verification::Failed { expected, actual } => "FAILED (expected "@ + expected.spec_text() + ", actual "@
            + actual.spec_text() + ")"@,
        Verification::Skipped => "skipped"@,
    }
}

/// Formats a verdict.
pub fn fmt_verification(v: &Verification) -> (r: String)
    ensures
        r@ == verdict_text(*v),
{
    match v {
        Verification::Verified => String::from_str("verified"),
        Verification::TrustedNoReadback => String::from_str("trusted (no readback exists)"),
        Verification::Failed { expected, actual } => cat5(
            "FAILED (expected ",
            expected.text().as_str(),
            ", actual ",
            actual.text().as_str(),
            ")",
        ),
        Verification::Skipped => String::from_str("skipped"),
    }
}

/// The status line of an outcome.
pub open spec fn status_line_text(status: ControlStatus) -> Seq<char> {
    match status {
        ControlStatus::Applied { verification } => "status: APPLIED ("@ + verdict_text(verification) + ")"@,
        ControlStatus::Rejected { error } => "status: REJECTED — "@ + control_error_text(error),
        ControlStatus::Partial => "status: PARTIAL — some steps applied, see below"@,
    }
}

/// Formats the status line of an outcome.
pub fn status_line(status: &ControlStatus) -> (r: String)
    ensures
        r@ == status_line_text(*status),
{
    match status {
        ControlStatus::Applied { verification } => cat3(
            "status: APPLIED (",
            fmt_verification(verification).as_str(),
            ")",
        ),
        ControlStatus::Rejected { error } => cat2("status: REJECTED — ", control_error_zh(error).as_str()),
        ControlStatus::Partial => String::from_str("status: PARTIAL — some steps applied, see below"),
    }
}

/// The headline of an outcome.
pub fn outcome_headline(receipt: u64, duration_ms: u64) -> (r: String)
    ensures
        r@ == "--- OUTCOME (receipt "@ + decimal(receipt as nat) + ", "@ + decimal(duration_ms as nat) + " ms) ---"@,
{
    cat5(
        "--- OUTCOME (receipt ",
        decimal_text(receipt).as_str(),
        ", ",
        decimal_text(duration_ms).as_str(),
        " ms) ---",
    )
}

/// The lines that hold more than white space.
pub open spec fn written_lines(lines: Seq<String>) -> Seq<String>
    decreases lines.len(),
{
    if lines.len() == 0 {
        Seq::empty()
    } else if trimmed(lines.last()@).len() == 0 {
        written_lines(lines.drop_last())
    } else {
        written_lines(lines.drop_last()).push(lines.last())
    }
}

/// The last `n` entries of a journal, and how many come before them.
pub fn journal_tail(lines: &Vec<String>, n: usize) -> (r: (usize, Vec<String>))
    ensures
        ({
            let all = written_lines(lines@);
            let start = if all.len() > n { all.len() - n } else { 0 };
            &&& r.0 == start
            &&& r.1@ == all.skip(start)
        }),
{
    let mut all: Vec<String> = Vec::new();
    let mut i: usize = 0;
    assert(all@ =~= written_lines(lines@.take(0)));
    while i < lines.len()
        invariant
            i <= lines@.len(),
            all@ == written_lines(lines@.take(i as int)),
        decreases lines@.len() - i,
    {
        assert(lines@.take(i + 1).drop_last() =~= lines@.take(i as int));
        assert(lines@.take(i + 1).last() == lines@[i as int]);
        if trimmed_chars(lines[i].as_str()).len() > 0 {
            all.push(lines[i].clone());
        }
        i = i + 1;
    }
    assert(lines@.take(i as int) =~= lines@);
    let start: usize = if all.len() > n { all.len() - n } else { 0 };
    let ghost before = all@;
    let kept = all.split_off(start);
    assert(kept@ =~= before.skip(start as int));
    (start, kept)
}

/// Arguments that are accepted respect the envelope that the writer checks
/// again: nothing implausible is ever dispatched.
pub proof fn accepted_limits_are_inside_the_envelope(pl1: u8, pl2: u8, pl4: Option<u8>)
    requires
        planned_limits(pl1, pl2, pl4) is Ok,
    ensures
        ({
            let l = planned_limits(pl1, pl2, pl4)->Ok_0;
            &&& 15 <= l.pl1_w <= l.pl2_w <= 157
            &&& l.pl1_w <= 130
            &&& l.pl4_w == 0 || 30 <= l.pl4_w <= 200
            &&& l.cpu_gpu_concurrent_w == 0
        }),
{
}

/// A merge changes the fields that are given and keeps the others as read.
pub proof fn merge_keeps_what_is_not_given(patch: GpuPolicyPatch, live: GpuPlatformPolicy, at: u64, hold: u64)
    ensures
        ({
            let seen = ObservedValue::TrustedWrite { value: live, at };
            let merged = run_action(Plan::GpuPolicyMerge { patch, hold }, Some(seen));
            &&& merged == Ok::<RunAction, RunError>(
                RunAction::HpState(ControlCommand::SetGpuPlatformPolicy(patch.spec_apply(live)), hold),
            )
            &&& patch.ctgp is None ==> patch.spec_apply(live).ctgp == live.ctgp
            &&& patch.ppab is None ==> patch.spec_apply(live).ppab == live.ppab
            &&& patch.dstate is None ==> patch.spec_apply(live).dstate == live.dstate
            &&& patch.slowdown_temp_c is None ==> patch.spec_apply(live).slowdown_temp_c == live.slowdown_temp_c
        }),
{
}

} // verus!
