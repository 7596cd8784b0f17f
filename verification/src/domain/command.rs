//! Control commands, their step-by-step evidence and their outcome.
use vstd::prelude::*;

use super::error::{ControlError, HpWmiError, PlatformError};
use super::evidence::{Evidence, Knob, KnobValue, Pl4Sample, PowerSample, Target};
use super::mux_status::MuxStatus;
use super::policy::{
    CpuPolicy, CpuPowerLimits, FanLevels, FanMode, GpuPlatformPolicy, GpuPolicyPatch, MuxMode, ThermalMode,
};
use super::profile::PerformanceProfile;

verus! {

/// A request to the control plane.
#[allow(inconsistent_fields)]
#[derive(Debug, PartialEq)]
pub enum ControlCommand {
    ApplyProfile { profile: String },
    ApplyProfileDefinition { profile: PerformanceProfile },
    /// Apply a profile for an automatic session and remember what it replaced.
    ApplyScopedProfile { profile: String, session_id: u64 },
    RestoreScopedProfile { session_id: u64 },
    RestoreSession,
    SetThermalMode(ThermalMode),
    SetFanMode(FanMode),
    SetCpuPolicy(CpuPolicy),
    SetGpuPlatformPolicy(GpuPlatformPolicy),
    SetGpuPlatformPolicyPatch(GpuPolicyPatch),
    SetPowerLimits(CpuPowerLimits),
    SetMuxMode(MuxMode),
}

impl Clone for ControlCommand {
    fn clone(&self) -> (r: Self)
        ensures
            r == *self,
    {
        match self {
            ControlCommand::ApplyProfile { profile } => ControlCommand::ApplyProfile { profile: profile.clone() },
            ControlCommand::ApplyProfileDefinition { profile } => ControlCommand::ApplyProfileDefinition {
                profile: profile.clone(),
            },
            ControlCommand::ApplyScopedProfile { profile, session_id } => ControlCommand::ApplyScopedProfile {
                profile: profile.clone(),
                session_id: *session_id,
            },
            ControlCommand::RestoreScopedProfile { session_id } => ControlCommand::RestoreScopedProfile {
                session_id: *session_id,
            },
            ControlCommand::RestoreSession => ControlCommand::RestoreSession,
            ControlCommand::SetThermalMode(m) => ControlCommand::SetThermalMode(*m),
            ControlCommand::SetFanMode(m) => ControlCommand::SetFanMode(*m),
            ControlCommand::SetCpuPolicy(p) => ControlCommand::SetCpuPolicy(*p),
            ControlCommand::SetGpuPlatformPolicy(p) => ControlCommand::SetGpuPlatformPolicy(*p),
            ControlCommand::SetGpuPlatformPolicyPatch(p) => ControlCommand::SetGpuPlatformPolicyPatch(*p),
            ControlCommand::SetPowerLimits(l) => ControlCommand::SetPowerLimits(*l),
            ControlCommand::SetMuxMode(m) => ControlCommand::SetMuxMode(*m),
        }
    }
}

/// The number a dispatched command is known by.
#[derive(Clone, Copy, Debug, PartialEq, Eq, Structural)]
pub struct ControlReceipt(pub u64);

/// What is known of the effect of a write.
#[derive(Debug, PartialEq)]
pub enum Verification {
    /// A readback showed the requested value.
    Verified,
    /// The interface accepted the write and offers no readback.
    TrustedNoReadback,
    /// A readback disagreed, or the write itself failed.
    Failed { expected: Evidence, actual: Evidence },
    /// Nothing had to be verified.
    Skipped,
}

impl Clone for Verification {
    fn clone(&self) -> (r: Self)
        ensures
            r == *self,
    {
        match self {
            Verification::Verified => Verification::Verified,
            Verification::TrustedNoReadback => Verification::TrustedNoReadback,
            Verification::Failed { expected, actual } => Verification::Failed {
                expected: expected.clone(),
                actual: actual.clone(),
            },
            Verification::Skipped => Verification::Skipped,
        }
    }
}

/// How a command ended.
#[derive(Debug, PartialEq)]
pub enum ControlStatus {
    Applied { verification: Verification },
    Rejected { error: ControlError },
    Partial,
}

impl Clone for ControlStatus {
    fn clone(&self) -> (r: Self)
        ensures
            r == *self,
    {
        match self {
            ControlStatus::Applied { verification } => ControlStatus::Applied { verification: verification.clone() },
            ControlStatus::Rejected { error } => ControlStatus::Rejected { error: error.clone() },
            ControlStatus::Partial => ControlStatus::Partial,
        }
    }
}

impl ControlStatus {
    /// The command took effect and no readback disagreed.
    pub open spec fn succeeded(self) -> bool {
        match self {
            ControlStatus::Applied { verification } => !(verification is Failed),
            _ => false,
        }
    }
}

/// Whether the command took effect and no readback disagreed.
pub fn control_status_succeeded(status: &ControlStatus) -> (r: bool)
    ensures
        r == status.succeeded(),
{
    match status {
        ControlStatus::Applied { verification } => !matches!(verification, Verification::Failed { .. }),
        ControlStatus::Rejected { .. } | ControlStatus::Partial => false,
    }
}

/// How strong a verdict is; a failure is the weakest, and a skipped
/// verification weakens nothing.
pub open spec fn strength(v: Verification) -> int {
    match v {
        Verification::Failed { .. } => 0,
        Verification::TrustedNoReadback => 1,
        Verification::Verified => 2,
        Verification::Skipped => 3,
    }
}

/// The weaker of two verdicts, the first if they are equally strong.
pub open spec fn weaker(a: Verification, b: Verification) -> Verification {
    if strength(a) == 3 {
        b
    } else if strength(a) <= strength(b) {
        a
    } else {
        b
    }
}

fn rank(v: &Verification) -> (r: u8)
    ensures
        r == strength(*v),
{
    match v {
        Verification::Failed { .. } => 0,
        Verification::TrustedNoReadback => 1,
        Verification::Verified => 2,
        Verification::Skipped => 3,
    }
}

/// The verdict of a sequence of steps: the weaker of two.
pub fn weakest_verification(a: &Verification, b: &Verification) -> (r: Verification)
    ensures
        r == weaker(*a, *b),
{
    let ra: u8 = rank(a);
    let rb: u8 = rank(b);
    if ra == 3 {
        b.clone()
    } else if rb == 3 {
        a.clone()
    } else if ra <= rb {
        a.clone()
    } else {
        b.clone()
    }
}

/// A plan is only as verified as its weakest step: combining verdicts yields
/// one of them, never a stronger one than either, and combining is
/// associative; a skipped verdict changes nothing.
pub proof fn weakest_is_a_lower_bound(a: Verification, b: Verification, c: Verification)
    ensures
        weaker(a, b) == a || weaker(a, b) == b,
        strength(weaker(a, b)) <= strength(a),
        strength(weaker(a, b)) <= strength(b),
        weaker(weaker(a, b), c) == weaker(a, weaker(b, c)),
        strength(weaker(a, Verification::Skipped)) == strength(a),
        weaker(Verification::Skipped, a) == a,
{
}

/// One write or readback in the course of a command.
#[derive(Clone, Copy, Debug, PartialEq, Eq, Structural)]
pub enum Step {
    SetThermalMode,
    MaxFanOff,
    FanToAuto,
    MaxFanOn,
    MaxFanOffBeforeManual,
    SetManualLevels,
    VerifyFanLevels,
    MaxFanOffBeforeCurve,
    SetCurveTarget,
    ActivateCurve,
    UpdateCurveTarget,
    ReadGpuPolicy,
    SetGpuPolicy,
    VerifyGpuPolicy,
    CapturePowerBaseline,
    SetPowerLimits,
    VerifyPowerLimits,
    VerifyPowerLimitsPl4,
    WriteKnob(Knob),
    SafetyMaxFanOn,
    SafetyMaxFanOff,
    SafetyRearmMaxFan,
    RestoreMaxFanOff,
    RestoreFanAuto,
    RestoreFallbackMaxFan,
    RestoreGpuPolicy,
    RestorePowerLimits,
    RestoreThermal,
    RequestMuxReboot,
}

impl Step {
    pub open spec fn spec_label(self) -> Seq<char> {
        match self {
            Step::SetThermalMode => "set_thermal_mode"@,
            Step::MaxFanOff => "max-fan off (0x27 0)"@,
            Step::FanToAuto => "fan->auto (0x2E {0,0})"@,
            Step::MaxFanOn => "max-fan on (0x27 1)"@,
            Step::MaxFanOffBeforeManual => "max-fan off before manual"@,
            Step::SetManualLevels => "set manual fan levels"@,
            Step::VerifyFanLevels => "verify fan levels (0x2D)"@,
            Step::MaxFanOffBeforeCurve => "max-fan off before curve"@,
            Step::SetCurveTarget => "set fan curve target"@,
            Step::ActivateCurve => "activate fan curve"@,
            Step::UpdateCurveTarget => "update fan curve target"@,
            Step::ReadGpuPolicy => "read gpu policy (0x21)"@,
            Step::SetGpuPolicy => "set gpu policy"@,
            Step::VerifyGpuPolicy => "verify gpu policy (0x21)"@,
            Step::CapturePowerBaseline => "capture power-limits baseline (MSR 0x610)"@,
            Step::SetPowerLimits => "set power limits"@,
            Step::VerifyPowerLimits => "verify power limits (MSR 0x610)"@,
            Step::VerifyPowerLimitsPl4 => "verify power limits (MSR 0x610 + MCHBAR 0x59B0)"@,
            Step::WriteKnob(Knob::Epp) => "write EPP"@,
            Step::WriteKnob(Knob::Epp1) => "write EPP1 (class-1)"@,
            Step::WriteKnob(Knob::MaxFrequency) => "write max frequency"@,
            Step::WriteKnob(Knob::MinPerformance) => "write minimum performance"@,
            Step::WriteKnob(Knob::MaxPerformance) => "write maximum performance"@,
            Step::WriteKnob(Knob::Boost) => "write boost policy"@,
            Step::SafetyMaxFanOn => "SAFETY max-fan on"@,
            Step::SafetyMaxFanOff => "SAFETY max-fan off"@,
            Step::SafetyRearmMaxFan => "SAFETY re-arm max-fan"@,
            Step::RestoreMaxFanOff => "restore max-fan off"@,
            Step::RestoreFanAuto => "restore fan auto"@,
            Step::RestoreFallbackMaxFan => "restore fallback max-fan on"@,
            Step::RestoreGpuPolicy => "restore gpu policy (startup value)"@,
            Step::RestorePowerLimits => "restore power limits (captured baseline)"@,
            Step::RestoreThermal => "restore thermal balanced"@,
            Step::RequestMuxReboot => "request_mux_reboot"@,
        }
    }

    /// The step's name in the journal.
    pub fn label(&self) -> (r: &'static str)
        ensures
            r@ == self.spec_label(),
    {
        match *self {
            Step::SetThermalMode => "set_thermal_mode",
            Step::MaxFanOff => "max-fan off (0x27 0)",
            Step::FanToAuto => "fan->auto (0x2E {0,0})",
            Step::MaxFanOn => "max-fan on (0x27 1)",
            Step::MaxFanOffBeforeManual => "max-fan off before manual",
            Step::SetManualLevels => "set manual fan levels",
            Step::VerifyFanLevels => "verify fan levels (0x2D)",
            Step::MaxFanOffBeforeCurve => "max-fan off before curve",
            Step::SetCurveTarget => "set fan curve target",
            Step::ActivateCurve => "activate fan curve",
            Step::UpdateCurveTarget => "update fan curve target",
            Step::ReadGpuPolicy => "read gpu policy (0x21)",
            Step::SetGpuPolicy => "set gpu policy",
            Step::VerifyGpuPolicy => "verify gpu policy (0x21)",
            Step::CapturePowerBaseline => "capture power-limits baseline (MSR 0x610)",
            Step::SetPowerLimits => "set power limits",
            Step::VerifyPowerLimits => "verify power limits (MSR 0x610)",
            Step::VerifyPowerLimitsPl4 => "verify power limits (MSR 0x610 + MCHBAR 0x59B0)",
            Step::WriteKnob(Knob::Epp) => "write EPP",
            Step::WriteKnob(Knob::Epp1) => "write EPP1 (class-1)",
            Step::WriteKnob(Knob::MaxFrequency) => "write max frequency",
            Step::WriteKnob(Knob::MinPerformance) => "write minimum performance",
            Step::WriteKnob(Knob::MaxPerformance) => "write maximum performance",
            Step::WriteKnob(Knob::Boost) => "write boost policy",
            Step::SafetyMaxFanOn => "SAFETY max-fan on",
            Step::SafetyMaxFanOff => "SAFETY max-fan off",
            Step::SafetyRearmMaxFan => "SAFETY re-arm max-fan",
            Step::RestoreMaxFanOff => "restore max-fan off",
            Step::RestoreFanAuto => "restore fan auto",
            Step::RestoreFallbackMaxFan => "restore fallback max-fan on",
            Step::RestoreGpuPolicy => "restore gpu policy (startup value)",
            Step::RestorePowerLimits => "restore power limits (captured baseline)",
            Step::RestoreThermal => "restore thermal balanced",
            Step::RequestMuxReboot => "request_mux_reboot",
        }
    }

    pub open spec fn spec_backend(self) -> Seq<char> {
        match self {
            Step::SetThermalMode | Step::RestoreThermal => "hp-wmi 0x1A"@,
            Step::MaxFanOff | Step::MaxFanOn | Step::MaxFanOffBeforeManual | Step::MaxFanOffBeforeCurve
            | Step::SafetyMaxFanOn | Step::SafetyMaxFanOff | Step::SafetyRearmMaxFan | Step::RestoreMaxFanOff
            | Step::RestoreFallbackMaxFan => "hp-wmi 0x27"@,
            Step::FanToAuto | Step::SetManualLevels | Step::SetCurveTarget | Step::UpdateCurveTarget
            | Step::RestoreFanAuto => "hp-wmi 0x2E"@,
            Step::VerifyFanLevels => "hp-wmi 0x2D"@,
            Step::ActivateCurve => "phelper curve + hp-wmi 0x2E"@,
            Step::ReadGpuPolicy | Step::VerifyGpuPolicy => "hp-wmi 0x21"@,
            Step::SetGpuPolicy | Step::RestoreGpuPolicy => "hp-wmi 0x22"@,
            Step::CapturePowerBaseline | Step::VerifyPowerLimits | Step::VerifyPowerLimitsPl4 =>
                "pawnio telemetry feed"@,
            Step::SetPowerLimits | Step::RestorePowerLimits => "hp-wmi 0x29"@,
            Step::WriteKnob(Knob::Epp) => "powrprof PERFEPP"@,
            Step::WriteKnob(Knob::Epp1) => "powrprof PERFEPP1"@,
            Step::WriteKnob(Knob::MaxFrequency) => "powrprof PROCFREQMAX"@,
            Step::WriteKnob(Knob::MinPerformance) => "powrprof PROCTHROTTLEMIN"@,
            Step::WriteKnob(Knob::MaxPerformance) => "powrprof PROCTHROTTLEMAX"@,
            Step::WriteKnob(Knob::Boost) => "powrprof PERFBOOSTMODE"@,
            Step::RequestMuxReboot => "hp-wmi 0x02/0x52"@,
        }
    }

    /// The interface the step goes through.
    pub fn backend(&self) -> (r: &'static str)
        ensures
            r@ == self.spec_backend(),
    {
        match *self {
            Step::SetThermalMode | Step::RestoreThermal => "hp-wmi 0x1A",
            Step::MaxFanOff | Step::MaxFanOn | Step::MaxFanOffBeforeManual | Step::MaxFanOffBeforeCurve
            | Step::SafetyMaxFanOn | Step::SafetyMaxFanOff | Step::SafetyRearmMaxFan | Step::RestoreMaxFanOff
            | Step::RestoreFallbackMaxFan => "hp-wmi 0x27",
            Step::FanToAuto | Step::SetManualLevels | Step::SetCurveTarget | Step::UpdateCurveTarget
            | Step::RestoreFanAuto => "hp-wmi 0x2E",
            Step::VerifyFanLevels => "hp-wmi 0x2D",
            Step::ActivateCurve => "phelper curve + hp-wmi 0x2E",
            Step::ReadGpuPolicy | Step::VerifyGpuPolicy => "hp-wmi 0x21",
            Step::SetGpuPolicy | Step::RestoreGpuPolicy => "hp-wmi 0x22",
            Step::CapturePowerBaseline | Step::VerifyPowerLimits | Step::VerifyPowerLimitsPl4 =>
                "pawnio telemetry feed",
            Step::SetPowerLimits | Step::RestorePowerLimits => "hp-wmi 0x29",
            Step::WriteKnob(Knob::Epp) => "powrprof PERFEPP",
            Step::WriteKnob(Knob::Epp1) => "powrprof PERFEPP1",
            Step::WriteKnob(Knob::MaxFrequency) => "powrprof PROCFREQMAX",
            Step::WriteKnob(Knob::MinPerformance) => "powrprof PROCTHROTTLEMIN",
            Step::WriteKnob(Knob::MaxPerformance) => "powrprof PROCTHROTTLEMAX",
            Step::WriteKnob(Knob::Boost) => "powrprof PERFBOOSTMODE",
            Step::RequestMuxReboot => "hp-wmi 0x02/0x52",
        }
    }
}

/// What the interface answered.
#[derive(Clone, Debug, PartialEq)]
pub enum FirmwareReturn {
    /// The step made no call.
    Absent,
    /// The firmware accepted (`rc=0`).
    Accepted,
    /// The operating-system call succeeded.
    ApiOk,
    Hp(HpWmiError),
    Platform(PlatformError),
}

/// The state a step found or left behind.
#[derive(Clone, Debug, PartialEq)]
pub enum Note {
    /// The step belongs to a restore.
    Restore,
    ThermalOverride,
    ReleaseOverride,
    FailedRelease,
    FailedAutoRestore,
    NotRead,
    Thermal(Option<ThermalMode>),
    ThermalTrusted(ThermalMode),
    Fan { mode: Option<FanMode>, max_fan: Option<bool> },
    FanPending,
    CurveTarget { temp: i64, target: FanLevels },
    /// The smoothed temperature in fine units, and the target before.
    CurveUpdate { smoothed: i128, last: Option<FanLevels> },
    Gpu(GpuPlatformPolicy),
    Power { power: Option<PowerSample>, pl4: Option<Pl4Sample> },
    Limits(CpuPowerLimits),
    FeedLost,
    Pending,
    KnobRead { ac: KnobValue, dc: KnobValue },
    KnobUnreadable(PlatformError),
    Verdict(Verification),
    Readback { verdict: Verification, readback: Option<Target> },
    /// The interface refused: nothing was written.
    DefinitelyRejected,
    /// The call failed without an answer: the write may have happened.
    UnknownResult,
    Mux(Option<MuxMode>),
    MuxStatus(MuxStatus),
}

/// The evidence of one step.
#[derive(Clone, Debug, PartialEq)]
pub struct StepOutcome {
    pub step: Step,
    pub firmware_return: FirmwareReturn,
    pub before: Option<Note>,
    pub after: Option<Note>,
    pub verification: Verification,
}

/// The step that failed on a firmware error.
pub open spec fn hp_failed_step(step: Step, e: HpWmiError, before: Note) -> StepOutcome {
    StepOutcome {
        step,
        firmware_return: FirmwareReturn::Hp(e),
        before: Some(before),
        after: Some(if e.spec_definite_rejection() { Note::DefinitelyRejected } else { Note::UnknownResult }),
        verification: Verification::Failed { expected: Evidence::FirmwareAccept, actual: Evidence::Hp(e) },
    }
}

/// Records a step that failed on a firmware error.
pub fn failed_step(step: Step, e: &HpWmiError, before: Note) -> (r: StepOutcome)
    ensures
        r == hp_failed_step(step, *e, before),
{
    StepOutcome {
        step,
        firmware_return: FirmwareReturn::Hp(e.clone()),
        before: Some(before),
        after: Some(
            if super::error::definite_hp_rejection(e) { Note::DefinitelyRejected } else { Note::UnknownResult },
        ),
        verification: Verification::Failed {
            expected: Evidence::FirmwareAccept,
            actual: Evidence::Hp(e.clone()),
        },
    }
}

/// The step of a firmware write that was accepted on trust.
pub open spec fn hp_accepted_step(step: Step, before: Note, after: Option<Note>) -> StepOutcome {
    StepOutcome {
        step,
        firmware_return: FirmwareReturn::Accepted,
        before: Some(before),
        after,
        verification: Verification::TrustedNoReadback,
    }
}

/// The step of a firmware write, accepted or failed.
pub open spec fn hp_written_step(step: Step, result: Result<(), HpWmiError>, before: Note) -> StepOutcome {
    match result {
        Ok(()) => hp_accepted_step(step, before, None),
        Err(e) => hp_failed_step(step, e, before),
    }
}

/// Records a firmware write, accepted or failed.
pub fn written_step(step: Step, result: &Result<(), HpWmiError>, before: Note) -> (r: StepOutcome)
    ensures
        r == hp_written_step(step, *result, before),
{
    match result {
        Ok(()) => StepOutcome {
            step,
            firmware_return: FirmwareReturn::Accepted,
            before: Some(before),
            after: None,
            verification: Verification::TrustedNoReadback,
        },
        Err(e) => failed_step(step, e, before),
    }
}

/// The step that failed on an operating-system error.
pub open spec fn os_failed_step(step: Step, e: PlatformError, before: Note) -> StepOutcome {
    StepOutcome {
        step,
        firmware_return: FirmwareReturn::Platform(e),
        before: Some(before),
        after: None,
        verification: Verification::Failed { expected: Evidence::ApiSuccess, actual: Evidence::Platform(e) },
    }
}

/// Records a step that failed on an operating-system error.
pub fn platform_failed_step(step: Step, e: &PlatformError, before: Note) -> (r: StepOutcome)
    ensures
        r == os_failed_step(step, *e, before),
{
    StepOutcome {
        step,
        firmware_return: FirmwareReturn::Platform(e.clone()),
        before: Some(before),
        after: None,
        verification: Verification::Failed {
            expected: Evidence::ApiSuccess,
            actual: Evidence::Platform(e.clone()),
        },
    }
}

/// The outcome of one command.
#[derive(Clone, Debug, PartialEq)]
pub struct ControlOutcome {
    pub receipt: ControlReceipt,
    pub command: ControlCommand,
    pub status: ControlStatus,
    pub steps: Vec<StepOutcome>,
    /// Milliseconds from start to finish.
    pub duration: u64,
}

} // verus!
