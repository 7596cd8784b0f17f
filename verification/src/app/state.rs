//! The read model: everything a page draws, and the reducers that change it.
use vstd::prelude::*;

use crate::automation::AutomationSnapshot;
use crate::domain::telemetry::TelemetrySnapshot;
use crate::measurements::CaptureReport;
use crate::domain::capability::CapabilitySet;
use crate::domain::command::{ControlOutcome, ControlReceipt, ControlStatus, Verification};
use crate::domain::error::ControlError;
use crate::domain::identity::DeviceIdentity;
use crate::domain::policy::WindowsPpmState;
use crate::domain::profile::{PerformanceProfile, ProfileEntry, ProfileRegistry};
use crate::domain::state::{DesiredState, ObservedState};
use crate::hardware_status::HardwareStatus;

verus! {

/// How far the engine has come.
#[derive(Clone, Debug, PartialEq)]
pub enum EngineStatus {
    /// The engine is starting.
    Starting,
    /// Telemetry and control are up.
    Running,
    /// Telemetry only: nothing can be written.
    TelemetryOnly,
    /// The engine did not start.
    Failed(String),
}

impl Default for EngineStatus {
    fn default() -> (r: EngineStatus)
        ensures
            r is Starting,
    {
        EngineStatus::Starting
    }
}

/// The write surfaces.
#[derive(Clone, Copy, Debug, PartialEq, Eq, Structural)]
pub enum KnobId {
    Profile,
    Cpu,
    Fan,
    Gpu,
    Power,
    Recovery,
    Mux,
}

/// What became of the last command of a write surface.
#[derive(Clone, Debug, PartialEq)]
pub enum KnobStatus {
    /// Nothing was dispatched in this session.
    Idle,
    /// Waits for its turn.
    Pending,
    /// With the writer.
    InFlight(ControlReceipt),
    Applied { verification: Verification, at_epoch_ms: u64 },
    /// Several steps, of which not all were made.
    Partial { at_epoch_ms: u64 },
    Failed { error: ControlError, at_epoch_ms: u64 },
}

/// The status of every write surface.
#[derive(Clone, Debug, PartialEq)]
pub struct Knobs {
    pub profile: KnobStatus,
    pub cpu: KnobStatus,
    pub fan: KnobStatus,
    pub gpu: KnobStatus,
    pub power: KnobStatus,
    pub recovery: KnobStatus,
    pub mux: KnobStatus,
}

impl Knobs {
    /// Nothing was dispatched from any surface.
    pub open spec fn all_idle() -> Knobs {
        Knobs {
            profile: KnobStatus::Idle,
            cpu: KnobStatus::Idle,
            fan: KnobStatus::Idle,
            gpu: KnobStatus::Idle,
            power: KnobStatus::Idle,
            recovery: KnobStatus::Idle,
            mux: KnobStatus::Idle,
        }
    }

    pub open spec fn at(self, knob: KnobId) -> KnobStatus {
        match knob {
            KnobId::Profile => self.profile,
            KnobId::Cpu => self.cpu,
            KnobId::Fan => self.fan,
            KnobId::Gpu => self.gpu,
            KnobId::Power => self.power,
            KnobId::Recovery => self.recovery,
            KnobId::Mux => self.mux,
        }
    }

    /// The same but for one surface.
    pub open spec fn with(self, knob: KnobId, status: KnobStatus) -> Knobs {
        match knob {
            KnobId::Profile => Knobs { profile: status, ..self },
            KnobId::Cpu => Knobs { cpu: status, ..self },
            KnobId::Fan => Knobs { fan: status, ..self },
            KnobId::Gpu => Knobs { gpu: status, ..self },
            KnobId::Power => Knobs { power: status, ..self },
            KnobId::Recovery => Knobs { recovery: status, ..self },
            KnobId::Mux => Knobs { mux: status, ..self },
        }
    }
}

/// Setting the status of one surface changes that one and no other.
pub proof fn knobs_are_independent(knobs: Knobs, set: KnobId, status: KnobStatus, other: KnobId)
    ensures
        knobs.with(set, status).at(set) == status,
        other != set ==> knobs.with(set, status).at(other) == knobs.at(other),
{
}

/// One profile as a page shows it.
#[derive(Clone, Debug, PartialEq)]
pub struct ProfileSummary {
    pub name: String,
    pub description: String,
    pub profile: PerformanceProfile,
    pub builtin: bool,
}

/// The summary of a registered profile.
pub open spec fn summary_of(entry: ProfileEntry) -> ProfileSummary {
    ProfileSummary {
        name: entry.name,
        description: entry.profile.description,
        profile: entry.profile,
        builtin: entry.builtin,
    }
}

/// Everything a page draws.
#[derive(Clone, Debug, PartialEq)]
pub struct AppState {
    pub engine: EngineStatus,
    pub identity: Option<DeviceIdentity>,
    pub hardware: HardwareStatus,
    pub capture_running: bool,
    pub capture_notice: Option<String>,
    /// The last capture report.
    pub capture_report: Option<CaptureReport>,
    /// The report that others are compared with.
    pub capture_baseline: Option<CaptureReport>,
    pub diagnostic_path: Option<String>,
    pub telemetry: Option<TelemetrySnapshot>,
    pub caps: Option<CapabilitySet>,
    pub desired: DesiredState,
    pub observed: ObservedState,
    pub profiles: Vec<ProfileSummary>,
    pub knobs: Knobs,
    pub last_outcome: Option<ControlOutcome>,
    pub windows_ppm: Option<WindowsPpmState>,
    pub profile_notice: Option<String>,
    pub automation: AutomationSnapshot,
}

impl Default for AppState {
    fn default() -> (r: AppState)
        ensures
            r.engine is Starting,
            r.identity is None,
            r.hardware.blank(),
            !r.capture_running,
            r.capture_notice is None,
            r.capture_report is None,
            r.capture_baseline is None,
            r.diagnostic_path is None,
            r.telemetry is None,
            r.caps is None,
            r.desired == DesiredState::spec_blank(),
            r.observed == ObservedState::spec_blank(),
            r.profiles@.len() == 0,
            r.knobs == Knobs::all_idle(),
            r.last_outcome is None,
            r.windows_ppm is None,
            r.profile_notice is None,
            r.automation.blank(),
    {
        AppState {
            engine: EngineStatus::default(),
            identity: None,
            hardware: HardwareStatus::default(),
            capture_running: false,
            capture_notice: None,
            capture_report: None,
            capture_baseline: None,
            diagnostic_path: None,
            telemetry: None,
            caps: None,
            desired: DesiredState::default(),
            observed: ObservedState::default(),
            profiles: Vec::new(),
            knobs: Knobs {
                profile: KnobStatus::Idle,
                cpu: KnobStatus::Idle,
                fan: KnobStatus::Idle,
                gpu: KnobStatus::Idle,
                power: KnobStatus::Idle,
                recovery: KnobStatus::Idle,
                mux: KnobStatus::Idle,
            },
            last_outcome: None,
            windows_ppm: None,
            profile_notice: None,
            automation: AutomationSnapshot::default(),
        }
    }
}

/// The status that an outcome leaves on its surface. A write whose readback
/// disagreed is a failure, not an application.
pub open spec fn outcome_status(status: ControlStatus, at: u64) -> KnobStatus {
    match status {
        ControlStatus::Applied { verification } => match verification {
            Verification::Failed { expected, actual } => KnobStatus::Failed {
                error: ControlError::VerificationFailed { expected, actual },
                at_epoch_ms: at,
            },
            _ => KnobStatus::Applied { verification, at_epoch_ms: at },
        },
        ControlStatus::Rejected { error } => KnobStatus::Failed { error, at_epoch_ms: at },
        ControlStatus::Partial => KnobStatus::Partial { at_epoch_ms: at },
    }
}

fn status_of(status: &ControlStatus, at: u64) -> (r: KnobStatus)
    ensures
        r == outcome_status(*status, at),
{
    match status {
        ControlStatus::Applied { verification } => match verification {
            Verification::Failed { expected, actual } => KnobStatus::Failed {
                error: ControlError::VerificationFailed { expected: expected.clone(), actual: actual.clone() },
                at_epoch_ms: at,
            },
            _ => KnobStatus::Applied { verification: verification.clone(), at_epoch_ms: at },
        },
        ControlStatus::Rejected { error } => KnobStatus::Failed { error: error.clone(), at_epoch_ms: at },
        ControlStatus::Partial => KnobStatus::Partial { at_epoch_ms: at },
    }
}

impl AppState {
    /// The status of a write surface.
    pub fn knob_status(&self, knob: KnobId) -> (r: &KnobStatus)
        ensures
            *r == self.knobs.at(knob),
    {
        match knob {
            KnobId::Profile => &self.knobs.profile,
            KnobId::Cpu => &self.knobs.cpu,
            KnobId::Fan => &self.knobs.fan,
            KnobId::Gpu => &self.knobs.gpu,
            KnobId::Power => &self.knobs.power,
            KnobId::Recovery => &self.knobs.recovery,
            KnobId::Mux => &self.knobs.mux,
        }
    }

    /// Whether anything can be written: only while the engine runs in full.
    pub fn writes_available(&self) -> (r: bool)
        ensures
            r == (self.engine is Running),
    {
        matches!(self.engine, EngineStatus::Running)
    }

    /// Takes over the newest samples.
    pub fn apply_snapshot(&mut self, snapshot: TelemetrySnapshot)
        ensures
            *final(self) == (AppState { telemetry: Some(snapshot), ..*old(self) }),
    {
        self.telemetry = Some(snapshot);
    }

    /// The state but for the samples: what a page is drawn anew for at once.
    pub fn without_telemetry(self) -> (r: AppState)
        ensures
            r == (AppState { telemetry: None, ..self }),
    {
        let mut state = self;
        state.telemetry = None;
        state
    }

    /// Sets the status of a write surface.
    pub fn set_knob(&mut self, knob: KnobId, status: KnobStatus)
        ensures
            *final(self) == (AppState { knobs: old(self).knobs.with(knob, status), ..*old(self) }),
    {
        match knob {
            KnobId::Profile => {
                self.knobs.profile = status;
            },
            KnobId::Cpu => {
                self.knobs.cpu = status;
            },
            KnobId::Fan => {
                self.knobs.fan = status;
            },
            KnobId::Gpu => {
                self.knobs.gpu = status;
            },
            KnobId::Power => {
                self.knobs.power = status;
            },
            KnobId::Recovery => {
                self.knobs.recovery = status;
            },
            KnobId::Mux => {
                self.knobs.mux = status;
            },
        }
    }

    /// Records a finished command.
    pub fn apply_outcome(&mut self, knob: KnobId, outcome: ControlOutcome, at: u64)
        ensures
            *final(self) == (AppState {
                knobs: old(self).knobs.with(knob, outcome_status(outcome.status, at)),
                last_outcome: Some(outcome),
                ..*old(self)
            }),
    {
        let status = status_of(&outcome.status, at);
        self.set_knob(knob, status);
        self.last_outcome = Some(outcome);
    }

    /// Takes over the registered profiles, in their order.
    pub fn set_profiles(&mut self, registry: &ProfileRegistry)
        ensures
            final(self).profiles@ == registry.entries@.map_values(|e: ProfileEntry| summary_of(e)),
            *final(self) == (AppState { profiles: final(self).profiles, ..*old(self) }),
    {
        let mut summaries: Vec<ProfileSummary> = Vec::new();
        let ghost all = registry.entries@.map_values(|e: ProfileEntry| summary_of(e));
        let mut i: usize = 0;
        assert(summaries@ =~= all.take(0));
        while i < registry.entries.len()
            invariant
                i <= registry.entries@.len(),
                all == registry.entries@.map_values(|e: ProfileEntry| summary_of(e)),
                summaries@ == all.take(i as int),
            decreases registry.entries@.len() - i,
        {
            let e = &registry.entries[i];
            summaries.push(
                ProfileSummary {
                    name: e.name.clone(),
                    description: e.profile.description.clone(),
                    profile: e.profile.clone(),
                    builtin: e.builtin,
                },
            );
            i = i + 1;
            assert(all.take(i as int) =~= all.take(i - 1).push(all[i - 1]));
        }
        assert(all.take(i as int) =~= all);
        self.profiles = summaries;
    }
}

/// Why profiles cannot be applied.
#[derive(Clone, Copy, Debug, PartialEq, Eq, Structural)]
pub enum ProfileBlock {
    /// Control is not ready.
    Preparing,
    /// The board is not known.
    UnknownBoard,
}

impl ProfileBlock {
    pub open spec fn spec_text(self) -> Seq<char> {
        match self {
            ProfileBlock::Preparing => "正在准备控制"@,
            ProfileBlock::UnknownBoard => "当前设备不支持配置档"@,
        }
    }

    /// The reason in words.
    pub fn text(&self) -> (r: &'static str)
        ensures
            r@ == self.spec_text(),
    {
        match *self {
            ProfileBlock::Preparing => "正在准备控制",
            ProfileBlock::UnknownBoard => "当前设备不支持配置档",
        }
    }
}

/// Whether profiles can be applied: on a known board only.
pub fn profile_enabled(caps: &Option<CapabilitySet>) -> (r: Result<(), ProfileBlock>)
    ensures
        match *caps {
            None => r == Err::<(), ProfileBlock>(ProfileBlock::Preparing),
            Some(c) => if c.known_board { r is Ok } else { r == Err::<(), ProfileBlock>(ProfileBlock::UnknownBoard) },
        },
{
    match caps {
        None => Err(ProfileBlock::Preparing),
        Some(c) => if c.known_board {
            Ok(())
        } else {
            Err(ProfileBlock::UnknownBoard)
        },
    }
}

/// New samples alone never change what a page is drawn anew for, and every
/// other change does.
pub proof fn only_samples_are_left_out(a: AppState, b: AppState, samples: Option<TelemetrySnapshot>)
    ensures
        (AppState { telemetry: None, ..AppState { telemetry: samples, ..a } }) == (AppState { telemetry: None, ..a }),
        (AppState { telemetry: None, ..a }) == (AppState { telemetry: None, ..b }) <==> b == (AppState {
            telemetry: b.telemetry,
            ..a
        }),
{
}

} // verus!
