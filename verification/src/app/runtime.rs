//! The pump: it alone talks to the engine, takes the pages' messages, hands
//! one command at a time to the writer, and keeps the read model current.
use vstd::prelude::*;

use super::coalesce::{BusyVerdict, Coalescer};
use super::state::{outcome_status, AppState, EngineStatus, KnobId, KnobStatus};
use super::validate::{gate_refusal, profile_apply_gate};
use crate::automation::{AutomationConfig, AutomationSnapshot};
use crate::control::keepalive::after;
use crate::control::safety::{age, elapsed};
use crate::domain::automatic::AutomaticSchedulerSnapshot;
use crate::domain::capability::CapabilitySet;
use crate::domain::command::{ControlCommand, ControlOutcome, ControlReceipt};
use crate::domain::error::{ControlError, Missing, UnsafeReason};
use crate::domain::identity::DeviceIdentity;
use crate::domain::policy::{MuxMode, WindowsPpmState};
use crate::domain::profile::{PerformanceProfile, ProfileEntry, ProfileRegistry};
use crate::domain::state::{Channel, ControlNotice, DesiredState, ObservedState, ObservedValue};
use crate::hardware_status::HardwareStatus;
use crate::measurements::CaptureReport;

verus! {

/// How long the pump waits for a message while a command is under way.
pub const BUSY_WAIT: u64 = 10;

/// How long the pump waits for a message otherwise.
pub const IDLE_WAIT: u64 = 100;

/// How often the read model is refreshed, in milliseconds.
pub const REFRESH_PERIOD: u64 = 2_000;

/// How often the writer is asked to read the hardware again, in milliseconds.
pub const REPROBE_PERIOD: u64 = 30_000;

/// A turn of the pump that takes longer is reported, in milliseconds.
pub const SLOW_TURN: u64 = 2_000;

/// A message of the pages.
#[derive(Debug, PartialEq)]
pub enum PumpMsg {
    Dispatch(KnobId, ControlCommand),
    SaveProfile(String, PerformanceProfile),
    RefreshProfiles,
    StartCapture { pid: u32, seconds: u32, label: String },
    StopCapture,
    UseCaptureBaseline,
    ExportDiagnostics,
    ConfigureAutomation(AutomationConfig),
    Shutdown,
}

/// What is left to do for a message.
#[derive(Debug, PartialEq)]
pub enum PumpAction {
    Nothing,
    SaveProfile(String, PerformanceProfile),
    LoadProfiles,
    StartCapture { pid: u32, seconds: u32, label: String },
    StopCapture,
    ExportDiagnostics,
    ConfigureAutomation(AutomationConfig),
    Shutdown,
}

/// The pump's own state.
#[derive(Debug, PartialEq)]
pub struct Pump {
    pub coalescer: Coalescer,
    /// The command with the writer, and the surface it came from.
    pub in_flight: Option<(ControlReceipt, KnobId)>,
    pub registry: ProfileRegistry,
    pub has_control: bool,
    pub has_automation: bool,
    /// This build can write experimental power limits.
    pub experimental: bool,
    pub last_state_refresh: u64,
    pub last_observed_reprobe: u64,
}

/// The writer's view of the machine, as the read model takes it over.
#[derive(Debug, PartialEq)]
pub struct ControlFace {
    pub caps: CapabilitySet,
    pub desired: DesiredState,
    pub observed: ObservedState,
    pub windows_ppm: Option<WindowsPpmState>,
}

/// Why the pump ends.
#[derive(Clone, Copy, Debug, PartialEq, Eq, Structural)]
pub enum PumpExit {
    /// A page asked for it.
    Asked,
    /// Telemetry has ended by itself.
    TelemetryLost,
    /// No page is left.
    PagesGone,
}

/// A step of ending the pump.
#[derive(Clone, Copy, Debug, PartialEq, Eq, Structural)]
pub enum ExitStep {
    StopCapture,
    ShutDownAutomation,
    ShutDownEngine,
    Acknowledge,
    /// Answers nothing but the request to end.
    ServeShutdownOnly,
}

// ---- Reducers of starting ------------------------------------------------

impl AppState {
    /// The engine did not start.
    pub fn engine_failed(&mut self, message: String)
        ensures
            *final(self) == (AppState { engine: EngineStatus::Failed(message), ..*old(self) }),
    {
        self.engine = EngineStatus::Failed(message);
    }

    /// The engine has started: what its probe found.
    pub fn engine_started(
        &mut self,
        identity: DeviceIdentity,
        caps: CapabilitySet,
        windows_ppm: Option<WindowsPpmState>,
        unavailable: Option<String>,
        mux: Option<MuxMode>,
        hardware: HardwareStatus,
        now: u64,
    )
        ensures
            *final(self) == (AppState {
                identity: Some(identity),
                caps: Some(caps),
                windows_ppm,
                hardware,
                observed: ObservedState {
                    control_notice: match unavailable {
                        Some(t) => Some(ControlNotice::Text(t)),
                        None => None,
                    },
                    mux: match mux {
                        Some(value) => ObservedValue::Verified { value, at: now, source: Channel::MuxProbe },
                        None => old(self).observed.mux,
                    },
                    ..old(self).observed
                },
                ..*old(self)
            }),
    {
        self.identity = Some(identity);
        self.caps = Some(caps);
        self.windows_ppm = windows_ppm;
        self.observed.control_notice =
        match unavailable {
            Some(t) => Some(ControlNotice::Text(t)),
            None => None,
        };
        if let Some(value) = mux {
            self.observed.mux = ObservedValue::Verified { value, at: now, source: Channel::MuxProbe };
        }
        self.hardware = hardware;
    }

    /// Takes over the writer's view.
    pub fn refresh(&mut self, desired: DesiredState, observed: ObservedState, windows_ppm: Option<WindowsPpmState>)
        ensures
            *final(self) == (AppState { desired, observed, windows_ppm, ..*old(self) }),
    {
        self.desired = desired;
        self.observed = observed;
        self.windows_ppm = windows_ppm;
    }

    /// Starting is over: with a writer the engine runs in full, without one
    /// there is telemetry only.
    pub fn settle(&mut self, control: Option<ControlFace>, registry: &ProfileRegistry)
        ensures
            final(self).profiles@ == registry.entries@.map_values(
                |e: ProfileEntry| super::state::summary_of(e),
            ),
            *final(self) == (match control {
                Some(c) => AppState {
                    caps: Some(c.caps),
                    desired: c.desired,
                    observed: c.observed,
                    windows_ppm: c.windows_ppm,
                    engine: EngineStatus::Running,
                    profiles: final(self).profiles,
                    ..*old(self)
                },
                None => AppState {
                    engine: EngineStatus::TelemetryOnly,
                    profiles: final(self).profiles,
                    ..*old(self)
                },
            }),
    {
        match control {
            Some(c) => {
                self.caps = Some(c.caps);
                self.refresh(c.desired, c.observed, c.windows_ppm);
                self.engine = EngineStatus::Running;
            },
            None => {
                self.engine = EngineStatus::TelemetryOnly;
            },
        }
        self.set_profiles(registry);
    }

    /// Without a writer the rules are shown but never run.
    pub fn rules_unavailable(&mut self, config: AutomationConfig)
        ensures
            final(self).automation.initialized,
            final(self).automation.config == config,
            !final(self).automation.paused_by_manual,
            final(self).automation.active_profile is None,
            final(self).automation.power is Unknown,
            final(self).automation.process_policy == AutomaticSchedulerSnapshot::spec_off(),
            final(self).automation.message matches Some(m) && m@ == "只读模式：规则不会运行或写入。"@,
            *final(self) == (AppState { automation: final(self).automation, ..*old(self) }),
    {
        self.automation =
        AutomationSnapshot {
            initialized: true,
            config,
            message: Some(String::from_str("只读模式：规则不会运行或写入。")),
            ..AutomationSnapshot::default()
        };
    }

    /// Takes over how the rules stand.
    pub fn show_rules(&mut self, automation: AutomationSnapshot)
        ensures
            *final(self) == (AppState { automation, ..*old(self) }),
    {
        self.automation = automation;
    }

    /// Telemetry has ended by itself.
    pub fn telemetry_lost(&mut self)
        ensures
            final(self).engine matches EngineStatus::Failed(m) && m@ == "遥测协调器意外断开"@,
            *final(self) == (AppState { engine: final(self).engine, ..*old(self) }),
    {
        self.engine = EngineStatus::Failed(String::from_str("遥测协调器意外断开"));
    }

    /// A capture has ended: with a report, or with a reason why not.
    pub fn capture_finished(&mut self, result: Result<CaptureReport, String>)
        ensures
            !final(self).capture_running,
            match result {
                Ok(report) => {
                    &&& final(self).capture_report == Some(report)
                    &&& final(self).capture_notice matches Some(n) && n@ == "采集完成："@ + report.json_path@
                },
                Err(why) => {
                    &&& final(self).capture_report == old(self).capture_report
                    &&& final(self).capture_notice == Some(why)
                },
            },
            *final(self) == (AppState {
                capture_running: false,
                capture_report: final(self).capture_report,
                capture_notice: final(self).capture_notice,
                ..*old(self)
            }),
    {
        self.capture_running = false;
        match result {
            Ok(report) => {
                let mut notice = String::from_str("采集完成：");
                notice.append(report.json_path.as_str());
                self.capture_notice = Some(notice);
                self.capture_report = Some(report);
            },
            Err(why) => {
                self.capture_notice = Some(why);
            },
        }
    }

    /// A diagnostic export has ended: in a file, or with a reason why not.
    pub fn exported(&mut self, result: Result<String, String>)
        ensures
            *final(self) == (AppState {
                diagnostic_path: Some(
                    match result {
                        Ok(path) => path,
                        Err(why) => why,
                    },
                ),
                ..*old(self)
            }),
    {
        self.diagnostic_path =
        Some(
            match result {
                Ok(path) => path,
                Err(why) => why,
            },
        );
    }
}

// ---- Admission -----------------------------------------------------------

/// The reason why a command is refused before it is queued, if any: without a
/// writer every command is; the graphics switch while its way back is not
/// proven; and a known profile that its own gate refuses.
pub open spec fn gate_error(
    cmd: ControlCommand,
    registry: ProfileRegistry,
    caps: Option<CapabilitySet>,
    mux_proven: bool,
    has_control: bool,
    experimental: bool,
) -> Option<ControlError> {
    if !has_control {
        Some(ControlError::BackendUnavailable { what: Missing::TelemetryOnly })
    } else {
        match cmd {
            ControlCommand::SetMuxMode(_) => if mux_proven {
                None
            } else {
                Some(ControlError::UnsafeRequest { reason: UnsafeReason::MuxNotProven })
            },
            ControlCommand::ApplyProfile { profile } => match registry.lookup(profile@) {
                Some(p) => match gate_refusal(p, experimental, caps) {
                    Some(reason) => Some(ControlError::UnsafeRequest { reason }),
                    None => None,
                },
                None => None,
            },
            _ => None,
        }
    }
}

/// Decides whether a command may be queued.
pub fn dispatch_gate(
    cmd: &ControlCommand,
    registry: &ProfileRegistry,
    state: &AppState,
    has_control: bool,
    experimental: bool,
) -> (r: Option<ControlError>)
    ensures
        r == gate_error(
            *cmd,
            *registry,
            state.caps,
            state.observed.mux_write_verified,
            has_control,
            experimental,
        ),
{
    if !has_control {
        return Some(ControlError::BackendUnavailable { what: Missing::TelemetryOnly });
    }
    match cmd {
        ControlCommand::SetMuxMode(_) => if state.observed.mux_write_verified {
            None
        } else {
            Some(ControlError::UnsafeRequest { reason: UnsafeReason::MuxNotProven })
        },
        ControlCommand::ApplyProfile { profile } => match registry.get(profile.as_str()) {
            Some(p) => match profile_apply_gate(p, experimental, &state.caps) {
                Ok(_) => None,
                Err(reason) => Some(ControlError::UnsafeRequest { reason }),
            },
            None => None,
        },
        _ => None,
    }
}

// ---- The pump ------------------------------------------------------------

impl Pump {
    /// What is under way is known to the queue and to the pump alike.
    pub open spec fn wf(self) -> bool {
        match self.in_flight {
            Some(f) => self.coalescer.in_flight == Some(f.0),
            None => self.coalescer.in_flight is None,
        }
    }

    /// A pump with nothing to do. The first refresh is due at once, unless
    /// the clock has not run that long.
    pub fn new(registry: ProfileRegistry, has_control: bool, has_automation: bool, experimental: bool, now: u64) -> (r:
        Pump)
        ensures
            r.wf(),
            r.coalescer.pending is None,
            r.in_flight is None,
            r.registry == registry,
            r.has_control == has_control,
            r.has_automation == has_automation,
            r.experimental == experimental,
            r.last_state_refresh == (if now >= 60_000 { (now - 60_000) as u64 } else { now }),
            r.last_observed_reprobe == now,
    {
        Pump {
            coalescer: Coalescer::new(),
            in_flight: None,
            registry,
            has_control,
            has_automation,
            experimental,
            last_state_refresh: if now >= 60_000 { now - 60_000 } else { now },
            last_observed_reprobe: now,
        }
    }

    /// How long to wait for a message.
    pub fn ui_wait(&self) -> (r: u64)
        ensures
            r == (if self.coalescer.pending is Some || self.coalescer.in_flight is Some {
                BUSY_WAIT
            } else {
                IDLE_WAIT
            }),
    {
        if self.coalescer.has_work() { BUSY_WAIT } else { IDLE_WAIT }
    }

    /// What a message changes in the read model.
    pub open spec fn reduced(self, msg: PumpMsg, state: AppState, at: u64) -> AppState {
        match msg {
            PumpMsg::Dispatch(knob, cmd) => {
                let status = match gate_error(
                    cmd,
                    self.registry,
                    state.caps,
                    state.observed.mux_write_verified,
                    self.has_control,
                    self.experimental,
                ) {
                    Some(error) => KnobStatus::Failed { error, at_epoch_ms: at },
                    None => KnobStatus::Pending,
                };
                AppState { knobs: state.knobs.with(knob, status), ..state }
            },
            PumpMsg::UseCaptureBaseline => AppState { capture_baseline: state.capture_report, ..state },
            _ => state,
        }
    }

    /// Takes a message: what it changes at once, and what is left to do.
    pub fn handle_pump_msg(&mut self, state: &mut AppState, msg: PumpMsg, at: u64) -> (r: PumpAction)
        requires
            old(self).wf(),
        ensures
            final(self).wf(),
            // The queue changes by an accepted command only.
            *final(self) == (match msg {
                PumpMsg::Dispatch(knob, cmd) => if gate_error(
                    cmd,
                    old(self).registry,
                    old(state).caps,
                    old(state).observed.mux_write_verified,
                    old(self).has_control,
                    old(self).experimental,
                ) is None {
                    Pump {
                        coalescer: Coalescer { pending: Some((knob, cmd)), ..old(self).coalescer },
                        ..*old(self)
                    }
                } else {
                    *old(self)
                },
                _ => *old(self),
            }),
            match msg {
                PumpMsg::StartCapture { pid, seconds, label } => if old(state).capture_running {
                    &&& r is Nothing
                    &&& *final(state) == *old(state)
                } else {
                    &&& r == (PumpAction::StartCapture { pid, seconds, label })
                    &&& final(state).capture_notice matches Some(n) && n@ == "正在采集帧时间…"@
                    &&& *final(state) == (AppState {
                        capture_running: true,
                        capture_notice: final(state).capture_notice,
                        ..*old(state)
                    })
                },
                _ => *final(state) == old(self).reduced(msg, *old(state), at),
            },
            match msg {
                PumpMsg::StartCapture { .. } => true,
                PumpMsg::StopCapture => r is StopCapture,
                PumpMsg::UseCaptureBaseline => r is Nothing,
                PumpMsg::ExportDiagnostics => r is ExportDiagnostics,
                PumpMsg::Dispatch(_, _) => r is Nothing,
                PumpMsg::SaveProfile(name, profile) => r == PumpAction::SaveProfile(name, profile),
                PumpMsg::RefreshProfiles => r is LoadProfiles,
                PumpMsg::ConfigureAutomation(config) => if old(self).has_automation {
                    r == PumpAction::ConfigureAutomation(config)
                } else {
                    r is Nothing
                },
                PumpMsg::Shutdown => r is Shutdown,
            },
    {
        match msg {
            PumpMsg::StartCapture { pid, seconds, label } => {
                if state.capture_running {
                    return PumpAction::Nothing;
                }
                state.capture_running = true;
                state.capture_notice = Some(String::from_str("正在采集帧时间…"));
                PumpAction::StartCapture { pid, seconds, label }
            },
            PumpMsg::StopCapture => PumpAction::StopCapture,
            PumpMsg::UseCaptureBaseline => {
                state.capture_baseline =
                match &state.capture_report {
                    Some(report) => Some(report.clone()),
                    None => None,
                };
                PumpAction::Nothing
            },
            PumpMsg::ExportDiagnostics => PumpAction::ExportDiagnostics,
            PumpMsg::Dispatch(knob, cmd) => {
                match dispatch_gate(&cmd, &self.registry, state, self.has_control, self.experimental) {
                    Some(error) => {
                        state.set_knob(knob, KnobStatus::Failed { error, at_epoch_ms: at });
                    },
                    None => {
                        self.coalescer.enqueue(knob, cmd);
                        state.set_knob(knob, KnobStatus::Pending);
                    },
                }
                PumpAction::Nothing
            },
            PumpMsg::SaveProfile(name, profile) => PumpAction::SaveProfile(name, profile),
            PumpMsg::RefreshProfiles => PumpAction::LoadProfiles,
            PumpMsg::ConfigureAutomation(config) => if self.has_automation {
                PumpAction::ConfigureAutomation(config)
            } else {
                PumpAction::Nothing
            },
            PumpMsg::Shutdown => PumpAction::Shutdown,
        }
    }

    /// A profile was saved, and the registry read again; or it was not.
    pub fn profile_saved(&mut self, state: &mut AppState, name: &str, result: Result<ProfileRegistry, String>)
        ensures
            match result {
                Ok(registry) => {
                    &&& *final(self) == (Pump { registry, ..*old(self) })
                    &&& final(state).profile_notice matches Some(n) && n@ == "已保存配置档："@ + name@
                },
                Err(why) => {
                    &&& *final(self) == *old(self)
                    &&& final(state).profile_notice == Some(why)
                },
            },
            final(state).profiles@ == final(self).registry.entries@.map_values(
                |e: ProfileEntry| super::state::summary_of(e),
            ),
            *final(state) == (AppState {
                profiles: final(state).profiles,
                profile_notice: final(state).profile_notice,
                ..*old(state)
            }),
    {
        let notice = match result {
            Ok(registry) => {
                self.registry = registry;
                let mut n = String::from_str("已保存配置档：");
                n.append(name);
                n
            },
            Err(why) => why,
        };
        state.set_profiles(&self.registry);
        state.profile_notice = Some(notice);
    }

    /// The registry was read again, with warnings where there were any.
    pub fn profiles_loaded(&mut self, state: &mut AppState, registry: ProfileRegistry, warnings: Option<String>)
        ensures
            *final(self) == (Pump { registry, ..*old(self) }),
            final(state).profiles@ == registry.entries@.map_values(
                |e: ProfileEntry| super::state::summary_of(e),
            ),
            *final(state) == (AppState {
                profiles: final(state).profiles,
                profile_notice: warnings,
                ..*old(state)
            }),
    {
        state.profile_notice = warnings;
        state.set_profiles(&registry);
        self.registry = registry;
    }

    /// Takes the command that may go to the writer now, if any.
    pub fn release(&mut self, state: &mut AppState, now: u64, at: u64) -> (r: Option<(KnobId, ControlCommand)>)
        requires
            old(self).wf(),
        ensures
            final(self).wf(),
            ({
                let ready = old(self).coalescer.ready(now);
                let due = if ready { old(self).coalescer.pending } else { None };
                &&& *final(self) == (if ready {
                    Pump { coalescer: Coalescer { pending: None, ..old(self).coalescer }, ..*old(self) }
                } else {
                    *old(self)
                })
                &&& r == (if old(self).has_control { due } else { None })
                &&& *final(state) == (if due is Some && !old(self).has_control {
                    AppState {
                        knobs: old(state).knobs.with(
                            (due->0).0,
                            KnobStatus::Failed {
                                error: ControlError::BackendUnavailable { what: Missing::TelemetryOnly },
                                at_epoch_ms: at,
                            },
                        ),
                        ..*old(state)
                    }
                } else {
                    *old(state)
                })
            }),
    {
        match self.coalescer.poll(now) {
            None => None,
            Some((knob, command)) => if self.has_control {
                Some((knob, command))
            } else {
                state.set_knob(
                    knob,
                    KnobStatus::Failed {
                        error: ControlError::BackendUnavailable { what: Missing::TelemetryOnly },
                        at_epoch_ms: at,
                    },
                );
                None
            },
        }
    }

    /// The writer has answered the dispatch: it took the command, it is busy,
    /// or it refused.
    pub fn dispatched(
        &mut self,
        state: &mut AppState,
        knob: KnobId,
        command: ControlCommand,
        result: Result<ControlReceipt, ControlError>,
        now: u64,
        at: u64,
    )
        requires
            old(self).wf(),
            old(self).in_flight is None,
        ensures
            final(self).wf(),
            ({
                let queue = old(self).coalescer;
                let late = age(now, queue.busy_start(now)) >= queue.busy_timeout;
                let status = match result {
                    Ok(receipt) => KnobStatus::InFlight(receipt),
                    Err(ControlError::Busy) => if late {
                        KnobStatus::Failed { error: ControlError::Busy, at_epoch_ms: at }
                    } else {
                        KnobStatus::Pending
                    },
                    Err(error) => KnobStatus::Failed { error, at_epoch_ms: at },
                };
                &&& *final(state) == (AppState { knobs: old(state).knobs.with(knob, status), ..*old(state) })
                &&& *final(self) == (Pump {
                    in_flight: match result {
                        Ok(receipt) => Some((receipt, knob)),
                        Err(_) => None,
                    },
                    coalescer: match result {
                        Ok(receipt) => Coalescer {
                            in_flight: Some(receipt),
                            next_attempt_at: Some(after(now, queue.min_interval)),
                            busy_since: None,
                            ..queue
                        },
                        Err(ControlError::Busy) => if late {
                            Coalescer { pending: None, busy_since: None, ..queue }
                        } else {
                            Coalescer {
                                pending: Some((knob, command)),
                                next_attempt_at: Some(after(now, queue.busy_backoff)),
                                busy_since: Some(queue.busy_start(now)),
                                ..queue
                            }
                        },
                        Err(_) => Coalescer { busy_since: None, ..queue },
                    },
                    ..*old(self)
                })
            }),
    {
        match result {
            Ok(receipt) => {
                self.coalescer.note_dispatched(receipt, now);
                self.in_flight = Some((receipt, knob));
                state.set_knob(knob, KnobStatus::InFlight(receipt));
            },
            Err(ControlError::Busy) => match self.coalescer.note_busy(knob, command, now) {
                BusyVerdict::Retry => {
                    state.set_knob(knob, KnobStatus::Pending);
                },
                BusyVerdict::TimedOut => {
                    state.set_knob(knob, KnobStatus::Failed { error: ControlError::Busy, at_epoch_ms: at });
                },
            },
            Err(error) => {
                self.coalescer.note_dispatch_error();
                state.set_knob(knob, KnobStatus::Failed { error, at_epoch_ms: at });
            },
        }
    }

    /// The command with the writer has ended: with an outcome, or because the
    /// writer is gone.
    pub fn finished(&mut self, state: &mut AppState, outcome: Option<ControlOutcome>, at: u64)
        requires
            old(self).wf(),
            old(self).in_flight is Some,
        ensures
            final(self).wf(),
            *final(self) == (Pump {
                in_flight: None,
                coalescer: Coalescer { in_flight: None, busy_since: None, ..old(self).coalescer },
                ..*old(self)
            }),
            ({
                let knob = (old(self).in_flight->0).1;
                *final(state) == (match outcome {
                    Some(o) => AppState {
                        knobs: old(state).knobs.with(knob, outcome_status(o.status, at)),
                        last_outcome: Some(o),
                        ..*old(state)
                    },
                    None => AppState {
                        knobs: old(state).knobs.with(
                            knob,
                            KnobStatus::Failed {
                                error: ControlError::BackendUnavailable { what: Missing::ChannelGone },
                                at_epoch_ms: at,
                            },
                        ),
                        ..*old(state)
                    },
                })
            }),
    {
        if let Some((_, knob)) = self.in_flight {
            self.in_flight = None;
            self.coalescer.note_completed();
            match outcome {
                Some(o) => {
                    state.apply_outcome(knob, o, at);
                },
                None => {
                    state.set_knob(
                        knob,
                        KnobStatus::Failed {
                            error: ControlError::BackendUnavailable { what: Missing::ChannelGone },
                            at_epoch_ms: at,
                        },
                    );
                },
            }
        }
    }

    /// Whether the read model is to be refreshed now.
    pub fn refresh_due(&mut self, now: u64) -> (r: bool)
        ensures
            r == (age(now, old(self).last_state_refresh) >= REFRESH_PERIOD),
            *final(self) == (if r { Pump { last_state_refresh: now, ..*old(self) } } else { *old(self) }),
    {
        if elapsed(now, self.last_state_refresh) >= REFRESH_PERIOD {
            self.last_state_refresh = now;
            true
        } else {
            false
        }
    }

    /// Whether the writer is to be asked to read the hardware again.
    pub fn reprobe_due(&mut self, now: u64) -> (r: bool)
        ensures
            r == (age(now, old(self).last_observed_reprobe) >= REPROBE_PERIOD),
            *final(self) == (if r { Pump { last_observed_reprobe: now, ..*old(self) } } else { *old(self) }),
    {
        if elapsed(now, self.last_observed_reprobe) >= REPROBE_PERIOD {
            self.last_observed_reprobe = now;
            true
        } else {
            false
        }
    }

    /// The steps of ending, in order.
    pub open spec fn exit_order(exit: PumpExit, has_automation: bool) -> Seq<ExitStep> {
        let head = match exit {
            PumpExit::TelemetryLost => Seq::empty(),
            _ => seq![ExitStep::StopCapture],
        };
        let automation = if has_automation { seq![ExitStep::ShutDownAutomation] } else { Seq::empty() };
        let tail = match exit {
            PumpExit::Asked => seq![ExitStep::Acknowledge],
            PumpExit::TelemetryLost => seq![ExitStep::ServeShutdownOnly],
            PumpExit::PagesGone => Seq::empty(),
        };
        head + automation + seq![ExitStep::ShutDownEngine] + tail
    }

    /// The steps of ending, in order.
    pub fn exit_steps(&self, exit: PumpExit) -> (r: Vec<ExitStep>)
        ensures
            r@ == Pump::exit_order(exit, self.has_automation),
    {
        let mut steps: Vec<ExitStep> = Vec::new();
        match exit {
            PumpExit::TelemetryLost => {},
            _ => {
                steps.push(ExitStep::StopCapture);
            },
        }
        if self.has_automation {
            steps.push(ExitStep::ShutDownAutomation);
        }
        steps.push(ExitStep::ShutDownEngine);
        match exit {
            PumpExit::Asked => {
                steps.push(ExitStep::Acknowledge);
            },
            PumpExit::TelemetryLost => {
                steps.push(ExitStep::ServeShutdownOnly);
            },
            PumpExit::PagesGone => {},
        }
        assert(steps@ =~= Pump::exit_order(exit, self.has_automation));
        steps
    }
}

/// However the pump ends, the engine is shut down exactly once, automation
/// before it, and a page that waits is answered only afterwards.
pub proof fn engine_ends_before_the_answer(exit: PumpExit, has_automation: bool)
    ensures
        ({
            let steps = Pump::exit_order(exit, has_automation);
            &&& steps.contains(ExitStep::ShutDownEngine)
            &&& forall|i: int, j: int|
                0 <= i < steps.len() && 0 <= j < steps.len() && (#[trigger] steps[j]) is ShutDownEngine ==> {
                    &&& (#[trigger] steps[i]) is Acknowledge ==> j < i
                    &&& steps[i] is ShutDownAutomation ==> i < j
                    &&& steps[i] is ShutDownEngine ==> i == j
                }
        }),
{
    let steps = Pump::exit_order(exit, has_automation);
    let at = (if exit is TelemetryLost { 0int } else { 1int }) + (if has_automation { 1int } else { 0int });
    assert(steps[at] is ShutDownEngine);
}

/// Without a writer no command reaches the queue.
pub proof fn nothing_is_queued_without_a_writer(
    cmd: ControlCommand,
    registry: ProfileRegistry,
    caps: Option<CapabilitySet>,
    mux_proven: bool,
    experimental: bool,
)
    ensures
        gate_error(cmd, registry, caps, mux_proven, false, experimental) is Some,
{
}

} // verus!
