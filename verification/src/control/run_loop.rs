//! The writer's loop: which request runs, which waits and which is turned
//! away; when the safety net and the heartbeat are due; and how long to sleep.
use vstd::prelude::*;

use super::coordinator::{ControlConfig, ControlCoordinator, QUEUE_DEPTH};
use super::fan_curve::FanCurveController;
use super::keepalive::KeepAliveService;
use super::mux::MuxLifecycle;
use super::recovery::{unfinished, RecoveryRecord};
use super::safety::{SafetyAction, SafetySupervisor, ThermalFeed};
use super::stamp::{initial_observed, with_gpu, with_rails, PpmReads};
use crate::domain::command::{ControlCommand, ControlOutcome, ControlReceipt};
use crate::domain::error::{ControlError, Missing};
use crate::domain::evidence::{FanSample, PowerSample};
use crate::domain::policy::{FanCurve, FanLevels, GpuPlatformPolicy, MuxMode, WindowsPpmState};
use crate::domain::state::{Channel, ControlNotice, DesiredState, ObservedState, ObservedValue};

verus! {

/// What the machine was found to be when the writer starts.
#[derive(Debug, PartialEq)]
pub struct StartReadings {
    pub windows_ppm: Option<WindowsPpmState>,
    pub ppm: PpmReads,
    pub gpu_policy: Option<GpuPlatformPolicy>,
    pub mux: Option<MuxMode>,
    pub saved_curve: Option<FanCurve>,
    /// The ledger that an earlier session left behind.
    pub ledger: Option<RecoveryRecord>,
}

/// An unfinished earlier session.
pub open spec fn earlier(ledger: Option<RecoveryRecord>) -> Option<RecoveryRecord> {
    match ledger {
        Some(record) => if record.spec_pending() { Some(record) } else { None },
        None => None,
    }
}

impl ControlCoordinator {
    /// The state of a writer that has written nothing: no debts, nothing
    /// desired, and of the machine only what was read. An unfinished earlier
    /// session is announced.
    pub fn start(config: ControlConfig, mux_lifecycle: MuxLifecycle, readings: StartReadings, now: u64) -> (r:
        ControlCoordinator)
        ensures
            r.caps == config.caps,
            r.hp_present == config.hp_present,
            r.safety == (SafetySupervisor {
                override_saved: None,
                experimental_power_limits: config.experimental_power_limits,
            }),
            r.fan_curve == FanCurveController::spec_new(),
            r.keepalive == KeepAliveService::spec_idle(config.keepalive_period),
            r.profiles == config.profiles,
            r.verify_polls == config.verify_polls,
            r.verify_poll_interval == config.verify_poll_interval,
            r.safety_tick == config.safety_tick,
            r.verification_requested is None,
            r.control_epoch == 0,
            r.board == config.board,
            r.bios == config.bios,
            r.previous_recovery == earlier(readings.ledger),
            r.scoped_session is None,
            r.mux_lifecycle == mux_lifecycle,
            r.desired == DesiredState::spec_blank(),
            r.windows_ppm == readings.windows_ppm,
            r.gpu_policy_startup == readings.gpu_policy,
            r.power_limits_baseline is None,
            !r.fan_control_dirty && !r.thermal_mode_dirty && !r.gpu_policy_dirty && !r.power_limits_dirty,
            r.last_saved_fan_curve == readings.saved_curve,
            r.observed == started_observed(
                with_gpu(
                    match readings.windows_ppm {
                        Some(state) => with_rails(ObservedState::spec_blank(), state.ac, state.dc, now),
                        None => with_rails(
                            ObservedState::spec_blank(),
                            readings.ppm.ac_rail(),
                            readings.ppm.dc_rail(),
                            now,
                        ),
                    },
                    readings.gpu_policy,
                    now,
                ),
                mux_lifecycle,
                readings,
                now,
            ),
    {
        let mut observed = initial_observed(readings.windows_ppm.as_ref(), &readings.ppm, readings.gpu_policy, now);
        let previous_recovery = unfinished(readings.ledger);
        if previous_recovery.is_some() {
            observed.control_notice = Some(ControlNotice::PreviousSession);
        }
        if let Some(value) = readings.mux {
            observed.mux = ObservedValue::Verified { value, at: now, source: Channel::Mux };
        }
        observed.mux_status = Some(mux_lifecycle.status.clone());
        observed.mux_write_verified = mux_lifecycle.writable;
        ControlCoordinator {
            caps: config.caps,
            hp_present: config.hp_present,
            safety: SafetySupervisor::with_experimental(config.experimental_power_limits),
            fan_curve: FanCurveController::new(),
            keepalive: KeepAliveService::with_period(config.keepalive_period),
            profiles: config.profiles,
            verify_polls: config.verify_polls,
            verify_poll_interval: config.verify_poll_interval,
            safety_tick: config.safety_tick,
            verification_requested: None,
            control_epoch: 0,
            board: config.board,
            bios: config.bios,
            previous_recovery,
            scoped_session: None,
            mux_lifecycle,
            desired: DesiredState::default(),
            observed,
            windows_ppm: readings.windows_ppm,
            gpu_policy_startup: readings.gpu_policy,
            gpu_policy_dirty: false,
            power_limits_baseline: None,
            power_limits_dirty: false,
            fan_control_dirty: false,
            thermal_mode_dirty: false,
            last_saved_fan_curve: readings.saved_curve,
        }
    }
}

/// What was read, with the multiplexer and an unfinished earlier session.
pub open spec fn started_observed(
    o: ObservedState,
    mux: MuxLifecycle,
    readings: StartReadings,
    now: u64,
) -> ObservedState {
    ObservedState {
        control_notice: if earlier(readings.ledger) is Some {
            Some(ControlNotice::PreviousSession)
        } else {
            o.control_notice
        },
        mux: match readings.mux {
            Some(value) => ObservedValue::Verified { value, at: now, source: Channel::Mux },
            None => o.mux,
        },
        mux_status: Some(mux.status),
        mux_write_verified: mux.writable,
        ..o
    }
}

/// What a request to the writer is about.
#[derive(Clone, Copy, Debug, PartialEq, Eq, Structural)]
pub enum RequestKind {
    Dispatch,
    RefreshObserved,
    ReplaceProfiles,
    Shutdown,
}

/// What becomes of a request.
#[derive(Clone, Copy, Debug, PartialEq, Eq, Structural)]
pub enum Admission {
    /// It runs now.
    Run,
    /// It waits behind the active plan; new profiles are acknowledged.
    Queue,
    /// Too many wait: a command is answered as busy.
    AnswerBusy,
    /// Too many wait: the profiles have to be sent again.
    AskAgain,
    /// Too many wait: a refresh is dropped, the old stamps stay.
    Drop,
    /// Everything stops: an active plan ends, nothing that waits ever runs,
    /// and the machine is handed back.
    StopNow,
}

/// What becomes of a request: a shutdown never waits; any other request
/// waits while a plan is active, as long as there is room.
pub open spec fn admission(kind: RequestKind, plan_active: bool, queued: int) -> Admission {
    if kind == RequestKind::Shutdown {
        Admission::StopNow
    } else if !plan_active {
        Admission::Run
    } else if queued < QUEUE_DEPTH {
        Admission::Queue
    } else {
        match kind {
            RequestKind::Dispatch => Admission::AnswerBusy,
            RequestKind::ReplaceProfiles => Admission::AskAgain,
            _ => Admission::Drop,
        }
    }
}

/// Decides on a request.
pub fn decide_admission(kind: RequestKind, plan_active: bool, queued: usize) -> (r: Admission)
    ensures
        r == admission(kind, plan_active, queued as int),
{
    match kind {
        RequestKind::Shutdown => Admission::StopNow,
        _ => if !plan_active {
            Admission::Run
        } else if queued < QUEUE_DEPTH {
            Admission::Queue
        } else {
            match kind {
                RequestKind::Dispatch => Admission::AnswerBusy,
                RequestKind::ReplaceProfiles => Admission::AskAgain,
                _ => Admission::Drop,
            }
        },
    }
}

/// A command is never dropped silently and never runs beside an active plan:
/// it runs alone, waits, or is answered as busy. New profiles are never
/// dropped either, and a shutdown always gets through.
pub proof fn no_command_is_lost(plan_active: bool, queued: int)
    ensures
        admission(RequestKind::Dispatch, plan_active, queued) != Admission::Drop,
        plan_active ==> admission(RequestKind::Dispatch, plan_active, queued) != Admission::Run,
        admission(RequestKind::ReplaceProfiles, plan_active, queued) != Admission::Drop,
        admission(RequestKind::Shutdown, plan_active, queued) == Admission::StopNow,
{
}

/// The work of one tick.
#[derive(Clone, Copy, Debug, PartialEq, Eq, Structural)]
pub enum TickWork {
    /// The safety net acts.
    Protect(SafetyAction),
    /// The software curve is evaluated.
    Curve,
    /// An override holds the fans; the curve rests.
    Rest,
}

/// Begins a tick: the safety net comes first, and the curve only runs while
/// nothing overrides it.
pub fn begin_tick(c: &mut ControlCoordinator, feed: &ThermalFeed, now: u64) -> (r: TickWork)
    ensures
        ({
            let (action, saved) = old(c).safety.verdict(*feed, old(c).observed, now);
            &&& *final(c) == (ControlCoordinator {
                safety: SafetySupervisor { override_saved: saved, ..old(c).safety },
                ..*old(c)
            })
            &&& r == (match action {
                Some(action) => TickWork::Protect(action),
                None => if saved is None { TickWork::Curve } else { TickWork::Rest },
            })
        }),
{
    let mut safety = c.safety;
    let action = safety.evaluate(feed, &c.observed, now);
    c.safety = safety;
    match action {
        Some(action) => TickWork::Protect(action),
        None => if c.safety.override_active() { TickWork::Rest } else { TickWork::Curve },
    }
}

/// Ends a tick: a readback that a safety release asked for is dropped, so
/// that it never stands in for the one of a user's plan.
pub fn end_tick(c: &mut ControlCoordinator)
    ensures
        *final(c) == (ControlCoordinator { verification_requested: None, ..*old(c) }),
{
    c.verification_requested = None;
}

/// Whether a tick is due: the safety cadence has passed, or a heartbeat is
/// due.
pub fn tick_due(c: &ControlCoordinator, next_safety: u64, now: u64) -> (r: bool)
    ensures
        r == (now >= next_safety || c.keepalive.due(now)),
{
    now >= next_safety || c.keepalive.is_due(now)
}

/// Milliseconds from `now` to `at`, 0 where `at` has passed.
pub open spec fn remaining(now: u64, at: u64) -> u64 {
    if at >= now { (at - now) as u64 } else { 0 }
}

/// The smaller of two waits.
pub open spec fn shorter(a: u64, b: u64) -> u64 {
    if b < a { b } else { a }
}

/// How long the loop may sleep: until the first of the writer's own wait, the
/// next tick, and the next readback of an active plan.
pub open spec fn spec_loop_wait(c: ControlCoordinator, next_safety: u64, plan_due: Option<u64>, now: u64) -> u64 {
    let tick = shorter(c.spec_wait(now), remaining(now, next_safety));
    match plan_due {
        Some(due) => shorter(tick, remaining(now, due)),
        None => tick,
    }
}

/// The loop sleeps past nothing that is scheduled, and where no heartbeat is,
/// no longer than the idle wait.
pub proof fn loop_never_oversleeps(c: ControlCoordinator, next_safety: u64, plan_due: Option<u64>, now: u64)
    ensures
        ({
            let wait = spec_loop_wait(c, next_safety, plan_due, now);
            &&& wait <= remaining(now, next_safety)
            &&& plan_due matches Some(due) ==> wait <= remaining(now, due)
            &&& c.keepalive.next_due matches Some(due) ==> wait <= remaining(now, due)
            &&& c.keepalive.next_due is None ==> wait <= super::coordinator::IDLE_WAIT
            &&& super::coordinator::fans_held(c) ==> wait <= c.safety_tick
        }),
{
}

/// How long the loop may sleep.
pub fn loop_wait(c: &ControlCoordinator, next_safety: u64, plan_due: Option<u64>, now: u64) -> (r: u64)
    ensures
        r == spec_loop_wait(*c, next_safety, plan_due, now),
{
    let mut wait: u64 = c.compute_wait(now);
    let tick: u64 = if next_safety >= now { next_safety - now } else { 0 };
    if tick < wait {
        wait = tick;
    }
    if let Some(due) = plan_due {
        let left: u64 = if due >= now { due - now } else { 0 };
        if left < wait {
            wait = left;
        }
    }
    wait
}

/// Numbers the commands that are dispatched, and counts the manual ones.
#[derive(Clone, Copy, Debug, PartialEq, Eq, Structural)]
pub struct Dispatcher {
    pub receipt_next: u64,
    pub manual_generation: u64,
}

/// The state of the queue to the writer.
#[derive(Clone, Copy, Debug, PartialEq, Eq, Structural)]
pub enum QueueState {
    Open,
    Full,
    Gone,
}

/// A command of the user, not of an automatic session.
pub open spec fn is_manual(cmd: ControlCommand) -> bool {
    !(cmd is ApplyScopedProfile) && !(cmd is RestoreScopedProfile)
}

impl Dispatcher {
    pub fn new() -> (r: Dispatcher)
        ensures
            r == (Dispatcher { receipt_next: 1, manual_generation: 0 }),
    {
        Dispatcher { receipt_next: 1, manual_generation: 0 }
    }

    /// Numbers a command. A number is used up even if the queue does not take
    /// the command; only a manual command that was taken is counted.
    pub fn dispatch(&mut self, cmd: &ControlCommand, queue: QueueState) -> (r: Result<ControlReceipt, ControlError>)
        ensures
            final(self).receipt_next == (if old(self).receipt_next == u64::MAX {
                0
            } else {
                (old(self).receipt_next + 1) as u64
            }),
            final(self).manual_generation == (if is_manual(*cmd) && queue == QueueState::Open {
                if old(self).manual_generation == u64::MAX { 0 } else { (old(self).manual_generation + 1) as u64 }
            } else {
                old(self).manual_generation
            }),
            r == (match queue {
                QueueState::Open => Ok::<ControlReceipt, ControlError>(ControlReceipt(old(self).receipt_next)),
                QueueState::Full => Err::<ControlReceipt, ControlError>(ControlError::Busy),
                QueueState::Gone => Err::<ControlReceipt, ControlError>(
                    ControlError::BackendUnavailable { what: Missing::Coordinator },
                ),
            }),
    {
        let receipt = ControlReceipt(self.receipt_next);
        self.receipt_next = if self.receipt_next == u64::MAX { 0 } else { self.receipt_next + 1 };
        match queue {
            QueueState::Open => {
                let manual = !matches!(
                    cmd,
                    ControlCommand::ApplyScopedProfile { .. } | ControlCommand::RestoreScopedProfile { .. }
                );
                if manual {
                    self.manual_generation = if self.manual_generation == u64::MAX {
                        0
                    } else {
                        self.manual_generation + 1
                    };
                }
                Ok(receipt)
            },
            QueueState::Full => Err(ControlError::Busy),
            QueueState::Gone => Err(ControlError::BackendUnavailable { what: Missing::Coordinator }),
        }
    }
}

/// How the wait for an outcome ended.
#[derive(Debug, PartialEq)]
pub enum Awaited {
    Outcome(ControlOutcome),
    TimedOut,
    Gone,
}

/// The result of a command that was waited for.
pub fn blocking_result(awaited: Awaited) -> (r: Result<ControlOutcome, ControlError>)
    ensures
        r == (match awaited {
            Awaited::Outcome(o) => Ok::<ControlOutcome, ControlError>(o),
            Awaited::TimedOut => Err::<ControlOutcome, ControlError>(ControlError::Timeout),
            Awaited::Gone => Err::<ControlOutcome, ControlError>(
                ControlError::BackendUnavailable { what: Missing::Coordinator },
            ),
        }),
{
    match awaited {
        Awaited::Outcome(o) => Ok(o),
        Awaited::TimedOut => Err(ControlError::Timeout),
        Awaited::Gone => Err(ControlError::BackendUnavailable { what: Missing::Coordinator }),
    }
}

/// A speed in firmware levels of 100 RPM, rounded to the nearest.
pub open spec fn level_of(rpm: u32) -> u16 {
    let level = (rpm + 50) / 100;
    if level > 65_535 { 65_535 } else { level as u16 }
}

fn to_level(rpm: u32) -> (r: u16)
    ensures
        r == level_of(rpm),
{
    let level: u64 = (rpm as u64 + 50) / 100;
    if level > 65_535 { 65_535 } else { level as u16 }
}

/// The fan sample of two tachometer readings; a pair is as fresh as its older
/// reading.
pub fn fan_sample(left_rpm: u32, left_at: u64, right_rpm: u32, right_at: u64) -> (r: FanSample)
    ensures
        r == (FanSample {
            levels: FanLevels { left: level_of(left_rpm), right: level_of(right_rpm) },
            at: if left_at <= right_at { left_at } else { right_at },
        }),
{
    FanSample {
        levels: FanLevels { left: to_level(left_rpm), right: to_level(right_rpm) },
        at: if left_at <= right_at { left_at } else { right_at },
    }
}

/// The power sample of two limit readings; a pair is as fresh as its older
/// reading.
pub fn power_sample(pl1_mw: u64, pl1_at: u64, pl2_mw: u64, pl2_at: u64) -> (r: PowerSample)
    ensures
        r == (PowerSample { pl1_mw, pl2_mw, at: if pl1_at <= pl2_at { pl1_at } else { pl2_at } }),
{
    PowerSample { pl1_mw, pl2_mw, at: if pl1_at <= pl2_at { pl1_at } else { pl2_at } }
}

} // verus!
