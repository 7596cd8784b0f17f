//! The hand-back: only what this session changed returns to its safe
//! baseline. Every owed part is attempted even if an earlier one fails; the
//! fans come first. Windows processor settings stay, unless an automatic
//! session owes them.
use vstd::pervasive::unreached;
use vstd::prelude::*;

use super::cpu::{after_cpu, cpu_status, cpu_steps, exec_cpu_policy};
use super::fan::max_fan_written;
use crate::control::coordinator::ControlCoordinator;
use crate::control::exchange::{saved_result, written_result, CpuResults, HpWrite, Progress, Reply, Request};
use crate::control::fan_curve::FanCurveController;
use crate::control::journal::{event_views, log_event, EventView, JournalEvent, JournalOrigin};
use crate::control::safety::{age, elapsed, ThermalFeed};
use crate::control::stamp::{stamp_verified, trusted, verified, with_target};
use crate::control::verification::{PendingVerification, Readback};
use crate::domain::command::{
    control_status_succeeded, hp_written_step, written_step, ControlCommand, ControlReceipt, ControlStatus,
    FirmwareReturn, Note, Step, StepOutcome, Verification,
};
use crate::domain::error::{ControlError, HpWmiError, UnsafeReason};
use crate::domain::evidence::{Evidence, Target};
use crate::domain::policy::{
    CpuPolicy, CpuPowerLimits, FanLevels, FanMode, GpuPlatformPolicy, ThermalMode, WindowsPpmState,
};
use crate::domain::state::{Channel, ControlNotice, ObservedState, ObservedValue};
use crate::text::same_text;

verus! {

#[derive(Clone, Copy, Debug, PartialEq, Eq, Structural)]
pub enum RestoreStage {
    MaxOff,
    FanAuto,
    /// Forcing max fan because the fans could not be handed back.
    Rearm,
    GpuWrite,
    GpuPoll,
    PowerWrite,
    PowerPoll,
    Thermal,
    /// Reading the active power scheme of an automatic session.
    Scheme,
    ScopeCpu,
    Saving,
    Ended,
}

/// A hand-back under way.
#[derive(Clone, Copy, Debug, PartialEq, Eq, Structural)]
pub struct RestoreRun {
    pub origin: JournalOrigin,
    pub started: u64,
    /// All readbacks of one hand-back share this deadline.
    pub deadline: u64,
    pub scope_started: u64,
    /// What is owed.
    pub fan: bool,
    pub thermal: bool,
    pub gpu: bool,
    pub power: bool,
    /// What has been settled.
    pub fan_auto_ok: bool,
    pub max_off_ok: bool,
    pub thermal_ok: bool,
    pub gpu_ok: bool,
    pub power_ok: bool,
    pub scope_ok: bool,
    pub check: Option<PendingVerification>,
    pub stage: RestoreStage,
}

/// One turn of a hand-back: where it stands, the writer's state, all its
/// evidence so far, what is added to the journal, and what it does next.
pub ghost struct HandBack<R, C, S, E, P> {
    pub run: R,
    pub coordinator: C,
    pub steps: S,
    pub events: E,
    pub progress: P,
}

/// A turn of a hand-back.
pub type RestoreTurn = HandBack<RestoreRun, ControlCoordinator, Seq<StepOutcome>, Seq<EventView>, Progress>;

/// The end of the readback budget.
pub open spec fn verify_deadline(started: u64, interval: u64, polls: u32) -> u64 {
    let end = started + interval * (if polls >= 1 { polls as int } else { 1 }) + 5_000;
    if end > u64::MAX { u64::MAX } else { end as u64 }
}

fn deadline_after(started: u64, interval: u64, polls: u32) -> (r: u64)
    ensures
        r == verify_deadline(started, interval, polls),
{
    let n: u32 = if polls >= 1 { polls } else { 1 };
    assert(interval * n <= 0xFFFF_FFFF_FFFF_FFFF * 0xFFFF_FFFF) by (nonlinear_arith)
        requires
            0 <= interval <= 0xFFFF_FFFF_FFFF_FFFF,
            0 <= n <= 0xFFFF_FFFF,
    ;
    assert(interval * n >= 0) by (nonlinear_arith)
        requires
            0 <= interval,
            0 <= n,
    ;
    let end: u128 = started as u128 + interval as u128 * n as u128 + 5_000;
    if end > u64::MAX as u128 { u64::MAX } else { end as u64 }
}

impl RestoreRun {
    /// Nothing of the firmware is owed.
    pub open spec fn quiet(self) -> bool {
        !self.fan && !self.thermal && !self.gpu && !self.power
    }

    /// The fans are where they belong.
    pub open spec fn fan_restored(self) -> bool {
        !self.fan || (self.fan_auto_ok && self.max_off_ok)
    }

    /// Everything that was owed is settled.
    pub open spec fn restored(self) -> bool {
        self.fan_restored() && self.thermal_ok && self.gpu_ok && self.power_ok && self.scope_ok
    }

    /// The run waits for what its stage needs.
    pub open spec fn wf(self, c: ControlCoordinator) -> bool {
        match self.stage {
            RestoreStage::GpuPoll => self.check is Some,
            RestoreStage::PowerPoll => self.check is Some && c.power_limits_baseline is Some,
            RestoreStage::GpuWrite => c.gpu_policy_startup is Some,
            RestoreStage::PowerWrite => c.power_limits_baseline is Some,
            RestoreStage::Scheme => c.scoped_session matches Some(scope) && scope.scheme is Some,
            RestoreStage::ScopeCpu => c.scoped_session is Some,
            _ => true,
        }
    }

    /// The reply that the run waits for.
    pub open spec fn accepts(self, c: ControlCoordinator, reply: Reply) -> bool {
        match self.stage {
            RestoreStage::MaxOff | RestoreStage::FanAuto | RestoreStage::Rearm | RestoreStage::GpuWrite
            | RestoreStage::PowerWrite | RestoreStage::Thermal => reply is Written,
            RestoreStage::GpuPoll | RestoreStage::PowerPoll => reply is Polled,
            RestoreStage::Scheme => reply is Ppm,
            RestoreStage::ScopeCpu => reply matches Reply::Cpu(results) && results.covers(
                c.scoped_session->Some_0.baseline.cpu,
            ),
            RestoreStage::Saving => reply is Saved,
            RestoreStage::Ended => false,
        }
    }

    pub open spec fn asking(
        self,
        c: ControlCoordinator,
        steps: Seq<StepOutcome>,
        stage: RestoreStage,
        request: Request,
    ) -> RestoreTurn {
        HandBack {
            run: RestoreRun { stage, ..self },
            coordinator: c,
            steps,
            events: Seq::empty(),
            progress: Progress::Ask(request),
        }
    }

    /// The fans: the overlay is released first, unless it is known to be off.
    #[verifier::opaque]
    pub open spec fn to_fan(self, c: ControlCoordinator, steps: Seq<StepOutcome>, now: u64) -> RestoreTurn {
        if c.hp_present && self.fan {
            if !self.max_off_ok {
                self.asking(c, steps, RestoreStage::MaxOff, Request::Write(HpWrite::MaxFan(false)))
            } else {
                self.asking(
                    c,
                    steps,
                    RestoreStage::FanAuto,
                    Request::Write(HpWrite::FanLevels(FanLevels::spec_auto())),
                )
            }
        } else {
            self.to_gpu(c, steps, now)
        }
    }

    /// The GPU policy: back to the value found before the first write.
    #[verifier::opaque]
    pub open spec fn to_gpu(self, c: ControlCoordinator, steps: Seq<StepOutcome>, now: u64) -> RestoreTurn {
        if c.hp_present && self.gpu && c.gpu_policy_startup is Some {
            self.asking(
                c,
                steps,
                RestoreStage::GpuWrite,
                Request::Write(HpWrite::GpuPolicy(c.gpu_policy_startup->Some_0)),
            )
        } else {
            self.to_power(c, steps, now)
        }
    }

    /// The power limits: back to what was captured before the first write.
    #[verifier::opaque]
    pub open spec fn to_power(self, c: ControlCoordinator, steps: Seq<StepOutcome>, now: u64) -> RestoreTurn {
        if c.hp_present && self.power && c.power_limits_baseline is Some {
            self.asking(
                c,
                steps,
                RestoreStage::PowerWrite,
                Request::Write(HpWrite::PowerLimits(c.power_limits_baseline->Some_0)),
            )
        } else {
            self.to_thermal(c, steps, now)
        }
    }

    /// The thermal mode: back to balanced.
    #[verifier::opaque]
    pub open spec fn to_thermal(self, c: ControlCoordinator, steps: Seq<StepOutcome>, now: u64) -> RestoreTurn {
        if c.hp_present && self.thermal {
            self.asking(
                c,
                steps,
                RestoreStage::Thermal,
                Request::Write(HpWrite::Thermal(ThermalMode::Balanced)),
            )
        } else {
            self.to_scope(c, steps, now)
        }
    }

    /// The processor settings of an automatic session, under the power scheme
    /// it was started in.
    #[verifier::opaque]
    pub open spec fn to_scope(self, c: ControlCoordinator, steps: Seq<StepOutcome>, now: u64) -> RestoreTurn {
        let run = RestoreRun { scope_started: now, ..self };
        match c.scoped_session {
            None => RestoreRun { scope_ok: true, ..run }.to_ledger(c, steps, now),
            Some(scope) => if scope.scheme is Some {
                run.asking(c, steps, RestoreStage::Scheme, Request::ReadPpm)
            } else {
                run.asking(c, steps, RestoreStage::ScopeCpu, Request::ApplyCpu(scope.baseline.cpu))
            },
        }
    }

    /// The machine as known once the hand-back is over.
    pub open spec fn settled_observed(
        self,
        o: ObservedState,
        startup: Option<GpuPlatformPolicy>,
        baseline: Option<CpuPowerLimits>,
        now: u64,
    ) -> ObservedState {
        ObservedState {
            fan_mode: if self.fan && self.fan_auto_ok { trusted(FanMode::FirmwareAuto, now) } else { o.fan_mode },
            max_fan: if self.fan && self.max_off_ok { trusted(false, now) } else { o.max_fan },
            thermal_mode: if self.thermal && self.thermal_ok {
                trusted(ThermalMode::Balanced, now)
            } else {
                o.thermal_mode
            },
            gpu_platform_policy: if self.gpu && self.gpu_ok && startup is Some {
                verified(
                    o.gpu_platform_policy.known().unwrap_or(startup->Some_0),
                    now,
                    Channel::GpuPolicyRestoration,
                )
            } else {
                o.gpu_platform_policy
            },
            power_limits: if self.power && self.power_ok && baseline is Some {
                verified(baseline->Some_0, now, Channel::PowerLimitsRestoration)
            } else {
                o.power_limits
            },
            ..o
        }
    }

    /// The state with what was settled struck off.
    #[verifier::opaque]
    pub open spec fn settled(self, c: ControlCoordinator, now: u64) -> ControlCoordinator {
        ControlCoordinator {
            observed: self.settled_observed(c.observed, c.gpu_policy_startup, c.power_limits_baseline, now),
            fan_control_dirty: c.fan_control_dirty && !self.fan_restored(),
            fan_curve: if self.fan_restored() { FanCurveController::spec_new() } else { c.fan_curve },
            safety: if self.fan_restored() && self.fan {
                c.safety.spec_noted(FanMode::FirmwareAuto)
            } else {
                c.safety
            },
            thermal_mode_dirty: c.thermal_mode_dirty && !self.thermal_ok,
            gpu_policy_dirty: c.gpu_policy_dirty && !self.gpu_ok,
            power_limits_dirty: c.power_limits_dirty && !self.power_ok,
            ..c
        }.spec_rescheduled(now)
    }

    /// The ledger: what could not be settled stays in it.
    #[verifier::opaque]
    pub open spec fn to_ledger(self, c: ControlCoordinator, steps: Seq<StepOutcome>, now: u64) -> RestoreTurn {
        let after = if self.quiet() { c } else { self.settled(c, now) };
        self.asking(after, steps, RestoreStage::Saving, Request::SaveLedger(after.spec_ledger()))
    }

    pub open spec fn spec_start(c: ControlCoordinator, origin: JournalOrigin, now: u64) -> RestoreTurn {
        let opened = ControlCoordinator {
            control_epoch: if c.control_epoch == u64::MAX { 0 } else { (c.control_epoch + 1) as u64 },
            observed: ObservedState {
                active_profile: None,
                control_notice: Some(ControlNotice::HandedBack),
                ..c.observed
            },
            ..c
        };
        let run = RestoreRun {
            origin,
            started: now,
            deadline: verify_deadline(now, c.verify_poll_interval, c.verify_polls),
            scope_started: now,
            fan: c.fan_control_dirty,
            thermal: c.thermal_mode_dirty,
            gpu: c.gpu_policy_dirty,
            power: c.power_limits_dirty,
            fan_auto_ok: !c.fan_control_dirty,
            max_off_ok: !c.fan_control_dirty || c.observed.max_fan.known() == Some(false),
            thermal_ok: !c.thermal_mode_dirty,
            gpu_ok: !c.gpu_policy_dirty,
            power_ok: !c.power_limits_dirty,
            scope_ok: false,
            check: None,
            stage: RestoreStage::Ended,
        };
        if run.quiet() {
            run.to_scope(opened, Seq::empty(), now)
        } else {
            run.to_fan(opened, Seq::empty(), now)
        }
    }

    /// What an automatic session's restore leaves behind.
    #[verifier::opaque]
    pub open spec fn scope_done(
        self,
        c: ControlCoordinator,
        steps: Seq<StepOutcome>,
        status: ControlStatus,
        scope_steps: Seq<StepOutcome>,
        now: u64,
    ) -> RestoreTurn {
        let after = if status.succeeded() {
            ControlCoordinator { scoped_session: None, ..c }
        } else {
            ControlCoordinator {
                observed: ObservedState {
                    control_notice: Some(ControlNotice::ScopeRestoreIncomplete(status)),
                    ..c.observed
                },
                ..c
            }
        };
        let turn = RestoreRun { scope_ok: status.succeeded(), ..self }.to_ledger(after, steps, now);
        HandBack {
            events: seq![
                EventView {
                    origin: self.origin,
                    receipt: ControlReceipt(0),
                    command: ControlCommand::RestoreSession,
                    status,
                    steps: scope_steps,
                    duration: age(now, self.scope_started) as u64,
                },
            ],
            ..turn
        }
    }

    /// The verdict of a readback poll: a timely one, or a missed deadline.
    #[verifier::opaque]
    pub open spec fn poll_verdict(self, read: Readback, feed: ThermalFeed, now: u64) -> Option<Verification> {
        let check = self.check->Some_0;
        match check.spec_poll(read, feed, now).1 {
            Some(v) => Some(v),
            None => if now >= self.deadline {
                Some(
                    Verification::Failed {
                        expected: Evidence::Requested(check.target),
                        actual: Evidence::RestoreDeadline,
                    },
                )
            } else {
                None
            },
        }
    }

    /// The machine as known after a readback poll.
    #[verifier::opaque]
    pub open spec fn polled_observed(self, o: ObservedState, read: Readback, feed: ThermalFeed, now: u64) -> ObservedState {
        let (check, verdict) = self.check->Some_0.spec_poll(read, feed, now);
        if verdict == Some(Verification::Verified) {
            with_target(o, check.actual_target.unwrap_or(check.target), now)
        } else {
            o
        }
    }

    /// The state after a readback poll.
    #[verifier::opaque]
    pub open spec fn polled(self, c: ControlCoordinator, read: Readback, feed: ThermalFeed, now: u64) -> ControlCoordinator {
        ControlCoordinator { observed: self.polled_observed(c.observed, read, feed, now), ..c }
    }

    /// The evidence of a restore that is read back.
    pub open spec fn read_back_step(step: Step, after: Option<Note>, verification: Verification) -> StepOutcome {
        StepOutcome {
            step,
            firmware_return: FirmwareReturn::Accepted,
            before: Some(Note::Restore),
            after,
            verification,
        }
    }

    /// Waits for the readback of a restored value.
    pub open spec fn awaiting(
        self,
        c: ControlCoordinator,
        steps: Seq<StepOutcome>,
        target: Target,
        stage: RestoreStage,
        now: u64,
    ) -> RestoreTurn {
        let check = PendingVerification::spec_new(target, now, c.verify_polls, c.verify_poll_interval);
        RestoreRun { check: Some(check), ..self }.asking(c, steps, stage, Request::Poll { due: check.next_due })
    }

    #[verifier::opaque]
    pub open spec fn after_max_off(
        self,
        c: ControlCoordinator,
        steps: Seq<StepOutcome>,
        result: Result<(), HpWmiError>,
        now: u64,
    ) -> RestoreTurn {
        let more = steps.push(hp_written_step(Step::RestoreMaxFanOff, result, Note::Restore));
        if result is Ok {
            RestoreRun { max_off_ok: true, ..self }.asking(
                max_fan_written(c, false, now),
                more,
                RestoreStage::FanAuto,
                Request::Write(HpWrite::FanLevels(FanLevels::spec_auto())),
            )
        } else {
            self.asking(c, more, RestoreStage::Rearm, Request::Write(HpWrite::MaxFan(true)))
        }
    }

    #[verifier::opaque]
    pub open spec fn after_fan_auto(
        self,
        c: ControlCoordinator,
        steps: Seq<StepOutcome>,
        result: Result<(), HpWmiError>,
        now: u64,
    ) -> RestoreTurn {
        let more = steps.push(hp_written_step(Step::RestoreFanAuto, result, Note::Restore));
        if result is Ok {
            RestoreRun { fan_auto_ok: true, ..self }.to_gpu(c, more, now)
        } else {
            self.asking(c, more, RestoreStage::Rearm, Request::Write(HpWrite::MaxFan(true)))
        }
    }

    /// The machine is never left with user levels, no overlay and nobody to
    /// watch: if the fans could not be handed back, max fan is forced.
    #[verifier::opaque]
    pub open spec fn after_rearm(
        self,
        c: ControlCoordinator,
        steps: Seq<StepOutcome>,
        result: Result<(), HpWmiError>,
        now: u64,
    ) -> RestoreTurn {
        let more = steps.push(hp_written_step(Step::RestoreFallbackMaxFan, result, Note::FailedAutoRestore));
        if result is Ok {
            RestoreRun { max_off_ok: false, ..self }.to_gpu(max_fan_written(c, true, now), more, now)
        } else {
            self.to_gpu(c, more, now)
        }
    }

    #[verifier::opaque]
    pub open spec fn after_gpu_write(
        self,
        c: ControlCoordinator,
        steps: Seq<StepOutcome>,
        result: Result<(), HpWmiError>,
        now: u64,
    ) -> RestoreTurn {
        if result is Ok {
            self.awaiting(
                c,
                steps,
                Target::Gpu(c.gpu_policy_startup->Some_0, false),
                RestoreStage::GpuPoll,
                now,
            )
        } else {
            RestoreRun { gpu_ok: false, ..self }.to_power(
                c,
                steps.push(hp_written_step(Step::RestoreGpuPolicy, result, Note::Restore)),
                now,
            )
        }
    }

    #[verifier::opaque]
    pub open spec fn after_gpu_poll(
        self,
        c: ControlCoordinator,
        steps: Seq<StepOutcome>,
        read: Readback,
        feed: ThermalFeed,
        now: u64,
    ) -> RestoreTurn {
        let check = self.check->Some_0.spec_poll(read, feed, now).0;
        let run = RestoreRun { check: Some(check), ..self };
        match self.poll_verdict(read, feed, now) {
            None => run.asking(c, steps, RestoreStage::GpuPoll, Request::Poll { due: check.next_due }),
            Some(v) => RestoreRun { gpu_ok: v is Verified, ..run }.to_power(
                self.polled(c, read, feed, now),
                steps.push(RestoreRun::read_back_step(Step::RestoreGpuPolicy, None, v)),
                now,
            ),
        }
    }

    #[verifier::opaque]
    pub open spec fn after_power_write(
        self,
        c: ControlCoordinator,
        steps: Seq<StepOutcome>,
        result: Result<(), HpWmiError>,
        now: u64,
    ) -> RestoreTurn {
        if result is Ok {
            self.awaiting(
                c,
                steps,
                Target::Power(c.power_limits_baseline->Some_0),
                RestoreStage::PowerPoll,
                now,
            )
        } else {
            RestoreRun { power_ok: false, ..self }.to_thermal(
                c,
                steps.push(hp_written_step(Step::RestorePowerLimits, result, Note::Restore)),
                now,
            )
        }
    }

    #[verifier::opaque]
    pub open spec fn after_power_poll(
        self,
        c: ControlCoordinator,
        steps: Seq<StepOutcome>,
        read: Readback,
        feed: ThermalFeed,
        now: u64,
    ) -> RestoreTurn {
        let check = self.check->Some_0.spec_poll(read, feed, now).0;
        let run = RestoreRun { check: Some(check), ..self };
        match self.poll_verdict(read, feed, now) {
            None => run.asking(c, steps, RestoreStage::PowerPoll, Request::Poll { due: check.next_due }),
            Some(v) => RestoreRun { power_ok: v is Verified, ..run }.to_thermal(
                self.polled(c, read, feed, now),
                steps.push(
                    RestoreRun::read_back_step(
                        Step::RestorePowerLimits,
                        Some(Note::Limits(c.power_limits_baseline->Some_0)),
                        v,
                    ),
                ),
                now,
            ),
        }
    }

    #[verifier::opaque]
    pub open spec fn after_thermal(
        self,
        c: ControlCoordinator,
        steps: Seq<StepOutcome>,
        result: Result<(), HpWmiError>,
        now: u64,
    ) -> RestoreTurn {
        RestoreRun { thermal_ok: result is Ok, ..self }.to_scope(
            c,
            steps.push(hp_written_step(Step::RestoreThermal, result, Note::Restore)),
            now,
        )
    }

    #[verifier::opaque]
    pub open spec fn after_scheme(
        self,
        c: ControlCoordinator,
        steps: Seq<StepOutcome>,
        state: Option<WindowsPpmState>,
        now: u64,
    ) -> RestoreTurn {
        let scope = c.scoped_session->Some_0;
        if state matches Some(state) && state.active_scheme_guid@ == scope.scheme->Some_0@ {
            self.asking(c, steps, RestoreStage::ScopeCpu, Request::ApplyCpu(scope.baseline.cpu))
        } else {
            self.scope_done(
                c,
                steps,
                ControlStatus::Rejected {
                    error: ControlError::UnsafeRequest { reason: UnsafeReason::SchemeChanged },
                },
                Seq::empty(),
                now,
            )
        }
    }

    #[verifier::opaque]
    pub open spec fn after_scope_cpu(
        self,
        c: ControlCoordinator,
        steps: Seq<StepOutcome>,
        results: CpuResults,
        now: u64,
    ) -> RestoreTurn {
        let policy = c.scoped_session->Some_0.baseline.cpu;
        self.scope_done(
            after_cpu(c, policy, results, now),
            steps,
            cpu_status(policy, results),
            cpu_steps(policy, results),
            now,
        )
    }

    /// The notice that the hand-back ends with.
    pub open spec fn end_observed(self, o: ObservedState, saved: Result<(), ControlError>) -> ObservedState {
        ObservedState {
            control_notice: if !self.quiet() && !self.restored() {
                Some(ControlNotice::RestoreIncomplete)
            } else {
                match saved {
                    Err(e) => Some(ControlNotice::Error(e)),
                    Ok(_) => o.control_notice,
                }
            },
            ..o
        }
    }

    /// How the hand-back ended.
    pub open spec fn end_status(self) -> ControlStatus {
        if self.quiet() || self.restored() {
            ControlStatus::Applied { verification: Verification::Skipped }
        } else {
            ControlStatus::Partial
        }
    }

    #[verifier::opaque]
    pub open spec fn after_save(
        self,
        c: ControlCoordinator,
        steps: Seq<StepOutcome>,
        saved: Result<(), ControlError>,
        now: u64,
    ) -> RestoreTurn {
        HandBack {
            run: RestoreRun { stage: RestoreStage::Ended, ..self },
            coordinator: ControlCoordinator { observed: self.end_observed(c.observed, saved), ..c },
            steps: Seq::empty(),
            events: if self.quiet() {
                Seq::empty()
            } else {
                seq![
                    EventView {
                        origin: self.origin,
                        receipt: ControlReceipt(0),
                        command: ControlCommand::SetFanMode(FanMode::FirmwareAuto),
                        status: self.end_status(),
                        steps,
                        duration: age(now, self.started) as u64,
                    },
                ]
            },
            progress: Progress::Done(self.end_status()),
        }
    }

    /// What follows the reply to the stage's request.
    pub open spec fn spec_resume(
        self,
        c: ControlCoordinator,
        steps: Seq<StepOutcome>,
        reply: Reply,
        feed: ThermalFeed,
        now: u64,
    ) -> RestoreTurn {
        match self.stage {
            RestoreStage::MaxOff => self.after_max_off(c, steps, reply->Written_0, now),
            RestoreStage::FanAuto => self.after_fan_auto(c, steps, reply->Written_0, now),
            RestoreStage::Rearm => self.after_rearm(c, steps, reply->Written_0, now),
            RestoreStage::GpuWrite => self.after_gpu_write(c, steps, reply->Written_0, now),
            RestoreStage::GpuPoll => self.after_gpu_poll(c, steps, reply->Polled_0, feed, now),
            RestoreStage::PowerWrite => self.after_power_write(c, steps, reply->Written_0, now),
            RestoreStage::PowerPoll => self.after_power_poll(c, steps, reply->Polled_0, feed, now),
            RestoreStage::Thermal => self.after_thermal(c, steps, reply->Written_0, now),
            RestoreStage::Scheme => self.after_scheme(c, steps, reply->Ppm_0, now),
            RestoreStage::ScopeCpu => self.after_scope_cpu(c, steps, reply->Cpu_0, now),
            _ => self.after_save(c, steps, reply->Saved_0, now),
        }
    }
}

/// The run, the state, the evidence and the next thing to do are those of the
/// turn.
pub open spec fn follows(
    turn: RestoreTurn,
    run: RestoreRun,
    c: ControlCoordinator,
    steps: Seq<StepOutcome>,
    progress: Progress,
) -> bool {
    run == turn.run && c == turn.coordinator && steps == turn.steps && progress == turn.progress
}

fn polled_reply(reply: Reply) -> (r: Readback)
    requires
        reply is Polled,
    ensures
        reply == Reply::Polled(r),
{
    match reply {
        Reply::Polled(r) => r,
        _ => unreached(),
    }
}

fn ppm_reply(reply: Reply) -> (r: Option<WindowsPpmState>)
    requires
        reply is Ppm,
    ensures
        reply == Reply::Ppm(r),
{
    match reply {
        Reply::Ppm(r) => r,
        _ => unreached(),
    }
}

fn cpu_reply(reply: Reply) -> (r: CpuResults)
    requires
        reply is Cpu,
    ensures
        reply == Reply::Cpu(r),
{
    match reply {
        Reply::Cpu(r) => r,
        _ => unreached(),
    }
}

/// What the restore of an automatic session starts with.
#[derive(Clone, Copy, Debug)]
enum ScopeNeed {
    Nothing,
    Scheme,
    Policy(CpuPolicy),
}

fn scope_need(c: &ControlCoordinator) -> (r: ScopeNeed)
    ensures
        r == (match c.scoped_session {
            None => ScopeNeed::Nothing,
            Some(scope) => if scope.scheme is Some {
                ScopeNeed::Scheme
            } else {
                ScopeNeed::Policy(scope.baseline.cpu)
            },
        }),
{
    match &c.scoped_session {
        None => ScopeNeed::Nothing,
        Some(scope) => if scope.scheme.is_some() {
            ScopeNeed::Scheme
        } else {
            ScopeNeed::Policy(scope.baseline.cpu)
        },
    }
}

/// Records the overlay as written on trust.
pub fn note_max_fan(c: &mut ControlCoordinator, on: bool, now: u64)
    ensures
        *final(c) == max_fan_written(*old(c), on, now),
{
    c.observed.max_fan = ObservedValue::TrustedWrite { value: on, at: now };
}

impl RestoreRun {
    fn ask(self, stage: RestoreStage, request: Request) -> (r: (RestoreRun, Progress))
        ensures
            r.0 == (RestoreRun { stage, ..self }),
            r.1 == Progress::Ask(request),
    {
        (RestoreRun { stage, ..self }, Progress::Ask(request))
    }

    fn settle_observed(&self, o: &mut ObservedState, startup: Option<GpuPlatformPolicy>, baseline: Option<CpuPowerLimits>, now: u64)
        ensures
            *final(o) == self.settled_observed(*old(o), startup, baseline, now),
    {
        if self.fan && self.fan_auto_ok {
            o.fan_mode = ObservedValue::TrustedWrite { value: FanMode::FirmwareAuto, at: now };
        }
        if self.fan && self.max_off_ok {
            o.max_fan = ObservedValue::TrustedWrite { value: false, at: now };
        }
        if self.thermal && self.thermal_ok {
            o.thermal_mode = ObservedValue::TrustedWrite { value: ThermalMode::Balanced, at: now };
        }
        if self.gpu && self.gpu_ok {
            if let Some(startup) = startup {
                o.gpu_platform_policy = ObservedValue::Verified {
                    value: o.gpu_platform_policy.get().unwrap_or(startup),
                    at: now,
                    source: Channel::GpuPolicyRestoration,
                };
            }
        }
        if self.power && self.power_ok {
            if let Some(baseline) = baseline {
                o.power_limits = ObservedValue::Verified {
                    value: baseline,
                    at: now,
                    source: Channel::PowerLimitsRestoration,
                };
            }
        }
    }

    fn settle(&self, c: &mut ControlCoordinator, now: u64)
        ensures
            *final(c) == self.settled(*old(c), now),
    {
        proof {
            reveal(RestoreRun::settled);
        }
        let (startup, baseline) = (c.gpu_policy_startup, c.power_limits_baseline);
        self.settle_observed(&mut c.observed, startup, baseline, now);
        let fan_restored = !self.fan || (self.fan_auto_ok && self.max_off_ok);
        c.fan_control_dirty = c.fan_control_dirty && !fan_restored;
        c.fan_curve = if fan_restored { FanCurveController::new() } else { c.fan_curve };
        let mut safety = c.safety;
        if fan_restored && self.fan {
            safety.note_user_fan_mode(FanMode::FirmwareAuto);
        }
        c.safety = safety;
        c.thermal_mode_dirty = c.thermal_mode_dirty && !self.thermal_ok;
        c.gpu_policy_dirty = c.gpu_policy_dirty && !self.gpu_ok;
        c.power_limits_dirty = c.power_limits_dirty && !self.power_ok;
        c.reschedule(now);
    }

    fn is_quiet(&self) -> (r: bool)
        ensures
            r == self.quiet(),
    {
        !self.fan && !self.thermal && !self.gpu && !self.power
    }

    fn is_restored(&self) -> (r: bool)
        ensures
            r == self.restored(),
    {
        (!self.fan || (self.fan_auto_ok && self.max_off_ok)) && self.thermal_ok && self.gpu_ok && self.power_ok
            && self.scope_ok
    }

    fn go_ledger(self, c: &mut ControlCoordinator, steps: &Vec<StepOutcome>, now: u64) -> (r: (RestoreRun, Progress))
        ensures
            follows(self.to_ledger(*old(c), steps@, now), r.0, *final(c), steps@, r.1),
            self.to_ledger(*old(c), steps@, now).events.len() == 0,
            r.0.wf(*final(c)),
    {
        proof {
            reveal(RestoreRun::to_ledger);
        }
        if !self.is_quiet() {
            self.settle(c, now);
        }
        self.ask(RestoreStage::Saving, Request::SaveLedger(c.ledger()))
    }

    fn go_scope(self, c: &mut ControlCoordinator, steps: &Vec<StepOutcome>, now: u64) -> (r: (RestoreRun, Progress))
        ensures
            follows(self.to_scope(*old(c), steps@, now), r.0, *final(c), steps@, r.1),
            self.to_scope(*old(c), steps@, now).events.len() == 0,
            r.0.wf(*final(c)),
    {
        proof {
            reveal(RestoreRun::to_scope);
        }
        let run = RestoreRun { scope_started: now, ..self };
        match scope_need(c) {
            ScopeNeed::Nothing => RestoreRun { scope_ok: true, ..run }.go_ledger(c, steps, now),
            ScopeNeed::Scheme => run.ask(RestoreStage::Scheme, Request::ReadPpm),
            ScopeNeed::Policy(policy) => run.ask(RestoreStage::ScopeCpu, Request::ApplyCpu(policy)),
        }
    }

    fn go_thermal(self, c: &mut ControlCoordinator, steps: &Vec<StepOutcome>, now: u64) -> (r: (RestoreRun, Progress))
        ensures
            follows(self.to_thermal(*old(c), steps@, now), r.0, *final(c), steps@, r.1),
            self.to_thermal(*old(c), steps@, now).events.len() == 0,
            r.0.wf(*final(c)),
    {
        proof {
            reveal(RestoreRun::to_thermal);
        }
        if c.hp_present && self.thermal {
            self.ask(RestoreStage::Thermal, Request::Write(HpWrite::Thermal(ThermalMode::Balanced)))
        } else {
            self.go_scope(c, steps, now)
        }
    }

    fn go_power(self, c: &mut ControlCoordinator, steps: &Vec<StepOutcome>, now: u64) -> (r: (RestoreRun, Progress))
        ensures
            follows(self.to_power(*old(c), steps@, now), r.0, *final(c), steps@, r.1),
            self.to_power(*old(c), steps@, now).events.len() == 0,
            r.0.wf(*final(c)),
    {
        proof {
            reveal(RestoreRun::to_power);
        }
        if c.hp_present && self.power {
            if let Some(baseline) = c.power_limits_baseline {
                return self.ask(RestoreStage::PowerWrite, Request::Write(HpWrite::PowerLimits(baseline)));
            }
        }
        self.go_thermal(c, steps, now)
    }

    fn go_gpu(self, c: &mut ControlCoordinator, steps: &Vec<StepOutcome>, now: u64) -> (r: (RestoreRun, Progress))
        ensures
            follows(self.to_gpu(*old(c), steps@, now), r.0, *final(c), steps@, r.1),
            self.to_gpu(*old(c), steps@, now).events.len() == 0,
            r.0.wf(*final(c)),
    {
        proof {
            reveal(RestoreRun::to_gpu);
        }
        if c.hp_present && self.gpu {
            if let Some(startup) = c.gpu_policy_startup {
                return self.ask(RestoreStage::GpuWrite, Request::Write(HpWrite::GpuPolicy(startup)));
            }
        }
        self.go_power(c, steps, now)
    }

    fn go_fan(self, c: &mut ControlCoordinator, steps: &Vec<StepOutcome>, now: u64) -> (r: (RestoreRun, Progress))
        ensures
            follows(self.to_fan(*old(c), steps@, now), r.0, *final(c), steps@, r.1),
            self.to_fan(*old(c), steps@, now).events.len() == 0,
            r.0.wf(*final(c)),
    {
        proof {
            reveal(RestoreRun::to_fan);
        }
        if c.hp_present && self.fan {
            if !self.max_off_ok {
                self.ask(RestoreStage::MaxOff, Request::Write(HpWrite::MaxFan(false)))
            } else {
                self.ask(RestoreStage::FanAuto, Request::Write(HpWrite::FanLevels(FanLevels::auto())))
            }
        } else {
            self.go_gpu(c, steps, now)
        }
    }

    /// Starts the hand-back of what this session owes.
    pub fn start(c: &mut ControlCoordinator, origin: JournalOrigin, now: u64) -> (r: (RestoreRun, Progress))
        ensures
            follows(
                RestoreRun::spec_start(*old(c), origin, now),
                r.0,
                *final(c),
                Seq::<StepOutcome>::empty(),
                r.1,
            ),
            RestoreRun::spec_start(*old(c), origin, now).events.len() == 0,
            r.0.wf(*final(c)),
    {
        let run = RestoreRun {
            origin,
            started: now,
            deadline: deadline_after(now, c.verify_poll_interval, c.verify_polls),
            scope_started: now,
            fan: c.fan_control_dirty,
            thermal: c.thermal_mode_dirty,
            gpu: c.gpu_policy_dirty,
            power: c.power_limits_dirty,
            fan_auto_ok: !c.fan_control_dirty,
            max_off_ok: !c.fan_control_dirty || c.observed.max_fan.get() == Some(false),
            thermal_ok: !c.thermal_mode_dirty,
            gpu_ok: !c.gpu_policy_dirty,
            power_ok: !c.power_limits_dirty,
            scope_ok: false,
            check: None,
            stage: RestoreStage::Ended,
        };
        c.control_epoch = if c.control_epoch == u64::MAX { 0 } else { c.control_epoch + 1 };
        c.observed.active_profile = None;
        c.observed.control_notice = Some(ControlNotice::HandedBack);
        let steps: Vec<StepOutcome> = Vec::new();
        assert(steps@ =~= Seq::<StepOutcome>::empty());
        if run.is_quiet() { run.go_scope(c, &steps, now) } else { run.go_fan(c, &steps, now) }
    }

    fn max_off_replied(
        self,
        c: &mut ControlCoordinator,
        steps: &mut Vec<StepOutcome>,
        result: Result<(), HpWmiError>,
        now: u64,
    ) -> (r: (RestoreRun, Progress))
        ensures
            follows(self.after_max_off(*old(c), old(steps)@, result, now), r.0, *final(c), final(steps)@, r.1),
            self.after_max_off(*old(c), old(steps)@, result, now).events.len() == 0,
            r.0.wf(*final(c)),
    {
        proof {
            reveal(RestoreRun::after_max_off);
        }
        steps.push(written_step(Step::RestoreMaxFanOff, &result, Note::Restore));
        if result.is_ok() {
            note_max_fan(c, false, now);
            RestoreRun { max_off_ok: true, ..self }.ask(
                RestoreStage::FanAuto,
                Request::Write(HpWrite::FanLevels(FanLevels::auto())),
            )
        } else {
            self.ask(RestoreStage::Rearm, Request::Write(HpWrite::MaxFan(true)))
        }
    }

    fn fan_auto_replied(
        self,
        c: &mut ControlCoordinator,
        steps: &mut Vec<StepOutcome>,
        result: Result<(), HpWmiError>,
        now: u64,
    ) -> (r: (RestoreRun, Progress))
        ensures
            follows(self.after_fan_auto(*old(c), old(steps)@, result, now), r.0, *final(c), final(steps)@, r.1),
            self.after_fan_auto(*old(c), old(steps)@, result, now).events.len() == 0,
            r.0.wf(*final(c)),
    {
        proof {
            reveal(RestoreRun::after_fan_auto);
        }
        steps.push(written_step(Step::RestoreFanAuto, &result, Note::Restore));
        if result.is_ok() {
            RestoreRun { fan_auto_ok: true, ..self }.go_gpu(c, steps, now)
        } else {
            self.ask(RestoreStage::Rearm, Request::Write(HpWrite::MaxFan(true)))
        }
    }

    fn rearm_replied(
        self,
        c: &mut ControlCoordinator,
        steps: &mut Vec<StepOutcome>,
        result: Result<(), HpWmiError>,
        now: u64,
    ) -> (r: (RestoreRun, Progress))
        ensures
            follows(self.after_rearm(*old(c), old(steps)@, result, now), r.0, *final(c), final(steps)@, r.1),
            self.after_rearm(*old(c), old(steps)@, result, now).events.len() == 0,
            r.0.wf(*final(c)),
    {
        proof {
            reveal(RestoreRun::after_rearm);
        }
        steps.push(written_step(Step::RestoreFallbackMaxFan, &result, Note::FailedAutoRestore));
        if result.is_ok() {
            note_max_fan(c, true, now);
            RestoreRun { max_off_ok: false, ..self }.go_gpu(c, steps, now)
        } else {
            self.go_gpu(c, steps, now)
        }
    }

    fn wait_for(self, c: &ControlCoordinator, target: Target, stage: RestoreStage, now: u64) -> (r: (
        RestoreRun,
        Progress,
    ))
        ensures
            forall|steps: Seq<StepOutcome>| #[trigger]
                self.awaiting(*c, steps, target, stage, now) == (HandBack {
                    run: r.0,
                    coordinator: *c,
                    steps,
                    events: Seq::<EventView>::empty(),
                    progress: r.1,
                }),
            r.0.check is Some,
            r.0.stage == stage,
    {
        let check = PendingVerification::new(target, now, c.verify_polls, c.verify_poll_interval);
        RestoreRun { check: Some(check), ..self }.ask(stage, Request::Poll { due: check.next_due })
    }

    fn gpu_write_replied(
        self,
        c: &mut ControlCoordinator,
        steps: &mut Vec<StepOutcome>,
        result: Result<(), HpWmiError>,
        now: u64,
    ) -> (r: (RestoreRun, Progress))
        requires
            old(c).gpu_policy_startup is Some,
        ensures
            follows(self.after_gpu_write(*old(c), old(steps)@, result, now), r.0, *final(c), final(steps)@, r.1),
            self.after_gpu_write(*old(c), old(steps)@, result, now).events.len() == 0,
            r.0.wf(*final(c)),
    {
        proof {
            reveal(RestoreRun::after_gpu_write);
        }
        if result.is_ok() {
            let startup = c.gpu_policy_startup.unwrap();
            self.wait_for(c, Target::Gpu(startup, false), RestoreStage::GpuPoll, now)
        } else {
            steps.push(written_step(Step::RestoreGpuPolicy, &result, Note::Restore));
            RestoreRun { gpu_ok: false, ..self }.go_power(c, steps, now)
        }
    }

    fn power_write_replied(
        self,
        c: &mut ControlCoordinator,
        steps: &mut Vec<StepOutcome>,
        result: Result<(), HpWmiError>,
        now: u64,
    ) -> (r: (RestoreRun, Progress))
        requires
            old(c).power_limits_baseline is Some,
        ensures
            follows(self.after_power_write(*old(c), old(steps)@, result, now), r.0, *final(c), final(steps)@, r.1),
            self.after_power_write(*old(c), old(steps)@, result, now).events.len() == 0,
            r.0.wf(*final(c)),
    {
        proof {
            reveal(RestoreRun::after_power_write);
        }
        if result.is_ok() {
            let baseline = c.power_limits_baseline.unwrap();
            self.wait_for(c, Target::Power(baseline), RestoreStage::PowerPoll, now)
        } else {
            steps.push(written_step(Step::RestorePowerLimits, &result, Note::Restore));
            RestoreRun { power_ok: false, ..self }.go_thermal(c, steps, now)
        }
    }

    /// Polls the readback that the run waits for.
    fn poll_check(self, c: &mut ControlCoordinator, read: &Readback, feed: &ThermalFeed, now: u64) -> (r: (
        PendingVerification,
        Option<Verification>,
    ))
        requires
            self.check is Some,
        ensures
            r.0 == self.check->Some_0.spec_poll(*read, *feed, now).0,
            r.1 == self.poll_verdict(*read, *feed, now),
            *final(c) == self.polled(*old(c), *read, *feed, now),
            r.1 is None ==> *final(c) == *old(c),
            final(c).power_limits_baseline == old(c).power_limits_baseline,
    {
        proof {
            reveal(RestoreRun::poll_verdict);
            reveal(RestoreRun::polled_observed);
            reveal(RestoreRun::polled);
        }
        let mut check = self.check.unwrap();
        let verdict = check.poll(read, feed, now);
        let verdict = match verdict {
            Some(Verification::Verified) => {
                stamp_verified(&mut c.observed, check.actual_target.unwrap_or(check.target), now);
                Some(Verification::Verified)
            },
            Some(v) => Some(v),
            None => if now >= self.deadline {
                Some(
                    Verification::Failed {
                        expected: Evidence::Requested(check.target),
                        actual: Evidence::RestoreDeadline,
                    },
                )
            } else {
                None
            },
        };
        (check, verdict)
    }

    fn gpu_polled(
        self,
        c: &mut ControlCoordinator,
        steps: &mut Vec<StepOutcome>,
        read: Readback,
        feed: &ThermalFeed,
        now: u64,
    ) -> (r: (RestoreRun, Progress))
        requires
            self.check is Some,
        ensures
            follows(self.after_gpu_poll(*old(c), old(steps)@, read, *feed, now), r.0, *final(c), final(steps)@, r.1),
            self.after_gpu_poll(*old(c), old(steps)@, read, *feed, now).events.len() == 0,
            r.0.wf(*final(c)),
    {
        proof {
            reveal(RestoreRun::after_gpu_poll);
        }
        let (check, verdict) = self.poll_check(c, &read, feed, now);
        let run = RestoreRun { check: Some(check), ..self };
        match verdict {
            None => run.ask(RestoreStage::GpuPoll, Request::Poll { due: check.next_due }),
            Some(v) => {
                let ok = matches!(v, Verification::Verified);
                steps.push(
                    StepOutcome {
                        step: Step::RestoreGpuPolicy,
                        firmware_return: FirmwareReturn::Accepted,
                        before: Some(Note::Restore),
                        after: None,
                        verification: v,
                    },
                );
                RestoreRun { gpu_ok: ok, ..run }.go_power(c, steps, now)
            },
        }
    }

    fn power_polled(
        self,
        c: &mut ControlCoordinator,
        steps: &mut Vec<StepOutcome>,
        read: Readback,
        feed: &ThermalFeed,
        now: u64,
    ) -> (r: (RestoreRun, Progress))
        requires
            self.check is Some,
            old(c).power_limits_baseline is Some,
        ensures
            follows(self.after_power_poll(*old(c), old(steps)@, read, *feed, now), r.0, *final(c), final(steps)@, r.1),
            self.after_power_poll(*old(c), old(steps)@, read, *feed, now).events.len() == 0,
            r.0.wf(*final(c)),
    {
        proof {
            reveal(RestoreRun::after_power_poll);
        }
        let baseline = c.power_limits_baseline.unwrap();
        let (check, verdict) = self.poll_check(c, &read, feed, now);
        let run = RestoreRun { check: Some(check), ..self };
        match verdict {
            None => run.ask(RestoreStage::PowerPoll, Request::Poll { due: check.next_due }),
            Some(v) => {
                let ok = matches!(v, Verification::Verified);
                steps.push(
                    StepOutcome {
                        step: Step::RestorePowerLimits,
                        firmware_return: FirmwareReturn::Accepted,
                        before: Some(Note::Restore),
                        after: Some(Note::Limits(baseline)),
                        verification: v,
                    },
                );
                RestoreRun { power_ok: ok, ..run }.go_thermal(c, steps, now)
            },
        }
    }

    fn thermal_replied(
        self,
        c: &mut ControlCoordinator,
        steps: &mut Vec<StepOutcome>,
        result: Result<(), HpWmiError>,
        now: u64,
    ) -> (r: (RestoreRun, Progress))
        ensures
            follows(self.after_thermal(*old(c), old(steps)@, result, now), r.0, *final(c), final(steps)@, r.1),
            self.after_thermal(*old(c), old(steps)@, result, now).events.len() == 0,
            r.0.wf(*final(c)),
    {
        proof {
            reveal(RestoreRun::after_thermal);
        }
        steps.push(written_step(Step::RestoreThermal, &result, Note::Restore));
        RestoreRun { thermal_ok: result.is_ok(), ..self }.go_scope(c, steps, now)
    }

    fn finish_scope(
        self,
        c: &mut ControlCoordinator,
        steps: &Vec<StepOutcome>,
        out: &mut Vec<JournalEvent>,
        status: ControlStatus,
        scope_steps: Vec<StepOutcome>,
        now: u64,
    ) -> (r: (RestoreRun, Progress))
        ensures
            follows(self.scope_done(*old(c), steps@, status, scope_steps@, now), r.0, *final(c), steps@, r.1),
            event_views(final(out)@) == event_views(old(out)@) + self.scope_done(
                *old(c),
                steps@,
                status,
                scope_steps@,
                now,
            ).events,
            r.0.wf(*final(c)),
    {
        proof {
            reveal(RestoreRun::scope_done);
        }
        let ghost events = self.scope_done(*c, steps@, status, scope_steps@, now).events;
        let ghost logged = event_views(out@);
        let ok = control_status_succeeded(&status);
        if ok {
            c.scoped_session = None;
        } else {
            c.observed.control_notice = Some(ControlNotice::ScopeRestoreIncomplete(status.clone()));
        }
        log_event(
            out,
            self.origin,
            ControlCommand::RestoreSession,
            status,
            scope_steps,
            elapsed(now, self.scope_started),
        );
        assert(event_views(out@) =~= logged + events);
        RestoreRun { scope_ok: ok, ..self }.go_ledger(c, steps, now)
    }

    fn scheme_read(
        self,
        c: &mut ControlCoordinator,
        steps: &Vec<StepOutcome>,
        out: &mut Vec<JournalEvent>,
        state: Option<WindowsPpmState>,
        now: u64,
    ) -> (r: (RestoreRun, Progress))
        requires
            old(c).scoped_session matches Some(scope) && scope.scheme is Some,
        ensures
            follows(self.after_scheme(*old(c), steps@, state, now), r.0, *final(c), steps@, r.1),
            event_views(final(out)@) == event_views(old(out)@) + self.after_scheme(
                *old(c),
                steps@,
                state,
                now,
            ).events,
            r.0.wf(*final(c)),
    {
        proof {
            reveal(RestoreRun::after_scheme);
        }
        match scheme_policy(c, &state) {
            Some(policy) => {
                assert(event_views(out@) =~= event_views(out@) + Seq::<EventView>::empty());
                self.ask(RestoreStage::ScopeCpu, Request::ApplyCpu(policy))
            },
            None => {
                let none: Vec<StepOutcome> = Vec::new();
                assert(none@ =~= Seq::<StepOutcome>::empty());
                self.finish_scope(
                    c,
                    steps,
                    out,
                    ControlStatus::Rejected {
                        error: ControlError::UnsafeRequest { reason: UnsafeReason::SchemeChanged },
                    },
                    none,
                    now,
                )
            },
        }
    }

    fn scope_applied(
        self,
        c: &mut ControlCoordinator,
        steps: &Vec<StepOutcome>,
        out: &mut Vec<JournalEvent>,
        results: CpuResults,
        now: u64,
    ) -> (r: (RestoreRun, Progress))
        requires
            old(c).scoped_session matches Some(scope) && results.covers(scope.baseline.cpu),
        ensures
            follows(self.after_scope_cpu(*old(c), steps@, results, now), r.0, *final(c), steps@, r.1),
            event_views(final(out)@) == event_views(old(out)@) + self.after_scope_cpu(
                *old(c),
                steps@,
                results,
                now,
            ).events,
            r.0.wf(*final(c)),
    {
        proof {
            reveal(RestoreRun::after_scope_cpu);
        }
        let policy = match &c.scoped_session {
            Some(scope) => scope.baseline.cpu,
            None => unreached(),
        };
        let mut scope_steps: Vec<StepOutcome> = Vec::new();
        let status = exec_cpu_policy(c, &policy, results, &mut scope_steps, now);
        assert(scope_steps@ =~= cpu_steps(policy, results));
        self.finish_scope(c, steps, out, status, scope_steps, now)
    }

    fn note_end(&self, o: &mut ObservedState, result: Result<(), ControlError>)
        ensures
            *final(o) == self.end_observed(*old(o), result),
    {
        if !self.is_quiet() && !self.is_restored() {
            o.control_notice = Some(ControlNotice::RestoreIncomplete);
        } else if let Err(e) = result {
            o.control_notice = Some(ControlNotice::Error(e));
        }
    }

    fn saved(
        self,
        c: &mut ControlCoordinator,
        steps: &mut Vec<StepOutcome>,
        out: &mut Vec<JournalEvent>,
        result: Result<(), ControlError>,
        now: u64,
    ) -> (r: (RestoreRun, Progress))
        ensures
            follows(self.after_save(*old(c), old(steps)@, result, now), r.0, *final(c), final(steps)@, r.1),
            event_views(final(out)@) == event_views(old(out)@) + self.after_save(
                *old(c),
                old(steps)@,
                result,
                now,
            ).events,
            r.0.wf(*final(c)),
    {
        proof {
            reveal(RestoreRun::after_save);
        }
        let ghost logged = event_views(out@);
        let ghost events = self.after_save(*c, steps@, result, now).events;
        self.note_end(&mut c.observed, result);
        let mut taken: Vec<StepOutcome> = Vec::new();
        assert(taken@ =~= Seq::<StepOutcome>::empty());
        core::mem::swap(steps, &mut taken);
        let quiet = self.is_quiet();
        let status = if quiet || self.is_restored() {
            ControlStatus::Applied { verification: Verification::Skipped }
        } else {
            ControlStatus::Partial
        };
        if !quiet {
            log_event(
                out,
                self.origin,
                ControlCommand::SetFanMode(FanMode::FirmwareAuto),
                status.clone(),
                taken,
                elapsed(now, self.started),
            );
        }
        assert(event_views(out@) =~= logged + events);
        (RestoreRun { stage: RestoreStage::Ended, ..self }, Progress::Done(status))
    }

    fn step(
        self,
        c: &mut ControlCoordinator,
        steps: &mut Vec<StepOutcome>,
        reply: Reply,
        feed: &ThermalFeed,
        now: u64,
    ) -> (r: (RestoreRun, Progress))
        requires
            self.wf(*old(c)),
            self.accepts(*old(c), reply),
            self.stage != RestoreStage::Scheme,
            self.stage != RestoreStage::ScopeCpu,
            self.stage != RestoreStage::Saving,
        ensures
            follows(
                self.spec_resume(*old(c), old(steps)@, reply, *feed, now),
                r.0,
                *final(c),
                final(steps)@,
                r.1,
            ),
            self.spec_resume(*old(c), old(steps)@, reply, *feed, now).events.len() == 0,
            r.0.wf(*final(c)),
    {
        match self.stage {
            RestoreStage::MaxOff => self.max_off_replied(c, steps, written_result(reply), now),
            RestoreStage::FanAuto => self.fan_auto_replied(c, steps, written_result(reply), now),
            RestoreStage::Rearm => self.rearm_replied(c, steps, written_result(reply), now),
            RestoreStage::GpuWrite => self.gpu_write_replied(c, steps, written_result(reply), now),
            RestoreStage::GpuPoll => self.gpu_polled(c, steps, polled_reply(reply), feed, now),
            RestoreStage::PowerWrite => self.power_write_replied(c, steps, written_result(reply), now),
            RestoreStage::PowerPoll => self.power_polled(c, steps, polled_reply(reply), feed, now),
            _ => self.thermal_replied(c, steps, written_result(reply), now),
        }
    }

    /// Goes on with what came back.
    pub fn resume(
        self,
        c: &mut ControlCoordinator,
        steps: &mut Vec<StepOutcome>,
        out: &mut Vec<JournalEvent>,
        reply: Reply,
        feed: &ThermalFeed,
        now: u64,
    ) -> (r: (RestoreRun, Progress))
        requires
            self.wf(*old(c)),
            self.accepts(*old(c), reply),
        ensures
            follows(
                self.spec_resume(*old(c), old(steps)@, reply, *feed, now),
                r.0,
                *final(c),
                final(steps)@,
                r.1,
            ),
            event_views(final(out)@) == event_views(old(out)@) + self.spec_resume(
                *old(c),
                old(steps)@,
                reply,
                *feed,
                now,
            ).events,
            r.0.wf(*final(c)),
    {
        match self.stage {
            RestoreStage::Scheme => self.scheme_read(c, steps, out, ppm_reply(reply), now),
            RestoreStage::ScopeCpu => self.scope_applied(c, steps, out, cpu_reply(reply), now),
            RestoreStage::Saving => self.saved(c, steps, out, saved_result(reply), now),
            _ => {
                let ghost logged = event_views(out@);
                let ghost events = self.spec_resume(*c, steps@, reply, *feed, now).events;
                let r = self.step(c, steps, reply, feed, now);
                assert(event_views(out@) =~= logged + events);
                r
            },
        }
    }
}

/// The processor policy to restore, if the power scheme is the one the
/// automatic session was started in.
fn scheme_policy(c: &ControlCoordinator, state: &Option<WindowsPpmState>) -> (r: Option<CpuPolicy>)
    requires
        c.scoped_session matches Some(scope) && scope.scheme is Some,
    ensures
        r == (if *state matches Some(s) && s.active_scheme_guid@ == c.scoped_session->Some_0.scheme->Some_0@ {
            Some(c.scoped_session->Some_0.baseline.cpu)
        } else {
            None
        }),
{
    match (&c.scoped_session, state) {
        (Some(scope), Some(s)) => match &scope.scheme {
            Some(scheme) => if same_text(s.active_scheme_guid.as_str(), scheme.as_str()) {
                Some(scope.baseline.cpu)
            } else {
                None
            },
            None => None,
        },
        _ => None,
    }
}

/// A request that would write to the firmware.
pub open spec fn firmware_write(progress: Progress) -> bool {
    progress matches Progress::Ask(Request::Write(_))
}

/// A session that owes the firmware nothing does not touch it when it hands
/// back.
pub proof fn read_only_session_starts_without_writes(c: ControlCoordinator, origin: JournalOrigin, now: u64)
    requires
        !c.fan_control_dirty,
        !c.thermal_mode_dirty,
        !c.gpu_policy_dirty,
        !c.power_limits_dirty,
    ensures
        !firmware_write(RestoreRun::spec_start(c, origin, now).progress),
        RestoreRun::spec_start(c, origin, now).run.quiet(),
        RestoreRun::spec_start(c, origin, now).run.stage == RestoreStage::Scheme || RestoreRun::spec_start(
            c,
            origin,
            now,
        ).run.stage == RestoreStage::ScopeCpu || RestoreRun::spec_start(c, origin, now).run.stage
            == RestoreStage::Saving,
{
    reveal(RestoreRun::to_scope);
    reveal(RestoreRun::to_ledger);
}

/// Nor does it later: a hand-back without firmware debts goes on without
/// firmware writes.
pub proof fn read_only_session_goes_on_without_writes(
    run: RestoreRun,
    c: ControlCoordinator,
    steps: Seq<StepOutcome>,
    reply: Reply,
    feed: ThermalFeed,
    now: u64,
)
    requires
        run.quiet(),
        run.stage == RestoreStage::Scheme || run.stage == RestoreStage::ScopeCpu || run.stage == RestoreStage::Saving,
        run.accepts(c, reply),
    ensures
        ({
            let turn = run.spec_resume(c, steps, reply, feed, now);
            &&& !firmware_write(turn.progress)
            &&& turn.run.quiet()
            &&& turn.run.stage == RestoreStage::ScopeCpu || turn.run.stage == RestoreStage::Saving || turn.run.stage
                == RestoreStage::Ended
        }),
{
    reveal(RestoreRun::after_scheme);
    reveal(RestoreRun::after_scope_cpu);
    reveal(RestoreRun::after_save);
    reveal(RestoreRun::scope_done);
    reveal(RestoreRun::to_ledger);
}

/// If the fans cannot be handed back, max fan is forced next: they are never
/// left at user levels with nobody in charge.
pub proof fn failed_hand_over_forces_max_fan(
    run: RestoreRun,
    c: ControlCoordinator,
    steps: Seq<StepOutcome>,
    e: HpWmiError,
    feed: ThermalFeed,
    now: u64,
)
    requires
        run.stage == RestoreStage::MaxOff || run.stage == RestoreStage::FanAuto,
    ensures
        run.spec_resume(c, steps, Reply::Written(Err(e)), feed, now).progress == Progress::Ask(
            Request::Write(HpWrite::MaxFan(true)),
        ),
{
    reveal(RestoreRun::after_max_off);
    reveal(RestoreRun::after_fan_auto);
}

/// What could not be settled stays on record, and only that: a part that was
/// owed is struck off exactly if it was restored. The ledger that is saved is
/// that record, unless an earlier session's is still unsettled: that one is
/// saved as it is.
pub proof fn unsettled_parts_stay_in_the_ledger(
    run: RestoreRun,
    c: ControlCoordinator,
    steps: Seq<StepOutcome>,
    now: u64,
)
    requires
        run.fan == c.fan_control_dirty,
        run.thermal == c.thermal_mode_dirty,
        run.gpu == c.gpu_policy_dirty,
        run.power == c.power_limits_dirty,
        run.gpu ==> c.gpu_policy_startup is Some,
        run.power ==> c.power_limits_baseline is Some,
    ensures
        ({
            let turn = run.to_ledger(c, steps, now);
            let record = turn.coordinator.spec_record();
            &&& record.fan == (run.fan && !run.fan_restored())
            &&& record.thermal == (run.thermal && !run.thermal_ok)
            &&& record.gpu is Some == (run.gpu && !run.gpu_ok)
            &&& record.gpu is Some ==> record.gpu == c.gpu_policy_startup
            &&& record.power is Some == (run.power && !run.power_ok)
            &&& record.power is Some ==> record.power == c.power_limits_baseline
            &&& record.scoped == c.scoped_session
            &&& turn.progress == Progress::Ask(
                Request::SaveLedger(
                    match c.previous_recovery {
                        Some(earlier) => earlier,
                        None => record,
                    },
                ),
            )
        }),
{
    reveal(RestoreRun::to_ledger);
    reveal(RestoreRun::settled);
}

/// Once everything has been restored, nothing is owed any more.
pub proof fn full_restore_leaves_nothing_owed(
    run: RestoreRun,
    c: ControlCoordinator,
    steps: Seq<StepOutcome>,
    now: u64,
)
    requires
        !run.quiet(),
        run.restored(),
        c.scoped_session is None,
    ensures
        !run.to_ledger(c, steps, now).coordinator.spec_record().spec_pending(),
{
    reveal(RestoreRun::to_ledger);
    reveal(RestoreRun::settled);
}

/// A hand-back voids every plan that is still under way.
pub proof fn hand_back_starts_a_new_epoch(c: ControlCoordinator, origin: JournalOrigin, now: u64)
    ensures
        RestoreRun::spec_start(c, origin, now).coordinator.control_epoch != c.control_epoch,
        RestoreRun::spec_start(c, origin, now).coordinator.observed.active_profile is None,
{
    reveal(RestoreRun::to_scope);
    reveal(RestoreRun::to_ledger);
    reveal(RestoreRun::to_fan);
    reveal(RestoreRun::to_gpu);
    reveal(RestoreRun::to_power);
    reveal(RestoreRun::to_thermal);
    reveal(RestoreRun::settled);
}

} // verus!
