//! Plan execution: at most one write or one readback at a time, so that
//! waiting for the firmware never holds up the safety net or the heartbeat.
use vstd::pervasive::unreached;
use vstd::prelude::*;

use super::coordinator::ControlCoordinator;
use super::exchange::{saved_result, Progress, Reply, Request};
use super::exec::command::{exec_one, exec_start, ExecRun};
use super::journal::{event_views, JournalEvent};
use super::plan::{bare_outcome, outcome_without_steps, step_refusal, ActivePlan, PlanStage};
use super::safety::{age, elapsed, ThermalFeed};
use super::stamp::{stamp_verified, with_target};
use super::verification::{PendingVerification, Readback};
use crate::domain::command::{
    control_status_succeeded, weaker, weakest_verification, ControlCommand, ControlOutcome, ControlStatus, Note,
    StepOutcome, Verification,
};
use crate::domain::error::ControlError;
use crate::domain::evidence::{Evidence, Target};
use crate::domain::state::{ControlNotice, DesiredState, ObservedState};

verus! {

/// What a plan does next.
#[derive(Debug, PartialEq)]
pub enum PlanProgress {
    Ask(Request),
    /// A readback is due at the moment.
    Wait { due: u64 },
    /// The next step can start.
    More,
    /// The plan is over: the outcome is journaled and answered.
    Done(ControlOutcome),
}

/// What a step's status means for its plan.
pub ghost enum Verdict {
    /// The plan ends.
    End(ControlStatus),
    /// The plan ends; whatever a named profile set up no longer describes the
    /// machine.
    EndUnstamped,
    /// The plan goes on, as verified as its weakest step so far.
    GoOn(Verification),
}

/// A step that did not succeed ends the plan. Only a plan of one step keeps
/// an honest verdict of its own; a plan that stops half way is partial.
pub open spec fn verdict(index: int, len: int, weakest: Verification, status: ControlStatus) -> Verdict {
    match status {
        ControlStatus::Applied { verification } => if verification is Failed {
            Verdict::End(
                if index == 0 && len == 1 {
                    status
                } else {
                    ControlStatus::Partial
                },
            )
        } else {
            Verdict::GoOn(weaker(weakest, verification))
        },
        ControlStatus::Rejected { .. } => Verdict::End(if index == 0 { status } else { ControlStatus::Partial }),
        ControlStatus::Partial => Verdict::EndUnstamped,
    }
}

/// After a step that did not succeed, no later step of the plan runs.
pub proof fn failed_step_ends_the_plan(index: int, len: int, weakest: Verification, status: ControlStatus)
    requires
        !status.succeeded(),
    ensures
        !(verdict(index, len, weakest, status) is GoOn),
{
}

/// The profile that a command applies by name.
pub open spec fn applied_profile(cmd: ControlCommand) -> Option<String> {
    match cmd {
        ControlCommand::ApplyProfile { profile } => Some(profile),
        ControlCommand::ApplyScopedProfile { profile, .. } => Some(profile),
        _ => None,
    }
}

/// The state once a plan is over: a profile that was fully applied gives the
/// machine its name; a plan that did not succeed takes any name away as soon
/// as it took a step.
#[verifier::opaque]
pub open spec fn finished(
    c: ControlCoordinator,
    cmd: ControlCommand,
    took_steps: bool,
    status: ControlStatus,
    now: u64,
) -> ControlCoordinator {
    let stamped = if status.succeeded() {
        match applied_profile(cmd) {
            Some(profile) => ControlCoordinator {
                desired: DesiredState { profile: Some(profile), ..c.desired },
                observed: ObservedState {
                    active_profile: Some(profile),
                    control_notice: None,
                    ..c.observed
                },
                ..c
            },
            None => c,
        }
    } else if took_steps {
        ControlCoordinator {
            observed: ObservedState {
                active_profile: None,
                control_notice: Some(ControlNotice::NotFullyApplied),
                ..c.observed
            },
            ..c
        }
    } else {
        c
    };
    stamped.spec_rescheduled(now)
}

/// The state once the leading steps have restored an automatic session: it is
/// over, and the profile before it is back.
#[verifier::opaque]
pub open spec fn scope_left(c: ControlCoordinator) -> ControlCoordinator {
    let previous = match c.scoped_session {
        Some(scope) => scope.previous_profile,
        None => None,
    };
    ControlCoordinator {
        scoped_session: None,
        desired: DesiredState { profile: previous, ..c.desired },
        observed: ObservedState { active_profile: previous, ..c.observed },
        ..c
    }
}

/// The state once a step's operation has ended.
#[verifier::opaque]
pub open spec fn step_ended(c: ControlCoordinator, cmd: ControlCommand, status: ControlStatus, now: u64) -> ControlCoordinator {
    (if status is Applied { c.spec_recorded(cmd) } else { c }).spec_rescheduled(now)
}

/// The state with the requested readback taken.
#[verifier::opaque]
pub open spec fn readback_taken(c: ControlCoordinator) -> ControlCoordinator {
    ControlCoordinator { verification_requested: None, ..c }
}

/// The state with a notice about an error.
#[verifier::opaque]
pub open spec fn noted(c: ControlCoordinator, result: Result<(), ControlError>) -> ControlCoordinator {
    match result {
        Ok(_) => c,
        Err(e) => ControlCoordinator {
            observed: ObservedState { control_notice: Some(ControlNotice::Error(e)), ..c.observed },
            ..c
        },
    }
}

/// The parts of a plan that never change.
pub open spec fn same_plan_as(p: ActivePlan, q: ActivePlan) -> bool {
    &&& p.receipt == q.receipt
    &&& p.command == q.command
    &&& p.plan@ == q.plan@
    &&& p.started == q.started
    &&& p.epoch == q.epoch
    &&& p.restore_scope_steps == q.restore_scope_steps
}

/// A plan that only changes its stage.
pub open spec fn stage_only(p: ActivePlan, q: ActivePlan) -> bool {
    &&& same_plan_as(p, q)
    &&& p.index == q.index
    &&& p.weakest == q.weakest
    &&& p.steps@ == q.steps@
    &&& p.scratch@ == q.scratch@
}

/// The plan ends with `status`.
pub open spec fn ends_with(
    p: ActivePlan,
    c: ControlCoordinator,
    q: ActivePlan,
    d: ControlCoordinator,
    status: ControlStatus,
    now: u64,
    r: PlanProgress,
) -> bool {
    &&& stage_only(p, q)
    &&& q.stage == PlanStage::Finishing(status)
    &&& d == finished(c, p.command, p.steps@.len() > 0, status, now)
    &&& r == PlanProgress::Ask(Request::SaveLedger(d.spec_ledger()))
}

/// The plan goes on from where its index stands: it ends if no step is left.
pub open spec fn goes_on(
    p: ActivePlan,
    c: ControlCoordinator,
    q: ActivePlan,
    d: ControlCoordinator,
    now: u64,
    r: PlanProgress,
) -> bool {
    if p.index == p.plan@.len() {
        ends_with(p, c, q, d, ControlStatus::Applied { verification: p.weakest }, now, r)
    } else {
        stage_only(p, q) && q.stage is Ready && d == c && r is More
    }
}

/// The plan after a step's status.
pub open spec fn judged(
    p: ActivePlan,
    c: ControlCoordinator,
    q: ActivePlan,
    d: ControlCoordinator,
    status: ControlStatus,
    now: u64,
    r: PlanProgress,
) -> bool {
    match verdict(p.index as int, p.plan@.len() as int, p.weakest, status) {
        Verdict::End(end) => ends_with(p, c, q, d, end, now, r),
        Verdict::EndUnstamped => ends_with(p, c.spec_unstamped(), q, d, ControlStatus::Partial, now, r),
        Verdict::GoOn(weakest) => {
            let next = ActivePlan { index: (p.index + 1) as usize, weakest, ..p };
            if p.restore_scope_steps != 0 && p.index + 1 == p.restore_scope_steps {
                &&& stage_only(next, q)
                &&& q.stage is ScopeSaving
                &&& d == scope_left(c)
                &&& r == PlanProgress::Ask(Request::SaveLedger(d.spec_ledger()))
            } else {
                goes_on(next, c, q, d, now, r)
            }
        },
    }
}

/// The plan after a step's operation ended with `status`: a readback that it
/// asked for comes before the judgement.
pub open spec fn settled(
    p: ActivePlan,
    c: ControlCoordinator,
    q: ActivePlan,
    d: ControlCoordinator,
    status: ControlStatus,
    now: u64,
    r: PlanProgress,
) -> bool {
    let ended = step_ended(c, p.plan@[p.index as int], status, now);
    match ended.verification_requested {
        Some(check) => {
            &&& stage_only(p, q)
            &&& q.stage == PlanStage::Waiting(check)
            &&& d == readback_taken(ended)
            &&& r == (PlanProgress::Wait { due: check.next_due })
        },
        None => judged(p, ended, q, d, status, now, r),
    }
}

/// The plan after a turn of its step's operation.
pub open spec fn stepped(
    p: ActivePlan,
    c: ControlCoordinator,
    q: ActivePlan,
    d: ControlCoordinator,
    run: ExecRun,
    progress: Progress,
    now: u64,
    r: PlanProgress,
) -> bool {
    match progress {
        Progress::Ask(request) => {
            &&& stage_only(p, q)
            &&& q.stage == PlanStage::Executing(run)
            &&& d == c
            &&& r == PlanProgress::Ask(request)
        },
        Progress::Done(status) => settled(p, c, q, d, status, now, r),
        Progress::HandBack(status) => settled(p, c, q, d, status, now, r),
    }
}

/// The verdict of a readback: while an override holds the fans, a fan target
/// cannot be shown.
#[verifier::opaque]
pub open spec fn readback_verdict(
    c: ControlCoordinator,
    check: PendingVerification,
    read: Readback,
    feed: ThermalFeed,
    now: u64,
) -> (PendingVerification, Option<Verification>) {
    if check.target is Fan && c.safety.override_saved is Some {
        (
            check,
            Some(
                Verification::Failed {
                    expected: Evidence::RequestedFanTarget,
                    actual: Evidence::ThermalOverride,
                },
            ),
        )
    } else {
        check.spec_poll(read, feed, now)
    }
}

/// The state with what a readback showed.
#[verifier::opaque]
pub open spec fn shown_in(c: ControlCoordinator, check: PendingVerification, v: Verification, now: u64) -> ControlCoordinator {
    if v is Verified {
        ControlCoordinator {
            observed: with_target(c.observed, check.actual_target.unwrap_or(check.target), now),
            ..c
        }
    } else {
        c
    }
}

/// The evidence with the last step's verdict filled in.
pub open spec fn with_verdict(steps: Seq<StepOutcome>, check: PendingVerification, v: Verification) -> Seq<StepOutcome> {
    if steps.len() == 0 {
        steps
    } else {
        steps.update(
            steps.len() - 1,
            StepOutcome {
                verification: v,
                after: Some(Note::Readback { verdict: v, readback: check.actual_target }),
                ..steps.last()
            },
        )
    }
}

fn finish_state(c: &mut ControlCoordinator, cmd: &ControlCommand, took_steps: bool, status: &ControlStatus, now: u64)
    ensures
        *final(c) == finished(*old(c), *cmd, took_steps, *status, now),
{
    proof {
        reveal(finished);
    }
    if control_status_succeeded(status) {
        let name = match cmd {
            ControlCommand::ApplyProfile { profile } => Some(profile),
            ControlCommand::ApplyScopedProfile { profile, .. } => Some(profile),
            _ => None,
        };
        if let Some(profile) = name {
            c.desired.profile = Some(profile.clone());
            c.observed.active_profile = Some(profile.clone());
            c.observed.control_notice = None;
        }
    } else if took_steps {
        c.observed.active_profile = None;
        c.observed.control_notice = Some(ControlNotice::NotFullyApplied);
    }
    c.reschedule(now);
}

fn leave_scope(c: &mut ControlCoordinator)
    ensures
        *final(c) == scope_left(*old(c)),
{
    proof {
        reveal(scope_left);
    }
    let previous = match &c.scoped_session {
        Some(scope) => scope.previous_profile.clone(),
        None => None,
    };
    c.scoped_session = None;
    c.desired.profile = previous.clone();
    c.observed.active_profile = previous;
}

fn end_step(c: &mut ControlCoordinator, cmd: &ControlCommand, status: &ControlStatus, now: u64)
    ensures
        *final(c) == step_ended(*old(c), *cmd, *status, now),
{
    proof {
        reveal(step_ended);
    }
    if let ControlStatus::Applied { .. } = status {
        c.record_desired(cmd);
    }
    c.reschedule(now);
}

fn take_readback(c: &mut ControlCoordinator)
    ensures
        *final(c) == readback_taken(*old(c)),
{
    proof {
        reveal(readback_taken);
    }
    c.verification_requested = None;
}

fn note_error(c: &mut ControlCoordinator, result: Result<(), ControlError>)
    ensures
        *final(c) == noted(*old(c), result),
{
    proof {
        reveal(noted);
    }
    if let Err(e) = result {
        c.observed.control_notice = Some(ControlNotice::Error(e));
    }
}

fn poll_readback(
    c: &mut ControlCoordinator,
    check: PendingVerification,
    read: &Readback,
    feed: &ThermalFeed,
    now: u64,
) -> (r: (PendingVerification, Option<Verification>))
    ensures
        r == readback_verdict(*old(c), check, *read, *feed, now),
        r.1 is None ==> *final(c) == *old(c),
        r.1 matches Some(v) ==> *final(c) == shown_in(*old(c), r.0, v, now),
{
    proof {
        reveal(readback_verdict);
        reveal(shown_in);
    }
    if let Target::Fan(_) = check.target {
        if c.safety.override_active() {
            return (
                check,
                Some(
                    Verification::Failed {
                        expected: Evidence::RequestedFanTarget,
                        actual: Evidence::ThermalOverride,
                    },
                ),
            );
        }
    }
    let mut check = check;
    let v = check.poll(read, feed, now);
    if let Some(Verification::Verified) = v {
        stamp_verified(&mut c.observed, check.actual_target.unwrap_or(check.target), now);
    }
    (check, v)
}

fn fill_verdict(steps: &mut Vec<StepOutcome>, check: &PendingVerification, v: &Verification)
    ensures
        final(steps)@ == with_verdict(old(steps)@, *check, *v),
{
    let n: usize = steps.len();
    if n > 0 {
        let ghost before = steps@;
        let last = steps.pop();
        if let Some(step) = last {
            steps.push(
                StepOutcome {
                    step: step.step,
                    firmware_return: step.firmware_return,
                    before: step.before,
                    after: Some(Note::Readback { verdict: v.clone(), readback: check.actual_target }),
                    verification: v.clone(),
                },
            );
        }
        assert(steps@ =~= with_verdict(before, *check, *v));
    }
}

impl ActivePlan {
    fn finish(&mut self, c: &mut ControlCoordinator, status: ControlStatus, now: u64) -> (r: PlanProgress)
        ensures
            ends_with(*old(self), *old(c), *final(self), *final(c), status, now, r),
    {
        finish_state(c, &self.command, self.steps.len() > 0, &status, now);
        self.stage = PlanStage::Finishing(status);
        PlanProgress::Ask(Request::SaveLedger(c.ledger()))
    }

    fn go_on(&mut self, c: &mut ControlCoordinator, now: u64) -> (r: PlanProgress)
        requires
            old(self).index <= old(self).plan@.len(),
        ensures
            goes_on(*old(self), *old(c), *final(self), *final(c), now, r),
            final(self).wf(*final(c)),
    {
        if self.index == self.plan.len() {
            let weakest = self.weakest.clone();
            self.finish(c, ControlStatus::Applied { verification: weakest }, now)
        } else {
            self.stage = PlanStage::Ready;
            PlanProgress::More
        }
    }

    fn step_on(&mut self, c: &mut ControlCoordinator, weakest: Verification, now: u64) -> (r: PlanProgress)
        requires
            old(self).index < old(self).plan@.len(),
        ensures
            ({
                let p = *old(self);
                let next = ActivePlan { index: (p.index + 1) as usize, weakest, ..p };
                if p.restore_scope_steps != 0 && p.index + 1 == p.restore_scope_steps {
                    &&& stage_only(next, *final(self))
                    &&& final(self).stage is ScopeSaving
                    &&& *final(c) == scope_left(*old(c))
                    &&& r == PlanProgress::Ask(Request::SaveLedger(final(c).spec_ledger()))
                } else {
                    goes_on(next, *old(c), *final(self), *final(c), now, r)
                }
            }),
            final(self).wf(*final(c)),
    {
        let len: usize = self.plan.len();
        assert(self.index < len);
        self.weakest = weakest;
        self.index = self.index + 1;
        if self.restore_scope_steps != 0 && self.index == self.restore_scope_steps {
            leave_scope(c);
            self.stage = PlanStage::ScopeSaving;
            PlanProgress::Ask(Request::SaveLedger(c.ledger()))
        } else {
            self.go_on(c, now)
        }
    }

    fn judge(&mut self, c: &mut ControlCoordinator, status: ControlStatus, now: u64) -> (r: PlanProgress)
        requires
            old(self).index < old(self).plan@.len(),
        ensures
            judged(*old(self), *old(c), *final(self), *final(c), status, now, r),
            final(self).wf(*final(c)),
    {
        match status {
            ControlStatus::Applied { verification } => {
                if let Verification::Failed { .. } = &verification {
                    let end = if self.index == 0 && self.plan.len() == 1 {
                        ControlStatus::Applied { verification }
                    } else {
                        ControlStatus::Partial
                    };
                    self.finish(c, end, now)
                } else {
                    let weakest = weakest_verification(&self.weakest, &verification);
                    self.step_on(c, weakest, now)
                }
            },
            ControlStatus::Rejected { error } => {
                let end = if self.index == 0 {
                    ControlStatus::Rejected { error }
                } else {
                    ControlStatus::Partial
                };
                self.finish(c, end, now)
            },
            ControlStatus::Partial => {
                c.clear_profile_stamp();
                self.finish(c, ControlStatus::Partial, now)
            },
        }
    }

    fn settle(&mut self, c: &mut ControlCoordinator, status: ControlStatus, now: u64) -> (r: PlanProgress)
        requires
            old(self).index < old(self).plan@.len(),
        ensures
            settled(*old(self), *old(c), *final(self), *final(c), status, now, r),
            final(self).wf(*final(c)),
    {
        end_step(c, &self.plan[self.index], &status, now);
        match c.verification_requested {
            Some(check) => {
                take_readback(c);
                self.stage = PlanStage::Waiting(check);
                PlanProgress::Wait { due: check.next_due }
            },
            None => self.judge(c, status, now),
        }
    }

    fn after_turn(&mut self, c: &mut ControlCoordinator, run: ExecRun, progress: Progress, now: u64) -> (r: PlanProgress)
        requires
            old(self).index < old(self).plan@.len(),
            run.wf(*old(c)),
        ensures
            stepped(*old(self), *old(c), *final(self), *final(c), run, progress, now, r),
            final(self).wf(*final(c)),
    {
        match progress {
            Progress::Ask(request) => {
                self.stage = PlanStage::Executing(run);
                PlanProgress::Ask(request)
            },
            Progress::Done(status) => self.settle(c, status, now),
            Progress::HandBack(status) => self.settle(c, status, now),
        }
    }

    /// Starts the next step, or says when the next readback is due. A plan
    /// that a hand-back has voided ends; so does one whose next step is
    /// refused by now.
    pub fn advance(&mut self, c: &mut ControlCoordinator, feed: &ThermalFeed, now: u64) -> (r: PlanProgress)
        requires
            old(self).wf(*old(c)),
            old(self).stage is Ready || old(self).stage is Waiting,
        ensures
            final(self).wf(*final(c)),
            ({
                let p = *old(self);
                let cmd = p.plan@[p.index as int];
                if p.epoch != old(c).control_epoch {
                    ends_with(p, *old(c), *final(self), *final(c), ControlStatus::Partial, now, r)
                } else {
                    match p.stage {
                        PlanStage::Waiting(check) => {
                            *final(self) == p && *final(c) == *old(c) && r == (PlanProgress::Wait {
                                due: check.next_due,
                            })
                        },
                        _ => match step_refusal(*old(c), cmd, *feed, now) {
                            Some(error) => ends_with(
                                p,
                                *old(c),
                                *final(self),
                                *final(c),
                                if p.index == 0 { ControlStatus::Rejected { error } } else { ControlStatus::Partial },
                                now,
                                r,
                            ),
                            None => {
                                let turn = exec_start(readback_taken(*old(c)), cmd, p.scratch@, *feed, now);
                                exists|mid: ActivePlan|
                                    {
                                        &&& same_plan_as(p, mid)
                                        &&& mid.index == p.index
                                        &&& mid.weakest == p.weakest
                                        &&& mid.steps@ == p.steps@ + turn.steps
                                        &&& mid.scratch@ == turn.scratch
                                        &&& #[trigger] stepped(
                                            mid,
                                            turn.coordinator,
                                            *final(self),
                                            *final(c),
                                            turn.run,
                                            turn.progress,
                                            now,
                                            r,
                                        )
                                    }
                            },
                        },
                    }
                }
            }),
    {
        if self.epoch != c.control_epoch {
            return self.finish(c, ControlStatus::Partial, now);
        }
        if let PlanStage::Waiting(check) = &self.stage {
            return PlanProgress::Wait { due: check.next_due };
        }
        let command = self.plan[self.index].clone();
        if let Err(error) = c.safety.validate_under(&command, &c.caps, feed, false, now) {
            let status = if self.index == 0 {
                ControlStatus::Rejected { error }
            } else {
                ControlStatus::Partial
            };
            return self.finish(c, status, now);
        }
        take_readback(c);
        let (run, progress) = exec_one(c, &command, &mut self.steps, &mut self.scratch, feed, now);
        let ghost mid = *self;
        self.after_turn(c, run, progress, now)
    }

    /// Takes in a readback. While nothing is decided the plan waits on; a
    /// verdict is filled into the last step's evidence and judged.
    pub fn polled(&mut self, c: &mut ControlCoordinator, read: &Readback, feed: &ThermalFeed, now: u64) -> (r: PlanProgress)
        requires
            old(self).wf(*old(c)),
            old(self).stage is Waiting,
        ensures
            final(self).wf(*final(c)),
            ({
                let p = *old(self);
                let (check, v) = readback_verdict(*old(c), p.stage->Waiting_0, *read, *feed, now);
                if p.epoch != old(c).control_epoch {
                    ends_with(p, *old(c), *final(self), *final(c), ControlStatus::Partial, now, r)
                } else {
                    match v {
                        None => {
                            &&& stage_only(p, *final(self))
                            &&& final(self).stage == PlanStage::Waiting(check)
                            &&& *final(c) == *old(c)
                            &&& r == (PlanProgress::Wait { due: check.next_due })
                        },
                        Some(v) => exists|mid: ActivePlan|
                            {
                                &&& same_plan_as(p, mid)
                                &&& mid.index == p.index
                                &&& mid.weakest == p.weakest
                                &&& mid.steps@ == with_verdict(p.steps@, check, v)
                                &&& mid.scratch@ == p.scratch@
                                &&& #[trigger] judged(
                                    mid,
                                    shown_in(*old(c), check, v, now),
                                    *final(self),
                                    *final(c),
                                    ControlStatus::Applied { verification: v },
                                    now,
                                    r,
                                )
                            },
                    }
                }
            }),
    {
        if self.epoch != c.control_epoch {
            return self.finish(c, ControlStatus::Partial, now);
        }
        let waiting = match &self.stage {
            PlanStage::Waiting(check) => *check,
            _ => unreached(),
        };
        let (check, v) = poll_readback(c, waiting, read, feed, now);
        match v {
            None => {
                self.stage = PlanStage::Waiting(check);
                PlanProgress::Wait { due: check.next_due }
            },
            Some(v) => {
                fill_verdict(&mut self.steps, &check, &v);
                let ghost mid = *self;
                self.judge(c, ControlStatus::Applied { verification: v }, now)
            },
        }
    }

    /// The reply that the plan waits for.
    pub open spec fn accepts(self, c: ControlCoordinator, reply: Reply) -> bool {
        match self.stage {
            PlanStage::Executing(run) => run.accepts(c, reply),
            PlanStage::ScopeSaving => reply is Saved,
            PlanStage::Finishing(_) => reply is Saved,
            _ => false,
        }
    }

    /// The outcome of a plan that is over.
    pub open spec fn outcome_is(self, o: ControlOutcome, status: ControlStatus, now: u64) -> bool {
        &&& o.receipt == self.receipt
        &&& o.command == self.command
        &&& o.status == status
        &&& o.steps@ == self.steps@
        &&& o.duration == age(now, self.started)
    }

    fn close(&mut self, status: ControlStatus, now: u64) -> (r: ControlOutcome)
        ensures
            old(self).outcome_is(r, status, now),
            final(self).stage is Ended,
    {
        self.stage = PlanStage::Ended;
        let mut steps: Vec<StepOutcome> = Vec::new();
        core::mem::swap(&mut self.steps, &mut steps);
        ControlOutcome {
            receipt: self.receipt,
            command: self.command.clone(),
            status,
            steps,
            duration: elapsed(now, self.started),
        }
    }

    /// Goes on with what came back. A ledger that could not be saved leaves a
    /// notice and stops nothing.
    pub fn resume(
        &mut self,
        c: &mut ControlCoordinator,
        out: &mut Vec<JournalEvent>,
        reply: Reply,
        feed: &ThermalFeed,
        now: u64,
    ) -> (r: PlanProgress)
        requires
            old(self).wf(*old(c)),
            old(self).accepts(*old(c), reply),
        ensures
            final(self).wf(*final(c)),
            match old(self).stage {
                PlanStage::Executing(run) => {
                    let p = *old(self);
                    let turn = run.spec_resume(*old(c), p.scratch@, reply, *feed, now);
                    &&& event_views(final(out)@) == event_views(old(out)@) + turn.events
                    &&& exists|mid: ActivePlan|
                        {
                            &&& same_plan_as(p, mid)
                            &&& mid.index == p.index
                            &&& mid.weakest == p.weakest
                            &&& mid.steps@ == p.steps@ + turn.steps
                            &&& mid.scratch@ == turn.scratch
                            &&& #[trigger] stepped(
                                mid,
                                turn.coordinator,
                                *final(self),
                                *final(c),
                                turn.run,
                                turn.progress,
                                now,
                                r,
                            )
                        }
                },
                PlanStage::ScopeSaving => {
                    &&& final(out)@ == old(out)@
                    &&& goes_on(
                        *old(self),
                        noted(*old(c), reply->Saved_0),
                        *final(self),
                        *final(c),
                        now,
                        r,
                    )
                },
                PlanStage::Finishing(status) => {
                    &&& final(out)@ == old(out)@
                    &&& *final(c) == noted(*old(c), reply->Saved_0)
                    &&& final(self).stage is Ended
                    &&& r matches PlanProgress::Done(o) && old(self).outcome_is(o, status, now)
                },
                _ => true,
            },
    {
        let mut stage = PlanStage::Ended;
        core::mem::swap(&mut stage, &mut self.stage);
        match stage {
            PlanStage::Executing(run) => {
                let (run, progress) = run.resume(c, &mut self.steps, &mut self.scratch, out, reply, feed, now);
                let ghost mid = *self;
                self.after_turn(c, run, progress, now)
            },
            PlanStage::ScopeSaving => {
                note_error(c, saved_result(reply));
                let ghost mid = *self;
                self.go_on(c, now)
            },
            PlanStage::Finishing(status) => {
                note_error(c, saved_result(reply));
                PlanProgress::Done(self.close(status, now))
            },
            _ => unreached(),
        }
    }

    /// Ends the plan at once because the writer is shutting down.
    pub fn abandon(&mut self, c: &mut ControlCoordinator, now: u64) -> (r: PlanProgress)
        ensures
            ends_with(*old(self), *old(c), *final(self), *final(c), ControlStatus::Partial, now, r),
            final(self).wf(*final(c)),
    {
        self.finish(c, ControlStatus::Partial, now)
    }
}

/// The ledger with a new automatic session has been saved, or could not be:
/// then the session does not start, and its command is rejected before any
/// write.
pub fn scope_saved(
    c: &mut ControlCoordinator,
    plan: ActivePlan,
    result: Result<(), ControlError>,
    now: u64,
) -> (r: Result<ActivePlan, ControlOutcome>)
    ensures
        match result {
            Ok(_) => *final(c) == *old(c) && r == Ok::<ActivePlan, ControlOutcome>(plan),
            Err(error) => {
                &&& *final(c) == (ControlCoordinator { scoped_session: None, ..*old(c) })
                &&& r matches Err(o) && bare_outcome(
                    o,
                    plan.receipt,
                    plan.command,
                    ControlStatus::Rejected { error },
                    age(now, plan.started),
                )
            },
        },
{
    match result {
        Ok(()) => Ok(plan),
        Err(error) => {
            c.scoped_session = None;
            Err(
                outcome_without_steps(
                    plan.receipt,
                    plan.command,
                    ControlStatus::Rejected { error },
                    elapsed(now, plan.started),
                ),
            )
        },
    }
}

/// A profile gives the machine its name only if its plan succeeded: after a
/// rejected, partial or unverified plan that took a step there is none.
pub proof fn name_only_after_success(
    c: ControlCoordinator,
    cmd: ControlCommand,
    took_steps: bool,
    status: ControlStatus,
    now: u64,
)
    ensures
        status.succeeded() && applied_profile(cmd) is Some ==> {
            &&& finished(c, cmd, took_steps, status, now).observed.active_profile == applied_profile(cmd)
            &&& finished(c, cmd, took_steps, status, now).desired.profile == applied_profile(cmd)
        },
        !status.succeeded() ==> finished(c, cmd, took_steps, status, now).desired.profile == c.desired.profile,
        !status.succeeded() && took_steps ==> finished(
            c,
            cmd,
            took_steps,
            status,
            now,
        ).observed.active_profile is None,
{
    reveal(finished);
}

/// Recording a direct setting takes any profile name away: what a named
/// profile set up no longer describes the machine.
pub proof fn direct_setting_clears_the_name(c: ControlCoordinator, cmd: ControlCommand, status: ControlStatus, now: u64)
    requires
        status is Applied,
        !(cmd is ApplyProfile),
    ensures
        step_ended(c, cmd, status, now).desired.profile is None,
        step_ended(c, cmd, status, now).observed.active_profile is None,
{
    reveal(step_ended);
}

} // verus!
