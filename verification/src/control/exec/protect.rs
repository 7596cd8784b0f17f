//! The safety net at work: forcing max fan, releasing it again, and handing a
//! blind controller's fans back to firmware.
use vstd::pervasive::unreached;
use vstd::prelude::*;

use super::fan::{max_fan_written, FanRun};
use super::restore::{note_max_fan, RestoreRun};
use crate::control::coordinator::ControlCoordinator;
use crate::control::exchange::{asked, request_of, written_result, HpWrite, Progress, Reply, Request};
use crate::control::journal::{event_views, log_event, EventView, JournalEvent, JournalOrigin};
use crate::control::safety::{age, elapsed, SafetyAction, SafetySupervisor, ThermalFeed};
use crate::domain::command::{
    control_status_succeeded, hp_written_step, written_step, ControlCommand, ControlReceipt, ControlStatus, Note, Step,
    StepOutcome, Verification,
};
use crate::domain::error::{ControlError, HpWmiError, Missing};
use crate::domain::policy::FanMode;
use crate::domain::state::{ControlNotice, ObservedState};

verus! {

/// Where a safety action stands.
#[derive(Debug, PartialEq)]
pub enum ProtectStage {
    ForcingMax,
    /// Releasing the overlay before the saved mode is restored.
    Releasing(FanMode),
    /// Restoring the saved mode.
    Restoring(FanMode, FanRun),
    /// Handing back because the saved mode could not be restored.
    HandingBack(FanMode, RestoreRun, ControlStatus),
    /// Forcing max fan again because the release failed.
    Rearming(FanMode, ControlStatus),
    Watchdog(RestoreRun),
    Ended,
}

/// A safety action under way.
#[derive(Debug, PartialEq)]
pub struct ProtectRun {
    pub started: u64,
    pub stage: ProtectStage,
}

/// One turn of a safety action: where it stands, the writer's state, its
/// evidence so far, the evidence of a hand-back so far, what is added to the
/// journal, and what it does next.
pub ghost struct Protection<R, C, S, E, P> {
    pub stage: R,
    pub coordinator: C,
    pub steps: S,
    pub scratch: S,
    pub events: E,
    pub next: P,
}

/// A turn of a safety action; without a next request it is over.
pub type ProtectTurn = Protection<ProtectStage, ControlCoordinator, Seq<StepOutcome>, Seq<EventView>, Option<Request>>;

/// The state with the overlay forced on: this session owes the fans.
#[verifier::opaque]
pub open spec fn max_forced(c: ControlCoordinator, now: u64) -> ControlCoordinator {
    ControlCoordinator { fan_control_dirty: true, ..max_fan_written(c, true, now) }
}

/// The state in which the override holds on, to release to `mode` later.
#[verifier::opaque]
pub open spec fn override_retained(c: ControlCoordinator, mode: FanMode) -> ControlCoordinator {
    ControlCoordinator { safety: SafetySupervisor { override_saved: Some(mode), ..c.safety }, ..c }
}

/// The state in which the safety net has taken the fans over.
#[verifier::opaque]
pub open spec fn taken_over(c: ControlCoordinator) -> ControlCoordinator {
    ControlCoordinator {
        observed: ObservedState {
            active_profile: None,
            control_notice: Some(ControlNotice::ThermalTakeover),
            ..c.observed
        },
        ..c
    }
}

fn force_max(c: &mut ControlCoordinator, now: u64)
    ensures
        *final(c) == max_forced(*old(c), now),
{
    proof {
        reveal(max_forced);
    }
    note_max_fan(c, true, now);
    c.fan_control_dirty = true;
}

fn retain(c: &mut ControlCoordinator, mode: FanMode)
    ensures
        *final(c) == override_retained(*old(c), mode),
{
    proof {
        reveal(override_retained);
    }
    c.safety.retain_override(mode);
}

fn take_over(c: &mut ControlCoordinator)
    ensures
        *final(c) == taken_over(*old(c)),
{
    proof {
        reveal(taken_over);
    }
    c.observed.active_profile = None;
    c.observed.control_notice = Some(ControlNotice::ThermalTakeover);
}

/// The journal entry of a safety action.
pub open spec fn safety_event(mode: FanMode, status: ControlStatus, steps: Seq<StepOutcome>, duration: int) -> EventView {
    EventView {
        origin: JournalOrigin::Safety,
        receipt: ControlReceipt(0),
        command: ControlCommand::SetFanMode(mode),
        status,
        steps,
        duration: duration as u64,
    }
}

/// The action goes on.
pub open spec fn going(
    stage: ProtectStage,
    c: ControlCoordinator,
    steps: Seq<StepOutcome>,
    scratch: Seq<StepOutcome>,
    request: Request,
) -> ProtectTurn {
    Protection { stage, coordinator: c, steps, scratch, events: Seq::empty(), next: Some(request) }
}

/// The action is over and journaled with its evidence.
#[verifier::opaque]
pub open spec fn over(
    started: u64,
    c: ControlCoordinator,
    mode: FanMode,
    status: ControlStatus,
    steps: Seq<StepOutcome>,
    scratch: Seq<StepOutcome>,
    now: u64,
) -> ProtectTurn {
    Protection {
        stage: ProtectStage::Ended,
        coordinator: c,
        steps: Seq::empty(),
        scratch,
        events: seq![safety_event(mode, status, steps, age(now, started))],
        next: None,
    }
}

/// What follows the attempt to restore the saved mode. A failed release
/// keeps the override and forces max fan again: the machine is never
/// left without a thermal curve of anybody's.
#[verifier::opaque]
pub open spec fn after_release(
    started: u64,
    c: ControlCoordinator,
    mode: FanMode,
    status: ControlStatus,
    steps: Seq<StepOutcome>,
    scratch: Seq<StepOutcome>,
    now: u64,
) -> ProtectTurn {
    if status.succeeded() {
        over(started, c, mode, status, steps, scratch, now)
    } else if c.observed.max_fan.known() != Some(true) && c.hp_present {
        going(
            ProtectStage::Rearming(mode, status),
            override_retained(c, mode),
            steps,
            scratch,
            Request::Write(HpWrite::MaxFan(true)),
        )
    } else {
        over(started, override_retained(c, mode), mode, status, steps, scratch, now)
    }
}

/// Starts to restore the saved mode.
#[verifier::opaque]
pub open spec fn restore_mode(
    started: u64,
    c: ControlCoordinator,
    mode: FanMode,
    steps: Seq<StepOutcome>,
    scratch: Seq<StepOutcome>,
    now: u64,
) -> ProtectTurn {
    let t = FanRun::spec_start(c, mode);
    match t.progress {
        Progress::Ask(request) => going(
            ProtectStage::Restoring(mode, t.run),
            t.coordinator,
            steps,
            scratch,
            request,
        ),
        Progress::Done(status) => after_release(started, t.coordinator, mode, status, steps, scratch, now),
        Progress::HandBack(status) => after_release(started, t.coordinator, mode, status, steps, scratch, now),
    }
}

/// What a safety action starts with. An override is an overlay: it is
/// released first, unless the saved mode is max fan itself.
pub open spec fn protect_start(started: u64, c: ControlCoordinator, action: SafetyAction, now: u64) -> ProtectTurn {
    match action {
        SafetyAction::ForceMaxFan => if c.hp_present {
            going(
                ProtectStage::ForcingMax,
                taken_over(c),
                Seq::empty(),
                Seq::empty(),
                Request::Write(HpWrite::MaxFan(true)),
            )
        } else {
            over(
                started,
                taken_over(c),
                FanMode::Max,
                ControlStatus::Rejected {
                    error: ControlError::BackendUnavailable { what: Missing::HpPlatform },
                },
                Seq::empty(),
                Seq::empty(),
                now,
            )
        },
        SafetyAction::ReleaseTo(mode) => if c.observed.max_fan.known() == Some(true) && mode != FanMode::Max {
            if c.hp_present {
                going(
                    ProtectStage::Releasing(mode),
                    c,
                    Seq::empty(),
                    Seq::empty(),
                    Request::Write(HpWrite::MaxFan(false)),
                )
            } else {
                after_release(started, c, mode, ControlStatus::Partial, Seq::empty(), Seq::empty(), now)
            }
        } else {
            restore_mode(started, c, mode, Seq::empty(), Seq::empty(), now)
        },
        SafetyAction::WatchdogRestoreAuto => watchdog_start(c, now),
    }
}

/// What follows the reply to a forced max fan. A failure is not claimed
/// as applied.
#[verifier::opaque]
pub open spec fn after_force(
    started: u64,
    c: ControlCoordinator,
    steps: Seq<StepOutcome>,
    scratch: Seq<StepOutcome>,
    result: Result<(), HpWmiError>,
    now: u64,
) -> ProtectTurn {
    let more = steps.push(hp_written_step(Step::SafetyMaxFanOn, result, Note::ThermalOverride));
    if result is Ok {
        over(
                started,
                max_forced(c, now),
            FanMode::Max,
            ControlStatus::Applied { verification: Verification::TrustedNoReadback },
            more,
            scratch,
            now,
        )
    } else {
        over(started, c, FanMode::Max, ControlStatus::Partial, more, scratch, now)
    }
}

#[verifier::opaque]
pub open spec fn after_overlay(
    started: u64,
    c: ControlCoordinator,
    mode: FanMode,
    steps: Seq<StepOutcome>,
    scratch: Seq<StepOutcome>,
    result: Result<(), HpWmiError>,
    now: u64,
) -> ProtectTurn {
    let more = steps.push(hp_written_step(Step::SafetyMaxFanOff, result, Note::ReleaseOverride));
    if result is Ok {
        restore_mode(started, max_fan_written(c, false, now), mode, more, scratch, now)
    } else {
        after_release(started, c, mode, ControlStatus::Partial, more, scratch, now)
    }
}

#[verifier::opaque]
pub open spec fn after_fan(
    started: u64,
    c: ControlCoordinator,
    mode: FanMode,
    run: FanRun,
    steps: Seq<StepOutcome>,
    scratch: Seq<StepOutcome>,
    reply: Reply,
    feed: ThermalFeed,
    now: u64,
) -> ProtectTurn {
    let t = run.spec_resume(c, reply, feed, now);
    let more = steps + t.steps;
    match t.progress {
        Progress::Ask(request) => going(
            ProtectStage::Restoring(mode, t.run),
            t.coordinator,
            more,
            scratch,
            request,
        ),
        Progress::Done(status) => after_release(started, t.coordinator, mode, status, more, scratch, now),
        Progress::HandBack(status) => {
            let h = RestoreRun::spec_start(t.coordinator, JournalOrigin::Safety, now);
            Protection {
                stage: ProtectStage::HandingBack(mode, h.run, status),
                coordinator: h.coordinator,
                steps: more,
                scratch: Seq::empty(),
                events: Seq::empty(),
                next: request_of(h.progress),
            }
        },
    }
}

#[verifier::opaque]
pub open spec fn after_hand_back(
    started: u64,
    c: ControlCoordinator,
    mode: FanMode,
    run: RestoreRun,
    status: ControlStatus,
    steps: Seq<StepOutcome>,
    scratch: Seq<StepOutcome>,
    reply: Reply,
    feed: ThermalFeed,
    now: u64,
) -> ProtectTurn {
    let h = run.spec_resume(c, scratch, reply, feed, now);
    match h.progress {
        Progress::Ask(request) => Protection {
            stage: ProtectStage::HandingBack(mode, h.run, status),
            coordinator: h.coordinator,
            steps,
            scratch: h.steps,
            events: h.events,
            next: Some(request),
        },
        _ => {
            let t = after_release(started, h.coordinator, mode, status, steps, h.steps, now);
            Protection { events: h.events + t.events, ..t }
        },
    }
}

#[verifier::opaque]
pub open spec fn after_rearm(
    started: u64,
    c: ControlCoordinator,
    mode: FanMode,
    status: ControlStatus,
    steps: Seq<StepOutcome>,
    scratch: Seq<StepOutcome>,
    result: Result<(), HpWmiError>,
    now: u64,
) -> ProtectTurn {
    let more = steps.push(hp_written_step(Step::SafetyRearmMaxFan, result, Note::FailedRelease));
    over(started, if result is Ok { max_forced(c, now) } else { c }, mode, status, more, scratch, now)
}

impl ProtectRun {
    /// The reply that the action waits for.
    pub open spec fn accepts(self, c: ControlCoordinator, reply: Reply) -> bool {
        match self.stage {
            ProtectStage::ForcingMax | ProtectStage::Releasing(_) | ProtectStage::Rearming(_, _) => reply is Written,
            ProtectStage::Restoring(_, run) => run.accepts(reply),
            ProtectStage::HandingBack(_, run, _) => run.accepts(c, reply),
            ProtectStage::Watchdog(run) => run.accepts(c, reply),
            ProtectStage::Ended => false,
        }
    }

    /// The action's operation is well-formed.
    pub open spec fn wf(self, c: ControlCoordinator) -> bool {
        stage_wf(self.stage, c)
    }

    /// What follows the reply to the stage's request.
    pub open spec fn spec_resume(
        self,
        c: ControlCoordinator,
        steps: Seq<StepOutcome>,
        scratch: Seq<StepOutcome>,
        reply: Reply,
        feed: ThermalFeed,
        now: u64,
    ) -> ProtectTurn {
        match self.stage {
            ProtectStage::ForcingMax => after_force(self.started, c, steps, scratch, reply->Written_0, now),
            ProtectStage::Releasing(mode) => after_overlay(self.started, c, mode, steps, scratch, reply->Written_0, now),
            ProtectStage::Restoring(mode, run) => after_fan(self.started, c, mode, run, steps, scratch, reply, feed, now),
            ProtectStage::HandingBack(mode, run, status) => after_hand_back(
                self.started,
                c,
                mode,
                run,
                status,
                steps,
                scratch,
                reply,
                feed,
                now,
            ),
            ProtectStage::Rearming(mode, status) => after_rearm(
                self.started,
                c,
                mode,
                status,
                steps,
                scratch,
                reply->Written_0,
                now,
            ),
            ProtectStage::Watchdog(run) => watchdog_turn(run, c, steps, scratch, reply, feed, now),
            ProtectStage::Ended => arbitrary(),
        }
    }
}

/// The operation of a stage is well-formed.
pub open spec fn stage_wf(stage: ProtectStage, c: ControlCoordinator) -> bool {
    match stage {
        ProtectStage::Restoring(_, run) => run.wf(),
        ProtectStage::HandingBack(_, run, _) => run.wf(c),
        ProtectStage::Watchdog(run) => run.wf(c),
        _ => true,
    }
}

/// The sensors froze: the machine goes back to firmware.
#[verifier::opaque]
pub open spec fn watchdog_start(c: ControlCoordinator, now: u64) -> ProtectTurn {
    let h = RestoreRun::spec_start(c, JournalOrigin::Safety, now);
    Protection {
        stage: ProtectStage::Watchdog(h.run),
        coordinator: h.coordinator,
        steps: Seq::empty(),
        scratch: Seq::empty(),
        events: Seq::empty(),
        next: request_of(h.progress),
    }
}

#[verifier::opaque]
pub open spec fn watchdog_turn(
    run: RestoreRun,
    c: ControlCoordinator,
    steps: Seq<StepOutcome>,
    scratch: Seq<StepOutcome>,
    reply: Reply,
    feed: ThermalFeed,
    now: u64,
) -> ProtectTurn {
    let h = run.spec_resume(c, scratch, reply, feed, now);
    Protection {
        stage: if h.progress is Ask { ProtectStage::Watchdog(h.run) } else { ProtectStage::Ended },
        coordinator: h.coordinator,
        steps,
        scratch: h.steps,
        events: h.events,
        next: request_of(h.progress),
    }
}

/// The parts of a safety action's turn agree with what happened.
pub open spec fn protects(
    turn: ProtectTurn,
    stage: ProtectStage,
    c: ControlCoordinator,
    steps: Seq<StepOutcome>,
    scratch: Seq<StepOutcome>,
    logged_before: Seq<EventView>,
    logged: Seq<EventView>,
    next: Option<Request>,
) -> bool {
    &&& stage == turn.stage
    &&& c == turn.coordinator
    &&& steps == turn.steps
    &&& scratch == turn.scratch
    &&& logged == logged_before + turn.events
    &&& next == turn.next
}

proof fn none_added(s: Seq<EventView>)
    ensures
        s + Seq::<EventView>::empty() == s,
{
    assert(s + Seq::<EventView>::empty() =~= s);
}

fn take_steps(steps: &mut Vec<StepOutcome>) -> (r: Vec<StepOutcome>)
    ensures
        r@ == old(steps)@,
        final(steps)@ == Seq::<StepOutcome>::empty(),
{
    let mut taken: Vec<StepOutcome> = Vec::new();
    assert(taken@ =~= Seq::<StepOutcome>::empty());
    core::mem::swap(steps, &mut taken);
    taken
}


fn end_action(
    started: u64,
    c: &mut ControlCoordinator,
    mode: FanMode,
    status: ControlStatus,
    steps: &mut Vec<StepOutcome>,
    scratch: &mut Vec<StepOutcome>,
    out: &mut Vec<JournalEvent>,
    now: u64,
) -> (r: (ProtectStage, Option<Request>))
    ensures
        protects(
            over(started, *old(c), mode, status, old(steps)@, old(scratch)@, now),
            r.0,
            *final(c),
            final(steps)@,
            final(scratch)@,
            event_views(old(out)@),
            event_views(final(out)@),
            r.1,
        ),
        stage_wf(r.0, *final(c)),
{
    proof {
        reveal(over);
    }
    let ghost logged = event_views(out@);
    let ghost events = over(started, *c, mode, status, steps@, scratch@, now).events;
    let taken = take_steps(steps);
    log_event(
        out,
        JournalOrigin::Safety,
        ControlCommand::SetFanMode(mode),
        status,
        taken,
        elapsed(now, started),
    );
    assert(event_views(out@) =~= logged + events);
    (ProtectStage::Ended, None)
}

fn finish_release(
    started: u64,
    c: &mut ControlCoordinator,
    mode: FanMode,
    status: ControlStatus,
    steps: &mut Vec<StepOutcome>,
    scratch: &mut Vec<StepOutcome>,
    out: &mut Vec<JournalEvent>,
    now: u64,
) -> (r: (ProtectStage, Option<Request>))
    ensures
        protects(
            after_release(started, *old(c), mode, status, old(steps)@, old(scratch)@, now),
            r.0,
            *final(c),
            final(steps)@,
            final(scratch)@,
            event_views(old(out)@),
            event_views(final(out)@),
            r.1,
        ),
        stage_wf(r.0, *final(c)),
{
    proof {
        reveal(after_release);
    }
    if control_status_succeeded(&status) {
        return end_action(started, c, mode, status, steps, scratch, out, now);
    }
    let rearm = c.observed.max_fan.get() != Some(true) && c.hp_present;
    retain(c, mode);
    if rearm {
        proof {
            none_added(event_views(out@));
        }
        (ProtectStage::Rearming(mode, status), Some(Request::Write(HpWrite::MaxFan(true))))
    } else {
        end_action(started, c, mode, status, steps, scratch, out, now)
    }
}

fn begin_mode(
    started: u64,
    c: &mut ControlCoordinator,
    mode: FanMode,
    steps: &mut Vec<StepOutcome>,
    scratch: &mut Vec<StepOutcome>,
    out: &mut Vec<JournalEvent>,
    now: u64,
) -> (r: (ProtectStage, Option<Request>))
    ensures
        protects(
            restore_mode(started, *old(c), mode, old(steps)@, old(scratch)@, now),
            r.0,
            *final(c),
            final(steps)@,
            final(scratch)@,
            event_views(old(out)@),
            event_views(final(out)@),
            r.1,
        ),
        stage_wf(r.0, *final(c)),
{
    proof {
        reveal(restore_mode);
    }
    proof {
        none_added(event_views(out@));
    }
    let (run, progress) = FanRun::start(c, mode);
    match progress {
        Progress::Ask(request) => (ProtectStage::Restoring(mode, run), Some(request)),
        Progress::Done(status) => finish_release(started, c, mode, status, steps, scratch, out, now),
        Progress::HandBack(status) => finish_release(started, c, mode, status, steps, scratch, out, now),
    }
}

fn forced(
    started: u64,
    c: &mut ControlCoordinator,
    steps: &mut Vec<StepOutcome>,
    scratch: &mut Vec<StepOutcome>,
    out: &mut Vec<JournalEvent>,
    result: Result<(), HpWmiError>,
    now: u64,
) -> (r: (ProtectStage, Option<Request>))
    ensures
        protects(
            after_force(started, *old(c), old(steps)@, old(scratch)@, result, now),
            r.0,
            *final(c),
            final(steps)@,
            final(scratch)@,
            event_views(old(out)@),
            event_views(final(out)@),
            r.1,
        ),
        stage_wf(r.0, *final(c)),
{
    proof {
        reveal(after_force);
    }
    steps.push(written_step(Step::SafetyMaxFanOn, &result, Note::ThermalOverride));
    let status = if result.is_ok() {
        force_max(c, now);
        ControlStatus::Applied { verification: Verification::TrustedNoReadback }
    } else {
        ControlStatus::Partial
    };
    end_action(started, c, FanMode::Max, status, steps, scratch, out, now)
}

fn overlay_off(
    started: u64,
    c: &mut ControlCoordinator,
    mode: FanMode,
    steps: &mut Vec<StepOutcome>,
    scratch: &mut Vec<StepOutcome>,
    out: &mut Vec<JournalEvent>,
    result: Result<(), HpWmiError>,
    now: u64,
) -> (r: (ProtectStage, Option<Request>))
    ensures
        protects(
            after_overlay(started, *old(c), mode, old(steps)@, old(scratch)@, result, now),
            r.0,
            *final(c),
            final(steps)@,
            final(scratch)@,
            event_views(old(out)@),
            event_views(final(out)@),
            r.1,
        ),
        stage_wf(r.0, *final(c)),
{
    proof {
        reveal(after_overlay);
    }
    steps.push(written_step(Step::SafetyMaxFanOff, &result, Note::ReleaseOverride));
    if result.is_ok() {
        note_max_fan(c, false, now);
        begin_mode(started, c, mode, steps, scratch, out, now)
    } else {
        finish_release(started, c, mode, ControlStatus::Partial, steps, scratch, out, now)
    }
}

fn fan_replied(
    started: u64,
    c: &mut ControlCoordinator,
    mode: FanMode,
    run: FanRun,
    steps: &mut Vec<StepOutcome>,
    scratch: &mut Vec<StepOutcome>,
    out: &mut Vec<JournalEvent>,
    reply: Reply,
    feed: &ThermalFeed,
    now: u64,
) -> (r: (ProtectStage, Option<Request>))
    requires
        run.accepts(reply),
        run.wf(),
    ensures
        protects(
            after_fan(started, *old(c), mode, run, old(steps)@, old(scratch)@, reply, *feed, now),
            r.0,
            *final(c),
            final(steps)@,
            final(scratch)@,
            event_views(old(out)@),
            event_views(final(out)@),
            r.1,
        ),
        stage_wf(r.0, *final(c)),
{
    proof {
        reveal(after_fan);
    }
    proof {
        none_added(event_views(out@));
    }
    let mut run = run;
    match run.resume(c, steps, reply, feed, now) {
        Progress::Ask(request) => (ProtectStage::Restoring(mode, run), Some(request)),
        Progress::Done(status) => finish_release(started, c, mode, status, steps, scratch, out, now),
        Progress::HandBack(status) => {
            let (restore, progress) = RestoreRun::start(c, JournalOrigin::Safety, now);
            scratch.clear();
            assert(scratch@ =~= Seq::<StepOutcome>::empty());
            (ProtectStage::HandingBack(mode, restore, status), asked(progress))
        },
    }
}

fn hand_back_replied(
    started: u64,
    c: &mut ControlCoordinator,
    mode: FanMode,
    run: RestoreRun,
    status: ControlStatus,
    steps: &mut Vec<StepOutcome>,
    scratch: &mut Vec<StepOutcome>,
    out: &mut Vec<JournalEvent>,
    reply: Reply,
    feed: &ThermalFeed,
    now: u64,
) -> (r: (ProtectStage, Option<Request>))
    requires
        run.wf(*old(c)),
        run.accepts(*old(c), reply),
    ensures
        protects(
            after_hand_back(started, *old(c), mode, run, status, old(steps)@, old(scratch)@, reply, *feed, now),
            r.0,
            *final(c),
            final(steps)@,
            final(scratch)@,
            event_views(old(out)@),
            event_views(final(out)@),
            r.1,
        ),
        stage_wf(r.0, *final(c)),
{
    proof {
        reveal(after_hand_back);
    }
    let ghost logged = event_views(out@);
    let ghost full = after_hand_back(started, *c, mode, run, status, steps@, scratch@, reply, *feed, now);
    let (run, progress) = run.resume(c, scratch, out, reply, feed, now);
    match progress {
        Progress::Ask(request) => (ProtectStage::HandingBack(mode, run, status), Some(request)),
        _ => {
            let r = finish_release(started, c, mode, status, steps, scratch, out, now);
            assert(event_views(out@) =~= logged + full.events);
            r
        },
    }
}

fn rearmed(
    started: u64,
    c: &mut ControlCoordinator,
    mode: FanMode,
    status: ControlStatus,
    steps: &mut Vec<StepOutcome>,
    scratch: &mut Vec<StepOutcome>,
    out: &mut Vec<JournalEvent>,
    result: Result<(), HpWmiError>,
    now: u64,
) -> (r: (ProtectStage, Option<Request>))
    ensures
        protects(
            after_rearm(started, *old(c), mode, status, old(steps)@, old(scratch)@, result, now),
            r.0,
            *final(c),
            final(steps)@,
            final(scratch)@,
            event_views(old(out)@),
            event_views(final(out)@),
            r.1,
        ),
        stage_wf(r.0, *final(c)),
{
    proof {
        reveal(after_rearm);
    }
    steps.push(written_step(Step::SafetyRearmMaxFan, &result, Note::FailedRelease));
    if result.is_ok() {
        force_max(c, now);
    }
    end_action(started, c, mode, status, steps, scratch, out, now)
}

fn watchdog_replied(
    run: RestoreRun,
    c: &mut ControlCoordinator,
    steps: &Vec<StepOutcome>,
    scratch: &mut Vec<StepOutcome>,
    out: &mut Vec<JournalEvent>,
    reply: Reply,
    feed: &ThermalFeed,
    now: u64,
) -> (r: (ProtectStage, Option<Request>))
    requires
        run.wf(*old(c)),
        run.accepts(*old(c), reply),
    ensures
        protects(
            watchdog_turn(run, *old(c), steps@, old(scratch)@, reply, *feed, now),
            r.0,
            *final(c),
            steps@,
            final(scratch)@,
            event_views(old(out)@),
            event_views(final(out)@),
            r.1,
        ),
        stage_wf(r.0, *final(c)),
{
    proof {
        reveal(watchdog_turn);
    }
    let (run, progress) = run.resume(c, scratch, out, reply, feed, now);
    match progress {
        Progress::Ask(request) => (ProtectStage::Watchdog(run), Some(request)),
        _ => (ProtectStage::Ended, None),
    }
}

impl ProtectRun {
    /// Starts a safety action with empty evidence.
    pub fn start(
        c: &mut ControlCoordinator,
        steps: &mut Vec<StepOutcome>,
        scratch: &mut Vec<StepOutcome>,
        out: &mut Vec<JournalEvent>,
        action: SafetyAction,
        now: u64,
    ) -> (r: (ProtectRun, Option<Request>))
        ensures
            protects(
                protect_start(now, *old(c), action, now),
                r.0.stage,
                *final(c),
                final(steps)@,
                final(scratch)@,
                event_views(old(out)@),
                event_views(final(out)@),
                r.1,
            ),
            r.0.started == now,
            r.0.wf(*final(c)),
    {
        proof {
            none_added(event_views(out@));
        }
        steps.clear();
        scratch.clear();
        assert(steps@ =~= Seq::<StepOutcome>::empty());
        assert(scratch@ =~= Seq::<StepOutcome>::empty());
        let (stage, next) = match action {
            SafetyAction::ForceMaxFan => {
                let hp_present = c.hp_present;
                take_over(c);
                if hp_present {
                    (ProtectStage::ForcingMax, Some(Request::Write(HpWrite::MaxFan(true))))
                } else {
                    end_action(
                        now,
                        c,
                        FanMode::Max,
                        ControlStatus::Rejected {
                            error: ControlError::BackendUnavailable { what: Missing::HpPlatform },
                        },
                        steps,
                        scratch,
                        out,
                        now,
                    )
                }
            },
            SafetyAction::ReleaseTo(mode) => {
                let release = c.observed.max_fan.get() == Some(true) && mode != FanMode::Max;
                if !release {
                    begin_mode(now, c, mode, steps, scratch, out, now)
                } else if c.hp_present {
                    (ProtectStage::Releasing(mode), Some(Request::Write(HpWrite::MaxFan(false))))
                } else {
                    finish_release(now, c, mode, ControlStatus::Partial, steps, scratch, out, now)
                }
            },
            SafetyAction::WatchdogRestoreAuto => {
                proof {
                    reveal(watchdog_start);
                }
                let (run, progress) = RestoreRun::start(c, JournalOrigin::Safety, now);
                (ProtectStage::Watchdog(run), asked(progress))
            },
        };
        (ProtectRun { started: now, stage }, next)
    }

    /// Goes on with what came back.
    pub fn resume(
        self,
        c: &mut ControlCoordinator,
        steps: &mut Vec<StepOutcome>,
        scratch: &mut Vec<StepOutcome>,
        out: &mut Vec<JournalEvent>,
        reply: Reply,
        feed: &ThermalFeed,
        now: u64,
    ) -> (r: (ProtectRun, Option<Request>))
        requires
            self.wf(*old(c)),
            self.accepts(*old(c), reply),
        ensures
            protects(
                self.spec_resume(*old(c), old(steps)@, old(scratch)@, reply, *feed, now),
                r.0.stage,
                *final(c),
                final(steps)@,
                final(scratch)@,
                event_views(old(out)@),
                event_views(final(out)@),
                r.1,
            ),
            r.0.started == self.started,
            r.0.wf(*final(c)),
    {
        let started: u64 = self.started;
        let (stage, next) = match self.stage {
            ProtectStage::ForcingMax => forced(started, c, steps, scratch, out, written_result(reply), now),
            ProtectStage::Releasing(mode) => overlay_off(
                started,
                c,
                mode,
                steps,
                scratch,
                out,
                written_result(reply),
                now,
            ),
            ProtectStage::Restoring(mode, run) => fan_replied(
                started,
                c,
                mode,
                run,
                steps,
                scratch,
                out,
                reply,
                feed,
                now,
            ),
            ProtectStage::HandingBack(mode, run, status) => hand_back_replied(
                started,
                c,
                mode,
                run,
                status,
                steps,
                scratch,
                out,
                reply,
                feed,
                now,
            ),
            ProtectStage::Rearming(mode, status) => rearmed(
                started,
                c,
                mode,
                status,
                steps,
                scratch,
                out,
                written_result(reply),
                now,
            ),
            ProtectStage::Watchdog(run) => watchdog_replied(run, c, steps, scratch, out, reply, feed, now),
            ProtectStage::Ended => unreached(),
        };
        (ProtectRun { started, stage }, next)
    }
}

/// A saved max-fan mode is released without an off-and-on detour: the
/// overlay is never switched off on the way to it.
pub proof fn release_to_max_keeps_the_overlay(c: ControlCoordinator, now: u64)
    requires
        c.hp_present,
    ensures
        !(protect_start(now, c, SafetyAction::ReleaseTo(FanMode::Max), now).next == Some(
            Request::Write(HpWrite::MaxFan(false)),
        )),
{
    reveal(restore_mode);
}

/// A release that fails while max fan is off forces it on again and keeps the
/// override.
pub proof fn failed_release_rearms(
    started: u64,
    c: ControlCoordinator,
    mode: FanMode,
    status: ControlStatus,
    steps: Seq<StepOutcome>,
    scratch: Seq<StepOutcome>,
    now: u64,
)
    requires
        !status.succeeded(),
        c.hp_present,
        c.observed.max_fan.known() != Some(true),
    ensures
        ({
            let turn = after_release(started, c, mode, status, steps, scratch, now);
            &&& turn.next == Some(Request::Write(HpWrite::MaxFan(true)))
            &&& turn.coordinator.safety.override_saved == Some(mode)
        }),
{
    reveal(after_release);
    reveal(override_retained);
}

} // verus!
