//! The software fan curve at work: an internal policy update, not a user
//! command. A failed update hands the machine back at once, instead of
//! retrying a blind controller.
use vstd::prelude::*;

use super::restore::RestoreRun;
use crate::control::coordinator::ControlCoordinator;
use crate::control::exchange::{asked, request_of, written_result, HpWrite, Progress, Reply, Request};
use crate::control::fan_curve::{controlling_temp, FanCurveController};
use crate::control::journal::{event_views, log_event, EventView, JournalEvent, JournalOrigin};
use crate::control::safety::ThermalFeed;
use crate::domain::command::{
    hp_written_step, written_step, ControlCommand, ControlReceipt, ControlStatus, Note, Step, StepOutcome, Verification,
};
use crate::domain::error::{ControlError, FirmwareDetail, HpWmiError};
use crate::domain::policy::{FanCurve, FanLevels, FanMode, FINE};

verus! {

/// A new target that is being written.
#[derive(Clone, Copy, Debug, PartialEq, Eq, Structural)]
pub struct CurveWrite {
    pub curve: FanCurve,
    pub target: FanLevels,
    /// The smoothed temperature in fine units.
    pub temp: i128,
    /// The target before.
    pub last: Option<FanLevels>,
    pub at: u64,
}

/// Where an update of the curve target stands.
#[derive(Clone, Copy, Debug, PartialEq, Eq, Structural)]
pub enum CurveRun {
    Writing(CurveWrite),
    HandingBack(RestoreRun),
    Ended,
}

/// One turn of a curve update: where it stands, the writer's state, the
/// evidence of a hand-back so far, what is added to the journal, and what it
/// does next.
pub ghost struct CurveUpdate<R, C, S, E, P> {
    pub run: R,
    pub coordinator: C,
    pub scratch: S,
    pub events: E,
    pub next: P,
}

/// A turn of a curve update; without a next request it is over.
pub type CurveTurn = CurveUpdate<CurveRun, ControlCoordinator, Seq<StepOutcome>, Seq<EventView>, Option<Request>>;

/// The curve that the machine runs.
pub open spec fn running_curve(c: ControlCoordinator) -> Option<FanCurve> {
    match c.observed.fan_mode.known() {
        Some(FanMode::Curve(curve)) => Some(curve),
        _ => None,
    }
}

/// The state with another curve controller.
#[verifier::opaque]
pub open spec fn with_controller(c: ControlCoordinator, fan_curve: FanCurveController) -> ControlCoordinator {
    ControlCoordinator { fan_curve, ..c }
}

fn set_controller(c: &mut ControlCoordinator, fan_curve: FanCurveController)
    ensures
        *final(c) == with_controller(*old(c), fan_curve),
{
    proof {
        reveal(with_controller);
    }
    c.fan_curve = fan_curve;
}

/// The controller once a controlling temperature has been taken in.
pub open spec fn taken_in(k: FanCurveController, temp: i64) -> FanCurveController {
    FanCurveController { smoothed_temp: Some(k.spec_smoothed(temp) as i128), ..k }
}

/// The controller after a write that failed.
pub open spec fn failed_at(k: FanCurveController, at: u64) -> FanCurveController {
    FanCurveController { last_write_at: Some(at), ..k }
}

/// The controller after a write that was accepted.
pub open spec fn written_at(k: FanCurveController, target: FanLevels, at: u64) -> FanCurveController {
    FanCurveController { last_target: Some(target), last_write_at: Some(at), ..k }
}

/// The update is over.
pub open spec fn curve_over(c: ControlCoordinator, scratch: Seq<StepOutcome>) -> CurveTurn {
    CurveUpdate { run: CurveRun::Ended, coordinator: c, scratch, events: Seq::empty(), next: None }
}

/// The update ends in a hand-back.
#[verifier::opaque]
pub open spec fn curve_hand_back(c: ControlCoordinator, now: u64) -> CurveTurn {
    let h = RestoreRun::spec_start(c, JournalOrigin::Safety, now);
    CurveUpdate {
        run: CurveRun::HandingBack(h.run),
        coordinator: h.coordinator,
        scratch: Seq::empty(),
        events: Seq::empty(),
        next: request_of(h.progress),
    }
}

/// What a tick of the curve does: without a running curve the controller
/// forgets; without a fresh temperature, a change or a quiet second nothing
/// is written.
pub open spec fn curve_start(c: ControlCoordinator, scratch: Seq<StepOutcome>, feed: ThermalFeed, now: u64) -> CurveTurn {
    match running_curve(c) {
        None => curve_over(with_controller(c, FanCurveController::spec_new()), scratch),
        Some(curve) => match controlling_temp(feed.pkg_temp, feed.gpu_temp, now) {
            None => curve_over(c, scratch),
            Some(temp) => {
                let smoothed = c.fan_curve.spec_smoothed(temp);
                let levels = curve.spec_target_in(smoothed, FINE as int);
                let target = FanLevels { left: levels.0 as u16, right: levels.1 as u16 };
                let k = taken_in(c.fan_curve, temp);
                if !(c.fan_curve.spec_changed(levels) && c.fan_curve.spec_quiet(now)) {
                    curve_over(with_controller(c, k), scratch)
                } else if !c.hp_present {
                    curve_hand_back(with_controller(c, failed_at(k, now)), now)
                } else {
                    CurveUpdate {
                        run: CurveRun::Writing(
                            CurveWrite {
                                curve,
                                target,
                                temp: smoothed as i128,
                                last: c.fan_curve.last_target,
                                at: now,
                            },
                        ),
                        coordinator: with_controller(c, k),
                        scratch,
                        events: Seq::empty(),
                        next: Some(Request::Write(HpWrite::FanLevels(target))),
                    }
                }
            },
        },
    }
}

/// The journal entry of a curve update.
pub open spec fn curve_event(w: CurveWrite, result: Result<(), HpWmiError>) -> EventView {
    EventView {
        origin: JournalOrigin::Safety,
        receipt: ControlReceipt(0),
        command: ControlCommand::SetFanMode(FanMode::Curve(w.curve)),
        status: match result {
            Ok(_) => ControlStatus::Applied { verification: Verification::TrustedNoReadback },
            Err(_) => ControlStatus::Rejected {
                error: ControlError::FirmwareRejected { detail: FirmwareDetail::CurveUpdate },
            },
        },
        steps: seq![
            hp_written_step(Step::UpdateCurveTarget, result, Note::CurveUpdate { smoothed: w.temp, last: w.last }),
        ],
        duration: 0,
    }
}

/// What follows the reply to a new target.
#[verifier::opaque]
pub open spec fn curve_written(
    w: CurveWrite,
    c: ControlCoordinator,
    scratch: Seq<StepOutcome>,
    result: Result<(), HpWmiError>,
    now: u64,
) -> CurveTurn {
    let turn = if result is Ok {
        curve_over(with_controller(c, written_at(c.fan_curve, w.target, w.at)), scratch)
    } else {
        curve_hand_back(with_controller(c, failed_at(c.fan_curve, w.at)), now)
    };
    CurveUpdate { events: seq![curve_event(w, result)], ..turn }
}

/// A turn of the hand-back that an update ended in.
#[verifier::opaque]
pub open spec fn curve_restoring(
    run: RestoreRun,
    c: ControlCoordinator,
    scratch: Seq<StepOutcome>,
    reply: Reply,
    feed: ThermalFeed,
    now: u64,
) -> CurveTurn {
    let h = run.spec_resume(c, scratch, reply, feed, now);
    CurveUpdate {
        run: if h.progress is Ask { CurveRun::HandingBack(h.run) } else { CurveRun::Ended },
        coordinator: h.coordinator,
        scratch: h.steps,
        events: h.events,
        next: request_of(h.progress),
    }
}

/// The parts of a curve update's turn agree with what happened.
pub open spec fn curve_follows(
    turn: CurveTurn,
    run: CurveRun,
    c: ControlCoordinator,
    scratch: Seq<StepOutcome>,
    logged_before: Seq<EventView>,
    logged: Seq<EventView>,
    next: Option<Request>,
) -> bool {
    &&& run == turn.run
    &&& c == turn.coordinator
    &&& scratch == turn.scratch
    &&& logged == logged_before + turn.events
    &&& next == turn.next
}

proof fn no_events(s: Seq<EventView>)
    ensures
        s + Seq::<EventView>::empty() == s,
{
    assert(s + Seq::<EventView>::empty() =~= s);
}

fn begin_hand_back(c: &mut ControlCoordinator, scratch: &mut Vec<StepOutcome>, now: u64) -> (r: (
    CurveRun,
    Option<Request>,
))
    ensures
        ({
            let turn = curve_hand_back(*old(c), now);
            &&& r.0 == turn.run
            &&& *final(c) == turn.coordinator
            &&& final(scratch)@ == turn.scratch
            &&& turn.events == Seq::<EventView>::empty()
            &&& r.1 == turn.next
        }),
        r.0.wf(*final(c)),
{
    proof {
        reveal(curve_hand_back);
    }
    let (run, progress) = RestoreRun::start(c, JournalOrigin::Safety, now);
    scratch.clear();
    assert(scratch@ =~= Seq::<StepOutcome>::empty());
    (CurveRun::HandingBack(run), asked(progress))
}

fn find_curve(c: &ControlCoordinator) -> (r: Option<FanCurve>)
    ensures
        r == running_curve(*c),
{
    match c.observed.fan_mode.get() {
        Some(FanMode::Curve(curve)) => Some(curve),
        _ => None,
    }
}

impl CurveRun {
    /// The reply that the update waits for.
    pub open spec fn accepts(self, c: ControlCoordinator, reply: Reply) -> bool {
        match self {
            CurveRun::Writing(_) => reply is Written,
            CurveRun::HandingBack(run) => run.accepts(c, reply),
            CurveRun::Ended => false,
        }
    }

    /// The update's hand-back is well-formed.
    pub open spec fn wf(self, c: ControlCoordinator) -> bool {
        self matches CurveRun::HandingBack(run) ==> run.wf(c)
    }

    /// What follows the reply.
    pub open spec fn spec_resume(
        self,
        c: ControlCoordinator,
        scratch: Seq<StepOutcome>,
        reply: Reply,
        feed: ThermalFeed,
        now: u64,
    ) -> CurveTurn {
        match self {
            CurveRun::Writing(w) => curve_written(w, c, scratch, reply->Written_0, now),
            CurveRun::HandingBack(run) => curve_restoring(run, c, scratch, reply, feed, now),
            CurveRun::Ended => curve_over(c, scratch),
        }
    }

    /// Evaluates the running curve.
    pub fn start(c: &mut ControlCoordinator, scratch: &mut Vec<StepOutcome>, feed: &ThermalFeed, now: u64) -> (r: (
        CurveRun,
        Option<Request>,
    ))
        ensures
            ({
                let turn = curve_start(*old(c), old(scratch)@, *feed, now);
                &&& r.0 == turn.run
                &&& *final(c) == turn.coordinator
                &&& final(scratch)@ == turn.scratch
                &&& turn.events == Seq::<EventView>::empty()
                &&& r.1 == turn.next
            }),
            r.0.wf(*final(c)),
    {
        let curve = match find_curve(c) {
            Some(curve) => curve,
            None => {
                set_controller(c, FanCurveController::new());
                return (CurveRun::Ended, None);
            },
        };
        let hp_present = c.hp_present;
        let mut k = c.fan_curve;
        let last = k.last_target;
        let next = k.next_target(&curve, feed.pkg_temp, feed.gpu_temp, now);
        match next {
            None => {
                proof {
                    reveal(with_controller);
                }
                set_controller(c, k);
                (CurveRun::Ended, None)
            },
            Some((target, temp)) => {
                if !hp_present {
                    k.record_failure(now);
                    set_controller(c, k);
                    return begin_hand_back(c, scratch, now);
                }
                set_controller(c, k);
                (
                    CurveRun::Writing(CurveWrite { curve, target, temp, last, at: now }),
                    Some(Request::Write(HpWrite::FanLevels(target))),
                )
            },
        }
    }

    fn written(
        w: CurveWrite,
        c: &mut ControlCoordinator,
        scratch: &mut Vec<StepOutcome>,
        out: &mut Vec<JournalEvent>,
        result: Result<(), HpWmiError>,
        now: u64,
    ) -> (r: (CurveRun, Option<Request>))
        ensures
            curve_follows(
                curve_written(w, *old(c), old(scratch)@, result, now),
                r.0,
                *final(c),
                final(scratch)@,
                event_views(old(out)@),
                event_views(final(out)@),
                r.1,
            ),
            r.0.wf(*final(c)),
    {
        proof {
            reveal(curve_written);
        }
        let ghost logged = event_views(out@);
        let mut steps: Vec<StepOutcome> = Vec::new();
        steps.push(
            written_step(Step::UpdateCurveTarget, &result, Note::CurveUpdate { smoothed: w.temp, last: w.last }),
        );
        assert(steps@ =~= curve_event(w, result).steps);
        let mut k = c.fan_curve;
        let accepted = result.is_ok();
        let status = if accepted {
            k.record_write(w.target, w.at);
            ControlStatus::Applied { verification: Verification::TrustedNoReadback }
        } else {
            k.record_failure(w.at);
            ControlStatus::Rejected {
                error: ControlError::FirmwareRejected { detail: FirmwareDetail::CurveUpdate },
            }
        };
        set_controller(c, k);
        log_event(
            out,
            JournalOrigin::Safety,
            ControlCommand::SetFanMode(FanMode::Curve(w.curve)),
            status,
            steps,
            0,
        );
        assert(event_views(out@) =~= logged + seq![curve_event(w, result)]);
        if accepted { (CurveRun::Ended, None) } else { begin_hand_back(c, scratch, now) }
    }

    /// Goes on with what came back.
    pub fn resume(
        self,
        c: &mut ControlCoordinator,
        scratch: &mut Vec<StepOutcome>,
        out: &mut Vec<JournalEvent>,
        reply: Reply,
        feed: &ThermalFeed,
        now: u64,
    ) -> (r: (CurveRun, Option<Request>))
        requires
            self.wf(*old(c)),
            self.accepts(*old(c), reply),
        ensures
            curve_follows(
                self.spec_resume(*old(c), old(scratch)@, reply, *feed, now),
                r.0,
                *final(c),
                final(scratch)@,
                event_views(old(out)@),
                event_views(final(out)@),
                r.1,
            ),
            r.0.wf(*final(c)),
    {
        match self {
            CurveRun::Writing(w) => CurveRun::written(w, c, scratch, out, written_result(reply), now),
            CurveRun::HandingBack(run) => {
                proof {
                    reveal(curve_restoring);
                }
                let (run, progress) = run.resume(c, scratch, out, reply, feed, now);
                match progress {
                    Progress::Ask(request) => (CurveRun::HandingBack(run), Some(request)),
                    _ => (CurveRun::Ended, None),
                }
            },
            CurveRun::Ended => {
                proof {
                    no_events(event_views(out@));
                }
                (CurveRun::Ended, None)
            },
        }
    }
}

/// A curve update only ever writes levels that the running curve asks for.
pub proof fn curve_writes_what_the_curve_asks(c: ControlCoordinator, scratch: Seq<StepOutcome>, feed: ThermalFeed, now: u64)
    requires
        c.hp_present,
        curve_start(c, scratch, feed, now).next is Some,
    ensures
        running_curve(c) is Some,
        controlling_temp(feed.pkg_temp, feed.gpu_temp, now) is Some,
        curve_start(c, scratch, feed, now).next matches Some(Request::Write(HpWrite::FanLevels(target))) && ({
            let temp = controlling_temp(feed.pkg_temp, feed.gpu_temp, now)->Some_0;
            let levels = running_curve(c)->Some_0.spec_target_in(c.fan_curve.spec_smoothed(temp), FINE as int);
            target == FanLevels { left: levels.0 as u16, right: levels.1 as u16 }
        }),
{
}

} // verus!
