//! The heartbeat: a sign of life to the firmware, and every tracked write
//! asserted once more. A success leaves no journal entry; a failure does, and
//! repeated failure hands the machine back.
use vstd::prelude::*;

use super::restore::RestoreRun;
use crate::control::coordinator::ControlCoordinator;
use crate::control::exchange::{asked, request_of, written_result, HpWrite, Progress, Reply, Request};
use crate::control::journal::{event_views, log_event, EventView, JournalEvent, JournalOrigin};
use crate::control::keepalive::{KeepAliveService, ReAssert, FAIL_CLOSED_AFTER};
use crate::control::safety::ThermalFeed;
use crate::domain::command::{ControlCommand, ControlReceipt, ControlStatus, StepOutcome};
use crate::domain::error::{map_hp_error, mapped_hp_error, HpWmiError};
use crate::domain::policy::FanMode;

verus! {

/// The write that asserts a tracked state once more, if there is one.
pub open spec fn assertion(c: ControlCoordinator, item: ReAssert) -> Option<HpWrite> {
    match item {
        ReAssert::ThermalMode => match c.observed.thermal_mode.known() {
            Some(mode) => Some(HpWrite::Thermal(mode)),
            None => None,
        },
        ReAssert::FanLevels => match c.observed.fan_mode.known() {
            Some(FanMode::Manual(levels)) => Some(HpWrite::FanLevels(levels)),
            Some(FanMode::Curve(_)) => match c.fan_curve.last_target {
                Some(levels) => Some(HpWrite::FanLevels(levels)),
                None => None,
            },
            _ => None,
        },
        ReAssert::MaxFan => Some(HpWrite::MaxFan(true)),
        ReAssert::PowerLimits => match c.observed.power_limits.known() {
            Some(limits) => Some(HpWrite::PowerLimits(limits)),
            None => None,
        },
    }
}

fn assertion_of(c: &ControlCoordinator, item: ReAssert) -> (r: Option<HpWrite>)
    ensures
        r == assertion(*c, item),
{
    match item {
        ReAssert::ThermalMode => match c.observed.thermal_mode.get() {
            Some(mode) => Some(HpWrite::Thermal(mode)),
            None => None,
        },
        ReAssert::FanLevels => match c.observed.fan_mode.get() {
            Some(FanMode::Manual(levels)) => Some(HpWrite::FanLevels(levels)),
            Some(FanMode::Curve(_)) => match c.fan_curve.last_target {
                Some(levels) => Some(HpWrite::FanLevels(levels)),
                None => None,
            },
            _ => None,
        },
        ReAssert::MaxFan => Some(HpWrite::MaxFan(true)),
        ReAssert::PowerLimits => match c.observed.power_limits.get() {
            Some(limits) => Some(HpWrite::PowerLimits(limits)),
            None => None,
        },
    }
}

/// The writes that assert the tracked states once more, in order.
pub open spec fn assertions(c: ControlCoordinator, items: Seq<ReAssert>) -> Seq<HpWrite>
    decreases items.len(),
{
    if items.len() == 0 {
        Seq::empty()
    } else {
        let front = assertions(c, items.drop_last());
        match assertion(c, items.last()) {
            Some(write) => front.push(write),
            None => front,
        }
    }
}

fn all_assertions(c: &ControlCoordinator, items: &Vec<ReAssert>) -> (r: Vec<HpWrite>)
    ensures
        r@ == assertions(*c, items@),
{
    let mut writes: Vec<HpWrite> = Vec::new();
    let mut i: usize = 0;
    assert(items@.take(0) =~= Seq::<ReAssert>::empty());
    assert(writes@ =~= assertions(*c, items@.take(0)));
    while i < items.len()
        invariant
            i <= items@.len(),
            writes@ == assertions(*c, items@.take(i as int)),
        decreases items@.len() - i,
    {
        assert(items@.take(i + 1).drop_last() =~= items@.take(i as int));
        assert(items@.take(i + 1).last() == items@[i as int]);
        if let Some(write) = assertion_of(c, items[i]) {
            writes.push(write);
        }
        i = i + 1;
    }
    assert(items@.take(items@.len() as int) =~= items@);
    writes
}

/// Where a heartbeat stands.
#[derive(Clone, Copy, Debug, PartialEq, Eq, Structural)]
pub enum HeartbeatStage {
    Counting,
    /// Asserting the write at the index.
    Asserting(usize),
    HandingBack(RestoreRun),
    Ended,
}

/// A heartbeat under way.
#[derive(Debug, PartialEq)]
pub struct HeartbeatRun {
    /// When the heartbeat was due.
    pub at: u64,
    pub writes: Vec<HpWrite>,
    pub stage: HeartbeatStage,
}

/// The state with another heartbeat schedule.
#[verifier::opaque]
pub open spec fn with_keepalive(c: ControlCoordinator, keepalive: KeepAliveService) -> ControlCoordinator {
    ControlCoordinator { keepalive, ..c }
}

fn set_keepalive(c: &mut ControlCoordinator, keepalive: KeepAliveService)
    ensures
        *final(c) == with_keepalive(*old(c), keepalive),
{
    proof {
        reveal(with_keepalive);
    }
    c.keepalive = keepalive;
}

/// The journal entry of a heartbeat that failed.
pub open spec fn failure_event(e: HpWmiError) -> EventView {
    EventView {
        origin: JournalOrigin::Keepalive,
        receipt: ControlReceipt(0),
        command: ControlCommand::SetFanMode(FanMode::FirmwareAuto),
        status: ControlStatus::Rejected { error: mapped_hp_error(e) },
        steps: Seq::empty(),
        duration: 0,
    }
}

impl HeartbeatRun {
    /// The reply that the heartbeat waits for.
    pub open spec fn accepts(self, c: ControlCoordinator, reply: Reply) -> bool {
        match self.stage {
            HeartbeatStage::Counting | HeartbeatStage::Asserting(_) => reply is Written,
            HeartbeatStage::HandingBack(run) => run.accepts(c, reply),
            HeartbeatStage::Ended => false,
        }
    }

    /// The heartbeat's position and hand-back are consistent.
    pub open spec fn wf(self, c: ControlCoordinator) -> bool {
        match self.stage {
            HeartbeatStage::Asserting(i) => i < self.writes@.len(),
            HeartbeatStage::HandingBack(run) => run.wf(c),
            _ => true,
        }
    }

    /// Starts a heartbeat. Without the firmware interface there is nothing to
    /// beat against; without anything tracked the schedule goes idle.
    pub fn start(c: &mut ControlCoordinator, now: u64) -> (r: (HeartbeatRun, Option<Request>))
        ensures
            r.0.at == now,
            r.0.wf(*final(c)),
            !old(c).hp_present ==> {
                &&& *final(c) == with_keepalive(*old(c), old(c).keepalive.spec_succeeded(now))
                &&& r.0.stage is Ended
                &&& r.1 is None
            },
            old(c).hp_present && old(c).spec_tracked().len() == 0 ==> {
                &&& *final(c) == with_keepalive(
                    *old(c),
                    old(c).keepalive.spec_rescheduled(Seq::<ReAssert>::empty(), now),
                )
                &&& r.0.stage is Ended
                &&& r.1 is None
            },
            old(c).hp_present && old(c).spec_tracked().len() > 0 ==> {
                &&& *final(c) == *old(c)
                &&& r.0.stage is Counting
                &&& r.0.writes@ == assertions(*old(c), old(c).spec_tracked())
                &&& r.1 == Some(Request::CountFans)
            },
    {
        let mut keepalive = c.keepalive;
        if !c.hp_present {
            keepalive.record_success(now);
            set_keepalive(c, keepalive);
            return (HeartbeatRun { at: now, writes: Vec::new(), stage: HeartbeatStage::Ended }, None);
        }
        let items = c.tracked_set();
        if items.len() == 0 {
            assert(items@ =~= Seq::<ReAssert>::empty());
            keepalive.reschedule_tracked(items.as_slice(), now);
            set_keepalive(c, keepalive);
            return (HeartbeatRun { at: now, writes: Vec::new(), stage: HeartbeatStage::Ended }, None);
        }
        let writes = all_assertions(c, &items);
        (HeartbeatRun { at: now, writes, stage: HeartbeatStage::Counting }, Some(Request::CountFans))
    }

    /// The index of the next write after a call that was accepted.
    pub open spec fn next_index(self) -> int {
        match self.stage {
            HeartbeatStage::Asserting(i) => i + 1,
            _ => 0,
        }
    }

    /// The failure streak reaches the fail-closed threshold.
    pub open spec fn fails_closed(self, c: ControlCoordinator) -> bool {
        c.keepalive.spec_failed(self.at).consecutive_failures >= FAIL_CLOSED_AFTER
    }

    fn beat(&mut self, c: &mut ControlCoordinator) -> (r: Option<Request>)
        requires
            old(self).wf(*old(c)),
            old(self).stage is Counting || old(self).stage is Asserting,
        ensures
            final(self).at == old(self).at,
            final(self).writes@ == old(self).writes@,
            final(self).wf(*final(c)),
            ({
                let next = old(self).next_index();
                if next < old(self).writes@.len() {
                    &&& *final(c) == *old(c)
                    &&& final(self).stage == HeartbeatStage::Asserting(next as usize)
                    &&& r == Some(Request::Write(old(self).writes@[next]))
                } else {
                    &&& *final(c) == with_keepalive(*old(c), old(c).keepalive.spec_succeeded(old(self).at))
                    &&& final(self).stage is Ended
                    &&& r is None
                }
            }),
    {
        let len: usize = self.writes.len();
        let next: usize = match self.stage {
            HeartbeatStage::Asserting(i) => i + 1,
            _ => 0,
        };
        if next < len {
            self.stage = HeartbeatStage::Asserting(next);
            Some(Request::Write(self.writes[next]))
        } else {
            let mut keepalive = c.keepalive;
            keepalive.record_success(self.at);
            set_keepalive(c, keepalive);
            self.stage = HeartbeatStage::Ended;
            None
        }
    }

    fn fail(
        &mut self,
        c: &mut ControlCoordinator,
        scratch: &mut Vec<StepOutcome>,
        out: &mut Vec<JournalEvent>,
        e: HpWmiError,
        now: u64,
    ) -> (r: Option<Request>)
        ensures
            final(self).at == old(self).at,
            final(self).writes@ == old(self).writes@,
            final(self).wf(*final(c)),
            event_views(final(out)@) == event_views(old(out)@).push(failure_event(e)),
            ({
                let failed = with_keepalive(*old(c), old(c).keepalive.spec_failed(old(self).at));
                if old(self).fails_closed(*old(c)) {
                    let h = RestoreRun::spec_start(failed, JournalOrigin::Safety, now);
                    &&& *final(c) == h.coordinator
                    &&& final(scratch)@ == Seq::<StepOutcome>::empty()
                    &&& final(self).stage == HeartbeatStage::HandingBack(h.run)
                    &&& r == request_of(h.progress)
                } else {
                    &&& *final(c) == failed
                    &&& final(scratch)@ == old(scratch)@
                    &&& final(self).stage is Ended
                    &&& r is None
                }
            }),
    {
        let mut keepalive = c.keepalive;
        let fail_closed = keepalive.record_failure(self.at);
        set_keepalive(c, keepalive);
        let none: Vec<StepOutcome> = Vec::new();
        assert(none@ =~= Seq::<StepOutcome>::empty());
        log_event(
            out,
            JournalOrigin::Keepalive,
            ControlCommand::SetFanMode(FanMode::FirmwareAuto),
            ControlStatus::Rejected { error: map_hp_error(&e) },
            none,
            0,
        );
        if fail_closed {
            let (run, progress) = RestoreRun::start(c, JournalOrigin::Safety, now);
            scratch.clear();
            assert(scratch@ =~= Seq::<StepOutcome>::empty());
            self.stage = HeartbeatStage::HandingBack(run);
            asked(progress)
        } else {
            self.stage = HeartbeatStage::Ended;
            None
        }
    }

    /// Goes on with what came back: the first call that fails ends the
    /// heartbeat; otherwise the next tracked write is asserted.
    pub fn resume(
        &mut self,
        c: &mut ControlCoordinator,
        scratch: &mut Vec<StepOutcome>,
        out: &mut Vec<JournalEvent>,
        reply: Reply,
        feed: &ThermalFeed,
        now: u64,
    ) -> (r: Option<Request>)
        requires
            old(self).wf(*old(c)),
            old(self).accepts(*old(c), reply),
        ensures
            final(self).at == old(self).at,
            final(self).writes@ == old(self).writes@,
            final(self).wf(*final(c)),
            match old(self).stage {
                HeartbeatStage::HandingBack(run) => {
                    let h = run.spec_resume(*old(c), old(scratch)@, reply, *feed, now);
                    &&& *final(c) == h.coordinator
                    &&& final(scratch)@ == h.steps
                    &&& event_views(final(out)@) == event_views(old(out)@) + h.events
                    &&& final(self).stage == (if h.progress is Ask {
                        HeartbeatStage::HandingBack(h.run)
                    } else {
                        HeartbeatStage::Ended
                    })
                    &&& r == request_of(h.progress)
                },
                _ => match reply->Written_0 {
                    Ok(_) => {
                        let next = old(self).next_index();
                        &&& final(scratch)@ == old(scratch)@
                        &&& final(out)@ == old(out)@
                        &&& if next < old(self).writes@.len() {
                            &&& *final(c) == *old(c)
                            &&& final(self).stage == HeartbeatStage::Asserting(next as usize)
                            &&& r == Some(Request::Write(old(self).writes@[next]))
                        } else {
                            &&& *final(c) == with_keepalive(*old(c), old(c).keepalive.spec_succeeded(old(self).at))
                            &&& final(self).stage is Ended
                            &&& r is None
                        }
                    },
                    Err(e) => {
                        let failed = with_keepalive(*old(c), old(c).keepalive.spec_failed(old(self).at));
                        &&& event_views(final(out)@) == event_views(old(out)@).push(failure_event(e))
                        &&& if old(self).fails_closed(*old(c)) {
                            let h = RestoreRun::spec_start(failed, JournalOrigin::Safety, now);
                            &&& *final(c) == h.coordinator
                            &&& final(scratch)@ == Seq::<StepOutcome>::empty()
                            &&& final(self).stage == HeartbeatStage::HandingBack(h.run)
                            &&& r == request_of(h.progress)
                        } else {
                            &&& *final(c) == failed
                            &&& final(scratch)@ == old(scratch)@
                            &&& final(self).stage is Ended
                            &&& r is None
                        }
                    },
                },
            },
    {
        if let HeartbeatStage::HandingBack(run) = self.stage {
            let (run, progress) = run.resume(c, scratch, out, reply, feed, now);
            return match progress {
                Progress::Ask(request) => {
                    self.stage = HeartbeatStage::HandingBack(run);
                    Some(request)
                },
                _ => {
                    self.stage = HeartbeatStage::Ended;
                    None
                },
            };
        }
        match written_result(reply) {
            Ok(()) => self.beat(c),
            Err(e) => self.fail(c, scratch, out, e, now),
        }
    }
}

} // verus!
