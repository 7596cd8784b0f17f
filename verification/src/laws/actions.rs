//! Safety actions, curve updates and what a heartbeat asserts.
use vstd::prelude::*;

use crate::control::coordinator::ControlCoordinator;
use crate::control::exchange::{HpWrite, Reply, Request};
use crate::control::exec::curve_tick::{
    curve_hand_back, curve_restoring, curve_start, curve_written, with_controller, CurveRun,
};
use crate::control::exec::fan::FanRun;
use crate::control::exec::heartbeat::{assertion, assertions, HeartbeatRun, HeartbeatStage};
use crate::control::exec::protect::{
    after_fan, after_force, after_hand_back, after_overlay, after_rearm, after_release, max_forced, over,
    override_retained, protect_start, restore_mode, taken_over, watchdog_start, watchdog_turn, ProtectRun,
    ProtectStage,
};
use crate::control::exec::restore::RestoreRun;
use crate::control::fan_curve::controlling_temp;
use crate::control::journal::{EventView, JournalOrigin};
use crate::control::keepalive::ReAssert;
use crate::control::safety::{SafetyAction, ThermalFeed};
use crate::domain::command::{
    hp_written_step, ControlCommand, ControlReceipt, ControlStatus, Note, Step, StepOutcome, Verification,
};
use crate::domain::error::{ControlError, HpWmiError, Missing};
use crate::domain::policy::FanMode;
use crate::domain::state::ControlNotice;
use crate::laws::execution::went_well;

verus! {

/// Too hot: max fan is switched on, whatever runs. Once that was accepted the
/// overlay is known to be on and the fans are owed; else nothing is claimed.
pub proof fn heat_forces_max_fan(
    c: ControlCoordinator,
    steps: Seq<StepOutcome>,
    scratch: Seq<StepOutcome>,
    e: HpWmiError,
    feed: ThermalFeed,
    started: u64,
    now: u64,
)
    requires
        c.hp_present,
    ensures
        ({
            let start = protect_start(started, c, SafetyAction::ForceMaxFan, now);
            let run = ProtectRun { started, stage: start.stage };
            let good = run.spec_resume(start.coordinator, steps, scratch, Reply::Written(Ok(())), feed, now);
            let bad = run.spec_resume(start.coordinator, steps, scratch, Reply::Written(Err(e)), feed, now);
            &&& start.next == Some(Request::Write(HpWrite::MaxFan(true)))
            &&& start.coordinator.observed.active_profile is None
            &&& start.coordinator.observed.control_notice == Some(ControlNotice::ThermalTakeover)
            &&& start.coordinator.safety == c.safety && start.coordinator.fan_control_dirty == c.fan_control_dirty
            &&& good.next is None && good.coordinator.observed.max_fan.known() == Some(true)
            &&& good.coordinator.fan_control_dirty && good.coordinator.safety == c.safety
            &&& good.events.len() == 1 && good.events[0].status is Applied && good.events[0].origin
                == JournalOrigin::Safety
            &&& bad.next is None && bad.coordinator == start.coordinator
            &&& bad.events.len() == 1 && bad.events[0].status is Partial
        }),
{
    reveal(taken_over);
    reveal(after_force);
    reveal(over);
    reveal(max_forced);
}

/// Cool again: the overlay comes off first, unless the saved mode is max fan
/// itself, and then the saved mode is set like any other.
pub proof fn cooling_releases_to_the_saved_mode(
    c: ControlCoordinator,
    mode: FanMode,
    steps: Seq<StepOutcome>,
    scratch: Seq<StepOutcome>,
    feed: ThermalFeed,
    started: u64,
    now: u64,
)
    requires
        c.hp_present,
    ensures
        ({
            let start = protect_start(started, c, SafetyAction::ReleaseTo(mode), now);
            let on = c.observed.max_fan.known() == Some(true);
            let run = ProtectRun { started, stage: start.stage };
            let off = run.spec_resume(start.coordinator, steps, scratch, Reply::Written(Ok(())), feed, now);
            &&& on && mode != FanMode::Max ==> {
                &&& start.next == Some(Request::Write(HpWrite::MaxFan(false)))
                &&& start.coordinator == c
                &&& off.coordinator.observed.max_fan.known() == Some(false)
                &&& off.next is Some && off.next->Some_0 is SaveLedger
                &&& off.stage is Restoring && off.stage->Restoring_0 == mode && off.stage->Restoring_1.mode == mode
            }
            &&& !on || mode == FanMode::Max ==> {
                &&& start.next is Some && start.next->Some_0 is SaveLedger
                &&& start.stage is Restoring && start.stage->Restoring_0 == mode && start.stage->Restoring_1.mode == mode
                &&& start.coordinator.observed == c.observed
            }
        }),
{
    reveal(restore_mode);
    reveal(after_overlay);
    reveal(after_release);
}

/// A release that did not go well keeps the override for the same mode, and
/// forces max fan again unless it is on.
pub proof fn failed_releases_keep_the_override(
    c: ControlCoordinator,
    mode: FanMode,
    status: ControlStatus,
    steps: Seq<StepOutcome>,
    scratch: Seq<StepOutcome>,
    started: u64,
    now: u64,
)
    requires
        c.hp_present,
    ensures
        ({
            let turn = after_release(started, c, mode, status, steps, scratch, now);
            &&& went_well(status) ==> turn.next is None && turn.coordinator == c
            &&& !went_well(status) ==> turn.coordinator.safety.override_saved == Some(mode)
            &&& !went_well(status) && c.observed.max_fan.known() != Some(true) ==> turn.next == Some(
                Request::Write(HpWrite::MaxFan(true)),
            )
            &&& !went_well(status) && c.observed.max_fan.known() == Some(true) ==> turn.next is None
        }),
{
    reveal(after_release);
    reveal(over);
    reveal(override_retained);
}

/// Blind: the whole machine is handed back, on the safety net's account.
pub proof fn blindness_hands_back(c: ControlCoordinator, started: u64, now: u64)
    ensures
        ({
            let turn = protect_start(started, c, SafetyAction::WatchdogRestoreAuto, now);
            let h = RestoreRun::spec_start(c, JournalOrigin::Safety, now);
            &&& turn.coordinator == h.coordinator
            &&& turn.stage == ProtectStage::Watchdog(h.run)
            &&& turn.next is Some <==> h.progress is Ask
            &&& h.progress is Ask ==> turn.next == Some(h.progress->Ask_0)
        }),
{
    reveal(watchdog_start);
}

/// A tick without a curve writes nothing and forgets the controller; one with
/// a curve writes exactly if the smoothed target has changed and a second has
/// passed, and then that target.
pub proof fn curve_ticks(c: ControlCoordinator, scratch: Seq<StepOutcome>, feed: ThermalFeed, now: u64)
    requires
        c.hp_present,
    ensures
        ({
            let turn = curve_start(c, scratch, feed, now);
            let temp = controlling_temp(feed.pkg_temp, feed.gpu_temp, now);
            let mode = c.observed.fan_mode.known();
            let curve = mode->Some_0->Curve_0;
            let runs = mode is Some && mode->Some_0 is Curve;
            let smoothed = c.fan_curve.spec_smoothed(temp->Some_0);
            let target = curve.spec_target_in(smoothed, 1_099_511_627_776_000);
            &&& !runs ==> turn.next is None && turn.coordinator.fan_curve.last_target is None
                && turn.coordinator.fan_curve.smoothed_temp is None
            &&& runs && temp is None ==> turn.next is None && turn.coordinator == c
            &&& runs && temp is Some ==> {
                &&& turn.coordinator.fan_curve.smoothed_temp == Some(smoothed as i128)
                &&& turn.coordinator.fan_curve.last_target == c.fan_curve.last_target
                &&& turn.next is Some <==> c.fan_curve.spec_changed(target) && c.fan_curve.spec_quiet(now)
                &&& turn.next matches Some(request) ==> request matches Request::Write(HpWrite::FanLevels(l)) && l.left
                    == target.0 as u16 && l.right == target.1 as u16
                &&& turn.coordinator.observed == c.observed
            }
        }),
{
    reveal(with_controller);
}

/// A target that was accepted is the last one from then on; one that failed
/// hands the machine back.
pub proof fn curve_targets_are_remembered(
    c: ControlCoordinator,
    scratch: Seq<StepOutcome>,
    feed: ThermalFeed,
    now: u64,
    run: CurveRun,
    e: HpWmiError,
    later: u64,
)
    requires
        run is Writing,
    ensures
        ({
            let w = run->Writing_0;
            let good = run.spec_resume(c, scratch, Reply::Written(Ok(())), feed, later);
            let bad = run.spec_resume(c, scratch, Reply::Written(Err(e)), feed, later);
            &&& good.next is None
            &&& good.coordinator.fan_curve.last_target == Some(w.target)
            &&& good.coordinator.fan_curve.last_write_at == Some(w.at)
            &&& good.coordinator.observed == c.observed
            &&& good.events.len() == 1 && good.events[0].status is Applied
            &&& bad.run is HandingBack
            &&& bad.events.len() == 1 && bad.events[0].status is Rejected
            &&& bad.coordinator.control_epoch != c.control_epoch
        }),
{
    reveal(curve_written);
    reveal(curve_hand_back);
    reveal(with_controller);
    crate::laws::hand_back::hand_backs_start_with_the_fans(
        with_controller(c, crate::control::exec::curve_tick::failed_at(c.fan_curve, run->Writing_0.at)),
        JournalOrigin::Safety,
        later,
    );
}

/// A heartbeat asserts each state that it keeps alive with the value that is
/// known of it; a curve with its last target.
pub proof fn heartbeats_assert_what_is_known(c: ControlCoordinator)
    ensures
        c.observed.thermal_mode.known() matches Some(m) ==> assertion(c, ReAssert::ThermalMode) == Some(
            HpWrite::Thermal(m),
        ),
        c.observed.fan_mode.known() matches Some(FanMode::Manual(l)) ==> assertion(c, ReAssert::FanLevels) == Some(
            HpWrite::FanLevels(l),
        ),
        c.observed.fan_mode.known() is Some && c.observed.fan_mode.known()->Some_0 is Curve ==> assertion(
            c,
            ReAssert::FanLevels,
        ) == (match c.fan_curve.last_target {
            Some(l) => Some(HpWrite::FanLevels(l)),
            None => None,
        }),
        assertion(c, ReAssert::MaxFan) == Some(HpWrite::MaxFan(true)),
        c.observed.power_limits.known() matches Some(l) ==> assertion(c, ReAssert::PowerLimits) == Some(
            HpWrite::PowerLimits(l),
        ),
{
}

/// The assertions of a heartbeat follow one another as the states do.
pub proof fn heartbeats_assert_in_order(c: ControlCoordinator, a: Seq<ReAssert>, x: ReAssert)
    ensures
        assertions(c, Seq::<ReAssert>::empty()).len() == 0,
        assertion(c, x) is Some ==> assertions(c, a.push(x)) == assertions(c, a).push(assertion(c, x)->Some_0),
        assertion(c, x) is None ==> assertions(c, a.push(x)) == assertions(c, a),
{
    assert(a.push(x).drop_last() =~= a);
}

/// The next assertion of a heartbeat is the one behind the last, the first
/// behind the count of the fans; the second failure in a row fails closed.
pub proof fn heartbeats_go_on(run: HeartbeatRun, c: ControlCoordinator, i: usize)
    ensures
        run.stage == HeartbeatStage::Asserting(i) ==> run.next_index() == i + 1,
        run.stage is Counting ==> run.next_index() == 0,
        run.fails_closed(c) <==> c.keepalive.consecutive_failures >= 1,
{
}

/// Restores that belong to an action of the service run as any other: while
/// one asks, the action goes on with it, and its events are the action's.
pub proof fn hand_backs_run_inside_actions(
    run: RestoreRun,
    c: ControlCoordinator,
    steps: Seq<StepOutcome>,
    scratch: Seq<StepOutcome>,
    reply: Reply,
    feed: ThermalFeed,
    started: u64,
    mode: FanMode,
    status: ControlStatus,
    now: u64,
)
    ensures
        ({
            let h = run.spec_resume(c, scratch, reply, feed, now);
            let w = watchdog_turn(run, c, steps, scratch, reply, feed, now);
            let r = curve_restoring(run, c, scratch, reply, feed, now);
            let b = after_hand_back(started, c, mode, run, status, steps, scratch, reply, feed, now);
            &&& w.coordinator == h.coordinator && r.coordinator == h.coordinator && w.events == h.events && r.events == h.events
            &&& w.scratch == h.steps && r.scratch == h.steps && w.steps == steps
            &&& h.progress is Ask ==> {
                &&& w.stage == ProtectStage::Watchdog(h.run) && w.next == Some(h.progress->Ask_0)
                &&& r.run == CurveRun::HandingBack(h.run) && r.next == Some(h.progress->Ask_0)
                &&& b.stage == ProtectStage::HandingBack(mode, h.run, status) && b.next == Some(h.progress->Ask_0)
                &&& b.coordinator == h.coordinator && b.events == h.events && b.steps == steps && b.scratch == h.steps
            }
            &&& !(h.progress is Ask) ==> {
                &&& w.stage is Ended && w.next is None && r.run is Ended && r.next is None
                &&& b.coordinator == after_release(started, h.coordinator, mode, status, steps, h.steps, now).coordinator
                &&& b.next == after_release(started, h.coordinator, mode, status, steps, h.steps, now).next
            }
        }),
{
    reveal(watchdog_turn);
    reveal(curve_restoring);
    reveal(after_hand_back);
}

/// A fan command that belongs to an action runs as any other: while it asks,
/// the action goes on with it; one that has to hand back does so, and then the
/// release is judged by its status.
pub proof fn fan_commands_run_inside_actions(
    run: FanRun,
    c: ControlCoordinator,
    steps: Seq<StepOutcome>,
    scratch: Seq<StepOutcome>,
    reply: Reply,
    feed: ThermalFeed,
    started: u64,
    mode: FanMode,
    now: u64,
)
    ensures
        ({
            let t = run.spec_resume(c, reply, feed, now);
            let a = after_fan(started, c, mode, run, steps, scratch, reply, feed, now);
            let h = RestoreRun::spec_start(t.coordinator, JournalOrigin::Safety, now);
            &&& t.progress is Ask ==> a.stage == ProtectStage::Restoring(mode, t.run) && a.next == Some(
                t.progress->Ask_0,
            ) && a.coordinator == t.coordinator && a.steps == steps + t.steps
            &&& t.progress is HandBack ==> a.stage == ProtectStage::HandingBack(mode, h.run, t.progress->HandBack_0)
                && a.coordinator == h.coordinator && a.steps == steps + t.steps && (a.next is Some <==> h.progress is Ask)
            &&& t.progress is Done ==> a == after_release(
                started,
                t.coordinator,
                mode,
                t.progress->Done_0,
                steps + t.steps,
                scratch,
                now,
            )
        }),
{
    reveal(after_fan);
}

/// The journal's entry on an action: the mode that it was about, how it went,
/// every step of it, and how long it took.
pub open spec fn told(v: EventView, mode: FanMode, status: ControlStatus, steps: Seq<StepOutcome>, started: u64, now: u64) -> bool {
    &&& v.origin == JournalOrigin::Safety && v.receipt == ControlReceipt(0)
    &&& v.command == ControlCommand::SetFanMode(mode)
    &&& v.status == status
    &&& v.steps == steps
    &&& started <= now ==> v.duration == now - started
}

/// What the actions leave behind: one more step for each write, and one entry
/// at the end with the status that it comes to. A failed release is told as it
/// failed, even where max fan is on again.
pub proof fn actions_are_told(
    c: ControlCoordinator,
    mode: FanMode,
    status: ControlStatus,
    steps: Seq<StepOutcome>,
    scratch: Seq<StepOutcome>,
    result: Result<(), HpWmiError>,
    started: u64,
    now: u64,
)
    ensures
        ({
            let f = after_force(started, c, steps, scratch, result, now);
            let step = hp_written_step(Step::SafetyMaxFanOn, result, Note::ThermalOverride);
            &&& f.events.len() == 1 && f.stage is Ended && f.scratch == scratch
            &&& result is Ok ==> told(
                f.events[0],
                FanMode::Max,
                ControlStatus::Applied { verification: Verification::TrustedNoReadback },
                steps.push(step),
                started,
                now,
            )
            &&& result is Err ==> told(f.events[0], FanMode::Max, ControlStatus::Partial, steps.push(step), started, now)
        }),
        ({
            let r = after_rearm(started, c, mode, status, steps, scratch, result, now);
            let step = hp_written_step(Step::SafetyRearmMaxFan, result, Note::FailedRelease);
            &&& r.next is None && r.stage is Ended && r.events.len() == 1
            &&& told(r.events[0], mode, status, steps.push(step), started, now)
            &&& result is Ok ==> r.coordinator.observed.max_fan.known() == Some(true) && r.coordinator.fan_control_dirty
            &&& result is Err ==> r.coordinator == c
            &&& r.coordinator.safety == c.safety
        }),
        ({
            let o = after_overlay(started, c, mode, steps, scratch, result, now);
            let more = steps.push(hp_written_step(Step::SafetyMaxFanOff, result, Note::ReleaseOverride));
            &&& result is Err ==> o == after_release(started, c, mode, ControlStatus::Partial, more, scratch, now)
            &&& result is Ok && c.hp_present ==> o.steps == more && o.stage is Restoring
        }),
        ({
            let r = after_release(started, c, mode, status, steps, scratch, now);
            let rearmed = !went_well(status) && c.observed.max_fan.known() != Some(true) && c.hp_present;
            &&& rearmed ==> r.stage == ProtectStage::Rearming(mode, status) && r.steps == steps && r.events.len() == 0
            &&& !rearmed ==> r.stage is Ended && r.next is None && r.events.len() == 1 && told(
                r.events[0],
                mode,
                status,
                steps,
                started,
                now,
            )
        }),
        !c.hp_present ==> ({
            let f = protect_start(started, c, SafetyAction::ForceMaxFan, now);
            &&& f.next is None && f.events.len() == 1
            &&& told(
                f.events[0],
                FanMode::Max,
                ControlStatus::Rejected { error: ControlError::BackendUnavailable { what: Missing::HpPlatform } },
                Seq::empty(),
                started,
                now,
            )
        }),
{
    reveal(after_force);
    reveal(after_rearm);
    reveal(after_overlay);
    reveal(after_release);
    reveal(restore_mode);
    reveal(over);
    reveal(max_forced);
    reveal(taken_over);
}

} // verus!
