//! What is recorded of the steps of a change.
use vstd::prelude::*;

use crate::control::advance::{same_plan_as, stage_only};
use crate::control::coordinator::ControlCoordinator;
use crate::control::exchange::{Progress, Reply, Request};
use crate::control::exec::command::{exec_follows, ExecRun, ExecTurn};
use crate::control::exec::curve_tick::{curve_event, curve_follows, CurveRun, CurveTurn, CurveWrite};
use crate::control::exec::fan::{FanRun, FanStage};
use crate::control::exec::gpu::{GpuChange, GpuRun};
use crate::control::exec::heartbeat::failure_event;
use crate::control::exec::mux_switch::MuxRun;
use crate::control::exec::power::PowerRun;
use crate::control::exec::protect::{protects, safety_event, ProtectStage, ProtectTurn};
use crate::control::exec::restore::{follows, RestoreRun, RestoreTurn};
use crate::control::exec::thermal::ThermalRun;
use crate::control::journal::{event_views, EventView, JournalEvent, JournalOrigin};
use crate::control::plan::{bare_outcome, fresh_plan, restore_steps, same_plan, ActivePlan};
use crate::control::safety::ThermalFeed;
use crate::domain::command::{
    hp_accepted_step, hp_failed_step, hp_written_step, os_failed_step, ControlCommand, ControlOutcome, ControlReceipt,
    ControlStatus, FirmwareReturn, Note, Step, StepOutcome, Verification,
};
use crate::domain::error::{mapped_hp_error, ControlError, FirmwareDetail, HpWmiError, Missing, PlatformError};
use crate::domain::evidence::Evidence;
use crate::domain::policy::{
    CpuPowerLimits, FanCurve, FanLevels, FanMode, GpuPlatformPolicy, GpuPolicyPatch, ThermalMode,
};

verus! {

/// The record of a write that the firmware accepted.
pub open spec fn accepted(s: StepOutcome, step: Step, before: Note) -> bool {
    &&& s.step == step
    &&& s.firmware_return is Accepted
    &&& s.before == Some(before)
    &&& s.verification is TrustedNoReadback
}

/// The record of a write that failed: what it found, what the firmware said,
/// and whether it can have happened.
pub open spec fn refused(s: StepOutcome, step: Step, before: Note, e: HpWmiError) -> bool {
    &&& s.step == step
    &&& s.firmware_return == FirmwareReturn::Hp(e)
    &&& s.before == Some(before)
    &&& s.after == Some(
        if e is Timeout || e is Transport {
            Note::UnknownResult
        } else {
            Note::DefinitelyRejected
        },
    )
    &&& s.verification == (Verification::Failed { expected: Evidence::FirmwareAccept, actual: Evidence::Hp(e) })
}

/// The record of something that made no call, and awaits its readback.
pub open spec fn awaited(s: StepOutcome, step: Step, before: Note, after: Note) -> bool {
    &&& s.step == step
    &&& s.firmware_return is Absent
    &&& s.before == Some(before)
    &&& s.after == Some(after)
    &&& s.verification is TrustedNoReadback
}

/// Writes are recorded with what they found, what was answered, and what that
/// is worth.
pub proof fn writes_are_recorded(step: Step, before: Note, after: Option<Note>, e: HpWmiError, p: PlatformError)
    ensures
        accepted(hp_accepted_step(step, before, after), step, before),
        hp_accepted_step(step, before, after).after == after,
        accepted(hp_written_step(step, Ok(()), before), step, before),
        hp_written_step(step, Ok(()), before).after is None,
        refused(hp_failed_step(step, e, before), step, before, e),
        refused(hp_written_step(step, Err(e), before), step, before, e),
        os_failed_step(step, p, before) == (StepOutcome {
            step,
            firmware_return: FirmwareReturn::Platform(p),
            before: Some(before),
            after: None,
            verification: Verification::Failed { expected: Evidence::ApiSuccess, actual: Evidence::Platform(p) },
        }),
{
}

/// The one step of a thermal mode.
pub proof fn thermal_modes_are_recorded(c: ControlCoordinator, mode: ThermalMode, e: HpWmiError, saved: u64, written: u64)
    requires
        c.hp_present,
    ensures
        ({
            let s = ThermalRun::spec_start(c, mode);
            let w = s.run.spec_resume(s.coordinator, Reply::Saved(Ok(())), saved);
            let done = w.run.spec_resume(w.coordinator, Reply::Written(Ok(())), written);
            let failed = w.run.spec_resume(w.coordinator, Reply::Written(Err(e)), written);
            let before = Note::Thermal(c.observed.thermal_mode.known());
            &&& s.steps.len() == 0 && w.steps.len() == 0 && done.steps.len() == 1 && failed.steps.len() == 1
            &&& accepted(done.steps[0], Step::SetThermalMode, before)
            &&& done.steps[0].after == Some(Note::ThermalTrusted(mode))
            &&& refused(failed.steps[0], Step::SetThermalMode, before, e)
        }),
{
}

/// Each write to the fans is recorded under its own step, with the mode and
/// the overlay as they were known when the command began.
pub proof fn fan_writes_are_recorded(
    run: FanRun,
    c: ControlCoordinator,
    mode: FanMode,
    e: HpWmiError,
    feed: ThermalFeed,
    now: u64,
)
    requires
        run.stage != FanStage::Saving && run.stage != FanStage::Ended,
    ensures
        ({
            let good = run.spec_resume(c, Reply::Written(Ok(())), feed, now);
            let bad = run.spec_resume(c, Reply::Written(Err(e)), feed, now);
            let before = Note::Fan { mode: run.before_mode, max_fan: run.before_max };
            let step = match run.stage {
                FanStage::AutoRelease => Step::MaxFanOff,
                FanStage::AutoHandOver => Step::FanToAuto,
                FanStage::MaxOn => Step::MaxFanOn,
                FanStage::ManualRelease => Step::MaxFanOffBeforeManual,
                FanStage::ManualWrite => Step::SetManualLevels,
                FanStage::CurveRelease => Step::MaxFanOffBeforeCurve,
                _ => Step::SetCurveTarget,
            };
            let extra = run.stage == FanStage::ManualWrite || run.stage == FanStage::CurveWrite;
            &&& good.steps.len() == (if extra { 2 } else { 1int })
            &&& accepted(good.steps[0], step, before) && good.steps[0].after is None
            &&& run.stage == FanStage::ManualWrite ==> awaited(
                good.steps[1],
                Step::VerifyFanLevels,
                before,
                Note::FanPending,
            )
            &&& run.stage == FanStage::CurveWrite ==> awaited(
                good.steps[1],
                Step::ActivateCurve,
                before,
                Note::CurveTarget { temp: run.temp, target: run.target },
            )
            &&& bad.steps.len() == 1 && refused(bad.steps[0], step, before, e)
        }),
        ({
            let s = FanRun::spec_start(c, mode).run;
            &&& s.before_mode == c.observed.fan_mode.known()
            &&& s.before_max == c.observed.max_fan.known()
            &&& s.mode == mode && s.previously_dirty == c.fan_control_dirty
        }),
{
}

/// A mode that the user sets under an override is what the fans are released
/// to; a failed release, and a failed overlay, leave the command half done;
/// and a curve that could not start goes back to firmware.
pub proof fn fans_under_an_override(
    c: ControlCoordinator,
    curve: FanCurve,
    levels: FanLevels,
    feed: ThermalFeed,
    saved: u64,
    written: u64,
    e: HpWmiError,
)
    requires
        c.hp_present,
        c.observed.max_fan.known() != Some(true),
    ensures
        ({
            let s = FanRun::spec_start(c, FanMode::Manual(levels));
            let w = s.run.spec_resume(s.coordinator, Reply::Saved(Ok(())), feed, saved);
            let done = w.run.spec_resume(w.coordinator, Reply::Written(Ok(())), feed, written);
            let check = done.coordinator.verification_requested->Some_0;
            &&& c.safety.override_saved is Some ==> done.coordinator.safety.override_saved == Some(FanMode::Manual(levels))
            &&& c.safety.override_saved is None ==> done.coordinator.safety.override_saved is None
            &&& check.interval == c.verify_poll_interval
            &&& c.verify_polls >= 1 ==> check.remaining == c.verify_polls
        }),
        ({
            let s = FanRun::spec_start(c, FanMode::Max);
            let w = s.run.spec_resume(s.coordinator, Reply::Saved(Ok(())), feed, saved);
            let done = w.run.spec_resume(w.coordinator, Reply::Written(Ok(())), feed, written);
            let failed = w.run.spec_resume(w.coordinator, Reply::Written(Err(e)), feed, written);
            &&& c.safety.override_saved is Some ==> done.coordinator.safety.override_saved == Some(FanMode::Max)
            &&& failed.progress == Progress::Done(ControlStatus::Partial) && failed.coordinator.fan_control_dirty
            &&& failed.coordinator.observed == c.observed
        }),
        ({
            let s = FanRun::spec_start(c, FanMode::Curve(curve));
            let temp = crate::control::fan_curve::controlling_temp(feed.pkg_temp, feed.gpu_temp, saved);
            let w = s.run.spec_resume(s.coordinator, Reply::Saved(Ok(())), feed, saved);
            let done = w.run.spec_resume(w.coordinator, Reply::Written(Ok(())), feed, written);
            let failed = w.run.spec_resume(w.coordinator, Reply::Written(Err(e)), feed, written);
            temp is Some ==> {
                &&& c.safety.override_saved is Some ==> done.coordinator.safety.override_saved == Some(
                    FanMode::Curve(curve),
                )
                &&& done.coordinator.fan_curve.smoothed_temp == Some((temp->Some_0 * 1_099_511_627_776int) as i128)
                &&& failed.progress == Progress::HandBack(
                    ControlStatus::Rejected {
                        error: ControlError::FirmwareRejected { detail: FirmwareDetail::CurveWrite },
                    },
                )
                &&& failed.coordinator.fan_curve.last_write_at == Some(saved)
            }
        }),
{
}

/// The steps of a graphics policy: an unread policy, a refused write with the
/// policy that was found, or a write that awaits its readback.
pub proof fn graphics_policies_are_recorded(
    c: ControlCoordinator,
    policy: GpuPlatformPolicy,
    patch: GpuPolicyPatch,
    live: GpuPlatformPolicy,
    e: HpWmiError,
    read: u64,
    saved: u64,
    written: u64,
)
    requires
        c.hp_present,
    ensures
        ({
            let s = GpuRun::spec_start(c, GpuChange::Whole(policy));
            let b = s.run.spec_resume(s.coordinator, Reply::Gpu(Ok(live)), read);
            let w = b.run.spec_resume(b.coordinator, Reply::Saved(Ok(())), saved);
            let done = w.run.spec_resume(w.coordinator, Reply::Written(Ok(())), written);
            let failed = w.run.spec_resume(w.coordinator, Reply::Written(Err(e)), written);
            let check = done.coordinator.verification_requested->Some_0;
            &&& s.steps.len() == 0 && b.steps.len() == 0 && w.steps.len() == 0
            &&& done.steps.len() == 1 && awaited(done.steps[0], Step::VerifyGpuPolicy, Note::Gpu(live), Note::Pending)
            &&& failed.steps.len() == 1 && refused(failed.steps[0], Step::SetGpuPolicy, Note::Gpu(live), e)
            &&& check.interval == c.verify_poll_interval
            &&& c.verify_polls >= 1 ==> check.remaining == c.verify_polls
        }),
        ({
            let s = GpuRun::spec_start(c, GpuChange::Patch(patch));
            let unread = s.run.spec_resume(s.coordinator, Reply::Gpu(Err(e)), read);
            &&& unread.coordinator == c
            &&& unread.progress == Progress::Done(ControlStatus::Rejected { error: mapped_hp_error(e) })
            &&& unread.steps.len() == 1 && refused(unread.steps[0], Step::ReadGpuPolicy, Note::NotRead, e)
        }),
{
}

/// The steps of power limits: without a baseline nothing is written, and the
/// lost feed is recorded; else a refused write, or one that awaits its
/// readback, with the peak limit where it is set.
pub proof fn power_limits_are_recorded(
    c: ControlCoordinator,
    limits: CpuPowerLimits,
    feed: ThermalFeed,
    e: HpWmiError,
    saved: u64,
    written: u64,
)
    requires
        c.hp_present,
    ensures
        ({
            let s = PowerRun::spec_start(c, limits, feed);
            let w = s.run.spec_resume(s.coordinator, Reply::Saved(Ok(())), saved);
            let done = w.run.spec_resume(w.coordinator, Reply::Written(Ok(())), written);
            let failed = w.run.spec_resume(w.coordinator, Reply::Written(Err(e)), written);
            let before = Note::Power { power: feed.power_limits, pl4: feed.pl4 };
            let lost = c.power_limits_baseline is None && feed.power_limits is None;
            let check = done.coordinator.verification_requested->Some_0;
            &&& lost ==> {
                &&& s.coordinator == c
                &&& s.progress == Progress::Done(
                    ControlStatus::Rejected {
                        error: ControlError::BackendUnavailable { what: Missing::PowerReadbackFeed },
                    },
                )
                &&& s.steps.len() == 1 && s.steps[0] == (StepOutcome {
                    step: Step::CapturePowerBaseline,
                    firmware_return: FirmwareReturn::Absent,
                    before: Some(before),
                    after: Some(Note::FeedLost),
                    verification: Verification::Skipped,
                })
            }
            &&& !lost ==> {
                &&& s.steps.len() == 0 && w.steps.len() == 0
                &&& done.steps.len() == 1 && awaited(
                    done.steps[0],
                    if limits.pl4_w == 0 {
                        Step::VerifyPowerLimits
                    } else {
                        Step::VerifyPowerLimitsPl4
                    },
                    before,
                    Note::Pending,
                )
                &&& failed.steps.len() == 1 && refused(failed.steps[0], Step::SetPowerLimits, before, e)
                &&& check.interval == c.verify_poll_interval
                &&& c.verify_polls >= 1 ==> check.remaining == c.verify_polls
            }
        }),
{
}

/// The one step of the multiplexer: what was selected, what was answered, and
/// where the lifecycle stands.
pub proof fn multiplexer_requests_are_recorded(c: ControlCoordinator, result: Result<(), HpWmiError>)
    ensures
        ({
            let r = MuxRun::Writing.spec_resume(c, Reply::Written(result));
            &&& r.steps.len() == 1
            &&& r.steps[0].step == Step::RequestMuxReboot
            &&& r.steps[0].before == Some(Note::Mux(c.observed.mux.known()))
            &&& r.steps[0].after == Some(Note::MuxStatus(c.mux_lifecycle.status))
            &&& r.steps[0].verification is Skipped
            &&& result is Ok ==> r.steps[0].firmware_return is Accepted
            &&& result is Err ==> r.steps[0].firmware_return == FirmwareReturn::Hp(result->Err_0)
        }),
{
}

/// What the service does of its own is journaled as its own: under no receipt,
/// with the command that it amounts to and how it went.
pub proof fn own_actions_are_journaled(
    w: CurveWrite,
    result: Result<(), HpWmiError>,
    mode: FanMode,
    status: ControlStatus,
    steps: Seq<StepOutcome>,
    duration: u64,
    e: HpWmiError,
)
    ensures
        ({
            let v = curve_event(w, result);
            &&& v.origin == JournalOrigin::Safety && v.receipt == ControlReceipt(0) && v.duration == 0
            &&& v.command == ControlCommand::SetFanMode(FanMode::Curve(w.curve))
            &&& result is Ok ==> v.status == (ControlStatus::Applied { verification: Verification::TrustedNoReadback })
            &&& result is Err ==> v.status == (ControlStatus::Rejected {
                error: ControlError::FirmwareRejected { detail: FirmwareDetail::CurveUpdate },
            })
            &&& v.steps.len() == 1
            &&& result is Ok ==> accepted(
                v.steps[0],
                Step::UpdateCurveTarget,
                Note::CurveUpdate { smoothed: w.temp, last: w.last },
            )
            &&& result is Err ==> refused(
                v.steps[0],
                Step::UpdateCurveTarget,
                Note::CurveUpdate { smoothed: w.temp, last: w.last },
                result->Err_0,
            )
        }),
        ({
            let v = safety_event(mode, status, steps, duration as int);
            &&& v.origin == JournalOrigin::Safety && v.receipt == ControlReceipt(0) && v.duration == duration
            &&& v.command == ControlCommand::SetFanMode(mode) && v.status == status && v.steps == steps
        }),
        ({
            let v = failure_event(e);
            &&& v.origin == JournalOrigin::Keepalive && v.receipt == ControlReceipt(0) && v.duration == 0
            &&& v.command == ControlCommand::SetFanMode(FanMode::FirmwareAuto) && v.steps.len() == 0
            &&& v.status == (ControlStatus::Rejected { error: mapped_hp_error(e) })
        }),
{
}

/// A journal entry says who acted and what came of it.
pub proof fn journal_entries_say_what_happened(events: Seq<JournalEvent>, i: int)
    requires
        0 <= i < events.len(),
    ensures
        event_views(events).len() == events.len(),
        event_views(events)[i].origin == events[i].origin,
        event_views(events)[i].receipt == events[i].outcome.receipt,
        event_views(events)[i].command == events[i].outcome.command,
        event_views(events)[i].status == events[i].outcome.status,
        event_views(events)[i].steps == events[i].outcome.steps@,
        event_views(events)[i].duration == events[i].outcome.duration,
{
}

/// A turn that follows its description has its every part.
pub proof fn turns_are_followed_in_every_part(
    turn: ExecTurn,
    run: ExecRun,
    c: ControlCoordinator,
    steps_before: Seq<StepOutcome>,
    steps: Seq<StepOutcome>,
    scratch: Seq<StepOutcome>,
    logged_before: Seq<EventView>,
    logged: Seq<EventView>,
    progress: Progress,
    curve: CurveTurn,
    curve_run: CurveRun,
    action: ProtectTurn,
    stage: ProtectStage,
    next: Option<Request>,
)
    ensures
        exec_follows(turn, run, c, steps_before, steps, scratch, logged_before, logged, progress) <==> {
            &&& turn.run == run && turn.coordinator == c && turn.scratch == scratch && turn.progress == progress
            &&& steps_before + turn.steps == steps && logged_before + turn.events == logged
        },
        curve_follows(curve, curve_run, c, scratch, logged_before, logged, next) <==> {
            &&& curve.run == curve_run && curve.coordinator == c && curve.scratch == scratch && curve.next == next
            &&& logged_before + curve.events == logged
        },
        protects(action, stage, c, steps, scratch, logged_before, logged, next) <==> {
            &&& action.stage == stage && action.coordinator == c && action.steps == steps && action.scratch == scratch
            &&& action.next == next && logged_before + action.events == logged
        },
{
}

/// A plan starts at its first step with nothing recorded, and remembers who
/// asked, for what, and when; an outcome is about exactly that.
pub proof fn plans_start_and_end_whole(
    p: ActivePlan,
    q: ActivePlan,
    receipt: ControlReceipt,
    cmd: ControlCommand,
    commands: Seq<ControlCommand>,
    c: ControlCoordinator,
    started: u64,
    o: ControlOutcome,
    status: ControlStatus,
    now: u64,
)
    ensures
        fresh_plan(p, receipt, cmd, commands, c, started) ==> {
            &&& p.receipt == receipt && p.command == cmd && p.plan@ == commands && p.index == 0
            &&& p.steps@.len() == 0 && p.scratch@.len() == 0 && p.weakest is Skipped
            &&& p.started == started && p.epoch == c.control_epoch && p.stage is Ready
            &&& p.restore_scope_steps == restore_steps(c, cmd)
        },
        p.outcome_is(o, status, now) ==> {
            &&& o.receipt == p.receipt && o.command == p.command && o.status == status && o.steps@ == p.steps@
            &&& now >= p.started ==> o.duration == now - p.started
            &&& now < p.started ==> o.duration == 0
        },
        bare_outcome(o, receipt, cmd, status, now as int) ==> {
            &&& o.receipt == receipt && o.command == cmd && o.status == status && o.steps@.len() == 0
            &&& o.duration == now
        },
        stage_only(p, q) ==> {
            &&& same_plan_as(p, q) && p.receipt == q.receipt && p.command == q.command && p.plan@ == q.plan@
            &&& p.started == q.started && p.epoch == q.epoch && p.restore_scope_steps == q.restore_scope_steps
            &&& p.index == q.index && p.weakest == q.weakest && p.steps@ == q.steps@ && p.scratch@ == q.scratch@
        },
{
}

/// A turn of a restore has its every part, and a plan that was made is the one
/// that was described.
pub proof fn restores_are_followed_in_every_part(
    turn: RestoreTurn,
    run: RestoreRun,
    c: ControlCoordinator,
    steps: Seq<StepOutcome>,
    progress: Progress,
    plan: Vec<ControlCommand>,
    commands: Seq<ControlCommand>,
    e: ControlError,
    f: ControlError,
)
    ensures
        follows(turn, run, c, steps, progress) <==> turn.run == run && turn.coordinator == c && turn.steps == steps
            && turn.progress == progress,
        same_plan(Ok(plan), Ok(commands)) <==> plan@ == commands,
        same_plan(Err(e), Err(f)) <==> e == f,
        !same_plan(Ok(plan), Err(e)) && !same_plan(Err(e), Ok(commands)),
{
}

} // verus!
