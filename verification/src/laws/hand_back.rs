//! Handing the machine back: everything that is owed, in order, and nothing
//! that is not.
use vstd::prelude::*;

use crate::control::coordinator::ControlCoordinator;
use crate::control::exchange::{CpuResults, HpWrite, Progress, Reply, Request};
use crate::control::exec::cpu::{after_cpu, cpu_status, cpu_steps};
use crate::control::exec::fan::max_fan_written;
use crate::control::exec::restore::{verify_deadline, RestoreRun, RestoreStage, RestoreTurn};
use crate::control::journal::JournalOrigin;
use crate::control::safety::ThermalFeed;
use crate::control::verification::Readback;
use crate::domain::command::{hp_written_step, ControlStatus, Note, Step, StepOutcome, Verification};
use crate::domain::error::{ControlError, HpWmiError, UnsafeReason};
use crate::domain::evidence::Target;
use crate::domain::policy::{FanLevels, FanMode, ThermalMode, WindowsPpmState};
use crate::domain::state::{ControlNotice, ObservedState};
use crate::laws::execution::went_well;

verus! {

/// What is asked for from the given part on: graphics policy, power limits,
/// thermal mode, session, ledger. A part that is not owed, has no value to go
/// back to, or cannot be reached is passed over.
pub open spec fn asks_from(part: int, run: RestoreRun, c: ControlCoordinator, turn: RestoreTurn) -> bool {
    if part <= 1 && c.hp_present && run.gpu && c.gpu_policy_startup is Some {
        turn.progress == Progress::Ask(Request::Write(HpWrite::GpuPolicy(c.gpu_policy_startup->Some_0)))
            && turn.run.stage == RestoreStage::GpuWrite
    } else if part <= 2 && c.hp_present && run.power && c.power_limits_baseline is Some {
        turn.progress == Progress::Ask(Request::Write(HpWrite::PowerLimits(c.power_limits_baseline->Some_0)))
            && turn.run.stage == RestoreStage::PowerWrite
    } else if part <= 3 && c.hp_present && run.thermal {
        turn.progress == Progress::Ask(Request::Write(HpWrite::Thermal(ThermalMode::Balanced))) && turn.run.stage
            == RestoreStage::Thermal
    } else if part <= 4 && c.scoped_session is Some {
        if c.scoped_session->Some_0.scheme is Some {
            turn.progress == Progress::Ask(Request::ReadPpm) && turn.run.stage == RestoreStage::Scheme
        } else {
            turn.progress == Progress::Ask(Request::ApplyCpu(c.scoped_session->Some_0.baseline.cpu)) && turn.run.stage
                == RestoreStage::ScopeCpu
        }
    } else {
        turn.progress == Progress::Ask(Request::SaveLedger(turn.coordinator.spec_ledger())) && turn.run.stage
            == RestoreStage::Saving
    }
}

/// What is owed and what has been settled, but for one part.
pub open spec fn same_owed(a: RestoreRun, b: RestoreRun) -> bool {
    a.fan == b.fan && a.thermal == b.thermal && a.gpu == b.gpu && a.power == b.power && a.origin == b.origin
        && a.started == b.started && a.deadline == b.deadline
}

/// What has been settled of the firmware's parts.
pub open spec fn same_settled(a: RestoreRun, b: RestoreRun) -> bool {
    a.fan_auto_ok == b.fan_auto_ok && a.max_off_ok == b.max_off_ok && a.thermal_ok == b.thermal_ok && a.gpu_ok
        == b.gpu_ok && a.power_ok == b.power_ok
}

proof fn ledger_part(run: RestoreRun, c: ControlCoordinator, steps: Seq<StepOutcome>, now: u64)
    ensures
        ({
            let t = run.to_ledger(c, steps, now);
            &&& t.progress == Progress::Ask(Request::SaveLedger(t.coordinator.spec_ledger()))
            &&& t.run.stage == RestoreStage::Saving
            &&& t.coordinator.scoped_session == c.scoped_session
            &&& same_owed(t.run, run) && same_settled(t.run, run) && t.run.scope_ok == run.scope_ok
            &&& t.coordinator.control_epoch == c.control_epoch
            &&& t.coordinator.observed.active_profile == c.observed.active_profile
        }),
{
    reveal(RestoreRun::to_ledger);
    reveal(RestoreRun::settled);
}

proof fn scope_part(run: RestoreRun, c: ControlCoordinator, steps: Seq<StepOutcome>, now: u64)
    ensures
        passed_on(4, run, c, run.to_scope(c, steps, now)),
{
    reveal(RestoreRun::to_scope);
    ledger_part(RestoreRun { scope_ok: true, scope_started: now, ..run }, c, steps, now);
}

/// The next part is asked for, and what was owed and settled stays.
pub open spec fn passed_on(part: int, run: RestoreRun, c: ControlCoordinator, t: RestoreTurn) -> bool {
    &&& asks_from(part, run, c, t)
    &&& same_owed(t.run, run) && same_settled(t.run, run)
    &&& t.coordinator.control_epoch == c.control_epoch
    &&& t.coordinator.observed.active_profile == c.observed.active_profile
}

proof fn thermal_part(run: RestoreRun, c: ControlCoordinator, steps: Seq<StepOutcome>, now: u64)
    ensures
        passed_on(3, run, c, run.to_thermal(c, steps, now)),
{
    reveal(RestoreRun::to_thermal);
    scope_part(run, c, steps, now);
}

proof fn power_part(run: RestoreRun, c: ControlCoordinator, steps: Seq<StepOutcome>, now: u64)
    ensures
        passed_on(2, run, c, run.to_power(c, steps, now)),
{
    reveal(RestoreRun::to_power);
    thermal_part(run, c, steps, now);
}

proof fn gpu_part(run: RestoreRun, c: ControlCoordinator, steps: Seq<StepOutcome>, now: u64)
    ensures
        passed_on(1, run, c, run.to_gpu(c, steps, now)),
{
    reveal(RestoreRun::to_gpu);
    power_part(run, c, steps, now);
}

/// The readbacks of one hand-back share one budget.
pub proof fn hand_backs_have_a_budget(started: u64, interval: u64, polls: u32)
    ensures
        ({
            let n = if polls == 0 { 1int } else { polls as int };
            started + interval * n + 5_000 <= u64::MAX ==> verify_deadline(started, interval, polls) == started + interval
                * n + 5_000
        }),
{
}

/// A hand-back owes what this session has changed. It starts with the fans,
/// the overlay before the levels, and voids plans and profile names.
pub proof fn hand_backs_start_with_the_fans(c: ControlCoordinator, origin: JournalOrigin, now: u64)
    ensures
        ({
            let turn = RestoreRun::spec_start(c, origin, now);
            let r = turn.run;
            &&& r.fan == c.fan_control_dirty && r.thermal == c.thermal_mode_dirty && r.gpu == c.gpu_policy_dirty
                && r.power == c.power_limits_dirty && r.origin == origin && r.started == now
            &&& r.thermal_ok == !c.thermal_mode_dirty && r.gpu_ok == !c.gpu_policy_dirty && r.power_ok
                == !c.power_limits_dirty
            &&& if c.hp_present && c.fan_control_dirty {
                if c.observed.max_fan.known() == Some(false) {
                    turn.progress == Progress::Ask(
                        Request::Write(HpWrite::FanLevels(FanLevels { left: 0, right: 0 })),
                    ) && r.stage == RestoreStage::FanAuto
                } else {
                    turn.progress == Progress::Ask(Request::Write(HpWrite::MaxFan(false))) && r.stage
                        == RestoreStage::MaxOff
                }
            } else {
                asks_from(1, r, c, turn)
            }
            &&& turn.coordinator.control_epoch != c.control_epoch
            &&& turn.coordinator.observed.active_profile is None
        }),
{
    reveal(RestoreRun::to_fan);
    reveal(RestoreRun::to_gpu);
    reveal(RestoreRun::to_power);
    reveal(RestoreRun::to_thermal);
    reveal(RestoreRun::to_scope);
    reveal(RestoreRun::to_ledger);
    reveal(RestoreRun::settled);
}

/// The fans: with the overlay off the levels go to firmware, then the next
/// part follows. Whatever fails forces max fan, and the fans stay unsettled.
pub proof fn fans_are_handed_over(
    run: RestoreRun,
    c: ControlCoordinator,
    steps: Seq<StepOutcome>,
    e: HpWmiError,
    feed: ThermalFeed,
    now: u64,
)
    ensures
        run.stage == RestoreStage::MaxOff ==> {
            let good = run.spec_resume(c, steps, Reply::Written(Ok(())), feed, now);
            let bad = run.spec_resume(c, steps, Reply::Written(Err(e)), feed, now);
            &&& good.progress == Progress::Ask(Request::Write(HpWrite::FanLevels(FanLevels { left: 0, right: 0 })))
            &&& good.run.stage == RestoreStage::FanAuto && good.run.max_off_ok && same_owed(good.run, run)
            &&& good.coordinator.observed.max_fan.known() == Some(false)
            &&& bad.progress == Progress::Ask(Request::Write(HpWrite::MaxFan(true)))
            &&& bad.run.stage == RestoreStage::Rearm && bad.run.max_off_ok == run.max_off_ok && bad.coordinator == c
        },
        run.stage == RestoreStage::FanAuto ==> {
            let good = run.spec_resume(c, steps, Reply::Written(Ok(())), feed, now);
            let bad = run.spec_resume(c, steps, Reply::Written(Err(e)), feed, now);
            &&& good.run.fan_auto_ok && same_owed(good.run, run) && good.run.max_off_ok == run.max_off_ok
            &&& asks_from(1, run, c, good)
            &&& bad.progress == Progress::Ask(Request::Write(HpWrite::MaxFan(true)))
            &&& bad.run.fan_auto_ok == run.fan_auto_ok && bad.coordinator == c
        },
        run.stage == RestoreStage::Rearm ==> {
            let good = run.spec_resume(c, steps, Reply::Written(Ok(())), feed, now);
            let bad = run.spec_resume(c, steps, Reply::Written(Err(e)), feed, now);
            &&& !good.run.max_off_ok && same_owed(good.run, run)
            &&& good.run.fan_auto_ok == run.fan_auto_ok && bad.run.fan_auto_ok == run.fan_auto_ok
            &&& asks_from(1, run, c, good) && asks_from(1, run, c, bad)
        },
{
    reveal(RestoreRun::after_max_off);
    reveal(RestoreRun::after_fan_auto);
    reveal(RestoreRun::after_rearm);
    let stepped = |r: Result<(), HpWmiError>, step: Step, note: Note| steps.push(hp_written_step(step, r, note));
    gpu_part(
        RestoreRun { fan_auto_ok: true, ..run },
        c,
        stepped(Ok(()), Step::RestoreFanAuto, Note::Restore),
        now,
    );
    gpu_part(
        RestoreRun { max_off_ok: false, ..run },
        max_fan_written(c, true, now),
        stepped(Ok(()), Step::RestoreFallbackMaxFan, Note::FailedAutoRestore),
        now,
    );
    gpu_part(run, c, stepped(Err(e), Step::RestoreFallbackMaxFan, Note::FailedAutoRestore), now);
}

/// The graphics policy is written back and then read: only what was refused
/// outright is given up at once.
pub proof fn graphics_policy_is_written_back(
    run: RestoreRun,
    c: ControlCoordinator,
    steps: Seq<StepOutcome>,
    e: HpWmiError,
    feed: ThermalFeed,
    now: u64,
)
    requires
        run.stage == RestoreStage::GpuWrite,
    ensures
        ({
            let good = run.spec_resume(c, steps, Reply::Written(Ok(())), feed, now);
            let bad = run.spec_resume(c, steps, Reply::Written(Err(e)), feed, now);
            &&& good.progress is Ask && good.progress->Ask_0 is Poll && good.run.stage == RestoreStage::GpuPoll
            &&& good.run.check is Some
            &&& good.run.check->Some_0.target == Target::Gpu(c.gpu_policy_startup->Some_0, false)
            &&& good.run.check->Some_0.written_at == now
            &&& !bad.run.gpu_ok && asks_from(2, run, c, bad)
        }),
{
    reveal(RestoreRun::after_gpu_write);
    power_part(
        RestoreRun { gpu_ok: false, ..run },
        c,
        steps.push(hp_written_step(Step::RestoreGpuPolicy, Err(e), Note::Restore)),
        now,
    );
}

/// The power limits are written back and then read.
pub proof fn power_limits_are_written_back(
    run: RestoreRun,
    c: ControlCoordinator,
    steps: Seq<StepOutcome>,
    e: HpWmiError,
    feed: ThermalFeed,
    now: u64,
)
    requires
        run.stage == RestoreStage::PowerWrite,
    ensures
        ({
            let good = run.spec_resume(c, steps, Reply::Written(Ok(())), feed, now);
            let bad = run.spec_resume(c, steps, Reply::Written(Err(e)), feed, now);
            &&& good.progress is Ask && good.progress->Ask_0 is Poll && good.run.stage == RestoreStage::PowerPoll
            &&& good.run.check is Some
            &&& good.run.check->Some_0.target == Target::Power(c.power_limits_baseline->Some_0)
            &&& good.run.check->Some_0.written_at == now
            &&& !bad.run.power_ok && asks_from(3, run, c, bad)
        }),
{
    reveal(RestoreRun::after_power_write);
    thermal_part(
        RestoreRun { power_ok: false, ..run },
        c,
        steps.push(hp_written_step(Step::RestorePowerLimits, Err(e), Note::Restore)),
        now,
    );
}

/// Polls go on until a verdict or the deadline.
pub open spec fn polls_on(run: RestoreRun, c: ControlCoordinator, read: Readback, feed: ThermalFeed, now: u64, t: RestoreTurn) -> bool {
    let check = run.check->Some_0.spec_poll(read, feed, now).0;
    &&& t.progress == Progress::Ask(Request::Poll { due: check.next_due })
    &&& t.run.stage == run.stage && t.coordinator == c && t.run.check == Some(check)
    &&& same_owed(t.run, run) && same_settled(t.run, run)
}

proof fn polled_frame(run: RestoreRun, c: ControlCoordinator, read: Readback, feed: ThermalFeed, now: u64)
    ensures
        ({
            let d = run.polled(c, read, feed, now);
            &&& d.hp_present == c.hp_present && d.scoped_session == c.scoped_session
            &&& d.power_limits_baseline == c.power_limits_baseline && d.gpu_policy_startup == c.gpu_policy_startup
        }),
{
    reveal(RestoreRun::polled);
}

/// The graphics policy counts as put back exactly if a readback in time shows
/// the value that was found before the first write.
pub proof fn graphics_policy_is_read_back(
    run: RestoreRun,
    c: ControlCoordinator,
    steps: Seq<StepOutcome>,
    read: Readback,
    feed: ThermalFeed,
    now: u64,
)
    requires
        run.stage == RestoreStage::GpuPoll,
        run.check is Some,
    ensures
        ({
            let v = run.check->Some_0.spec_poll(read, feed, now).1;
            let turn = run.spec_resume(c, steps, Reply::Polled(read), feed, now);
            &&& v is None && now < run.deadline ==> polls_on(run, c, read, feed, now, turn)
            &&& v is Some || now >= run.deadline ==> asks_from(2, run, c, turn) && (turn.run.gpu_ok <==> v == Some(
                Verification::Verified,
            )) && same_owed(turn.run, run) && turn.run.power_ok == run.power_ok
        }),
{
    reveal(RestoreRun::after_gpu_poll);
    reveal(RestoreRun::poll_verdict);
    let check = run.check->Some_0.spec_poll(read, feed, now).0;
    if let Some(v) = run.poll_verdict(read, feed, now) {
        polled_frame(run, c, read, feed, now);
        power_part(
            RestoreRun { gpu_ok: v is Verified, check: Some(check), ..run },
            run.polled(c, read, feed, now),
            steps.push(RestoreRun::read_back_step(Step::RestoreGpuPolicy, None, v)),
            now,
        );
    }
}

/// The power limits count as put back exactly if a readback in time shows what
/// was captured before the first write.
pub proof fn power_limits_are_read_back(
    run: RestoreRun,
    c: ControlCoordinator,
    steps: Seq<StepOutcome>,
    read: Readback,
    feed: ThermalFeed,
    now: u64,
)
    requires
        run.stage == RestoreStage::PowerPoll,
        run.check is Some,
    ensures
        ({
            let v = run.check->Some_0.spec_poll(read, feed, now).1;
            let turn = run.spec_resume(c, steps, Reply::Polled(read), feed, now);
            &&& v is None && now < run.deadline ==> polls_on(run, c, read, feed, now, turn)
            &&& v is Some || now >= run.deadline ==> asks_from(3, run, c, turn) && (turn.run.power_ok <==> v == Some(
                Verification::Verified,
            )) && same_owed(turn.run, run) && turn.run.gpu_ok == run.gpu_ok
        }),
{
    reveal(RestoreRun::after_power_poll);
    reveal(RestoreRun::poll_verdict);
    let check = run.check->Some_0.spec_poll(read, feed, now).0;
    if let Some(v) = run.poll_verdict(read, feed, now) {
        polled_frame(run, c, read, feed, now);
        thermal_part(
            RestoreRun { power_ok: v is Verified, check: Some(check), ..run },
            run.polled(c, read, feed, now),
            steps.push(
                RestoreRun::read_back_step(
                    Step::RestorePowerLimits,
                    Some(Note::Limits(c.power_limits_baseline->Some_0)),
                    v,
                ),
            ),
            now,
        );
    }
}

/// The thermal mode counts as put back exactly if its write was accepted; the
/// session follows.
pub proof fn thermal_mode_is_put_back(
    run: RestoreRun,
    c: ControlCoordinator,
    steps: Seq<StepOutcome>,
    result: Result<(), HpWmiError>,
    feed: ThermalFeed,
    now: u64,
)
    requires
        run.stage == RestoreStage::Thermal,
    ensures
        ({
            let turn = run.spec_resume(c, steps, Reply::Written(result), feed, now);
            &&& turn.run.thermal_ok == (result is Ok)
            &&& same_owed(turn.run, run)
            &&& asks_from(4, run, c, turn)
        }),
{
    reveal(RestoreRun::after_thermal);
    scope_part(
        RestoreRun { thermal_ok: result is Ok, ..run },
        c,
        steps.push(hp_written_step(Step::RestoreThermal, result, Note::Restore)),
        now,
    );
}

/// A session is put back under its own power scheme only.
pub proof fn sessions_are_put_back_under_their_scheme(
    run: RestoreRun,
    c: ControlCoordinator,
    steps: Seq<StepOutcome>,
    state: Option<WindowsPpmState>,
    feed: ThermalFeed,
    now: u64,
)
    requires
        run.stage == RestoreStage::Scheme,
    ensures
        ({
            let turn = run.spec_resume(c, steps, Reply::Ppm(state), feed, now);
            let session = c.scoped_session->Some_0;
            let same = state is Some && state->Some_0.active_scheme_guid@ == session.scheme->Some_0@;
            &&& same ==> turn.progress == Progress::Ask(Request::ApplyCpu(session.baseline.cpu))
            &&& !same ==> turn.progress is Ask && turn.progress->Ask_0 is SaveLedger && !turn.run.scope_ok
                && turn.coordinator.scoped_session == c.scoped_session
        }),
{
    reveal(RestoreRun::after_scheme);
    reveal(RestoreRun::scope_done);
    let changed = ControlStatus::Rejected {
        error: ControlError::UnsafeRequest { reason: UnsafeReason::SchemeChanged },
    };
    ledger_part(RestoreRun { scope_ok: false, ..run }, incomplete(c, changed), steps, now);
}

/// A session is over exactly if its processor settings went back well; else it
/// stays owed.
pub proof fn sessions_end_when_put_back(
    run: RestoreRun,
    c: ControlCoordinator,
    steps: Seq<StepOutcome>,
    results: CpuResults,
    feed: ThermalFeed,
    now: u64,
)
    requires
        run.stage == RestoreStage::ScopeCpu,
    ensures
        ({
            let turn = run.spec_resume(c, steps, Reply::Cpu(results), feed, now);
            let good = went_well(cpu_status(c.scoped_session->Some_0.baseline.cpu, results));
            &&& turn.progress is Ask && turn.progress->Ask_0 is SaveLedger
            &&& turn.run.scope_ok == good
            &&& good ==> turn.coordinator.scoped_session is None
            &&& !good ==> turn.coordinator.scoped_session == c.scoped_session
        }),
{
    reveal(RestoreRun::after_scope_cpu);
    let policy = c.scoped_session->Some_0.baseline.cpu;
    let status = cpu_status(policy, results);
    let d = after_cpu(c, policy, results, now);
    assert(d.scoped_session == c.scoped_session);
    session_done(run, d, steps, status, cpu_steps(policy, results), now);
}

proof fn session_done(
    run: RestoreRun,
    c: ControlCoordinator,
    steps: Seq<StepOutcome>,
    status: ControlStatus,
    scope_steps: Seq<StepOutcome>,
    now: u64,
)
    ensures
        ({
            let turn = run.scope_done(c, steps, status, scope_steps, now);
            &&& turn.progress is Ask && turn.progress->Ask_0 is SaveLedger
            &&& turn.run.scope_ok == went_well(status)
            &&& went_well(status) ==> turn.coordinator.scoped_session is None
            &&& !went_well(status) ==> turn.coordinator.scoped_session == c.scoped_session
        }),
{
    reveal(RestoreRun::scope_done);
    if went_well(status) {
        ledger_part(RestoreRun { scope_ok: true, ..run }, ControlCoordinator { scoped_session: None, ..c }, steps, now);
    } else {
        ledger_part(RestoreRun { scope_ok: false, ..run }, incomplete(c, status), steps, now);
    }
}

/// The state with the notice that a session could not be put back.
spec fn incomplete(c: ControlCoordinator, status: ControlStatus) -> ControlCoordinator {
    ControlCoordinator {
        observed: ObservedState {
            control_notice: Some(ControlNotice::ScopeRestoreIncomplete(status)),
            ..c.observed
        },
        ..c
    }
}

/// Before the ledger is saved, each part that was settled is struck off and
/// known to be back; what was not settled stays owed and as it was known.
pub proof fn settled_parts_are_struck_off(run: RestoreRun, c: ControlCoordinator, now: u64)
    ensures
        ({
            let d = run.settled(c, now);
            let fans = !run.fan || (run.fan_auto_ok && run.max_off_ok);
            let (o, p) = (c.observed, d.observed);
            &&& d.fan_control_dirty == (c.fan_control_dirty && !fans)
            &&& d.thermal_mode_dirty == (c.thermal_mode_dirty && !run.thermal_ok)
            &&& d.gpu_policy_dirty == (c.gpu_policy_dirty && !run.gpu_ok)
            &&& d.power_limits_dirty == (c.power_limits_dirty && !run.power_ok)
            &&& run.fan && run.fan_auto_ok ==> p.fan_mode.known() == Some(FanMode::FirmwareAuto)
            &&& !(run.fan && run.fan_auto_ok) ==> p.fan_mode == o.fan_mode
            &&& run.fan && run.max_off_ok ==> p.max_fan.known() == Some(false)
            &&& !(run.fan && run.max_off_ok) ==> p.max_fan == o.max_fan
            &&& run.thermal && run.thermal_ok ==> p.thermal_mode.known() == Some(ThermalMode::Balanced)
            &&& !(run.thermal && run.thermal_ok) ==> p.thermal_mode == o.thermal_mode
            &&& run.power && run.power_ok && c.power_limits_baseline is Some ==> p.power_limits.known()
                == c.power_limits_baseline
            &&& !(run.power && run.power_ok) ==> p.power_limits == o.power_limits
            &&& !(run.gpu && run.gpu_ok) ==> p.gpu_platform_policy == o.gpu_platform_policy
            &&& run.gpu && run.gpu_ok && c.gpu_policy_startup is Some ==> p.gpu_platform_policy is Verified
            &&& fans ==> d.fan_curve.last_target is None
            &&& fans && run.fan ==> d.safety.override_saved is None
            &&& !fans ==> d.safety == c.safety && d.fan_curve == c.fan_curve
            &&& d.scoped_session == c.scoped_session
            &&& d.gpu_policy_startup == c.gpu_policy_startup && d.power_limits_baseline == c.power_limits_baseline
        }),
{
    reveal(RestoreRun::settled);
}

/// A hand-back ends as applied exactly if nothing was owed or all of it was
/// settled; else it is partial, and a notice says so. One without debts leaves
/// no journal entry.
pub proof fn hand_backs_end_honestly(
    run: RestoreRun,
    c: ControlCoordinator,
    steps: Seq<StepOutcome>,
    saved: Result<(), ControlError>,
    feed: ThermalFeed,
    now: u64,
)
    requires
        run.stage == RestoreStage::Saving,
    ensures
        ({
            let turn = run.spec_resume(c, steps, Reply::Saved(saved), feed, now);
            let owed = run.fan || run.thermal || run.gpu || run.power;
            let all = (!run.fan || (run.fan_auto_ok && run.max_off_ok)) && run.thermal_ok && run.gpu_ok && run.power_ok
                && run.scope_ok;
            &&& turn.progress == Progress::Done(
                if owed && !all {
                    ControlStatus::Partial
                } else {
                    ControlStatus::Applied { verification: Verification::Skipped }
                },
            )
            &&& owed && !all ==> turn.coordinator.observed.control_notice == Some(ControlNotice::RestoreIncomplete)
            &&& !(owed && !all) && saved is Err ==> turn.coordinator.observed.control_notice == Some(
                ControlNotice::Error(saved->Err_0),
            )
            &&& !(owed && !all) && saved is Ok ==> turn.coordinator.observed == c.observed
            &&& turn.events.len() == (if owed { 1int } else { 0 })
            &&& owed ==> turn.events[0].steps == steps && turn.events[0].origin == run.origin
            &&& turn.coordinator == (ControlCoordinator { observed: turn.coordinator.observed, ..c })
        }),
{
    reveal(RestoreRun::after_save);
}

} // verus!
