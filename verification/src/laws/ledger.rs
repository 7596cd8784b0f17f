//! An earlier session's ledger, and the restore of a session.
use vstd::prelude::*;

use crate::control::coordinator::ControlCoordinator;
use crate::control::exchange::{Progress, Reply, Request};
use crate::control::exec::command::{
    adopted, exec_start, fan_turn, hand_back_turn, session_start, session_turn, ExecRun,
};
use crate::control::exec::fan::FanRun;
use crate::control::exec::restore::RestoreRun;
use crate::control::journal::JournalOrigin;
use crate::control::recovery::RecoveryRecord;
use crate::control::safety::ThermalFeed;
use crate::domain::command::{ControlCommand, ControlStatus, StepOutcome, Verification};
use crate::domain::error::{ControlError, UnsafeReason};

verus! {

/// An earlier ledger that is taken over becomes what this session owes, and is
/// no earlier one any more.
pub proof fn earlier_ledgers_are_taken_over(c: ControlCoordinator, r: RecoveryRecord)
    requires
        r.power matches Some(l) ==> l.cpu_gpu_concurrent_w == 0,
        r.board == c.board,
        r.bios == c.bios,
    ensures
        adopted(c, r).spec_record() == r,
        adopted(c, r).previous_recovery is None,
        adopted(c, r).spec_ledger() == r,
        adopted(c, r).observed == c.observed,
        adopted(c, r).desired == c.desired,
{
}

/// A restore of the session takes an earlier ledger over, unless it is another
/// device's: that one is refused and left alone.
pub proof fn restores_start_with_the_earlier_ledger(
    c: ControlCoordinator,
    scratch: Seq<StepOutcome>,
    feed: ThermalFeed,
    now: u64,
)
    ensures
        ({
            let turn = exec_start(c, ControlCommand::RestoreSession, scratch, feed, now);
            let r = c.previous_recovery->Some_0;
            let other = c.previous_recovery is Some && (r.board@ != c.board@ || r.bios@ != c.bios@);
            let from = if c.previous_recovery is Some { adopted(c, r) } else { c };
            let h = RestoreRun::spec_start(from, JournalOrigin::User, now);
            &&& other ==> turn.coordinator == c && turn.progress == Progress::Done(
                ControlStatus::Rejected {
                    error: ControlError::UnsafeRequest { reason: UnsafeReason::LedgerOfOtherDevice },
                },
            )
            &&& !other ==> turn.coordinator == h.coordinator && turn.progress == h.progress && turn.run
                == ExecRun::Session(h.run)
        }),
{
    reveal(session_start);
}

/// A restore that is over is applied only if nothing is owed any more and the
/// empty ledger has been saved.
pub proof fn restores_end_with_an_empty_ledger(
    run: RestoreRun,
    c: ControlCoordinator,
    scratch: Seq<StepOutcome>,
    reply: Reply,
    feed: ThermalFeed,
    now: u64,
    saved: Result<(), ControlError>,
)
    ensures
        ({
            let h = run.spec_resume(c, scratch, reply, feed, now);
            let turn = ExecRun::Session(run).spec_resume(c, scratch, reply, feed, now);
            let owed = h.coordinator.fan_control_dirty || h.coordinator.thermal_mode_dirty || (
            h.coordinator.gpu_policy_dirty && h.coordinator.gpu_policy_startup is Some) || (
            h.coordinator.power_limits_dirty && h.coordinator.power_limits_baseline is Some)
                || h.coordinator.scoped_session is Some;
            &&& turn.coordinator == h.coordinator
            &&& h.progress is Ask ==> turn.progress == h.progress && turn.run == ExecRun::Session(h.run)
            &&& !(h.progress is Ask) && owed ==> turn.progress == Progress::Done(ControlStatus::Partial)
            &&& !(h.progress is Ask) && !owed ==> turn.progress == Progress::Ask(
                Request::SaveLedger(h.coordinator.spec_ledger()),
            )
        }),
        ({
            let end = ExecRun::SessionSaving.spec_resume(c, scratch, Reply::Saved(saved), feed, now);
            &&& end.coordinator == c
            &&& end.progress == Progress::Done(
                if saved is Ok {
                    ControlStatus::Applied { verification: Verification::Verified }
                } else {
                    ControlStatus::Partial
                },
            )
        }),
{
    reveal(session_turn);
}

/// A fan command that has to hand back does so on the safety net's account,
/// and ends with its own status whatever the hand-back comes to.
pub proof fn hand_backs_keep_the_status(
    run: FanRun,
    restore: RestoreRun,
    status: ControlStatus,
    c: ControlCoordinator,
    scratch: Seq<StepOutcome>,
    reply: Reply,
    feed: ThermalFeed,
    now: u64,
)
    ensures
        ({
            let t = run.spec_resume(c, reply, feed, now);
            let turn = ExecRun::Fan(run).spec_resume(c, scratch, reply, feed, now);
            let h = RestoreRun::spec_start(t.coordinator, JournalOrigin::Safety, now);
            &&& t.progress is HandBack ==> turn.coordinator == h.coordinator && turn.run == ExecRun::HandBack(
                h.run,
                t.progress->HandBack_0,
            ) && turn.progress == h.progress && turn.steps == t.steps
            &&& !(t.progress is HandBack) ==> turn.coordinator == t.coordinator && turn.run == ExecRun::Fan(t.run)
                && turn.progress == t.progress && turn.steps == t.steps
        }),
        ({
            let h = restore.spec_resume(c, scratch, reply, feed, now);
            let turn = ExecRun::HandBack(restore, status).spec_resume(c, scratch, reply, feed, now);
            &&& turn.coordinator == h.coordinator
            &&& h.progress is Ask ==> turn.progress == h.progress && turn.run == ExecRun::HandBack(h.run, status)
            &&& !(h.progress is Ask) ==> turn.progress == Progress::Done(status) && turn.run is Ended
            &&& turn.steps.len() == 0
        }),
{
    reveal(fan_turn);
    reveal(hand_back_turn);
}

} // verus!
