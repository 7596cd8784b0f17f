//! One plan step: the operation that a command stands for, and the hand-back
//! that a failed one may end in.
use vstd::pervasive::unreached;
use vstd::prelude::*;

use super::cpu::{after_cpu, cpu_status, cpu_steps, exec_cpu_policy};
use super::fan::FanRun;
use super::gpu::{GpuChange, GpuRun};
use super::mux_switch::MuxRun;
use super::power::PowerRun;
use super::restore::RestoreRun;
use super::thermal::ThermalRun;
use crate::control::coordinator::ControlCoordinator;
use crate::control::exchange::{saved_result, CpuResults, Progress, Reply, Request};
use crate::control::journal::{event_views, EventView, JournalEvent, JournalOrigin};
use crate::control::recovery::RecoveryRecord;
use crate::control::safety::ThermalFeed;
use crate::domain::command::{ControlCommand, ControlStatus, StepOutcome, Verification};
use crate::domain::error::{ControlError, UnsafeReason};
use crate::domain::policy::{CpuPolicy, CpuPowerLimits};
use crate::text::same_text;

verus! {

/// A command under way.
#[derive(Debug, PartialEq)]
pub enum ExecRun {
    Thermal(ThermalRun),
    Fan(FanRun),
    Gpu(GpuRun),
    Power(PowerRun),
    Cpu(CpuPolicy),
    Mux(MuxRun),
    /// Handing the machine back before the command ends with the status.
    HandBack(RestoreRun, ControlStatus),
    /// Restoring the session that the user asked to restore.
    Session(RestoreRun),
    SessionSaving,
    Ended,
}

/// One turn of a command: where it stands, the writer's state, the evidence
/// it adds, the evidence of a hand-back so far, what is added to the journal,
/// and what it does next.
pub ghost struct CommandTurn<R, C, S, E, P> {
    pub run: R,
    pub coordinator: C,
    pub steps: S,
    pub scratch: S,
    pub events: E,
    pub progress: P,
}

/// A turn of a command.
pub type ExecTurn = CommandTurn<ExecRun, ControlCoordinator, Seq<StepOutcome>, Seq<EventView>, Progress>;

/// A turn without journal entries.
pub open spec fn turn_of(
    run: ExecRun,
    c: ControlCoordinator,
    steps: Seq<StepOutcome>,
    scratch: Seq<StepOutcome>,
    progress: Progress,
) -> ExecTurn {
    CommandTurn { run, coordinator: c, steps, scratch, events: Seq::empty(), progress }
}

/// The state that takes over what an earlier session owed.
pub open spec fn adopted(c: ControlCoordinator, record: RecoveryRecord) -> ControlCoordinator {
    ControlCoordinator {
        previous_recovery: None,
        scoped_session: record.scoped,
        fan_control_dirty: record.fan,
        thermal_mode_dirty: record.thermal,
        gpu_policy_dirty: record.gpu is Some,
        gpu_policy_startup: record.gpu,
        power_limits_dirty: record.power is Some,
        power_limits_baseline: match record.power {
            Some(l) => Some(CpuPowerLimits { cpu_gpu_concurrent_w: 0, ..l }),
            None => None,
        },
        ..c
    }
}

/// A record of another device.
pub open spec fn foreign(c: ControlCoordinator, record: RecoveryRecord) -> bool {
    record.board@ != c.board@ || record.bios@ != c.bios@
}

/// Starts a hand-back of what this session owes.
pub open spec fn session_restore(c: ControlCoordinator, now: u64) -> ExecTurn {
    let turn = RestoreRun::spec_start(c, JournalOrigin::User, now);
    turn_of(ExecRun::Session(turn.run), turn.coordinator, Seq::empty(), Seq::empty(), turn.progress)
}

/// Restores a session: what an earlier one left open on this device, else
/// what this one owes.
#[verifier::opaque]
pub open spec fn session_start(c: ControlCoordinator, scratch: Seq<StepOutcome>, now: u64) -> ExecTurn {
    match c.previous_recovery {
        Some(record) => if foreign(c, record) {
            turn_of(
                ExecRun::Ended,
                c,
                Seq::empty(),
                scratch,
                Progress::Done(
                    ControlStatus::Rejected {
                        error: ControlError::UnsafeRequest { reason: UnsafeReason::LedgerOfOtherDevice },
                    },
                ),
            )
        } else {
            session_restore(adopted(c, record), now)
        },
        None => session_restore(c, now),
    }
}

/// What a command starts with.
pub open spec fn exec_start(
    c: ControlCoordinator,
    cmd: ControlCommand,
    scratch: Seq<StepOutcome>,
    feed: ThermalFeed,
    now: u64,
) -> ExecTurn {
    match cmd {
        ControlCommand::RestoreSession => session_start(c, scratch, now),
        ControlCommand::SetThermalMode(mode) => {
            let t = ThermalRun::spec_start(c, mode);
            turn_of(ExecRun::Thermal(t.run), t.coordinator, t.steps, scratch, t.progress)
        },
        ControlCommand::SetFanMode(mode) => {
            let t = FanRun::spec_start(c, mode);
            turn_of(ExecRun::Fan(t.run), t.coordinator, t.steps, scratch, t.progress)
        },
        ControlCommand::SetCpuPolicy(policy) => turn_of(
            ExecRun::Cpu(policy),
            c,
            Seq::empty(),
            scratch,
            Progress::Ask(Request::ApplyCpu(policy)),
        ),
        ControlCommand::SetGpuPlatformPolicy(policy) => {
            let t = GpuRun::spec_start(c, GpuChange::Whole(policy));
            turn_of(ExecRun::Gpu(t.run), t.coordinator, t.steps, scratch, t.progress)
        },
        ControlCommand::SetGpuPlatformPolicyPatch(patch) => {
            let t = GpuRun::spec_start(c, GpuChange::Patch(patch));
            turn_of(ExecRun::Gpu(t.run), t.coordinator, t.steps, scratch, t.progress)
        },
        ControlCommand::SetPowerLimits(limits) => {
            let t = PowerRun::spec_start(c, limits, feed);
            turn_of(ExecRun::Power(t.run), t.coordinator, t.steps, scratch, t.progress)
        },
        ControlCommand::SetMuxMode(mode) => {
            let t = MuxRun::spec_start(c, mode);
            turn_of(ExecRun::Mux(t.run), t.coordinator, t.steps, scratch, t.progress)
        },
        _ => turn_of(
            ExecRun::Ended,
            c,
            Seq::empty(),
            scratch,
            Progress::Done(ControlStatus::Rejected { error: ControlError::Unsupported }),
        ),
    }
}

/// A fan command's turn; one that has to hand back starts the hand-back.
#[verifier::opaque]
pub open spec fn fan_turn(
    run: FanRun,
    c: ControlCoordinator,
    scratch: Seq<StepOutcome>,
    reply: Reply,
    feed: ThermalFeed,
    now: u64,
) -> ExecTurn {
    let t = run.spec_resume(c, reply, feed, now);
    match t.progress {
        Progress::HandBack(status) => {
            let h = RestoreRun::spec_start(t.coordinator, JournalOrigin::Safety, now);
            turn_of(ExecRun::HandBack(h.run, status), h.coordinator, t.steps, Seq::empty(), h.progress)
        },
        _ => turn_of(ExecRun::Fan(t.run), t.coordinator, t.steps, scratch, t.progress),
    }
}

/// A hand-back's turn; when it is over, the command ends with its status.
#[verifier::opaque]
pub open spec fn hand_back_turn(
    run: RestoreRun,
    status: ControlStatus,
    c: ControlCoordinator,
    scratch: Seq<StepOutcome>,
    reply: Reply,
    feed: ThermalFeed,
    now: u64,
) -> ExecTurn {
    let h = run.spec_resume(c, scratch, reply, feed, now);
    CommandTurn {
        run: if h.progress is Ask { ExecRun::HandBack(h.run, status) } else { ExecRun::Ended },
        coordinator: h.coordinator,
        steps: Seq::empty(),
        scratch: h.steps,
        events: h.events,
        progress: if h.progress is Ask { h.progress } else { Progress::Done(status) },
    }
}

/// A session restore's turn; when nothing is owed any more, the empty ledger
/// is saved.
#[verifier::opaque]
pub open spec fn session_turn(
    run: RestoreRun,
    c: ControlCoordinator,
    scratch: Seq<StepOutcome>,
    reply: Reply,
    feed: ThermalFeed,
    now: u64,
) -> ExecTurn {
    let h = run.spec_resume(c, scratch, reply, feed, now);
    let (next, progress) = if h.progress is Ask {
        (ExecRun::Session(h.run), h.progress)
    } else if h.coordinator.spec_record().spec_pending() {
        (ExecRun::Ended, Progress::Done(ControlStatus::Partial))
    } else {
        (ExecRun::SessionSaving, Progress::Ask(Request::SaveLedger(h.coordinator.spec_ledger())))
    };
    CommandTurn {
        run: next,
        coordinator: h.coordinator,
        steps: Seq::empty(),
        scratch: h.steps,
        events: h.events,
        progress,
    }
}

impl ExecRun {
    /// The reply that the run waits for.
    pub open spec fn accepts(self, c: ControlCoordinator, reply: Reply) -> bool {
        match self {
            ExecRun::Thermal(run) => run.accepts(reply),
            ExecRun::Fan(run) => run.accepts(reply),
            ExecRun::Gpu(run) => run.accepts(reply),
            ExecRun::Power(run) => run.accepts(reply),
            ExecRun::Cpu(policy) => reply matches Reply::Cpu(results) && results.covers(policy),
            ExecRun::Mux(run) => run.accepts(reply),
            ExecRun::HandBack(run, _) => run.accepts(c, reply),
            ExecRun::Session(run) => run.accepts(c, reply),
            ExecRun::SessionSaving => reply is Saved,
            ExecRun::Ended => false,
        }
    }

    /// The run's operation is well-formed.
    pub open spec fn wf(self, c: ControlCoordinator) -> bool {
        match self {
            ExecRun::Fan(run) => run.wf(),
            ExecRun::Mux(run) => run.wf(c),
            ExecRun::HandBack(run, _) => run.wf(c),
            ExecRun::Session(run) => run.wf(c),
            _ => true,
        }
    }

    pub open spec fn spec_resume(
        self,
        c: ControlCoordinator,
        scratch: Seq<StepOutcome>,
        reply: Reply,
        feed: ThermalFeed,
        now: u64,
    ) -> ExecTurn {
        match self {
            ExecRun::Thermal(run) => {
                let t = run.spec_resume(c, reply, now);
                turn_of(ExecRun::Thermal(t.run), t.coordinator, t.steps, scratch, t.progress)
            },
            ExecRun::Fan(run) => fan_turn(run, c, scratch, reply, feed, now),
            ExecRun::Gpu(run) => {
                let t = run.spec_resume(c, reply, now);
                turn_of(ExecRun::Gpu(t.run), t.coordinator, t.steps, scratch, t.progress)
            },
            ExecRun::Power(run) => {
                let t = run.spec_resume(c, reply, now);
                turn_of(ExecRun::Power(t.run), t.coordinator, t.steps, scratch, t.progress)
            },
            ExecRun::Cpu(policy) => turn_of(
                ExecRun::Ended,
                after_cpu(c, policy, reply->Cpu_0, now),
                cpu_steps(policy, reply->Cpu_0),
                scratch,
                Progress::Done(cpu_status(policy, reply->Cpu_0)),
            ),
            ExecRun::Mux(run) => {
                let t = run.spec_resume(c, reply);
                turn_of(ExecRun::Mux(t.run), t.coordinator, t.steps, scratch, t.progress)
            },
            ExecRun::HandBack(run, status) => hand_back_turn(run, status, c, scratch, reply, feed, now),
            ExecRun::Session(run) => session_turn(run, c, scratch, reply, feed, now),
            _ => turn_of(
                ExecRun::Ended,
                c,
                Seq::empty(),
                scratch,
                Progress::Done(
                    if reply->Saved_0 is Ok {
                        ControlStatus::Applied { verification: Verification::Verified }
                    } else {
                        ControlStatus::Partial
                    },
                ),
            ),
        }
    }
}

/// The parts of a command's turn agree with what happened.
pub open spec fn exec_follows(
    turn: ExecTurn,
    run: ExecRun,
    c: ControlCoordinator,
    steps_before: Seq<StepOutcome>,
    steps: Seq<StepOutcome>,
    scratch: Seq<StepOutcome>,
    logged_before: Seq<EventView>,
    logged: Seq<EventView>,
    progress: Progress,
) -> bool {
    &&& run == turn.run
    &&& c == turn.coordinator
    &&& steps == steps_before + turn.steps
    &&& scratch == turn.scratch
    &&& logged == logged_before + turn.events
    &&& progress == turn.progress
}

proof fn nothing_added<A>(s: Seq<A>)
    ensures
        s + Seq::<A>::empty() == s,
{
    assert(s + Seq::<A>::empty() =~= s);
}

fn record_is_foreign(c: &ControlCoordinator, record: &RecoveryRecord) -> (r: bool)
    ensures
        r == foreign(*c, *record),
{
    !same_text(record.board.as_str(), c.board.as_str()) || !same_text(record.bios.as_str(), c.bios.as_str())
}

fn adopt(c: &mut ControlCoordinator, record: RecoveryRecord)
    ensures
        *final(c) == adopted(*old(c), record),
{
    c.previous_recovery = None;
    c.fan_control_dirty = record.fan;
    c.thermal_mode_dirty = record.thermal;
    c.gpu_policy_dirty = record.gpu.is_some();
    c.gpu_policy_startup = record.gpu;
    c.power_limits_dirty = record.power.is_some();
    c.power_limits_baseline = match record.power {
        Some(l) => Some(CpuPowerLimits { cpu_gpu_concurrent_w: 0, ..l }),
        None => None,
    };
    c.scoped_session = record.scoped;
}

fn start_session(c: &mut ControlCoordinator, scratch: &mut Vec<StepOutcome>, now: u64) -> (r: (ExecRun, Progress))
    ensures
        ({
            let turn = session_start(*old(c), old(scratch)@, now);
            &&& r.0 == turn.run
            &&& *final(c) == turn.coordinator
            &&& turn.steps.len() == 0
            &&& final(scratch)@ == turn.scratch
            &&& turn.events.len() == 0
            &&& r.1 == turn.progress
        }),
        r.0.wf(*final(c)),
{
    proof {
        reveal(session_start);
    }
    let earlier = match &c.previous_recovery {
        Some(record) => {
            if record_is_foreign(c, record) {
                return (
                    ExecRun::Ended,
                    Progress::Done(
                        ControlStatus::Rejected {
                            error: ControlError::UnsafeRequest { reason: UnsafeReason::LedgerOfOtherDevice },
                        },
                    ),
                );
            }
            Some(record.clone())
        },
        None => None,
    };
    if let Some(record) = earlier {
        adopt(c, record);
    }
    let (run, progress) = RestoreRun::start(c, JournalOrigin::User, now);
    scratch.clear();
    assert(scratch@ =~= Seq::<StepOutcome>::empty());
    (ExecRun::Session(run), progress)
}

fn cpu_results(reply: Reply) -> (r: CpuResults)
    requires
        reply is Cpu,
    ensures
        reply == Reply::Cpu(r),
{
    match reply {
        Reply::Cpu(r) => r,
        _ => unreached(),
    }
}

/// Starts the operation that a command stands for.
pub fn exec_one(
    c: &mut ControlCoordinator,
    cmd: &ControlCommand,
    steps: &mut Vec<StepOutcome>,
    scratch: &mut Vec<StepOutcome>,
    feed: &ThermalFeed,
    now: u64,
) -> (r: (ExecRun, Progress))
    ensures
        ({
            let turn = exec_start(*old(c), *cmd, old(scratch)@, *feed, now);
            &&& r.0 == turn.run
            &&& *final(c) == turn.coordinator
            &&& final(steps)@ == old(steps)@ + turn.steps
            &&& final(scratch)@ == turn.scratch
            &&& turn.events.len() == 0
            &&& r.1 == turn.progress
        }),
        r.0.wf(*final(c)),
{
    proof {
        nothing_added(steps@);
    }
    match cmd {
        ControlCommand::RestoreSession => {
            let r = start_session(c, scratch, now);
            assert(steps@ =~= old(steps)@ + session_start(*old(c), old(scratch)@, now).steps);
            r
        },
        ControlCommand::SetThermalMode(mode) => {
            let (run, progress) = ThermalRun::start(c, *mode);
            (ExecRun::Thermal(run), progress)
        },
        ControlCommand::SetFanMode(mode) => {
            let (run, progress) = FanRun::start(c, *mode);
            (ExecRun::Fan(run), progress)
        },
        ControlCommand::SetCpuPolicy(policy) => (
            ExecRun::Cpu(*policy),
            Progress::Ask(Request::ApplyCpu(*policy)),
        ),
        ControlCommand::SetGpuPlatformPolicy(policy) => {
            let (run, progress) = GpuRun::start(c, GpuChange::Whole(*policy));
            (ExecRun::Gpu(run), progress)
        },
        ControlCommand::SetGpuPlatformPolicyPatch(patch) => {
            let (run, progress) = GpuRun::start(c, GpuChange::Patch(*patch));
            (ExecRun::Gpu(run), progress)
        },
        ControlCommand::SetPowerLimits(limits) => {
            let (run, progress) = PowerRun::start(c, steps, *limits, feed);
            (ExecRun::Power(run), progress)
        },
        ControlCommand::SetMuxMode(mode) => {
            let (run, progress) = MuxRun::start(c, *mode);
            (ExecRun::Mux(run), progress)
        },
        _ => (ExecRun::Ended, Progress::Done(ControlStatus::Rejected { error: ControlError::Unsupported })),
    }
}

fn resume_fan(
    run: FanRun,
    c: &mut ControlCoordinator,
    steps: &mut Vec<StepOutcome>,
    scratch: &mut Vec<StepOutcome>,
    reply: Reply,
    feed: &ThermalFeed,
    now: u64,
) -> (r: (ExecRun, Progress))
    requires
        run.accepts(reply),
        run.wf(),
    ensures
        ({
            let turn = fan_turn(run, *old(c), old(scratch)@, reply, *feed, now);
            &&& r.0 == turn.run
            &&& *final(c) == turn.coordinator
            &&& final(steps)@ == old(steps)@ + turn.steps
            &&& final(scratch)@ == turn.scratch
            &&& turn.events.len() == 0
            &&& r.1 == turn.progress
        }),
        r.0.wf(*final(c)),
{
    proof {
        reveal(fan_turn);
    }
    let mut run = run;
    match run.resume(c, steps, reply, feed, now) {
        Progress::HandBack(status) => {
            let (restore, progress) = RestoreRun::start(c, JournalOrigin::Safety, now);
            scratch.clear();
            assert(scratch@ =~= Seq::<StepOutcome>::empty());
            (ExecRun::HandBack(restore, status), progress)
        },
        progress => (ExecRun::Fan(run), progress),
    }
}

fn resume_hand_back(
    run: RestoreRun,
    status: ControlStatus,
    c: &mut ControlCoordinator,
    scratch: &mut Vec<StepOutcome>,
    out: &mut Vec<JournalEvent>,
    reply: Reply,
    feed: &ThermalFeed,
    now: u64,
) -> (r: (ExecRun, Progress))
    requires
        run.wf(*old(c)),
        run.accepts(*old(c), reply),
    ensures
        ({
            let turn = hand_back_turn(run, status, *old(c), old(scratch)@, reply, *feed, now);
            &&& r.0 == turn.run
            &&& *final(c) == turn.coordinator
            &&& turn.steps.len() == 0
            &&& final(scratch)@ == turn.scratch
            &&& event_views(final(out)@) == event_views(old(out)@) + turn.events
            &&& r.1 == turn.progress
        }),
        r.0.wf(*final(c)),
{
    proof {
        reveal(hand_back_turn);
    }
    let (run, progress) = run.resume(c, scratch, out, reply, feed, now);
    match progress {
        Progress::Ask(request) => (ExecRun::HandBack(run, status), Progress::Ask(request)),
        _ => (ExecRun::Ended, Progress::Done(status)),
    }
}

fn resume_session(
    run: RestoreRun,
    c: &mut ControlCoordinator,
    scratch: &mut Vec<StepOutcome>,
    out: &mut Vec<JournalEvent>,
    reply: Reply,
    feed: &ThermalFeed,
    now: u64,
) -> (r: (ExecRun, Progress))
    requires
        run.wf(*old(c)),
        run.accepts(*old(c), reply),
    ensures
        ({
            let turn = session_turn(run, *old(c), old(scratch)@, reply, *feed, now);
            &&& r.0 == turn.run
            &&& *final(c) == turn.coordinator
            &&& turn.steps.len() == 0
            &&& final(scratch)@ == turn.scratch
            &&& event_views(final(out)@) == event_views(old(out)@) + turn.events
            &&& r.1 == turn.progress
        }),
        r.0.wf(*final(c)),
{
    proof {
        reveal(session_turn);
    }
    let (run, progress) = run.resume(c, scratch, out, reply, feed, now);
    match progress {
        Progress::Ask(request) => (ExecRun::Session(run), Progress::Ask(request)),
        _ => {
            if c.recovery_record().pending() {
                (ExecRun::Ended, Progress::Done(ControlStatus::Partial))
            } else {
                (ExecRun::SessionSaving, Progress::Ask(Request::SaveLedger(c.ledger())))
            }
        },
    }
}

impl ExecRun {
    /// Goes on with what came back.
    pub fn resume(
        self,
        c: &mut ControlCoordinator,
        steps: &mut Vec<StepOutcome>,
        scratch: &mut Vec<StepOutcome>,
        out: &mut Vec<JournalEvent>,
        reply: Reply,
        feed: &ThermalFeed,
        now: u64,
    ) -> (r: (ExecRun, Progress))
        requires
            self.wf(*old(c)),
            self.accepts(*old(c), reply),
        ensures
            exec_follows(
                self.spec_resume(*old(c), old(scratch)@, reply, *feed, now),
                r.0,
                *final(c),
                old(steps)@,
                final(steps)@,
                final(scratch)@,
                event_views(old(out)@),
                event_views(final(out)@),
                r.1,
            ),
            r.0.wf(*final(c)),
    {
        let ghost logged = event_views(out@);
        let ghost turn = self.spec_resume(*c, scratch@, reply, *feed, now);
        proof {
            nothing_added(steps@);
            nothing_added(logged);
        }
        match self {
            ExecRun::Thermal(run) => {
                let mut run = run;
                let progress = run.resume(c, steps, reply, now);
                (ExecRun::Thermal(run), progress)
            },
            ExecRun::Fan(run) => {
                let r = resume_fan(run, c, steps, scratch, reply, feed, now);
                assert(turn.events =~= Seq::<EventView>::empty());
                r
            },
            ExecRun::Gpu(run) => {
                let mut run = run;
                let progress = run.resume(c, steps, reply, now);
                (ExecRun::Gpu(run), progress)
            },
            ExecRun::Power(run) => {
                let mut run = run;
                let progress = run.resume(c, steps, reply, now);
                (ExecRun::Power(run), progress)
            },
            ExecRun::Cpu(policy) => {
                let status = exec_cpu_policy(c, &policy, cpu_results(reply), steps, now);
                (ExecRun::Ended, Progress::Done(status))
            },
            ExecRun::Mux(run) => {
                let (run, progress) = run.resume(c, steps, reply);
                (ExecRun::Mux(run), progress)
            },
            ExecRun::HandBack(run, status) => {
                let r = resume_hand_back(run, status, c, scratch, out, reply, feed, now);
                assert(turn.steps =~= Seq::<StepOutcome>::empty());
                r
            },
            ExecRun::Session(run) => {
                let r = resume_session(run, c, scratch, out, reply, feed, now);
                assert(turn.steps =~= Seq::<StepOutcome>::empty());
                r
            },
            _ => {
                let status = match saved_result(reply) {
                    Ok(()) => ControlStatus::Applied { verification: Verification::Verified },
                    Err(_) => ControlStatus::Partial,
                };
                (ExecRun::Ended, Progress::Done(status))
            },
        }
    }
}

} // verus!
