//! Graphics multiplexer (0x52): the request is recorded before it is made,
//! because the firmware may carry it out after its caller has given up.
use vstd::pervasive::unreached;
use vstd::prelude::*;

use crate::control::coordinator::ControlCoordinator;
use crate::control::exchange::{saved_result, written_result, HpWrite, OpTurn, Progress, Reply, Request, Turn};
use crate::control::mux::MuxRecord;
use crate::domain::command::{ControlStatus, FirmwareReturn, Note, Step, StepOutcome, Verification};
use crate::domain::error::{map_hp_error, mapped_hp_error, ControlError, HpWmiError};
use crate::domain::policy::MuxMode;
use crate::domain::state::ObservedState;

verus! {

/// Where a change of the multiplexer stands.
#[derive(Debug, PartialEq)]
pub enum MuxRun {
    Reading(MuxMode),
    /// Saving the record that the request will be remembered by.
    Saving(MuxMode, MuxRecord),
    Writing,
    Ended,
}

fn read_mux(reply: Reply) -> (r: Result<MuxMode, HpWmiError>)
    requires
        reply is Mux,
    ensures
        reply == Reply::Mux(r),
{
    match reply {
        Reply::Mux(r) => r,
        _ => unreached(),
    }
}

impl MuxRun {
    /// The reply that the run waits for.
    pub open spec fn accepts(self, reply: Reply) -> bool {
        match self {
            MuxRun::Reading(_) => reply is Mux,
            MuxRun::Saving(_, _) => reply is Saved,
            MuxRun::Writing => reply is Written,
            MuxRun::Ended => false,
        }
    }

    /// A record that waits to be saved belongs to the lifecycle.
    pub open spec fn wf(self, c: ControlCoordinator) -> bool {
        self matches MuxRun::Saving(_, record) ==> {
            &&& record.pending is Some
            &&& record.verified_hybrid == c.mux_lifecycle.record.verified_hybrid
            &&& record.verified_discrete == c.mux_lifecycle.record.verified_discrete
        }
    }

    pub open spec fn ending(c: ControlCoordinator, status: ControlStatus) -> OpTurn<MuxRun> {
        Turn { run: MuxRun::Ended, coordinator: c, steps: Seq::empty(), progress: Progress::Done(status) }
    }

    pub open spec fn spec_start(c: ControlCoordinator, target: MuxMode) -> OpTurn<MuxRun> {
        if c.hp_present {
            Turn {
                run: MuxRun::Reading(target),
                coordinator: c,
                steps: Seq::empty(),
                progress: Progress::Ask(Request::ReadMux),
            }
        } else {
            MuxRun::ending(c, ControlStatus::Rejected { error: ControlError::Unsupported })
        }
    }

    /// Asks for the current selection.
    pub fn start(c: &ControlCoordinator, target: MuxMode) -> (r: (MuxRun, Progress))
        ensures
            ({
                let turn = MuxRun::spec_start(*c, target);
                r.0 == turn.run && r.1 == turn.progress && *c == turn.coordinator
            }),
            r.0.wf(*c),
    {
        if c.hp_present {
            (MuxRun::Reading(target), Progress::Ask(Request::ReadMux))
        } else {
            (MuxRun::Ended, Progress::Done(ControlStatus::Rejected { error: ControlError::Unsupported }))
        }
    }

    /// The selection is read, the request prepared and its record saved, and
    /// only then is the firmware asked. The record stays whatever the
    /// firmware answers.
    pub open spec fn spec_resume(self, c: ControlCoordinator, reply: Reply) -> OpTurn<MuxRun> {
        match (self, reply) {
            (MuxRun::Reading(_), Reply::Mux(Err(e))) => MuxRun::ending(
                c,
                ControlStatus::Rejected { error: mapped_hp_error(e) },
            ),
            (MuxRun::Reading(target), Reply::Mux(Ok(current))) => match c.mux_lifecycle.prepare_refusal(
                current,
                target,
            ) {
                Some(error) => MuxRun::ending(c, ControlStatus::Rejected { error }),
                None => {
                    let record = c.mux_lifecycle.spec_requested(current, target);
                    Turn {
                        run: MuxRun::Saving(target, record),
                        coordinator: c,
                        steps: Seq::empty(),
                        progress: Progress::Ask(Request::SaveMux(record)),
                    }
                },
            },
            (MuxRun::Saving(_, _), Reply::Saved(Err(error))) => MuxRun::ending(c, ControlStatus::Rejected { error }),
            (MuxRun::Saving(target, record), _) => Turn {
                run: MuxRun::Writing,
                coordinator: ControlCoordinator { mux_lifecycle: c.mux_lifecycle.spec_recorded(record), ..c },
                steps: Seq::empty(),
                progress: Progress::Ask(Request::Write(HpWrite::Mux(target))),
            },
            _ => Turn {
                steps: seq![
                    StepOutcome {
                        step: Step::RequestMuxReboot,
                        firmware_return: match reply->Written_0 {
                            Ok(_) => FirmwareReturn::Accepted,
                            Err(e) => FirmwareReturn::Hp(e),
                        },
                        before: Some(Note::Mux(c.observed.mux.known())),
                        after: Some(Note::MuxStatus(c.mux_lifecycle.status)),
                        verification: Verification::Skipped,
                    },
                ],
                ..MuxRun::ending(
                    ControlCoordinator {
                        observed: ObservedState { mux_status: Some(c.mux_lifecycle.status), ..c.observed },
                        ..c
                    },
                    match reply->Written_0 {
                        Ok(_) => ControlStatus::Applied { verification: Verification::Skipped },
                        Err(e) => ControlStatus::Rejected { error: mapped_hp_error(e) },
                    },
                )
            },
        }
    }

    /// Goes on with what came back.
    pub fn resume(self, c: &mut ControlCoordinator, steps: &mut Vec<StepOutcome>, reply: Reply) -> (r: (
        MuxRun,
        Progress,
    ))
        requires
            self.accepts(reply),
            self.wf(*old(c)),
        ensures
            ({
                let turn = self.spec_resume(*old(c), reply);
                &&& r.0 == turn.run
                &&& *final(c) == turn.coordinator
                &&& final(steps)@ == old(steps)@ + turn.steps
                &&& r.1 == turn.progress
            }),
            r.0.wf(*final(c)),
    {
        let ghost added = self.spec_resume(*c, reply).steps;
        let ghost start = steps@;
        let r = match self {
            MuxRun::Reading(target) => match read_mux(reply) {
                Err(e) => (MuxRun::Ended, Progress::Done(ControlStatus::Rejected { error: map_hp_error(&e) })),
                Ok(current) => match c.mux_lifecycle.prepare(current, target) {
                    Err(error) => (MuxRun::Ended, Progress::Done(ControlStatus::Rejected { error })),
                    Ok(record) => (MuxRun::Saving(target, record.clone()), Progress::Ask(Request::SaveMux(record))),
                },
            },
            MuxRun::Saving(target, record) => match saved_result(reply) {
                Err(error) => (MuxRun::Ended, Progress::Done(ControlStatus::Rejected { error })),
                Ok(()) => {
                    c.mux_lifecycle.commit(record);
                    (MuxRun::Writing, Progress::Ask(Request::Write(HpWrite::Mux(target))))
                },
            },
            _ => {
                let result = written_result(reply);
                c.observed.mux_status = Some(c.mux_lifecycle.status.clone());
                steps.push(
                    StepOutcome {
                        step: Step::RequestMuxReboot,
                        firmware_return: match &result {
                            Ok(()) => FirmwareReturn::Accepted,
                            Err(e) => FirmwareReturn::Hp(e.clone()),
                        },
                        before: Some(Note::Mux(c.observed.mux.get())),
                        after: Some(Note::MuxStatus(c.mux_lifecycle.status.clone())),
                        verification: Verification::Skipped,
                    },
                );
                match result {
                    Ok(()) => (
                        MuxRun::Ended,
                        Progress::Done(ControlStatus::Applied { verification: Verification::Skipped }),
                    ),
                    Err(e) => (MuxRun::Ended, Progress::Done(ControlStatus::Rejected { error: map_hp_error(&e) })),
                }
            },
        };
        assert(steps@ =~= start + added);
        r
    }
}

} // verus!
