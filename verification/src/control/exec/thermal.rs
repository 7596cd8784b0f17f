//! Thermal mode (0x1A): a trusted write, since no trustworthy readback exists.
use vstd::prelude::*;

use crate::control::coordinator::ControlCoordinator;
use crate::control::exchange::{saved_result, written_result, HpWrite, OpTurn, Progress, Reply, Request, Turn};
use crate::control::stamp::trusted;
use crate::domain::command::{
    failed_step, hp_accepted_step, hp_failed_step, ControlStatus, FirmwareReturn, Note, Step, StepOutcome, Verification,
};
use crate::domain::error::{definite_hp_rejection, map_hp_error, mapped_hp_error, ControlError, Missing};
use crate::domain::policy::ThermalMode;
use crate::domain::state::{ObservedState, ObservedValue};

verus! {

#[derive(Clone, Copy, Debug, PartialEq, Eq, Structural)]
pub enum ThermalStage {
    Saving,
    Writing,
    Ended,
}

/// A change of the thermal mode under way.
#[derive(Clone, Copy, Debug, PartialEq, Eq, Structural)]
pub struct ThermalRun {
    pub mode: ThermalMode,
    pub before: Option<ThermalMode>,
    pub previously_dirty: bool,
    pub stage: ThermalStage,
}

impl ThermalRun {
    /// The reply that the run waits for.
    pub open spec fn accepts(self, reply: Reply) -> bool {
        match self.stage {
            ThermalStage::Saving => reply is Saved,
            ThermalStage::Writing => reply is Written,
            ThermalStage::Ended => false,
        }
    }

    pub open spec fn spec_start(c: ControlCoordinator, mode: ThermalMode) -> OpTurn<ThermalRun> {
        let run = ThermalRun {
            mode,
            before: c.observed.thermal_mode.known(),
            previously_dirty: c.thermal_mode_dirty,
            stage: ThermalStage::Saving,
        };
        if !c.hp_present {
            Turn {
                run: ThermalRun { stage: ThermalStage::Ended, ..run },
                coordinator: c,
                steps: Seq::empty(),
                progress: Progress::Done(
                    ControlStatus::Rejected {
                        error: ControlError::BackendUnavailable { what: Missing::HpPlatform },
                    },
                ),
            }
        } else {
            let owing = ControlCoordinator { thermal_mode_dirty: true, ..c };
            Turn {
                run,
                coordinator: owing,
                steps: Seq::empty(),
                progress: Progress::Ask(Request::SaveLedger(owing.spec_ledger())),
            }
        }
    }

    /// Takes on the restore of the thermal mode and asks for the ledger to be
    /// saved.
    pub fn start(c: &mut ControlCoordinator, mode: ThermalMode) -> (r: (ThermalRun, Progress))
        ensures
            ({
                let turn = ThermalRun::spec_start(*old(c), mode);
                &&& r.0 == turn.run
                &&& r.1 == turn.progress
                &&& *final(c) == turn.coordinator
            }),
    {
        let run = ThermalRun {
            mode,
            before: c.observed.thermal_mode.get(),
            previously_dirty: c.thermal_mode_dirty,
            stage: ThermalStage::Saving,
        };
        if !c.hp_present {
            return (
                ThermalRun { stage: ThermalStage::Ended, ..run },
                Progress::Done(
                    ControlStatus::Rejected {
                        error: ControlError::BackendUnavailable { what: Missing::HpPlatform },
                    },
                ),
            );
        }
        c.thermal_mode_dirty = true;
        (run, Progress::Ask(Request::SaveLedger(c.ledger())))
    }

    pub open spec fn spec_resume(self, c: ControlCoordinator, reply: Reply, now: u64) -> OpTurn<ThermalRun> {
        let ended = ThermalRun { stage: ThermalStage::Ended, ..self };
        let before = Note::Thermal(self.before);
        let released = ControlCoordinator { thermal_mode_dirty: self.previously_dirty, ..c };
        match (self.stage, reply) {
            (ThermalStage::Saving, Reply::Saved(Err(error))) => Turn {
                run: ended,
                coordinator: released,
                steps: Seq::empty(),
                progress: Progress::Done(ControlStatus::Rejected { error }),
            },
            (ThermalStage::Saving, _) => Turn {
                run: ThermalRun { stage: ThermalStage::Writing, ..self },
                coordinator: c,
                steps: Seq::empty(),
                progress: Progress::Ask(Request::Write(HpWrite::Thermal(self.mode))),
            },
            (_, Reply::Written(Err(e))) => Turn {
                run: ended,
                coordinator: if e.spec_definite_rejection() { released } else { c },
                steps: seq![hp_failed_step(Step::SetThermalMode, e, before)],
                progress: Progress::Done(ControlStatus::Rejected { error: mapped_hp_error(e) }),
            },
            _ => Turn {
                run: ended,
                coordinator: ControlCoordinator {
                    thermal_mode_dirty: true,
                    observed: ObservedState { thermal_mode: trusted(self.mode, now), ..c.observed },
                    ..c
                },
                steps: seq![
                    hp_accepted_step(Step::SetThermalMode, before, Some(Note::ThermalTrusted(self.mode))),
                ],
                progress: Progress::Done(
                    ControlStatus::Applied { verification: Verification::TrustedNoReadback },
                ),
            },
        }
    }

    /// Goes on with what came back. A refused save gives the restore up
    /// again; so does a firmware that refused outright, but not a call that
    /// failed without an answer.
    pub fn resume(
        &mut self,
        c: &mut ControlCoordinator,
        steps: &mut Vec<StepOutcome>,
        reply: Reply,
        now: u64,
    ) -> (r: Progress)
        requires
            old(self).accepts(reply),
        ensures
            ({
                let turn = old(self).spec_resume(*old(c), reply, now);
                &&& *final(self) == turn.run
                &&& *final(c) == turn.coordinator
                &&& final(steps)@ == old(steps)@ + turn.steps
                &&& r == turn.progress
            }),
    {
        let ghost added = self.spec_resume(*c, reply, now).steps;
        let r = match self.stage {
            ThermalStage::Saving => match saved_result(reply) {
                Err(error) => {
                    self.stage = ThermalStage::Ended;
                    c.thermal_mode_dirty = self.previously_dirty;
                    Progress::Done(ControlStatus::Rejected { error })
                },
                Ok(()) => {
                    self.stage = ThermalStage::Writing;
                    Progress::Ask(Request::Write(HpWrite::Thermal(self.mode)))
                },
            },
            _ => {
                self.stage = ThermalStage::Ended;
                match written_result(reply) {
                    Ok(()) => {
                        c.observed.thermal_mode = ObservedValue::TrustedWrite { value: self.mode, at: now };
                        c.thermal_mode_dirty = true;
                        steps.push(
                            StepOutcome {
                                step: Step::SetThermalMode,
                                firmware_return: FirmwareReturn::Accepted,
                                before: Some(Note::Thermal(self.before)),
                                after: Some(Note::ThermalTrusted(self.mode)),
                                verification: Verification::TrustedNoReadback,
                            },
                        );
                        Progress::Done(ControlStatus::Applied { verification: Verification::TrustedNoReadback })
                    },
                    Err(e) => {
                        if definite_hp_rejection(&e) {
                            c.thermal_mode_dirty = self.previously_dirty;
                        }
                        steps.push(failed_step(Step::SetThermalMode, &e, Note::Thermal(self.before)));
                        Progress::Done(ControlStatus::Rejected { error: map_hp_error(&e) })
                    },
                }
            },
        };
        assert(steps@ =~= old(steps)@ + added);
        r
    }
}

} // verus!
