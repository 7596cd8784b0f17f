//! CPU power limits (0x29), verified through the processor's own registers.
//! The limits to restore are captured before the first write.
use vstd::prelude::*;

use crate::control::coordinator::ControlCoordinator;
use crate::control::exchange::{saved_result, written_result, HpWrite, OpTurn, Progress, Reply, Request, Turn};
use crate::control::safety::ThermalFeed;
use crate::control::stamp::trusted;
use crate::control::verification::PendingVerification;
use crate::domain::command::{
    failed_step, hp_failed_step, ControlStatus, FirmwareReturn, Note, Step, StepOutcome, Verification,
};
use crate::domain::error::{definite_hp_rejection, map_hp_error, mapped_hp_error, ControlError, Missing};
use crate::domain::evidence::{Pl4Sample, PowerSample, Target};
use crate::domain::policy::CpuPowerLimits;
use crate::domain::state::{ObservedState, ObservedValue};

verus! {

#[derive(Clone, Copy, Debug, PartialEq, Eq, Structural)]
pub enum PowerStage {
    Saving,
    Writing,
    Ended,
}

/// A change of the power limits under way.
#[derive(Clone, Copy, Debug, PartialEq, Eq, Structural)]
pub struct PowerRun {
    pub limits: CpuPowerLimits,
    /// The readings when the run started.
    pub power: Option<PowerSample>,
    pub pl4: Option<Pl4Sample>,
    pub previously_dirty: bool,
    pub written_at: u64,
    pub stage: PowerStage,
}

/// A power in whole watts, rounded to the nearest and capped at what a
/// register holds.
pub open spec fn watts(mw: u64) -> u8 {
    let w = (mw + 500) / 1000;
    if w > 255 { 255 } else { w as u8 }
}

/// A power in whole watts.
pub fn whole_watts(mw: u64) -> (r: u8)
    ensures
        r == watts(mw),
{
    if mw >= 255_500 {
        255
    } else {
        ((mw + 500) / 1000) as u8
    }
}

/// The limits that readings stand for; a peak limit that was not measured
/// is 0.
pub open spec fn measured(power: PowerSample, pl4: Option<Pl4Sample>) -> CpuPowerLimits {
    CpuPowerLimits {
        pl1_w: watts(power.pl1_mw),
        pl2_w: watts(power.pl2_mw),
        pl4_w: match pl4 {
            Some(s) => watts(s.pl4_mw),
            None => 0,
        },
        cpu_gpu_concurrent_w: 0,
    }
}

/// The limits that readings stand for.
pub fn measured_limits(power: &PowerSample, pl4: &Option<Pl4Sample>) -> (r: CpuPowerLimits)
    ensures
        r == measured(*power, *pl4),
{
    CpuPowerLimits {
        pl1_w: whole_watts(power.pl1_mw),
        pl2_w: whole_watts(power.pl2_mw),
        pl4_w: match pl4 {
            Some(s) => whole_watts(s.pl4_mw),
            None => 0,
        },
        cpu_gpu_concurrent_w: 0,
    }
}

impl PowerRun {
    /// The reply that the run waits for.
    pub open spec fn accepts(self, reply: Reply) -> bool {
        match self.stage {
            PowerStage::Saving => reply is Saved,
            PowerStage::Writing => reply is Written,
            PowerStage::Ended => false,
        }
    }

    pub open spec fn before(self) -> Note {
        Note::Power { power: self.power, pl4: self.pl4 }
    }

    pub open spec fn ending(self, c: ControlCoordinator, status: ControlStatus) -> OpTurn<PowerRun> {
        Turn {
            run: PowerRun { stage: PowerStage::Ended, ..self },
            coordinator: c,
            steps: Seq::empty(),
            progress: Progress::Done(status),
        }
    }

    pub open spec fn spec_start(c: ControlCoordinator, limits: CpuPowerLimits, feed: ThermalFeed) -> OpTurn<PowerRun> {
        let run = PowerRun {
            limits,
            power: feed.power_limits,
            pl4: feed.pl4,
            previously_dirty: c.power_limits_dirty,
            written_at: 0,
            stage: PowerStage::Saving,
        };
        if !c.hp_present {
            run.ending(
                c,
                ControlStatus::Rejected { error: ControlError::BackendUnavailable { what: Missing::HpPlatform } },
            )
        } else if c.power_limits_baseline is None && feed.power_limits is None {
            Turn {
                steps: seq![
                    StepOutcome {
                        step: Step::CapturePowerBaseline,
                        firmware_return: FirmwareReturn::Absent,
                        before: Some(run.before()),
                        after: Some(Note::FeedLost),
                        verification: Verification::Skipped,
                    },
                ],
                ..run.ending(
                    c,
                    ControlStatus::Rejected {
                        error: ControlError::BackendUnavailable { what: Missing::PowerReadbackFeed },
                    },
                )
            }
        } else {
            let owing = ControlCoordinator {
                power_limits_baseline: if c.power_limits_baseline is Some {
                    c.power_limits_baseline
                } else {
                    Some(measured(feed.power_limits->Some_0, feed.pl4))
                },
                power_limits_dirty: true,
                ..c
            };
            Turn {
                run,
                coordinator: owing,
                steps: Seq::empty(),
                progress: Progress::Ask(Request::SaveLedger(owing.spec_ledger())),
            }
        }
    }

    /// Captures what has to be restored and asks for the ledger to be saved.
    pub fn start(
        c: &mut ControlCoordinator,
        steps: &mut Vec<StepOutcome>,
        limits: CpuPowerLimits,
        feed: &ThermalFeed,
    ) -> (r: (PowerRun, Progress))
        ensures
            ({
                let turn = PowerRun::spec_start(*old(c), limits, *feed);
                &&& r.0 == turn.run
                &&& r.1 == turn.progress
                &&& *final(c) == turn.coordinator
                &&& final(steps)@ == old(steps)@ + turn.steps
            }),
    {
        let ghost added = PowerRun::spec_start(*c, limits, *feed).steps;
        let ghost start = steps@;
        let run = PowerRun {
            limits,
            power: feed.power_limits,
            pl4: feed.pl4,
            previously_dirty: c.power_limits_dirty,
            written_at: 0,
            stage: PowerStage::Saving,
        };
        let ended = PowerRun { stage: PowerStage::Ended, ..run };
        assert(steps@ =~= start + Seq::<StepOutcome>::empty());
        if !c.hp_present {
            return (
                ended,
                Progress::Done(
                    ControlStatus::Rejected {
                        error: ControlError::BackendUnavailable { what: Missing::HpPlatform },
                    },
                ),
            );
        }
        if c.power_limits_baseline.is_none() {
            match feed.power_limits {
                None => {
                    steps.push(
                        StepOutcome {
                            step: Step::CapturePowerBaseline,
                            firmware_return: FirmwareReturn::Absent,
                            before: Some(Note::Power { power: run.power, pl4: run.pl4 }),
                            after: Some(Note::FeedLost),
                            verification: Verification::Skipped,
                        },
                    );
                    assert(steps@ =~= start + added);
                    return (
                        ended,
                        Progress::Done(
                            ControlStatus::Rejected {
                                error: ControlError::BackendUnavailable { what: Missing::PowerReadbackFeed },
                            },
                        ),
                    );
                },
                Some(power) => {
                    c.power_limits_baseline = Some(measured_limits(&power, &feed.pl4));
                },
            }
        }
        c.power_limits_dirty = true;
        (run, Progress::Ask(Request::SaveLedger(c.ledger())))
    }

    pub open spec fn spec_resume(self, c: ControlCoordinator, reply: Reply, now: u64) -> OpTurn<PowerRun> {
        let released = ControlCoordinator { power_limits_dirty: self.previously_dirty, ..c };
        match (self.stage, reply) {
            (PowerStage::Saving, Reply::Saved(Err(error))) => self.ending(
                released,
                ControlStatus::Rejected { error },
            ),
            (PowerStage::Saving, _) => Turn {
                run: PowerRun { written_at: now, stage: PowerStage::Writing, ..self },
                coordinator: c,
                steps: Seq::empty(),
                progress: Progress::Ask(Request::Write(HpWrite::PowerLimits(self.limits))),
            },
            (_, Reply::Written(Err(e))) => Turn {
                steps: seq![hp_failed_step(Step::SetPowerLimits, e, self.before())],
                ..self.ending(
                    if e.spec_definite_rejection() { released } else { c },
                    ControlStatus::Rejected { error: mapped_hp_error(e) },
                )
            },
            _ => Turn {
                steps: seq![
                    StepOutcome {
                        step: if self.limits.pl4_w != 0 { Step::VerifyPowerLimitsPl4 } else { Step::VerifyPowerLimits },
                        firmware_return: FirmwareReturn::Absent,
                        before: Some(self.before()),
                        after: Some(Note::Pending),
                        verification: Verification::TrustedNoReadback,
                    },
                ],
                ..self.ending(
                    ControlCoordinator {
                        power_limits_dirty: true,
                        verification_requested: Some(
                            PendingVerification::spec_new(
                                Target::Power(self.limits),
                                self.written_at,
                                c.verify_polls,
                                c.verify_poll_interval,
                            ),
                        ),
                        observed: ObservedState { power_limits: trusted(self.limits, now), ..c.observed },
                        ..c
                    },
                    ControlStatus::Applied { verification: Verification::TrustedNoReadback },
                )
            },
        }
    }

    /// Goes on with what came back.
    pub fn resume(
        &mut self,
        c: &mut ControlCoordinator,
        steps: &mut Vec<StepOutcome>,
        reply: Reply,
        now: u64,
    ) -> (r: Progress)
        requires
            old(self).accepts(reply),
        ensures
            ({
                let turn = old(self).spec_resume(*old(c), reply, now);
                &&& *final(self) == turn.run
                &&& *final(c) == turn.coordinator
                &&& final(steps)@ == old(steps)@ + turn.steps
                &&& r == turn.progress
            }),
    {
        let ghost added = self.spec_resume(*c, reply, now).steps;
        let ghost start = steps@;
        let r = match self.stage {
            PowerStage::Saving => match saved_result(reply) {
                Err(error) => {
                    self.stage = PowerStage::Ended;
                    c.power_limits_dirty = self.previously_dirty;
                    Progress::Done(ControlStatus::Rejected { error })
                },
                Ok(()) => {
                    self.written_at = now;
                    self.stage = PowerStage::Writing;
                    Progress::Ask(Request::Write(HpWrite::PowerLimits(self.limits)))
                },
            },
            _ => {
                self.stage = PowerStage::Ended;
                let before = Note::Power { power: self.power, pl4: self.pl4 };
                match written_result(reply) {
                    Ok(()) => {
                        c.power_limits_dirty = true;
                        c.verification_requested = Some(
                            PendingVerification::new(
                                Target::Power(self.limits),
                                self.written_at,
                                c.verify_polls,
                                c.verify_poll_interval,
                            ),
                        );
                        c.observed.power_limits = ObservedValue::TrustedWrite { value: self.limits, at: now };
                        steps.push(
                            StepOutcome {
                                step: if self.limits.pl4_w != 0 {
                                    Step::VerifyPowerLimitsPl4
                                } else {
                                    Step::VerifyPowerLimits
                                },
                                firmware_return: FirmwareReturn::Absent,
                                before: Some(before),
                                after: Some(Note::Pending),
                                verification: Verification::TrustedNoReadback,
                            },
                        );
                        Progress::Done(ControlStatus::Applied { verification: Verification::TrustedNoReadback })
                    },
                    Err(e) => {
                        if definite_hp_rejection(&e) {
                            c.power_limits_dirty = self.previously_dirty;
                        }
                        steps.push(failed_step(Step::SetPowerLimits, &e, before));
                        Progress::Done(ControlStatus::Rejected { error: map_hp_error(&e) })
                    },
                }
            },
        };
        assert(steps@ =~= start + added);
        r
    }
}

/// No power limit is ever written without limits to restore.
pub proof fn power_write_has_a_baseline(c: ControlCoordinator, limits: CpuPowerLimits, feed: ThermalFeed)
    requires
        PowerRun::spec_start(c, limits, feed).progress is Ask,
    ensures
        ({
            let after = PowerRun::spec_start(c, limits, feed).coordinator;
            &&& after.power_limits_dirty
            &&& after.power_limits_baseline is Some
            &&& c.power_limits_baseline is Some ==> after.power_limits_baseline == c.power_limits_baseline
        }),
{
}

} // verus!
