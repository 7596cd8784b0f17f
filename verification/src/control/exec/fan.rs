//! Fan mode: the level registers (0x2E) and the max-fan overlay (0x27).
//!
//! The overlay is always released before the levels below it change hands;
//! the other order makes the fans stop and ramp up again. Max fan itself
//! leaves the levels alone.
use vstd::prelude::*;

use crate::control::coordinator::ControlCoordinator;
use crate::control::exchange::{saved_result, written_result, HpWrite, OpTurn, Progress, Reply, Request, Turn};
use crate::control::fan_curve::{controlling_temp, effective_temperature, FanCurveController};
use crate::control::safety::ThermalFeed;
use crate::control::stamp::trusted;
use crate::control::verification::PendingVerification;
use crate::domain::command::{
    hp_written_step, written_step, ControlStatus, FirmwareReturn, Note, Step, StepOutcome, Verification,
};
use crate::domain::error::{ControlError, FirmwareDetail, Missing, UnsafeReason};
use crate::domain::evidence::Target;
use crate::domain::policy::{FanCurve, FanLevels, FanMode};
use crate::domain::state::{ObservedState, ObservedValue};

verus! {

#[derive(Clone, Copy, Debug, PartialEq, Eq, Structural)]
pub enum FanStage {
    Saving,
    /// Releasing the overlay on the way to firmware control.
    AutoRelease,
    /// Handing the levels to firmware.
    AutoHandOver,
    MaxOn,
    ManualRelease,
    ManualWrite,
    CurveRelease,
    CurveWrite,
    Ended,
}

/// A change of the fan mode under way.
#[derive(Clone, Copy, Debug, PartialEq, Eq, Structural)]
pub struct FanRun {
    pub mode: FanMode,
    /// The fan mode and the overlay as they were known at the start.
    pub before_mode: Option<FanMode>,
    pub before_max: Option<bool>,
    pub previously_dirty: bool,
    /// Of a curve: the temperature it starts at, in millidegrees, the levels
    /// it asks for there, and the moment.
    pub temp: i64,
    pub target: FanLevels,
    pub at: u64,
    pub stage: FanStage,
}

/// The state with the overlay written on trust.
pub open spec fn max_fan_written(c: ControlCoordinator, on: bool, now: u64) -> ControlCoordinator {
    ControlCoordinator { observed: ObservedState { max_fan: trusted(on, now), ..c.observed }, ..c }
}

/// The state with fan mode and overlay written on trust.
pub open spec fn fan_written(c: ControlCoordinator, mode: FanMode, max: bool, now: u64) -> ControlCoordinator {
    ControlCoordinator {
        observed: ObservedState { fan_mode: trusted(mode, now), max_fan: trusted(max, now), ..c.observed },
        ..c
    }
}

/// The curve that a mode runs.
pub open spec fn mode_curve(mode: FanMode) -> FanCurve {
    match mode {
        FanMode::Curve(curve) => curve,
        _ => arbitrary(),
    }
}

impl FanRun {
    /// The reply that the run waits for.
    pub open spec fn accepts(self, reply: Reply) -> bool {
        match self.stage {
            FanStage::Saving => reply is Saved,
            FanStage::Ended => false,
            _ => reply is Written,
        }
    }

    /// The run's mode fits its stage.
    pub open spec fn wf(self) -> bool {
        match self.stage {
            FanStage::ManualRelease | FanStage::ManualWrite => self.mode is Manual,
            FanStage::CurveRelease | FanStage::CurveWrite => self.mode is Curve,
            _ => true,
        }
    }

    pub open spec fn ended(self) -> FanRun {
        FanRun { stage: FanStage::Ended, ..self }
    }

    /// The fans as the run found them.
    pub open spec fn before(self) -> Note {
        Note::Fan { mode: self.before_mode, max_fan: self.before_max }
    }

    /// The run asks for one write and goes to `stage`.
    pub open spec fn asking(self, c: ControlCoordinator, write: HpWrite, stage: FanStage) -> OpTurn<FanRun> {
        Turn {
            run: FanRun { stage, ..self },
            coordinator: c,
            steps: Seq::empty(),
            progress: Progress::Ask(Request::Write(write)),
        }
    }

    /// The run ends.
    pub open spec fn ending(self, c: ControlCoordinator, status: ControlStatus) -> OpTurn<FanRun> {
        Turn { run: self.ended(), coordinator: c, steps: Seq::empty(), progress: Progress::Done(status) }
    }

    pub open spec fn spec_start(c: ControlCoordinator, mode: FanMode) -> OpTurn<FanRun> {
        let run = FanRun {
            mode,
            before_mode: c.observed.fan_mode.known(),
            before_max: c.observed.max_fan.known(),
            previously_dirty: c.fan_control_dirty,
            temp: 0,
            target: FanLevels::spec_auto(),
            at: 0,
            stage: FanStage::Saving,
        };
        if !c.hp_present {
            run.ending(
                c,
                ControlStatus::Rejected { error: ControlError::BackendUnavailable { what: Missing::HpPlatform } },
            )
        } else {
            let owing = ControlCoordinator { fan_control_dirty: true, ..c };
            Turn {
                run,
                coordinator: owing,
                steps: Seq::empty(),
                progress: Progress::Ask(Request::SaveLedger(owing.spec_ledger())),
            }
        }
    }

    /// Takes on the restore of the fans and asks for the ledger to be saved.
    pub fn start(c: &mut ControlCoordinator, mode: FanMode) -> (r: (FanRun, Progress))
        ensures
            ({
                let turn = FanRun::spec_start(*old(c), mode);
                &&& r.0 == turn.run
                &&& r.1 == turn.progress
                &&& *final(c) == turn.coordinator
            }),
            r.0.wf(),
    {
        let run = FanRun {
            mode,
            before_mode: c.observed.fan_mode.get(),
            before_max: c.observed.max_fan.get(),
            previously_dirty: c.fan_control_dirty,
            temp: 0,
            target: FanLevels::auto(),
            at: 0,
            stage: FanStage::Saving,
        };
        if !c.hp_present {
            return (
                FanRun { stage: FanStage::Ended, ..run },
                Progress::Done(
                    ControlStatus::Rejected {
                        error: ControlError::BackendUnavailable { what: Missing::HpPlatform },
                    },
                ),
            );
        }
        c.fan_control_dirty = true;
        (run, Progress::Ask(Request::SaveLedger(c.ledger())))
    }

    /// Firmware holds the fans again: nothing is owed, no curve runs, and an
    /// override is over.
    pub open spec fn auto_done(self, c: ControlCoordinator, now: u64) -> OpTurn<FanRun> {
        self.ending(
            ControlCoordinator {
                observed: ObservedState {
                    fan_mode: trusted(FanMode::FirmwareAuto, now),
                    max_fan: if self.before_max != Some(false) { trusted(false, now) } else { c.observed.max_fan },
                    ..c.observed
                },
                fan_curve: FanCurveController::spec_new(),
                fan_control_dirty: false,
                safety: c.safety.spec_noted(FanMode::FirmwareAuto),
                ..c
            },
            ControlStatus::Applied { verification: Verification::Skipped },
        )
    }

    /// With the overlay off, the levels go to firmware, unless they are there.
    pub open spec fn hand_over(self, c: ControlCoordinator, now: u64) -> OpTurn<FanRun> {
        if self.before_mode != Some(FanMode::FirmwareAuto) {
            self.asking(c, HpWrite::FanLevels(FanLevels::spec_auto()), FanStage::AutoHandOver)
        } else {
            self.auto_done(c, now)
        }
    }

    /// The first write of a mode, once the ledger is saved.
    pub open spec fn first_write(self, c: ControlCoordinator, feed: ThermalFeed, now: u64) -> OpTurn<FanRun> {
        match self.mode {
            FanMode::FirmwareAuto => if self.before_max != Some(false) {
                self.asking(c, HpWrite::MaxFan(false), FanStage::AutoRelease)
            } else {
                self.hand_over(c, now)
            },
            FanMode::Max => self.asking(c, HpWrite::MaxFan(true), FanStage::MaxOn),
            FanMode::Manual(levels) => if self.before_max == Some(true) {
                self.asking(c, HpWrite::MaxFan(false), FanStage::ManualRelease)
            } else {
                self.asking(c, HpWrite::FanLevels(levels), FanStage::ManualWrite)
            },
            FanMode::Curve(curve) => match controlling_temp(feed.pkg_temp, feed.gpu_temp, now) {
                None => self.ending(
                    c,
                    ControlStatus::Rejected {
                        error: ControlError::UnsafeRequest { reason: UnsafeReason::NoFreshCurveTemperature },
                    },
                ),
                Some(temp) => {
                    let levels = curve.spec_target(temp as int);
                    let target = FanLevels { left: levels.0 as u16, right: levels.1 as u16 };
                    let run = FanRun { temp, target, at: now, ..self };
                    if self.before_max == Some(true) {
                        run.asking(c, HpWrite::MaxFan(false), FanStage::CurveRelease)
                    } else {
                        run.asking(c, HpWrite::FanLevels(target), FanStage::CurveWrite)
                    }
                },
            },
        }
    }

    /// What follows a write that was accepted.
    pub open spec fn accepted(self, c: ControlCoordinator, now: u64) -> OpTurn<FanRun> {
        match self.stage {
            FanStage::AutoRelease => self.hand_over(max_fan_written(c, false, now), now),
            FanStage::AutoHandOver => self.auto_done(c, now),
            FanStage::MaxOn => self.ending(
                ControlCoordinator {
                    fan_control_dirty: true,
                    fan_curve: FanCurveController::spec_new(),
                    safety: c.safety.spec_noted(FanMode::Max),
                    ..fan_written(c, FanMode::Max, true, now)
                },
                ControlStatus::Applied { verification: Verification::TrustedNoReadback },
            ),
            FanStage::ManualRelease => self.asking(
                ControlCoordinator { fan_control_dirty: true, ..max_fan_written(c, false, now) },
                HpWrite::FanLevels(self.mode->Manual_0),
                FanStage::ManualWrite,
            ),
            FanStage::ManualWrite => Turn {
                steps: seq![
                    StepOutcome {
                        step: Step::VerifyFanLevels,
                        firmware_return: FirmwareReturn::Absent,
                        before: Some(self.before()),
                        after: Some(Note::FanPending),
                        verification: Verification::TrustedNoReadback,
                    },
                ],
                ..self.ending(
                    ControlCoordinator {
                        fan_control_dirty: true,
                        verification_requested: Some(
                            PendingVerification::spec_new(
                                Target::Fan(self.mode->Manual_0),
                                now,
                                c.verify_polls,
                                c.verify_poll_interval,
                            ),
                        ),
                        fan_curve: FanCurveController::spec_new(),
                        safety: c.safety.spec_noted(self.mode),
                        ..fan_written(c, self.mode, false, now)
                    },
                    ControlStatus::Applied { verification: Verification::TrustedNoReadback },
                )
            },
            FanStage::CurveRelease => self.asking(
                ControlCoordinator { fan_control_dirty: true, ..max_fan_written(c, false, now) },
                HpWrite::FanLevels(self.target),
                FanStage::CurveWrite,
            ),
            _ => Turn {
                steps: seq![
                    StepOutcome {
                        step: Step::ActivateCurve,
                        firmware_return: FirmwareReturn::Absent,
                        before: Some(self.before()),
                        after: Some(Note::CurveTarget { temp: self.temp, target: self.target }),
                        verification: Verification::TrustedNoReadback,
                    },
                ],
                ..self.ending(
                    ControlCoordinator {
                        fan_control_dirty: true,
                        fan_curve: FanCurveController::spec_started(self.target, self.temp, self.at),
                        last_saved_fan_curve: Some(mode_curve(self.mode)),
                        safety: c.safety.spec_noted(self.mode),
                        ..fan_written(c, self.mode, false, self.at)
                    },
                    ControlStatus::Applied { verification: Verification::TrustedNoReadback },
                )
            },
        }
    }

    /// What follows a write that failed. Once the overlay has been released,
    /// or a curve could not be started, the machine goes back to firmware.
    pub open spec fn failed(self, c: ControlCoordinator) -> OpTurn<FanRun> {
        match self.stage {
            FanStage::ManualWrite => {
                let status = ControlStatus::Rejected {
                    error: ControlError::FirmwareRejected { detail: FirmwareDetail::FanWrite },
                };
                Turn {
                    progress: if self.before_max == Some(true) {
                        Progress::HandBack(status)
                    } else {
                        Progress::Done(status)
                    },
                    ..self.ending(c, status)
                }
            },
            FanStage::CurveWrite => {
                let status = ControlStatus::Rejected {
                    error: ControlError::FirmwareRejected { detail: FirmwareDetail::CurveWrite },
                };
                Turn {
                    progress: Progress::HandBack(status),
                    ..self.ending(
                        ControlCoordinator {
                            fan_curve: FanCurveController { last_write_at: Some(self.at), ..c.fan_curve },
                            ..c
                        },
                        status,
                    )
                }
            },
            _ => self.ending(c, ControlStatus::Partial),
        }
    }

    /// The step that a stage's write is recorded as.
    pub open spec fn write_step(self) -> Step {
        match self.stage {
            FanStage::AutoRelease => Step::MaxFanOff,
            FanStage::AutoHandOver => Step::FanToAuto,
            FanStage::MaxOn => Step::MaxFanOn,
            FanStage::ManualRelease => Step::MaxFanOffBeforeManual,
            FanStage::ManualWrite => Step::SetManualLevels,
            FanStage::CurveRelease => Step::MaxFanOffBeforeCurve,
            _ => Step::SetCurveTarget,
        }
    }

    pub open spec fn spec_resume(self, c: ControlCoordinator, reply: Reply, feed: ThermalFeed, now: u64) -> OpTurn<FanRun> {
        match reply {
            Reply::Saved(Err(error)) => self.ending(
                ControlCoordinator { fan_control_dirty: self.previously_dirty, ..c },
                ControlStatus::Rejected { error },
            ),
            Reply::Written(result) => {
                let turn = if result is Ok { self.accepted(c, now) } else { self.failed(c) };
                Turn { steps: seq![hp_written_step(self.write_step(), result, self.before())] + turn.steps, ..turn }
            },
            _ => self.first_write(c, feed, now),
        }
    }

    /// Goes on with what came back.
    pub fn resume(
        &mut self,
        c: &mut ControlCoordinator,
        steps: &mut Vec<StepOutcome>,
        reply: Reply,
        feed: &ThermalFeed,
        now: u64,
    ) -> (r: Progress)
        requires
            old(self).accepts(reply),
            old(self).wf(),
        ensures
            ({
                let turn = old(self).spec_resume(*old(c), reply, *feed, now);
                &&& *final(self) == turn.run
                &&& *final(c) == turn.coordinator
                &&& final(steps)@ == old(steps)@ + turn.steps
                &&& r == turn.progress
            }),
            final(self).wf(),
    {
        let ghost added = self.spec_resume(*c, reply, *feed, now).steps;
        let ghost start = steps@;
        let r = if let FanStage::Saving = self.stage {
            match saved_result(reply) {
                Err(error) => {
                    self.stage = FanStage::Ended;
                    c.fan_control_dirty = self.previously_dirty;
                    Progress::Done(ControlStatus::Rejected { error })
                },
                Ok(()) => self.begin_writes(c, feed, now),
            }
        } else {
            let result = written_result(reply);
            let before = Note::Fan { mode: self.before_mode, max_fan: self.before_max };
            steps.push(written_step(self.step_of_stage(), &result, before));
            match result {
                Ok(()) => self.go_on(c, steps, now),
                Err(_) => self.give_up(c),
            }
        };
        assert(steps@ =~= start + added);
        r
    }

    fn step_of_stage(&self) -> (r: Step)
        ensures
            r == self.write_step(),
    {
        match self.stage {
            FanStage::AutoRelease => Step::MaxFanOff,
            FanStage::AutoHandOver => Step::FanToAuto,
            FanStage::MaxOn => Step::MaxFanOn,
            FanStage::ManualRelease => Step::MaxFanOffBeforeManual,
            FanStage::ManualWrite => Step::SetManualLevels,
            FanStage::CurveRelease => Step::MaxFanOffBeforeCurve,
            _ => Step::SetCurveTarget,
        }
    }

    fn ask(&mut self, write: HpWrite, stage: FanStage) -> (r: Progress)
        ensures
            *final(self) == (FanRun { stage, ..*old(self) }),
            r == Progress::Ask(Request::Write(write)),
    {
        self.stage = stage;
        Progress::Ask(Request::Write(write))
    }

    fn finish_auto(&mut self, c: &mut ControlCoordinator, now: u64) -> (r: Progress)
        ensures
            ({
                let turn = old(self).auto_done(*old(c), now);
                *final(self) == turn.run && *final(c) == turn.coordinator && r == turn.progress
            }),
    {
        self.stage = FanStage::Ended;
        c.observed.fan_mode = ObservedValue::TrustedWrite { value: FanMode::FirmwareAuto, at: now };
        if self.before_max != Some(false) {
            c.observed.max_fan = ObservedValue::TrustedWrite { value: false, at: now };
        }
        c.fan_curve.clear();
        c.fan_control_dirty = false;
        c.safety.note_user_fan_mode(FanMode::FirmwareAuto);
        Progress::Done(ControlStatus::Applied { verification: Verification::Skipped })
    }

    fn give_levels_back(&mut self, c: &mut ControlCoordinator, now: u64) -> (r: Progress)
        ensures
            ({
                let turn = old(self).hand_over(*old(c), now);
                *final(self) == turn.run && *final(c) == turn.coordinator && r == turn.progress
            }),
    {
        let at_firmware = match self.before_mode {
            Some(FanMode::FirmwareAuto) => true,
            _ => false,
        };
        if !at_firmware {
            self.ask(HpWrite::FanLevels(FanLevels::auto()), FanStage::AutoHandOver)
        } else {
            self.finish_auto(c, now)
        }
    }

    fn begin_writes(&mut self, c: &mut ControlCoordinator, feed: &ThermalFeed, now: u64) -> (r: Progress)
        ensures
            ({
                let turn = old(self).first_write(*old(c), *feed, now);
                *final(self) == turn.run && *final(c) == turn.coordinator && r == turn.progress
            }),
            final(self).wf(),
    {
        match self.mode {
            FanMode::FirmwareAuto => if self.before_max != Some(false) {
                self.ask(HpWrite::MaxFan(false), FanStage::AutoRelease)
            } else {
                self.give_levels_back(c, now)
            },
            FanMode::Max => self.ask(HpWrite::MaxFan(true), FanStage::MaxOn),
            FanMode::Manual(levels) => if self.before_max == Some(true) {
                self.ask(HpWrite::MaxFan(false), FanStage::ManualRelease)
            } else {
                self.ask(HpWrite::FanLevels(levels), FanStage::ManualWrite)
            },
            FanMode::Curve(curve) => match effective_temperature(feed.pkg_temp, feed.gpu_temp, now) {
                None => {
                    self.stage = FanStage::Ended;
                    Progress::Done(
                        ControlStatus::Rejected {
                            error: ControlError::UnsafeRequest { reason: UnsafeReason::NoFreshCurveTemperature },
                        },
                    )
                },
                Some(temp) => {
                    let target = curve.target_at(temp);
                    self.temp = temp;
                    self.target = target;
                    self.at = now;
                    if self.before_max == Some(true) {
                        self.ask(HpWrite::MaxFan(false), FanStage::CurveRelease)
                    } else {
                        self.ask(HpWrite::FanLevels(target), FanStage::CurveWrite)
                    }
                },
            },
        }
    }

    fn go_on(&mut self, c: &mut ControlCoordinator, steps: &mut Vec<StepOutcome>, now: u64) -> (r: Progress)
        requires
            old(self).wf(),
            old(self).stage != FanStage::Saving,
            old(self).stage != FanStage::Ended,
        ensures
            ({
                let turn = old(self).accepted(*old(c), now);
                &&& *final(self) == turn.run
                &&& *final(c) == turn.coordinator
                &&& r == turn.progress
                &&& final(steps)@ == old(steps)@ + turn.steps
            }),
            final(self).wf(),
    {
        let ghost added = self.accepted(*c, now).steps;
        let ghost start = steps@;
        let r = match self.stage {
            FanStage::AutoRelease => {
                c.observed.max_fan = ObservedValue::TrustedWrite { value: false, at: now };
                self.give_levels_back(c, now)
            },
            FanStage::AutoHandOver => self.finish_auto(c, now),
            FanStage::MaxOn => self.finish_max(c, now),
            FanStage::ManualRelease => {
                c.observed.max_fan = ObservedValue::TrustedWrite { value: false, at: now };
                c.fan_control_dirty = true;
                self.ask(HpWrite::FanLevels(self.manual_levels()), FanStage::ManualWrite)
            },
            FanStage::ManualWrite => self.finish_manual(c, steps, now),
            FanStage::CurveRelease => {
                c.observed.max_fan = ObservedValue::TrustedWrite { value: false, at: now };
                c.fan_control_dirty = true;
                self.ask(HpWrite::FanLevels(self.target), FanStage::CurveWrite)
            },
            _ => self.finish_curve(c, steps, now),
        };
        assert(steps@ =~= start + added);
        r
    }

    fn finish_max(&mut self, c: &mut ControlCoordinator, now: u64) -> (r: Progress)
        requires
            old(self).stage == FanStage::MaxOn,
        ensures
            ({
                let turn = old(self).accepted(*old(c), now);
                *final(self) == turn.run && *final(c) == turn.coordinator && r == turn.progress
            }),
    {
        self.stage = FanStage::Ended;
        c.fan_control_dirty = true;
        c.observed.fan_mode = ObservedValue::TrustedWrite { value: FanMode::Max, at: now };
        c.observed.max_fan = ObservedValue::TrustedWrite { value: true, at: now };
        c.fan_curve.clear();
        c.safety.note_user_fan_mode(FanMode::Max);
        Progress::Done(ControlStatus::Applied { verification: Verification::TrustedNoReadback })
    }

    fn finish_manual(&mut self, c: &mut ControlCoordinator, steps: &mut Vec<StepOutcome>, now: u64) -> (r: Progress)
        requires
            old(self).wf(),
            old(self).stage == FanStage::ManualWrite,
        ensures
            ({
                let turn = old(self).accepted(*old(c), now);
                &&& *final(self) == turn.run
                &&& *final(c) == turn.coordinator
                &&& r == turn.progress
                &&& final(steps)@ == old(steps)@ + turn.steps
            }),
    {
        let ghost added = self.accepted(*c, now).steps;
        let ghost start = steps@;
        let levels = self.manual_levels();
        self.stage = FanStage::Ended;
        c.fan_control_dirty = true;
        c.verification_requested = Some(
            PendingVerification::new(Target::Fan(levels), now, c.verify_polls, c.verify_poll_interval),
        );
        c.observed.fan_mode = ObservedValue::TrustedWrite { value: self.mode, at: now };
        c.observed.max_fan = ObservedValue::TrustedWrite { value: false, at: now };
        c.fan_curve.clear();
        c.safety.note_user_fan_mode(self.mode);
        steps.push(
            StepOutcome {
                step: Step::VerifyFanLevels,
                firmware_return: FirmwareReturn::Absent,
                before: Some(Note::Fan { mode: self.before_mode, max_fan: self.before_max }),
                after: Some(Note::FanPending),
                verification: Verification::TrustedNoReadback,
            },
        );
        assert(steps@ =~= start + added);
        Progress::Done(ControlStatus::Applied { verification: Verification::TrustedNoReadback })
    }

    fn finish_curve(&mut self, c: &mut ControlCoordinator, steps: &mut Vec<StepOutcome>, now: u64) -> (r: Progress)
        requires
            old(self).wf(),
            old(self).stage == FanStage::CurveWrite,
        ensures
            ({
                let turn = old(self).accepted(*old(c), now);
                &&& *final(self) == turn.run
                &&& *final(c) == turn.coordinator
                &&& r == turn.progress
                &&& final(steps)@ == old(steps)@ + turn.steps
            }),
    {
        let ghost added = self.accepted(*c, now).steps;
        let ghost start = steps@;
        self.stage = FanStage::Ended;
        c.fan_control_dirty = true;
        c.observed.fan_mode = ObservedValue::TrustedWrite { value: self.mode, at: self.at };
        c.observed.max_fan = ObservedValue::TrustedWrite { value: false, at: self.at };
        c.fan_curve.reset(self.target, self.temp, self.at);
        if let FanMode::Curve(curve) = self.mode {
            c.last_saved_fan_curve = Some(curve);
        }
        c.safety.note_user_fan_mode(self.mode);
        steps.push(
            StepOutcome {
                step: Step::ActivateCurve,
                firmware_return: FirmwareReturn::Absent,
                before: Some(Note::Fan { mode: self.before_mode, max_fan: self.before_max }),
                after: Some(Note::CurveTarget { temp: self.temp, target: self.target }),
                verification: Verification::TrustedNoReadback,
            },
        );
        assert(steps@ =~= start + added);
        Progress::Done(ControlStatus::Applied { verification: Verification::TrustedNoReadback })
    }

    fn manual_levels(&self) -> (r: FanLevels)
        requires
            self.mode is Manual,
        ensures
            r == self.mode->Manual_0,
    {
        match self.mode {
            FanMode::Manual(levels) => levels,
            _ => FanLevels::auto(),
        }
    }

    fn give_up(&mut self, c: &mut ControlCoordinator) -> (r: Progress)
        requires
            old(self).stage != FanStage::Saving,
        ensures
            ({
                let turn = old(self).failed(*old(c));
                *final(self) == turn.run && *final(c) == turn.coordinator && r == turn.progress
            }),
            final(self).wf(),
    {
        let stage = self.stage;
        self.stage = FanStage::Ended;
        match stage {
            FanStage::ManualWrite => {
                let status = ControlStatus::Rejected {
                    error: ControlError::FirmwareRejected { detail: FirmwareDetail::FanWrite },
                };
                if self.before_max == Some(true) { Progress::HandBack(status) } else { Progress::Done(status) }
            },
            FanStage::CurveWrite => {
                c.fan_curve.record_failure(self.at);
                Progress::HandBack(
                    ControlStatus::Rejected {
                        error: ControlError::FirmwareRejected { detail: FirmwareDetail::CurveWrite },
                    },
                )
            },
            _ => Progress::Done(ControlStatus::Partial),
        }
    }
}

/// Max fan is an overlay: the only write a change to it ever asks for is the
/// overlay itself, so the levels below stay as they are.
pub proof fn max_leaves_levels_alone(run: FanRun, c: ControlCoordinator, reply: Reply, feed: ThermalFeed, now: u64)
    requires
        run.mode == FanMode::Max,
        run.stage == FanStage::Saving || run.stage == FanStage::MaxOn,
        run.accepts(reply),
    ensures
        run.spec_resume(c, reply, feed, now).progress matches Progress::Ask(request) ==> request == Request::Write(
            HpWrite::MaxFan(true),
        ),
{
}

/// Levels are only ever written with the overlay known not to be on: either
/// it was not on when the run started, or it has just been released.
pub proof fn levels_follow_the_released_overlay(
    run: FanRun,
    c: ControlCoordinator,
    reply: Reply,
    feed: ThermalFeed,
    now: u64,
)
    requires
        run.wf(),
        run.accepts(reply),
        run.stage == FanStage::Saving || run.stage == FanStage::AutoRelease || run.stage == FanStage::ManualRelease
            || run.stage == FanStage::CurveRelease,
        run.spec_resume(c, reply, feed, now).progress matches Progress::Ask(Request::Write(HpWrite::FanLevels(_))),
    ensures
        run.before_max != Some(true) || ((reply matches Reply::Written(result) && result is Ok) && run.spec_resume(
            c,
            reply,
            feed,
            now,
        ).coordinator.observed.max_fan.known() == Some(false)),
{
}

/// Once firmware holds the fans again, this session owes nothing for them.
pub proof fn firmware_control_settles_the_fans(
    run: FanRun,
    c: ControlCoordinator,
    reply: Reply,
    feed: ThermalFeed,
    now: u64,
)
    requires
        run.accepts(reply),
        run.mode == FanMode::FirmwareAuto,
        run.stage == FanStage::Saving || run.stage == FanStage::AutoRelease || run.stage == FanStage::AutoHandOver,
        run.spec_resume(c, reply, feed, now).progress matches Progress::Done(status) && status.succeeded(),
    ensures
        ({
            let after = run.spec_resume(c, reply, feed, now).coordinator;
            &&& !after.fan_control_dirty
            &&& after.observed.fan_mode.known() == Some(FanMode::FirmwareAuto)
            &&& after.safety.override_saved is None
            &&& after.fan_curve == FanCurveController::spec_new()
        }),
{
}

} // verus!
