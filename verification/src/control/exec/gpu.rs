//! GPU platform policy (0x22), with a real readback (0x21). A sparse change
//! is merged over a fresh readback, never over a remembered value.
use vstd::pervasive::unreached;
use vstd::prelude::*;

use crate::control::coordinator::ControlCoordinator;
use crate::control::exchange::{saved_result, written_result, HpWrite, OpTurn, Progress, Reply, Request, Turn};
use crate::control::stamp::trusted;
use crate::control::verification::PendingVerification;
use crate::domain::command::{
    failed_step, hp_failed_step, ControlStatus, FirmwareReturn, Note, Step, StepOutcome, Verification,
};
use crate::domain::error::{
    definite_hp_rejection, map_hp_error, mapped_hp_error, ControlError, HpWmiError, Missing,
};
use crate::domain::evidence::Target;
use crate::domain::policy::{GpuPlatformPolicy, GpuPolicyPatch};
use crate::domain::state::{DesiredState, ObservedState, ObservedValue};

verus! {

/// What was asked for: a whole policy, or a change of the live one.
#[derive(Clone, Copy, Debug, PartialEq, Eq, Structural)]
pub enum GpuChange {
    Whole(GpuPlatformPolicy),
    Patch(GpuPolicyPatch),
}

#[derive(Clone, Copy, Debug, PartialEq, Eq, Structural)]
pub enum GpuStage {
    /// Reading the value to merge a patch over.
    Merging,
    /// Reading the value to restore.
    Baseline,
    Saving,
    Writing,
    Ended,
}

/// A change of the GPU platform policy under way.
#[derive(Clone, Copy, Debug, PartialEq, Eq, Structural)]
pub struct GpuRun {
    pub change: GpuChange,
    /// The policy to write.
    pub policy: GpuPlatformPolicy,
    /// The policy that the firmware reported before the write.
    pub before: GpuPlatformPolicy,
    pub previously_dirty: bool,
    pub stage: GpuStage,
}

/// A policy before anything has been read.
pub open spec fn unread_policy() -> GpuPlatformPolicy {
    GpuPlatformPolicy { ctgp: false, ppab: false, dstate: 0, slowdown_temp_c: 0 }
}

fn read_result(reply: Reply) -> (r: Result<GpuPlatformPolicy, HpWmiError>)
    requires
        reply is Gpu,
    ensures
        reply == Reply::Gpu(r),
{
    match reply {
        Reply::Gpu(r) => r,
        _ => unreached(),
    }
}

impl GpuRun {
    /// The reply that the run waits for.
    pub open spec fn accepts(self, reply: Reply) -> bool {
        match self.stage {
            GpuStage::Merging => reply is Gpu && self.change is Patch,
            GpuStage::Baseline => reply is Gpu,
            GpuStage::Saving => reply is Saved,
            GpuStage::Writing => reply is Written,
            GpuStage::Ended => false,
        }
    }

    /// Whether the power state was itself requested.
    pub open spec fn dstate_requested(self) -> bool {
        match self.change {
            GpuChange::Whole(_) => true,
            GpuChange::Patch(patch) => patch.dstate is Some,
        }
    }

    pub open spec fn ending(self, c: ControlCoordinator, status: ControlStatus) -> OpTurn<GpuRun> {
        Turn {
            run: GpuRun { stage: GpuStage::Ended, ..self },
            coordinator: c,
            steps: Seq::empty(),
            progress: Progress::Done(status),
        }
    }

    pub open spec fn spec_start(c: ControlCoordinator, change: GpuChange) -> OpTurn<GpuRun> {
        let run = GpuRun {
            change,
            policy: match change {
                GpuChange::Whole(p) => p,
                GpuChange::Patch(_) => unread_policy(),
            },
            before: unread_policy(),
            previously_dirty: false,
            stage: if change is Whole { GpuStage::Baseline } else { GpuStage::Merging },
        };
        if !c.hp_present {
            run.ending(
                c,
                ControlStatus::Rejected { error: ControlError::BackendUnavailable { what: Missing::HpPlatform } },
            )
        } else {
            Turn { run, coordinator: c, steps: Seq::empty(), progress: Progress::Ask(Request::ReadGpu) }
        }
    }

    /// Asks for the live policy.
    pub fn start(c: &ControlCoordinator, change: GpuChange) -> (r: (GpuRun, Progress))
        ensures
            ({
                let turn = GpuRun::spec_start(*c, change);
                r.0 == turn.run && r.1 == turn.progress && *c == turn.coordinator
            }),
    {
        let blank = GpuPlatformPolicy { ctgp: false, ppab: false, dstate: 0, slowdown_temp_c: 0 };
        let run = match change {
            GpuChange::Whole(p) => GpuRun {
                change,
                policy: p,
                before: blank,
                previously_dirty: false,
                stage: GpuStage::Baseline,
            },
            GpuChange::Patch(_) => GpuRun {
                change,
                policy: blank,
                before: blank,
                previously_dirty: false,
                stage: GpuStage::Merging,
            },
        };
        if !c.hp_present {
            return (
                GpuRun { stage: GpuStage::Ended, ..run },
                Progress::Done(
                    ControlStatus::Rejected {
                        error: ControlError::BackendUnavailable { what: Missing::HpPlatform },
                    },
                ),
            );
        }
        (run, Progress::Ask(Request::ReadGpu))
    }

    pub open spec fn spec_resume(self, c: ControlCoordinator, reply: Reply, now: u64) -> OpTurn<GpuRun> {
        let released = ControlCoordinator { gpu_policy_dirty: self.previously_dirty, ..c };
        match (self.stage, reply) {
            (GpuStage::Merging, Reply::Gpu(Ok(live))) => Turn {
                run: GpuRun {
                    policy: self.change->Patch_0.spec_apply(live),
                    stage: GpuStage::Baseline,
                    ..self
                },
                coordinator: c,
                steps: Seq::empty(),
                progress: Progress::Ask(Request::ReadGpu),
            },
            (GpuStage::Merging, Reply::Gpu(Err(e))) => Turn {
                steps: seq![hp_failed_step(Step::ReadGpuPolicy, e, Note::NotRead)],
                ..self.ending(c, ControlStatus::Rejected { error: mapped_hp_error(e) })
            },
            (GpuStage::Baseline, Reply::Gpu(Ok(live))) => {
                let owing = ControlCoordinator {
                    gpu_policy_startup: if c.gpu_policy_dirty { c.gpu_policy_startup } else { Some(live) },
                    gpu_policy_dirty: true,
                    ..c
                };
                Turn {
                    run: GpuRun {
                        before: live,
                        previously_dirty: c.gpu_policy_dirty,
                        stage: GpuStage::Saving,
                        ..self
                    },
                    coordinator: owing,
                    steps: Seq::empty(),
                    progress: Progress::Ask(Request::SaveLedger(owing.spec_ledger())),
                }
            },
            (GpuStage::Baseline, Reply::Gpu(Err(e))) => self.ending(
                c,
                ControlStatus::Rejected { error: mapped_hp_error(e) },
            ),
            (GpuStage::Saving, Reply::Saved(Err(error))) => self.ending(
                released,
                ControlStatus::Rejected { error },
            ),
            (GpuStage::Saving, _) => Turn {
                run: GpuRun { stage: GpuStage::Writing, ..self },
                coordinator: c,
                steps: Seq::empty(),
                progress: Progress::Ask(Request::Write(HpWrite::GpuPolicy(self.policy))),
            },
            (_, Reply::Written(Err(e))) => Turn {
                steps: seq![hp_failed_step(Step::SetGpuPolicy, e, Note::Gpu(self.before))],
                ..self.ending(
                    if e.spec_definite_rejection() { released } else { c },
                    ControlStatus::Rejected { error: mapped_hp_error(e) },
                )
            },
            _ => Turn {
                steps: seq![
                    StepOutcome {
                        step: Step::VerifyGpuPolicy,
                        firmware_return: FirmwareReturn::Absent,
                        before: Some(Note::Gpu(self.before)),
                        after: Some(Note::Pending),
                        verification: Verification::TrustedNoReadback,
                    },
                ],
                ..self.ending(
                    ControlCoordinator {
                        gpu_policy_dirty: true,
                        verification_requested: Some(
                            PendingVerification::spec_new(
                                Target::Gpu(self.policy, self.dstate_requested()),
                                now,
                                c.verify_polls,
                                c.verify_poll_interval,
                            ),
                        ),
                        observed: ObservedState { gpu_platform_policy: trusted(self.policy, now), ..c.observed },
                        desired: if self.change is Patch {
                            DesiredState { gpu_platform_policy: Some(self.policy), ..c.desired }
                        } else {
                            c.desired
                        },
                        ..c
                    },
                    ControlStatus::Applied { verification: Verification::TrustedNoReadback },
                )
            },
        }
    }

    /// Goes on with what came back. The restore is owed before the write is
    /// asked for, and stays owed unless the firmware refused outright.
    pub fn resume(
        &mut self,
        c: &mut ControlCoordinator,
        steps: &mut Vec<StepOutcome>,
        reply: Reply,
        now: u64,
    ) -> (r: Progress)
        requires
            old(self).accepts(reply),
        ensures
            ({
                let turn = old(self).spec_resume(*old(c), reply, now);
                &&& *final(self) == turn.run
                &&& *final(c) == turn.coordinator
                &&& final(steps)@ == old(steps)@ + turn.steps
                &&& r == turn.progress
            }),
    {
        let ghost added = self.spec_resume(*c, reply, now).steps;
        let ghost start = steps@;
        let r = match self.stage {
            GpuStage::Merging => match read_result(reply) {
                Ok(live) => {
                    if let GpuChange::Patch(patch) = self.change {
                        self.policy = patch.apply(live);
                    }
                    self.stage = GpuStage::Baseline;
                    Progress::Ask(Request::ReadGpu)
                },
                Err(e) => {
                    self.stage = GpuStage::Ended;
                    steps.push(failed_step(Step::ReadGpuPolicy, &e, Note::NotRead));
                    Progress::Done(ControlStatus::Rejected { error: map_hp_error(&e) })
                },
            },
            GpuStage::Baseline => match read_result(reply) {
                Ok(live) => {
                    self.before = live;
                    self.previously_dirty = c.gpu_policy_dirty;
                    self.stage = GpuStage::Saving;
                    if !c.gpu_policy_dirty {
                        c.gpu_policy_startup = Some(live);
                    }
                    c.gpu_policy_dirty = true;
                    Progress::Ask(Request::SaveLedger(c.ledger()))
                },
                Err(e) => {
                    self.stage = GpuStage::Ended;
                    Progress::Done(ControlStatus::Rejected { error: map_hp_error(&e) })
                },
            },
            GpuStage::Saving => match saved_result(reply) {
                Err(error) => {
                    self.stage = GpuStage::Ended;
                    c.gpu_policy_dirty = self.previously_dirty;
                    Progress::Done(ControlStatus::Rejected { error })
                },
                Ok(()) => {
                    self.stage = GpuStage::Writing;
                    Progress::Ask(Request::Write(HpWrite::GpuPolicy(self.policy)))
                },
            },
            _ => {
                self.stage = GpuStage::Ended;
                match written_result(reply) {
                    Ok(()) => self.accepted(c, steps, now),
                    Err(e) => {
                        if definite_hp_rejection(&e) {
                            c.gpu_policy_dirty = self.previously_dirty;
                        }
                        steps.push(failed_step(Step::SetGpuPolicy, &e, Note::Gpu(self.before)));
                        Progress::Done(ControlStatus::Rejected { error: map_hp_error(&e) })
                    },
                }
            },
        };
        assert(steps@ =~= start + added);
        r
    }

    fn accepted(&self, c: &mut ControlCoordinator, steps: &mut Vec<StepOutcome>, now: u64) -> (r: Progress)
        ensures
            ({
                let turn = GpuRun { stage: GpuStage::Writing, ..*self }.spec_resume(
                    *old(c),
                    Reply::Written(Ok(())),
                    now,
                );
                &&& *final(c) == turn.coordinator
                &&& final(steps)@ == old(steps)@ + turn.steps
                &&& r == turn.progress
            }),
    {
        let ghost start = steps@;
        let (dstate_requested, patched) = match self.change {
            GpuChange::Whole(_) => (true, false),
            GpuChange::Patch(patch) => (patch.dstate.is_some(), true),
        };
        c.gpu_policy_dirty = true;
        c.verification_requested = Some(
            PendingVerification::new(
                Target::Gpu(self.policy, dstate_requested),
                now,
                c.verify_polls,
                c.verify_poll_interval,
            ),
        );
        c.observed.gpu_platform_policy = ObservedValue::TrustedWrite { value: self.policy, at: now };
        if patched {
            c.desired.gpu_platform_policy = Some(self.policy);
        }
        steps.push(
            StepOutcome {
                step: Step::VerifyGpuPolicy,
                firmware_return: FirmwareReturn::Absent,
                before: Some(Note::Gpu(self.before)),
                after: Some(Note::Pending),
                verification: Verification::TrustedNoReadback,
            },
        );
        assert(steps@ =~= start + GpuRun { stage: GpuStage::Writing, ..*self }.spec_resume(
            *old(c),
            Reply::Written(Ok(())),
            now,
        ).steps);
        Progress::Done(ControlStatus::Applied { verification: Verification::TrustedNoReadback })
    }
}

/// The value to restore is the one found before the first unrestored write;
/// later writes keep it.
pub proof fn gpu_baseline_is_the_first_value(
    run: GpuRun,
    c: ControlCoordinator,
    live: GpuPlatformPolicy,
    now: u64,
)
    requires
        run.stage == GpuStage::Baseline,
    ensures
        ({
            let after = run.spec_resume(c, Reply::Gpu(Ok(live)), now).coordinator;
            &&& after.gpu_policy_dirty
            &&& c.gpu_policy_dirty ==> after.gpu_policy_startup == c.gpu_policy_startup
            &&& !c.gpu_policy_dirty ==> after.gpu_policy_startup == Some(live)
        }),
{
}

} // verus!
