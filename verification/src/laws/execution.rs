//! How a plan is carried out: one step after the other, and none after one
//! that did not succeed.
use vstd::prelude::*;

use crate::control::advance::{finished, judged, noted, readback_taken, scope_left, settled, step_ended, PlanProgress};
use crate::control::coordinator::ControlCoordinator;
use crate::control::exchange::Request;
use crate::control::plan::{ActivePlan, PlanStage};
use crate::domain::command::{weaker, ControlCommand, ControlStatus, Verification};
use crate::domain::error::ControlError;
use crate::domain::state::{ControlNotice, DesiredState, ObservedState};

verus! {

/// A step has done what was asked: it was applied and no readback disagrees.
pub open spec fn went_well(status: ControlStatus) -> bool {
    status is Applied && !(status->verification is Failed)
}

/// A plan is as verified as its weakest step: a failure outweighs a trusted
/// write, that one a verified one, and what was skipped does not count.
pub proof fn the_weakest_step_counts(a: Verification, b: Verification)
    ensures
        a is Skipped ==> weaker(a, b) == b,
        b is Skipped ==> weaker(a, b) == a,
        a is Failed ==> weaker(a, b) == a,
        b is Failed && !(a is Failed) ==> weaker(a, b) == b,
        a is Verified && b is Verified ==> weaker(a, b) is Verified,
        (a is TrustedNoReadback && b is Verified) || (a is Verified && b is TrustedNoReadback) || (
        a is TrustedNoReadback && b is TrustedNoReadback) ==> weaker(a, b) is TrustedNoReadback,
{
}

/// A step that went well takes the plan one step further; it ends behind the
/// last one, as verified as its weakest step. What restored a session comes
/// first: behind it the session is left and the ledger saved.
pub proof fn good_steps_go_on(
    p: ActivePlan,
    c: ControlCoordinator,
    q: ActivePlan,
    d: ControlCoordinator,
    status: ControlStatus,
    now: u64,
    r: PlanProgress,
)
    requires
        judged(p, c, q, d, status, now, r),
        p.index < p.plan@.len(),
        went_well(status),
    ensures
        q.index == p.index + 1,
        q.plan@ == p.plan@,
        q.steps@ == p.steps@,
        q.receipt == p.receipt,
        q.command == p.command,
        q.weakest == weaker(p.weakest, status->verification),
        p.index + 1 == p.restore_scope_steps ==> q.stage is ScopeSaving && d.scoped_session is None && r
            == PlanProgress::Ask(Request::SaveLedger(d.spec_ledger())),
        p.index + 1 != p.restore_scope_steps && p.index + 1 < p.plan@.len() ==> q.stage is Ready && d == c && r is More,
        p.index + 1 != p.restore_scope_steps && p.index + 1 == p.plan@.len() ==> q.stage == PlanStage::Finishing(
            ControlStatus::Applied { verification: weaker(p.weakest, status->verification) },
        ) && r == PlanProgress::Ask(Request::SaveLedger(d.spec_ledger())),
{
    let n = p.plan.len();
    assert(n == p.plan@.len());
    reveal(scope_left);
}

/// A step that did not go well is the last one: the plan does not move on, and
/// ends with the step's own status where it was the only thing that happened,
/// and as partial otherwise.
pub proof fn bad_steps_end_the_plan(
    p: ActivePlan,
    c: ControlCoordinator,
    q: ActivePlan,
    d: ControlCoordinator,
    status: ControlStatus,
    now: u64,
    r: PlanProgress,
)
    requires
        judged(p, c, q, d, status, now, r),
        !went_well(status),
    ensures
        q.index == p.index,
        q.steps@ == p.steps@,
        q.stage == PlanStage::Finishing(
            if status is Rejected && p.index == 0 {
                status
            } else if status is Applied && p.index == 0 && p.plan@.len() == 1 {
                status
            } else {
                ControlStatus::Partial
            },
        ),
        r == PlanProgress::Ask(Request::SaveLedger(d.spec_ledger())),
        p.steps@.len() > 0 ==> d.observed.active_profile is None,
{
    reveal(finished);
}

/// A step's readback is waited for before the step is judged; without one the
/// status stands.
pub proof fn readbacks_come_before_judgement(
    p: ActivePlan,
    c: ControlCoordinator,
    q: ActivePlan,
    d: ControlCoordinator,
    status: ControlStatus,
    now: u64,
    r: PlanProgress,
)
    requires
        settled(p, c, q, d, status, now, r),
        p.index < p.plan@.len(),
    ensures
        c.verification_requested matches Some(check) ==> q.stage == PlanStage::Waiting(check) && q.index == p.index && r
            == (PlanProgress::Wait { due: check.next_due }) && d.verification_requested is None,
        c.verification_requested is None && !went_well(status) ==> q.stage is Finishing && q.index == p.index,
        c.verification_requested is None && went_well(status) ==> q.index == p.index + 1,
{
    let n = p.plan.len();
    assert(n == p.plan@.len());
    reveal(step_ended);
    reveal(readback_taken);
}

/// An applied step is recorded as what the user wants; one that was not
/// changes no wish. Profile names go with the first step.
pub proof fn applied_steps_are_wished_for(c: ControlCoordinator, cmd: ControlCommand, status: ControlStatus, now: u64)
    ensures
        ({
            let d = step_ended(c, cmd, status, now);
            let (old, new) = (c.desired, d.desired);
            &&& status is Applied ==> {
                &&& new.thermal_mode == (if cmd is SetThermalMode { Some(cmd->SetThermalMode_0) } else { old.thermal_mode })
                &&& new.fan_mode == (if cmd is SetFanMode { Some(cmd->SetFanMode_0) } else { old.fan_mode })
                &&& new.cpu_policy == (if cmd is SetCpuPolicy { Some(cmd->SetCpuPolicy_0) } else { old.cpu_policy })
                &&& new.gpu_platform_policy == (if cmd is SetGpuPlatformPolicy {
                    Some(cmd->SetGpuPlatformPolicy_0)
                } else {
                    old.gpu_platform_policy
                })
                &&& new.power_limits == (if cmd is SetPowerLimits { Some(cmd->SetPowerLimits_0) } else { old.power_limits })
                &&& !(cmd is ApplyProfile) ==> new.profile is None && d.observed.active_profile is None
                &&& cmd is ApplyProfile ==> new.profile == old.profile && d.observed == c.observed
            }
            &&& !(status is Applied) ==> new == old && d.observed == c.observed
            &&& d.observed == (ObservedState { active_profile: d.observed.active_profile, ..c.observed })
            &&& d == (ControlCoordinator { desired: new, observed: d.observed, keepalive: d.keepalive, ..c })
        }),
{
    reveal(step_ended);
}

/// Once a plan is over, the machine carries the name of the profile that was
/// applied in full; a plan that took steps and did not succeed leaves no name
/// and a notice. Nothing else changes but the heartbeat.
pub proof fn names_follow_success(c: ControlCoordinator, cmd: ControlCommand, took_steps: bool, status: ControlStatus, now: u64)
    ensures
        ({
            let d = finished(c, cmd, took_steps, status, now);
            let name: Option<String> = match cmd {
                ControlCommand::ApplyProfile { profile } => Some(profile),
                ControlCommand::ApplyScopedProfile { profile, .. } => Some(profile),
                _ => None,
            };
            &&& went_well(status) && name is Some ==> d.desired.profile == name && d.observed.active_profile == name
                && d.observed.control_notice is None
            &&& went_well(status) && name is None ==> d.desired == c.desired && d.observed == c.observed
            &&& !went_well(status) && took_steps ==> d.observed.active_profile is None && d.observed.control_notice
                == Some(ControlNotice::NotFullyApplied) && d.desired == c.desired
            &&& !went_well(status) && !took_steps ==> d.desired == c.desired && d.observed == c.observed
            &&& d.observed == (ObservedState {
                active_profile: d.observed.active_profile,
                control_notice: d.observed.control_notice,
                ..c.observed
            })
            &&& d.desired == (DesiredState { profile: d.desired.profile, ..c.desired })
            &&& d == (ControlCoordinator { desired: d.desired, observed: d.observed, keepalive: d.keepalive, ..c })
        }),
{
    reveal(finished);
}

/// A session that has been put back is over, and the profile before it is
/// back, as wish and as name. Nothing else changes.
pub proof fn sessions_are_left(c: ControlCoordinator)
    ensures
        ({
            let d = scope_left(c);
            let before: Option<String> = match c.scoped_session {
                Some(s) => s.previous_profile,
                None => None,
            };
            &&& d.scoped_session is None
            &&& d.desired.profile == before
            &&& d.observed.active_profile == before
            &&& d == (ControlCoordinator {
                scoped_session: None,
                desired: DesiredState { profile: before, ..c.desired },
                observed: ObservedState { active_profile: before, ..c.observed },
                ..c
            })
        }),
{
    reveal(scope_left);
}

/// A ledger that could not be saved leaves its error as a notice, and nothing
/// else.
pub proof fn failed_saves_are_noticed(c: ControlCoordinator, e: ControlError)
    ensures
        noted(c, Ok(())) == c,
        noted(c, Err(e)).observed.control_notice == Some(ControlNotice::Error(e)),
        noted(c, Err(e)) == (ControlCoordinator {
            observed: ObservedState { control_notice: Some(ControlNotice::Error(e)), ..c.observed },
            ..c
        }),
{
    reveal(noted);
}

} // verus!
