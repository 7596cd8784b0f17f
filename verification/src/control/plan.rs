//! Plans: a command becomes a list of settings, validated as a whole before
//! anything is written and one by one right before each write. A step that
//! fails ends the plan; later steps never run.
use vstd::prelude::*;

use super::coordinator::{expand_definition, profile_commands, ControlCoordinator};
use super::exec::command::ExecRun;
use super::exec::cpu::{sides_wanted, wanted};
use super::recovery::{RecoveryRecord, ScopedSession};
use super::safety::{age, elapsed, ThermalFeed};
use super::scope::{
    capture_scope_baseline, is_baseline, scheme_kept, scope_refusal, validate_scope_scheme, ScopeReads,
};
use super::verification::PendingVerification;
use crate::domain::command::{
    ControlCommand, ControlOutcome, ControlReceipt, ControlStatus, StepOutcome, Verification,
};
use crate::domain::error::{ControlError, ProfileName, UnsafeReason};
use crate::domain::policy::CpuPolicy;
use crate::domain::profile::PerformanceProfile;

verus! {

/// The commands of a profile; one without any is refused.
pub open spec fn expanded(p: PerformanceProfile, name: ProfileName) -> Result<Seq<ControlCommand>, ControlError> {
    if profile_commands(p).len() == 0 {
        Err(ControlError::UnsafeRequest { reason: UnsafeReason::EmptyProfile { name } })
    } else {
        Ok(profile_commands(p))
    }
}

/// The commands of a registered profile.
pub open spec fn named_plan(c: ControlCoordinator, name: String) -> Result<Seq<ControlCommand>, ControlError> {
    match c.profiles.lookup(name@) {
        Some(p) => expanded(p, ProfileName::Registered(name)),
        None => Err(ControlError::UnknownProfile { name }),
    }
}

/// The commands that restore an automatic session: it has to be the one that
/// was asked for, under its own power scheme.
pub open spec fn session_restore_plan(c: ControlCoordinator, session_id: u64, scheme: Option<String>) -> Result<
    Seq<ControlCommand>,
    ControlError,
> {
    match c.scoped_session {
        Some(scope) => if scope.id != session_id {
            Err(ControlError::UnsafeRequest { reason: UnsafeReason::ScopeExpired })
        } else if !scheme_kept(c, scheme) {
            Err(ControlError::UnsafeRequest { reason: UnsafeReason::SchemeChanged })
        } else {
            expanded(scope.baseline, ProfileName::SessionRestore)
        },
        None => Ok(seq![ControlCommand::SetCpuPolicy(CpuPolicy::spec_empty())]),
    }
}

/// What a command asks for.
pub open spec fn requested_plan(
    c: ControlCoordinator,
    cmd: ControlCommand,
    reads: ScopeReads,
    scheme: Option<String>,
    feed: ThermalFeed,
    now: u64,
) -> Result<Seq<ControlCommand>, ControlError> {
    match cmd {
        ControlCommand::ApplyScopedProfile { profile, .. } => if c.scoped_session is Some {
            Err(ControlError::Busy)
        } else {
            match c.profiles.lookup(profile@) {
                None => Err(ControlError::UnknownProfile { name: profile }),
                Some(p) => match scope_refusal(c, p, reads, feed, now) {
                    Some(e) => Err(e),
                    None => expanded(p, ProfileName::Registered(profile)),
                },
            }
        },
        ControlCommand::RestoreScopedProfile { session_id } => session_restore_plan(c, session_id, scheme),
        ControlCommand::ApplyProfile { profile } => named_plan(c, profile),
        ControlCommand::ApplyProfileDefinition { profile } => expanded(profile, ProfileName::Draft),
        _ => Ok(seq![cmd]),
    }
}

/// A manual command takes over from an automatic session.
pub open spec fn takes_over(c: ControlCoordinator, cmd: ControlCommand) -> bool {
    c.scoped_session is Some && !(cmd is ApplyScopedProfile) && !(cmd is RestoreScopedProfile) && !(
    cmd is RestoreSession)
}

/// The whole plan of a command: an automatic session is restored before a
/// manual command takes over.
pub open spec fn whole_plan(
    c: ControlCoordinator,
    cmd: ControlCommand,
    reads: ScopeReads,
    scheme: Option<String>,
    feed: ThermalFeed,
    now: u64,
) -> Result<Seq<ControlCommand>, ControlError> {
    if c.previous_recovery is Some && !(cmd is RestoreSession) {
        Err(ControlError::UnsafeRequest { reason: UnsafeReason::SessionNotRestored })
    } else {
        match requested_plan(c, cmd, reads, scheme, feed, now) {
            Err(e) => Err(e),
            Ok(plan) => if !takes_over(c, cmd) {
                Ok(plan)
            } else if !scheme_kept(c, scheme) {
                Err(ControlError::UnsafeRequest { reason: UnsafeReason::SchemeChanged })
            } else {
                match expanded(c.scoped_session->Some_0.baseline, ProfileName::TakeOver) {
                    Err(e) => Err(e),
                    Ok(restore) => Ok(restore + plan),
                }
            },
        }
    }
}

/// What stands against one step of a plan.
pub open spec fn step_refusal(c: ControlCoordinator, step: ControlCommand, feed: ThermalFeed, now: u64) -> Option<
    ControlError,
> {
    c.safety.refusal_under(step, c.caps, feed, false, now)
}

/// What stands against the first step that is refused, if any is.
pub open spec fn plan_refusal(c: ControlCoordinator, plan: Seq<ControlCommand>, feed: ThermalFeed, now: u64) -> Option<
    ControlError,
>
    decreases plan.len(),
{
    if plan.len() == 0 {
        None
    } else if step_refusal(c, plan[0], feed, now) is Some {
        step_refusal(c, plan[0], feed, now)
    } else {
        plan_refusal(c, plan.drop_first(), feed, now)
    }
}

/// The validated plan of a command.
pub open spec fn validated_plan(
    c: ControlCoordinator,
    cmd: ControlCommand,
    reads: ScopeReads,
    scheme: Option<String>,
    feed: ThermalFeed,
    now: u64,
) -> Result<Seq<ControlCommand>, ControlError> {
    match whole_plan(c, cmd, reads, scheme, feed, now) {
        Err(e) => Err(e),
        Ok(plan) => match plan_refusal(c, plan, feed, now) {
            Some(e) => Err(e),
            None => Ok(plan),
        },
    }
}

/// The number of leading steps that restore an automatic session.
pub open spec fn restore_steps(c: ControlCoordinator, cmd: ControlCommand) -> int {
    if takes_over(c, cmd) || (cmd is RestoreScopedProfile && c.scoped_session is Some) {
        profile_commands(c.scoped_session->Some_0.baseline).len() as int
    } else {
        0
    }
}

/// What has to be read before a command can begin.
#[derive(Clone, Copy, Debug, PartialEq, Eq, Structural)]
pub struct ScopeNeeds {
    pub epp: bool,
    pub epp1: bool,
    pub max_freq: bool,
    pub min_performance: bool,
    pub max_performance: bool,
    pub boost: bool,
    pub gpu: bool,
    /// The active power scheme.
    pub scheme: bool,
}

/// Nothing but the power scheme, if that.
pub open spec fn scheme_need(scheme: bool) -> ScopeNeeds {
    ScopeNeeds {
        epp: false,
        epp1: false,
        max_freq: false,
        min_performance: false,
        max_performance: false,
        boost: false,
        gpu: false,
        scheme,
    }
}

/// What has to be read before a command can begin: for an automatic session,
/// the settings that its profile names; for its restore, and for a command
/// that takes over from it, the power scheme.
pub open spec fn needed_reads(c: ControlCoordinator, cmd: ControlCommand) -> ScopeNeeds {
    if c.previous_recovery is Some && !(cmd is RestoreSession) {
        scheme_need(false)
    } else {
        match cmd {
            ControlCommand::ApplyScopedProfile { profile, .. } => match c.profiles.lookup(profile@) {
                Some(p) if c.scoped_session is None => ScopeNeeds {
                    epp: wanted(p.cpu.epp_ac, p.cpu.epp_dc),
                    epp1: wanted(p.cpu.epp1_ac, p.cpu.epp1_dc),
                    max_freq: wanted(p.cpu.max_freq_mhz_ac, p.cpu.max_freq_mhz_dc),
                    min_performance: wanted(p.cpu.min_performance_ac, p.cpu.min_performance_dc),
                    max_performance: wanted(p.cpu.max_performance_ac, p.cpu.max_performance_dc),
                    boost: wanted(p.cpu.spec_boost_ac(), p.cpu.spec_boost_dc()),
                    gpu: p.gpu_policy is Some && c.hp_present,
                    scheme: true,
                },
                _ => scheme_need(false),
            },
            ControlCommand::RestoreScopedProfile { session_id } => scheme_need(
                c.scoped_session matches Some(scope) && scope.id == session_id,
            ),
            _ => scheme_need(takes_over(c, cmd)),
        }
    }
}

fn only_scheme(scheme: bool) -> (r: ScopeNeeds)
    ensures
        r == scheme_need(scheme),
{
    ScopeNeeds {
        epp: false,
        epp1: false,
        max_freq: false,
        min_performance: false,
        max_performance: false,
        boost: false,
        gpu: false,
        scheme,
    }
}

/// What has to be read before a command can begin.
pub fn scope_needs(c: &ControlCoordinator, cmd: &ControlCommand) -> (r: ScopeNeeds)
    ensures
        r == needed_reads(*c, *cmd),
{
    if c.previous_recovery.is_some() && !matches!(cmd, ControlCommand::RestoreSession) {
        return only_scheme(false);
    }
    match cmd {
        ControlCommand::ApplyScopedProfile { profile, .. } => {
            if c.scoped_session.is_some() {
                return only_scheme(false);
            }
            match c.profiles.get(profile.as_str()) {
                Some(p) => ScopeNeeds {
                    epp: sides_wanted(&p.cpu.epp_ac, &p.cpu.epp_dc),
                    epp1: sides_wanted(&p.cpu.epp1_ac, &p.cpu.epp1_dc),
                    max_freq: sides_wanted(&p.cpu.max_freq_mhz_ac, &p.cpu.max_freq_mhz_dc),
                    min_performance: sides_wanted(&p.cpu.min_performance_ac, &p.cpu.min_performance_dc),
                    max_performance: sides_wanted(&p.cpu.max_performance_ac, &p.cpu.max_performance_dc),
                    boost: sides_wanted(&p.cpu.boost_ac(), &p.cpu.boost_dc()),
                    gpu: p.gpu_policy.is_some() && c.hp_present,
                    scheme: true,
                },
                None => only_scheme(false),
            }
        },
        ControlCommand::RestoreScopedProfile { session_id } => match &c.scoped_session {
            Some(scope) => only_scheme(scope.id == *session_id),
            None => only_scheme(false),
        },
        _ => only_scheme(is_take_over(c, cmd)),
    }
}

/// Two readings agree on what is needed.
pub open spec fn same_where_needed(
    needs: ScopeNeeds,
    a: ScopeReads,
    b: ScopeReads,
    scheme_a: Option<String>,
    scheme_b: Option<String>,
) -> bool {
    &&& needs.epp ==> a.epp == b.epp
    &&& needs.epp1 ==> a.epp1 == b.epp1
    &&& needs.max_freq ==> a.max_freq == b.max_freq
    &&& needs.min_performance ==> a.min_performance == b.min_performance
    &&& needs.max_performance ==> a.max_performance == b.max_performance
    &&& needs.boost ==> a.boost == b.boost
    &&& needs.gpu ==> a.gpu == b.gpu
    &&& needs.scheme ==> scheme_a == scheme_b
}

/// What need not be read does not matter: neither to whether a command is
/// accepted, nor to its steps, nor to what its session returns to.
pub proof fn unneeded_reads_do_not_matter(
    c: ControlCoordinator,
    cmd: ControlCommand,
    a: ScopeReads,
    b: ScopeReads,
    scheme_a: Option<String>,
    scheme_b: Option<String>,
    feed: ThermalFeed,
    now: u64,
)
    requires
        same_where_needed(needed_reads(c, cmd), a, b, scheme_a, scheme_b),
        !(cmd is RestoreScopedProfile && c.scoped_session is None),
    ensures
        validated_plan(c, cmd, a, scheme_a, feed, now) == validated_plan(c, cmd, b, scheme_b, feed, now),
        validated_plan(c, cmd, a, scheme_a, feed, now) is Ok ==> (
        cmd matches ControlCommand::ApplyScopedProfile { profile, session_id } ==> forall|scope: ScopedSession|
            fresh_scope(scope, session_id, profile, c, a, scheme_a, feed) == fresh_scope(
                scope,
                session_id,
                profile,
                c,
                b,
                scheme_b,
                feed,
            )),
{
}

/// A plan is validated as a whole: if it is accepted, no step of it is
/// refused.
pub proof fn accepted_plan_has_no_refused_step(
    c: ControlCoordinator,
    plan: Seq<ControlCommand>,
    feed: ThermalFeed,
    now: u64,
    i: int,
)
    requires
        plan_refusal(c, plan, feed, now) is None,
        0 <= i < plan.len(),
    ensures
        step_refusal(c, plan[i], feed, now) is None,
    decreases plan.len(),
{
    if i > 0 {
        accepted_plan_has_no_refused_step(c, plan.drop_first(), feed, now, i - 1);
        assert(plan.drop_first()[i - 1] == plan[i]);
    }
}

fn check_plan(c: &ControlCoordinator, plan: &Vec<ControlCommand>, feed: &ThermalFeed, now: u64) -> (r: Option<
    ControlError,
>)
    ensures
        r == plan_refusal(*c, plan@, *feed, now),
{
    let mut i: usize = 0;
    assert(plan@.skip(0) =~= plan@);
    while i < plan.len()
        invariant
            i <= plan@.len(),
            plan_refusal(*c, plan@, *feed, now) == plan_refusal(*c, plan@.skip(i as int), *feed, now),
        decreases plan@.len() - i,
    {
        assert(plan@.skip(i as int)[0] == plan@[i as int]);
        assert(plan@.skip(i as int).drop_first() =~= plan@.skip(i + 1));
        if let Err(e) = c.safety.validate_under(&plan[i], &c.caps, feed, false, now) {
            return Some(e);
        }
        i = i + 1;
    }
    None
}

fn named_commands(c: &ControlCoordinator, name: &String) -> (r: Result<Vec<ControlCommand>, ControlError>)
    ensures
        same_plan(r, named_plan(*c, *name)),
{
    match c.profiles.get(name.as_str()) {
        Some(p) => expand_definition(p, &ProfileName::Registered(name.clone())),
        None => Err(ControlError::UnknownProfile { name: name.clone() }),
    }
}

/// A computed plan is the specified one.
pub open spec fn same_plan(
    r: Result<Vec<ControlCommand>, ControlError>,
    s: Result<Seq<ControlCommand>, ControlError>,
) -> bool {
    match (r, s) {
        (Ok(plan), Ok(commands)) => plan@ == commands,
        (Err(e), Err(f)) => e == f,
        _ => false,
    }
}

/// A computed plan, and the baseline of an automatic session it starts.
struct Requested {
    plan: Vec<ControlCommand>,
    baseline: Option<PerformanceProfile>,
}

fn scoped_plan(
    c: &ControlCoordinator,
    profile: &String,
    reads: &ScopeReads,
    feed: &ThermalFeed,
    now: u64,
) -> (r: Result<Requested, ControlError>)
    requires
        c.scoped_session is None,
    ensures
        ({
            let cmd = ControlCommand::ApplyScopedProfile { profile: *profile, session_id: 0 };
            match requested_plan(*c, cmd, *reads, None, *feed, now) {
                Ok(commands) => (r matches Ok(q) && q.plan@ == commands && (q.baseline matches Some(b) && is_baseline(
                    b,
                    *c,
                    c.profiles.lookup(profile@)->Some_0,
                    *reads,
                    *feed,
                ))),
                Err(e) => r == Err::<Requested, ControlError>(e),
            }
        }),
{
    let p = match c.profiles.get(profile.as_str()) {
        Some(p) => p,
        None => return Err(ControlError::UnknownProfile { name: profile.clone() }),
    };
    let baseline = match capture_scope_baseline(c, p, reads, feed, now) {
        Ok(b) => b,
        Err(e) => return Err(e),
    };
    match expand_definition(p, &ProfileName::Registered(profile.clone())) {
        Ok(plan) => Ok(Requested { plan, baseline: Some(baseline) }),
        Err(e) => Err(e),
    }
}

fn scope_baseline_plan(c: &ControlCoordinator, name: ProfileName) -> (r: Result<Vec<ControlCommand>, ControlError>)
    requires
        c.scoped_session is Some,
    ensures
        same_plan(r, expanded(c.scoped_session->Some_0.baseline, name)),
{
    match &c.scoped_session {
        Some(scope) => expand_definition(&scope.baseline, &name),
        None => Err(ControlError::Unsupported),
    }
}

fn restore_commands(c: &ControlCoordinator, session_id: u64, scheme: &Option<String>) -> (r: Result<
    Vec<ControlCommand>,
    ControlError,
>)
    ensures
        same_plan(r, session_restore_plan(*c, session_id, *scheme)),
{
    let id = match &c.scoped_session {
        Some(scope) => scope.id,
        None => {
            let mut plan: Vec<ControlCommand> = Vec::new();
            plan.push(ControlCommand::SetCpuPolicy(CpuPolicy::default()));
            assert(plan@ =~= seq![ControlCommand::SetCpuPolicy(CpuPolicy::spec_empty())]);
            return Ok(plan);
        },
    };
    if id != session_id {
        return Err(ControlError::UnsafeRequest { reason: UnsafeReason::ScopeExpired });
    }
    if let Err(e) = validate_scope_scheme(c, scheme) {
        return Err(e);
    }
    scope_baseline_plan(c, ProfileName::SessionRestore)
}

fn request_plan(
    c: &ControlCoordinator,
    cmd: &ControlCommand,
    reads: &ScopeReads,
    scheme: &Option<String>,
    feed: &ThermalFeed,
    now: u64,
) -> (r: Result<Requested, ControlError>)
    ensures
        match requested_plan(*c, *cmd, *reads, *scheme, *feed, now) {
            Ok(commands) => (r matches Ok(q) && q.plan@ == commands && (q.baseline is Some <==> *cmd is ApplyScopedProfile)
                && (*cmd matches ControlCommand::ApplyScopedProfile { profile, .. } ==> is_baseline(
                q.baseline->Some_0,
                *c,
                c.profiles.lookup(profile@)->Some_0,
                *reads,
                *feed,
            ))),
            Err(e) => r == Err::<Requested, ControlError>(e),
        },
{
    let plan = match cmd {
        ControlCommand::ApplyScopedProfile { profile, .. } => {
            if c.scoped_session.is_some() {
                return Err(ControlError::Busy);
            }
            return scoped_plan(c, profile, reads, feed, now);
        },
        ControlCommand::RestoreScopedProfile { session_id } => restore_commands(c, *session_id, scheme),
        ControlCommand::ApplyProfile { profile } => named_commands(c, profile),
        ControlCommand::ApplyProfileDefinition { profile } => expand_definition(profile, &ProfileName::Draft),
        _ => {
            let mut plan: Vec<ControlCommand> = Vec::new();
            plan.push(cmd.clone());
            assert(plan@ =~= seq![*cmd]);
            Ok(plan)
        },
    };
    match plan {
        Ok(plan) => Ok(Requested { plan, baseline: None }),
        Err(e) => Err(e),
    }
}

fn is_take_over(c: &ControlCoordinator, cmd: &ControlCommand) -> (r: bool)
    ensures
        r == takes_over(*c, *cmd),
{
    c.scoped_session.is_some() && !matches!(
        cmd,
        ControlCommand::ApplyScopedProfile { .. } | ControlCommand::RestoreScopedProfile { .. }
            | ControlCommand::RestoreSession
    )
}

fn append_plan(first: Vec<ControlCommand>, second: Vec<ControlCommand>) -> (r: Vec<ControlCommand>)
    ensures
        r@ == first@ + second@,
{
    let mut first = first;
    let mut second = second;
    first.append(&mut second);
    first
}

/// A plan that passed validation.
struct Accepted {
    plan: Vec<ControlCommand>,
    baseline: Option<PerformanceProfile>,
    restore_scope_steps: usize,
}

fn accept_plan(
    c: &ControlCoordinator,
    cmd: &ControlCommand,
    reads: &ScopeReads,
    scheme: &Option<String>,
    feed: &ThermalFeed,
    now: u64,
) -> (r: Result<Accepted, ControlError>)
    ensures
        match validated_plan(*c, *cmd, *reads, *scheme, *feed, now) {
            Ok(commands) => (r matches Ok(q) && q.plan@ == commands && q.restore_scope_steps == restore_steps(*c, *cmd)
                && q.restore_scope_steps <= commands.len() && (q.baseline is Some <==> *cmd is ApplyScopedProfile) && (
            *cmd matches ControlCommand::ApplyScopedProfile { profile, .. } ==> is_baseline(
                q.baseline->Some_0,
                *c,
                c.profiles.lookup(profile@)->Some_0,
                *reads,
                *feed,
            ))),
            Err(e) => r == Err::<Accepted, ControlError>(e),
        },
{
    if c.previous_recovery.is_some() && !matches!(cmd, ControlCommand::RestoreSession) {
        return Err(ControlError::UnsafeRequest { reason: UnsafeReason::SessionNotRestored });
    }
    let requested = match request_plan(c, cmd, reads, scheme, feed, now) {
        Ok(q) => q,
        Err(e) => return Err(e),
    };
    let mut restore_scope_steps: usize = 0;
    let mut plan = requested.plan;
    if c.scoped_session.is_some() {
        if let ControlCommand::RestoreScopedProfile { .. } = cmd {
            restore_scope_steps = plan.len();
        }
    }
    if is_take_over(c, cmd) {
        if let Err(e) = validate_scope_scheme(c, scheme) {
            return Err(e);
        }
        match scope_baseline_plan(c, ProfileName::TakeOver) {
            Ok(restore) => {
                restore_scope_steps = restore.len();
                plan = append_plan(restore, plan);
            },
            Err(e) => return Err(e),
        }
    }
    if let Some(e) = check_plan(c, &plan, feed, now) {
        return Err(e);
    }
    Ok(Accepted { plan, baseline: requested.baseline, restore_scope_steps })
}

/// Where a plan stands.
#[derive(Debug, PartialEq)]
pub enum PlanStage {
    /// The next step is to be started.
    Ready,
    /// A step is under way.
    Executing(ExecRun),
    /// The last step's effect is still to be read back.
    Waiting(PendingVerification),
    /// The ledger without the automatic session is being saved.
    ScopeSaving,
    /// The plan is over; its ledger is being saved.
    Finishing(ControlStatus),
    Ended,
}

/// A plan under way.
#[derive(Debug, PartialEq)]
pub struct ActivePlan {
    pub receipt: ControlReceipt,
    pub command: ControlCommand,
    pub plan: Vec<ControlCommand>,
    pub index: usize,
    pub steps: Vec<StepOutcome>,
    /// Evidence of a hand-back that a step ended in.
    pub scratch: Vec<StepOutcome>,
    pub weakest: Verification,
    pub started: u64,
    pub epoch: u64,
    /// How many leading steps restore an automatic session.
    pub restore_scope_steps: usize,
    pub stage: PlanStage,
}

/// How a command begins.
#[derive(Debug, PartialEq)]
pub enum Begun {
    /// Answered at once, without a trace: there was nothing to do.
    Answered(ControlOutcome),
    /// Rejected before any write; the outcome is journaled.
    Rejected(ControlOutcome),
    Started(ActivePlan),
    /// Started once the ledger with the automatic session has been saved.
    Saving(ActivePlan, RecoveryRecord),
}

/// An outcome without steps.
pub open spec fn bare_outcome(
    o: ControlOutcome,
    receipt: ControlReceipt,
    cmd: ControlCommand,
    status: ControlStatus,
    duration: int,
) -> bool {
    o.receipt == receipt && o.command == cmd && o.status == status && o.steps@.len() == 0 && o.duration == duration
}

/// A plan at its beginning.
pub open spec fn fresh_plan(
    p: ActivePlan,
    receipt: ControlReceipt,
    cmd: ControlCommand,
    commands: Seq<ControlCommand>,
    c: ControlCoordinator,
    started: u64,
) -> bool {
    &&& p.receipt == receipt
    &&& p.command == cmd
    &&& p.plan@ == commands
    &&& p.index == 0
    &&& p.steps@.len() == 0
    &&& p.scratch@.len() == 0
    &&& p.weakest is Skipped
    &&& p.started == started
    &&& p.epoch == c.control_epoch
    &&& p.restore_scope_steps == restore_steps(c, cmd)
    &&& p.stage is Ready
}

/// The automatic session that a command starts.
pub open spec fn fresh_scope(
    scope: ScopedSession,
    session_id: u64,
    profile: String,
    c: ControlCoordinator,
    reads: ScopeReads,
    scheme: Option<String>,
    feed: ThermalFeed,
) -> bool {
    &&& scope.id == session_id
    &&& is_baseline(scope.baseline, c, c.profiles.lookup(profile@)->Some_0, reads, feed)
    &&& scope.previous_profile == c.desired.profile
    &&& scope.scheme == scheme
}

pub(crate) fn outcome_without_steps(
    receipt: ControlReceipt,
    command: ControlCommand,
    status: ControlStatus,
    duration: u64,
) -> (r: ControlOutcome)
    ensures
        bare_outcome(r, receipt, command, status, duration as int),
{
    ControlOutcome { receipt, command, status, steps: Vec::new(), duration }
}

/// Begins a command: it is expanded, validated as a whole, and rejected
/// before any write if any part of it is refused. It was taken up at
/// `started`, before anything was read for it.
pub fn begin_plan(
    c: &mut ControlCoordinator,
    receipt: ControlReceipt,
    cmd: ControlCommand,
    reads: &ScopeReads,
    scheme: Option<String>,
    feed: &ThermalFeed,
    started: u64,
    now: u64,
) -> (r: Begun)
    ensures
        cmd is RestoreScopedProfile && old(c).scoped_session is None ==> *final(c) == *old(c) && (
        r matches Begun::Answered(o) && bare_outcome(
            o,
            receipt,
            cmd,
            ControlStatus::Applied { verification: Verification::Skipped },
            0,
        )),
        !(cmd is RestoreScopedProfile && old(c).scoped_session is None) ==> match validated_plan(
            *old(c),
            cmd,
            *reads,
            scheme,
            *feed,
            now,
        ) {
            Err(error) => *final(c) == *old(c) && (r matches Begun::Rejected(o) && bare_outcome(
                o,
                receipt,
                cmd,
                ControlStatus::Rejected { error },
                age(now, started),
            )),
            Ok(commands) => match cmd {
                ControlCommand::ApplyScopedProfile { profile, session_id } => {
                    &&& *final(c) == (ControlCoordinator { scoped_session: final(c).scoped_session, ..*old(c) })
                    &&& final(c).scoped_session matches Some(scope) && fresh_scope(
                        scope,
                        session_id,
                        profile,
                        *old(c),
                        *reads,
                        scheme,
                        *feed,
                    )
                    &&& r matches Begun::Saving(plan, ledger) && fresh_plan(
                        plan,
                        receipt,
                        cmd,
                        commands,
                        *old(c),
                        started,
                    ) && plan.wf(*final(c)) && ledger == final(c).spec_ledger()
                },
                _ => *final(c) == *old(c) && (r matches Begun::Started(plan) && fresh_plan(
                    plan,
                    receipt,
                    cmd,
                    commands,
                    *old(c),
                    started,
                ) && plan.wf(*final(c))),
            },
        },
{
    if c.scoped_session.is_none() {
        if let ControlCommand::RestoreScopedProfile { .. } = &cmd {
            return Begun::Answered(
                outcome_without_steps(
                    receipt,
                    cmd,
                    ControlStatus::Applied { verification: Verification::Skipped },
                    0,
                ),
            );
        }
    }
    let accepted = match accept_plan(c, &cmd, reads, &scheme, feed, now) {
        Ok(q) => q,
        Err(error) => {
            return Begun::Rejected(
                outcome_without_steps(receipt, cmd, ControlStatus::Rejected { error }, elapsed(now, started)),
            );
        },
    };
    proof {
        validated_plan_is_nonempty(*c, cmd, *reads, scheme, *feed, now);
    }
    let session_id: Option<u64> = match &cmd {
        ControlCommand::ApplyScopedProfile { session_id, .. } => Some(*session_id),
        _ => None,
    };
    let plan = ActivePlan {
        receipt,
        command: cmd,
        plan: accepted.plan,
        index: 0,
        steps: Vec::new(),
        scratch: Vec::new(),
        weakest: Verification::Skipped,
        started,
        epoch: c.control_epoch,
        restore_scope_steps: accepted.restore_scope_steps,
        stage: PlanStage::Ready,
    };
    match (session_id, accepted.baseline) {
        (Some(id), Some(baseline)) => {
            c.scoped_session = Some(
                ScopedSession { id, baseline, previous_profile: c.desired.profile.clone(), scheme },
            );
            let ledger = c.ledger();
            Begun::Saving(plan, ledger)
        },
        _ => Begun::Started(plan),
    }
}

/// A validated plan has at least one step.
pub proof fn validated_plan_is_nonempty(
    c: ControlCoordinator,
    cmd: ControlCommand,
    reads: ScopeReads,
    scheme: Option<String>,
    feed: ThermalFeed,
    now: u64,
)
    requires
        validated_plan(c, cmd, reads, scheme, feed, now) is Ok,
    ensures
        validated_plan(c, cmd, reads, scheme, feed, now)->Ok_0.len() > 0,
        restore_steps(c, cmd) <= validated_plan(c, cmd, reads, scheme, feed, now)->Ok_0.len(),
{
}

impl ActivePlan {
    /// The plan's position and operation are consistent.
    pub open spec fn wf(self, c: ControlCoordinator) -> bool {
        match self.stage {
            PlanStage::Ready => self.index < self.plan@.len(),
            PlanStage::Executing(run) => self.index < self.plan@.len() && run.wf(c),
            PlanStage::Waiting(_) => self.index < self.plan@.len(),
            PlanStage::ScopeSaving => self.index <= self.plan@.len(),
            _ => true,
        }
    }
}

} // verus!
