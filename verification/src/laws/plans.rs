//! Plans: what a command becomes, and when it is rejected before any write.
use vstd::prelude::*;

use crate::control::coordinator::{profile_commands, ControlCoordinator};
use crate::control::plan::{fresh_scope, plan_refusal, restore_steps, validated_plan, whole_plan};
use crate::control::recovery::ScopedSession;
use crate::control::safety::ThermalFeed;
use crate::control::scope::{scope_refusal, ScopeReads};
use crate::domain::command::ControlCommand;
use crate::domain::error::{ControlError, ProfileName, UnsafeReason};
use crate::domain::profile::PerformanceProfile;

verus! {

/// What speaks against one step, with the overlay left aside.
pub open spec fn against(c: ControlCoordinator, step: ControlCommand, feed: ThermalFeed, now: u64) -> Option<ControlError> {
    c.safety.refusal_under(step, c.caps, feed, false, now)
}

/// A plan is refused for the first step that anything speaks against, and
/// only then.
pub proof fn the_first_refused_step_counts(c: ControlCoordinator, plan: Seq<ControlCommand>, feed: ThermalFeed, now: u64, i: int)
    requires
        0 <= i <= plan.len(),
        forall|k: int| 0 <= k < i ==> against(c, #[trigger] plan[k], feed, now) is None,
        i < plan.len() ==> against(c, plan[i], feed, now) is Some,
    ensures
        plan_refusal(c, plan, feed, now) == (if i < plan.len() { against(c, plan[i], feed, now) } else { None }),
    decreases plan.len(),
{
    if plan.len() > 0 && i > 0 {
        assert(against(c, plan[0], feed, now) is None);
        let rest = plan.drop_first();
        assert forall|k: int| 0 <= k < i - 1 implies against(c, #[trigger] rest[k], feed, now) is None by {
            assert(rest[k] == plan[k + 1]);
        }
        the_first_refused_step_counts(c, rest, feed, now, i - 1);
    }
}

proof fn admitted_plans(c: ControlCoordinator, plan: Seq<ControlCommand>, feed: ThermalFeed, now: u64)
    ensures
        plan_refusal(c, plan, feed, now) is None <==> forall|k: int|
            0 <= k < plan.len() ==> against(c, #[trigger] plan[k], feed, now) is None,
    decreases plan.len(),
{
    if plan.len() > 0 {
        let rest = plan.drop_first();
        admitted_plans(c, rest, feed, now);
        if plan_refusal(c, plan, feed, now) is None {
            assert forall|k: int| 0 <= k < plan.len() implies against(c, #[trigger] plan[k], feed, now) is None by {
                if k > 0 {
                    assert(rest[k - 1] == plan[k]);
                }
            }
        }
        if forall|k: int| 0 <= k < plan.len() ==> against(c, #[trigger] plan[k], feed, now) is None {
            assert(against(c, plan[0], feed, now) is None);
            assert forall|k: int| 0 <= k < rest.len() implies against(c, #[trigger] rest[k], feed, now) is None by {
                assert(rest[k] == plan[k + 1]);
            }
        }
    }
}

/// What a profile with commands becomes; one without is refused.
pub open spec fn profile_plan(p: PerformanceProfile, name: ProfileName) -> Result<Seq<ControlCommand>, ControlError> {
    if profile_commands(p).len() > 0 {
        Ok(profile_commands(p))
    } else {
        Err(ControlError::UnsafeRequest { reason: UnsafeReason::EmptyProfile { name } })
    }
}

/// While an earlier session has not been restored, nothing but its restore
/// begins.
pub proof fn earlier_sessions_come_first(
    c: ControlCoordinator,
    cmd: ControlCommand,
    reads: ScopeReads,
    scheme: Option<String>,
    feed: ThermalFeed,
    now: u64,
)
    requires
        c.previous_recovery is Some,
        !(cmd is RestoreSession),
    ensures
        validated_plan(c, cmd, reads, scheme, feed, now) == Err::<Seq<ControlCommand>, ControlError>(
            ControlError::UnsafeRequest { reason: UnsafeReason::SessionNotRestored },
        ),
{
}

/// Without a session, a setting is its own plan; a profile is its commands,
/// whether registered, unknown or drafted.
pub proof fn plans_without_a_session(
    c: ControlCoordinator,
    cmd: ControlCommand,
    reads: ScopeReads,
    scheme: Option<String>,
    feed: ThermalFeed,
    now: u64,
)
    requires
        c.previous_recovery is None,
        c.scoped_session is None,
        !(cmd is ApplyScopedProfile) && !(cmd is RestoreScopedProfile),
    ensures
        whole_plan(c, cmd, reads, scheme, feed, now) == (match cmd {
            ControlCommand::ApplyProfile { profile } => match c.profiles.lookup(profile@) {
                Some(p) => profile_plan(p, ProfileName::Registered(profile)),
                None => Err::<Seq<ControlCommand>, ControlError>(ControlError::UnknownProfile { name: profile }),
            },
            ControlCommand::ApplyProfileDefinition { profile } => profile_plan(profile, ProfileName::Draft),
            _ => Ok(seq![cmd]),
        }),
        restore_steps(c, cmd) == 0,
{
}

/// A plan is accepted exactly if there is one and nothing speaks against any
/// of its steps, and then it is carried out as it is.
pub proof fn plans_are_accepted_as_a_whole(
    c: ControlCoordinator,
    cmd: ControlCommand,
    reads: ScopeReads,
    scheme: Option<String>,
    feed: ThermalFeed,
    now: u64,
)
    ensures
        ({
            let (whole, accepted) = (
                whole_plan(c, cmd, reads, scheme, feed, now),
                validated_plan(c, cmd, reads, scheme, feed, now),
            );
            &&& accepted is Ok <==> whole is Ok && forall|k: int|
                0 <= k < whole->Ok_0.len() ==> against(c, #[trigger] whole->Ok_0[k], feed, now) is None
            &&& accepted is Ok ==> accepted == whole
            &&& whole is Err ==> accepted == whole
        }),
{
    if let Ok(plan) = whole_plan(c, cmd, reads, scheme, feed, now) {
        admitted_plans(c, plan, feed, now);
    }
}

/// The power scheme is the one that the session was started under.
pub open spec fn scheme_stays(session: ScopedSession, scheme: Option<String>) -> bool {
    session.scheme is None || (scheme is Some && scheme->Some_0@ == session.scheme->Some_0@)
}

/// During a session, a command of the user first puts back what the session
/// replaced: its plan is the baseline's commands, then its own. A changed
/// power scheme refuses it.
pub proof fn taking_over_restores_first(
    c: ControlCoordinator,
    cmd: ControlCommand,
    reads: ScopeReads,
    scheme: Option<String>,
    feed: ThermalFeed,
    now: u64,
)
    requires
        c.previous_recovery is None,
        c.scoped_session is Some,
        !(cmd is ApplyScopedProfile) && !(cmd is RestoreScopedProfile) && !(cmd is RestoreSession),
    ensures
        ({
            let session = c.scoped_session->Some_0;
            let alone = whole_plan(ControlCoordinator { scoped_session: None, ..c }, cmd, reads, scheme, feed, now);
            let whole = whole_plan(c, cmd, reads, scheme, feed, now);
            &&& alone is Err ==> whole == alone
            &&& alone is Ok && !scheme_stays(session, scheme) ==> whole == Err::<Seq<ControlCommand>, ControlError>(
                ControlError::UnsafeRequest { reason: UnsafeReason::SchemeChanged },
            )
            &&& alone is Ok && scheme_stays(session, scheme) && profile_commands(session.baseline).len() > 0 ==> whole
                == Ok::<Seq<ControlCommand>, ControlError>(profile_commands(session.baseline) + alone->Ok_0)
            &&& restore_steps(c, cmd) == profile_commands(session.baseline).len()
        }),
{
}

/// A session ends by putting back its baseline: only for the session that was
/// asked for, and under its own power scheme.
pub proof fn ending_a_session(
    c: ControlCoordinator,
    session_id: u64,
    reads: ScopeReads,
    scheme: Option<String>,
    feed: ThermalFeed,
    now: u64,
)
    requires
        c.previous_recovery is None,
        c.scoped_session is Some,
    ensures
        ({
            let session = c.scoped_session->Some_0;
            let cmd = ControlCommand::RestoreScopedProfile { session_id };
            &&& whole_plan(c, cmd, reads, scheme, feed, now) == (if session.id != session_id {
                Err::<Seq<ControlCommand>, ControlError>(
                    ControlError::UnsafeRequest { reason: UnsafeReason::ScopeExpired },
                )
            } else if !scheme_stays(session, scheme) {
                Err(ControlError::UnsafeRequest { reason: UnsafeReason::SchemeChanged })
            } else {
                profile_plan(session.baseline, ProfileName::SessionRestore)
            })
            &&& restore_steps(c, cmd) == profile_commands(session.baseline).len()
        }),
{
}

/// A session starts with the commands of its profile; not during another one,
/// not for an unknown profile, and not where what it replaces cannot be
/// captured.
pub proof fn starting_a_session(
    c: ControlCoordinator,
    profile: String,
    session_id: u64,
    reads: ScopeReads,
    scheme: Option<String>,
    feed: ThermalFeed,
    now: u64,
)
    requires
        c.previous_recovery is None,
    ensures
        whole_plan(c, ControlCommand::ApplyScopedProfile { profile, session_id }, reads, scheme, feed, now) == (
        if c.scoped_session is Some {
            Err::<Seq<ControlCommand>, ControlError>(ControlError::Busy)
        } else if c.profiles.lookup(profile@) is None {
            Err(ControlError::UnknownProfile { name: profile })
        } else if scope_refusal(c, c.profiles.lookup(profile@)->Some_0, reads, feed, now) is Some {
            Err(scope_refusal(c, c.profiles.lookup(profile@)->Some_0, reads, feed, now)->Some_0)
        } else {
            profile_plan(c.profiles.lookup(profile@)->Some_0, ProfileName::Registered(profile))
        }),
{
}

/// A session remembers its number, its power scheme and the profile before it.
pub proof fn sessions_remember(
    session: ScopedSession,
    session_id: u64,
    profile: String,
    c: ControlCoordinator,
    reads: ScopeReads,
    scheme: Option<String>,
    feed: ThermalFeed,
)
    requires
        fresh_scope(session, session_id, profile, c, reads, scheme, feed),
    ensures
        session.id == session_id,
        session.scheme == scheme,
        session.previous_profile == c.desired.profile,
{
}

} // verus!
