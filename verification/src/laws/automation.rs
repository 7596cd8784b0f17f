//! The rules at work: when a choice becomes a session, and when a session
//! ends.
use vstd::prelude::*;

use crate::automation::{
    following, same_choice, ActiveSession, AutomationConfig, AutomationMessage, AutomationSnapshot, AutomationWorker,
    Transition,
};
use crate::domain::automatic::PowerSource;
use crate::domain::command::{ControlCommand, ControlStatus};
use crate::domain::os_policy::ProcessInfo;
use crate::laws::execution::went_well;

verus! {

/// Two choices are the same if both are nothing, or both the same name.
pub proof fn choices_are_compared_by_name(a: Option<String>, b: Option<String>)
    ensures
        same_choice(a, b) <==> (a is None && b is None) || (a is Some && b is Some && a->Some_0@ == b->Some_0@),
{
}

/// A paused user and an unreadable process list choose nothing; else the rules
/// choose.
pub proof fn rules_choose_unless_paused(
    w: AutomationWorker,
    config: AutomationConfig,
    power: PowerSource,
    processes: Option<Seq<ProcessInfo>>,
)
    ensures
        w.paused_by_manual || processes is None ==> w.spec_selected(config, power, processes) is None,
        !w.paused_by_manual && processes is Some ==> w.spec_selected(config, power, processes)
            == crate::automation::chosen_profile(config, power, processes->Some_0),
{
}

/// A scan is due a second after the last one, while nothing is under way and
/// no restore has failed, as long as there are rules or a session.
pub proof fn scans_are_due(w: AutomationWorker, config: AutomationConfig, power: PowerSource, selected: Option<String>, now: u64, t: u64)
    ensures
        w.spec_scan_due(config, t) <==> t >= w.next_scan && w.pending is None && !w.recovery_failed && (config.enabled
            || w.active is Some),
        now + 1_000 <= u64::MAX ==> w.spec_scanned(power, selected, now).next_scan == now + 1_000,
{
}

/// A new choice starts its second anew; the same one goes on waiting. Nothing
/// else changes but the power source and the next scan.
pub proof fn choices_have_to_hold(w: AutomationWorker, power: PowerSource, selected: Option<String>, now: u64)
    ensures
        ({
            let s = w.spec_scanned(power, selected, now);
            &&& s.power == power
            &&& same_choice(selected, w.candidate) ==> s.candidate == w.candidate && s.candidate_since
                == w.candidate_since
            &&& !same_choice(selected, w.candidate) ==> s.candidate == selected && s.candidate_since == now
            &&& s == (AutomationWorker {
                power,
                next_scan: s.next_scan,
                candidate: s.candidate,
                candidate_since: s.candidate_since,
                ..w
            })
        }),
{
}

/// A choice that has held for a second ends an active session of another
/// profile; without one it begins a session under the next number. A session
/// of the chosen profile goes on.
pub proof fn held_choices_change_the_session(w: AutomationWorker, now: u64)
    ensures
        ({
            let held = now - w.candidate_since >= 1_000;
            &&& !held ==> w.spec_command(now) is None
            &&& held && w.active is Some ==> w.spec_command(now) == (if w.candidate is Some && w.candidate->Some_0@
                == w.active->Some_0.profile@ {
                None::<ControlCommand>
            } else {
                Some(ControlCommand::RestoreScopedProfile { session_id: w.active->Some_0.id })
            })
            &&& held && w.active is None ==> w.spec_command(now) == (match w.candidate {
                Some(profile) => Some(ControlCommand::ApplyScopedProfile { profile, session_id: w.next_id }),
                None => None,
            })
        }),
        following(w.next_id) == w.next_id + 1 || (w.next_id == u64::MAX && following(w.next_id) == 0),
{
}

/// A session that has begun is active, whether it went well or not; one that
/// has ended is gone only if it went well. What did not go well pauses the
/// rules and says so, and a failed end stops them.
pub proof fn finished_changes(w: AutomationWorker, id: u64, profile: String, status: ControlStatus)
    ensures
        ({
            let b = w.spec_finished(Transition::Begin(id, profile), status);
            let e = w.spec_finished(Transition::End(id), status);
            let good = went_well(status);
            &&& b.active == Some(ActiveSession { id, profile }) && b.pending is None && e.pending is None
            &&& b.recovery_failed == w.recovery_failed
            &&& good ==> e.active is None && b.paused_by_manual == w.paused_by_manual && e.paused_by_manual
                == w.paused_by_manual && e.recovery_failed == w.recovery_failed && b.message == w.message && e.message
                == w.message
            &&& !good ==> e.active == w.active && b.paused_by_manual && e.paused_by_manual && e.recovery_failed
                && b.message == Some(AutomationMessage::Incomplete(status)) && e.message == Some(
                AutomationMessage::Incomplete(status),
            )
            &&& b.candidate == w.candidate && e.candidate == w.candidate && b.next_id == w.next_id && e.next_id == w.next_id
        }),
{
}

/// A state of the rules of which nothing is known.
pub proof fn rules_are_unknown_at_first(s: AutomationSnapshot)
    ensures
        s.blank() ==> {
            &&& !s.initialized && !s.config.enabled && !s.config.battery_efficiency && !s.paused_by_manual
            &&& s.config.ac_profile is None && s.config.battery_profile is None && s.config.applications@.len() == 0
            &&& s.active_profile is None && s.power is Unknown && s.message is None
            &&& s.process_policy.mode is Off && s.process_policy.phase is Disabled && s.process_policy.power is None
            &&& s.process_policy.managed_processes == 0 && s.process_policy.skipped_manual == 0
            &&& s.process_policy.last_error is None && s.process_policy.last_reconcile_at_epoch_ms is None
        },
{
}

} // verus!
