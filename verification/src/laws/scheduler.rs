//! The battery scheduler: which processes it takes, keeps and gives back.
use vstd::prelude::*;

use crate::automatic_scheduler::{
    ascending, candidates, count_of, kept, last_failure, last_position, managed_action, placed, session_of, staying,
    targets, with_taken, ApplyResult, AutomaticWorker, ManagedAction, ManagedProcess, ProcessIdentity, RestoreAll,
    SchedulerError, Surroundings,
};
use crate::domain::automatic::{AutomaticMode, AutomaticPhase, PowerContext, PowerSource};
use crate::domain::os_policy::ProcessInfo;
use crate::text::{at_or_below, equal_ignoring_case};

verus! {

/// A remembered process is recognised by its path, without regard to case, and
/// by the moment at which it began.
pub proof fn processes_are_recognised(id: ProcessIdentity, p: ProcessInfo)
    ensures
        p.executable is Some ==> (id.identifies(p) <==> equal_ignoring_case(id.executable@, p.executable->Some_0@) && (
        id.creation_time is None || id.creation_time == p.creation_time)),
        p.executable is None ==> (id.identifies(p) <==> id.executable@.len() == 0 && (id.creation_time is None
            || id.creation_time == p.creation_time)),
{
}

/// The process may be taken: it is another one of this session, can be told
/// apart, and is not a part of the system.
pub open spec fn may_be_taken(p: ProcessInfo, s: Surroundings) -> bool {
    &&& p.pid != 0 && p.pid != s.own_pid
    &&& p.session_id is Some && p.session_id == s.current_session
    &&& p.executable is Some && p.creation_time is Some
    &&& !at_or_below(p.executable->Some_0@, s.windir@)
    &&& !crate::automatic_scheduler::critical_name(p.name@)
}

/// This program's own processes, the shell, and the services that the desktop
/// stands on.
pub open spec fn stands_on(name: Seq<char>) -> bool {
    ||| name == "phelper-desktop.exe"@
    ||| name == "phelper-cli.exe"@
    ||| name == "phelper.exe"@
    ||| name == "explorer.exe"@
    ||| name == "dwm.exe"@
    ||| name == "audiodg.exe"@
    ||| name == "csrss.exe"@
    ||| name == "wininit.exe"@
    ||| name == "winlogon.exe"@
    ||| name == "services.exe"@
    ||| name == "lsass.exe"@
    ||| name == "smss.exe"@
    ||| name == "svchost.exe"@
    ||| name == "fontdrvhost.exe"@
    ||| name == "runtimebroker.exe"@
    ||| name == "sihost.exe"@
    ||| name == "searchhost.exe"@
    ||| name == "startmenuexperiencehost.exe"@
    ||| name == "shellexperiencehost.exe"@
    ||| name == "textinputhost.exe"@
    ||| name == "ctfmon.exe"@
    ||| name == "conhost.exe"@
    ||| name == "msmpeng.exe"@
    ||| name == "wmiprvse.exe"@
}

/// A process is critical exactly if its name, whatever its case, is one of
/// those that this program or the desktop stands on.
pub proof fn own_and_system_processes_are_critical(name: Seq<char>)
    ensures
        crate::automatic_scheduler::critical_name(name) <==> exists|n: Seq<char>|
            stands_on(n) && #[trigger] equal_ignoring_case(name, n),
{
}

/// The last entry of a list with an identifier is the one that counts.
pub proof fn the_last_entry_counts(processes: Seq<ProcessInfo>, pid: u32)
    ensures
        ({
            let i = last_position(processes, pid);
            &&& -1 <= i < processes.len()
            &&& i >= 0 ==> processes[i].pid == pid
            &&& forall|k: int| i < k < processes.len() ==> (#[trigger] processes[k]).pid != pid
        }),
    decreases processes.len(),
{
    if processes.len() > 0 && processes.last().pid != pid {
        the_last_entry_counts(processes.drop_last(), pid);
        let i = last_position(processes.drop_last(), pid);
        assert forall|k: int| i < k < processes.len() implies (#[trigger] processes[k]).pid != pid by {
            if k < processes.len() - 1 {
                assert(processes.drop_last()[k] == processes[k]);
            }
        }
    }
}

/// The session of this program is that of the first entry with its identifier.
pub proof fn the_own_session(processes: Seq<ProcessInfo>, own_pid: u32, k: int)
    requires
        0 <= k <= processes.len(),
        forall|i: int| 0 <= i < k ==> (#[trigger] processes[i]).pid != own_pid,
        k < processes.len() ==> processes[k].pid == own_pid,
    ensures
        session_of(processes, own_pid) == (if k < processes.len() { processes[k].session_id } else { None }),
    decreases processes.len(),
{
    if k > 0 {
        assert(processes[0].pid != own_pid);
        the_own_session(processes.drop_first(), own_pid, k - 1);
    }
}

/// What is put into an ordered list stands there once, and everything with
/// another identifier stays.
proof fn putting_in(front: Seq<ManagedProcess>, m: ManagedProcess, x: ManagedProcess)
    requires
        ascending(front),
    ensures
        placed(front, m).contains(x) <==> x == m || (front.contains(x) && x.pid != m.pid),
        ascending(placed(front, m)),
{
    crate::automatic_scheduler::placing_keeps_the_order(front, m);
    let p = placed(front, m);
    if front.contains(x) && x.pid != m.pid {
        let i = choose|i: int| 0 <= i < front.len() && front[i] == x;
        assert(p.contains(front[i]));
    }
    if p.contains(x) && x != m {
        let i = choose|i: int| 0 <= i < p.len() && p[i] == x;
        assert(p[i] == m || front.contains(p[i]));
        let j = choose|j: int| 0 <= j < p.len() && p[j] == m;
        if x.pid == m.pid {
            if i < j {
                assert(p[i].pid < p[j].pid);
            } else {
                assert(p[j].pid < p[i].pid);
            }
        }
    }
}

/// The target is entry `i`, under its path and the moment it began, and no
/// later entry with its identifier may be taken.
pub open spec fn stands_for(processes: Seq<ProcessInfo>, i: int, s: Surroundings, x: ManagedProcess) -> bool {
    &&& 0 <= i < processes.len()
    &&& may_be_taken(processes[i], s)
    &&& x.pid == processes[i].pid
    &&& x.identity.executable == processes[i].executable->Some_0
    &&& x.identity.creation_time == processes[i].creation_time
    &&& forall|k: int| i < k < processes.len() ==> (#[trigger] processes[k]).pid == x.pid ==> !may_be_taken(processes[k], s)
}

/// The candidates are exactly the processes that may be taken, the last such
/// entry of each identifier, under their path and the moment they began.
pub proof fn candidates_may_be_taken(processes: Seq<ProcessInfo>, s: Surroundings, x: ManagedProcess)
    ensures
        ascending(candidates(processes, s)),
        candidates(processes, s).contains(x) <==> exists|i: int| #[trigger] stands_for(processes, i, s, x),
    decreases processes.len(),
{
    if processes.len() > 0 {
        let front = processes.drop_last();
        let last = processes.last();
        let n = processes.len() - 1;
        candidates_may_be_taken(front, s, x);
        assert(forall|i: int| 0 <= i < n ==> front[i] == processes[i]);
        if may_be_taken(last, s) {
            let m = crate::automatic_scheduler::target_of(last);
            putting_in(candidates(front, s), m, x);
            if x == m {
                assert(processes[n] == last);
            }
        }
        if candidates(processes, s).contains(x) {
            if may_be_taken(last, s) && x == crate::automatic_scheduler::target_of(last) {
                assert(stands_for(processes, n, s, x));
            } else {
                let i = choose|i: int| stands_for(front, i, s, x);
                assert(front[i] == processes[i]);
                assert forall|k: int| i < k < processes.len() && (#[trigger] processes[k]).pid == x.pid implies !may_be_taken(
                    processes[k],
                    s,
                ) by {
                    if k < n {
                        assert(front[k] == processes[k]);
                    }
                }
                assert(stands_for(processes, i, s, x));
            }
        }
        if exists|i: int| stands_for(processes, i, s, x) {
            let i = choose|i: int| stands_for(processes, i, s, x);
            if i < n {
                assert(front[i] == processes[i]);
                assert forall|k: int| i < k < front.len() && (#[trigger] front[k]).pid == x.pid implies !may_be_taken(
                    front[k],
                    s,
                ) by {
                    assert(front[k] == processes[k]);
                }
                assert(stands_for(front, i, s, x));
                assert(processes[n].pid == x.pid ==> !may_be_taken(processes[n], s));
            } else {
                assert(x == crate::automatic_scheduler::target_of(last));
            }
        }
    }
}

proof fn filtered_come_from(all: Seq<ManagedProcess>, f: spec_fn(ManagedProcess) -> bool, i: int)
    requires
        0 <= i < all.filter(f).len(),
    ensures
        all.contains(all.filter(f)[i]),
    decreases all.len(),
{
    reveal(Seq::filter);
    if all.len() > 0 {
        let front = all.drop_last();
        if i < front.filter(f).len() {
            filtered_come_from(front, f, i);
            let k = choose|k: int| 0 <= k < front.len() && front[k] == front.filter(f)[i];
            assert(all[k] == all.filter(f)[i]);
        } else {
            assert(all[all.len() - 1] == all.filter(f)[i]);
        }
    }
}

/// New targets are the candidates that are not managed yet.
pub proof fn targets_are_new_candidates(
    processes: Seq<ProcessInfo>,
    managed: Seq<ManagedProcess>,
    s: Surroundings,
    x: ManagedProcess,
)
    ensures
        targets(processes, managed, s).contains(x) <==> candidates(processes, s).contains(x) && forall|i: int|
            0 <= i < managed.len() ==> (#[trigger] managed[i]).pid != x.pid,
{
    broadcast use vstd::seq_lib::group_filter_ensures;

    let all = candidates(processes, s);
    let f = |m: ManagedProcess| !crate::automatic_scheduler::is_managed(managed, m.pid);
    let t = targets(processes, managed, s);
    assert(t == all.filter(f));
    if t.contains(x) {
        let i = choose|i: int| 0 <= i < t.len() && t[i] == x;
        assert(f(t[i]));
        filtered_come_from(all, f, i);
    }
    if all.contains(x) && f(x) {
        let i = choose|i: int| 0 <= i < all.len() && all[i] == x;
        assert(t.contains(all[i]));
    }
}

/// A managed process that is gone, or another one by now, is forgotten without
/// a write. One that is still there is kept while it may be taken and the
/// system still holds it as managed, else restored.
pub proof fn managed_processes_are_weighed(
    m: ManagedProcess,
    processes: Seq<ProcessInfo>,
    s: Surroundings,
    active: Seq<u32>,
    i: int,
)
    requires
        0 <= i < processes.len(),
        processes[i].pid == m.pid,
        forall|k: int| i < k < processes.len() ==> (#[trigger] processes[k]).pid != m.pid,
    ensures
        ({
            let a = managed_action(m, processes, s, active);
            &&& a == ManagedAction::Discard <==> !m.identity.identifies(processes[i])
            &&& a == ManagedAction::Keep ==> active.contains(m.pid) && m.identity.identifies(processes[i])
            &&& !active.contains(m.pid) && m.identity.identifies(processes[i]) ==> a == ManagedAction::Restore
            &&& active.contains(m.pid) && m.identity.identifies(processes[i]) && may_be_taken(processes[i], s) ==> a
                == ManagedAction::Keep
        }),
{
    the_last_entry_counts(processes, m.pid);
    let l = last_position(processes, m.pid);
    assert(l == i) by {
        if l < i {
            assert(processes[i].pid != m.pid);
        }
        if l > i {
            assert(processes[l].pid != m.pid);
        }
    }
    if may_be_taken(processes[i], s) {
        let x = crate::automatic_scheduler::target_of(processes[i]);
        candidates_may_be_taken(processes, s, x);
        assert(stands_for(processes, i, s, x));
        assert(candidates(processes, s).contains(x));
        let j = choose|j: int| 0 <= j < candidates(processes, s).len() && candidates(processes, s)[j] == x;
        assert(candidates(processes, s)[j].identity.identifies(processes[i]));
    }
}

/// A managed process that no list holds any more is forgotten.
pub proof fn gone_processes_are_forgotten(
    m: ManagedProcess,
    processes: Seq<ProcessInfo>,
    s: Surroundings,
    active: Seq<u32>,
)
    requires
        forall|k: int| 0 <= k < processes.len() ==> (#[trigger] processes[k]).pid != m.pid,
    ensures
        managed_action(m, processes, s, active) == ManagedAction::Discard,
{
    the_last_entry_counts(processes, m.pid);
}

/// After the restores, one process more stays managed exactly if it is kept,
/// or its restore has failed; a failed restore is the error that is shown.
pub proof fn failed_restores_stay_managed(
    managed: Seq<ManagedProcess>,
    actions: Seq<ManagedAction>,
    failures: Seq<Option<String>>,
    n: int,
    before: Option<SchedulerError>,
)
    requires
        0 <= n,
    ensures
        ({
            let s = |k: int| staying(managed, actions, failures, k);
            let f = |k: int| last_failure(actions, failures, k, before);
            let failed = actions[n] is Restore && failures[n] is Some;
            &&& s(0) == Seq::<ManagedProcess>::empty() && f(0) == before
            &&& actions[n] is Keep || failed ==> s(n + 1) == s(n).push(managed[n])
            &&& !(actions[n] is Keep || failed) ==> s(n + 1) == s(n)
            &&& failed ==> f(n + 1) == Some(SchedulerError::Text(failures[n]->Some_0))
            &&& !failed ==> f(n + 1) == f(n)
        }),
{
}

/// One result more adds its target to the managed processes exactly if the
/// policy was taken, and counts towards its own kind alone.
pub proof fn taken_targets_become_managed(
    managed: Seq<ManagedProcess>,
    list: Seq<ManagedProcess>,
    results: Seq<ApplyResult>,
    n: int,
    x: ManagedProcess,
    kind: ApplyResult,
)
    requires
        ascending(managed),
        0 <= n,
    ensures
        ({
            let w = |k: int| with_taken(managed, list, results, k);
            let c = |k: int| count_of(results, kind, k);
            &&& w(0) == managed && c(0) == 0
            &&& results[n] is Taken ==> (w(n + 1).contains(x) <==> x == list[n] || (w(n).contains(x) && x.pid
                != list[n].pid))
            &&& !(results[n] is Taken) ==> w(n + 1) == w(n)
            &&& c(n + 1) == c(n) + if results[n] == kind { 1int } else { 0 }
        }),
{
    crate::automatic_scheduler::managed_processes_stay_ordered(managed, Seq::empty(), Seq::empty(), Seq::empty(), list, results, n);
    putting_in(with_taken(managed, list, results, n), list[n], x);
}

/// After a restore of everything, exactly the processes that are left over
/// stay managed.
pub proof fn left_over_processes_stay_managed(managed: Seq<ManagedProcess>, remaining: Seq<u32>, x: ManagedProcess)
    ensures
        kept(managed, remaining).contains(x) <==> managed.contains(x) && remaining.contains(x.pid),
{
    broadcast use vstd::seq_lib::group_filter_ensures;

    let f = |m: ManagedProcess| remaining.contains(m.pid);
    let t = kept(managed, remaining);
    assert(t == managed.filter(f));
    if t.contains(x) {
        let i = choose|i: int| 0 <= i < t.len() && t[i] == x;
        assert(f(t[i]));
        filtered_come_from(managed, f, i);
    }
    if managed.contains(x) && f(x) {
        let i = choose|i: int| 0 <= i < managed.len() && managed[i] == x;
        assert(t.contains(managed[i]));
    }
}

/// A restore of everything clears the error if nothing failed and nothing is
/// left over; else it is an error.
pub proof fn restores_report(w: AutomaticWorker, outcome: RestoreAll)
    ensures
        ({
            let r = w.spec_restored(outcome);
            let clean = outcome.error is None && outcome.remaining@.len() == 0;
            &&& clean ==> r.last_error is None && r.phase == w.phase
            &&& !clean ==> r.phase is Error
            &&& outcome.error is Some ==> r.last_error == Some(SchedulerError::Text(outcome.error->Some_0))
            &&& !clean && outcome.error is None ==> r.last_error == Some(SchedulerError::TargetsLeft)
            &&& r == (AutomaticWorker { last_error: r.last_error, phase: r.phase, ..w })
        }),
{
}

/// Processes are looked at right away, exactly while the scheduler is on and
/// both the confirmed and the read power source are the battery.
pub proof fn only_the_battery_is_waited_on(w: AutomaticWorker, now: u64)
    ensures
        ({
            let r = w.spec_reconciled(now);
            let on_battery = w.stable_source == PowerSource::Battery && (w.power is None || w.power->Some_0.source
                == PowerSource::Battery);
            let off = w.mode == AutomaticMode::Off;
            &&& off ==> r.next_process_reconcile == w.next_process_reconcile && r.phase == (if w.last_error is Some {
                AutomaticPhase::Error
            } else {
                AutomaticPhase::Disabled
            })
            &&& !off && on_battery ==> r.next_process_reconcile == Some(now) && r.phase == AutomaticPhase::Waiting
            &&& !off && !on_battery ==> r.next_process_reconcile is None && r.phase == (if w.last_error is Some {
                AutomaticPhase::Error
            } else {
                AutomaticPhase::Waiting
            })
            &&& r == (AutomaticWorker { phase: r.phase, next_process_reconcile: r.next_process_reconcile, ..w })
        }),
{
}

/// Managed processes are given back when the power source can no longer be
/// read, or is not the battery.
pub proof fn other_power_gives_back(reading: Result<PowerContext, String>, managed: Seq<ManagedProcess>)
    ensures
        AutomaticWorker::refresh_restores(reading, managed) <==> managed.len() > 0 && (reading is Err || reading->Ok_0.source
            != PowerSource::Battery),
{
}

/// A reading of the power source is remembered and clears the error; a failed
/// one forgets the source and is an error, unless the scheduler is off.
pub proof fn power_readings(w: AutomaticWorker, context: PowerContext, text: String)
    ensures
        w.spec_read(Ok(context)) == (AutomaticWorker { power: Some(context), last_error: None, ..w }),
        ({
            let r = w.spec_read(Err(text));
            &&& r.power is None && r.last_error == Some(SchedulerError::Text(text))
            &&& r.phase == (if w.mode == AutomaticMode::Off { AutomaticPhase::Disabled } else { AutomaticPhase::Error })
            &&& r == (AutomaticWorker { power: None, last_error: r.last_error, phase: r.phase, ..w })
        }),
{
}

/// Another power source has to hold for a quarter of a second; the confirmed
/// one ends the wait, and an unknown one changes nothing. Where it is forced,
/// the battery is confirmed at once.
pub proof fn power_changes_are_confirmed(w: AutomaticWorker, source: PowerSource, force: bool, now: u64)
    requires
        now + 250 <= u64::MAX,
    ensures
        ({
            let r = w.spec_weighed(source, force, now);
            let forced = force && source == PowerSource::Battery;
            &&& forced ==> r.stable_source == PowerSource::Battery && r.pending_source is None
            &&& !forced ==> r.stable_source == w.stable_source && r.pending_source == (if source == w.stable_source {
                None
            } else if source == PowerSource::Unknown {
                w.pending_source
            } else {
                Some((source, (now + 250) as u64))
            })
            &&& r == (AutomaticWorker { stable_source: r.stable_source, pending_source: r.pending_source, ..w }).spec_reconciled(
                now,
            )
        }),
{
}

/// A change of mode forgets the wait and the schedule; switched off with
/// processes left over, the scheduler shows an error.
pub proof fn mode_changes(w: AutomaticWorker, mode: AutomaticMode, restored: bool, managed: Seq<ManagedProcess>, now: u64)
    ensures
        ({
            let r = w.spec_mode_changed(mode, restored);
            &&& r.mode == mode && r.pending_source is None && r.next_process_reconcile is None
            &&& restored ==> r.last_error is None
            &&& !restored ==> r.last_error == w.last_error
            &&& mode is Off ==> r.phase is Disabled
            &&& !(mode is Off) ==> r.phase is Waiting
            &&& r.power == w.power && r.stable_source == w.stable_source && r.skipped_manual == w.skipped_manual
            &&& r.next_power_refresh == w.next_power_refresh && r.last_reconcile_at_epoch_ms
                == w.last_reconcile_at_epoch_ms
        }),
        ({
            let r = w.spec_mode_settled(managed, now);
            let left = w.mode is Off && managed.len() > 0;
            &&& left ==> r.phase is Error && r.last_error == (if w.last_error is None {
                Some(SchedulerError::TargetsLeft)
            } else {
                w.last_error
            })
            &&& !left ==> r == w.spec_reconciled(now)
        }),
{
}

/// The scheduler starts switched off, knows nothing, and reads the power
/// source at once.
pub proof fn the_scheduler_starts_off(now: u64)
    ensures
        ({
            let w = AutomaticWorker::spec_new(now);
            &&& w.mode is Off && w.phase is Disabled && w.power is None && w.stable_source is Unknown
            &&& w.pending_source is None && w.skipped_manual == 0 && w.last_error is None
            &&& w.last_reconcile_at_epoch_ms is None && w.next_power_refresh == now && w.next_process_reconcile is None
        }),
{
}

} // verus!
