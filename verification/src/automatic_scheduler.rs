//! Power-aware automatic scheduling: on battery, eligible processes of the
//! user's session get efficiency cores and economical scheduling; away from
//! battery everything is restored at once.
use vstd::prelude::*;

use crate::control::keepalive::{after, moment_after};
use crate::domain::automatic::{
    AutomaticMode, AutomaticPhase, AutomaticSchedulerSnapshot, PowerContext, PowerSource,
};
use crate::domain::os_policy::{CpuPlacement, OsSchedulingPolicy, ProcessInfo, QosLevel};
use crate::text::{
    at_or_below, decimal, decimal_text, equal_ignoring_case, path_at_or_below, same_ignoring_case,
};

verus! {

/// Milliseconds between two looks at the processes.
pub const PROCESS_RECONCILE_INTERVAL: u64 = 2_000;

/// Milliseconds between two looks at the power source.
pub const POWER_REFRESH_INTERVAL: u64 = 10_000;

/// Milliseconds until a change of the power source is confirmed.
pub const POWER_CONFIRM_DELAY: u64 = 250;

/// What a managed process is known by: a path alone is not enough, because
/// process identifiers are reused.
#[derive(Debug, PartialEq)]
pub struct ProcessIdentity {
    pub executable: String,
    pub creation_time: Option<u64>,
}

impl Clone for ProcessIdentity {
    fn clone(&self) -> (r: Self)
        ensures
            r == *self,
    {
        ProcessIdentity { executable: self.executable.clone(), creation_time: self.creation_time }
    }
}

/// The process can be told apart from any other.
pub open spec fn identifiable(p: ProcessInfo) -> bool {
    p.executable is Some && p.creation_time is Some
}

impl ProcessIdentity {
    /// The identity of a process whose path and creation time are readable.
    pub fn from_process(process: &ProcessInfo) -> (r: Option<ProcessIdentity>)
        ensures
            r is Some <==> identifiable(*process),
            r matches Some(id) ==> id.executable == process.executable->Some_0 && id.creation_time
                == process.creation_time,
    {
        match (&process.executable, process.creation_time) {
            (Some(path), Some(time)) => Some(
                ProcessIdentity { executable: path.clone(), creation_time: Some(time) },
            ),
            _ => None,
        }
    }

    /// The process is the one with this identity.
    pub open spec fn identifies(self, p: ProcessInfo) -> bool {
        &&& equal_ignoring_case(
            self.executable@,
            match p.executable {
                Some(path) => path@,
                None => Seq::empty(),
            },
        )
        &&& self.creation_time is Some ==> p.creation_time == self.creation_time
    }

    /// Whether the process is the one with this identity: the same path but
    /// for case, and the same creation time.
    pub fn matches(&self, process: &ProcessInfo) -> (r: bool)
        ensures
            r == self.identifies(*process),
    {
        let same = match &process.executable {
            Some(path) => same_ignoring_case(self.executable.as_str(), path.as_str()),
            None => {
                let none = String::new();
                same_ignoring_case(self.executable.as_str(), none.as_str())
            },
        };
        let time = match (self.creation_time, process.creation_time) {
            (Some(expected), Some(actual)) => expected == actual,
            (Some(_), None) => false,
            (None, _) => true,
        };
        same && time
    }
}

/// A process whose creation time differs is never taken for the managed one:
/// a reused process identifier is noticed.
pub proof fn reused_pid_is_noticed(id: ProcessIdentity, p: ProcessInfo)
    requires
        id.creation_time is Some,
        p.creation_time != id.creation_time,
    ensures
        !id.identifies(p),
{
}

/// The policy on battery: efficiency cores and economical scheduling, and
/// nothing harder.
pub fn battery_policy() -> (r: OsSchedulingPolicy)
    ensures
        r == (OsSchedulingPolicy {
            cpu_placement: Some(CpuPlacement::Efficiency),
            qos: Some(QosLevel::Eco),
            ..OsSchedulingPolicy::spec_empty()
        }),
{
    let mut policy = OsSchedulingPolicy::default();
    policy.cpu_placement = Some(CpuPlacement::Efficiency);
    policy.qos = Some(QosLevel::Eco);
    policy
}

/// A process that the shell, the session or this program depends on.
pub open spec fn critical_name(name: Seq<char>) -> bool {
    ||| equal_ignoring_case(name, "phelper-desktop.exe"@)
    ||| equal_ignoring_case(name, "phelper-cli.exe"@)
    ||| equal_ignoring_case(name, "phelper.exe"@)
    ||| equal_ignoring_case(name, "explorer.exe"@)
    ||| equal_ignoring_case(name, "dwm.exe"@)
    ||| equal_ignoring_case(name, "audiodg.exe"@)
    ||| equal_ignoring_case(name, "csrss.exe"@)
    ||| equal_ignoring_case(name, "wininit.exe"@)
    ||| equal_ignoring_case(name, "winlogon.exe"@)
    ||| equal_ignoring_case(name, "services.exe"@)
    ||| equal_ignoring_case(name, "lsass.exe"@)
    ||| equal_ignoring_case(name, "smss.exe"@)
    ||| equal_ignoring_case(name, "svchost.exe"@)
    ||| equal_ignoring_case(name, "fontdrvhost.exe"@)
    ||| equal_ignoring_case(name, "runtimebroker.exe"@)
    ||| equal_ignoring_case(name, "sihost.exe"@)
    ||| equal_ignoring_case(name, "searchhost.exe"@)
    ||| equal_ignoring_case(name, "startmenuexperiencehost.exe"@)
    ||| equal_ignoring_case(name, "shellexperiencehost.exe"@)
    ||| equal_ignoring_case(name, "textinputhost.exe"@)
    ||| equal_ignoring_case(name, "ctfmon.exe"@)
    ||| equal_ignoring_case(name, "conhost.exe"@)
    ||| equal_ignoring_case(name, "msmpeng.exe"@)
    ||| equal_ignoring_case(name, "wmiprvse.exe"@)
}

fn is_critical_name(name: &str) -> (r: bool)
    ensures
        r == critical_name(name@),
{
    same_ignoring_case(name, "phelper-desktop.exe") || same_ignoring_case(name, "phelper-cli.exe")
        || same_ignoring_case(name, "phelper.exe") || same_ignoring_case(name, "explorer.exe")
        || same_ignoring_case(name, "dwm.exe") || same_ignoring_case(name, "audiodg.exe")
        || same_ignoring_case(name, "csrss.exe") || same_ignoring_case(name, "wininit.exe")
        || same_ignoring_case(name, "winlogon.exe") || same_ignoring_case(name, "services.exe")
        || same_ignoring_case(name, "lsass.exe") || same_ignoring_case(name, "smss.exe")
        || same_ignoring_case(name, "svchost.exe") || same_ignoring_case(name, "fontdrvhost.exe")
        || same_ignoring_case(name, "runtimebroker.exe") || same_ignoring_case(name, "sihost.exe")
        || same_ignoring_case(name, "searchhost.exe") || same_ignoring_case(name, "startmenuexperiencehost.exe")
        || same_ignoring_case(name, "shellexperiencehost.exe") || same_ignoring_case(name, "textinputhost.exe")
        || same_ignoring_case(name, "ctfmon.exe") || same_ignoring_case(name, "conhost.exe")
        || same_ignoring_case(name, "msmpeng.exe") || same_ignoring_case(name, "wmiprvse.exe")
}

/// A process that may be managed: of the user's own session, with a readable
/// path outside the system directory, not this program and not critical.
pub open spec fn eligible(p: ProcessInfo, own_pid: u32, current_session: Option<u32>, windir: Seq<char>) -> bool {
    &&& p.pid != 0
    &&& p.pid != own_pid
    &&& p.session_id is Some
    &&& p.session_id == current_session
    &&& p.executable is Some
    &&& !at_or_below(p.executable->Some_0@, windir)
    &&& !critical_name(p.name@)
}

/// Whether a process may be managed.
pub fn is_eligible(process: &ProcessInfo, own_pid: u32, current_session: Option<u32>, windir: &str) -> (r: bool)
    ensures
        r == eligible(*process, own_pid, current_session, windir@),
{
    if process.pid == 0 || process.pid == own_pid {
        return false;
    }
    let same_session = match (process.session_id, current_session) {
        (Some(session), Some(current)) => session == current,
        _ => false,
    };
    if !same_session {
        return false;
    }
    match &process.executable {
        None => false,
        Some(path) => !path_at_or_below(path.as_str(), windir) && !is_critical_name(process.name.as_str()),
    }
}

/// A process that the scheduler manages.
#[derive(Debug, PartialEq)]
pub struct ManagedProcess {
    pub pid: u32,
    pub identity: ProcessIdentity,
}

/// What went wrong last.
#[derive(Debug, PartialEq)]
pub enum SchedulerError {
    /// Some targets could not be restored.
    TargetsLeft,
    /// Restoring the targets failed.
    RestoreFailed,
    /// Every eligible target was refused.
    NoTargets { failures: u64 },
    Text(String),
}

impl SchedulerError {
    pub open spec fn spec_text(self) -> Seq<char> {
        match self {
            SchedulerError::TargetsLeft => "仍有自动调度目标未恢复"@,
            SchedulerError::RestoreFailed => "自动调度目标恢复失败"@,
            SchedulerError::NoTargets { failures } =>
                "没有可接管的进程（"@ + decimal(failures as nat) + " 个目标被系统拒绝或不支持）"@,
            SchedulerError::Text(text) => text@,
        }
    }

    /// The error in words.
    pub fn text(&self) -> (r: String)
        ensures
            r@ == self.spec_text(),
    {
        match self {
            SchedulerError::TargetsLeft => String::from_str("仍有自动调度目标未恢复"),
            SchedulerError::RestoreFailed => String::from_str("自动调度目标恢复失败"),
            SchedulerError::NoTargets { failures } => {
                let mut s = String::from_str("没有可接管的进程（");
                s.append(decimal_text(*failures).as_str());
                s.append(" 个目标被系统拒绝或不支持）");
                s
            },
            SchedulerError::Text(text) => text.clone(),
        }
    }
}

/// The scheduler's state, without the processes it manages.
#[derive(Debug, PartialEq)]
pub struct AutomaticWorker {
    pub mode: AutomaticMode,
    pub phase: AutomaticPhase,
    pub power: Option<PowerContext>,
    /// The power source that has been confirmed.
    pub stable_source: PowerSource,
    /// A source that waits to be confirmed, and when.
    pub pending_source: Option<(PowerSource, u64)>,
    pub skipped_manual: u32,
    pub last_error: Option<SchedulerError>,
    pub last_reconcile_at_epoch_ms: Option<u64>,
    pub next_power_refresh: u64,
    pub next_process_reconcile: Option<u64>,
}

/// How restoring all targets ended: the failure, if any, and the processes
/// that are still managed.
#[derive(Debug, PartialEq)]
pub struct RestoreAll {
    pub error: Option<String>,
    pub remaining: Vec<u32>,
}

/// The processes among `managed` whose identifier is in `keep`, in order.
pub open spec fn kept(managed: Seq<ManagedProcess>, keep: Seq<u32>) -> Seq<ManagedProcess> {
    managed.filter(|m: ManagedProcess| keep.contains(m.pid))
}

fn contains_pid(pids: &Vec<u32>, pid: u32) -> (r: bool)
    ensures
        r == pids@.contains(pid),
{
    let mut i: usize = 0;
    while i < pids.len()
        invariant
            i <= pids@.len(),
            forall|k: int| 0 <= k < i ==> pids@[k] != pid,
        decreases pids@.len() - i,
    {
        if pids[i] == pid {
            assert(pids@[i as int] == pid);
            return true;
        }
        i = i + 1;
    }
    false
}

fn keep_processes(managed: &mut Vec<ManagedProcess>, keep: &Vec<u32>)
    ensures
        final(managed)@ == kept(old(managed)@, keep@),
{
    let mut all: Vec<ManagedProcess> = Vec::new();
    core::mem::swap(managed, &mut all);
    let ghost whole = all@;
    let ghost pred = |m: ManagedProcess| keep@.contains(m.pid);
    let mut rest: Vec<ManagedProcess> = Vec::new();
    // The last process first, then the order is turned round again.
    while all.len() > 0
        invariant
            all@.len() <= whole.len(),
            all@ == whole.take(all@.len() as int),
            pred == (|m: ManagedProcess| keep@.contains(m.pid)),
            rest@.reverse() == whole.skip(all@.len() as int).filter(pred),
        decreases all@.len(),
    {
        let ghost n = all@.len() as int;
        let ghost before = rest@;
        if let Some(m) = all.pop() {
            proof {
                assert(all@ =~= whole.take(n - 1));
                let tail = whole.skip(n);
                assert(whole.skip(n - 1) =~= seq![m] + tail);
                filter_cons(m, tail, pred);
            }
            let keep_it = contains_pid(keep, m.pid);
            if keep_it {
                rest.push(m);
                assert(rest@.reverse() =~= seq![m] + before.reverse());
            }
        }
    }
    assert(whole.skip(0) =~= whole);
    while rest.len() > 0
        invariant
            managed@ + rest@.reverse() == whole.filter(pred),
        decreases rest@.len(),
    {
        let ghost before = rest@;
        let ghost front = managed@;
        if let Some(m) = rest.pop() {
            managed.push(m);
            assert(before.reverse() =~= seq![m] + rest@.reverse());
            assert(managed@ + rest@.reverse() =~= front + before.reverse());
        }
    }
    assert(managed@ + rest@.reverse() =~= managed@);
}

proof fn filter_cons<A>(x: A, tail: Seq<A>, pred: spec_fn(A) -> bool)
    ensures
        (seq![x] + tail).filter(pred) == (if pred(x) { seq![x] } else { Seq::<A>::empty() }) + tail.filter(pred),
{
    Seq::<A>::filter_distributes_over_add(seq![x], tail, pred);
    assert(seq![x].filter(pred) =~= (if pred(x) { seq![x] } else { Seq::<A>::empty() })) by {
        reveal(Seq::filter);
        assert(seq![x].drop_last() =~= Seq::<A>::empty());
        assert(seq![x].drop_last().filter(pred) =~= Seq::<A>::empty());
    }
}

/// The phase of a scheduler that is off: an error stays visible.
pub open spec fn off_phase(error: Option<SchedulerError>) -> AutomaticPhase {
    if error is Some { AutomaticPhase::Error } else { AutomaticPhase::Disabled }
}

/// The phase of a scheduler that waits: an error stays visible.
pub open spec fn waiting_phase(error: Option<SchedulerError>) -> AutomaticPhase {
    if error is Some { AutomaticPhase::Error } else { AutomaticPhase::Waiting }
}

impl AutomaticWorker {
    pub open spec fn spec_new(now: u64) -> AutomaticWorker {
        AutomaticWorker {
            mode: AutomaticMode::Off,
            phase: AutomaticPhase::Disabled,
            power: None,
            stable_source: PowerSource::Unknown,
            pending_source: None,
            skipped_manual: 0,
            last_error: None,
            last_reconcile_at_epoch_ms: None,
            next_power_refresh: now,
            next_process_reconcile: None,
        }
    }

    /// An idle scheduler.
    pub fn new(now: u64) -> (r: AutomaticWorker)
        ensures
            r == AutomaticWorker::spec_new(now),
    {
        AutomaticWorker {
            mode: AutomaticMode::Off,
            phase: AutomaticPhase::Disabled,
            power: None,
            stable_source: PowerSource::Unknown,
            pending_source: None,
            skipped_manual: 0,
            last_error: None,
            last_reconcile_at_epoch_ms: None,
            next_power_refresh: now,
            next_process_reconcile: None,
        }
    }

    /// The state after restoring all targets.
    pub open spec fn spec_restored(self, outcome: RestoreAll) -> AutomaticWorker {
        if outcome.error is None && outcome.remaining@.len() == 0 {
            AutomaticWorker { last_error: None, ..self }
        } else {
            AutomaticWorker {
                last_error: Some(
                    match outcome.error {
                        Some(text) => SchedulerError::Text(text),
                        None => SchedulerError::TargetsLeft,
                    },
                ),
                phase: AutomaticPhase::Error,
                ..self
            }
        }
    }

    /// Takes note of a restore of all targets: only what is left is managed
    /// any more. True if nothing is.
    pub fn restore_automatic(&mut self, managed: &mut Vec<ManagedProcess>, outcome: RestoreAll) -> (r: bool)
        ensures
            *final(self) == old(self).spec_restored(outcome),
            final(managed)@ == kept(old(managed)@, outcome.remaining@),
            r == (outcome.error is None && outcome.remaining@.len() == 0),
    {
        keep_processes(managed, &outcome.remaining);
        match outcome.error {
            None => if outcome.remaining.len() == 0 {
                self.last_error = None;
                true
            } else {
                self.last_error = Some(SchedulerError::TargetsLeft);
                self.phase = AutomaticPhase::Error;
                false
            },
            Some(text) => {
                self.last_error = Some(SchedulerError::Text(text));
                self.phase = AutomaticPhase::Error;
                false
            },
        }
    }

    /// The state after deciding whether the processes have to be looked at: on
    /// confirmed battery power at once, otherwise not at all. A source that
    /// is not confirmed yet never schedules a look.
    pub open spec fn spec_reconciled(self, now: u64) -> AutomaticWorker {
        if self.mode == AutomaticMode::Off {
            AutomaticWorker { phase: off_phase(self.last_error), ..self }
        } else if (self.power matches Some(power) && power.source != self.stable_source) || self.stable_source
            != PowerSource::Battery {
            AutomaticWorker { phase: waiting_phase(self.last_error), next_process_reconcile: None, ..self }
        } else {
            AutomaticWorker { phase: AutomaticPhase::Waiting, next_process_reconcile: Some(now), ..self }
        }
    }

    /// Decides whether the processes have to be looked at.
    pub fn reconcile_if_needed(&mut self, now: u64)
        ensures
            *final(self) == old(self).spec_reconciled(now),
    {
        let failed = self.last_error.is_some();
        if self.mode == AutomaticMode::Off {
            self.phase = if failed { AutomaticPhase::Error } else { AutomaticPhase::Disabled };
            return;
        }
        let unconfirmed = match self.power {
            Some(power) => power.source != self.stable_source,
            None => false,
        };
        if unconfirmed || self.stable_source != PowerSource::Battery {
            self.phase = if failed { AutomaticPhase::Error } else { AutomaticPhase::Waiting };
            self.next_process_reconcile = None;
            return;
        }
        self.next_process_reconcile = Some(now);
        self.phase = AutomaticPhase::Waiting;
    }

    /// A reading of the power source calls for restoring all targets: away
    /// from battery, or blind, nothing stays managed.
    pub open spec fn refresh_restores(reading: Result<PowerContext, String>, managed: Seq<ManagedProcess>) -> bool {
        managed.len() > 0 && (reading matches Ok(context) ==> context.source != PowerSource::Battery)
    }

    /// Whether a reading of the power source calls for restoring all targets.
    pub fn needs_restore(reading: &Result<PowerContext, String>, managed: &Vec<ManagedProcess>) -> (r: bool)
        ensures
            r == AutomaticWorker::refresh_restores(*reading, managed@),
    {
        managed.len() > 0 && match reading {
            Ok(context) => context.source != PowerSource::Battery,
            Err(_) => true,
        }
    }

    /// The state once a reading has been taken over, before any restore.
    pub open spec fn spec_read(self, reading: Result<PowerContext, String>) -> AutomaticWorker {
        match reading {
            Ok(context) => AutomaticWorker { power: Some(context), last_error: None, ..self },
            Err(text) => AutomaticWorker {
                power: None,
                last_error: Some(SchedulerError::Text(text)),
                phase: if self.mode == AutomaticMode::Off {
                    AutomaticPhase::Disabled
                } else {
                    AutomaticPhase::Error
                },
                ..self
            },
        }
    }

    /// Takes a reading of the power source over. If it calls for restoring
    /// all targets, that comes next.
    pub fn take_reading(&mut self, reading: &Result<PowerContext, String>)
        ensures
            *final(self) == old(self).spec_read(*reading),
    {
        match reading {
            Ok(context) => {
                self.power = Some(*context);
                self.last_error = None;
            },
            Err(text) => {
                self.power = None;
                self.last_error = Some(SchedulerError::Text(text.clone()));
                self.phase = if self.mode == AutomaticMode::Off {
                    AutomaticPhase::Disabled
                } else {
                    AutomaticPhase::Error
                };
            },
        }
    }

    /// The state once a reading's source has been weighed: a new source waits
    /// to be confirmed, and battery counts at once where that is forced.
    pub open spec fn spec_weighed(self, source: PowerSource, force: bool, now: u64) -> AutomaticWorker {
        let weighed = AutomaticWorker {
            pending_source: if source == self.stable_source {
                None
            } else if source != PowerSource::Unknown {
                Some((source, after(now, POWER_CONFIRM_DELAY)))
            } else {
                self.pending_source
            },
            ..self
        };
        let settled = if force && source == PowerSource::Battery {
            AutomaticWorker { stable_source: PowerSource::Battery, pending_source: None, ..weighed }
        } else {
            weighed
        };
        settled.spec_reconciled(now)
    }

    /// Weighs the source of a reading that succeeded.
    pub fn weigh_source(&mut self, source: PowerSource, force: bool, now: u64)
        ensures
            *final(self) == old(self).spec_weighed(source, force, now),
    {
        if source == self.stable_source {
            self.pending_source = None;
        } else if source != PowerSource::Unknown {
            self.pending_source = Some((source, moment_after(now, POWER_CONFIRM_DELAY)));
        }
        if force && source == PowerSource::Battery {
            self.stable_source = PowerSource::Battery;
            self.pending_source = None;
        }
        self.reconcile_if_needed(now);
    }

    /// Confirms a source that has been waiting: the second reading has to
    /// agree with the first.
    pub fn confirm_power_source(&mut self, reading: Result<PowerContext, String>, now: u64)
        ensures
            *final(self) == (match (old(self).pending_source, reading) {
                (None, _) => *old(self),
                (Some((expected, _)), Ok(context)) => if context.source == expected {
                    AutomaticWorker {
                        power: Some(context),
                        stable_source: expected,
                        pending_source: None,
                        last_error: None,
                        ..*old(self)
                    }.spec_reconciled(now)
                } else {
                    AutomaticWorker { power: Some(context), pending_source: None, ..*old(self) }
                },
                (Some(_), Err(text)) => AutomaticWorker {
                    last_error: Some(SchedulerError::Text(text)),
                    pending_source: None,
                    ..*old(self)
                },
            }),
    {
        let expected = match self.pending_source {
            Some((expected, _)) => expected,
            None => return,
        };
        self.pending_source = None;
        match reading {
            Ok(context) => {
                self.power = Some(context);
                if context.source == expected {
                    self.stable_source = expected;
                    self.last_error = None;
                    self.reconcile_if_needed(now);
                }
            },
            Err(text) => {
                self.last_error = Some(SchedulerError::Text(text));
            },
        }
    }

    /// The state once a change of the mode has been taken over, before the
    /// power source is read again. `restored` says whether a restore that
    /// came with it succeeded.
    pub open spec fn spec_mode_changed(self, mode: AutomaticMode, restored: bool) -> AutomaticWorker {
        AutomaticWorker {
            mode,
            pending_source: None,
            next_process_reconcile: None,
            last_error: if restored { None } else { self.last_error },
            phase: if mode == AutomaticMode::Off { AutomaticPhase::Disabled } else { AutomaticPhase::Waiting },
            ..self
        }
    }

    /// Takes a change of the mode over. Switching off restores all targets
    /// first; `restored` says how that went, and is true for another mode.
    pub fn change_mode(&mut self, mode: AutomaticMode, restored: bool)
        ensures
            *final(self) == old(self).spec_mode_changed(mode, restored),
    {
        self.mode = mode;
        self.pending_source = None;
        self.next_process_reconcile = None;
        if restored {
            self.last_error = None;
        }
        self.phase = if mode == AutomaticMode::Off { AutomaticPhase::Disabled } else { AutomaticPhase::Waiting };
    }

    /// The state at the end of a change of the mode: what is still managed
    /// after switching off is an error.
    pub open spec fn spec_mode_settled(self, managed: Seq<ManagedProcess>, now: u64) -> AutomaticWorker {
        let left = self.mode == AutomaticMode::Off && managed.len() > 0;
        AutomaticWorker {
            phase: if left { AutomaticPhase::Error } else { self.phase },
            last_error: if left && self.last_error is None {
                Some(SchedulerError::TargetsLeft)
            } else {
                self.last_error
            },
            ..self
        }.spec_reconciled(now)
    }

    /// Ends a change of the mode.
    pub fn settle_mode(&mut self, managed: &Vec<ManagedProcess>, now: u64)
        ensures
            *final(self) == old(self).spec_mode_settled(managed@, now),
    {
        if self.mode == AutomaticMode::Off && managed.len() > 0 {
            self.phase = AutomaticPhase::Error;
            if self.last_error.is_none() {
                self.last_error = Some(SchedulerError::TargetsLeft);
            }
        }
        self.reconcile_if_needed(now);
    }

    /// Ends switching off once more: an idempotent restore, not a toggle.
    pub fn settle_off_again(&mut self, managed: &Vec<ManagedProcess>, restored: bool)
        ensures
            *final(self) == (if managed@.len() > 0 {
                AutomaticWorker {
                    last_error: if old(self).last_error is Some {
                        old(self).last_error
                    } else {
                        Some(if restored { SchedulerError::TargetsLeft } else { SchedulerError::RestoreFailed })
                    },
                    phase: AutomaticPhase::Error,
                    ..*old(self)
                }
            } else {
                AutomaticWorker { last_error: None, phase: AutomaticPhase::Disabled, ..*old(self) }
            }),
    {
        if managed.len() > 0 {
            if self.last_error.is_none() {
                self.last_error = Some(
                    if restored { SchedulerError::TargetsLeft } else { SchedulerError::RestoreFailed },
                );
            }
            self.phase = AutomaticPhase::Error;
        } else {
            self.last_error = None;
            self.phase = AutomaticPhase::Disabled;
        }
    }

    /// The scheduler as a page shows it.
    pub fn snapshot(&self, managed: &Vec<ManagedProcess>) -> (r: AutomaticSchedulerSnapshot)
        ensures
            r == (AutomaticSchedulerSnapshot {
                mode: self.mode,
                phase: self.phase,
                power: self.power,
                managed_processes: (managed@.len() % 0x1_0000_0000) as u32,
                skipped_manual: self.skipped_manual,
                last_reconcile_at_epoch_ms: self.last_reconcile_at_epoch_ms,
                last_error: r.last_error,
            }),
            match self.last_error {
                Some(e) => r.last_error matches Some(text) && text@ == e.spec_text(),
                None => r.last_error is None,
            },
    {
        AutomaticSchedulerSnapshot {
            mode: self.mode,
            phase: self.phase,
            power: self.power,
            managed_processes: (managed.len() as u64 % 0x1_0000_0000) as u32,
            skipped_manual: self.skipped_manual,
            last_reconcile_at_epoch_ms: self.last_reconcile_at_epoch_ms,
            last_error: match &self.last_error {
                Some(e) => Some(e.text()),
                None => None,
            },
        }
    }

    /// Ends the scheduler: it is off, and an error stays visible.
    pub fn shut_down(&mut self)
        ensures
            *final(self) == (AutomaticWorker {
                mode: AutomaticMode::Off,
                phase: off_phase(old(self).last_error),
                ..*old(self)
            }),
    {
        self.mode = AutomaticMode::Off;
        self.phase = if self.last_error.is_some() { AutomaticPhase::Error } else { AutomaticPhase::Disabled };
    }
}

/// Away from battery power nothing is ever scheduled to be managed.
pub proof fn only_battery_schedules_processes(w: AutomaticWorker, now: u64)
    requires
        w.mode != AutomaticMode::Off,
        w.spec_reconciled(now).next_process_reconcile is Some,
    ensures
        w.stable_source == PowerSource::Battery,
        w.power matches Some(power) ==> power.source == PowerSource::Battery,
{
}

impl AutomaticWorker {
    /// Whether the power source has to be read; if so, the next reading is
    /// scheduled.
    pub fn take_power_refresh(&mut self, now: u64) -> (r: bool)
        ensures
            r == (now >= old(self).next_power_refresh),
            *final(self) == (if r {
                AutomaticWorker { next_power_refresh: after(now, POWER_REFRESH_INTERVAL), ..*old(self) }
            } else {
                *old(self)
            }),
    {
        if now >= self.next_power_refresh {
            self.next_power_refresh = moment_after(now, POWER_REFRESH_INTERVAL);
            true
        } else {
            false
        }
    }

    /// Takes note of a change of power that was announced: the source is read
    /// at once, so the next reading by the clock is a whole interval away.
    pub fn power_announced(&mut self, now: u64)
        ensures
            *final(self) == (AutomaticWorker { next_power_refresh: after(now, POWER_REFRESH_INTERVAL), ..*old(self) }),
    {
        self.next_power_refresh = moment_after(now, POWER_REFRESH_INTERVAL);
    }

    /// Whether a new power source has waited long enough to be confirmed.
    pub fn confirm_due(&self, now: u64) -> (r: bool)
        ensures
            r == (self.pending_source matches Some(p) && now >= p.1),
    {
        match self.pending_source {
            Some((_, at)) => now >= at,
            None => false,
        }
    }

    /// Whether the processes have to be looked at now; if a look was due, the
    /// next one is scheduled.
    pub fn take_reconcile(&mut self, now: u64) -> (r: bool)
        ensures
            ({
                let due = old(self).next_process_reconcile matches Some(at) && now >= at;
                &&& r == (due && old(self).mode == AutomaticMode::BatteryEfficiency && old(self).stable_source
                    == PowerSource::Battery)
                &&& *final(self) == (if due {
                    AutomaticWorker {
                        next_process_reconcile: Some(after(now, PROCESS_RECONCILE_INTERVAL)),
                        ..*old(self)
                    }
                } else {
                    *old(self)
                })
            }),
    {
        let due = match self.next_process_reconcile {
            Some(at) => now >= at,
            None => false,
        };
        if !due {
            return false;
        }
        self.next_process_reconcile = Some(moment_after(now, PROCESS_RECONCILE_INTERVAL));
        self.mode == AutomaticMode::BatteryEfficiency && self.stable_source == PowerSource::Battery
    }

    /// Begins a look at the processes.
    pub fn begin_reconcile(&mut self)
        ensures
            *final(self) == (AutomaticWorker {
                phase: AutomaticPhase::Applying,
                skipped_manual: 0,
                last_error: None,
                ..*old(self)
            }),
    {
        self.phase = AutomaticPhase::Applying;
        self.skipped_manual = 0;
        self.last_error = None;
    }

    /// The processes could not be listed.
    pub fn listing_failed(&mut self, text: String)
        ensures
            *final(self) == (AutomaticWorker {
                phase: AutomaticPhase::Error,
                last_error: Some(SchedulerError::Text(text)),
                ..*old(self)
            }),
    {
        self.last_error = Some(SchedulerError::Text(text));
        self.phase = AutomaticPhase::Error;
    }
}

/// The surroundings that eligibility is judged in.
#[derive(Debug, PartialEq)]
pub struct Surroundings {
    pub own_pid: u32,
    pub current_session: Option<u32>,
    pub windir: String,
}

/// The session of the process `own_pid`, as far as the listing shows it.
pub open spec fn session_of(processes: Seq<ProcessInfo>, own_pid: u32) -> Option<u32>
    decreases processes.len(),
{
    if processes.len() == 0 {
        None
    } else if processes[0].pid == own_pid {
        processes[0].session_id
    } else {
        session_of(processes.drop_first(), own_pid)
    }
}

/// The session of this program, as far as the listing shows it.
pub fn current_session(processes: &Vec<ProcessInfo>, own_pid: u32) -> (r: Option<u32>)
    ensures
        r == session_of(processes@, own_pid),
{
    let mut i: usize = 0;
    assert(processes@.skip(0) =~= processes@);
    while i < processes.len()
        invariant
            i <= processes@.len(),
            session_of(processes@, own_pid) == session_of(processes@.skip(i as int), own_pid),
        decreases processes@.len() - i,
    {
        assert(processes@.skip(i as int)[0] == processes@[i as int]);
        assert(processes@.skip(i as int).drop_first() =~= processes@.skip(i + 1));
        if processes[i].pid == own_pid {
            return processes[i].session_id;
        }
        i = i + 1;
    }
    None
}

/// A process that is eligible here and can be told apart from any other.
pub open spec fn candidate(p: ProcessInfo, s: Surroundings) -> bool {
    eligible(p, s.own_pid, s.current_session, s.windir@) && identifiable(p)
}

fn is_candidate(p: &ProcessInfo, s: &Surroundings) -> (r: bool)
    ensures
        r == candidate(*p, *s),
{
    is_eligible(p, s.own_pid, s.current_session, s.windir.as_str()) && p.executable.is_some()
        && p.creation_time.is_some()
}

/// The position of the last listed process `pid`, or -1.
pub open spec fn last_position(processes: Seq<ProcessInfo>, pid: u32) -> int
    decreases processes.len(),
{
    if processes.len() == 0 {
        -1
    } else if processes.last().pid == pid {
        processes.len() - 1
    } else {
        last_position(processes.drop_last(), pid)
    }
}

fn find_process(processes: &Vec<ProcessInfo>, pid: u32) -> (r: Option<usize>)
    ensures
        r matches Some(i) ==> i == last_position(processes@, pid) && i < processes@.len(),
        r is None ==> last_position(processes@, pid) == -1,
{
    let mut n: usize = processes.len();
    assert(processes@.take(n as int) =~= processes@);
    while n > 0
        invariant
            n <= processes@.len(),
            last_position(processes@, pid) == last_position(processes@.take(n as int), pid),
        decreases n,
    {
        assert(processes@.take(n as int).last() == processes@[n - 1]);
        assert(processes@.take(n as int).drop_last() =~= processes@.take(n - 1));
        if processes[n - 1].pid == pid {
            return Some(n - 1);
        }
        n = n - 1;
    }
    None
}

/// A process in a list that is ordered by identifier: it takes the place of
/// one with the same identifier.
pub open spec fn placed(front: Seq<ManagedProcess>, m: ManagedProcess) -> Seq<ManagedProcess>
    decreases front.len(),
{
    if front.len() == 0 || front.last().pid < m.pid {
        front.push(m)
    } else if front.last().pid == m.pid {
        front.drop_last().push(m)
    } else {
        placed(front.drop_last(), m).push(front.last())
    }
}

/// Identifiers ascend, and none occurs twice.
pub open spec fn ascending(list: Seq<ManagedProcess>) -> bool {
    forall|i: int, j: int| 0 <= i < j < list.len() ==> (#[trigger] list[i]).pid < (#[trigger] list[j]).pid
}

proof fn placed_at(front: Seq<ManagedProcess>, m: ManagedProcess, i: int)
    requires
        0 <= i <= front.len(),
        forall|k: int| i <= k < front.len() ==> (#[trigger] front[k]).pid > m.pid,
        i > 0 ==> front[i - 1].pid <= m.pid,
    ensures
        placed(front, m) == (if i > 0 && front[i - 1].pid == m.pid {
            front.update(i - 1, m)
        } else {
            front.insert(i, m)
        }),
    decreases front.len(),
{
    if i < front.len() {
        let rest = front.drop_last();
        assert forall|k: int| i <= k < rest.len() implies (#[trigger] rest[k]).pid > m.pid by {
            assert(front[k].pid > m.pid);
        }
        assert(front[front.len() - 1].pid > m.pid);
        placed_at(rest, m, i);
    }
    assert(placed(front, m) =~= (if i > 0 && front[i - 1].pid == m.pid {
        front.update(i - 1, m)
    } else {
        front.insert(i, m)
    }));
}

/// Placing a process keeps the order.
pub proof fn placing_keeps_the_order(front: Seq<ManagedProcess>, m: ManagedProcess)
    requires
        ascending(front),
    ensures
        ascending(placed(front, m)),
        forall|i: int| 0 <= i < front.len() ==> (#[trigger] front[i]).pid != m.pid ==> placed(front, m).contains(front[i]),
        placed(front, m).contains(m),
        forall|i: int|
            0 <= i < placed(front, m).len() ==> (#[trigger] placed(front, m)[i]) == m || front.contains(placed(front, m)[i]),
    decreases front.len(),
{
    let all = placed(front, m);
    if front.len() == 0 || front.last().pid < m.pid {
        assert(all[front.len() as int] == m);
        assert forall|i: int| 0 <= i < front.len() implies all.contains(#[trigger] front[i]) by {
            assert(all[i] == front[i]);
        }
    } else if front.last().pid == m.pid {
        assert(all[front.len() - 1] == m);
        assert forall|i: int| 0 <= i < front.len() && (#[trigger] front[i]).pid != m.pid implies all.contains(
            front[i],
        ) by {
            assert(all[i] == front[i]);
        }
        assert forall|i: int, j: int| 0 <= i < j < all.len() implies (#[trigger] all[i]).pid < (#[trigger] all[j]).pid by {
            assert(front[i].pid < front[j].pid);
        }
    } else {
        let rest = front.drop_last();
        let inner = placed(rest, m);
        assert(ascending(rest));
        placing_keeps_the_order(rest, m);
        assert forall|i: int, j: int| 0 <= i < j < all.len() implies (#[trigger] all[i]).pid < (#[trigger] all[j]).pid by {
            if j < inner.len() {
                assert(inner[i].pid < inner[j].pid);
            } else {
                assert(all[i] == inner[i]);
                if inner[i] != m {
                    assert(rest.contains(inner[i]));
                    let k = choose|k: int| 0 <= k < rest.len() && rest[k] == inner[i];
                    assert(front[k].pid < front[front.len() - 1].pid);
                }
            }
        }
        assert forall|i: int| 0 <= i < front.len() && (#[trigger] front[i]).pid != m.pid implies all.contains(
            front[i],
        ) by {
            if i < rest.len() {
                assert(rest[i] == front[i]);
                assert(inner.contains(rest[i]));
                let k = choose|k: int| 0 <= k < inner.len() && inner[k] == rest[i];
                assert(all[k] == front[i]);
            } else {
                assert(all[inner.len() as int] == front[i]);
            }
        }
        let k = choose|k: int| 0 <= k < inner.len() && inner[k] == m;
        assert(all[k] == m);
        assert forall|i: int| 0 <= i < all.len() implies (#[trigger] all[i]) == m || front.contains(all[i]) by {
            if i < inner.len() {
                assert(all[i] == inner[i]);
                if inner[i] != m {
                    assert(rest.contains(inner[i]));
                    let k = choose|k: int| 0 <= k < rest.len() && rest[k] == inner[i];
                    assert(front[k] == inner[i]);
                }
            } else {
                assert(front[front.len() - 1] == all[i]);
            }
        }
    }
}

fn place(list: &mut Vec<ManagedProcess>, m: ManagedProcess)
    ensures
        final(list)@ == placed(old(list)@, m),
{
    let mut i: usize = list.len();
    while i > 0 && list[i - 1].pid > m.pid
        invariant
            i <= list@.len(),
            list@ == old(list)@,
            forall|k: int| i <= k < list@.len() ==> (#[trigger] list@[k]).pid > m.pid,
        ensures
            i <= list@.len(),
            list@ == old(list)@,
            forall|k: int| i <= k < list@.len() ==> (#[trigger] list@[k]).pid > m.pid,
            i > 0 ==> list@[i - 1].pid <= m.pid,
        decreases i,
    {
        i = i - 1;
    }
    proof {
        placed_at(list@, m, i as int);
    }
    if i > 0 && list[i - 1].pid == m.pid {
        list.set(i - 1, m);
    } else {
        list.insert(i, m);
    }
}

/// A listed process as one to manage.
pub open spec fn target_of(p: ProcessInfo) -> ManagedProcess {
    ManagedProcess {
        pid: p.pid,
        identity: ProcessIdentity { executable: p.executable->Some_0, creation_time: p.creation_time },
    }
}

/// The candidates among the listed processes, ordered by identifier; of two
/// with the same one, the last listed counts.
pub open spec fn candidates(processes: Seq<ProcessInfo>, s: Surroundings) -> Seq<ManagedProcess>
    decreases processes.len(),
{
    if processes.len() == 0 {
        Seq::empty()
    } else {
        let front = candidates(processes.drop_last(), s);
        if candidate(processes.last(), s) {
            placed(front, target_of(processes.last()))
        } else {
            front
        }
    }
}

fn list_candidates(processes: &Vec<ProcessInfo>, s: &Surroundings) -> (r: Vec<ManagedProcess>)
    ensures
        r@ == candidates(processes@, *s),
{
    let mut list: Vec<ManagedProcess> = Vec::new();
    let mut i: usize = 0;
    assert(processes@.take(0) =~= Seq::<ProcessInfo>::empty());
    while i < processes.len()
        invariant
            i <= processes@.len(),
            list@ == candidates(processes@.take(i as int), *s),
        decreases processes@.len() - i,
    {
        let p = &processes[i];
        assert(processes@.take(i + 1).drop_last() =~= processes@.take(i as int));
        assert(processes@.take(i + 1).last() == *p);
        if is_candidate(p, s) {
            if let Some(identity) = ProcessIdentity::from_process(p) {
                place(&mut list, ManagedProcess { pid: p.pid, identity });
            }
        }
        i = i + 1;
    }
    assert(processes@.take(i as int) =~= processes@);
    list
}

/// The candidates are walked in ascending order of their identifiers, each of
/// which occurs once.
pub proof fn candidates_ascend(processes: Seq<ProcessInfo>, s: Surroundings)
    ensures
        ascending(candidates(processes, s)),
    decreases processes.len(),
{
    if processes.len() > 0 {
        candidates_ascend(processes.drop_last(), s);
        if candidate(processes.last(), s) {
            placing_keeps_the_order(candidates(processes.drop_last(), s), target_of(processes.last()));
        }
    }
}

fn has_identity(known: &Vec<ManagedProcess>, pid: u32, p: &ProcessInfo) -> (r: bool)
    ensures
        r == exists|j: int|
            0 <= j < known@.len() && (#[trigger] known@[j]).pid == pid && known@[j].identity.identifies(*p),
{
    let mut i: usize = 0;
    while i < known.len()
        invariant
            i <= known@.len(),
            forall|k: int| 0 <= k < i ==> !((#[trigger] known@[k]).pid == pid && known@[k].identity.identifies(*p)),
        decreases known@.len() - i,
    {
        if known[i].pid == pid && known[i].identity.matches(p) {
            assert(known@[i as int].pid == pid);
            return true;
        }
        i = i + 1;
    }
    false
}

/// What to do with a managed process.
#[derive(Clone, Copy, Debug, PartialEq, Eq, Structural)]
pub enum ManagedAction {
    /// It is as it should be.
    Keep,
    /// It is gone, or its identifier belongs to another process by now: the
    /// old baseline is forgotten and never written to the new process.
    Discard,
    /// It is no longer eligible, or no longer managed: it is restored.
    Restore,
}

/// What to do with a managed process.
pub open spec fn managed_action(
    m: ManagedProcess,
    processes: Seq<ProcessInfo>,
    s: Surroundings,
    active: Seq<u32>,
) -> ManagedAction {
    let i = last_position(processes, m.pid);
    if i < 0 {
        ManagedAction::Discard
    } else if (exists|j: int|
        0 <= j < candidates(processes, s).len() && (#[trigger] candidates(processes, s)[j]).pid == m.pid && candidates(
            processes,
            s,
        )[j].identity.identifies(processes[i])) && m.identity.identifies(processes[i]) && active.contains(m.pid) {
        ManagedAction::Keep
    } else if !m.identity.identifies(processes[i]) {
        ManagedAction::Discard
    } else {
        ManagedAction::Restore
    }
}

/// A restore is only ever written to the very process that was managed: its
/// identity still matches.
pub proof fn restore_hits_the_same_process(
    m: ManagedProcess,
    processes: Seq<ProcessInfo>,
    s: Surroundings,
    active: Seq<u32>,
)
    requires
        managed_action(m, processes, s, active) == ManagedAction::Restore,
    ensures
        last_position(processes, m.pid) >= 0,
        m.identity.identifies(processes[last_position(processes, m.pid)]),
{
}

/// Decides what to do with each managed process, in order.
pub fn plan_release(
    managed: &Vec<ManagedProcess>,
    processes: &Vec<ProcessInfo>,
    s: &Surroundings,
    active: &Vec<u32>,
) -> (r: Vec<ManagedAction>)
    ensures
        r@.len() == managed@.len(),
        forall|i: int|
            0 <= i < managed@.len() ==> #[trigger] r@[i] == managed_action(managed@[i], processes@, *s, active@),
{
    let mut actions: Vec<ManagedAction> = Vec::new();
    let known = list_candidates(processes, s);
    let mut i: usize = 0;
    while i < managed.len()
        invariant
            i <= managed@.len(),
            known@ == candidates(processes@, *s),
            actions@.len() == i,
            forall|k: int|
                0 <= k < i ==> #[trigger] actions@[k] == managed_action(managed@[k], processes@, *s, active@),
        decreases managed@.len() - i,
    {
        let m = &managed[i];
        let action = match find_process(processes, m.pid) {
            None => ManagedAction::Discard,
            Some(k) => {
                let p = &processes[k];
                let same = m.identity.matches(p);
                if has_identity(&known, m.pid, p) && same && contains_pid(active, m.pid) {
                    ManagedAction::Keep
                } else if !same {
                    ManagedAction::Discard
                } else {
                    ManagedAction::Restore
                }
            },
        };
        actions.push(action);
        i = i + 1;
    }
    actions
}

/// A managed process that stays managed: it was kept, or its restore failed.
pub open spec fn stays(action: ManagedAction, failure: Option<String>) -> bool {
    action == ManagedAction::Keep || (action == ManagedAction::Restore && failure is Some)
}

/// The first `n` managed processes that stay.
pub open spec fn staying(
    managed: Seq<ManagedProcess>,
    actions: Seq<ManagedAction>,
    failures: Seq<Option<String>>,
    n: int,
) -> Seq<ManagedProcess>
    decreases n,
{
    if n <= 0 {
        Seq::empty()
    } else if stays(actions[n - 1], failures[n - 1]) {
        staying(managed, actions, failures, n - 1).push(managed[n - 1])
    } else {
        staying(managed, actions, failures, n - 1)
    }
}

/// The last failure among the first `n` restores, else `before`.
pub open spec fn last_failure(
    actions: Seq<ManagedAction>,
    failures: Seq<Option<String>>,
    n: int,
    before: Option<SchedulerError>,
) -> Option<SchedulerError>
    decreases n,
{
    if n <= 0 {
        before
    } else if actions[n - 1] == ManagedAction::Restore && failures[n - 1] is Some {
        Some(SchedulerError::Text(failures[n - 1]->Some_0))
    } else {
        last_failure(actions, failures, n - 1, before)
    }
}

/// How an attempt to manage a process ended.
#[derive(Clone, Copy, Debug, PartialEq, Eq, Structural)]
pub enum ApplyResult {
    /// The policy was applied, or was in place.
    Taken,
    /// The user manages the process by hand.
    SkippedManual,
    Failed,
}

/// The managed processes with those of the first `n` targets that were taken.
pub open spec fn with_taken(
    managed: Seq<ManagedProcess>,
    targets: Seq<ManagedProcess>,
    results: Seq<ApplyResult>,
    n: int,
) -> Seq<ManagedProcess>
    decreases n,
{
    if n <= 0 {
        managed
    } else {
        let front = with_taken(managed, targets, results, n - 1);
        if results[n - 1] == ApplyResult::Taken { placed(front, targets[n - 1]) } else { front }
    }
}

/// How many of the first `n` results are `kind`.
pub open spec fn count_of(results: Seq<ApplyResult>, kind: ApplyResult, n: int) -> nat
    decreases n,
{
    if n <= 0 {
        0
    } else {
        count_of(results, kind, n - 1) + (if results[n - 1] == kind { 1nat } else { 0nat })
    }
}

proof fn count_is_bounded(results: Seq<ApplyResult>, kind: ApplyResult, n: int)
    requires
        0 <= n,
    ensures
        count_of(results, kind, n) <= n,
    decreases n,
{
    if n > 0 {
        count_is_bounded(results, kind, n - 1);
    }
}

/// The candidates that are not managed yet, in the order of their
/// identifiers.
pub open spec fn targets(processes: Seq<ProcessInfo>, managed: Seq<ManagedProcess>, s: Surroundings) -> Seq<
    ManagedProcess,
> {
    candidates(processes, s).filter(|m: ManagedProcess| !is_managed(managed, m.pid))
}

/// The process identifier is managed.
pub open spec fn is_managed(managed: Seq<ManagedProcess>, pid: u32) -> bool {
    exists|i: int| 0 <= i < managed.len() && (#[trigger] managed[i]).pid == pid
}

fn manages(managed: &Vec<ManagedProcess>, pid: u32) -> (r: bool)
    ensures
        r == is_managed(managed@, pid),
{
    let mut i: usize = 0;
    while i < managed.len()
        invariant
            i <= managed@.len(),
            forall|k: int| 0 <= k < i ==> (#[trigger] managed@[k]).pid != pid,
        decreases managed@.len() - i,
    {
        if managed[i].pid == pid {
            assert(managed@[i as int].pid == pid);
            return true;
        }
        i = i + 1;
    }
    false
}

/// Chooses the processes to manage next.
pub fn plan_apply(processes: &Vec<ProcessInfo>, managed: &Vec<ManagedProcess>, s: &Surroundings) -> (r: Vec<
    ManagedProcess,
>)
    ensures
        r@ == targets(processes@, managed@, *s),
{
    let known = list_candidates(processes, s);
    let ghost pred = |m: ManagedProcess| !is_managed(managed@, m.pid);
    let mut chosen: Vec<ManagedProcess> = Vec::new();
    let mut i: usize = 0;
    proof {
        reveal(Seq::filter);
        assert(known@.take(0) =~= Seq::<ManagedProcess>::empty());
    }
    while i < known.len()
        invariant
            i <= known@.len(),
            pred == (|m: ManagedProcess| !is_managed(managed@, m.pid)),
            chosen@ == known@.take(i as int).filter(pred),
        decreases known@.len() - i,
    {
        let m = &known[i];
        proof {
            reveal(Seq::filter);
            assert(known@.take(i + 1).drop_last() =~= known@.take(i as int));
            assert(known@.take(i + 1).last() == *m);
        }
        if !manages(managed, m.pid) {
            chosen.push(ManagedProcess { pid: m.pid, identity: m.identity.clone() });
        }
        i = i + 1;
    }
    assert(known@.take(i as int) =~= known@);
    chosen
}

/// Whether any listed process is a candidate.
pub fn any_candidate(processes: &Vec<ProcessInfo>, s: &Surroundings) -> (r: bool)
    ensures
        r == (candidates(processes@, *s).len() > 0),
{
    list_candidates(processes, s).len() > 0
}

impl AutomaticWorker {
    /// Takes in how the releases went: what was discarded or restored is no
    /// longer managed, and the last failure stays visible.
    pub fn settle_release(
        &mut self,
        managed: &mut Vec<ManagedProcess>,
        actions: &Vec<ManagedAction>,
        failures: &Vec<Option<String>>,
    )
        requires
            actions@.len() == old(managed)@.len(),
            failures@.len() == old(managed)@.len(),
        ensures
            final(managed)@ == staying(old(managed)@, actions@, failures@, old(managed)@.len() as int),
            *final(self) == (AutomaticWorker {
                last_error: last_failure(
                    actions@,
                    failures@,
                    actions@.len() as int,
                    old(self).last_error,
                ),
                ..*old(self)
            }),
    {
        let mut all: Vec<ManagedProcess> = Vec::new();
        core::mem::swap(managed, &mut all);
        let ghost whole = all@;
        let mut i: usize = 0;
        while i < all.len()
            invariant
                i <= all@.len(),
                all@ == whole,
                actions@.len() == whole.len(),
                failures@.len() == whole.len(),
                managed@ == staying(whole, actions@, failures@, i as int),
                *self == (AutomaticWorker {
                    last_error: last_failure(actions@, failures@, i as int, old(self).last_error),
                    ..*old(self)
                }),
            decreases all@.len() - i,
        {
            let action = actions[i];
            let failed = match (action, &failures[i]) {
                (ManagedAction::Restore, Some(text)) => {
                    self.last_error = Some(SchedulerError::Text(text.clone()));
                    true
                },
                _ => false,
            };
            if failed || action == ManagedAction::Keep {
                let m = &all[i];
                managed.push(ManagedProcess { pid: m.pid, identity: m.identity.clone() });
            }
            i = i + 1;
        }
    }

    /// Takes in how managing the chosen processes went. A refused target is a
    /// normal outcome; it is an error only if every eligible target failed.
    pub fn settle_apply(
        &mut self,
        managed: &mut Vec<ManagedProcess>,
        chosen: Vec<ManagedProcess>,
        results: &Vec<ApplyResult>,
        any_eligible: bool,
        epoch_ms: u64,
    )
        requires
            results@.len() == chosen@.len(),
            old(self).skipped_manual == 0,
        ensures
            final(managed)@ == with_taken(old(managed)@, chosen@, results@, chosen@.len() as int),
            ({
                let n = chosen@.len() as int;
                let failures = count_of(results@, ApplyResult::Failed, n);
                let error = if any_eligible && final(managed)@.len() == 0 && failures > 0 {
                    Some(SchedulerError::NoTargets { failures: failures as u64 })
                } else {
                    old(self).last_error
                };
                let skipped = count_of(results@, ApplyResult::SkippedManual, n);
                *final(self) == (AutomaticWorker {
                    skipped_manual: if skipped > u32::MAX { u32::MAX } else { skipped as u32 },
                    last_error: error,
                    last_reconcile_at_epoch_ms: Some(epoch_ms),
                    phase: if error is Some { AutomaticPhase::Error } else { AutomaticPhase::Active },
                    ..*old(self)
                })
            }),
    {
        let ghost start = managed@;
        let mut failures: u64 = 0;
        let mut skipped: u32 = 0;
        let mut i: usize = 0;
        while i < chosen.len()
            invariant
                i <= chosen@.len(),
                results@.len() == chosen@.len(),
                managed@ == with_taken(start, chosen@, results@, i as int),
                failures == count_of(results@, ApplyResult::Failed, i as int),
                skipped == (if count_of(results@, ApplyResult::SkippedManual, i as int) > u32::MAX {
                    u32::MAX as nat
                } else {
                    count_of(results@, ApplyResult::SkippedManual, i as int)
                }),
            decreases chosen@.len() - i,
        {
            proof {
                count_is_bounded(results@, ApplyResult::Failed, i as int);
            }
            match results[i] {
                ApplyResult::Taken => {
                    let m = &chosen[i];
                    place(managed, ManagedProcess { pid: m.pid, identity: m.identity.clone() });
                },
                ApplyResult::SkippedManual => {
                    skipped = skipped.saturating_add(1);
                },
                ApplyResult::Failed => {
                    failures = failures + 1;
                },
            }
            i = i + 1;
        }
        self.skipped_manual = skipped;
        if any_eligible && managed.len() == 0 && failures > 0 {
            self.last_error = Some(SchedulerError::NoTargets { failures });
        }
        self.last_reconcile_at_epoch_ms = Some(epoch_ms);
        self.phase = if self.last_error.is_some() { AutomaticPhase::Error } else { AutomaticPhase::Active };
    }
}

proof fn filter_ascends(list: Seq<ManagedProcess>, pred: spec_fn(ManagedProcess) -> bool)
    requires
        ascending(list),
    ensures
        ascending(list.filter(pred)),
        forall|i: int| 0 <= i < list.filter(pred).len() ==> list.contains(#[trigger] list.filter(pred)[i]),
    decreases list.len(),
{
    reveal(Seq::filter);
    if list.len() > 0 {
        let front = list.drop_last();
        filter_ascends(front, pred);
        let kept = front.filter(pred);
        assert forall|i: int| 0 <= i < kept.len() implies list.contains(#[trigger] kept[i]) && kept[i].pid
            < list.last().pid by {
            let k = choose|k: int| 0 <= k < front.len() && front[k] == kept[i];
            assert(list[k] == kept[i]);
            assert(list[k].pid < list[list.len() - 1].pid);
        }
        assert(list[list.len() - 1] == list.last());
    }
}

proof fn staying_ascends(
    managed: Seq<ManagedProcess>,
    actions: Seq<ManagedAction>,
    failures: Seq<Option<String>>,
    n: int,
)
    requires
        ascending(managed),
        0 <= n <= managed.len(),
    ensures
        ascending(staying(managed, actions, failures, n)),
        forall|i: int|
            0 <= i < staying(managed, actions, failures, n).len() ==> exists|k: int|
                0 <= k < n && managed[k] == #[trigger] staying(managed, actions, failures, n)[i],
    decreases n,
{
    if n > 0 {
        staying_ascends(managed, actions, failures, n - 1);
        let front = staying(managed, actions, failures, n - 1);
        let all = staying(managed, actions, failures, n);
        assert forall|i: int| 0 <= i < front.len() implies front[i].pid < managed[n - 1].pid by {
            let k = choose|k: int| 0 <= k < n - 1 && managed[k] == front[i];
            assert(managed[k].pid < managed[n - 1].pid);
        }
        assert forall|i: int| 0 <= i < all.len() implies exists|k: int|
            0 <= k < n && managed[k] == #[trigger] all[i] by {
            if i < front.len() {
                assert(all[i] == front[i]);
                let k = choose|k: int| 0 <= k < n - 1 && managed[k] == front[i];
                assert(managed[k] == all[i]);
            } else {
                assert(managed[n - 1] == all[i]);
            }
        }
    }
}

/// The managed processes stay in ascending order of their identifiers, each of
/// which occurs once: through a restore of all, a release, and the taking of
/// targets, in any number.
pub proof fn managed_processes_stay_ordered(
    managed: Seq<ManagedProcess>,
    remaining: Seq<u32>,
    actions: Seq<ManagedAction>,
    failures: Seq<Option<String>>,
    targets: Seq<ManagedProcess>,
    results: Seq<ApplyResult>,
    n: int,
)
    requires
        ascending(managed),
        0 <= n,
    ensures
        ascending(kept(managed, remaining)),
        ascending(staying(managed, actions, failures, managed.len() as int)),
        ascending(with_taken(managed, targets, results, n)),
    decreases n,
{
    filter_ascends(managed, |m: ManagedProcess| remaining.contains(m.pid));
    staying_ascends(managed, actions, failures, managed.len() as int);
    if n > 0 {
        managed_processes_stay_ordered(managed, remaining, actions, failures, targets, results, n - 1);
        placing_keeps_the_order(with_taken(managed, targets, results, n - 1), targets[n - 1]);
    }
}

/// The targets are chosen in ascending order of their identifiers.
pub proof fn targets_ascend(processes: Seq<ProcessInfo>, managed: Seq<ManagedProcess>, s: Surroundings)
    ensures
        ascending(targets(processes, managed, s)),
{
    candidates_ascend(processes, s);
    filter_ascends(candidates(processes, s), |m: ManagedProcess| !is_managed(managed, m.pid));
}

} // verus!
