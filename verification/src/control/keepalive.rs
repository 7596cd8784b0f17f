//! Keep-alive: the firmware claws user thermal and fan state back to
//! automatic about two minutes after the last sign of management. A periodic
//! heartbeat, on which every non-default trusted write is re-asserted, keeps
//! it.
use vstd::prelude::*;

use crate::domain::policy::{FanMode, ThermalMode};
use crate::domain::state::ObservedState;

verus! {

/// Heartbeat period in milliseconds.
pub const PERIOD: u64 = 60_000;

/// Consecutive heartbeat failures before control is handed back to firmware.
pub const FAIL_CLOSED_AFTER: u32 = 2;

/// Delay before a failed heartbeat is retried, in milliseconds.
pub const RETRY_DELAY: u64 = 5_000;

/// The moment `delay` after `now`, as far as the clock can tell.
pub open spec fn after(now: u64, delay: u64) -> u64 {
    if now + delay > u64::MAX { u64::MAX } else { (now + delay) as u64 }
}

/// The moment `delay` after `now`, as far as the clock can tell.
pub fn moment_after(now: u64, delay: u64) -> (r: u64)
    ensures
        r == after(now, delay),
{
    now.saturating_add(delay)
}

/// One trusted write that must be re-asserted on the heartbeat.
#[derive(Clone, Copy, Debug, PartialEq, Eq, Structural)]
pub enum ReAssert {
    ThermalMode,
    FanLevels,
    MaxFan,
    /// Power limits; the writer adds them while it owes a restore of them.
    PowerLimits,
}

/// The heartbeat schedule.
#[derive(Clone, Copy, Debug, PartialEq, Eq, Structural)]
pub struct KeepAliveService {
    /// Heartbeat period in milliseconds.
    pub period: u64,
    /// When the next heartbeat is due; `None` while nothing is tracked.
    pub next_due: Option<u64>,
    pub consecutive_failures: u32,
}

/// One item if the condition holds, else none.
pub open spec fn item_if(condition: bool, item: ReAssert) -> Seq<ReAssert> {
    if condition { seq![item] } else { Seq::empty() }
}

/// The trusted writes that need keep-alive, in the order in which they are
/// re-asserted. Only states that differ from what the firmware falls back to
/// count.
pub open spec fn tracked_writes(observed: ObservedState) -> Seq<ReAssert> {
    item_if(observed.thermal_mode.known() == Some(ThermalMode::Performance), ReAssert::ThermalMode) + item_if(
        observed.fan_mode.known() matches Some(m) && (m is Manual || m is Curve),
        ReAssert::FanLevels,
    ) + item_if(observed.max_fan.known() == Some(true), ReAssert::MaxFan)
}

impl Default for KeepAliveService {
    fn default() -> (r: KeepAliveService)
        ensures
            r == KeepAliveService::spec_idle(PERIOD),
    {
        KeepAliveService::new()
    }
}

impl KeepAliveService {
    /// A schedule with nothing due and no failures.
    pub open spec fn spec_idle(period: u64) -> KeepAliveService {
        KeepAliveService { period, next_due: None, consecutive_failures: 0 }
    }

    pub fn new() -> (r: KeepAliveService)
        ensures
            r == KeepAliveService::spec_idle(PERIOD),
    {
        KeepAliveService::with_period(PERIOD)
    }

    pub fn with_period(period: u64) -> (r: KeepAliveService)
        ensures
            r == KeepAliveService::spec_idle(period),
    {
        KeepAliveService { period, next_due: None, consecutive_failures: 0 }
    }

    /// Which trusted writes currently need keep-alive.
    pub fn tracked_set(observed: &ObservedState) -> (r: Vec<ReAssert>)
        ensures
            r@ == tracked_writes(*observed),
    {
        let mut v: Vec<ReAssert> = Vec::new();
        if let Some(ThermalMode::Performance) = observed.thermal_mode.get() {
            v.push(ReAssert::ThermalMode);
        }
        match observed.fan_mode.get() {
            Some(FanMode::Manual(_)) => v.push(ReAssert::FanLevels),
            Some(FanMode::Curve(_)) => v.push(ReAssert::FanLevels),
            _ => {},
        }
        if observed.max_fan.get() == Some(true) {
            v.push(ReAssert::MaxFan);
        }
        assert(v@ =~= tracked_writes(*observed));
        v
    }

    /// The schedule after a change of what is tracked.
    pub open spec fn spec_rescheduled(self, items: Seq<ReAssert>, now: u64) -> KeepAliveService {
        KeepAliveService {
            next_due: if items.len() == 0 { None } else { Some(after(now, self.period)) },
            ..self
        }
    }

    /// Recomputes the schedule from the observed state.
    pub fn reschedule(&mut self, observed: &ObservedState, now: u64)
        ensures
            *final(self) == old(self).spec_rescheduled(tracked_writes(*observed), now),
    {
        let items = KeepAliveService::tracked_set(observed);
        self.reschedule_tracked(items.as_slice(), now);
    }

    /// Recomputes the schedule from an explicitly computed tracked set.
    pub fn reschedule_tracked(&mut self, items: &[ReAssert], now: u64)
        ensures
            *final(self) == old(self).spec_rescheduled(items@, now),
    {
        if items.len() == 0 {
            self.next_due = None;
        } else {
            self.next_due = Some(moment_after(now, self.period));
        }
    }

    pub open spec fn due(self, now: u64) -> bool {
        self.next_due matches Some(due) && now >= due
    }

    /// Whether a heartbeat is due.
    pub fn is_due(&self, now: u64) -> (r: bool)
        ensures
            r == self.due(now),
    {
        match self.next_due {
            Some(due) => now >= due,
            None => false,
        }
    }

    /// Milliseconds until the next heartbeat, `idle_wait` while nothing is
    /// tracked.
    pub fn until_due(&self, now: u64, idle_wait: u64) -> (r: u64)
        ensures
            r == match self.next_due {
                Some(due) => if due >= now { (due - now) as u64 } else { 0 },
                None => idle_wait,
            },
    {
        match self.next_due {
            Some(due) => if due >= now { due - now } else { 0 },
            None => idle_wait,
        }
    }

    /// The schedule after a heartbeat that succeeded.
    pub open spec fn spec_succeeded(self, now: u64) -> KeepAliveService {
        KeepAliveService { consecutive_failures: 0, next_due: Some(after(now, self.period)), ..self }
    }

    /// Takes note of a heartbeat that succeeded.
    pub fn record_success(&mut self, now: u64)
        ensures
            *final(self) == old(self).spec_succeeded(now),
    {
        self.consecutive_failures = 0;
        self.next_due = Some(moment_after(now, self.period));
    }

    /// The schedule after a heartbeat that failed: a retry comes soon, never
    /// later than a full period.
    pub open spec fn spec_failed(self, now: u64) -> KeepAliveService {
        KeepAliveService {
            consecutive_failures: if self.consecutive_failures == u32::MAX {
                u32::MAX
            } else {
                (self.consecutive_failures + 1) as u32
            },
            next_due: Some(after(now, if RETRY_DELAY <= self.period { RETRY_DELAY } else { self.period })),
            ..self
        }
    }

    /// Takes note of a heartbeat that failed. True when the streak reached
    /// the threshold: control must then be handed back to firmware.
    pub fn record_failure(&mut self, now: u64) -> (r: bool)
        ensures
            *final(self) == old(self).spec_failed(now),
            r == (final(self).consecutive_failures >= FAIL_CLOSED_AFTER),
    {
        self.consecutive_failures = self.consecutive_failures.saturating_add(1);
        let delay: u64 = if RETRY_DELAY <= self.period { RETRY_DELAY } else { self.period };
        self.next_due = Some(moment_after(now, delay));
        self.consecutive_failures >= FAIL_CLOSED_AFTER
    }
}

/// Two heartbeat failures in a row reach the fail-closed threshold from any
/// state, and one failure after a success never does.
pub proof fn two_failures_in_a_row_fail_closed(s: KeepAliveService, t1: u64, t2: u64)
    ensures
        s.spec_failed(t1).spec_failed(t2).consecutive_failures >= FAIL_CLOSED_AFTER,
        s.spec_succeeded(t1).spec_failed(t2).consecutive_failures < FAIL_CLOSED_AFTER,
{
}

/// A heartbeat is scheduled exactly while some trusted write needs it, and
/// comes due one period after the change, not earlier.
pub proof fn heartbeat_exactly_while_tracked(s: KeepAliveService, observed: ObservedState, now: u64, t: u64)
    requires
        now + s.period <= u64::MAX,
    ensures
        ({
            let r = s.spec_rescheduled(tracked_writes(observed), now);
            r.due(t) <==> (tracked_writes(observed).len() > 0 && t >= now + s.period)
        }),
{
}

} // verus!
