//! Serialisation of user writes: one command at a time, the latest click
//! wins, and a busy writer is retried for a bounded time.
use vstd::prelude::*;

use super::state::KnobId;
use crate::control::keepalive::{after, moment_after};
use crate::control::safety::{age, elapsed};
use crate::domain::command::{ControlCommand, ControlReceipt};

verus! {

/// Shortest time between two dispatches, in milliseconds.
pub const MIN_INTERVAL: u64 = 250;

/// Time before a refused dispatch is tried again, in milliseconds.
pub const BUSY_BACKOFF: u64 = 300;

/// How long a command is retried against a busy writer, in milliseconds.
pub const BUSY_TIMEOUT: u64 = 5_000;

/// What becomes of a command that met a busy writer.
#[derive(Clone, Copy, Debug, PartialEq, Eq, Structural)]
pub enum BusyVerdict {
    Retry,
    TimedOut,
}

/// The queue of one: what waits, what is under way, and when the next try may be.
#[derive(Debug, PartialEq)]
pub struct Coalescer {
    pub pending: Option<(KnobId, ControlCommand)>,
    pub in_flight: Option<ControlReceipt>,
    pub next_attempt_at: Option<u64>,
    pub busy_since: Option<u64>,
    pub min_interval: u64,
    pub busy_backoff: u64,
    pub busy_timeout: u64,
}

impl Coalescer {
    /// A command may be handed out now.
    pub open spec fn ready(self, now: u64) -> bool {
        self.in_flight is None && (self.next_attempt_at matches Some(t) ==> t <= now)
    }

    /// An empty queue with the usual intervals.
    pub fn new() -> (r: Coalescer)
        ensures
            r.pending is None,
            r.in_flight is None,
            r.next_attempt_at is None,
            r.busy_since is None,
            r.min_interval == MIN_INTERVAL,
            r.busy_backoff == BUSY_BACKOFF,
            r.busy_timeout == BUSY_TIMEOUT,
    {
        Coalescer::with_intervals(MIN_INTERVAL, BUSY_BACKOFF, BUSY_TIMEOUT)
    }

    /// An empty queue.
    pub fn with_intervals(min_interval: u64, busy_backoff: u64, busy_timeout: u64) -> (r: Coalescer)
        ensures
            r.pending is None,
            r.in_flight is None,
            r.next_attempt_at is None,
            r.busy_since is None,
            r.min_interval == min_interval,
            r.busy_backoff == busy_backoff,
            r.busy_timeout == busy_timeout,
    {
        Coalescer {
            pending: None,
            in_flight: None,
            next_attempt_at: None,
            busy_since: None,
            min_interval,
            busy_backoff,
            busy_timeout,
        }
    }

    /// Takes a command; it replaces one that still waits.
    pub fn enqueue(&mut self, knob: KnobId, command: ControlCommand) -> (r: bool)
        ensures
            r,
            *final(self) == (Coalescer { pending: Some((knob, command)), ..*old(self) }),
    {
        self.pending = Some((knob, command));
        true
    }

    /// Hands out the waiting command, if it may go now.
    pub fn poll(&mut self, now: u64) -> (r: Option<(KnobId, ControlCommand)>)
        ensures
            r == (if old(self).ready(now) { old(self).pending } else { None }),
            *final(self) == (if old(self).ready(now) {
                Coalescer { pending: None, ..*old(self) }
            } else {
                *old(self)
            }),
    {
        let early = match self.next_attempt_at {
            Some(t) => now < t,
            None => false,
        };
        if self.in_flight.is_some() || early {
            return None;
        }
        self.pending.take()
    }

    /// Whether something waits or is under way.
    pub fn has_work(&self) -> (r: bool)
        ensures
            r == (self.pending is Some || self.in_flight is Some),
    {
        self.pending.is_some() || self.in_flight.is_some()
    }

    /// The writer took the command.
    pub fn note_dispatched(&mut self, receipt: ControlReceipt, now: u64)
        ensures
            *final(self) == (Coalescer {
                in_flight: Some(receipt),
                next_attempt_at: Some(after(now, old(self).min_interval)),
                busy_since: None,
                ..*old(self)
            }),
    {
        self.in_flight = Some(receipt);
        self.next_attempt_at = Some(moment_after(now, self.min_interval));
        self.busy_since = None;
    }

    /// The moment since which the writer has been busy.
    pub open spec fn busy_start(self, now: u64) -> u64 {
        match self.busy_since {
            Some(t) => t,
            None => now,
        }
    }

    /// The writer was busy: the command waits again, or is given up once the
    /// writer has been busy for too long.
    pub fn note_busy(&mut self, knob: KnobId, command: ControlCommand, now: u64) -> (r: BusyVerdict)
        ensures
            if age(now, old(self).busy_start(now)) >= old(self).busy_timeout {
                &&& r is TimedOut
                &&& *final(self) == (Coalescer { pending: None, busy_since: None, ..*old(self) })
            } else {
                &&& r is Retry
                &&& *final(self) == (Coalescer {
                    pending: Some((knob, command)),
                    next_attempt_at: Some(after(now, old(self).busy_backoff)),
                    busy_since: Some(old(self).busy_start(now)),
                    ..*old(self)
                })
            },
    {
        let since: u64 = match self.busy_since {
            Some(t) => t,
            None => now,
        };
        if elapsed(now, since) >= self.busy_timeout {
            self.pending = None;
            self.busy_since = None;
            return BusyVerdict::TimedOut;
        }
        self.busy_since = Some(since);
        self.pending = Some((knob, command));
        self.next_attempt_at = Some(moment_after(now, self.busy_backoff));
        BusyVerdict::Retry
    }

    /// The writer refused the command for another reason.
    pub fn note_dispatch_error(&mut self)
        ensures
            *final(self) == (Coalescer { busy_since: None, ..*old(self) }),
    {
        self.busy_since = None;
    }

    /// The command under way has ended.
    pub fn note_completed(&mut self)
        ensures
            *final(self) == (Coalescer { in_flight: None, busy_since: None, ..*old(self) }),
    {
        self.in_flight = None;
        self.busy_since = None;
    }
}

/// While a command is under way no other is handed out, and once it has ended
/// the one that waited is, at the latest after the shortest interval.
pub proof fn commands_are_serial(
    before: Coalescer,
    receipt: ControlReceipt,
    sent: u64,
    now: u64,
    next: (KnobId, ControlCommand),
)
    ensures
        ({
            let dispatched = Coalescer {
                in_flight: Some(receipt),
                next_attempt_at: Some(after(sent, before.min_interval)),
                busy_since: None,
                ..before
            };
            let queued = Coalescer { pending: Some(next), ..dispatched };
            let ended = Coalescer { in_flight: None, busy_since: None, ..queued };
            &&& !queued.ready(now)
            &&& now >= sent + before.min_interval ==> ended.ready(now) && ended.pending == Some(next)
        }),
{
}

/// A command that keeps meeting a busy writer is given up once the writer has
/// been busy for the timeout, whatever was retried meanwhile.
pub proof fn busy_retries_are_bounded(queue: Coalescer, first: u64, now: u64)
    requires
        queue.busy_since == Some(first),
        now >= first + queue.busy_timeout,
    ensures
        age(now, queue.busy_start(now)) >= queue.busy_timeout,
{
}

} // verus!
