//! Control journal: every control and restore leaves one entry.
use vstd::prelude::*;
use vstd::utf8::valid_utf8;

use crate::domain::command::{ControlCommand, ControlOutcome, ControlReceipt, ControlStatus, StepOutcome};
use crate::lines::{
    complete_lines, is_utf8, last_of, line_views, lines_survive_any_split, split_lines, split_text, text_lines, unfinished,
};
use crate::persistence::{joined, journal_path};

verus! {

/// Who caused an entry.
#[derive(Clone, Copy, Debug, PartialEq, Eq, Structural)]
pub enum JournalOrigin {
    /// A dispatched command.
    User,
    /// A heartbeat that failed.
    Keepalive,
    /// The safety supervisor.
    Safety,
    /// The restore sequence at shutdown.
    Shutdown,
}

impl JournalOrigin {
    pub open spec fn spec_label(self) -> Seq<char> {
        match self {
            JournalOrigin::User => "user"@,
            JournalOrigin::Keepalive => "keepalive"@,
            JournalOrigin::Safety => "safety"@,
            JournalOrigin::Shutdown => "shutdown"@,
        }
    }

    /// The origin's name in the journal.
    pub fn label(&self) -> (r: &'static str)
        ensures
            r@ == self.spec_label(),
    {
        match *self {
            JournalOrigin::User => "user",
            JournalOrigin::Keepalive => "keepalive",
            JournalOrigin::Safety => "safety",
            JournalOrigin::Shutdown => "shutdown",
        }
    }
}

/// Something to append to the journal.
#[derive(Debug, PartialEq)]
pub struct JournalEvent {
    pub origin: JournalOrigin,
    pub outcome: ControlOutcome,
}

/// What a journal event says.
pub ghost struct EventView {
    pub origin: JournalOrigin,
    pub receipt: ControlReceipt,
    pub command: ControlCommand,
    pub status: ControlStatus,
    pub steps: Seq<StepOutcome>,
    pub duration: u64,
}

impl View for JournalEvent {
    type V = EventView;

    open spec fn view(&self) -> EventView {
        EventView {
            origin: self.origin,
            receipt: self.outcome.receipt,
            command: self.outcome.command,
            status: self.outcome.status,
            steps: self.outcome.steps@,
            duration: self.outcome.duration,
        }
    }
}

/// What a sequence of journal events says.
pub open spec fn event_views(events: Seq<JournalEvent>) -> Seq<EventView> {
    Seq::new(events.len(), |i: int| events[i]@)
}

/// Adds an event of the control plane's own (receipt 0) to the journal.
pub fn log_event(
    out: &mut Vec<JournalEvent>,
    origin: JournalOrigin,
    command: ControlCommand,
    status: ControlStatus,
    steps: Vec<StepOutcome>,
    duration: u64,
)
    ensures
        event_views(final(out)@) == event_views(old(out)@).push(
            EventView { origin, receipt: ControlReceipt(0), command, status, steps: steps@, duration },
        ),
{
    let ghost before = out@;
    let ghost view = EventView { origin, receipt: ControlReceipt(0), command, status, steps: steps@, duration };
    out.push(
        JournalEvent {
            origin,
            outcome: ControlOutcome { receipt: ControlReceipt(0), command, status, steps, duration },
        },
    );
    assert(event_views(out@) =~= event_views(before).push(view));
}

/// One line of the journal.
#[derive(Debug, PartialEq)]
pub struct JournalEntry {
    pub schema_version: u32,
    pub at_epoch_ms: u64,
    pub board_id: String,
    pub bios_version: String,
    pub origin: JournalOrigin,
    pub outcome: ControlOutcome,
}

/// The size from which on the journal is rotated: the active file becomes the
/// one backup and a fresh file starts.
pub const MAX_JOURNAL_BYTES: u64 = 8_388_608;

/// How much of the end of the journal a diagnostic export reads.
pub const TAIL_BYTES: u64 = 524_288;

/// How many entries a diagnostic export shows.
pub const TAIL_ENTRIES: usize = 100;

/// The journal's constant context.
#[derive(Debug, PartialEq)]
pub struct ControlJournal {
    pub board_id: String,
    pub bios_version: String,
}

impl ControlJournal {
    /// The default file.
    pub fn default_path(data_dir: &str) -> (r: String)
        ensures
            r@ == joined(joined(data_dir@, "state"@), "control-journal.jsonl"@),
    {
        journal_path(data_dir)
    }

    pub fn new(board_id: &str, bios_version: &str) -> (r: ControlJournal)
        ensures
            r.board_id@ == board_id@,
            r.bios_version@ == bios_version@,
    {
        ControlJournal { board_id: String::from_str(board_id), bios_version: String::from_str(bios_version) }
    }

    /// Whether a file of that length is rotated before anything is appended.
    pub fn rotation_due(length: u64) -> (r: bool)
        ensures
            r == (length >= MAX_JOURNAL_BYTES),
    {
        length >= MAX_JOURNAL_BYTES
    }

    /// A self-contained entry for an outcome.
    pub fn new_entry(&self, event: JournalEvent, at_epoch_ms: u64) -> (r: JournalEntry)
        ensures
            r == (JournalEntry {
                schema_version: 1,
                at_epoch_ms,
                board_id: self.board_id,
                bios_version: self.bios_version,
                origin: event.origin,
                outcome: event.outcome,
            }),
    {
        JournalEntry {
            schema_version: 1,
            at_epoch_ms,
            board_id: self.board_id.clone(),
            bios_version: self.bios_version.clone(),
            origin: event.origin,
            outcome: event.outcome,
        }
    }
}

/// Where a diagnostic export starts to read a journal of that length.
pub fn tail_start(length: u64) -> (r: u64)
    ensures
        r == (if length > TAIL_BYTES { length - TAIL_BYTES } else { 0 }),
{
    if length > TAIL_BYTES { length - TAIL_BYTES } else { 0 }
}

/// The records of which nothing is missing in bytes that were read from `start`
/// on: the complete lines, but for a first one that may have begun before
/// `start`.
pub open spec fn whole_records(bytes: Seq<u8>, start: u64) -> Seq<Seq<u8>> {
    if start != 0 && complete_lines(bytes).len() > 0 {
        complete_lines(bytes).drop_first()
    } else {
        complete_lines(bytes)
    }
}

/// Every whole record is text.
pub open spec fn readable(bytes: Seq<u8>, start: u64) -> bool {
    forall|i: int|
        0 <= i < whole_records(bytes, start).len() ==> valid_utf8(#[trigger] whole_records(bytes, start)[i])
}

fn is_readable(bytes: &Vec<u8>, start: u64) -> (r: bool)
    ensures
        r == readable(bytes@, start),
{
    let (lines, _rest) = split_lines(bytes);
    let ghost whole = whole_records(bytes@, start);
    let first: usize = if start != 0 && lines.len() > 0 { 1 } else { 0 };
    assert(forall|k: int| 0 <= k < whole.len() ==> #[trigger] whole[k] == line_views(lines@)[k + first]);
    let mut i: usize = first;
    while i < lines.len()
        invariant
            first <= i <= lines@.len(),
            whole == whole_records(bytes@, start),
            whole.len() == lines@.len() - first,
            forall|k: int| 0 <= k < whole.len() ==> #[trigger] whole[k] == lines@[k + first]@,
            forall|k: int| 0 <= k < i - first ==> valid_utf8(#[trigger] whole[k]),
        decreases lines@.len() - i,
    {
        if !is_utf8(&lines[i]) {
            assert(!valid_utf8(whole[i - first]));
            return false;
        }
        i = i + 1;
    }
    true
}

/// A whole record of the journal is not text.
#[derive(Clone, Copy, Debug, PartialEq, Eq, Structural)]
pub struct NotText;

impl NotText {
    /// The error in words.
    pub fn text(&self) -> (r: String)
        ensures
            r@ == "invalid utf-8 in a whole record"@,
    {
        String::from_str("invalid utf-8 in a whole record")
    }
}

/// The last records of what was read of a journal from `start` on, in order.
/// A record whose start was cut off, and a last one that is still being
/// written, are handed out like the others: the reader reports them as records
/// that do not parse. A whole record that is not text spoils the reading.
pub fn last_records(bytes: &Vec<u8>, start: u64) -> (r: Result<Vec<Vec<u8>>, NotText>)
    ensures
        r is Ok <==> readable(bytes@, start),
        r matches Ok(records) ==> line_views(records@) == last_of(text_lines(bytes@), TAIL_ENTRIES as int),
{
    if !is_readable(bytes, start) {
        return Err(NotText);
    }
    let mut all = split_text(bytes);
    let n: usize = all.len();
    if n > TAIL_ENTRIES {
        let ghost before = all@;
        let kept = all.split_off(n - TAIL_ENTRIES);
        assert(line_views(kept@) =~= last_of(line_views(before), TAIL_ENTRIES as int));
        Ok(kept)
    } else {
        assert(line_views(all@) =~= last_of(line_views(all@), TAIL_ENTRIES as int));
        Ok(all)
    }
}

/// A record that was cut off at its start never spoils the reading, whatever
/// its bytes are, and neither does one that is still being written.
pub proof fn incomplete_records_never_spoil_the_reading(cut: Seq<u8>, whole: Seq<u8>, unwritten: Seq<u8>, start: u64)
    requires
        start != 0,
        complete_lines(cut).len() == 1,
        unfinished(cut).len() == 0,
        unfinished(whole).len() == 0,
        complete_lines(unwritten).len() == 0,
    ensures
        readable(cut + whole + unwritten, start) <==> readable(whole, 0),
{
    lines_survive_any_split(cut + whole, unwritten);
    lines_survive_any_split(cut, whole);
    assert(unfinished(cut) + whole =~= whole);
    assert(Seq::<u8>::empty() + unwritten =~= unwritten);
    assert(unfinished(cut + whole) + unwritten =~= unwritten);
    let all = complete_lines(cut + whole + unwritten);
    assert(all =~= complete_lines(cut) + complete_lines(whole));
    assert(all.drop_first() =~= complete_lines(whole));
    assert(whole_records(cut + whole + unwritten, start) == whole_records(whole, 0));
}

} // verus!
