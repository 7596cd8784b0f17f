//! Incremental reader of the control journal: only new bytes are read, an
//! unfinished line waits for its rest, and a file that shrank is read anew.
use vstd::prelude::*;

use crate::control::journal::ControlJournal;
use crate::lines::{bytes_from, complete_lines, line_views, lines_survive_any_split, split_lines, unfinished};
use crate::persistence::joined;

verus! {

/// A byte that counts as white space in a line.
pub open spec fn blank_byte(b: u8) -> bool {
    b == 32 || b == 9 || b == 10 || b == 12 || b == 13
}

/// A line without content.
pub open spec fn blank(line: Seq<u8>) -> bool {
    forall|i: int| 0 <= i < line.len() ==> blank_byte(#[trigger] line[i])
}

/// The lines with content.
pub open spec fn filled(lines: Seq<Seq<u8>>) -> Seq<Seq<u8>>
    decreases lines.len(),
{
    if lines.len() == 0 {
        Seq::empty()
    } else if blank(lines.last()) {
        filled(lines.drop_last())
    } else {
        filled(lines.drop_last()).push(lines.last())
    }
}

/// A reader of the journal.
#[derive(Debug, PartialEq)]
pub struct JournalTail {
    pub path: String,
    pub offset: u64,
    /// Bytes of a line that is not complete yet.
    pub partial: Vec<u8>,
    /// Complete lines that could not be understood.
    pub skipped: u64,
}

fn is_blank(line: &Vec<u8>) -> (r: bool)
    ensures
        r == blank(line@),
{
    let mut i: usize = 0;
    while i < line.len()
        invariant
            i <= line@.len(),
            forall|k: int| 0 <= k < i ==> blank_byte(#[trigger] line@[k]),
        decreases line@.len() - i,
    {
        let b: u8 = line[i];
        if !(b == 32 || b == 9 || b == 10 || b == 12 || b == 13) {
            assert(!blank_byte(line@[i as int]));
            return false;
        }
        i = i + 1;
    }
    true
}

impl JournalTail {
    /// A reader that has read nothing.
    pub fn new(path: String) -> (r: JournalTail)
        ensures
            r.path == path,
            r.offset == 0,
            r.partial@.len() == 0,
            r.skipped == 0,
    {
        JournalTail { path, offset: 0, partial: Vec::new(), skipped: 0 }
    }

    /// A reader of the default journal.
    pub fn default_journal(data_dir: &str) -> (r: JournalTail)
        ensures
            r.path@ == joined(joined(data_dir@, "state"@), "control-journal.jsonl"@),
            r.offset == 0,
            r.partial@.len() == 0,
            r.skipped == 0,
    {
        JournalTail::new(ControlJournal::default_path(data_dir))
    }

    /// How many complete lines could not be understood.
    pub fn skipped(&self) -> (r: u64)
        ensures
            r == self.skipped,
    {
        self.skipped
    }

    /// Where to read from in a file of that length. A file shorter than what
    /// was read is another file: reading starts over.
    pub fn position(&mut self, length: u64) -> (r: u64)
        ensures
            r == final(self).offset,
            final(self).path == old(self).path,
            final(self).skipped == old(self).skipped,
            if length < old(self).offset {
                final(self).offset == 0 && final(self).partial@.len() == 0
            } else {
                final(self).offset == old(self).offset && final(self).partial@ == old(self).partial@
            },
    {
        if length < self.offset {
            self.offset = 0;
            self.partial = Vec::new();
        }
        self.offset
    }

    /// Takes the bytes read at the offset and gives the lines that are now
    /// complete and have content; what is unfinished waits.
    pub fn poll(&mut self, bytes: &Vec<u8>) -> (r: Vec<Vec<u8>>)
        requires
            old(self).offset + bytes@.len() <= u64::MAX,
        ensures
            line_views(r@) == filled(complete_lines(old(self).partial@ + bytes@)),
            final(self).partial@ == unfinished(old(self).partial@ + bytes@),
            final(self).offset == old(self).offset + bytes@.len(),
            final(self).path == old(self).path,
            final(self).skipped == old(self).skipped,
    {
        let ghost before = self.partial@;
        let mut i: usize = 0;
        assert(before + bytes@.take(0) =~= before);
        while i < bytes.len()
            invariant
                i <= bytes@.len(),
                self.partial@ == before + bytes@.take(i as int),
                self.offset == old(self).offset,
                self.path == old(self).path,
                self.skipped == old(self).skipped,
            decreases bytes@.len() - i,
        {
            self.partial.push(bytes[i]);
            i = i + 1;
            assert(before + bytes@.take(i as int) =~= (before + bytes@.take(i - 1)).push(bytes@[i - 1]));
        }
        assert(bytes@.take(i as int) =~= bytes@);
        let (lines, rest) = split_lines(&self.partial);
        let ghost all = line_views(lines@);
        self.partial = rest;
        self.offset = self.offset + bytes.len() as u64;
        let mut out: Vec<Vec<u8>> = Vec::new();
        let n: usize = lines.len();
        let mut k: usize = 0;
        assert(line_views(out@) =~= filled(all.take(0)));
        while k < n
            invariant
                k <= n,
                n == lines@.len(),
                n == all.len(),
                all == line_views(lines@),
                line_views(out@) == filled(all.take(k as int)),
                all == complete_lines(before + bytes@),
            decreases n - k,
        {
            let ghost done = line_views(out@);
            assert(all.take(k + 1).drop_last() =~= all.take(k as int));
            assert(all.take(k + 1).last() == lines@[k as int]@);
            if !is_blank(&lines[k]) {
                let line = bytes_from(&lines[k], 0);
                assert(line@ =~= lines@[k as int]@);
                out.push(line);
                assert(line_views(out@) =~= done.push(line@));
            }
            k = k + 1;
        }
        assert(all.take(k as int) =~= all);
        out
    }

    /// Takes in, for each line that a poll gave, whether it could be
    /// understood, and counts those that could not.
    pub fn note_parsed(&mut self, parsed: &Vec<bool>)
        ensures
            final(self).skipped == capped(old(self).skipped + misses(parsed@)),
            final(self).path == old(self).path,
            final(self).offset == old(self).offset,
            final(self).partial@ == old(self).partial@,
    {
        let mut i: usize = 0;
        assert(misses(parsed@.take(0)) == 0);
        while i < parsed.len()
            invariant
                i <= parsed@.len(),
                self.skipped == capped(old(self).skipped + misses(parsed@.take(i as int))),
                self.path == old(self).path,
                self.offset == old(self).offset,
                self.partial@ == old(self).partial@,
            decreases parsed@.len() - i,
        {
            assert(parsed@.take(i + 1).drop_last() =~= parsed@.take(i as int));
            assert(parsed@.take(i + 1).last() == parsed@[i as int]);
            if !parsed[i] && self.skipped < u64::MAX {
                self.skipped = self.skipped + 1;
            }
            i = i + 1;
        }
        assert(parsed@.take(i as int) =~= parsed@);
    }
}

/// How many lines could not be understood.
pub open spec fn misses(parsed: Seq<bool>) -> nat
    decreases parsed.len(),
{
    if parsed.len() == 0 {
        0
    } else {
        misses(parsed.drop_last()) + (if parsed.last() { 0nat } else { 1nat })
    }
}

/// A count that stops at the largest it can show.
pub open spec fn capped(n: int) -> u64 {
    if n > u64::MAX { u64::MAX } else { n as u64 }
}

proof fn filled_concat(a: Seq<Seq<u8>>, b: Seq<Seq<u8>>)
    ensures
        filled(a + b) == filled(a) + filled(b),
    decreases b.len(),
{
    if b.len() == 0 {
        assert(a + b =~= a);
        assert(filled(a) + filled(b) =~= filled(a));
    } else {
        assert((a + b).drop_last() =~= a + b.drop_last());
        filled_concat(a, b.drop_last());
        assert(filled(a) + filled(b.drop_last()).push(b.last()) =~= (filled(a) + filled(b.drop_last())).push(b.last()));
    }
}

/// What a reader has given and where it stands, after some polls.
pub ghost struct TailState {
    pub offset: nat,
    pub partial: Seq<u8>,
    /// The lines that the polls gave.
    pub lines: Seq<Seq<u8>>,
    /// Those of them that could be understood.
    pub entries: Seq<Seq<u8>>,
    pub skipped: u64,
}

/// The lines that can be understood.
pub open spec fn understood(lines: Seq<Seq<u8>>, parses: spec_fn(Seq<u8>) -> bool) -> Seq<Seq<u8>>
    decreases lines.len(),
{
    if lines.len() == 0 {
        Seq::empty()
    } else if parses(lines.last()) {
        understood(lines.drop_last(), parses).push(lines.last())
    } else {
        understood(lines.drop_last(), parses)
    }
}

/// Of each line, whether it can be understood.
pub open spec fn verdicts(lines: Seq<Seq<u8>>, parses: spec_fn(Seq<u8>) -> bool) -> Seq<bool> {
    lines.map_values(|l: Seq<u8>| parses(l))
}

/// A reader after polls of a file with these contents, one after the other:
/// each poll finds its position, takes what stands behind it, and counts what
/// could not be understood.
pub open spec fn after_polls(contents: Seq<Seq<u8>>, parses: spec_fn(Seq<u8>) -> bool) -> TailState
    decreases contents.len(),
{
    if contents.len() == 0 {
        TailState { offset: 0, partial: Seq::empty(), lines: Seq::empty(), entries: Seq::empty(), skipped: 0 }
    } else {
        let before = after_polls(contents.drop_last(), parses);
        let content = contents.last();
        let anew = content.len() < before.offset;
        let offset: nat = if anew { 0 } else { before.offset };
        let partial = if anew { Seq::empty() } else { before.partial };
        let all = partial + content.skip(offset as int);
        let given = filled(complete_lines(all));
        TailState {
            offset: content.len(),
            partial: unfinished(all),
            lines: before.lines + given,
            entries: before.entries + understood(given, parses),
            skipped: capped(before.skipped + misses(verdicts(given, parses))),
        }
    }
}

/// A file that is only appended to.
pub open spec fn append_only(contents: Seq<Seq<u8>>) -> bool {
    forall|i: int, j: int|
        0 <= i <= j < contents.len() ==> (#[trigger] contents[i]).is_prefix_of(#[trigger] contents[j])
}

proof fn understood_concat(a: Seq<Seq<u8>>, b: Seq<Seq<u8>>, parses: spec_fn(Seq<u8>) -> bool)
    ensures
        understood(a + b, parses) == understood(a, parses) + understood(b, parses),
        misses(verdicts(a + b, parses)) == misses(verdicts(a, parses)) + misses(verdicts(b, parses)),
    decreases b.len(),
{
    if b.len() == 0 {
        assert(a + b =~= a);
        assert(understood(a, parses) + understood(b, parses) =~= understood(a, parses));
        assert(misses(verdicts(b, parses)) == 0);
    } else {
        assert((a + b).drop_last() =~= a + b.drop_last());
        understood_concat(a, b.drop_last(), parses);
        assert(verdicts(a + b, parses).drop_last() =~= verdicts(a + b.drop_last(), parses));
        assert(verdicts(b, parses).drop_last() =~= verdicts(b.drop_last(), parses));
        assert(understood(a, parses) + understood(b.drop_last(), parses).push(b.last()) =~= (understood(a, parses)
            + understood(b.drop_last(), parses)).push(b.last()));
    }
}

/// However a file that is only appended to was cut into polls, what the polls
/// gave together is the complete lines with content of the file as it stands
/// in the end, in their order: no torn line is lost, given in parts or given
/// twice. Those that can be understood are the entries, the others are
/// counted, and nothing else is.
pub proof fn polls_give_the_lines_of_the_file(contents: Seq<Seq<u8>>, parses: spec_fn(Seq<u8>) -> bool)
    requires
        contents.len() > 0,
        append_only(contents),
    ensures
        ({
            let state = after_polls(contents, parses);
            let lines = filled(complete_lines(contents.last()));
            &&& state.offset == contents.last().len()
            &&& state.partial == unfinished(contents.last())
            &&& state.lines == lines
            &&& state.entries == understood(lines, parses)
            &&& state.skipped == capped(misses(verdicts(lines, parses)) as int)
        }),
    decreases contents.len(),
{
    let last = contents.last();
    let earlier = contents.drop_last();
    if earlier.len() == 0 {
        assert(after_polls(earlier, parses).offset == 0);
        assert(last.skip(0) =~= last);
        assert(Seq::<u8>::empty() + last =~= last);
        let given = filled(complete_lines(last));
        assert(Seq::<Seq<u8>>::empty() + given =~= given);
        assert(Seq::<Seq<u8>>::empty() + understood(given, parses) =~= understood(given, parses));
    } else {
        assert forall|i: int, j: int| 0 <= i <= j < earlier.len() implies (#[trigger] earlier[i]).is_prefix_of(
            #[trigger] earlier[j],
        ) by {
            assert(contents[i].is_prefix_of(contents[j]));
        }
        polls_give_the_lines_of_the_file(earlier, parses);
        let before = earlier.last();
        assert(contents[contents.len() - 2].is_prefix_of(contents[contents.len() - 1]));
        let added = last.skip(before.len() as int);
        assert(before + added =~= last) by {
            assert forall|i: int| 0 <= i < before.len() implies last[i] == before[i] by {
                assert(last.subrange(0, before.len() as int)[i] == before[i]);
            }
        }
        assert(after_polls(earlier, parses).offset == before.len());
        torn_lines_are_never_lost(Seq::empty(), before, added);
        assert(Seq::<u8>::empty() + before =~= before);
        assert(Seq::<u8>::empty() + last =~= last);
        understood_concat(
            filled(complete_lines(before)),
            filled(complete_lines(unfinished(before) + added)),
            parses,
        );
    }
}

/// However the writer's bytes fall into two polls, the reader gives the same
/// lines in the same order as one poll of all of them: a torn line is neither
/// lost nor given in parts.
pub proof fn torn_lines_are_never_lost(partial: Seq<u8>, first: Seq<u8>, second: Seq<u8>)
    ensures
        filled(complete_lines(partial + first)) + filled(complete_lines(unfinished(partial + first) + second)) == filled(
            complete_lines(partial + (first + second)),
        ),
        unfinished(unfinished(partial + first) + second) == unfinished(partial + (first + second)),
{
    assert(partial + (first + second) =~= (partial + first) + second);
    lines_survive_any_split(partial + first, second);
    filled_concat(complete_lines(partial + first), complete_lines(unfinished(partial + first) + second));
}

} // verus!
