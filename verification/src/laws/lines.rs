//! Lines of files, and the tail of the journal.
use vstd::prelude::*;

use crate::app::journal_tail::{after_polls, blank, capped, filled, misses, understood, verdicts};
use crate::control::journal::{readable, whole_records};
use crate::lines::{complete_lines, first_newline, first_newline_found, last_of, text_lines, unfinished, without_return};

verus! {

/// Lines written one after the other, each with its line end.
pub open spec fn written(lines: Seq<Seq<u8>>) -> Seq<u8>
    decreases lines.len(),
{
    if lines.len() == 0 {
        Seq::empty()
    } else {
        lines[0] + seq![10u8] + written(lines.drop_first())
    }
}

/// The lines of a file, written again, and what stands behind the last line
/// end are the file; no line holds a line end.
pub proof fn lines_make_up_the_file(s: Seq<u8>)
    ensures
        written(complete_lines(s)) + unfinished(s) == s,
        forall|i: int, k: int|
            0 <= i < complete_lines(s).len() && 0 <= k < complete_lines(s)[i].len() ==> (
            #[trigger] complete_lines(s)[i][k]) != 10,
        forall|k: int| 0 <= k < unfinished(s).len() ==> #[trigger] unfinished(s)[k] != 10,
    decreases s.len(),
{
    first_newline_found(s);
    let n = first_newline(s);
    let lines = complete_lines(s);
    if n < s.len() {
        let rest = s.skip(n + 1);
        lines_make_up_the_file(rest);
        assert(lines =~= seq![s.take(n)] + complete_lines(rest));
        assert(lines.drop_first() =~= complete_lines(rest));
        assert(lines[0] == s.take(n));
        assert(written(lines) + unfinished(s) =~= s.take(n) + seq![10u8] + (written(complete_lines(rest)) + unfinished(rest)));
        assert(s.take(n) + seq![10u8] + rest =~= s);
        assert forall|i: int, k: int| 0 <= i < lines.len() && 0 <= k < lines[i].len() implies (
        #[trigger] lines[i][k]) != 10 by {
            if i > 0 {
                assert(lines[i] == complete_lines(rest)[i - 1]);
                assert(complete_lines(rest)[i - 1][k] != 10);
            }
        }
    } else {
        assert(written(lines) =~= Seq::empty());
        assert(written(lines) + s =~= s);
    }
}

/// A carriage return before the line end is no part of a line of text; what
/// stands behind the last line end is a line if it is not empty.
pub proof fn lines_of_text(l: Seq<u8>, s: Seq<u8>, i: int)
    ensures
        without_return(l.push(13)) == l,
        l.len() == 0 || l.last() != 13 ==> without_return(l) == l,
        ({
            let n = complete_lines(s).len();
            &&& text_lines(s).len() == n + if unfinished(s).len() > 0 { 1int } else { 0 }
            &&& 0 <= i < n ==> text_lines(s)[i] == without_return(complete_lines(s)[i])
            &&& unfinished(s).len() > 0 ==> text_lines(s)[n as int] == unfinished(s)
        }),
{
    assert(l.push(13).drop_last() =~= l);
}

/// The last lines are the end of all of them, as many as are asked for or all.
pub proof fn last_lines_end_the_list(s: Seq<Seq<u8>>, n: int, i: int)
    requires
        n >= 0,
    ensures
        last_of(s, n).len() == (if s.len() > n { n } else { s.len() as int }),
        0 <= i < last_of(s, n).len() ==> last_of(s, n)[i] == s[s.len() - last_of(s, n).len() + i],
{
}

/// Read from its middle on, a journal lacks its first line; read from the
/// start it has all of them. It is readable if every record is text.
pub proof fn records_of_a_journal(bytes: Seq<u8>, start: u64, i: int)
    ensures
        ({
            let all = complete_lines(bytes);
            let records = whole_records(bytes, start);
            let cut: int = if start != 0 && all.len() > 0 { 1 } else { 0 };
            &&& records.len() == all.len() - cut
            &&& 0 <= i < records.len() ==> records[i] == all[i + cut]
        }),
        readable(bytes, start) && 0 <= i < whole_records(bytes, start).len() ==> vstd::utf8::valid_utf8(
            whole_records(bytes, start)[i],
        ),
        !readable(bytes, start) ==> exists|k: int|
            0 <= k < whole_records(bytes, start).len() && !vstd::utf8::valid_utf8(
                #[trigger] whole_records(bytes, start)[k],
            ),
{
}

/// A line counts as blank if it holds nothing but blanks, tabs, form feeds and
/// line ends.
pub proof fn blank_lines(line: Seq<u8>)
    ensures
        blank(line) <==> forall|i: int|
            0 <= i < line.len() ==> #[trigger] line[i] == 32 || line[i] == 9 || line[i] == 10 || line[i] == 12 || line[i]
                == 13,
{
    if blank(line) {
        assert forall|i: int| 0 <= i < line.len() implies #[trigger] line[i] == 32 || line[i] == 9 || line[i] == 10
            || line[i] == 12 || line[i] == 13 by {
            assert(crate::app::journal_tail::blank_byte(line[i]));
        }
    }
}

/// One line more: a blank one is passed over without notice, one that is
/// understood becomes an entry, and any other is counted as skipped.
pub proof fn one_line_more(lines: Seq<Seq<u8>>, line: Seq<u8>, parses: spec_fn(Seq<u8>) -> bool)
    ensures
        filled(Seq::empty()) == Seq::<Seq<u8>>::empty(),
        understood(Seq::empty(), parses) == Seq::<Seq<u8>>::empty(),
        misses(Seq::empty()) == 0,
        blank(line) ==> filled(lines.push(line)) == filled(lines),
        !blank(line) ==> filled(lines.push(line)) == filled(lines).push(line),
        parses(line) ==> understood(lines.push(line), parses) == understood(lines, parses).push(line),
        !parses(line) ==> understood(lines.push(line), parses) == understood(lines, parses),
        misses(verdicts(lines.push(line), parses)) == misses(verdicts(lines, parses)) + if parses(line) {
            0int
        } else {
            1
        },
        forall|n: int| 0 <= n <= u64::MAX ==> #[trigger] capped(n) == n,
{
    assert(lines.push(line).drop_last() =~= lines);
    let v = verdicts(lines.push(line), parses);
    assert(v.drop_last() =~= verdicts(lines, parses));
    assert(v.last() == parses(line));
}

/// A file that has become shorter is read from its start; what was read of it
/// before stays.
pub proof fn shortened_files_are_read_anew(
    contents: Seq<Seq<u8>>,
    content: Seq<u8>,
    parses: spec_fn(Seq<u8>) -> bool,
)
    requires
        content.len() < after_polls(contents, parses).offset,
    ensures
        ({
            let before = after_polls(contents, parses);
            let state = after_polls(contents.push(content), parses);
            let given = filled(complete_lines(content));
            &&& state.offset == content.len()
            &&& state.partial == unfinished(content)
            &&& state.lines == before.lines + given
            &&& state.entries == before.entries + understood(given, parses)
        }),
{
    assert(contents.push(content).drop_last() =~= contents);
    assert(Seq::<u8>::empty() + content.skip(0) =~= content);
}

} // verus!
