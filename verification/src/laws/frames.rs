//! Frame captures: rows, columns, chains and percentiles.
use vstd::prelude::*;

use crate::laws::texts::{numbers_are_read, row, row_value};
use crate::measurements::{
    busiest, chain_index, chain_index_found, column_of, counts, csv_fields, describes, frame_row, frame_rows, grouped,
    header_columns, names_column, percentile_covers_its_share, row_fields, text_before, uncounted, unreadable_lines,
    without_returns, CaptureError, Columns, FrameRowView, FrameSummary,
};
use crate::text::equal_ignoring_case;

verus! {

/// Carriage returns at the end of a line count for nothing.
pub proof fn returns_come_off(s: Seq<char>)
    ensures
        without_returns(s.push('\r')) == without_returns(s),
        s.len() == 0 || s.last() != '\r' ==> without_returns(s) == s,
{
    assert(s.push('\r').drop_last() =~= s);
}

/// The number of quotes in a text.
pub open spec fn quotes(s: Seq<char>) -> nat
    decreases s.len(),
{
    if s.len() == 0 {
        0
    } else {
        quotes(s.drop_first()) + if s[0] == '"' { 1nat } else { 0nat }
    }
}

/// A row is readable exactly if its quotes pair up.
pub proof fn quotes_pair_up(s: Seq<char>, field: Seq<char>, quoted: bool)
    ensures
        csv_fields(s, field, quoted) is Some <==> (quotes(s) + if quoted { 1int } else { 0 }) % 2 == 0,
    decreases s.len(),
{
    if s.len() > 0 {
        assert(s.skip(1) =~= s.drop_first());
        if s[0] == '"' {
            if quoted && s.len() > 1 && s[1] == '"' {
                let t = s.drop_first();
                assert(t[0] == '"');
                assert(t.drop_first() =~= s.skip(2));
                assert(quotes(t) == quotes(s.skip(2)) + 1);
                quotes_pair_up(s.skip(2), field.push('"'), quoted);
            } else {
                quotes_pair_up(s.skip(1), field, !quoted);
            }
        } else if s[0] == ',' && !quoted {
            quotes_pair_up(s.skip(1), Seq::empty(), false);
        } else {
            quotes_pair_up(s.skip(1), field.push(s[0]), quoted);
        }
    }
}

/// A text that needs no quotes: without quotes and commas.
pub open spec fn plain(t: Seq<char>) -> bool {
    forall|i: int| 0 <= i < t.len() ==> (#[trigger] t[i]) != '"' && t[i] != ','
}

proof fn plain_text_is_read(t: Seq<char>, rest: Seq<char>, field: Seq<char>)
    requires
        plain(t),
    ensures
        csv_fields(t + rest, field, false) == csv_fields(rest, field + t, false),
    decreases t.len(),
{
    let s = t + rest;
    if t.len() == 0 {
        assert(s =~= rest);
        assert(field + t =~= field);
    } else {
        let u = t.drop_first();
        assert(t[0] != '"' && t[0] != ',');
        assert forall|i: int| 0 <= i < u.len() implies (#[trigger] u[i]) != '"' && u[i] != ',' by {
            assert(u[i] == t[i + 1]);
        }
        assert(s.skip(1) =~= u + rest);
        assert(s[0] == t[0]);
        plain_text_is_read(u, rest, field.push(t[0]));
        assert(field.push(t[0]) + u =~= field + t);
    }
}

/// Commas part plain fields; the fields that come behind are those of what
/// stands behind the comma.
pub proof fn commas_part_fields(t: Seq<char>, rest: Seq<char>)
    requires
        plain(t),
    ensures
        csv_fields(t, Seq::empty(), false) == Some(seq![t]),
        ({
            let r = csv_fields(rest, Seq::empty(), false);
            csv_fields(t + seq![','] + rest, Seq::empty(), false) == (if r is Some {
                Some(seq![t] + r->Some_0)
            } else {
                None
            })
        }),
{
    plain_text_is_read(t, Seq::empty(), Seq::empty());
    assert(t + Seq::<char>::empty() =~= t);
    assert(Seq::<char>::empty() + t =~= t);
    let s = seq![','] + rest;
    plain_text_is_read(t, s, Seq::empty());
    assert(t + seq![','] + rest =~= t + s);
    assert(s[0] == ',');
    assert(s.skip(1) =~= rest);
}

/// A column is the first whose heading is its name, whatever the case, behind
/// any byte-order marks.
pub proof fn columns_are_found(header: Seq<Seq<char>>, name: Seq<char>)
    ensures
        ({
            let i = column_of(header, name);
            &&& 0 <= i <= header.len()
            &&& i < header.len() ==> names_column(header[i], name)
            &&& forall|k: int| 0 <= k < i ==> !names_column(#[trigger] header[k], name)
        }),
    decreases header.len(),
{
    if header.len() > 0 && !names_column(header[0], name) {
        let rest = header.drop_first();
        columns_are_found(rest, name);
        assert forall|k: int| 0 <= k < column_of(header, name) implies !names_column(#[trigger] header[k], name) by {
            if k > 0 {
                assert(rest[k - 1] == header[k]);
            }
        }
    }
}

/// A heading is compared without regard to case and to marks before it.
pub proof fn headings_are_compared(heading: Seq<char>, name: Seq<char>)
    ensures
        heading.len() == 0 || heading[0] != '\u{feff}' ==> (names_column(heading, name) <==> equal_ignoring_case(
            heading,
            name,
        )),
        names_column(seq!['\u{feff}'] + heading, name) == names_column(heading, name),
{
    let marked = seq!['\u{feff}'] + heading;
    assert(marked.drop_first() =~= heading);
    assert(marked[0] == '\u{feff}');
}

/// A header has to name the process, the swap chain and the time of a frame;
/// the first that it lacks is told.
pub proof fn headers_need_three_columns(header: Seq<char>)
    ensures
        ({
            let h = row_fields(header)->Some_0;
            let named = |name: Seq<char>| exists|i: int| 0 <= i < h.len() && names_column(#[trigger] h[i], name);
            let r = header_columns(header);
            let c = r->Ok_0;
            &&& row_fields(header) is None ==> r == Err::<Columns, CaptureError>(CaptureError::UnclosedQuote)
            &&& row_fields(header) is Some && h.len() <= usize::MAX ==> {
                &&& !named("ProcessID"@) ==> r == Err::<Columns, CaptureError>(CaptureError::NoProcessColumn)
                &&& named("ProcessID"@) && !named("SwapChainAddress"@) ==> r == Err::<Columns, CaptureError>(
                    CaptureError::NoChainColumn,
                )
                &&& named("ProcessID"@) && named("SwapChainAddress"@) && !named("MsBetweenPresents"@) ==> r == Err::<
                    Columns,
                    CaptureError,
                >(CaptureError::NoTimeColumn)
                &&& named("ProcessID"@) && named("SwapChainAddress"@) && named("MsBetweenPresents"@) ==> r is Ok && c.pid
                    < h.len() && c.chain < h.len() && c.time < h.len() && names_column(h[c.pid as int], "ProcessID"@)
                    && names_column(h[c.chain as int], "SwapChainAddress"@) && names_column(
                    h[c.time as int],
                    "MsBetweenPresents"@,
                )
            }
        }),
{
    if row_fields(header) is Some {
        let h = row_fields(header)->Some_0;
        columns_are_found(h, "ProcessID"@);
        columns_are_found(h, "SwapChainAddress"@);
        columns_are_found(h, "MsBetweenPresents"@);
        let a = column_of(h, "ProcessID"@);
        let b = column_of(h, "SwapChainAddress"@);
        let c = column_of(h, "MsBetweenPresents"@);
        assert(a < h.len() ==> names_column(h[a], "ProcessID"@));
        assert(b < h.len() ==> names_column(h[b], "SwapChainAddress"@));
        assert(c < h.len() ==> names_column(h[c], "MsBetweenPresents"@));
    }
}

/// A row counts for a process if its field of the process is a number, and
/// that of the process; it then gives the fields of the chain and the time.
pub proof fn rows_belong_to_a_process(fields: Seq<Seq<char>>, columns: Columns, pid: u32)
    ensures
        ({
            let f = frame_row(fields, columns, pid);
            let t = fields[columns.pid as int];
            let at = |i: usize| if i < fields.len() { Some(fields[i as int]) } else { None::<Seq<char>> };
            &&& columns.pid >= fields.len() ==> f is None
            &&& columns.pid < fields.len() && row(t) ==> (f is Some <==> row_value(t) == pid)
            &&& columns.pid < fields.len() && !row(t) && (t.len() == 0 || t[0] != '+') ==> f is None
            &&& f is Some ==> f->Some_0.chain == at(columns.chain) && f->Some_0.time == at(columns.time)
        }),
{
    if columns.pid < fields.len() {
        numbers_are_read(fields[columns.pid as int], u32::MAX as int);
    }
}

/// One line more gives a row if it is readable and counts for the process, and
/// is counted as unreadable if it is not.
pub proof fn one_line_more(lines: Seq<Seq<char>>, line: Seq<char>, columns: Columns, pid: u32)
    ensures
        ({
            let before = frame_rows(lines, columns, pid);
            let after = frame_rows(lines.push(line), columns, pid);
            let fields = row_fields(line);
            let f = frame_row(fields->Some_0, columns, pid);
            &&& fields is Some && f is Some ==> after == before.push(f->Some_0)
            &&& fields is None || f is None ==> after == before
            &&& unreadable_lines(lines.push(line)) == unreadable_lines(lines) + if fields is None { 1int } else { 0 }
            &&& frame_rows(Seq::empty(), columns, pid).len() == 0 && unreadable_lines(Seq::empty()) == 0
        }),
{
    assert(lines.push(line).drop_last() =~= lines);
}

/// A row is a frame if it has a chain and a time that is a positive number:
/// its sign is clear, and it is neither zero nor infinite nor none.
pub proof fn frames_have_a_chain_and_a_time(r: FrameRowView, time: Option<u64>)
    ensures
        counts(r, time) <==> r.chain is Some && time is Some && time->Some_0 > 0 && time->Some_0
            < 0x7FF0_0000_0000_0000,
{
}

/// The times of one chain, in the order of the rows.
pub open spec fn times_of(rows: Seq<FrameRowView>, times: Seq<Option<u64>>, chain: Seq<char>) -> Seq<u64>
    decreases rows.len(),
{
    if rows.len() == 0 {
        Seq::empty()
    } else {
        let before = times_of(rows.drop_last(), times.drop_last(), chain);
        if counts(rows.last(), times.last()) && rows.last().chain == Some(chain) {
            before.push(times.last()->Some_0)
        } else {
            before
        }
    }
}

/// Frames are grouped by chain: each group holds the times of its chain in the
/// order of the rows, and every chain with a frame has one.
pub proof fn frames_are_grouped_by_chain(rows: Seq<FrameRowView>, times: Seq<Option<u64>>, chain: Seq<char>)
    ensures
        ({
            let g = grouped(rows, times);
            let i = chain_index(g, chain);
            &&& i < g.len() ==> g[i].0 == chain && g[i].1 == times_of(rows, times, chain)
            &&& i >= g.len() ==> times_of(rows, times, chain).len() == 0
        }),
    decreases rows.len(),
{
    let g = grouped(rows, times);
    chain_index_found(g, chain);
    if rows.len() > 0 {
        let before = grouped(rows.drop_last(), times.drop_last());
        frames_are_grouped_by_chain(rows.drop_last(), times.drop_last(), chain);
        chain_index_found(before, chain);
        if counts(rows.last(), times.last()) {
            let c = rows.last().chain->Some_0;
            let k = chain_index(before, c);
            chain_index_found(before, c);
            let i = chain_index(before, chain);
            let j = chain_index(g, chain);
            if c == chain {
                assert(g[i].0 == chain);
                assert(j == i) by {
                    if j < i {
                        assert(g[j] == before[j]);
                        assert(before[j].0 != chain);
                    }
                    if i < j {
                        assert(g[i].0 != chain);
                    }
                }
                if i == before.len() {
                    assert(times_of(rows.drop_last(), times.drop_last(), chain) =~= Seq::empty());
                    assert(g[i].1 =~= times_of(rows, times, chain));
                }
            } else {
                if i < before.len() {
                    assert(g[i] == before[i]);
                    assert(j == i) by {
                        if j < i {
                            assert(g[j].0 == before[j].0);
                            assert(before[j].0 != chain);
                        }
                        if i < j {
                            assert(g[i].0 != chain);
                        }
                    }
                } else {
                    if j < g.len() {
                        if j < before.len() {
                            assert(g[j].0 == before[j].0);
                            assert(before[j].0 != chain);
                        } else {
                            assert(g[j].0 == c);
                        }
                    }
                }
            }
        }
    }
}

/// Every row that is no frame is counted.
pub proof fn other_rows_are_counted(rows: Seq<FrameRowView>, times: Seq<Option<u64>>, r: FrameRowView, time: Option<u64>)
    ensures
        uncounted(rows.push(r), times.push(time)) == uncounted(rows, times) + if counts(r, time) { 0int } else { 1 },
        uncounted(Seq::empty(), times) == 0,
{
    assert(rows.push(r).drop_last() =~= rows);
    assert(times.push(time).drop_last() =~= times);
}

/// Texts are ordered by the first character in which they differ, and a text
/// stands before every longer one that begins with it.
pub proof fn texts_are_ordered_by_their_first_difference(p: Seq<char>, x: char, s: Seq<char>, y: char, t: Seq<char>)
    ensures
        x != y ==> (text_before(p + seq![x] + s, p + seq![y] + t) <==> (x as u32) < (y as u32)),
        text_before(p, p + seq![y] + t),
        !text_before(p + seq![y] + t, p),
        !text_before(p, p),
    decreases p.len(),
{
    let a = p + seq![x] + s;
    let b = p + seq![y] + t;
    if p.len() == 0 {
        assert(a[0] == x && b[0] == y);
    } else {
        let q = p.drop_first();
        texts_are_ordered_by_their_first_difference(q, x, s, y, t);
        assert(a.drop_first() =~= q + seq![x] + s);
        assert(b.drop_first() =~= q + seq![y] + t);
        assert(a[0] == p[0] && b[0] == p[0]);
    }
}

/// The busiest chain has the most frames; of several such chains it is the one
/// whose name comes last.
pub proof fn the_busiest_chain_has_the_most_frames(groups: Seq<(Seq<char>, Seq<u64>)>, k: int, j: int)
    requires
        busiest(groups, k),
        0 <= j < groups.len(),
    ensures
        0 <= k < groups.len(),
        groups[j].1.len() <= groups[k].1.len(),
        groups[j].1.len() == groups[k].1.len() ==> !text_before(groups[k].0, groups[j].0),
{
}

/// A summary holds all the frame times in order. At least ninety-five (and
/// ninety-nine) of a hundred are no longer than its percentiles, and no fewer
/// would be enough; its slow frames are one of a hundred, rounded up.
pub proof fn summaries_describe_their_frames(s: FrameSummary, chain: Seq<char>, times: Seq<u64>)
    requires
        times.len() > 0,
        describes(s, (chain, times)),
    ensures
        s.swap_chain@ == chain,
        s.times@.to_multiset() == times.to_multiset(),
        s.times@.len() == times.len(),
        forall|i: int, j: int| 0 <= i <= j < s.times@.len() ==> s.times@[i] <= s.times@[j],
        100 * (s.slow_count - 1) < times.len() <= 100 * s.slow_count,
        exists|k: int|
            100 * k < 95 * times.len() <= 100 * (k + 1) && 0 <= k < times.len() && s.p95 == #[trigger] s.times@[k],
        exists|k: int|
            100 * k < 99 * times.len() <= 100 * (k + 1) && 0 <= k < times.len() && s.p99 == #[trigger] s.times@[k],
{
    percentile_covers_its_share(s.times@, 1);
    percentile_covers_its_share(s.times@, 95);
    percentile_covers_its_share(s.times@, 99);
    let n = times.len() as int;
    assert(s.p95 == s.times@[crate::measurements::share(n, 95) - 1]);
    assert(s.p99 == s.times@[crate::measurements::share(n, 99) - 1]);
}

} // verus!
