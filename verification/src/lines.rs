//! Lines in bytes: which are complete, and what is still unfinished.
use vstd::prelude::*;
use vstd::utf8::{
    continuation_bits, is_continuation_byte, length_of_first_scalar, pop_first_scalar, valid_first_scalar, valid_utf8,
};

verus! {

/// The line feed.
pub const NEWLINE: u8 = 10;

/// Where the first line feed is, or the length.
pub open spec fn first_newline(s: Seq<u8>) -> int
    decreases s.len(),
{
    if s.len() == 0 || s[0] == NEWLINE { 0 } else { 1 + first_newline(s.drop_first()) }
}

/// The lines that are complete, without their line feeds.
pub open spec fn complete_lines(s: Seq<u8>) -> Seq<Seq<u8>>
    decreases s.len(),
{
    let n = first_newline(s);
    if 0 <= n < s.len() {
        seq![s.take(n)] + complete_lines(s.skip(n + 1))
    } else {
        Seq::empty()
    }
}

/// What stands behind the last line feed.
pub open spec fn unfinished(s: Seq<u8>) -> Seq<u8>
    decreases s.len(),
{
    let n = first_newline(s);
    if 0 <= n < s.len() {
        unfinished(s.skip(n + 1))
    } else {
        s
    }
}

/// `first_newline` finds the first line feed.
pub proof fn first_newline_found(s: Seq<u8>)
    ensures
        0 <= first_newline(s) <= s.len(),
        first_newline(s) < s.len() ==> s[first_newline(s)] == NEWLINE,
        forall|i: int| 0 <= i < first_newline(s) ==> #[trigger] s[i] != NEWLINE,
    decreases s.len(),
{
    if s.len() > 0 && s[0] != NEWLINE {
        let rest = s.drop_first();
        first_newline_found(rest);
        assert forall|i: int| 0 <= i < first_newline(s) implies #[trigger] s[i] != NEWLINE by {
            if i > 0 {
                assert(rest[i - 1] == s[i]);
            }
        }
    }
}

proof fn first_newline_unique(s: Seq<u8>, n: int)
    requires
        0 <= n <= s.len(),
        n < s.len() ==> s[n] == NEWLINE,
        forall|i: int| 0 <= i < n ==> #[trigger] s[i] != NEWLINE,
    ensures
        first_newline(s) == n,
{
    first_newline_found(s);
    let m = first_newline(s);
    if m < n {
        assert(s[m] != NEWLINE);
    }
    if n < m {
        assert(s[n] != NEWLINE);
    }
}

/// Reading bytes in two parts gives the lines of the whole: what the first
/// part left unfinished goes before the second, and no line is lost, torn or
/// read twice.
pub proof fn lines_survive_any_split(a: Seq<u8>, b: Seq<u8>)
    ensures
        complete_lines(a + b) == complete_lines(a) + complete_lines(unfinished(a) + b),
        unfinished(a + b) == unfinished(unfinished(a) + b),
    decreases a.len(),
{
    let n = first_newline(a);
    first_newline_found(a);
    if n < a.len() {
        let s = a + b;
        assert forall|i: int| 0 <= i < n implies #[trigger] s[i] != NEWLINE by {
            assert(s[i] == a[i]);
        }
        first_newline_unique(s, n);
        assert(s.take(n) =~= a.take(n));
        assert(s.skip(n + 1) =~= a.skip(n + 1) + b);
        lines_survive_any_split(a.skip(n + 1), b);
        let rest = complete_lines(unfinished(a) + b);
        assert(seq![a.take(n)] + (complete_lines(a.skip(n + 1)) + rest) =~= (seq![a.take(n)] + complete_lines(
            a.skip(n + 1),
        )) + rest);
    } else {
        assert(complete_lines(a) + complete_lines(unfinished(a) + b) =~= complete_lines(a + b));
    }
}

/// A complete line holds no line feed, and neither does what is unfinished.
pub proof fn unfinished_has_no_newline(s: Seq<u8>)
    ensures
        forall|i: int| 0 <= i < unfinished(s).len() ==> #[trigger] unfinished(s)[i] != NEWLINE,
        complete_lines(unfinished(s)).len() == 0,
    decreases s.len(),
{
    first_newline_found(s);
    let n = first_newline(s);
    if n < s.len() {
        unfinished_has_no_newline(s.skip(n + 1));
    }
}

/// Lists of bytes as values.
pub open spec fn line_views(v: Seq<Vec<u8>>) -> Seq<Seq<u8>> {
    Seq::new(v.len(), |i: int| v[i]@)
}

/// The last `n` of a sequence, or all of it.
pub open spec fn last_of(s: Seq<Seq<u8>>, n: int) -> Seq<Seq<u8>> {
    if s.len() > n { s.skip(s.len() - n) } else { s }
}

/// The bytes from `start` on.
pub fn bytes_from(s: &Vec<u8>, start: usize) -> (r: Vec<u8>)
    requires
        start <= s@.len(),
    ensures
        r@ == s@.skip(start as int),
{
    let r = bytes_between(s, start, s.len());
    assert(r@ =~= s@.skip(start as int));
    r
}

/// The bytes `start..end`.
pub fn bytes_between(s: &Vec<u8>, start: usize, end: usize) -> (r: Vec<u8>)
    requires
        start <= end <= s@.len(),
    ensures
        r@ == s@.subrange(start as int, end as int),
{
    let mut r: Vec<u8> = Vec::new();
    let mut i: usize = start;
    while i < end
        invariant
            start <= i <= end <= s@.len(),
            r@ == s@.subrange(start as int, i as int),
        decreases end - i,
    {
        r.push(s[i]);
        i = i + 1;
        assert(s@.subrange(start as int, i as int) =~= s@.subrange(start as int, i - 1).push(s@[i - 1]));
    }
    r
}

/// Where the first line feed at or behind `start` is, or the length.
pub fn newline_index(s: &Vec<u8>, start: usize) -> (r: usize)
    requires
        start <= s@.len(),
    ensures
        r == start + first_newline(s@.skip(start as int)),
        start <= r <= s@.len(),
{
    let ghost rest = s@.skip(start as int);
    let mut i: usize = start;
    while i < s.len() && s[i] != NEWLINE
        invariant
            start <= i <= s@.len(),
            rest == s@.skip(start as int),
            forall|k: int| 0 <= k < i - start ==> #[trigger] rest[k] != NEWLINE,
        ensures
            start <= i <= s@.len(),
            i < s@.len() ==> rest[i - start] == NEWLINE,
            forall|k: int| 0 <= k < i - start ==> #[trigger] rest[k] != NEWLINE,
        decreases s@.len() - i,
    {
        assert(rest[i - start] == s@[i as int]);
        i = i + 1;
    }
    proof {
        first_newline_unique(rest, i - start);
    }
    i
}

/// Splits bytes into complete lines and what is unfinished.
pub fn split_lines(s: &Vec<u8>) -> (r: (Vec<Vec<u8>>, Vec<u8>))
    ensures
        line_views(r.0@) == complete_lines(s@),
        r.1@ == unfinished(s@),
{
    let mut lines: Vec<Vec<u8>> = Vec::new();
    let mut start: usize = 0;
    assert(s@.skip(0) =~= s@);
    assert(line_views(lines@) + complete_lines(s@) =~= complete_lines(s@));
    let mut end: usize = newline_index(s, start);
    while end < s.len()
        invariant
            start <= end <= s@.len(),
            end == start + first_newline(s@.skip(start as int)),
            complete_lines(s@) == line_views(lines@) + complete_lines(s@.skip(start as int)),
            unfinished(s@) == unfinished(s@.skip(start as int)),
        decreases s@.len() - start,
    {
        let ghost before = line_views(lines@);
        let ghost rest = s@.skip(start as int);
        let line = bytes_between(s, start, end);
        assert(line@ =~= rest.take(end - start));
        assert(rest.skip(end - start + 1) =~= s@.skip(end + 1));
        lines.push(line);
        assert(line_views(lines@) =~= before.push(line@));
        assert(before + (seq![line@] + complete_lines(s@.skip(end + 1))) =~= line_views(lines@) + complete_lines(
            s@.skip(end + 1),
        ));
        start = end + 1;
        end = newline_index(s, start);
    }
    assert(line_views(lines@) + Seq::<Seq<u8>>::empty() =~= line_views(lines@));
    let rest = bytes_from(s, start);
    (lines, rest)
}

/// A line without the carriage return at its end.
pub open spec fn without_return(s: Seq<u8>) -> Seq<u8> {
    if s.len() > 0 && s.last() == 13 { s.drop_last() } else { s }
}

/// The lines of a text: the complete ones, without carriage returns, and what
/// is unfinished, if anything.
pub open spec fn text_lines(s: Seq<u8>) -> Seq<Seq<u8>> {
    complete_lines(s).map_values(|l: Seq<u8>| without_return(l)) + (if unfinished(s).len() > 0 {
        seq![unfinished(s)]
    } else {
        Seq::empty()
    })
}

/// Splits a text into its lines.
pub fn split_text(s: &Vec<u8>) -> (r: Vec<Vec<u8>>)
    ensures
        line_views(r@) == text_lines(s@),
{
    let (complete, rest) = split_lines(s);
    let mut out: Vec<Vec<u8>> = Vec::new();
    let mut i: usize = 0;
    let ghost trimmed = complete_lines(s@).map_values(|l: Seq<u8>| without_return(l));
    assert(line_views(out@) =~= trimmed.take(0));
    while i < complete.len()
        invariant
            i <= complete@.len(),
            line_views(complete@) == complete_lines(s@),
            trimmed == complete_lines(s@).map_values(|l: Seq<u8>| without_return(l)),
            line_views(out@) == trimmed.take(i as int),
        decreases complete@.len() - i,
    {
        let ghost before = line_views(out@);
        let line = &complete[i];
        assert(line_views(complete@)[i as int] == line@);
        let n: usize = line.len();
        let kept = if n > 0 && line[n - 1] == 13 {
            let k = bytes_between(line, 0, n - 1);
            assert(k@ =~= line@.drop_last());
            k
        } else {
            let k = bytes_between(line, 0, n);
            assert(k@ =~= line@);
            k
        };
        out.push(kept);
        i = i + 1;
        assert(trimmed.take(i as int) =~= trimmed.take(i - 1).push(trimmed[i - 1]));
        assert(line_views(out@) =~= before.push(kept@));
    }
    assert(trimmed.take(i as int) =~= trimmed);
    if rest.len() > 0 {
        let ghost last = rest@;
        out.push(rest);
        assert(line_views(out@) =~= trimmed + seq![last]);
    } else {
        assert(line_views(out@) =~= trimmed + Seq::<Seq<u8>>::empty());
    }
    out
}

fn continues(b: u8) -> (r: bool)
    ensures
        r == is_continuation_byte(b),
{
    0x80 <= b && b <= 0xbf
}

fn bits(b: u8) -> (r: u32)
    ensures
        r == continuation_bits(b),
{
    (b & 0x3f) as u32
}

/// The length of the character that starts at `i`, or 0 where none does.
fn scalar_length(s: &Vec<u8>, i: usize) -> (r: usize)
    requires
        i < s@.len(),
    ensures
        r == (if valid_first_scalar(s@.skip(i as int)) { length_of_first_scalar(s@.skip(i as int)) } else { 0 }),
        r <= s@.len() - i,
{
    let ghost rest = s@.skip(i as int);
    let left: usize = s.len() - i;
    let a: u8 = s[i];
    assert(rest[0] == a);
    if a <= 0x7f {
        assert(a & 0x7f == a) by (bit_vector)
            requires
                a <= 0x7f,
        ;
        1
    } else if 0xc0 <= a && a <= 0xdf {
        if left < 2 {
            return 0;
        }
        let b: u8 = s[i + 1];
        assert(rest[1] == b);
        let code: u32 = (((a & 0x1F) as u32) << 6) | bits(b);
        if continues(b) && 0x80 <= code && !(0xD800 <= code && code <= 0xDFFF) { 2 } else { 0 }
    } else if 0xe0 <= a && a <= 0xef {
        if left < 3 {
            return 0;
        }
        let b: u8 = s[i + 1];
        let c: u8 = s[i + 2];
        assert(rest[1] == b);
        assert(rest[2] == c);
        let code: u32 = (((a & 0x0F) as u32) << 12) | (bits(b) << 6) | bits(c);
        if continues(b) && continues(c) && 0x800 <= code && !(0xD800 <= code && code <= 0xDFFF) { 3 } else { 0 }
    } else if 0xf0 <= a && a <= 0xf7 {
        if left < 4 {
            return 0;
        }
        let b: u8 = s[i + 1];
        let c: u8 = s[i + 2];
        let d: u8 = s[i + 3];
        assert(rest[1] == b);
        assert(rest[2] == c);
        assert(rest[3] == d);
        let code: u32 = (((a & 0x07) as u32) << 18) | (bits(b) << 12) | (bits(c) << 6) | bits(d);
        if continues(b) && continues(c) && continues(d) && 0x10000 <= code && code <= 0x10ffff { 4 } else { 0 }
    } else {
        0
    }
}

/// Whether bytes are text.
pub fn is_utf8(s: &Vec<u8>) -> (r: bool)
    ensures
        r == valid_utf8(s@),
{
    let mut i: usize = 0;
    assert(s@.skip(0) =~= s@);
    while i < s.len()
        invariant
            i <= s@.len(),
            valid_utf8(s@) == valid_utf8(s@.skip(i as int)),
        decreases s@.len() - i,
    {
        let n: usize = scalar_length(s, i);
        if n == 0 {
            return false;
        }
        assert(pop_first_scalar(s@.skip(i as int)) =~= s@.skip(i + n));
        i = i + n;
    }
    true
}

} // verus!
