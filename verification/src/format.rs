//! Text layout: joining, padding, and numbers with one decimal.
use vstd::prelude::*;

use crate::text::{decimal, decimal_text, text_of};

verus! {

/// Two texts in a row.
pub fn cat2(a: &str, b: &str) -> (r: String)
    ensures
        r@ == a@ + b@,
{
    let mut s = String::from_str(a);
    s.append(b);
    s
}

/// Three texts in a row.
pub fn cat3(a: &str, b: &str, c: &str) -> (r: String)
    ensures
        r@ == a@ + b@ + c@,
{
    let mut s = cat2(a, b);
    s.append(c);
    s
}

/// Four texts in a row.
pub fn cat4(a: &str, b: &str, c: &str, d: &str) -> (r: String)
    ensures
        r@ == a@ + b@ + c@ + d@,
{
    let mut s = cat3(a, b, c);
    s.append(d);
    s
}

/// Five texts in a row.
pub fn cat5(a: &str, b: &str, c: &str, d: &str, e: &str) -> (r: String)
    ensures
        r@ == a@ + b@ + c@ + d@ + e@,
{
    let mut s = cat4(a, b, c, d);
    s.append(e);
    s
}

/// So many blanks.
pub open spec fn blanks(n: int) -> Seq<char> {
    Seq::new((if n > 0 { n } else { 0 }) as nat, |i: int| ' ')
}

fn blank_text(n: usize) -> (r: String)
    ensures
        r@ == blanks(n as int),
{
    let mut v: Vec<char> = Vec::new();
    let mut i: usize = 0;
    while i < n
        invariant
            i <= n,
            v@ == blanks(i as int),
        decreases n - i,
    {
        v.push(' ');
        i = i + 1;
        assert(blanks(i as int) =~= blanks(i - 1).push(' '));
    }
    text_of(&v)
}

/// A text with blanks behind it up to a width.
pub open spec fn left_aligned(s: Seq<char>, width: int) -> Seq<char> {
    s + blanks(width - s.len())
}

/// A text with blanks before it up to a width.
pub open spec fn right_aligned(s: Seq<char>, width: int) -> Seq<char> {
    blanks(width - s.len()) + s
}

/// Puts blanks behind a text up to a width.
pub fn align_left(s: &str, width: usize) -> (r: String)
    ensures
        r@ == left_aligned(s@, width as int),
{
    let n: usize = s.unicode_len();
    if n < width {
        cat2(s, blank_text(width - n).as_str())
    } else {
        assert(left_aligned(s@, width as int) =~= s@);
        String::from_str(s)
    }
}

/// Puts blanks before a text up to a width.
pub fn align_right(s: &str, width: usize) -> (r: String)
    ensures
        r@ == right_aligned(s@, width as int),
{
    let n: usize = s.unicode_len();
    if n < width {
        cat2(blank_text(width - n).as_str(), s)
    } else {
        assert(right_aligned(s@, width as int) =~= s@);
        String::from_str(s)
    }
}

/// The whole number nearest to `n / d`; halfway between two, the even one.
pub open spec fn nearest(n: int, d: int) -> int {
    let q = n / d;
    let r = n % d;
    if 2 * r > d || (2 * r == d && q % 2 == 1) { q + 1 } else { q }
}

/// The whole number nearest to `n / d`; halfway between two, the even one.
pub fn nearest_of(n: u64, d: u64) -> (r: u64)
    requires
        2 <= d,
    ensures
        r == nearest(n as int, d as int),
{
    let q: u64 = n / d;
    let rest: u64 = n % d;
    assert(q <= n / 2) by (nonlinear_arith)
        requires
            q == n / d,
            2 <= d,
    ;
    let twice: u128 = rest as u128 * 2;
    if twice > d as u128 || (twice == d as u128 && q % 2 == 1) { q + 1 } else { q }
}

/// The whole number nearest to `n / d`, where that fits.
pub fn nearest_wide(n: u128, d: u64) -> (r: u64)
    requires
        2 <= d,
        n / (d as u128) < u64::MAX,
    ensures
        r == nearest(n as int, d as int),
{
    let q: u64 = (n / d as u128) as u64;
    let rest: u128 = n % d as u128;
    assert(rest < d) by (nonlinear_arith)
        requires
            rest == n % d as u128,
            2 <= d,
    ;
    if rest * 2 > d as u128 || (rest * 2 == d as u128 && q % 2 == 1) { q + 1 } else { q }
}

/// A count of tenths with one decimal.
pub open spec fn tenths(t: nat) -> Seq<char> {
    decimal(t / 10) + "."@ + decimal(t % 10)
}

/// Formats a count of tenths with one decimal.
pub fn tenths_text(t: u64) -> (r: String)
    ensures
        r@ == tenths(t as nat),
{
    cat3(decimal_text(t / 10).as_str(), ".", decimal_text(t % 10).as_str())
}

/// Milliseconds as seconds with one decimal.
pub open spec fn seconds(ms: u64) -> Seq<char> {
    tenths(nearest(ms as int, 100) as nat)
}

/// Formats milliseconds as seconds with one decimal.
pub fn seconds_text(ms: u64) -> (r: String)
    ensures
        r@ == seconds(ms),
{
    tenths_text(nearest_of(ms, 100))
}

/// A truth value in words.
pub open spec fn truth(b: bool) -> Seq<char> {
    if b { "true"@ } else { "false"@ }
}

/// A truth value in words.
pub fn truth_text(b: bool) -> (r: &'static str)
    ensures
        r@ == truth(b),
{
    if b { "true" } else { "false" }
}

/// A level that may be missing.
pub open spec fn maybe_level(l: Option<u16>) -> Seq<char> {
    match l {
        Some(n) => "Some("@ + decimal(n as nat) + ")"@,
        None => "None"@,
    }
}

/// Formats a level that may be missing.
pub fn maybe_level_text(l: Option<u16>) -> (r: String)
    ensures
        r@ == maybe_level(l),
{
    match l {
        Some(n) => cat3("Some(", decimal_text(n as u64).as_str(), ")"),
        None => String::from_str("None"),
    }
}

/// The text holds the part somewhere.
pub open spec fn holds(text: Seq<char>, part: Seq<char>) -> bool {
    exists|i: int| #[trigger] holds_at(text, part, i)
}

pub open spec fn holds_at(text: Seq<char>, part: Seq<char>, i: int) -> bool {
    0 <= i && i + part.len() <= text.len() && text.subrange(i, i + part.len()) == part
}

fn part_at(text: &Vec<char>, part: &Vec<char>, i: usize) -> (r: bool)
    requires
        i + part@.len() <= text@.len(),
    ensures
        r == holds_at(text@, part@, i as int),
{
    let mut k: usize = 0;
    let n: usize = text.len();
    while k < part.len()
        invariant
            k <= part@.len(),
            i + part@.len() <= n,
            n == text@.len(),
            forall|x: int| 0 <= x < k ==> text@[i + x] == #[trigger] part@[x],
        decreases part@.len() - k,
    {
        if text[i + k] != part[k] {
            assert(text@.subrange(i as int, i + part@.len())[k as int] != part@[k as int]);
            return false;
        }
        k = k + 1;
    }
    assert(text@.subrange(i as int, i + part@.len()) =~= part@);
    true
}

/// Whether the text holds the part somewhere.
pub fn text_holds(text: &str, part: &str) -> (r: bool)
    ensures
        r == holds(text@, part@),
{
    let t = crate::text::chars_of(text);
    let p = crate::text::chars_of(part);
    if p.len() > t.len() {
        return false;
    }
    let last: usize = t.len() - p.len();
    let mut i: usize = 0;
    while i < last
        invariant
            last == t@.len() - p@.len(),
            i <= last,
            t@ == text@,
            p@ == part@,
            forall|x: int| 0 <= x < i ==> !#[trigger] holds_at(text@, part@, x),
        decreases last - i,
    {
        if part_at(&t, &p, i) {
            assert(holds_at(text@, part@, i as int));
            return true;
        }
        i = i + 1;
    }
    let found = part_at(&t, &p, last);
    assert(found == holds_at(text@, part@, last as int));
    found
}

/// The text ends in the part.
pub open spec fn ends_in(text: Seq<char>, part: Seq<char>) -> bool {
    holds_at(text, part, text.len() - part.len())
}

/// Whether the text ends in the part.
pub fn text_ends_in(text: &str, part: &str) -> (r: bool)
    ensures
        r == ends_in(text@, part@),
{
    let t = crate::text::chars_of(text);
    let p = crate::text::chars_of(part);
    p.len() <= t.len() && part_at(&t, &p, t.len() - p.len())
}

} // verus!
