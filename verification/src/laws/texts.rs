//! Texts, paths and numbers.
use vstd::prelude::*;

use crate::format::{blanks, left_aligned, nearest, right_aligned, seconds, tenths};
use crate::laws::rules::{folded, paths_are_compared, same_file};
use crate::number::{digit_value, digits_value, number_value, white, NumberError};
use crate::text::{
    at_or_below, decimal, digit_char, equal_ignoring_case, lower_code, path_codes, without_front_quotes,
    without_quotes, without_trailing_separators,
};

verus! {

/// The two characters are the same letter, or the same character.
pub open spec fn same_letter(a: char, b: char) -> bool {
    ||| a as u32 == b as u32
    ||| 'A' as u32 <= a as u32 <= 'Z' as u32 && b as u32 == a as u32 + 32
    ||| 'A' as u32 <= b as u32 <= 'Z' as u32 && a as u32 == b as u32 + 32
}

/// Texts that differ in the case of ASCII letters alone are equal without
/// regard to case, and no others are.
pub proof fn case_is_ignored(a: Seq<char>, b: Seq<char>)
    ensures
        equal_ignoring_case(a, b) <==> a.len() == b.len() && forall|i: int|
            0 <= i < a.len() ==> same_letter(#[trigger] a[i], b[i]),
{
    if equal_ignoring_case(a, b) {
        assert forall|i: int| 0 <= i < a.len() implies same_letter(#[trigger] a[i], b[i]) by {
            assert(lower_code(a[i]) == lower_code(b[i]));
        }
    }
    if a.len() == b.len() && forall|i: int| 0 <= i < a.len() ==> same_letter(#[trigger] a[i], b[i]) {
        assert forall|i: int| 0 <= i < a.len() implies lower_code(#[trigger] a[i]) == lower_code(b[i]) by {
            assert(same_letter(a[i], b[i]));
        }
    }
}

/// A separator of a path: a backslash, or the slash that counts as one.
pub open spec fn slash(c: char) -> bool {
    folded(c) == '\\' as u32
}

proof fn trailing_slashes(dir: Seq<char>, k: int)
    requires
        0 <= k <= dir.len(),
        k == 0 || !slash(dir[k - 1]),
        forall|i: int| k <= i < dir.len() ==> slash(#[trigger] dir[i]),
    ensures
        without_trailing_separators(path_codes(dir)) == path_codes(dir.take(k)),
    decreases dir.len(),
{
    let codes = path_codes(dir);
    if k < dir.len() {
        assert(slash(dir.last()));
        assert(codes.last() == 92);
        assert(codes.drop_last() =~= path_codes(dir.drop_last()));
        trailing_slashes(dir.drop_last(), k);
        assert(dir.drop_last().take(k) =~= dir.take(k));
    } else {
        assert(dir.take(k) =~= dir);
        if k > 0 {
            assert(codes.last() == folded(dir[k - 1]));
        }
    }
}

/// A path lies at or below a directory if it names the directory, or goes on
/// behind it with a separator; separators at the end of the directory count
/// for nothing. A longer name of a neighbour does not lie below it.
pub proof fn directories_hold_what_is_below(path: Seq<char>, dir: Seq<char>, k: int)
    requires
        0 <= k <= dir.len(),
        k == 0 || !slash(dir[k - 1]),
        forall|i: int| k <= i < dir.len() ==> slash(#[trigger] dir[i]),
    ensures
        at_or_below(path, dir) <==> path.len() >= k && same_file(path.take(k), dir.take(k)) && (path.len() == k || slash(
            path[k],
        )),
{
    trailing_slashes(dir, k);
    let d = path_codes(dir.take(k));
    let p = path_codes(path);
    if path.len() >= k {
        paths_are_compared(path.take(k), dir.take(k));
        assert(path_codes(path.take(k)) =~= p.take(k));
        if path.len() == k {
            assert(path.take(k) =~= path);
        } else {
            assert(p[k] == folded(path[k]));
            assert(slash(path[k]) <==> p[k] == 92);
            if d.push(92).is_prefix_of(p) {
                assert(d.push(92)[k] == p[k]);
                assert(p.take(k) =~= d) by {
                    assert forall|i: int| 0 <= i < k implies p[i] == d[i] by {
                        assert(d.push(92)[i] == p[i]);
                    }
                }
            }
            if p.take(k) == d && p[k] == 92 {
                assert(d.push(92) =~= p.take(k + 1));
                assert(d.push(92).is_prefix_of(p));
            }
        }
    } else {
        assert(p.len() < d.len());
        assert(!d.push(92).is_prefix_of(p));
    }
}

/// The quotes around a text are taken off, whatever their number, and no
/// other character.
pub proof fn quotes_come_off(front: nat, text: Seq<char>, back: nat)
    requires
        text.len() > 0 ==> text[0] != '"' && text.last() != '"',
    ensures
        without_quotes(Seq::new(front, |i: int| '"') + text + Seq::new(back, |i: int| '"')) == text,
    decreases front + back,
{
    let f = Seq::new(front, |i: int| '"');
    let b = Seq::new(back, |i: int| '"');
    let s = f + text + b;
    if front > 0 {
        assert(s.drop_first() =~= Seq::new((front - 1) as nat, |i: int| '"') + text + b);
        quotes_come_off((front - 1) as nat, text, back);
        assert(s[0] == '"');
    } else if text.len() == 0 {
        if back > 0 {
            assert(s.drop_first() =~= Seq::new(0, |i: int| '"') + text + Seq::new((back - 1) as nat, |i: int| '"'));
            quotes_come_off(0, text, (back - 1) as nat);
            assert(s[0] == '"');
        } else {
            assert(s =~= text);
        }
    } else {
        assert(s[0] == text[0]);
        assert(without_front_quotes(s) == s);
        if back > 0 {
            let t = f + text + Seq::new((back - 1) as nat, |i: int| '"');
            assert(s.drop_last() =~= t);
            assert(t[0] == text[0]);
            assert(without_front_quotes(t) == t);
            quotes_come_off(0, text, (back - 1) as nat);
            assert(s.last() == '"');
        } else {
            assert(s =~= text);
        }
    }
}

/// White space: tabs, line ends and blanks, and the wider blanks of Unicode.
/// No printable ASCII character is among it.
pub proof fn white_space(c: char)
    ensures
        white(c) ==> !('!' as u32 <= c as u32 <= '~' as u32),
        c == ' ' || c == '\t' || c == '\n' || c == '\r' || c as u32 == 11 || c as u32 == 12 ==> white(c),
        (c as u32) < 9 || 14 <= c as u32 <= 31 || 0x7f <= c as u32 <= 0x84 || 0x86 <= c as u32 <= 0x9f ==> !white(c),
        0xa1 <= c as u32 <= 0x167f || 0x1681 <= c as u32 <= 0x1fff || 0x3001 <= c as u32 ==> !white(c),
        0x200b <= c as u32 <= 0x2027 || 0x202a <= c as u32 <= 0x202e || 0x2030 <= c as u32 <= 0x205e ==> !white(c),
        0x2060 <= c as u32 <= 0x2fff ==> !white(c),
        c as u32 == 0x85 || c as u32 == 0xa0 || c as u32 == 0x1680 || c as u32 == 0x3000 ==> white(c),
        0x2000 <= c as u32 <= 0x200a || 0x2028 <= c as u32 <= 0x2029 || c as u32 == 0x202f || c as u32 == 0x205f
            ==> white(c),
{
}

/// Digits stand for their values, up to fifteen in lower case; in reading,
/// either case does.
pub proof fn digits_stand_for_values(d: nat, c: char)
    ensures
        d < 10 ==> digit_char(d) as u32 == '0' as u32 + d,
        10 <= d < 16 ==> digit_char(d) as u32 == 'a' as u32 + (d - 10),
        '0' as u32 <= c as u32 <= '9' as u32 ==> digit_value(c) == c as u32 - '0' as u32,
        'a' as u32 <= c as u32 <= 'z' as u32 ==> digit_value(c) == 10 + (c as u32 - 'a' as u32),
        'A' as u32 <= c as u32 <= 'Z' as u32 ==> digit_value(c) == 10 + (c as u32 - 'A' as u32),
        !('0' as u32 <= c as u32 <= '9' as u32) && !('a' as u32 <= c as u32 <= 'z' as u32) && !('A' as u32 <= c as u32
            <= 'Z' as u32) ==> digit_value(c) >= 36,
{
}

/// The value of a decimal digit.
pub open spec fn digit(c: char) -> int {
    c as u32 - '0' as u32
}

/// What a row of decimal digits stands for.
pub open spec fn row_value(s: Seq<char>) -> int
    decreases s.len(),
{
    if s.len() == 0 {
        0
    } else {
        10 * row_value(s.drop_last()) + digit(s.last())
    }
}

/// A row of decimal digits.
pub open spec fn row(s: Seq<char>) -> bool {
    s.len() > 0 && forall|i: int| 0 <= i < s.len() ==> 0 <= digit(#[trigger] s[i]) <= 9
}

/// A number in decimal is a row of digits that stands for it, without needless
/// zeros.
pub proof fn decimals_stand_for_numbers(n: nat)
    ensures
        row(decimal(n)),
        row_value(decimal(n)) == n,
        decimal(n).len() > 1 ==> digit(decimal(n)[0]) != 0,
    decreases n,
{
    let s = decimal(n);
    if n < 10 {
        assert(s.drop_last() =~= Seq::empty());
        assert(row_value(s.drop_last()) == 0);
    } else {
        let front = decimal(n / 10);
        decimals_stand_for_numbers(n / 10);
        assert(s == front.push(digit_char(n % 10)));
        assert(s.drop_last() =~= front);
        assert forall|i: int| 0 <= i < s.len() implies 0 <= digit(#[trigger] s[i]) <= 9 by {
            if i < front.len() {
                assert(s[i] == front[i]);
            }
        }
        assert(s[0] == front[0]);
        if front.len() == 1 {
            assert(front.drop_last() =~= Seq::empty());
            assert(row_value(front.drop_last()) == 0);
            assert(row_value(front) == digit(front.last()));
        }
    }
}

/// Aligned texts keep the text and fill up with blanks to the width: behind
/// it to the left, before it to the right.
pub proof fn aligned_texts(s: Seq<char>, width: int, i: int)
    ensures
        ({
            let l = left_aligned(s, width);
            let r = right_aligned(s, width);
            let n = if width > s.len() { width } else { s.len() as int };
            &&& l.len() == n && r.len() == n
            &&& l.take(s.len() as int) == s
            &&& r.skip(n - s.len()) == s
            &&& s.len() <= i < n ==> l[i] == ' '
            &&& 0 <= i < n - s.len() ==> r[i] == ' '
        }),
{
    let l = left_aligned(s, width);
    let r = right_aligned(s, width);
    assert(l.take(s.len() as int) =~= s);
    assert(r.skip(r.len() - s.len()) =~= s);
}

/// A rounded quotient is off by half at most, and even where two are equally
/// near.
pub proof fn quotients_are_rounded(n: int, d: int)
    requires
        d > 0,
    ensures
        -d <= 2 * (d * nearest(n, d) - n) <= d,
        2 * (d * nearest(n, d) - n) == d || 2 * (n - d * nearest(n, d)) == d ==> nearest(n, d) % 2 == 0,
{
    let q = n / d;
    let r = n % d;
    assert(n == d * q + r && 0 <= r < d) by (nonlinear_arith)
        requires
            q == n / d,
            r == n % d,
            d > 0,
    ;
    assert(d * (q + 1) == d * q + d) by (nonlinear_arith);
}

/// Tenths are written behind a point; a duration in seconds has one, rounded.
pub proof fn durations_have_one_decimal(t: nat, ms: u64)
    ensures
        ({
            let s = tenths(t);
            &&& s.len() >= 3
            &&& s[s.len() - 2] == '.'
            &&& row(s.take(s.len() - 2))
            &&& row_value(s.take(s.len() - 2)) == t / 10
            &&& digit(s.last()) == t % 10
        }),
        exists|u: nat| -100 <= 2 * (100 * u - ms) <= 100 && #[trigger] tenths(u) == seconds(ms),
{
    reveal_strlit(".");
    let whole = decimal(t / 10);
    let s = tenths(t);
    decimals_stand_for_numbers(t / 10);
    assert(decimal(t % 10) =~= seq![digit_char(t % 10)]);
    assert(s =~= whole + seq!['.', digit_char(t % 10)]);
    assert(s.take(s.len() - 2) =~= whole);
    quotients_are_rounded(ms as int, 100);
    assert(nearest(ms as int, 100) >= 0);
    assert(tenths(nearest(ms as int, 100) as nat) == seconds(ms));
}

/// A row of digits read from its front, behind what was read already.
spec fn read_on(acc: int, s: Seq<char>) -> int
    decreases s.len(),
{
    if s.len() == 0 {
        acc
    } else {
        read_on(10 * acc + digit(s[0]), s.drop_first())
    }
}

proof fn front_and_back_agree(acc: int, s: Seq<char>, c: char)
    ensures
        read_on(acc, s.push(c)) == 10 * read_on(acc, s) + digit(c),
    decreases s.len(),
{
    let t = s.push(c);
    if s.len() == 0 {
        assert(t.drop_first() =~= Seq::<char>::empty());
        assert(read_on(10 * acc + digit(t[0]), t.drop_first()) == 10 * acc + digit(c));
    } else {
        assert(t.drop_first() =~= s.drop_first().push(c));
        assert(t[0] == s[0]);
        front_and_back_agree(10 * acc + digit(s[0]), s.drop_first(), c);
    }
}

proof fn rows_are_read(s: Seq<char>)
    ensures
        read_on(0, s) == row_value(s),
    decreases s.len(),
{
    if s.len() > 0 {
        rows_are_read(s.drop_last());
        front_and_back_agree(0, s.drop_last(), s.last());
        assert(s.drop_last().push(s.last()) =~= s);
    }
}

proof fn digits_are_read(s: Seq<char>, acc: int, max: int)
    requires
        0 <= acc <= max,
        forall|i: int| 0 <= i < s.len() ==> 0 <= digit(#[trigger] s[i]) <= 9,
    ensures
        read_on(acc, s) >= acc,
        digits_value(s, 10, acc, max) == (if read_on(acc, s) <= max {
            Ok::<int, NumberError>(read_on(acc, s))
        } else {
            Err(NumberError::TooLarge)
        }),
    decreases s.len(),
{
    if s.len() > 0 {
        let next = 10 * acc + digit(s[0]);
        let rest = s.drop_first();
        assert(0 <= digit(s[0]) <= 9);
        assert(digit_value(s[0]) == digit(s[0]));
        assert(acc * 10 + digit_value(s[0]) == next);
        assert forall|i: int| 0 <= i < rest.len() implies 0 <= digit(#[trigger] rest[i]) <= 9 by {
            assert(rest[i] == s[i + 1]);
        }
        if next <= max {
            digits_are_read(rest, next, max);
        } else {
            digits_are_read(rest, next, next);
        }
    }
}

proof fn other_characters_are_refused(s: Seq<char>, acc: int, max: int, k: int)
    requires
        0 <= k < s.len(),
        !(0 <= digit(s[k]) <= 9),
    ensures
        digits_value(s, 10, acc, max) is Err,
    decreases s.len(),
{
    if k == 0 {
        digits_stand_for_values(0, s[0]);
    } else {
        assert(s.drop_first()[k - 1] == s[k]);
        if digit_value(s[0]) < 10 && acc * 10 + digit_value(s[0]) <= max {
            other_characters_are_refused(s.drop_first(), acc * 10 + digit_value(s[0]), max, k - 1);
        }
    }
}

/// A row of decimal digits, with a plus sign or without, is read as the number
/// that it stands for, unless that is too large; a text with another character
/// in it is no number, and neither is an empty one.
pub proof fn numbers_are_read(s: Seq<char>, max: int)
    requires
        max >= 0,
    ensures
        row(s) ==> number_value(s, 10, max) == (if row_value(s) <= max {
            Ok::<int, NumberError>(row_value(s))
        } else {
            Err(NumberError::TooLarge)
        }),
        row(s) ==> number_value(seq!['+'] + s, 10, max) == number_value(s, 10, max),
        !row(s) && (s.len() == 0 || s[0] != '+') ==> number_value(s, 10, max) is Err,
        !row(s) ==> number_value(seq!['+'] + s, 10, max) is Err,
        s.len() == 0 ==> number_value(s, 10, max) == Err::<int, NumberError>(NumberError::Empty),
{
    assert((seq!['+'] + s).drop_first() =~= s);
    if row(s) {
        rows_are_read(s);
        digits_are_read(s, 0, max);
        assert(0 <= digit(s[0]) <= 9);
        assert(s[0] != '+');
    } else if s.len() > 0 {
        let k = choose|k: int| 0 <= k < s.len() && !(0 <= digit(#[trigger] s[k]) <= 9);
        other_characters_are_refused(s, 0, max, k);
    }
}

} // verus!
