//! Numbers in text: parsing as the standard library does it, and what
//! formatting and parsing have to do with each other.
use vstd::prelude::*;

use crate::text::{chars_of, decimal, digit_char, equal_ignoring_case, numeral};

verus! {

/// Why a text is no number.
#[derive(Clone, Copy, Debug, PartialEq, Eq, Structural)]
pub enum NumberError {
    Empty,
    InvalidDigit,
    TooLarge,
}

impl NumberError {
    pub open spec fn spec_text(self) -> Seq<char> {
        match self {
            NumberError::Empty => "cannot parse integer from empty string"@,
            NumberError::InvalidDigit => "invalid digit found in string"@,
            NumberError::TooLarge => "number too large to fit in target type"@,
        }
    }

    /// The error in words.
    pub fn text(&self) -> (r: String)
        ensures
            r@ == self.spec_text(),
    {
        match *self {
            NumberError::Empty => String::from_str("cannot parse integer from empty string"),
            NumberError::InvalidDigit => String::from_str("invalid digit found in string"),
            NumberError::TooLarge => String::from_str("number too large to fit in target type"),
        }
    }
}

/// The value of a digit in any base up to 36, or 36 if it is none.
pub open spec fn digit_value(c: char) -> int {
    let n = c as u32;
    if 48 <= n <= 57 {
        n - 48
    } else if 65 <= n <= 90 {
        n - 55
    } else if 97 <= n <= 122 {
        n - 87
    } else {
        36
    }
}

fn value_of_digit(c: char) -> (r: u64)
    ensures
        r == digit_value(c),
        r <= 36,
{
    let n: u32 = c as u32;
    if 48 <= n && n <= 57 {
        (n - 48) as u64
    } else if 65 <= n && n <= 90 {
        (n - 55) as u64
    } else if 97 <= n && n <= 122 {
        (n - 87) as u64
    } else {
        36
    }
}

/// The number that digits stand for, read from the left after `acc`; the
/// first character that is no digit, or that makes the number larger than
/// `max`, decides the error.
pub open spec fn digits_value(s: Seq<char>, base: int, acc: int, max: int) -> Result<int, NumberError>
    decreases s.len(),
{
    if s.len() == 0 {
        Ok(acc)
    } else if digit_value(s[0]) >= base {
        Err(NumberError::InvalidDigit)
    } else if acc * base + digit_value(s[0]) > max {
        Err(NumberError::TooLarge)
    } else {
        digits_value(s.drop_first(), base, acc * base + digit_value(s[0]), max)
    }
}

/// The number that a text stands for: at least one digit, with an optional
/// plus sign before it.
pub open spec fn number_value(s: Seq<char>, base: int, max: int) -> Result<int, NumberError> {
    if s.len() == 0 {
        Err(NumberError::Empty)
    } else if s[0] == '+' {
        if s.len() == 1 {
            Err(NumberError::InvalidDigit)
        } else {
            digits_value(s.drop_first(), base, 0, max)
        }
    } else {
        digits_value(s, base, 0, max)
    }
}

fn parse_digits(v: &Vec<char>, start: usize, base: u64, max: u64) -> (r: Result<u64, NumberError>)
    requires
        start <= v@.len(),
        2 <= base <= 36,
    ensures
        match digits_value(v@.skip(start as int), base as int, 0, max as int) {
            Ok(n) => r == Ok::<u64, NumberError>(n as u64) && 0 <= n <= max,
            Err(e) => r == Err::<u64, NumberError>(e),
        },
{
    let mut acc: u64 = 0;
    let mut i: usize = start;
    while i < v.len()
        invariant
            start <= i <= v@.len(),
            2 <= base <= 36,
            acc <= max,
            digits_value(v@.skip(start as int), base as int, 0, max as int) == digits_value(
                v@.skip(i as int),
                base as int,
                acc as int,
                max as int,
            ),
        decreases v@.len() - i,
    {
        assert(v@.skip(i as int)[0] == v@[i as int]);
        assert(v@.skip(i as int).drop_first() =~= v@.skip(i + 1));
        let d: u64 = value_of_digit(v[i]);
        if d >= base {
            return Err(NumberError::InvalidDigit);
        }
        assert(0 <= acc * base <= 0xFFFF_FFFF_FFFF_FFFF * 36) by (nonlinear_arith)
            requires
                0 <= acc <= 0xFFFF_FFFF_FFFF_FFFF,
                0 <= base <= 36,
        ;
        let next: u128 = acc as u128 * base as u128 + d as u128;
        if next > max as u128 {
            return Err(NumberError::TooLarge);
        }
        acc = next as u64;
        i = i + 1;
    }
    assert(v@.skip(i as int).len() == 0);
    Ok(acc)
}

fn parse_number(v: &Vec<char>, start: usize, base: u64, max: u64) -> (r: Result<u64, NumberError>)
    requires
        start <= v@.len(),
        2 <= base <= 36,
    ensures
        match number_value(v@.skip(start as int), base as int, max as int) {
            Ok(n) => r == Ok::<u64, NumberError>(n as u64) && 0 <= n <= max,
            Err(e) => r == Err::<u64, NumberError>(e),
        },
{
    if start == v.len() {
        return Err(NumberError::Empty);
    }
    assert(v@.skip(start as int)[0] == v@[start as int]);
    assert(v@.skip(start as int).drop_first() =~= v@.skip(start + 1));
    if v[start] == '+' {
        if start + 1 == v.len() {
            return Err(NumberError::InvalidDigit);
        }
        parse_digits(v, start + 1, base, max)
    } else {
        parse_digits(v, start, base, max)
    }
}

/// Parses a decimal number of 32 bits.
pub fn parse_u32(s: &str) -> (r: Result<u32, NumberError>)
    ensures
        match number_value(s@, 10, u32::MAX as int) {
            Ok(n) => r == Ok::<u32, NumberError>(n as u32) && 0 <= n <= u32::MAX,
            Err(e) => r == Err::<u32, NumberError>(e),
        },
{
    let v = chars_of(s);
    assert(v@.skip(0) =~= s@);
    match parse_number(&v, 0, 10, u32::MAX as u64) {
        Ok(n) => Ok(n as u32),
        Err(e) => Err(e),
    }
}

/// A character that counts as white space.
pub open spec fn white(c: char) -> bool {
    let n = c as u32;
    ||| 0x9 <= n <= 0xD
    ||| n == 0x20
    ||| n == 0x85
    ||| n == 0xA0
    ||| n == 0x1680
    ||| 0x2000 <= n <= 0x200A
    ||| n == 0x2028
    ||| n == 0x2029
    ||| n == 0x202F
    ||| n == 0x205F
    ||| n == 0x3000
}

/// Whether a character counts as white space.
pub fn is_white(c: char) -> (r: bool)
    ensures
        r == white(c),
{
    let n: u32 = c as u32;
    (0x9 <= n && n <= 0xD) || n == 0x20 || n == 0x85 || n == 0xA0 || n == 0x1680 || (0x2000 <= n && n <= 0x200A) || n
        == 0x2028 || n == 0x2029 || n == 0x202F || n == 0x205F || n == 0x3000
}

/// A text without the white space before it.
pub open spec fn trim_front(s: Seq<char>) -> Seq<char>
    decreases s.len(),
{
    if s.len() > 0 && white(s[0]) { trim_front(s.drop_first()) } else { s }
}

/// A text without the white space behind it.
pub open spec fn trim_back(s: Seq<char>) -> Seq<char>
    decreases s.len(),
{
    if s.len() > 0 && white(s.last()) { trim_back(s.drop_last()) } else { s }
}

/// A text without the white space around it.
pub open spec fn trimmed(s: Seq<char>) -> Seq<char> {
    trim_back(trim_front(s))
}

/// The characters of a text without the white space around it.
pub fn trimmed_chars(s: &str) -> (r: Vec<char>)
    ensures
        r@ == trimmed(s@),
{
    let all = chars_of(s);
    let n: usize = all.len();
    let mut start: usize = 0;
    assert(all@.skip(0) =~= s@);
    while start < n && is_white(all[start])
        invariant
            start <= n,
            n == all@.len(),
            trim_front(s@) == trim_front(all@.skip(start as int)),
        ensures
            start <= n,
            start < n ==> !white(all@[start as int]),
            trim_front(s@) == trim_front(all@.skip(start as int)),
        decreases n - start,
    {
        assert(all@.skip(start as int)[0] == all@[start as int]);
        assert(all@.skip(start as int).drop_first() =~= all@.skip(start + 1));
        start = start + 1;
    }
    proof {
        if start < n {
            assert(all@.skip(start as int)[0] == all@[start as int]);
        }
    }
    assert(trim_front(s@) == all@.skip(start as int));
    let mut v: Vec<char> = Vec::new();
    let mut i: usize = start;
    while i < n
        invariant
            start <= i <= n,
            n == all@.len(),
            v@ == all@.subrange(start as int, i as int),
        decreases n - i,
    {
        v.push(all[i]);
        i = i + 1;
        assert(all@.subrange(start as int, i as int) =~= all@.subrange(start as int, i - 1).push(all@[i - 1]));
    }
    assert(v@ =~= all@.skip(start as int));
    let ghost front = v@;
    while v.len() > 0 && is_white(v[v.len() - 1])
        invariant
            trim_back(front) == trim_back(v@),
        ensures
            v@.len() > 0 ==> !white(v@.last()),
            trim_back(front) == trim_back(v@),
        decreases v@.len(),
    {
        let ghost before = v@;
        v.pop();
        assert(v@ =~= before.drop_last());
    }
    v
}

/// A text written with a hexadecimal prefix.
pub open spec fn hex_prefixed(s: Seq<char>) -> bool {
    s.len() >= 2 && s[0] == '0' && (s[1] == 'x' || s[1] == 'X')
}

/// The number that an option stands for: hexadecimal behind `0x`, else
/// decimal; white space around it does not count.
pub open spec fn option_value(s: Seq<char>) -> Result<int, NumberError> {
    let t = trimmed(s);
    if hex_prefixed(t) {
        number_value(t.skip(2), 16, u64::MAX as int)
    } else {
        number_value(t, 10, u64::MAX as int)
    }
}

/// Parses a number given as an option.
pub fn parse_u64(value: &str) -> (r: Result<u64, NumberError>)
    ensures
        match option_value(value@) {
            Ok(n) => r == Ok::<u64, NumberError>(n as u64) && 0 <= n <= u64::MAX,
            Err(e) => r == Err::<u64, NumberError>(e),
        },
{
    let v = trimmed_chars(value);
    assert(v@.skip(0) =~= v@);
    if v.len() >= 2 && v[0] == '0' && (v[1] == 'x' || v[1] == 'X') {
        parse_number(&v, 2, 16, u64::MAX)
    } else {
        parse_number(&v, 0, 10, u64::MAX)
    }
}

/// Digits that go on after others: what is read first is the accumulator of
/// what follows.
proof fn digits_append(s: Seq<char>, c: char, base: int, acc: int, max: int)
    requires
        digits_value(s, base, acc, max) is Ok,
    ensures
        digits_value(s.push(c), base, acc, max) == digits_value(
            seq![c],
            base,
            digits_value(s, base, acc, max)->Ok_0,
            max,
        ),
    decreases s.len(),
{
    let pushed = s.push(c);
    if s.len() == 0 {
        assert(pushed =~= seq![c]);
    } else {
        assert(pushed[0] == s[0]);
        assert(pushed.drop_first() =~= s.drop_first().push(c));
        digits_append(s.drop_first(), c, base, acc * base + digit_value(s[0]), max);
    }
}

proof fn digit_round_trip(d: nat)
    requires
        d < 16,
    ensures
        digit_value(digit_char(d)) == d,
{
}

proof fn numeral_is_read_back(n: nat, base: nat, max: int)
    requires
        2 <= base <= 16,
        n <= max,
    ensures
        numeral(n, base).len() > 0,
        digits_value(numeral(n, base), base as int, 0, max) == Ok::<int, NumberError>(n as int),
    decreases n,
{
    if n < base {
        digit_round_trip(n);
        assert(numeral(n, base) =~= seq![digit_char(n)]);
        assert(seq![digit_char(n)].drop_first() =~= Seq::<char>::empty());
        assert(digits_value(Seq::<char>::empty(), base as int, n as int, max) == Ok::<int, NumberError>(n as int));
    } else {
        let q = n / base;
        let r = n % base;
        assert(q < n && q * base + r == n && r < base) by (nonlinear_arith)
            requires
                q == n / base,
                r == n % base,
                2 <= base <= n,
        ;
        numeral_is_read_back(q, base, max);
        digit_round_trip(r);
        digits_append(numeral(q, base), digit_char(r), base as int, 0, max);
        let one = seq![digit_char(r)];
        assert(one.drop_first() =~= Seq::<char>::empty());
        assert(digits_value(one, base as int, q as int, max) == Ok::<int, NumberError>((q * base + r) as int));
    }
}

/// Parsing a formatted number gives the number back.
pub proof fn formatted_numbers_parse_back(n: nat, max: int)
    requires
        n <= max,
    ensures
        number_value(decimal(n), 10, max) == Ok::<int, NumberError>(n as int),
{
    numeral_is_read_back(n, 10, max);
    first_is_a_digit(n, 10);
}

/// The first digit that goes wrong decides, whatever follows it.
proof fn digits_fail_early(s: Seq<char>, c: char, base: int, acc: int, max: int)
    requires
        digits_value(s, base, acc, max) is Err,
    ensures
        digits_value(s.push(c), base, acc, max) == digits_value(s, base, acc, max),
    decreases s.len(),
{
    let pushed = s.push(c);
    assert(pushed[0] == s[0]);
    assert(pushed.drop_first() =~= s.drop_first().push(c));
    if digit_value(s[0]) < base && acc * base + digit_value(s[0]) <= max {
        digits_fail_early(s.drop_first(), c, base, acc * base + digit_value(s[0]), max);
    }
}

proof fn large_numeral_is_refused(n: nat, base: nat, max: int)
    requires
        2 <= base <= 16,
        0 <= max < n,
    ensures
        digits_value(numeral(n, base), base as int, 0, max) == Err::<int, NumberError>(NumberError::TooLarge),
    decreases n,
{
    if n < base {
        digit_round_trip(n);
        assert(numeral(n, base) =~= seq![digit_char(n)]);
    } else {
        let q = n / base;
        let r = n % base;
        assert(q < n && q * base + r == n && r < base) by (nonlinear_arith)
            requires
                q == n / base,
                r == n % base,
                2 <= base <= n,
        ;
        digit_round_trip(r);
        if q > max {
            large_numeral_is_refused(q, base, max);
            digits_fail_early(numeral(q, base), digit_char(r), base as int, 0, max);
        } else {
            numeral_is_read_back(q, base, max);
            digits_append(numeral(q, base), digit_char(r), base as int, 0, max);
        }
    }
}

proof fn numeral_has_digits_only(n: nat, base: nat)
    requires
        2 <= base <= 16,
    ensures
        numeral(n, base).len() > 0,
        forall|i: int| 0 <= i < numeral(n, base).len() ==> 0 <= digit_value(#[trigger] numeral(n, base)[i]) < base,
    decreases n,
{
    if n < base {
        digit_round_trip(n);
    } else {
        assert(n / base < n && n % base < base) by (nonlinear_arith)
            requires
                2 <= base <= n,
        ;
        numeral_has_digits_only(n / base, base);
        digit_round_trip(n % base);
        let front = numeral(n / base, base);
        assert forall|i: int| 0 <= i < numeral(n, base).len() implies 0 <= digit_value(
            #[trigger] numeral(n, base)[i],
        ) < base by {
            if i < front.len() {
                assert(numeral(n, base)[i] == front[i]);
            }
        }
    }
}

/// Two texts with the same digits, in upper or lower case.
pub open spec fn same_digits(a: Seq<char>, b: Seq<char>) -> bool {
    a.len() == b.len() && forall|i: int| 0 <= i < a.len() ==> digit_value(#[trigger] a[i]) == digit_value(b[i])
}

proof fn same_digits_same_value(a: Seq<char>, b: Seq<char>, base: int, acc: int, max: int)
    requires
        same_digits(a, b),
    ensures
        digits_value(a, base, acc, max) == digits_value(b, base, acc, max),
    decreases a.len(),
{
    if a.len() > 0 {
        let ra = a.drop_first();
        let rb = b.drop_first();
        assert forall|i: int| 0 <= i < ra.len() implies digit_value(#[trigger] ra[i]) == digit_value(rb[i]) by {
            assert(ra[i] == a[i + 1]);
        }
        assert(digit_value(a[0]) == digit_value(b[0]));
        same_digits_same_value(ra, rb, base, acc * base + digit_value(a[0]), max);
    }
}

/// Nothing but white space.
pub open spec fn all_white(s: Seq<char>) -> bool {
    forall|i: int| 0 <= i < s.len() ==> white(#[trigger] s[i])
}

proof fn front_is_trimmed(w: Seq<char>, t: Seq<char>)
    requires
        all_white(w),
    ensures
        trim_front(w + t) == trim_front(t),
    decreases w.len(),
{
    if w.len() == 0 {
        assert(w + t =~= t);
    } else {
        assert((w + t)[0] == w[0]);
        assert((w + t).drop_first() =~= w.drop_first() + t);
        assert forall|i: int| 0 <= i < w.drop_first().len() implies white(#[trigger] w.drop_first()[i]) by {
            assert(w.drop_first()[i] == w[i + 1]);
        }
        front_is_trimmed(w.drop_first(), t);
    }
}

proof fn back_is_trimmed(t: Seq<char>, w: Seq<char>)
    requires
        all_white(w),
    ensures
        trim_back(t + w) == trim_back(t),
    decreases w.len(),
{
    if w.len() == 0 {
        assert(t + w =~= t);
    } else {
        assert((t + w).last() == w.last());
        assert((t + w).drop_last() =~= t + w.drop_last());
        back_is_trimmed(t, w.drop_last());
    }
}

/// White space around a text that has none at its ends is taken away, and
/// nothing else; of white space alone nothing is left.
pub proof fn surrounding_white_space_is_trimmed(before: Seq<char>, text: Seq<char>, behind: Seq<char>)
    requires
        all_white(before),
        all_white(behind),
        text.len() > 0 ==> !white(text[0]) && !white(text.last()),
    ensures
        trimmed(before + text + behind) == text,
{
    assert(before + text + behind =~= before + (text + behind));
    front_is_trimmed(before, text + behind);
    if text.len() > 0 {
        assert((text + behind)[0] == text[0]);
        back_is_trimmed(text, behind);
    } else {
        assert(text + behind =~= behind + text);
        front_is_trimmed(behind, text);
    }
}

/// A decimal number is read back, whatever white space stands around it; one
/// that does not fit is refused as too large.
pub proof fn decimal_options_are_read(before: Seq<char>, n: nat, behind: Seq<char>)
    requires
        all_white(before),
        all_white(behind),
    ensures
        option_value(before + decimal(n) + behind) == (if n <= u64::MAX {
            Ok::<int, NumberError>(n as int)
        } else {
            Err(NumberError::TooLarge)
        }),
{
    let text = decimal(n);
    numeral_has_digits_only(n, 10);
    assert(0 <= digit_value(text[0]) < 10);
    assert(0 <= digit_value(text[text.len() - 1]) < 10);
    surrounding_white_space_is_trimmed(before, text, behind);
    if text.len() >= 2 {
        assert(digit_value(text[1]) < 10);
    }
    if n <= u64::MAX {
        numeral_is_read_back(n, 10, u64::MAX as int);
    } else {
        large_numeral_is_refused(n, 10, u64::MAX as int);
    }
}

/// A hexadecimal number behind `0x` or `0X` is read back, its digits in either
/// case and whatever white space stands around it; one that does not fit is
/// refused as too large.
pub proof fn hexadecimal_options_are_read(
    before: Seq<char>,
    prefix: Seq<char>,
    digits: Seq<char>,
    n: nat,
    behind: Seq<char>,
)
    requires
        all_white(before),
        all_white(behind),
        prefix == seq!['0', 'x'] || prefix == seq!['0', 'X'],
        same_digits(digits, numeral(n, 16)),
    ensures
        option_value(before + (prefix + digits) + behind) == (if n <= u64::MAX {
            Ok::<int, NumberError>(n as int)
        } else {
            Err(NumberError::TooLarge)
        }),
{
    let text = prefix + digits;
    numeral_has_digits_only(n, 16);
    let last = digits.len() - 1;
    assert(digit_value(numeral(n, 16)[0]) < 16 && digit_value(digits[0]) < 16);
    assert(digit_value(numeral(n, 16)[last]) < 16 && digit_value(digits[last]) < 16);
    assert(text[0] == '0');
    assert(text.last() == digits[last]);
    surrounding_white_space_is_trimmed(before, text, behind);
    assert(text.skip(2) =~= digits);
    same_digits_same_value(digits, numeral(n, 16), 16, 0, u64::MAX as int);
    if n <= u64::MAX {
        numeral_is_read_back(n, 16, u64::MAX as int);
    } else {
        large_numeral_is_refused(n, 16, u64::MAX as int);
    }
}

/// White space alone is no number, and neither is a prefix without digits.
pub proof fn empty_options_are_refused(before: Seq<char>, prefix: Seq<char>, behind: Seq<char>)
    requires
        all_white(before),
        all_white(behind),
        prefix == Seq::<char>::empty() || prefix == seq!['0', 'x'] || prefix == seq!['0', 'X'],
    ensures
        option_value(before + prefix + behind) == Err::<int, NumberError>(NumberError::Empty),
{
    surrounding_white_space_is_trimmed(before, prefix, behind);
    if prefix.len() > 0 {
        assert(prefix.skip(2) =~= Seq::<char>::empty());
    }
}

/// A text that differs from another in the case of its letters alone has the
/// same digits.
pub proof fn case_does_not_change_digits(a: Seq<char>, b: Seq<char>)
    requires
        equal_ignoring_case(a, b),
    ensures
        same_digits(a, b),
{
}

proof fn first_is_a_digit(n: nat, base: nat)
    requires
        2 <= base <= 16,
    ensures
        numeral(n, base).len() > 0,
        numeral(n, base)[0] != '+',
    decreases n,
{
    if n >= base {
        assert(n / base < n) by (nonlinear_arith)
            requires
                2 <= base <= n,
        ;
        first_is_a_digit(n / base, base);
        assert(numeral(n, base)[0] == numeral(n / base, base)[0]);
    }
}

} // verus!
