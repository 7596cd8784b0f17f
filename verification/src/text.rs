//! Text building blocks: decimal and hexadecimal numerals.
use vstd::prelude::*;

verus! {

/// The character of one digit, in bases up to sixteen (lower case).
pub open spec fn digit_char(d: nat) -> char {
    if d == 0 { '0' } else if d == 1 { '1' } else if d == 2 { '2' } else if d == 3 { '3' }
    else if d == 4 { '4' } else if d == 5 { '5' } else if d == 6 { '6' } else if d == 7 { '7' }
    else if d == 8 { '8' } else if d == 9 { '9' } else if d == 10 { 'a' } else if d == 11 { 'b' }
    else if d == 12 { 'c' } else if d == 13 { 'd' } else if d == 14 { 'e' } else { 'f' }
}

/// The numeral of `n` in `base`, most significant digit first, no padding.
pub open spec fn numeral(n: nat, base: nat) -> Seq<char>
    decreases n,
{
    if base < 2 || n < base {
        seq![digit_char(n)]
    } else {
        proof {
            assert(n / base < n) by (nonlinear_arith)
                requires
                    2 <= base <= n,
            ;
        }
        numeral(n / base, base).push(digit_char(n % base))
    }
}

/// The decimal numeral of `n`.
pub open spec fn decimal(n: nat) -> Seq<char> {
    numeral(n, 10)
}

fn digit_text(d: u64) -> (s: &'static str)
    requires
        d < 16,
    ensures
        s@ == seq![digit_char(d as nat)],
{
    proof {
        reveal_strlit("0"); reveal_strlit("1"); reveal_strlit("2"); reveal_strlit("3");
        reveal_strlit("4"); reveal_strlit("5"); reveal_strlit("6"); reveal_strlit("7");
        reveal_strlit("8"); reveal_strlit("9"); reveal_strlit("a"); reveal_strlit("b");
        reveal_strlit("c"); reveal_strlit("d"); reveal_strlit("e"); reveal_strlit("f");
    }
    let s: &'static str = if d == 0 { "0" } else if d == 1 { "1" } else if d == 2 { "2" }
        else if d == 3 { "3" } else if d == 4 { "4" } else if d == 5 { "5" }
        else if d == 6 { "6" } else if d == 7 { "7" } else if d == 8 { "8" }
        else if d == 9 { "9" } else if d == 10 { "a" } else if d == 11 { "b" }
        else if d == 12 { "c" } else if d == 13 { "d" } else if d == 14 { "e" } else { "f" };
    assert(s@ =~= seq![digit_char(d as nat)]);
    s
}

fn numeral_text(n: u64, base: u64) -> (s: String)
    requires
        2 <= base <= 16,
    ensures
        s@ == numeral(n as nat, base as nat),
    decreases n,
{
    if n < base {
        String::from_str(digit_text(n))
    } else {
        assert(n / base < n) by (nonlinear_arith)
            requires
                2 <= base <= n,
        ;
        assert(n % base < base) by (nonlinear_arith)
            requires
                2 <= base,
        ;
        let mut s = numeral_text(n / base, base);
        s.append(digit_text(n % base));
        assert(s@ =~= numeral(n as nat, base as nat));
        s
    }
}

/// Whether two texts are the same.
pub fn same_text(a: &str, b: &str) -> (r: bool)
    ensures
        r == (a@ == b@),
{
    String::from_str(a) == String::from_str(b)
}

/// Formats `n` in decimal.
pub fn decimal_text(n: u64) -> (s: String)
    ensures
        s@ == decimal(n as nat),
{
    numeral_text(n, 10)
}

/// Formats `n` in lower-case hexadecimal, without a prefix.
pub fn hex_text(n: u64) -> (s: String)
    ensures
        s@ == numeral(n as nat, 16),
{
    numeral_text(n, 16)
}

/// The code of a character with ASCII upper case folded to lower case.
pub open spec fn lower_code(c: char) -> u32 {
    let n = c as u32;
    if 65 <= n <= 90 { (n + 32) as u32 } else { n }
}

fn to_lower_code(c: char) -> (r: u32)
    ensures
        r == lower_code(c),
{
    let n: u32 = c as u32;
    if 65 <= n && n <= 90 { n + 32 } else { n }
}

/// Two texts are equal but for the case of ASCII letters.
pub open spec fn equal_ignoring_case(a: Seq<char>, b: Seq<char>) -> bool {
    a.len() == b.len() && forall|i: int| 0 <= i < a.len() ==> lower_code(#[trigger] a[i]) == lower_code(b[i])
}

/// The characters of a text.
pub fn chars_of(s: &str) -> (r: Vec<char>)
    ensures
        r@ == s@,
{
    let mut v: Vec<char> = Vec::new();
    for c in it: s.chars()
        invariant
            it.seq() == s@,
            v@ == s@.take(it.index() as int),
    {
        v.push(c);
        assert(s@.take(it.index() + 1) =~= s@.take(it.index() as int).push(s@[it.index() as int]));
    }
    assert(s@.take(s@.len() as int) =~= s@);
    v
}

/// `String::push` of the standard library: puts one character behind a text.
pub assume_specification[ String::push ](s: &mut String, c: char)
    ensures
        final(s)@ == old(s)@.push(c),
;

/// The text of the characters.
pub fn text_of(v: &Vec<char>) -> (r: String)
    ensures
        r@ == v@,
{
    let mut s = String::new();
    let mut i: usize = 0;
    assert(s@ =~= v@.take(0));
    while i < v.len()
        invariant
            i <= v@.len(),
            s@ == v@.take(i as int),
        decreases v@.len() - i,
    {
        s.push(v[i]);
        i = i + 1;
        assert(v@.take(i as int) =~= v@.take(i - 1).push(v@[i - 1]));
    }
    assert(v@.take(v@.len() as int) =~= v@);
    s
}

/// Whether two texts are equal but for the case of ASCII letters.
pub fn same_ignoring_case(a: &str, b: &str) -> (r: bool)
    ensures
        r == equal_ignoring_case(a@, b@),
{
    let x = chars_of(a);
    let y = chars_of(b);
    if x.len() != y.len() {
        return false;
    }
    let mut i: usize = 0;
    while i < x.len()
        invariant
            i <= x@.len(),
            x@ == a@,
            y@ == b@,
            x@.len() == y@.len(),
            forall|k: int| 0 <= k < i ==> lower_code(#[trigger] a@[k]) == lower_code(b@[k]),
        decreases x@.len() - i,
    {
        if to_lower_code(x[i]) != to_lower_code(y[i]) {
            assert(lower_code(a@[i as int]) != lower_code(b@[i as int]));
            return false;
        }
        i = i + 1;
    }
    true
}

/// The code of a path character: ASCII case folded, and `/` written as `\`.
pub open spec fn path_code(c: char) -> u32 {
    if c == '/' { 92 } else { lower_code(c) }
}

/// A path as it is compared: character by character, ignoring ASCII case and
/// the direction of slashes.
pub open spec fn path_codes(s: Seq<char>) -> Seq<u32> {
    Seq::new(s.len(), |i: int| path_code(s[i]))
}

/// A path as it is compared.
pub fn folded_path(s: &str) -> (r: Vec<u32>)
    ensures
        r@ == path_codes(s@),
{
    let x = chars_of(s);
    let mut v: Vec<u32> = Vec::new();
    let mut i: usize = 0;
    while i < x.len()
        invariant
            i <= x@.len(),
            x@ == s@,
            v@ == path_codes(s@).take(i as int),
        decreases x@.len() - i,
    {
        let c = x[i];
        v.push(if c == '/' { 92 } else { to_lower_code(c) });
        i = i + 1;
        assert(path_codes(s@).take(i as int) =~= path_codes(s@).take(i - 1).push(path_codes(s@)[i - 1]));
    }
    assert(path_codes(s@).take(x@.len() as int) =~= path_codes(s@));
    v
}

/// Whether two code sequences are equal.
pub fn same_codes(a: &Vec<u32>, b: &Vec<u32>) -> (r: bool)
    ensures
        r == (a@ == b@),
{
    if a.len() != b.len() {
        return false;
    }
    starts_with_codes(a, b)
}

/// Whether `a` begins with `b`.
pub fn starts_with_codes(a: &Vec<u32>, b: &Vec<u32>) -> (r: bool)
    ensures
        r == b@.is_prefix_of(a@),
        r && a@.len() == b@.len() ==> a@ == b@,
        !r && a@.len() == b@.len() ==> a@ != b@,
{
    if a.len() < b.len() {
        return false;
    }
    let mut i: usize = 0;
    while i < b.len()
        invariant
            i <= b@.len() <= a@.len(),
            forall|k: int| 0 <= k < i ==> a@[k] == #[trigger] b@[k],
        decreases b@.len() - i,
    {
        if a[i] != b[i] {
            assert(!b@.is_prefix_of(a@)) by {
                if b@.is_prefix_of(a@) {
                    assert(a@.subrange(0, b@.len() as int)[i as int] == a@[i as int]);
                }
            }
            return false;
        }
        i = i + 1;
    }
    assert(b@ =~= a@.subrange(0, b@.len() as int));
    if a.len() == b.len() {
        assert(a@ =~= b@);
    }
    true
}

/// A code sequence without the backslashes at its end.
pub open spec fn without_trailing_separators(s: Seq<u32>) -> Seq<u32>
    decreases s.len(),
{
    if s.len() > 0 && s.last() == 92 { without_trailing_separators(s.drop_last()) } else { s }
}

/// Removes the backslashes at the end.
pub fn trim_separators(s: Vec<u32>) -> (r: Vec<u32>)
    ensures
        r@ == without_trailing_separators(s@),
{
    let mut v = s;
    while v.len() > 0 && v[v.len() - 1] == 92
        invariant
            without_trailing_separators(v@) == without_trailing_separators(s@),
        ensures
            v@.len() == 0 || v@.last() != 92,
            without_trailing_separators(v@) == without_trailing_separators(s@),
        decreases v@.len(),
    {
        let ghost before = v@;
        v.pop();
        assert(v@ =~= before.drop_last());
    }
    v
}

/// The path lies at or below the directory.
pub open spec fn at_or_below(path: Seq<char>, dir: Seq<char>) -> bool {
    let d = without_trailing_separators(path_codes(dir));
    path_codes(path) == d || d.push(92).is_prefix_of(path_codes(path))
}

/// Whether the path lies at or below the directory, ignoring ASCII case, the
/// direction of slashes, and separators at the end of the directory.
pub fn path_at_or_below(path: &str, dir: &str) -> (r: bool)
    ensures
        r == at_or_below(path@, dir@),
{
    let p = folded_path(path);
    let mut d = trim_separators(folded_path(dir));
    if same_codes(&p, &d) {
        return true;
    }
    d.push(92);
    starts_with_codes(&p, &d)
}

/// Whether two paths are the same, ignoring ASCII case and the direction of
/// slashes.
pub fn same_path(a: &str, b: &str) -> (r: bool)
    ensures
        r == (path_codes(a@) == path_codes(b@)),
{
    let x = folded_path(a);
    let y = folded_path(b);
    same_codes(&x, &y)
}

/// A text without the quotes before it.
pub open spec fn without_front_quotes(s: Seq<char>) -> Seq<char>
    decreases s.len(),
{
    if s.len() > 0 && s[0] == '"' { without_front_quotes(s.drop_first()) } else { s }
}

/// A text without the quotes behind it.
pub open spec fn without_back_quotes(s: Seq<char>) -> Seq<char>
    decreases s.len(),
{
    if s.len() > 0 && s.last() == '"' { without_back_quotes(s.drop_last()) } else { s }
}

/// A text without the quotes around it.
pub open spec fn without_quotes(s: Seq<char>) -> Seq<char> {
    without_back_quotes(without_front_quotes(s))
}

/// Removes the quotes around a text.
pub fn unquoted(s: &str) -> (r: String)
    ensures
        r@ == without_quotes(s@),
{
    let all = chars_of(s);
    let mut start: usize = 0;
    assert(all@.skip(0) =~= s@);
    while start < all.len() && all[start] == '"'
        invariant
            start <= all@.len(),
            without_front_quotes(s@) == without_front_quotes(all@.skip(start as int)),
        ensures
            start <= all@.len(),
            start < all@.len() ==> all@[start as int] != '"',
            without_front_quotes(s@) == without_front_quotes(all@.skip(start as int)),
        decreases all@.len() - start,
    {
        assert(all@.skip(start as int)[0] == all@[start as int]);
        assert(all@.skip(start as int).drop_first() =~= all@.skip(start + 1));
        start = start + 1;
    }
    let mut v: Vec<char> = Vec::new();
    let mut i: usize = start;
    while i < all.len()
        invariant
            start <= i <= all@.len(),
            v@ == all@.subrange(start as int, i as int),
        decreases all@.len() - i,
    {
        v.push(all[i]);
        i = i + 1;
        assert(all@.subrange(start as int, i as int) =~= all@.subrange(start as int, i - 1).push(all@[i - 1]));
    }
    assert(v@ =~= all@.skip(start as int));
    let ghost front = v@;
    assert(front == without_front_quotes(s@));
    while v.len() > 0 && v[v.len() - 1] == '"'
        invariant
            without_back_quotes(front) == without_back_quotes(v@),
        ensures
            v@.len() == 0 || v@.last() != '"',
            without_back_quotes(front) == without_back_quotes(v@),
        decreases v@.len(),
    {
        let ghost before = v@;
        v.pop();
        assert(v@ =~= before.drop_last());
    }
    text_of(&v)
}

} // verus!
