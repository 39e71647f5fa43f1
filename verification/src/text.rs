//! Characters, decimal numbers and substitution on strings.
//!
//! Strings are modelled by their view, the sequence of their characters.

use vstd::prelude::*;

verus! {

/// Whether `c` is one of the ten ASCII decimal digits.
pub open spec fn is_digit(c: char) -> bool {
    '0' <= c && c <= '9'
}

/// The number that the digit `c` stands for.
pub open spec fn digit_value(c: char) -> int {
    c as int - '0' as int
}

/// The character of the digit `d`, for `0 <= d <= 9`.
pub open spec fn digit_char(d: int) -> char {
    if d == 0 {
        '0'
    } else if d == 1 {
        '1'
    } else if d == 2 {
        '2'
    } else if d == 3 {
        '3'
    } else if d == 4 {
        '4'
    } else if d == 5 {
        '5'
    } else if d == 6 {
        '6'
    } else if d == 7 {
        '7'
    } else if d == 8 {
        '8'
    } else {
        '9'
    }
}

/// Whether every character of `s` is a decimal digit.
pub open spec fn all_digits(s: Seq<char>) -> bool {
    forall|i: int| 0 <= i < s.len() ==> is_digit(#[trigger] s[i])
}

/// The number written by the digits of `s`, read in base ten; 0 for the empty
/// sequence.
pub open spec fn decimal_value(s: Seq<char>) -> int
    decreases s.len(),
{
    if s.len() == 0 {
        0
    } else {
        10 * decimal_value(s.drop_last()) + digit_value(s.last())
    }
}

/// What a signed 32-bit integer reads from `s`: an optional `+` or `-`, then
/// one or more decimal digits and nothing else, the value within the range of
/// `i32`. Any other text reads as `None`.
pub open spec fn parse_i32(s: Seq<char>) -> Option<i32> {
    let signed = s.len() > 0 && (s[0] == '-' || s[0] == '+');
    let body = if signed {
        s.skip(1)
    } else {
        s
    };
    let value = if s.len() > 0 && s[0] == '-' {
        -decimal_value(body)
    } else {
        decimal_value(body)
    };
    if body.len() == 0 || !all_digits(body) || value < i32::MIN || value > i32::MAX {
        None
    } else {
        Some(value as i32)
    }
}

/// The decimal digits of `n`, most significant first, without leading zeros.
pub open spec fn decimal_text(n: nat) -> Seq<char>
    decreases n,
{
    if n < 10 {
        seq![digit_char(n as int)]
    } else {
        decimal_text(n / 10).push(digit_char((n % 10) as int))
    }
}

/// The decimal text of `n`, with a leading `-` when it is negative.
pub open spec fn int_text(n: int) -> Seq<char> {
    if n < 0 {
        seq!['-'] + decimal_text((-n) as nat)
    } else {
        decimal_text(n as nat)
    }
}

/// The characters of a text that may be absent.
pub open spec fn option_text(t: Option<&str>) -> Option<Seq<char>> {
    match t {
        Some(s) => Some(s@),
        None => None,
    }
}

/// The characters of an owned text that may be absent.
pub open spec fn option_string_text(t: Option<String>) -> Option<Seq<char>> {
    match t {
        Some(s) => Some(s@),
        None => None,
    }
}

/// Whether `s` begins with `pattern`.
pub open spec fn starts_with(s: Seq<char>, pattern: Seq<char>) -> bool {
    pattern.len() <= s.len() && s.take(pattern.len() as int) == pattern
}

/// `s` with every occurrence of `pattern` replaced by `with`, the occurrences
/// taken from the left and not overlapping. An empty pattern occurs nowhere.
pub open spec fn replace_all(s: Seq<char>, pattern: Seq<char>, with: Seq<char>) -> Seq<char>
    decreases s.len(),
{
    if pattern.len() == 0 || s.len() == 0 {
        s
    } else if starts_with(s, pattern) {
        with + replace_all(s.skip(pattern.len() as int), pattern, with)
    } else {
        seq![s[0]] + replace_all(s.skip(1), pattern, with)
    }
}

/// The characters of `s`, in order.
pub fn chars_of(s: &str) -> (v: Vec<char>)
    ensures
        v@ == s@,
{
    let mut v: Vec<char> = Vec::new();
    let chars = s.chars();
    for c in it: chars
        invariant
            it.seq() == s@,
            v@ == it.seq().take(it.index()),
    {
        v.push(c);
    }
    v
}

/// Tests a character for being a decimal digit.
pub fn char_is_digit(c: char) -> (b: bool)
    ensures
        b == is_digit(c),
{
    '0' <= c && c <= '9'
}

/// The value of a decimal digit.
fn digit_of(c: char) -> (d: i64)
    requires
        is_digit(c),
    ensures
        d == digit_value(c),
        0 <= d <= 9,
{
    if c == '0' {
        0
    } else if c == '1' {
        1
    } else if c == '2' {
        2
    } else if c == '3' {
        3
    } else if c == '4' {
        4
    } else if c == '5' {
        5
    } else if c == '6' {
        6
    } else if c == '7' {
        7
    } else if c == '8' {
        8
    } else {
        9
    }
}

/// Appending a character multiplies the value by ten and adds the digit.
pub(crate) proof fn lemma_decimal_value_push(s: Seq<char>, c: char)
    ensures
        decimal_value(s.push(c)) == 10 * decimal_value(s) + digit_value(c),
{
    assert(s.push(c).drop_last() =~= s);
}

/// The value of a run of digits is at least the value of each of its prefixes.
proof fn lemma_decimal_value_prefix(s: Seq<char>, k: int)
    requires
        all_digits(s),
        0 <= k <= s.len(),
    ensures
        0 <= decimal_value(s.take(k)) <= decimal_value(s),
    decreases s.len() - k,
{
    if k == s.len() {
        assert(s.take(k) =~= s);
        lemma_decimal_value_nonnegative(s);
    } else {
        lemma_decimal_value_prefix(s, k + 1);
        assert(s.take(k + 1) =~= s.take(k).push(s[k]));
        lemma_decimal_value_push(s.take(k), s[k]);
        lemma_decimal_value_nonnegative(s.take(k));
    }
}

/// A run of digits has a value that is not negative.
pub(crate) proof fn lemma_decimal_value_nonnegative(s: Seq<char>)
    requires
        all_digits(s),
    ensures
        0 <= decimal_value(s),
    decreases s.len(),
{
    if s.len() > 0 {
        lemma_decimal_value_nonnegative(s.drop_last());
    }
}

/// Reads a signed 32-bit integer from the characters `from..to` of `chars`.
pub(crate) fn parse_number_in(chars: &Vec<char>, from: usize, to: usize) -> (r: Option<i32>)
    requires
        from <= to <= chars.len(),
    ensures
        r == parse_i32(chars@.subrange(from as int, to as int)),
{
    let ghost s = chars@.subrange(from as int, to as int);
    if from == to {
        return None;
    }
    let first = chars[from];
    let negative = first == '-';
    let start: usize = if first == '-' || first == '+' {
        from + 1
    } else {
        from
    };
    let ghost body = chars@.subrange(start as int, to as int);
    if start == to {
        return None;
    }
    let mut acc: i64 = 0;
    let mut i: usize = start;
    while i < to
        invariant
            from <= start <= i <= to <= chars.len(),
            s == chars@.subrange(from as int, to as int),
            s.len() > 0,
            body == chars@.subrange(start as int, to as int),
            body == if s[0] == '-' || s[0] == '+' {
                s.skip(1)
            } else {
                s
            },
            all_digits(body.take(i - start)),
            acc == decimal_value(body.take(i - start)),
            0 <= acc <= 2147483648,
        decreases to - i,
    {
        let c = chars[i];
        assert(body[i - start] == c);
        if !char_is_digit(c) {
            return None;
        }
        let d = digit_of(c);
        proof {
            assert(body.take(i - start + 1) =~= body.take(i - start).push(c));
            lemma_decimal_value_push(body.take(i - start), c);
        }
        acc = acc * 10 + d;
        if acc > 2147483648 {
            proof {
                if all_digits(body) {
                    lemma_decimal_value_prefix(body, i - start + 1);
                }
            }
            return None;
        }
        i += 1;
    }
    assert(body.take(i - start) =~= body);
    if negative {
        Some((-acc) as i32)
    } else if acc > 2147483647 {
        None
    } else {
        Some(acc as i32)
    }
}

/// Reads a signed 32-bit integer from `text`, as [`parse_i32`] says.
pub fn parse_number(text: &str) -> (r: Option<i32>)
    ensures
        r == parse_i32(text@),
{
    let chars = chars_of(text);
    assert(chars@.subrange(0, chars@.len() as int) =~= chars@);
    parse_number_in(&chars, 0, chars.len())
}

/// The one-character text of the digit `d`.
fn digit_str(d: u64) -> (t: &'static str)
    requires
        d <= 9,
    ensures
        t@ == seq![digit_char(d as int)],
{
    proof {
        reveal_strlit("0");
        reveal_strlit("1");
        reveal_strlit("2");
        reveal_strlit("3");
        reveal_strlit("4");
        reveal_strlit("5");
        reveal_strlit("6");
        reveal_strlit("7");
        reveal_strlit("8");
        reveal_strlit("9");
    }
    let t = if d == 0 {
        "0"
    } else if d == 1 {
        "1"
    } else if d == 2 {
        "2"
    } else if d == 3 {
        "3"
    } else if d == 4 {
        "4"
    } else if d == 5 {
        "5"
    } else if d == 6 {
        "6"
    } else if d == 7 {
        "7"
    } else if d == 8 {
        "8"
    } else {
        "9"
    };
    t
}

/// Appends the decimal digits of `n` to `out`.
pub fn append_decimal(out: &mut String, n: u64)
    ensures
        final(out)@ == old(out)@ + decimal_text(n as nat),
    decreases n,
{
    if n >= 10 {
        append_decimal(out, n / 10);
    }
    out.append(digit_str(n % 10));
}

/// The decimal text of `n`.
pub fn long_string(n: i64) -> (s: String)
    ensures
        s@ == int_text(n as int),
{
    let mut out = String::new();
    if n < 0 {
        proof {
            reveal_strlit("-");
        }
        out.append("-");
        let magnitude: u64 = if n == i64::MIN {
            9223372036854775808
        } else {
            (-n) as u64
        };
        append_decimal(&mut out, magnitude);
    } else {
        append_decimal(&mut out, n as u64);
    }
    out
}

/// The decimal text of `n`.
pub fn int_string(n: i32) -> (s: String)
    ensures
        s@ == int_text(n as int),
{
    long_string(n as i64)
}

/// Tests two texts for holding the same characters.
pub fn same_text(a: &str, b: &str) -> (r: bool)
    ensures
        r == (a@ == b@),
{
    let x = chars_of(a);
    let y = chars_of(b);
    if x.len() != y.len() {
        return false;
    }
    let mut i: usize = 0;
    while i < x.len()
        invariant
            i <= x.len(),
            x.len() == y.len(),
            x@ == a@,
            y@ == b@,
            forall|j: int| 0 <= j < i ==> x@[j] == y@[j],
        decreases x.len() - i,
    {
        if x[i] != y[i] {
            return false;
        }
        i += 1;
    }
    assert(x@ =~= y@);
    true
}

/// Tests whether `pattern` stands in `s` at index `at`.
fn occurs_at(s: &Vec<char>, at: usize, pattern: &Vec<char>) -> (r: bool)
    requires
        at <= s.len(),
    ensures
        r == starts_with(s@.skip(at as int), pattern@),
{
    if pattern.len() > s.len() - at {
        return false;
    }
    let mut j: usize = 0;
    while j < pattern.len()
        invariant
            j <= pattern.len(),
            at <= s.len(),
            pattern.len() <= s.len() - at,
            forall|k: int| 0 <= k < j ==> s@[at + k] == pattern@[k],
        decreases pattern.len() - j,
    {
        if s[at + j] != pattern[j] {
            return false;
        }
        j += 1;
    }
    assert(s@.skip(at as int).take(pattern@.len() as int) =~= pattern@);
    true
}

/// `text` with every occurrence of `pattern` replaced by `with`, as
/// [`replace_all`] says.
pub fn substitute(text: &str, pattern: &str, with: &str) -> (out: String)
    ensures
        out@ == replace_all(text@, pattern@, with@),
{
    let s = chars_of(text);
    let p = chars_of(pattern);
    if p.len() == 0 || s.len() == 0 {
        return String::from_str(text);
    }
    let mut out = String::new();
    let mut run: usize = 0;
    let mut i: usize = 0;
    assert(s@.skip(0) =~= s@);
    while i < s.len()
        invariant
            run <= i <= s.len(),
            s@ == text@,
            p@ == pattern@,
            p.len() > 0,
            replace_all(s@, p@, with@) == out@ + s@.subrange(run as int, i as int) + replace_all(
                s@.skip(i as int),
                p@,
                with@,
            ),
        decreases s.len() - i,
    {
        let ghost rest = s@.skip(i as int);
        if occurs_at(&s, i, &p) {
            out.append(text.substring_char(run, i));
            out.append(with);
            proof {
                assert(rest.skip(p@.len() as int) =~= s@.skip(i + p@.len()));
            }
            i += p.len();
            run = i;
        } else {
            proof {
                assert(rest.skip(1) =~= s@.skip(i + 1));
            }
            i += 1;
        }
    }
    out.append(text.substring_char(run, i));
    out
}

/// The digits that write a number are digits, and they write that number.
pub proof fn lemma_decimal_text(n: nat)
    ensures
        decimal_text(n).len() >= 1,
        all_digits(decimal_text(n)),
        decimal_value(decimal_text(n)) == n,
    decreases n,
{
    if n < 10 {
        assert(decimal_value(decimal_text(n).drop_last()) == 0);
    } else {
        lemma_decimal_text(n / 10);
        lemma_decimal_value_push(decimal_text(n / 10), digit_char((n % 10) as int));
    }
}

/// Zeros in front leave the value of a run of digits as it is.
pub(crate) proof fn lemma_leading_zero(s: Seq<char>)
    ensures
        decimal_value(seq!['0'] + s) == decimal_value(s),
    decreases s.len(),
{
    if s.len() == 0 {
        assert(decimal_value((seq!['0'] + s).drop_last()) == 0);
    } else {
        lemma_leading_zero(s.drop_last());
        assert((seq!['0'] + s).drop_last() =~= seq!['0'] + s.drop_last());
    }
}

/// A number reads back from its decimal text: writing an `i32` and reading
/// the text gives the number again.
pub proof fn lemma_int_text_reads_back(n: i32)
    ensures
        parse_i32(int_text(n as int)) == Some(n),
{
    if n < 0 {
        let digits = decimal_text((-n) as nat);
        lemma_decimal_text((-n) as nat);
        assert(int_text(n as int).skip(1) =~= digits);
    } else {
        lemma_decimal_text(n as nat);
    }
}

} // verus!
