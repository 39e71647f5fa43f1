//! Card numbers: how one splits into a series prefix and a collection number,
//! what a range of them looks like, and the text of each member of a range.
//!
//! A card number such as `LOB-EN001` names one card; `LOB-001-010` names the
//! ten cards `LOB-001` to `LOB-010`.

use vstd::prelude::*;
use crate::text::{
    all_digits, append_decimal, char_is_digit, chars_of, decimal_text, is_digit,
    lemma_decimal_text, lemma_decimal_value_nonnegative, lemma_leading_zero, option_text,
    parse_i32, parse_number_in,
};

verus! {

/// The indices at which `c` stands in `s`, ascending.
pub open spec fn positions(s: Seq<char>, c: char) -> Seq<int>
    decreases s.len(),
{
    if s.len() == 0 {
        Seq::empty()
    } else if s.last() == c {
        positions(s.drop_last(), c).push(s.len() - 1)
    } else {
        positions(s.drop_last(), c)
    }
}

/// `s` up to its first `c`; all of `s` where `c` does not occur in it.
pub open spec fn before_first(s: Seq<char>, c: char) -> Seq<char> {
    if positions(s, c).len() == 0 {
        s
    } else {
        s.take(positions(s, c)[0])
    }
}

/// The index of the last decimal digit of `s`, if it holds one.
pub open spec fn last_digit(s: Seq<char>) -> Option<int>
    decreases s.len(),
{
    if s.len() == 0 {
        None
    } else if is_digit(s.last()) {
        Some(s.len() - 1)
    } else {
        last_digit(s.drop_last())
    }
}

/// Where the unbroken run of digits that ends just before index `end` begins
/// (`end` itself where no digit stands before it).
pub open spec fn digits_start(s: Seq<char>, end: int) -> int
    decreases end,
{
    if 0 < end <= s.len() && is_digit(s[end - 1]) {
        digits_start(s, end - 1)
    } else {
        end
    }
}

/// Where a card identifier divides into prefix and number: at the start of
/// the unbroken run of digits that holds its last digit, or at its end where
/// it holds no digit.
pub open spec fn number_start(s: Seq<char>) -> int {
    match last_digit(s) {
        Some(j) => digits_start(s, j),
        None => s.len() as int,
    }
}

/// The series prefix of a card identifier: what stands before
/// [`number_start`], cut at its first hyphen.
pub open spec fn series_prefix(s: Seq<char>) -> Seq<char> {
    before_first(s.take(number_start(s)), '-')
}

/// The collection number of a card identifier: what stands from
/// [`number_start`] on, read as an integer; 0 where that is no integer.
pub open spec fn collection_number(s: Seq<char>) -> i32 {
    match parse_i32(s.skip(number_start(s))) {
        Some(n) => n,
        None => 0,
    }
}

/// The index of the first decimal digit of `s`; its length where it holds
/// none.
pub open spec fn first_digit(s: Seq<char>) -> int
    decreases s.len(),
{
    if s.len() == 0 || is_digit(s[0]) {
        0
    } else {
        1 + first_digit(s.skip(1))
    }
}

/// How many bytes the UTF-8 encoding of `c` takes.
pub open spec fn utf8_width(c: char) -> nat {
    if c as u32 <= 0x7F {
        1
    } else if c as u32 <= 0x7FF {
        2
    } else if c as u32 <= 0xFFFF {
        3
    } else {
        4
    }
}

/// How many bytes the UTF-8 encoding of `s` takes.
pub open spec fn encoded_len(s: Seq<char>) -> nat
    decreases s.len(),
{
    if s.len() == 0 {
        0
    } else {
        encoded_len(s.drop_last()) + utf8_width(s.last())
    }
}

/// What follows the first `n` bytes of the UTF-8 encoding of `s`; `None`
/// where `s` is shorter than that or no character of it begins there.
pub open spec fn after_bytes(s: Seq<char>, n: nat) -> Option<Seq<char>>
    decreases s.len(),
{
    if n == 0 {
        Some(s)
    } else if s.len() == 0 || utf8_width(s[0]) > n {
        None
    } else {
        after_bytes(s.skip(1), (n - utf8_width(s[0])) as nat)
    }
}

/// The range that a card identifier denotes, as `(prefix, sub-prefix, start,
/// end)`, or `None` where it denotes a single card.
///
/// A range has exactly two hyphens, hence three parts: the series prefix, the
/// start and the end. The start holds a digit; what stands before its first
/// digit is the sub-prefix (`None` where nothing does), and from that digit
/// on it reads as an integer. The end is read from the byte offset at which
/// the start's digits began; whatever it holds before that is passed over.
pub open spec fn card_range(s: Seq<char>) -> Option<(Seq<char>, Option<Seq<char>>, i32, i32)> {
    let hyphens = positions(s, '-');
    if hyphens.len() != 2 {
        None
    } else {
        let first = s.subrange(hyphens[0] + 1, hyphens[1]);
        let last = s.skip(hyphens[1] + 1);
        let k = first_digit(first);
        match (parse_i32(first.skip(k)), after_bytes(last, encoded_len(first.take(k)))) {
            (Some(start), Some(tail)) => match parse_i32(tail) {
                Some(end) => Some(
                    (
                        s.take(hyphens[0]),
                        if k == 0 {
                            None
                        } else {
                            Some(first.take(k))
                        },
                        start,
                        end,
                    ),
                ),
                None => None,
            },
            _ => None,
        }
    }
}

/// `n` in decimal, filled with zeros on the left to three characters, the
/// sign of a negative number counted among them and standing first.
pub open spec fn padded3(n: int) -> Seq<char> {
    if n <= -10 {
        seq!['-'] + decimal_text((-n) as nat)
    } else if n < 0 {
        seq!['-', '0'] + decimal_text((-n) as nat)
    } else if n < 10 {
        seq!['0', '0'] + decimal_text(n as nat)
    } else if n < 100 {
        seq!['0'] + decimal_text(n as nat)
    } else {
        decimal_text(n as nat)
    }
}

/// The card number of member `n` of a range: the prefix, a hyphen, the
/// sub-prefix if there is one, and `n` on three digits at least.
pub open spec fn card_number_text(prefix: Seq<char>, sub_prefix: Option<Seq<char>>, n: int) -> Seq<
    char,
> {
    prefix + seq!['-'] + match sub_prefix {
        Some(sub) => sub,
        None => Seq::empty(),
    } + padded3(n)
}

/// The card numbers that an identifier stands for, in the order in which they
/// are worked on: the members of its range from start to end, or itself.
pub open spec fn card_numbers(s: Seq<char>) -> Seq<Seq<char>> {
    match card_range(s) {
        Some((prefix, sub_prefix, start, end)) => if start <= end {
            Seq::new(
                (end - start + 1) as nat,
                |i: int| card_number_text(prefix, sub_prefix, start + i),
            )
        } else {
            Seq::empty()
        },
        None => seq![s],
    }
}

/// `positions` on a sequence whose first `h` characters differ from `c` and
/// whose character at `h`, if any, is `c`.
proof fn lemma_first_position(s: Seq<char>, c: char, h: int)
    requires
        0 <= h <= s.len(),
        forall|k: int| 0 <= k < h ==> s[k] != c,
        h < s.len() ==> s[h] == c,
    ensures
        h == s.len() ==> positions(s, c).len() == 0,
        h < s.len() ==> positions(s, c).len() > 0 && positions(s, c)[0] == h,
    decreases s.len(),
{
    if s.len() > 0 {
        let front = s.drop_last();
        if h == s.len() {
            lemma_first_position(front, c, h - 1);
        } else if h == s.len() - 1 {
            lemma_first_position(front, c, h);
        } else {
            lemma_first_position(front, c, h);
        }
    }
}

/// `last_digit` on a sequence that holds no digit from index `j` on and a
/// digit just before it.
proof fn lemma_last_digit(s: Seq<char>, j: int)
    requires
        0 <= j <= s.len(),
        forall|k: int| j <= k < s.len() ==> !is_digit(s[k]),
        j > 0 ==> is_digit(s[j - 1]),
    ensures
        last_digit(s) == if j == 0 {
            None
        } else {
            Some(j - 1)
        },
    decreases s.len(),
{
    if s.len() > 0 && j < s.len() {
        let front = s.drop_last();
        lemma_last_digit(front, j);
    }
}

/// `digits_start` on a sequence whose characters `i..end` are digits and
/// whose character before `i`, if any, is none.
proof fn lemma_digits_start(s: Seq<char>, i: int, end: int)
    requires
        0 <= i <= end <= s.len(),
        forall|k: int| i <= k < end ==> is_digit(s[k]),
        i > 0 ==> !is_digit(s[i - 1]),
    ensures
        digits_start(s, end) == i,
    decreases end - i,
{
    if i < end {
        lemma_digits_start(s, i, end - 1);
    }
}

/// Splits a card identifier into its series prefix and its collection number.
///
/// The number is the unbroken run of digits that holds the last digit of `s`,
/// together with whatever follows it; the prefix is what stands before that
/// run, cut at its first hyphen. An identifier without a digit, or whose
/// number part is no 32-bit integer, has the number 0.
pub fn get_series_and_number(s: &str) -> (r: (String, i32))
    ensures
        r.0@ == series_prefix(s@),
        r.1 == collection_number(s@),
{
    let chars = chars_of(s);
    let n = chars.len();
    let mut j: usize = n;
    while j > 0 && !char_is_digit(chars[j - 1])
        invariant
            j <= n == chars.len(),
            forall|k: int| j <= k < n ==> !is_digit(chars@[k]),
        decreases j,
    {
        j -= 1;
    }
    let mut pos: usize = n;
    if j > 0 {
        pos = j - 1;
        while pos > 0 && char_is_digit(chars[pos - 1])
            invariant
                pos < j <= n == chars.len(),
                forall|k: int| pos <= k < j - 1 ==> is_digit(chars@[k]),
            decreases pos,
        {
            pos -= 1;
        }
    }
    proof {
        lemma_last_digit(chars@, j as int);
        if j > 0 {
            lemma_digits_start(chars@, pos as int, j - 1);
        }
    }
    let number: i32 = match parse_number_in(&chars, pos, n) {
        Some(v) => v,
        None => 0,
    };
    let mut h: usize = 0;
    while h < pos && chars[h] != '-'
        invariant
            h <= pos <= chars.len(),
            forall|k: int| 0 <= k < h ==> chars@[k] != '-',
        decreases pos - h,
    {
        h += 1;
    }
    proof {
        let head = s@.take(pos as int);
        lemma_first_position(head, '-', h as int);
    }
    (String::from_str(s.substring_char(0, h)), number)
}

/// `positions` after one more character.
proof fn lemma_positions_step(s: Seq<char>, c: char, i: int)
    requires
        0 <= i < s.len(),
    ensures
        positions(s.take(i + 1), c) == if s[i] == c {
            positions(s.take(i), c).push(i)
        } else {
            positions(s.take(i), c)
        },
{
    assert(s.take(i + 1).drop_last() =~= s.take(i));
}

/// `positions` never shrinks as the sequence grows.
proof fn lemma_positions_grow(s: Seq<char>, c: char, i: int)
    requires
        0 <= i <= s.len(),
    ensures
        positions(s.take(i), c).len() <= positions(s, c).len(),
    decreases s.len() - i,
{
    if i < s.len() {
        lemma_positions_step(s, c, i);
        lemma_positions_grow(s, c, i + 1);
    } else {
        assert(s.take(i) =~= s);
    }
}

/// `first_digit` on a sequence whose first `k` characters are no digits and
/// whose character at `k`, if any, is one.
proof fn lemma_first_digit(s: Seq<char>, k: int)
    requires
        0 <= k <= s.len(),
        forall|i: int| 0 <= i < k ==> !is_digit(s[i]),
        k < s.len() ==> is_digit(s[k]),
    ensures
        first_digit(s) == k,
    decreases k,
{
    if k > 0 {
        let rest = s.skip(1);
        lemma_first_digit(rest, k - 1);
    }
}

/// `encoded_len` after one more character.
proof fn lemma_encoded_len_step(s: Seq<char>, i: int)
    requires
        0 <= i < s.len(),
    ensures
        encoded_len(s.take(i + 1)) == encoded_len(s.take(i)) + utf8_width(s[i]),
{
    assert(s.take(i + 1).drop_last() =~= s.take(i));
}

/// Passing over one character of `s` leaves the rest of the offset to pass
/// over in what follows it.
proof fn lemma_after_bytes_step(s: Seq<char>, b: int, n: nat)
    requires
        0 <= b < s.len(),
        n > 0,
    ensures
        after_bytes(s.skip(b), n) == if utf8_width(s[b]) > n {
            None
        } else {
            after_bytes(s.skip(b + 1), (n - utf8_width(s[b])) as nat)
        },
{
    assert(s.skip(b).skip(1) =~= s.skip(b + 1));
}

/// How many bytes the UTF-8 encoding of `c` takes.
fn char_width(c: char) -> (w: u128)
    ensures
        w == utf8_width(c),
        1 <= w <= 4,
{
    let code: u32 = c as u32;
    if code <= 0x7F {
        1
    } else if code <= 0x7FF {
        2
    } else if code <= 0xFFFF {
        3
    } else {
        4
    }
}

/// Finds the two hyphens of an identifier that holds exactly two.
fn two_hyphens(chars: &Vec<char>) -> (r: Option<(usize, usize)>)
    ensures
        match r {
            Some((h1, h2)) => h1 < h2 < chars.len() && positions(chars@, '-') == seq![
                h1 as int,
                h2 as int,
            ],
            None => positions(chars@, '-').len() != 2,
        },
{
    let n = chars.len();
    let mut found: usize = 0;
    let mut h1: usize = 0;
    let mut h2: usize = 0;
    let mut i: usize = 0;
    while i < n
        invariant
            i <= n == chars.len(),
            found <= 2,
            found == positions(chars@.take(i as int), '-').len(),
            found >= 1 ==> positions(chars@.take(i as int), '-')[0] == h1 < i,
            found >= 2 ==> positions(chars@.take(i as int), '-')[1] == h2 && h1 < h2 < i,
        decreases n - i,
    {
        proof {
            lemma_positions_step(chars@, '-', i as int);
        }
        if chars[i] == '-' {
            if found == 0 {
                h1 = i;
            } else if found == 1 {
                h2 = i;
            } else {
                proof {
                    lemma_positions_grow(chars@, '-', i + 1);
                }
                return None;
            }
            found += 1;
        }
        i += 1;
    }
    assert(chars@.take(n as int) =~= chars@);
    if found == 2 {
        Some((h1, h2))
    } else {
        None
    }
}

/// Finds the first digit among the characters `from..to`.
fn first_digit_in(chars: &Vec<char>, from: usize, to: usize) -> (k: usize)
    requires
        from <= to <= chars.len(),
    ensures
        from <= k <= to,
        k - from == first_digit(chars@.subrange(from as int, to as int)),
{
    let ghost part = chars@.subrange(from as int, to as int);
    let mut k: usize = from;
    while k < to && !char_is_digit(chars[k])
        invariant
            from <= k <= to <= chars.len(),
            part == chars@.subrange(from as int, to as int),
            forall|t: int| 0 <= t < k - from ==> !is_digit(part[t]),
        decreases to - k,
    {
        k += 1;
    }
    proof {
        lemma_first_digit(part, k - from);
    }
    k
}

/// Counts the bytes that the characters `from..to` take in UTF-8.
fn encoded_len_in(chars: &Vec<char>, from: usize, to: usize) -> (width: u128)
    requires
        from <= to <= chars.len(),
    ensures
        width == encoded_len(chars@.subrange(from as int, to as int)),
{
    let ghost part = chars@.subrange(from as int, to as int);
    let mut width: u128 = 0;
    let mut t: usize = from;
    while t < to
        invariant
            from <= t <= to <= chars.len(),
            part == chars@.subrange(from as int, to as int),
            width == encoded_len(part.take(t - from)),
            width <= 4 * (t - from),
        decreases to - t,
    {
        proof {
            lemma_encoded_len_step(part, t - from);
        }
        width = width + char_width(chars[t]);
        t += 1;
    }
    assert(part.take(to - from) =~= part);
    width
}

/// Passes over the first `width` bytes of what stands from `from` on, and
/// says where the rest begins.
fn skip_bytes(chars: &Vec<char>, from: usize, width: u128) -> (r: Option<usize>)
    requires
        from <= chars.len(),
    ensures
        match r {
            Some(b) => from <= b <= chars.len() && after_bytes(
                chars@.skip(from as int),
                width as nat,
            ) == Some(chars@.skip(b as int)),
            None => after_bytes(chars@.skip(from as int), width as nat) is None,
        },
{
    let n = chars.len();
    let mut left: u128 = width;
    let mut b: usize = from;
    while left > 0
        invariant
            from <= b <= n == chars.len(),
            after_bytes(chars@.skip(from as int), width as nat) == after_bytes(
                chars@.skip(b as int),
                left as nat,
            ),
        decreases left,
    {
        if b == n {
            return None;
        }
        proof {
            lemma_after_bytes_step(chars@, b as int, left as nat);
        }
        let w = char_width(chars[b]);
        if w > left {
            return None;
        }
        left = left - w;
        b += 1;
    }
    Some(b)
}

/// Reads a card identifier as a range: `(prefix, sub-prefix, start, end)`, as
/// [`card_range`] says, or `None` where it names a single card.
pub fn parse_card_range<'a>(card_id: &'a str) -> (r: Option<(&'a str, Option<&'a str>, i32, i32)>)
    ensures
        match (r, card_range(card_id@)) {
            (Some(got), Some(range)) => {
                &&& got.0@ == range.0
                &&& option_text(got.1) == range.1
                &&& got.2 == range.2
                &&& got.3 == range.3
            },
            (None, None) => true,
            _ => false,
        },
{
    let chars = chars_of(card_id);
    let n = chars.len();
    let (h1, h2) = match two_hyphens(&chars) {
        Some(pair) => pair,
        None => {
            return None;
        },
    };
    let ghost first = chars@.subrange(h1 + 1, h2 as int);
    let k = first_digit_in(&chars, h1 + 1, h2);
    let ghost sub = first.take(k - (h1 + 1));
    proof {
        assert(first.skip(k - (h1 + 1)) =~= chars@.subrange(k as int, h2 as int));
        assert(sub =~= chars@.subrange(h1 + 1, k as int));
    }
    let start: i32 = match parse_number_in(&chars, k, h2) {
        Some(v) => v,
        None => {
            return None;
        },
    };
    let width = encoded_len_in(&chars, h1 + 1, k);
    let b = match skip_bytes(&chars, h2 + 1, width) {
        Some(b) => b,
        None => {
            return None;
        },
    };
    let end: i32 = match parse_number_in(&chars, b, n) {
        Some(v) => v,
        None => {
            return None;
        },
    };
    let prefix = card_id.substring_char(0, h1);
    let sub_prefix = if k > h1 + 1 {
        Some(card_id.substring_char(h1 + 1, k))
    } else {
        None
    };
    Some((prefix, sub_prefix, start, end))
}

/// Appends `n` as [`padded3`] writes it.
fn append_padded3(out: &mut String, n: i32)
    ensures
        final(out)@ == old(out)@ + padded3(n as int),
{
    proof {
        reveal_strlit("-");
        reveal_strlit("-0");
        reveal_strlit("00");
        reveal_strlit("0");
    }
    if n <= -10 {
        out.append("-");
        append_decimal(out, (-(n as i64)) as u64);
    } else if n < 0 {
        out.append("-0");
        append_decimal(out, (-(n as i64)) as u64);
    } else if n < 10 {
        out.append("00");
        append_decimal(out, n as u64);
    } else if n < 100 {
        out.append("0");
        append_decimal(out, n as u64);
    } else {
        append_decimal(out, n as u64);
    }
}

/// The card number of member `n` of the range with this prefix and
/// sub-prefix, as [`card_number_text`] writes it.
pub fn range_card_number(prefix: &str, sub_prefix: Option<&str>, n: i32) -> (s: String)
    ensures
        s@ == card_number_text(prefix@, option_text(sub_prefix), n as int),
{
    proof {
        reveal_strlit("-");
    }
    let mut out = String::from_str(prefix);
    out.append("-");
    match sub_prefix {
        Some(sub) => {
            out.append(sub);
        },
        None => {},
    }
    append_padded3(&mut out, n);
    out
}

/// `positions` lists every occurrence of `c`, in ascending order, and nothing
/// else.
pub proof fn lemma_positions(s: Seq<char>, c: char)
    ensures
        forall|j: int|
            0 <= j < positions(s, c).len() ==> 0 <= #[trigger] positions(s, c)[j] < s.len()
                && s[positions(s, c)[j]] == c,
        forall|i: int, j: int|
            0 <= i < j < positions(s, c).len() ==> positions(s, c)[i] < positions(s, c)[j],
        forall|i: int| 0 <= i < s.len() && s[i] == c ==> positions(s, c).contains(i),
    decreases s.len(),
{
    if s.len() > 0 {
        let front = s.drop_last();
        let p = positions(front, c);
        lemma_positions(front, c);
        assert forall|i: int| 0 <= i < s.len() && s[i] == c implies positions(s, c).contains(
            i,
        ) by {
            if i < s.len() - 1 {
                assert(front[i] == c);
                let j = choose|j: int| 0 <= j < p.len() && p[j] == i;
                assert(positions(s, c)[j] == i);
            } else {
                assert(positions(s, c)[p.len() as int] == i);
            }
        }
    }
}

/// The one position of a character that occurs once.
proof fn lemma_single_position(s: Seq<char>, c: char, h: int)
    requires
        0 <= h < s.len(),
        s[h] == c,
        forall|k: int| 0 <= k < s.len() && k != h ==> s[k] != c,
    ensures
        positions(s, c) == seq![h],
{
    lemma_positions(s, c);
    let p = positions(s, c);
    if p.len() > 1 {
        assert(s[p[0]] == c && s[p[1]] == c);
    }
}

/// `first_digit` gives an index before which no digit stands and at which,
/// if it is within the sequence, one does.
pub proof fn lemma_first_digit_found(s: Seq<char>)
    ensures
        0 <= first_digit(s) <= s.len(),
        forall|i: int| 0 <= i < first_digit(s) ==> !is_digit(s[i]),
        first_digit(s) < s.len() ==> is_digit(s[first_digit(s)]),
    decreases s.len(),
{
    if s.len() > 0 && !is_digit(s[0]) {
        let rest = s.skip(1);
        lemma_first_digit_found(rest);
        assert forall|i: int| 0 <= i < first_digit(s) implies !is_digit(s[i]) by {
            if i > 0 {
                assert(rest[i - 1] == s[i]);
            }
        }
    }
}

/// `last_digit`, where it finds one, gives the index of a digit after which
/// none stands.
proof fn lemma_last_digit_found(s: Seq<char>)
    ensures
        last_digit(s) matches Some(j) ==> 0 <= j < s.len() && is_digit(s[j]),
        last_digit(s) is None ==> forall|i: int| 0 <= i < s.len() ==> !is_digit(s[i]),
    decreases s.len(),
{
    if s.len() > 0 && !is_digit(s.last()) {
        let front = s.drop_last();
        lemma_last_digit_found(front);
        if !(last_digit(s) is Some) {
            assert forall|i: int| 0 <= i < s.len() implies !is_digit(s[i]) by {
                if i < s.len() - 1 {
                    assert(front[i] == s[i]);
                }
            }
        }
    }
}

/// `digits_start` gives the start of a run of digits that reaches up to
/// `end`.
proof fn lemma_digits_run(s: Seq<char>, end: int)
    requires
        0 <= end <= s.len(),
    ensures
        0 <= digits_start(s, end) <= end,
        forall|k: int| digits_start(s, end) <= k < end ==> is_digit(s[k]),
    decreases end,
{
    if 0 < end && is_digit(s[end - 1]) {
        lemma_digits_run(s, end - 1);
    }
}

/// `number_start` lies within the identifier.
proof fn lemma_number_start_bounds(s: Seq<char>)
    ensures
        0 <= number_start(s) <= s.len(),
{
    lemma_last_digit_found(s);
    if last_digit(s) is Some {
        lemma_digits_run(s, last_digit(s)->0);
    }
}

/// The series prefix of an identifier is a leading part of it and holds no
/// hyphen, and its collection number is not negative.
pub proof fn lemma_series_and_number(s: Seq<char>)
    ensures
        series_prefix(s).len() <= s.len(),
        series_prefix(s) == s.take(series_prefix(s).len() as int),
        forall|i: int| 0 <= i < series_prefix(s).len() ==> series_prefix(s)[i] != '-',
        collection_number(s) >= 0,
{
    lemma_number_start_bounds(s);
    let head = s.take(number_start(s));
    lemma_positions(head, '-');
    let tail = s.skip(number_start(s));
    if parse_i32(tail) is Some {
        if last_digit(s) is Some {
            lemma_digits_run(s, last_digit(s)->0);
            lemma_last_digit_found(s);
            lemma_decimal_value_nonnegative(tail);
        }
    }
}

/// Three digits at least, all of them digits, write `n`.
proof fn lemma_padded3(n: int)
    requires
        0 <= n <= i32::MAX,
    ensures
        padded3(n).len() >= 3,
        all_digits(padded3(n)),
        parse_i32(padded3(n)) == Some(n as i32),
{
    let digits = decimal_text(n as nat);
    lemma_decimal_text(n as nat);
    if n < 10 {
        lemma_leading_zero(digits);
        lemma_leading_zero(seq!['0'] + digits);
        assert(seq!['0'] + (seq!['0'] + digits) =~= padded3(n));
    } else if n < 100 {
        lemma_decimal_text((n / 10) as nat);
        lemma_leading_zero(digits);
    } else {
        lemma_decimal_text((n / 10) as nat);
        lemma_decimal_text((n / 10 / 10) as nat);
    }
}

/// Every member of a range is a card of its own: it reads back as the prefix
/// of the range and its own number, and is itself no range.
///
/// For an identifier `s` that denotes the range `(prefix, sub_prefix, start,
/// end)` and every `n` from `start` to `end`, the card number of member `n`
/// has the series prefix `prefix` and the collection number `n`, and denotes
/// a single card.
pub proof fn lemma_range_member_reads_back(
    s: Seq<char>,
    prefix: Seq<char>,
    sub_prefix: Option<Seq<char>>,
    start: i32,
    end: i32,
    n: int,
)
    requires
        card_range(s) == Some((prefix, sub_prefix, start, end)),
        start <= n <= end,
    ensures
        series_prefix(card_number_text(prefix, sub_prefix, n)) == prefix,
        collection_number(card_number_text(prefix, sub_prefix, n)) == n,
        card_range(card_number_text(prefix, sub_prefix, n)) is None,
{
    let hyphens = positions(s, '-');
    let first = s.subrange(hyphens[0] + 1, hyphens[1]);
    let k = first_digit(first);
    let filler = match sub_prefix {
        Some(t) => t,
        None => Seq::<char>::empty(),
    };
    let head = prefix + seq!['-'] + filler;
    let digits = padded3(n);
    let t = card_number_text(prefix, sub_prefix, n);
    // Neither the prefix nor the sub-prefix holds a hyphen or ends in a digit.
    lemma_positions(s, '-');
    lemma_first_digit_found(first);
    // The start is written with digits alone, so no member is negative.
    assert(start >= 0) by {
        if k < first.len() {
            lemma_decimal_value_nonnegative(first.skip(k));
        }
    }
    // The number begins where the head ends, and reads back as `n`.
    lemma_padded3(n);
    lemma_last_digit(t, t.len() as int);
    lemma_digits_start(t, head.len() as int, t.len() - 1);
    assert(t.skip(head.len() as int) =~= digits);
    assert(t.take(head.len() as int) =~= head);
    // The head is cut at its one hyphen, and that hyphen is the only one.
    lemma_first_position(head, '-', prefix.len() as int);
    lemma_single_position(t, '-', prefix.len() as int);
}

} // verus!
