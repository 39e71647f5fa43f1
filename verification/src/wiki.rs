//! The wiki page of a series: its name in the form in which the wiki files
//! it, and its address.

use vstd::prelude::*;
use crate::text::{chars_of, same_text};

verus! {

/// Whether `c` is white space: whether it has the Unicode property
/// `White_Space`. These are the tab, the line feed, the vertical tab, the
/// form feed, the carriage return and the space; the next line and the
/// no-break space; the Ogham space mark; the spaces from the en quad to the
/// hair space; the line and the paragraph separator; and the narrow no-break,
/// the medium mathematical and the ideographic space.
pub open spec fn white_space(c: char) -> bool {
    let code = c as u32;
    ||| 0x0009 <= code <= 0x000D
    ||| code == 0x0020
    ||| code == 0x0085
    ||| code == 0x00A0
    ||| code == 0x1680
    ||| 0x2000 <= code <= 0x200A
    ||| code == 0x2028
    ||| code == 0x2029
    ||| code == 0x202F
    ||| code == 0x205F
    ||| code == 0x3000
}

/// The upper-case form of `c`, as the standard library gives it; it can be
/// longer than one character.
pub uninterp spec fn upper_case(c: char) -> Seq<char>;

/// Tests a character for being white space, as [`white_space`] says.
pub fn is_white_space(c: char) -> (b: bool)
    ensures
        b == white_space(c),
{
    let code: u32 = c as u32;
    (0x0009 <= code && code <= 0x000D) || code == 0x0020 || code == 0x0085 || code == 0x00A0
        || code == 0x1680 || (0x2000 <= code && code <= 0x200A) || code == 0x2028 || code
        == 0x2029 || code == 0x202F || code == 0x205F || code == 0x3000
}

/// `char::to_uppercase`: the upper-case form of a character. The contract
/// only gives the result its name.
#[verifier::external_body]
fn to_upper_case(c: char) -> (upper: String)
    ensures
        upper@ == upper_case(c),
{
    c.to_uppercase().collect()
}

/// Where the words of `s` stand: each pair is the index at which a word
/// begins and the index just after its end. A word is a longest run of
/// characters that are not white space.
pub open spec fn word_bounds(s: Seq<char>) -> Seq<(int, int)>
    decreases s.len(),
{
    if s.len() == 0 {
        Seq::empty()
    } else {
        let before = word_bounds(s.drop_last());
        if white_space(s.last()) {
            before
        } else if s.len() >= 2 && !white_space(s[s.len() - 2]) {
            before.drop_last().push((before.last().0, s.len() as int))
        } else {
            before.push((s.len() - 1, s.len() as int))
        }
    }
}

/// A word as the wiki writes it in the name of a page: `the` and `of` as they
/// stand, any other word with its first character in upper case.
pub open spec fn page_word(word: Seq<char>) -> Seq<char> {
    if word == "the"@ || word == "of"@ || word.len() == 0 {
        word
    } else {
        upper_case(word[0]) + word.skip(1)
    }
}

/// The words at the first `n` of the bounds `bounds` of `s`, each written as
/// [`page_word`] writes it, with an underscore between every two.
pub open spec fn joined_words(s: Seq<char>, bounds: Seq<(int, int)>, n: int) -> Seq<char>
    decreases n,
{
    if n <= 0 {
        Seq::empty()
    } else if n == 1 {
        page_word(s.subrange(bounds[0].0, bounds[0].1))
    } else {
        joined_words(s, bounds, n - 1) + seq!['_'] + page_word(
            s.subrange(bounds[n - 1].0, bounds[n - 1].1),
        )
    }
}

/// The name of the wiki page of a series: the words of its name, each as
/// [`page_word`] writes it, joined by underscores.
pub open spec fn page_name(name: Seq<char>) -> Seq<char> {
    joined_words(name, word_bounds(name), word_bounds(name).len() as int)
}

/// Where the wiki keeps its pages.
pub open spec fn wiki_root() -> Seq<char> {
    "https://yugioh.fandom.com/wiki/"@
}

/// The bounds of the words of a text are within it, and each word has at
/// least one character.
proof fn lemma_word_bounds(s: Seq<char>)
    ensures
        forall|i: int|
            0 <= i < word_bounds(s).len() ==> 0 <= (#[trigger] word_bounds(s)[i]).0 < word_bounds(
                s,
            )[i].1 <= s.len(),
        s.len() > 0 && !white_space(s.last()) ==> word_bounds(s).len() > 0 && word_bounds(
            s,
        ).last().1 == s.len(),
    decreases s.len(),
{
    if s.len() > 0 {
        lemma_word_bounds(s.drop_last());
        if !white_space(s.last()) && s.len() >= 2 && !white_space(s[s.len() - 2]) {
            assert(s.drop_last().last() == s[s.len() - 2]);
        }
    }
}

/// The bounds of the words of `chars`, as [`word_bounds`] says.
fn find_words(chars: &Vec<char>) -> (bounds: Vec<(usize, usize)>)
    ensures
        bounds@.map_values(|b: (usize, usize)| (b.0 as int, b.1 as int)) == word_bounds(chars@),
        forall|i: int|
            0 <= i < bounds.len() ==> (#[trigger] bounds[i]).0 < bounds[i].1 <= chars.len(),
{
    let ghost as_ints = |b: (usize, usize)| (b.0 as int, b.1 as int);
    let mut bounds: Vec<(usize, usize)> = Vec::new();
    let mut in_word = false;
    let mut i: usize = 0;
    while i < chars.len()
        invariant
            i <= chars.len(),
            as_ints == |b: (usize, usize)| (b.0 as int, b.1 as int),
            bounds@.map_values(as_ints) == word_bounds(chars@.take(i as int)),
            in_word == (i > 0 && !white_space(chars@[i - 1])),
            forall|k: int|
                0 <= k < bounds.len() ==> (#[trigger] bounds[k]).0 < bounds[k].1 <= i,
        decreases chars.len() - i,
    {
        let ghost before = chars@.take(i as int);
        let ghost now = chars@.take(i + 1);
        proof {
            assert(now.drop_last() =~= before);
            lemma_word_bounds(before);
        }
        if !is_white_space(chars[i]) {
            if in_word {
                let last = bounds.len() - 1;
                let begin = bounds[last].0;
                bounds.pop();
                bounds.push((begin, i + 1));
            } else {
                bounds.push((i, i + 1));
            }
            in_word = true;
        } else {
            in_word = false;
        }
        i += 1;
    }
    assert(chars@.take(chars.len() as int) =~= chars@);
    bounds
}

/// Appends a word as [`page_word`] writes it.
fn append_page_word(out: &mut String, word: &str)
    ensures
        final(out)@ == old(out)@ + page_word(word@),
{
    if same_text(word, "the") || same_text(word, "of") || word.unicode_len() == 0 {
        out.append(word);
    } else {
        let first = word.get_char(0);
        let upper = to_upper_case(first);
        out.append(upper.as_str());
        out.append(word.substring_char(1, word.unicode_len()));
    }
}

/// The name of the wiki page of the series `name`, as [`page_name`] says.
pub fn wiki_page_name(name: &str) -> (page: String)
    ensures
        page@ == page_name(name@),
{
    let chars = chars_of(name);
    let bounds = find_words(&chars);
    let ghost all = word_bounds(name@);
    let mut page = String::new();
    let mut k: usize = 0;
    while k < bounds.len()
        invariant
            k <= bounds.len(),
            chars@ == name@,
            all == word_bounds(name@),
            bounds@.map_values(|b: (usize, usize)| (b.0 as int, b.1 as int)) == all,
            forall|i: int|
                0 <= i < bounds.len() ==> (#[trigger] bounds[i]).0 < bounds[i].1 <= chars.len(),
            page@ == joined_words(name@, all, k as int),
        decreases bounds.len() - k,
    {
        let (begin, end) = bounds[k];
        if k > 0 {
            page.append("_");
        }
        append_page_word(&mut page, name.substring_char(begin, end));
        proof {
            reveal_strlit("_");
        }
        k += 1;
    }
    page
}

/// The address of the wiki page of the series `name`: [`wiki_root`], then the
/// name of the page.
pub fn wiki_page_url(name: &str) -> (url: String)
    ensures
        url@ == wiki_root() + page_name(name@),
{
    let mut url = String::from_str("https://yugioh.fandom.com/wiki/");
    let page = wiki_page_name(name);
    url.append(page.as_str());
    url
}

} // verus!
