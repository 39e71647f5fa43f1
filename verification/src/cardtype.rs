//! Card types: a main category and a sub-category, such as `Spell Card` and
//! `Normal`.

use vstd::prelude::*;
use crate::text::{chars_of, same_text};

verus! {

/// A card type: the pair of its main category and its sub-category.
#[derive(Debug, Clone)]
pub struct CardType {
    pub main: String,
    pub sub: String,
}

/// What a [`CardType`] holds.
pub struct CardTypeView {
    pub main: Seq<char>,
    pub sub: Seq<char>,
}

impl View for CardType {
    type V = CardTypeView;

    open spec fn view(&self) -> CardTypeView {
        CardTypeView { main: self.main@, sub: self.sub@ }
    }
}

impl DeepView for CardType {
    type V = CardTypeView;

    open spec fn deep_view(&self) -> CardTypeView {
        self@
    }
}

/// The label of a card type: its sub-category, a space, its main category.
pub open spec fn label_of(t: CardTypeView) -> Seq<char> {
    t.sub + seq![' '] + t.main
}

/// The index of the first space of `s`; its length where it holds none.
pub open spec fn first_space(s: Seq<char>) -> int
    decreases s.len(),
{
    if s.len() == 0 || s[0] == ' ' {
        0
    } else {
        1 + first_space(s.skip(1))
    }
}

/// A label divided at its first space: the sub-category before it, the main
/// category after it. A label without a space is all sub-category.
pub open spec fn split_label(label: Seq<char>) -> CardTypeView {
    let at = first_space(label);
    CardTypeView {
        main: if at < label.len() {
            label.skip(at + 1)
        } else {
            Seq::empty()
        },
        sub: label.take(at),
    }
}

/// The card type that a label looks up: `Fusion Monster` and `Ritual Monster`
/// are main categories of their own, with the sub-category `Normal`; any other
/// label divides at its first space.
pub open spec fn card_type_of_label(label: Seq<char>) -> CardTypeView {
    if label == "Fusion Monster"@ {
        CardTypeView { main: "Fusion Monster"@, sub: "Normal"@ }
    } else if label == "Ritual Monster"@ {
        CardTypeView { main: "Ritual Monster"@, sub: "Normal"@ }
    } else {
        split_label(label)
    }
}

/// `first_space` on a sequence whose first `k` characters are no spaces and
/// whose character at `k`, if any, is one.
proof fn lemma_first_space(s: Seq<char>, k: int)
    requires
        0 <= k <= s.len(),
        forall|i: int| 0 <= i < k ==> s[i] != ' ',
        k < s.len() ==> s[k] == ' ',
    ensures
        first_space(s) == k,
    decreases k,
{
    if k > 0 {
        let rest = s.skip(1);
        lemma_first_space(rest, k - 1);
    }
}

impl CardType {
    /// The label of this card type, such as `Normal Spell Card`.
    pub fn display(&self) -> (label: String)
        ensures
            label@ == label_of(self@),
    {
        proof {
            reveal_strlit(" ");
        }
        let mut label = self.sub.clone();
        label.append(" ");
        label.append(self.main.as_str());
        label
    }

    /// Divides a label at its first space, as [`split_label`] says.
    pub fn split(label: &str) -> (t: CardType)
        ensures
            t@ == split_label(label@),
    {
        let chars = chars_of(label);
        let n = chars.len();
        let mut at: usize = 0;
        while at < n && chars[at] != ' '
            invariant
                at <= n == chars.len(),
                forall|i: int| 0 <= i < at ==> chars@[i] != ' ',
            decreases n - at,
        {
            at += 1;
        }
        proof {
            lemma_first_space(chars@, at as int);
        }
        let sub = String::from_str(label.substring_char(0, at));
        let main = if at < n {
            String::from_str(label.substring_char(at + 1, n))
        } else {
            String::new()
        };
        CardType { main, sub }
    }

    /// The card type that `label` looks up, as [`card_type_of_label`] says.
    pub fn from_label(label: &str) -> (t: CardType)
        ensures
            t@ == card_type_of_label(label@),
    {
        if same_text(label, "Fusion Monster") {
            CardType { main: String::from_str("Fusion Monster"), sub: String::from_str("Normal") }
        } else if same_text(label, "Ritual Monster") {
            CardType { main: String::from_str("Ritual Monster"), sub: String::from_str("Normal") }
        } else {
            CardType::split(label)
        }
    }
}

/// A card type whose sub-category holds no space divides back out of its
/// label: what [`CardType::display`] writes, [`CardType::split`] reads as the
/// same card type.
pub proof fn lemma_label_divides_back(t: CardTypeView)
    requires
        forall|i: int| 0 <= i < t.sub.len() ==> t.sub[i] != ' ',
    ensures
        split_label(label_of(t)) == t,
{
    let label = label_of(t);
    lemma_first_space(label, t.sub.len() as int);
    assert(label.take(t.sub.len() as int) =~= t.sub);
    assert(label.skip(t.sub.len() as int + 1) =~= t.main);
}

} // verus!
