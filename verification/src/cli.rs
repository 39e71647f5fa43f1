//! The kinds of thing that the commands of the command line work on.

use vstd::prelude::*;
use crate::text::same_text;

verus! {

/// What `add` can add.
#[derive(Debug, Clone, Copy, PartialEq, Eq, Structural)]
pub enum AddKind {
    Series,
    Card,
    Json,
    Rarity,
    CardType,
}

/// What `list` can list.
#[derive(Debug, Clone, Copy, PartialEq, Eq, Structural)]
pub enum ListKind {
    Cards,
    Serie,
    Series,
    Rarities,
    CardTypes,
}

/// What `find` can find.
#[derive(Debug, Clone, Copy, PartialEq, Eq, Structural)]
pub enum FindKind {
    Cards,
    Serie,
}

/// The kind that a word of `add` names.
pub open spec fn add_kind_of(word: Seq<char>) -> Option<AddKind> {
    if word == "series"@ {
        Some(AddKind::Series)
    } else if word == "card"@ {
        Some(AddKind::Card)
    } else if word == "json"@ {
        Some(AddKind::Json)
    } else if word == "rarity"@ {
        Some(AddKind::Rarity)
    } else if word == "card-type"@ {
        Some(AddKind::CardType)
    } else {
        None
    }
}

/// The kind that a word of `list` names.
pub open spec fn list_kind_of(word: Seq<char>) -> Option<ListKind> {
    if word == "cards"@ {
        Some(ListKind::Cards)
    } else if word == "serie"@ {
        Some(ListKind::Serie)
    } else if word == "series"@ {
        Some(ListKind::Series)
    } else if word == "rarities"@ {
        Some(ListKind::Rarities)
    } else if word == "card-types"@ {
        Some(ListKind::CardTypes)
    } else {
        None
    }
}

/// The kind that a word of `find` names; `serie` and `series` name the same.
pub open spec fn find_kind_of(word: Seq<char>) -> Option<FindKind> {
    if word == "cards"@ {
        Some(FindKind::Cards)
    } else if word == "serie"@ || word == "series"@ {
        Some(FindKind::Serie)
    } else {
        None
    }
}

impl AddKind {
    /// The kind that `word` names, if it names one.
    pub fn parse(word: &str) -> (kind: Option<AddKind>)
        ensures
            kind == add_kind_of(word@),
    {
        if same_text(word, "series") {
            Some(AddKind::Series)
        } else if same_text(word, "card") {
            Some(AddKind::Card)
        } else if same_text(word, "json") {
            Some(AddKind::Json)
        } else if same_text(word, "rarity") {
            Some(AddKind::Rarity)
        } else if same_text(word, "card-type") {
            Some(AddKind::CardType)
        } else {
            None
        }
    }
}

impl ListKind {
    /// The kind that `word` names, if it names one.
    pub fn parse(word: &str) -> (kind: Option<ListKind>)
        ensures
            kind == list_kind_of(word@),
    {
        if same_text(word, "cards") {
            Some(ListKind::Cards)
        } else if same_text(word, "serie") {
            Some(ListKind::Serie)
        } else if same_text(word, "series") {
            Some(ListKind::Series)
        } else if same_text(word, "rarities") {
            Some(ListKind::Rarities)
        } else if same_text(word, "card-types") {
            Some(ListKind::CardTypes)
        } else {
            None
        }
    }
}

impl FindKind {
    /// The kind that `word` names, if it names one.
    pub fn parse(word: &str) -> (kind: Option<FindKind>)
        ensures
            kind == find_kind_of(word@),
    {
        if same_text(word, "cards") {
            Some(FindKind::Cards)
        } else if same_text(word, "serie") || same_text(word, "series") {
            Some(FindKind::Serie)
        } else {
            None
        }
    }
}

} // verus!
