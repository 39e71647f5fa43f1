//! Rows as the store hands them out, and the entities that they read as.

use vstd::prelude::*;
use crate::card::{Card, CardView};
use crate::cardtype::{CardType, CardTypeView};
use crate::rarity::{Rarity, RarityView};
use crate::series::{Series, SeriesView};
use crate::sql::{CardColumns, SeriesColumns};
use crate::text::option_string_text;

verus! {

/// The series that a row of the series table reads as.
pub open spec fn series_of_columns(c: SeriesColumns) -> SeriesView {
    SeriesView {
        id: Some(c.0),
        name: c.1@,
        release_date: c.2@,
        n_cards: c.3,
        prefix: option_string_text(c.4),
    }
}

/// The card that a row of the cards table, joined with the rarity, the card
/// type and the series of the card, reads as.
pub open spec fn card_of_columns(c: CardColumns) -> CardView {
    CardView {
        name: c.0@,
        number: c.2@,
        collection_number: c.3,
        in_collection: c.4,
        series: SeriesView {
            id: Some(c.1),
            name: c.9@,
            release_date: c.11@,
            n_cards: c.12,
            prefix: option_string_text(c.10),
        },
        rarity: RarityView { id: c.5, name: c.6@ },
        cardtype: CardTypeView { main: c.7@, sub: c.8@ },
    }
}

/// The series of a row, where the row could be read.
pub open spec fn read_series(row: Option<SeriesColumns>) -> Option<SeriesView> {
    match row {
        Some(c) => Some(series_of_columns(c)),
        None => None,
    }
}

/// The card of a row, where the row could be read.
pub open spec fn read_card(row: Option<CardColumns>) -> Option<CardView> {
    match row {
        Some(c) => Some(card_of_columns(c)),
        None => None,
    }
}

/// The series of the rows that could be read, in the order of the rows.
pub open spec fn readable_series(rows: Seq<Option<SeriesColumns>>) -> Seq<SeriesView> {
    rows.filter_map(|row: Option<SeriesColumns>| read_series(row))
}

/// The cards of the rows that could be read, in the order of the rows.
pub open spec fn readable_cards(rows: Seq<Option<CardColumns>>) -> Seq<CardView> {
    rows.filter_map(|row: Option<CardColumns>| read_card(row))
}

/// A copy of a text that may be absent.
fn copy_option(t: &Option<String>) -> (r: Option<String>)
    ensures
        option_string_text(r) == option_string_text(*t),
{
    match t {
        Some(s) => Some(s.clone()),
        None => None,
    }
}

/// The series that a row reads as.
pub fn series_from_columns(c: &SeriesColumns) -> (s: Series)
    ensures
        s@ == series_of_columns(*c),
{
    Series {
        id: Some(c.0),
        name: c.1.clone(),
        release_date: c.2.clone(),
        n_cards: c.3,
        prefix: copy_option(&c.4),
    }
}

/// The card that a joined row reads as.
pub fn card_from_columns(c: &CardColumns) -> (card: Card)
    ensures
        card@ == card_of_columns(*c),
{
    Card {
        name: c.0.clone(),
        number: c.2.clone(),
        collection_number: c.3,
        in_collection: c.4,
        series: Series {
            id: Some(c.1),
            name: c.9.clone(),
            release_date: c.11.clone(),
            n_cards: c.12,
            prefix: copy_option(&c.10),
        },
        rarity: Rarity { id: c.5, name: c.6.clone() },
        cardtype: CardType { main: c.7.clone(), sub: c.8.clone() },
    }
}

/// The series of the rows that could be read; the others are passed over.
pub fn series_of_rows(rows: &Vec<Option<SeriesColumns>>) -> (out: Vec<Series>)
    ensures
        out.deep_view() == readable_series(rows@),
{
    let ghost f = |row: Option<SeriesColumns>| read_series(row);
    let mut out: Vec<Series> = Vec::new();
    let mut i: usize = 0;
    while i < rows.len()
        invariant
            i <= rows.len(),
            f == |row: Option<SeriesColumns>| read_series(row),
            out.deep_view() == rows@.take(i as int).filter_map(f),
        decreases rows.len() - i,
    {
        proof {
            rows@.lemma_filter_map_take_succ(f, i as int);
        }
        match &rows[i] {
            Some(c) => {
                let s = series_from_columns(c);
                out.push(s);
            },
            None => {},
        }
        i += 1;
    }
    assert(rows@.take(rows@.len() as int) =~= rows@);
    out
}

/// The cards of the rows that could be read; the others are passed over.
pub fn cards_of_rows(rows: &Vec<Option<CardColumns>>) -> (out: Vec<Card>)
    ensures
        out.deep_view() == readable_cards(rows@),
{
    let ghost f = |row: Option<CardColumns>| read_card(row);
    let mut out: Vec<Card> = Vec::new();
    let mut i: usize = 0;
    while i < rows.len()
        invariant
            i <= rows.len(),
            f == |row: Option<CardColumns>| read_card(row),
            out.deep_view() == rows@.take(i as int).filter_map(f),
        decreases rows.len() - i,
    {
        proof {
            rows@.lemma_filter_map_take_succ(f, i as int);
        }
        match &rows[i] {
            Some(c) => {
                let card = card_from_columns(c);
                out.push(card);
            },
            None => {},
        }
        i += 1;
    }
    assert(rows@.take(rows@.len() as int) =~= rows@);
    out
}

/// Every series that is read from rows carries its id.
pub proof fn lemma_readable_series_have_ids(rows: Seq<Option<SeriesColumns>>)
    ensures
        readable_series(rows).len() <= rows.len(),
        forall|i: int|
            0 <= i < readable_series(rows).len() ==> (#[trigger] readable_series(rows)[i]).id
                is Some,
    decreases rows.len(),
{
    if rows.len() > 0 {
        lemma_readable_series_have_ids(rows.drop_last());
    }
}

/// Every card that is read from rows carries the id of its series.
pub proof fn lemma_readable_cards_have_series_ids(rows: Seq<Option<CardColumns>>)
    ensures
        readable_cards(rows).len() <= rows.len(),
        forall|i: int|
            0 <= i < readable_cards(rows).len() ==> (#[trigger] readable_cards(rows)[i]).series.id
                is Some,
    decreases rows.len(),
{
    if rows.len() > 0 {
        lemma_readable_cards_have_series_ids(rows.drop_last());
    }
}

} // verus!
