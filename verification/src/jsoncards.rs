//! The records of a card list that is loaded in bulk.

use vstd::prelude::*;
use crate::card::{DatabaseCard, DatabaseCardView};
use crate::card_number::{collection_number, get_series_and_number};
use crate::series::{Series, SeriesView};
use crate::text::option_string_text;

verus! {

/// One card of a card list: its number, its name, and its rarity and card
/// type by name.
#[derive(Debug, Clone)]
pub struct CardJson {
    pub card_number: String,
    pub name: String,
    pub rarity: String,
    pub category: String,
}

/// A card list: a series and its cards.
#[derive(Debug, Clone)]
pub struct SeriesJson {
    pub name: String,
    pub ncards: i32,
    pub release_date: String,
    pub prefix: Option<String>,
    pub cards: Vec<CardJson>,
}

/// The card that a record of a card list stands for, once its series, rarity
/// and card type are known by id: the collection number is read from the card
/// number, and no copies are owned.
pub open spec fn card_of_record(
    card_number: Seq<char>,
    name: Seq<char>,
    series_id: i32,
    rarity_id: i32,
    card_type_id: i32,
) -> DatabaseCardView {
    DatabaseCardView {
        name,
        series_id,
        number: card_number,
        collection_number: collection_number(card_number),
        in_collection: 0,
        rarity_id,
        card_type_id,
    }
}

/// The series that a card list stands for: not yet inserted, and with the
/// empty prefix where the list gives none.
pub open spec fn series_of_list(
    name: Seq<char>,
    ncards: i32,
    release_date: Seq<char>,
    prefix: Option<Seq<char>>,
) -> SeriesView {
    SeriesView {
        id: None,
        name,
        release_date,
        n_cards: ncards,
        prefix: match prefix {
            Some(p) => Some(p),
            None => Some(Seq::empty()),
        },
    }
}

impl CardJson {
    /// The card that this record stands for, as [`card_of_record`] says.
    pub fn to_card(&self, series_id: i32, rarity_id: i32, card_type_id: i32) -> (card: DatabaseCard)
        ensures
            card@ == card_of_record(
                self.card_number@,
                self.name@,
                series_id,
                rarity_id,
                card_type_id,
            ),
    {
        let (_, number) = get_series_and_number(self.card_number.as_str());
        DatabaseCard {
            name: self.name.clone(),
            series_id,
            number: self.card_number.clone(),
            collection_number: number,
            in_collection: 0,
            rarity_id,
            card_type_id,
        }
    }
}

impl SeriesJson {
    /// The series that this card list stands for, as [`series_of_list`] says.
    pub fn series(&self) -> (series: Series)
        ensures
            series@ == series_of_list(
                self.name@,
                self.ncards,
                self.release_date@,
                option_string_text(self.prefix),
            ),
    {
        Series {
            id: None,
            name: self.name.clone(),
            release_date: self.release_date.clone(),
            n_cards: self.ncards,
            prefix: match &self.prefix {
                Some(p) => Some(p.clone()),
                None => Some(String::new()),
            },
        }
    }
}

} // verus!
