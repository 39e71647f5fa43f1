//! Cards: the row that the store keeps, and the card with its series, rarity
//! and card type resolved.

use vstd::prelude::*;
use crate::cardtype::{CardType, CardTypeView};
use crate::rarity::{Rarity, RarityView};
use crate::series::{Series, SeriesView};

verus! {

/// A card as the store keeps it: `number` is its natural key, and series,
/// rarity and card type are referred to by id.
#[derive(Debug, Clone)]
pub struct DatabaseCard {
    pub name: String,
    pub series_id: i32,
    pub number: String,
    pub collection_number: i32,
    pub in_collection: i32,
    pub rarity_id: i32,
    pub card_type_id: i32,
}

/// What a [`DatabaseCard`] holds.
pub struct DatabaseCardView {
    pub name: Seq<char>,
    pub series_id: i32,
    pub number: Seq<char>,
    pub collection_number: i32,
    pub in_collection: i32,
    pub rarity_id: i32,
    pub card_type_id: i32,
}

impl View for DatabaseCard {
    type V = DatabaseCardView;

    open spec fn view(&self) -> DatabaseCardView {
        DatabaseCardView {
            name: self.name@,
            series_id: self.series_id,
            number: self.number@,
            collection_number: self.collection_number,
            in_collection: self.in_collection,
            rarity_id: self.rarity_id,
            card_type_id: self.card_type_id,
        }
    }
}

impl DeepView for DatabaseCard {
    type V = DatabaseCardView;

    open spec fn deep_view(&self) -> DatabaseCardView {
        self@
    }
}

/// A card with its series, rarity and card type resolved; `in_collection` is
/// the number of owned copies.
#[derive(Debug, Clone)]
pub struct Card {
    pub name: String,
    pub number: String,
    pub collection_number: i32,
    pub in_collection: i32,
    pub series: Series,
    pub rarity: Rarity,
    pub cardtype: CardType,
}

/// What a [`Card`] holds.
pub struct CardView {
    pub name: Seq<char>,
    pub number: Seq<char>,
    pub collection_number: i32,
    pub in_collection: i32,
    pub series: SeriesView,
    pub rarity: RarityView,
    pub cardtype: CardTypeView,
}

impl View for Card {
    type V = CardView;

    open spec fn view(&self) -> CardView {
        CardView {
            name: self.name@,
            number: self.number@,
            collection_number: self.collection_number,
            in_collection: self.in_collection,
            series: self.series@,
            rarity: self.rarity@,
            cardtype: self.cardtype@,
        }
    }
}

impl DeepView for Card {
    type V = CardView;

    open spec fn deep_view(&self) -> CardView {
        self@
    }
}

} // verus!
