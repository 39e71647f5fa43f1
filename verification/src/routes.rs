//! What the HTTP interface decides: which change a request asks for, what is
//! sent back for each answer of the store, and how a card is written out.

use vstd::prelude::*;
use crate::answers::refusal_text;
use crate::card::{Card, CardView, DatabaseCard, DatabaseCardView};
use crate::card_number::card_numbers;
use crate::cardtype::{label_of, CardType, CardTypeView};
use crate::db::DatabaseConnection;
use crate::dberror::{message_detail, message_lead, DbError, DbErrorView};
use crate::rarity::{Rarity, RarityView};
use crate::series::{Series, SeriesView};
use crate::text::starts_with;

verus! {

/// The status of a request that was served.
pub const STATUS_OK: u16 = 200;

/// The status of a request that asks for what cannot be done.
pub const STATUS_BAD_REQUEST: u16 = 400;

/// The status of a request on which the store failed.
pub const STATUS_SERVER_ERROR: u16 = 500;

/// The number that, sent as the count of an update, asks for a sale.
pub const SELL_MARK: i32 = -1;

/// A user of the interface.
#[derive(Debug, Clone)]
pub struct User {
    pub id: i64,
    pub username: String,
}

/// A card as a request sends it.
#[derive(Debug, Clone)]
pub struct NewCard {
    pub name: String,
    pub series_id: i32,
    pub number: String,
    pub collection_number: i32,
    pub in_collection: i32,
    pub rarity_id: i32,
    pub card_type_id: i32,
}

/// A request to change the owned copies of the card `id`.
#[derive(Debug, Clone)]
pub struct UpdateCardRequest {
    pub id: String,
    pub number: Option<i32>,
}

/// A card as it is sent out: the card, and the label of its card type.
#[derive(Debug, Clone)]
pub struct CardWithMeta {
    pub number: String,
    pub name: String,
    pub series: Series,
    pub in_collection: i32,
    pub cardtype: CardType,
    pub cardtype_display: String,
    pub rarity: Rarity,
}

/// What a [`CardWithMeta`] holds.
pub struct CardWithMetaView {
    pub number: Seq<char>,
    pub name: Seq<char>,
    pub series: SeriesView,
    pub in_collection: i32,
    pub cardtype: CardTypeView,
    pub cardtype_display: Seq<char>,
    pub rarity: RarityView,
}

impl View for CardWithMeta {
    type V = CardWithMetaView;

    open spec fn view(&self) -> CardWithMetaView {
        CardWithMetaView {
            number: self.number@,
            name: self.name@,
            series: self.series@,
            in_collection: self.in_collection,
            cardtype: self.cardtype@,
            cardtype_display: self.cardtype_display@,
            rarity: self.rarity@,
        }
    }
}

impl DeepView for CardWithMeta {
    type V = CardWithMetaView;

    open spec fn deep_view(&self) -> CardWithMetaView {
        self@
    }
}

/// The change that an update asks for.
#[derive(Debug, Clone, Copy, PartialEq, Eq, Structural)]
pub enum CountChange {
    /// Sell one copy.
    Sell,
    /// Collect this many copies, or one where none is given.
    Collect(Option<i32>),
}

/// The change that the count of an update asks for: a sale of one copy for
/// [`SELL_MARK`], a collect of the count for anything else.
pub open spec fn change_of(number: Option<i32>) -> CountChange {
    if number == Some(SELL_MARK) {
        CountChange::Sell
    } else {
        CountChange::Collect(number)
    }
}

/// The status that goes with an answer of the store: served; a bad request
/// for an operation that is not valid, such as a sale below zero; a server
/// error for every other fault.
pub open spec fn status_of(answer: Result<i32, DbErrorView>) -> u16 {
    match answer {
        Ok(_) => STATUS_OK,
        Err(DbErrorView::InvalidOperation(_)) => STATUS_BAD_REQUEST,
        Err(_) => STATUS_SERVER_ERROR,
    }
}

/// The words that a search needs: the name that was sent, unless none was or
/// it is empty.
pub open spec fn wanted_name(name: Option<Seq<char>>) -> Option<Seq<char>> {
    match name {
        Some(q) => if q.len() > 0 {
            Some(q)
        } else {
            None
        },
        None => None,
    }
}

/// A card as it is sent out.
pub open spec fn with_meta(card: CardView) -> CardWithMetaView {
    CardWithMetaView {
        number: card.number,
        name: card.name,
        series: card.series,
        in_collection: card.in_collection,
        cardtype: card.cardtype,
        cardtype_display: label_of(card.cardtype),
        rarity: card.rarity,
    }
}

impl NewCard {
    /// The card of the store that this request stands for.
    pub fn to_card(self) -> (card: DatabaseCard)
        ensures
            card@ == (DatabaseCardView {
                name: self.name@,
                series_id: self.series_id,
                number: self.number@,
                collection_number: self.collection_number,
                in_collection: self.in_collection,
                rarity_id: self.rarity_id,
                card_type_id: self.card_type_id,
            }),
    {
        DatabaseCard {
            name: self.name,
            series_id: self.series_id,
            number: self.number,
            collection_number: self.collection_number,
            in_collection: self.in_collection,
            rarity_id: self.rarity_id,
            card_type_id: self.card_type_id,
        }
    }
}

/// The change that the count of an update asks for, as [`change_of`] says.
pub fn requested_change(number: Option<i32>) -> (change: CountChange)
    ensures
        change == change_of(number),
{
    match number {
        Some(n) => if n == SELL_MARK {
            CountChange::Sell
        } else {
            CountChange::Collect(number)
        },
        None => CountChange::Collect(number),
    }
}

/// Carries out an update on the store: a sale of one copy, answered with
/// [`SELL_MARK`] when it went well, or a collect, answered with the new
/// count. The card or the range of cards is the one that the id of the
/// request names; where it names no card, nothing is asked of the store and
/// the change goes well.
///
/// A sale can be refused as an invalid operation, which names the card that
/// could not be sold; every other error of either change is a fault of the
/// storage.
pub fn update_card_count(db: &DatabaseConnection, request: &UpdateCardRequest) -> (r: Result<
    i32,
    DbError,
>)
    ensures
        change_of(request.number) == CountChange::Sell ==> (r matches Ok(n) ==> n == SELL_MARK),
        change_of(request.number) == CountChange::Sell && card_numbers(request.id@).len() == 0
            ==> crate::dberror::answer(r) == Ok::<i32, DbErrorView>(SELL_MARK),
        change_of(request.number) != CountChange::Sell ==> (r matches Err(e) ==> e@ is SqliteError),
        change_of(request.number) != CountChange::Sell && card_numbers(request.id@).len() == 0
            ==> crate::dberror::answer(r) == Ok::<i32, DbErrorView>(0),
        r matches Err(e) ==> e@ is SqliteError || exists|i: int|
            0 <= i < card_numbers(request.id@).len() && e@ == DbErrorView::InvalidOperation(
                refusal_text(#[trigger] card_numbers(request.id@)[i]),
            ),
{
    match requested_change(request.number) {
        CountChange::Sell => match db.sell_card(request.id.as_str(), 1) {
            Ok(_) => Ok(SELL_MARK),
            Err(e) => Err(e),
        },
        CountChange::Collect(count) => db.collect_card(request.id.as_str(), count),
    }
}

/// The status that goes with an answer of the store, as [`status_of`] says.
pub fn reply_status(result: &Result<i32, DbError>) -> (status: u16)
    ensures
        status == status_of(crate::dberror::answer(*result)),
{
    match result {
        Ok(_) => STATUS_OK,
        Err(DbError::InvalidOperation(_)) => STATUS_BAD_REQUEST,
        Err(_) => STATUS_SERVER_ERROR,
    }
}

/// What is sent back for an error of the store: `Database error: `, then the
/// message of the error.
pub fn error_body(e: &DbError) -> (body: String)
    ensures
        starts_with(body@, "Database error: "@ + message_lead(e@)),
        message_detail(e@) matches Some(detail) ==> body@ == "Database error: "@ + message_lead(
            e@,
        ) + detail,
{
    let mut body = String::from_str("Database error: ");
    let said = e.message();
    body.append(said.as_str());
    proof {
        let lead = "Database error: "@ + message_lead(e@);
        assert(body@.take(lead.len() as int) =~= lead);
    }
    body
}

/// The words that a search needs, as [`wanted_name`] says; `None` where the
/// request is to be refused.
pub fn search_term<'a>(name: Option<&'a str>) -> (term: Option<&'a str>)
    ensures
        crate::text::option_text(term) == wanted_name(crate::text::option_text(name)),
{
    match name {
        Some(q) => if q.unicode_len() > 0 {
            Some(q)
        } else {
            None
        },
        None => None,
    }
}

/// The status of a search: a bad request where the name is missing or empty,
/// in which case the store is not asked; served otherwise.
pub fn search_status(name: Option<&str>) -> (status: u16)
    ensures
        status == if wanted_name(crate::text::option_text(name)) is None {
            STATUS_BAD_REQUEST
        } else {
            STATUS_OK
        },
{
    match search_term(name) {
        Some(_) => STATUS_OK,
        None => STATUS_BAD_REQUEST,
    }
}

/// A card as it is sent out, as [`with_meta`] says.
pub fn card_with_meta(card: Card) -> (out: CardWithMeta)
    ensures
        out@ == with_meta(card@),
{
    let label = card.cardtype.display();
    CardWithMeta {
        number: card.number,
        name: card.name,
        series: card.series,
        in_collection: card.in_collection,
        cardtype: card.cardtype,
        cardtype_display: label,
        rarity: card.rarity,
    }
}

/// The cards of a list as they are sent out, in the order of the list.
pub fn cards_with_meta(cards: &Vec<Card>) -> (out: Vec<CardWithMeta>)
    ensures
        out.deep_view() == cards.deep_view().map_values(|card: CardView| with_meta(card)),
{
    let mut out: Vec<CardWithMeta> = Vec::new();
    let mut i: usize = 0;
    while i < cards.len()
        invariant
            i <= cards.len(),
            out.len() == i,
            forall|k: int| 0 <= k < i ==> (#[trigger] out[k])@ == with_meta(cards[k]@),
        decreases cards.len() - i,
    {
        let card = &cards[i];
        let label = card.cardtype.display();
        let sent = CardWithMeta {
            number: card.number.clone(),
            name: card.name.clone(),
            series: Series {
                id: card.series.id,
                name: card.series.name.clone(),
                release_date: card.series.release_date.clone(),
                n_cards: card.series.n_cards,
                prefix: match &card.series.prefix {
                    Some(p) => Some(p.clone()),
                    None => None,
                },
            },
            in_collection: card.in_collection,
            cardtype: CardType { main: card.cardtype.main.clone(), sub: card.cardtype.sub.clone() },
            cardtype_display: label,
            rarity: Rarity { id: card.rarity.id, name: card.rarity.name.clone() },
        };
        out.push(sent);
        i += 1;
    }
    out
}

} // verus!
