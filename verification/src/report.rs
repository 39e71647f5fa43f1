//! Lines of output: a card under a template, the list of series.

use vstd::prelude::*;
use crate::card::{Card, CardView};
use crate::cardtype::label_of;
use crate::series::{Series, SeriesView};
use crate::text::{append_decimal, int_string, int_text, replace_all, substitute};

verus! {

/// A template with its placeholders filled in, one after the other: `{name}`,
/// `{number}`, `{collection_number}`, `{rarity}`, `{series}`, `{card_type}`
/// and `{in_collection}`. Each is replaced wherever it stands at that point,
/// also inside what an earlier one brought in.
pub open spec fn filled_template(
    template: Seq<char>,
    name: Seq<char>,
    number: Seq<char>,
    collection_number: int,
    rarity: Seq<char>,
    series: Seq<char>,
    card_type: Seq<char>,
    in_collection: int,
) -> Seq<char> {
    let with_name = replace_all(template, "{name}"@, name);
    let with_number = replace_all(with_name, "{number}"@, number);
    let with_collection_number = replace_all(
        with_number,
        "{collection_number}"@,
        int_text(collection_number),
    );
    let with_rarity = replace_all(with_collection_number, "{rarity}"@, rarity);
    let with_series = replace_all(with_rarity, "{series}"@, series);
    let with_card_type = replace_all(with_series, "{card_type}"@, card_type);
    replace_all(with_card_type, "{in_collection}"@, int_text(in_collection))
}

/// The line of a card under a template, rarity, series and card type written
/// by name and label.
pub open spec fn card_line(card: CardView, template: Seq<char>) -> Seq<char> {
    filled_template(
        template,
        card.name,
        card.number,
        card.collection_number as int,
        card.rarity.name,
        card.series.name,
        label_of(card.cardtype),
        card.in_collection as int,
    )
}

/// Whether a card is left out of a listing: it is when owned cards are to be
/// hidden and at least one copy of it is owned.
pub open spec fn hidden(card: CardView, hide_collected: bool) -> bool {
    hide_collected && card.in_collection > 0
}

/// The line of a card in a listing, if it is shown.
pub open spec fn shown_line(card: CardView, hide_collected: bool, template: Seq<char>) -> Option<
    Seq<char>,
> {
    if hidden(card, hide_collected) {
        None
    } else {
        Some(card_line(card, template))
    }
}

/// The lines of a listing of cards: one for each card that is shown, in the
/// order of the cards.
pub open spec fn listing(cards: Seq<CardView>, hide_collected: bool, template: Seq<char>) -> Seq<
    Seq<char>,
> {
    cards.filter_map(|card: CardView| shown_line(card, hide_collected, template))
}

/// The line of the series at place `place` of a list, counted from 1: place,
/// name, release date and card count.
pub open spec fn series_line(place: int, series: SeriesView) -> Seq<char> {
    int_text(place) + ". "@ + series.name + " | "@ + series.release_date + " | "@ + int_text(
        series.n_cards as int,
    ) + " cards"@
}

/// The texts of the lines `lines`.
pub open spec fn texts(lines: Seq<String>) -> Seq<Seq<char>> {
    lines.map_values(|line: String| line@)
}

/// Fills a template with the values of a card, as [`filled_template`] says.
pub fn format_card(
    card: &Card,
    rarity: &str,
    series: &str,
    card_type: &str,
    formatter: &str,
) -> (line: String)
    ensures
        line@ == filled_template(
            formatter@,
            card.name@,
            card.number@,
            card.collection_number as int,
            rarity@,
            series@,
            card_type@,
            card.in_collection as int,
        ),
{
    let with_name = substitute(formatter, "{name}", card.name.as_str());
    let with_number = substitute(with_name.as_str(), "{number}", card.number.as_str());
    let with_collection_number = substitute(
        with_number.as_str(),
        "{collection_number}",
        int_string(card.collection_number).as_str(),
    );
    let with_rarity = substitute(with_collection_number.as_str(), "{rarity}", rarity);
    let with_series = substitute(with_rarity.as_str(), "{series}", series);
    let with_card_type = substitute(with_series.as_str(), "{card_type}", card_type);
    substitute(
        with_card_type.as_str(),
        "{in_collection}",
        int_string(card.in_collection).as_str(),
    )
}

/// The line of a card under a template, as [`card_line`] says.
pub fn line_of_card(card: &Card, formatter: &str) -> (line: String)
    ensures
        line@ == card_line(card@, formatter@),
{
    let label = card.cardtype.display();
    format_card(
        card,
        card.rarity.name.as_str(),
        card.series.name.as_str(),
        label.as_str(),
        formatter,
    )
}

/// The lines of a listing of cards, as [`listing`] says: cards of which a
/// copy is owned are left out when `hide_collected` is set.
pub fn card_lines(cards: &Vec<Card>, hide_collected: bool, formatter: &str) -> (lines: Vec<String>)
    ensures
        texts(lines@) == listing(cards.deep_view(), hide_collected, formatter@),
{
    let ghost all = cards.deep_view();
    let ghost f = |card: CardView| shown_line(card, hide_collected, formatter@);
    let mut lines: Vec<String> = Vec::new();
    let mut i: usize = 0;
    while i < cards.len()
        invariant
            i <= cards.len(),
            all == cards.deep_view(),
            f == |card: CardView| shown_line(card, hide_collected, formatter@),
            texts(lines@) == all.take(i as int).filter_map(f),
        decreases cards.len() - i,
    {
        proof {
            all.lemma_filter_map_take_succ(f, i as int);
        }
        let card = &cards[i];
        if !(hide_collected && card.in_collection > 0) {
            let line = line_of_card(card, formatter);
            lines.push(line);
        }
        i += 1;
    }
    assert(all.take(cards.len() as int) =~= all);
    lines
}

/// The lines that a search or a listing of all cards puts out: the listing,
/// or the one line `No results.` where it is empty.
pub fn result_lines(cards: &Vec<Card>, hide_collected: bool, formatter: &str) -> (lines: Vec<
    String,
>)
    ensures
        texts(lines@) == if listing(cards.deep_view(), hide_collected, formatter@).len() == 0 {
            seq!["No results."@]
        } else {
            listing(cards.deep_view(), hide_collected, formatter@)
        },
{
    let mut lines = card_lines(cards, hide_collected, formatter);
    if lines.len() == 0 {
        lines.push(String::from_str("No results."));
    }
    lines
}

/// The lines that a list of series puts out: one for each series, numbered
/// from 1, or the one line `No series in current database` where there is
/// none.
pub fn series_lines(series: &Vec<Series>) -> (lines: Vec<String>)
    ensures
        texts(lines@) == if series.len() == 0 {
            seq!["No series in current database"@]
        } else {
            Seq::new(series.len() as nat, |i: int| series_line(i + 1, series[i]@))
        },
{
    let mut lines: Vec<String> = Vec::new();
    if series.len() == 0 {
        lines.push(String::from_str("No series in current database"));
        return lines;
    }
    let mut i: usize = 0;
    while i < series.len()
        invariant
            i <= series.len(),
            texts(lines@) == Seq::new(i as nat, |k: int| series_line(k + 1, series[k]@)),
        decreases series.len() - i,
    {
        let ghost before = texts(lines@);
        let s = &series[i];
        let mut line = String::new();
        append_decimal(&mut line, (i + 1) as u64);
        line.append(". ");
        line.append(s.name.as_str());
        line.append(" | ");
        line.append(s.release_date.as_str());
        line.append(" | ");
        line.append(int_string(s.n_cards).as_str());
        line.append(" cards");
        lines.push(line);
        assert(texts(lines@) =~= before.push(series_line(i + 1, series[i as int]@)));
        i += 1;
    }
    lines
}

} // verus!
