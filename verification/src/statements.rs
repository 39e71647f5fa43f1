//! The statements of the store: the SQL text of each operation and the values
//! that it binds.
//!
//! The schema has four tables. `rarity(id, name)` with unique names;
//! `card_type(id, maintype, subtype)` with unique pairs; `series(id, name,
//! release_date, prefix, n_cards)` with unique names; and `cards(id, name,
//! series_id, collection_number, number, in_collection, rarity_id,
//! card_type_id)` with unique numbers, each card referring to a series, a
//! rarity and a card type.

use vstd::prelude::*;
use crate::card::DatabaseCard;
use crate::dates::{long_date, release_date_for_store, stored_date};
use crate::series::Series;
use crate::sql::{SqlArg, SqlArgView, Statement, StatementView};
use crate::text::{chars_of, option_string_text, option_text};

verus! {

/// Creates the table of rarities, names unique.
pub const CREATE_RARITY: &'static str =
    "CREATE TABLE IF NOT EXISTS rarity (id INTEGER PRIMARY KEY AUTOINCREMENT, name TEXT NOT NULL UNIQUE)";

/// Creates the table of card types, pairs of main and sub-category unique.
pub const CREATE_CARD_TYPE: &'static str =
    "CREATE TABLE IF NOT EXISTS card_type (id INTEGER PRIMARY KEY AUTOINCREMENT, maintype TEXT NOT NULL, subtype TEXT, UNIQUE (maintype, subtype))";

/// Creates the table of series, names unique.
pub const CREATE_SERIES: &'static str =
    "CREATE TABLE IF NOT EXISTS series (id INTEGER PRIMARY KEY AUTOINCREMENT, name TEXT NOT NULL UNIQUE, release_date DATE NOT NULL, prefix TEXT, n_cards INTEGER NOT NULL DEFAULT 0)";

/// Creates the table of cards, numbers unique, each card referring to a series, a
/// rarity and a card type.
pub const CREATE_CARDS: &'static str =
    "CREATE TABLE IF NOT EXISTS cards (id INTEGER PRIMARY KEY AUTOINCREMENT, name TEXT NOT NULL, series_id INTEGER NOT NULL, collection_number INTEGER NOT NULL, number TEXT NOT NULL UNIQUE, in_collection INTEGER NOT NULL DEFAULT 0, rarity_id INTEGER NOT NULL, card_type_id INTEGER NOT NULL, FOREIGN KEY (rarity_id) REFERENCES rarity(id) FOREIGN KEY (series_id) REFERENCES series(id) FOREIGN KEY (card_type_id) REFERENCES card_type(id))";

/// Inserts a rarity unless one of its name is there.
pub const INSERT_RARITY: &'static str = "INSERT OR IGNORE INTO rarity (name) VALUES (?1)";

/// Inserts a card type unless one of its main and sub-category is there.
pub const INSERT_CARD_TYPE: &'static str =
    "INSERT OR IGNORE INTO card_type (maintype, subtype) VALUES (?1, ?2)";

/// Inserts a series unless one of its name is there.
pub const INSERT_SERIES: &'static str =
    "INSERT OR IGNORE INTO series (name, release_date, n_cards, prefix) VALUES (?1, ?2, ?3, ?4)";

/// Gives the id of the series of a name.
pub const SERIES_ID_BY_NAME: &'static str = "SELECT id FROM series WHERE name = ?1";

/// Inserts a card; fails where one of its number is there.
pub const INSERT_CARD: &'static str =
    "INSERT INTO cards (name, series_id, number, collection_number, in_collection, rarity_id, card_type_id) VALUES (?1, ?2, ?3, ?4, ?5, ?6, ?7)";

/// Adds `?1` to the owned copies of the card `?2` and gives the new count; gives
/// no row where the card is not there.
pub const ADD_COPIES: &'static str =
    "UPDATE cards SET in_collection = in_collection + ?1 WHERE number = ?2 RETURNING in_collection";

/// Takes `?2` from the owned copies of the card `?1`, provided that the count
/// does not fall below zero, and gives the new count; gives no row where the
/// card is not there or the count would fall below zero.
pub const TAKE_COPIES: &'static str =
    "UPDATE cards SET in_collection = in_collection - ?2 WHERE number = ?1 AND in_collection - ?2 >= 0 RETURNING in_collection";

/// Lists the cards whose name is like `?1`, letters compared without regard to
/// case, each with its rarity, card type and series. In the pattern a
/// backslash takes the special meaning from the character that follows it.
pub const CARDS_BY_NAME: &'static str =
    "SELECT c.name, c.series_id, c.number, c.collection_number, c.in_collection, c.rarity_id, r.name, t.maintype, t.subtype, s.name, s.prefix, s.release_date, s.n_cards FROM cards c JOIN rarity r ON c.rarity_id = r.id JOIN card_type t ON c.card_type_id = t.id JOIN series s ON c.series_id = s.id WHERE c.name LIKE ?1 ESCAPE '\\' COLLATE NOCASE";

/// Lists the cards of the series named `?1`, letters compared without regard to
/// case, each with its rarity, card type and series.
pub const CARDS_BY_SERIES: &'static str =
    "SELECT c.name, c.series_id, c.number, c.collection_number, c.in_collection, c.rarity_id, r.name, t.maintype, t.subtype, s.name, s.prefix, s.release_date, s.n_cards FROM cards c JOIN rarity r ON c.rarity_id = r.id JOIN card_type t ON c.card_type_id = t.id JOIN series s ON c.series_id = s.id WHERE s.name = ?1 COLLATE NOCASE";

/// Gives the id of the rarity of a name.
pub const RARITY_ID_BY_NAME: &'static str = "SELECT id FROM rarity WHERE name = ?1";

/// Gives the series of an id.
pub const SERIES_BY_ID: &'static str =
    "SELECT id, name, release_date, n_cards, prefix FROM series WHERE id = ?1";

/// Gives the id of the card type of a main and a sub-category.
pub const CARD_TYPE_ID: &'static str =
    "SELECT id FROM card_type WHERE maintype = ?1 AND subtype = ?2";

/// Lists all series by release date, earliest first.
pub const ALL_SERIES: &'static str =
    "SELECT DISTINCT id, name, release_date, n_cards, prefix FROM series ORDER BY release_date";

/// A text as a parameter value.
fn text_arg(t: &str) -> (a: SqlArg)
    ensures
        a@ == SqlArgView::Text(t@),
{
    SqlArg::Text(String::from_str(t))
}

/// A statement without parameters.
pub fn plain(sql: &'static str) -> (st: Statement)
    ensures
        st@ == (StatementView { sql: sql@, args: Seq::empty() }),
{
    let st = Statement { sql, args: Vec::new() };
    assert(st.args.deep_view() =~= Seq::empty());
    st
}

/// A statement with one text parameter.
pub fn with_text(sql: &'static str, t: &str) -> (st: Statement)
    ensures
        st@ == (StatementView { sql: sql@, args: seq![SqlArgView::Text(t@)] }),
{
    let mut args: Vec<SqlArg> = Vec::new();
    args.push(text_arg(t));
    let st = Statement { sql, args };
    assert(st.args.deep_view() =~= seq![SqlArgView::Text(t@)]);
    st
}

/// A statement with two text parameters.
pub fn with_two_texts(sql: &'static str, first: &str, second: &str) -> (st: Statement)
    ensures
        st@ == (StatementView {
            sql: sql@,
            args: seq![SqlArgView::Text(first@), SqlArgView::Text(second@)],
        }),
{
    let mut args: Vec<SqlArg> = Vec::new();
    args.push(text_arg(first));
    args.push(text_arg(second));
    let st = Statement { sql, args };
    assert(st.args.deep_view() =~= seq![SqlArgView::Text(first@), SqlArgView::Text(second@)]);
    st
}

/// The statements that create the tables of the store, each unless it is
/// there already: rarities, card types, series and cards, in this order.
pub open spec fn schema_plan() -> Seq<StatementView> {
    seq![
        StatementView { sql: CREATE_RARITY@, args: Seq::empty() },
        StatementView { sql: CREATE_CARD_TYPE@, args: Seq::empty() },
        StatementView { sql: CREATE_SERIES@, args: Seq::empty() },
        StatementView { sql: CREATE_CARDS@, args: Seq::empty() },
    ]
}

/// The statements that create the tables of the store, as [`schema_plan`]
/// lists them.
pub fn schema_statements() -> (plan: Vec<Statement>)
    ensures
        plan.deep_view() == schema_plan(),
{
    let mut plan: Vec<Statement> = Vec::new();
    plan.push(plain(CREATE_RARITY));
    plan.push(plain(CREATE_CARD_TYPE));
    plan.push(plain(CREATE_SERIES));
    plan.push(plain(CREATE_CARDS));
    plan
}

/// The value bound for a text that may be absent: the text, or `NULL`.
pub open spec fn optional_text_arg(t: Option<Seq<char>>) -> SqlArgView {
    match t {
        Some(s) => SqlArgView::Text(s),
        None => SqlArgView::Null,
    }
}

/// The statement that inserts a series unless one of its name is there:
/// name, release date as stored, card count and prefix.
pub fn insert_series_statement(series: &Series, date: &str) -> (st: Statement)
    ensures
        st@ == (StatementView {
            sql: INSERT_SERIES@,
            args: seq![
                SqlArgView::Text(series.name@),
                SqlArgView::Text(date@),
                SqlArgView::Int(series.n_cards),
                optional_text_arg(option_string_text(series.prefix)),
            ],
        }),
{
    let mut args: Vec<SqlArg> = Vec::new();
    args.push(text_arg(series.name.as_str()));
    args.push(text_arg(date));
    args.push(SqlArg::Int(series.n_cards));
    match &series.prefix {
        Some(prefix) => {
            args.push(text_arg(prefix.as_str()));
        },
        None => {
            args.push(SqlArg::Null);
        },
    }
    let st = Statement { sql: INSERT_SERIES, args };
    assert(st.args.deep_view() =~= seq![
        SqlArgView::Text(series.name@),
        SqlArgView::Text(date@),
        SqlArgView::Int(series.n_cards),
        optional_text_arg(option_string_text(series.prefix)),
    ]);
    st
}

/// The statement that inserts the series `series` unless one of its name is
/// there: the release date that it binds is the date that the series states
/// in long form, in ISO form, or `1970-01-01` where it states none.
pub fn series_insertion(series: &Series) -> (st: Statement)
    ensures
        st@ == (StatementView {
            sql: INSERT_SERIES@,
            args: seq![
                SqlArgView::Text(series.name@),
                SqlArgView::Text(stored_date(long_date(series.release_date@))),
                SqlArgView::Int(series.n_cards),
                optional_text_arg(option_string_text(series.prefix)),
            ],
        }),
{
    let date = release_date_for_store(series.release_date.as_str());
    insert_series_statement(series, date.as_str())
}

/// The statement that inserts a card: name, series id, number, collection
/// number, owned copies, rarity id and card type id.
pub fn insert_card_statement(card: &DatabaseCard) -> (st: Statement)
    ensures
        st@ == (StatementView {
            sql: INSERT_CARD@,
            args: seq![
                SqlArgView::Text(card.name@),
                SqlArgView::Int(card.series_id),
                SqlArgView::Text(card.number@),
                SqlArgView::Int(card.collection_number),
                SqlArgView::Int(card.in_collection),
                SqlArgView::Int(card.rarity_id),
                SqlArgView::Int(card.card_type_id),
            ],
        }),
{
    let mut args: Vec<SqlArg> = Vec::new();
    args.push(text_arg(card.name.as_str()));
    args.push(SqlArg::Int(card.series_id));
    args.push(text_arg(card.number.as_str()));
    args.push(SqlArg::Int(card.collection_number));
    args.push(SqlArg::Int(card.in_collection));
    args.push(SqlArg::Int(card.rarity_id));
    args.push(SqlArg::Int(card.card_type_id));
    let st = Statement { sql: INSERT_CARD, args };
    assert(st.args.deep_view() =~= seq![
        SqlArgView::Text(card.name@),
        SqlArgView::Int(card.series_id),
        SqlArgView::Text(card.number@),
        SqlArgView::Int(card.collection_number),
        SqlArgView::Int(card.in_collection),
        SqlArgView::Int(card.rarity_id),
        SqlArgView::Int(card.card_type_id),
    ]);
    st
}

/// The statement that adds `delta` to the owned copies of the card `number`
/// and gives the new count.
pub fn add_copies_statement(number: &str, delta: i32) -> (st: Statement)
    ensures
        st@ == (StatementView {
            sql: ADD_COPIES@,
            args: seq![SqlArgView::Int(delta), SqlArgView::Text(number@)],
        }),
{
    let mut args: Vec<SqlArg> = Vec::new();
    args.push(SqlArg::Int(delta));
    args.push(text_arg(number));
    let st = Statement { sql: ADD_COPIES, args };
    assert(st.args.deep_view() =~= seq![SqlArgView::Int(delta), SqlArgView::Text(number@)]);
    st
}

/// The statement that takes `count` from the owned copies of the card
/// `number`, provided that as many are owned, and gives the new count.
pub fn take_copies_statement(number: &str, count: i32) -> (st: Statement)
    ensures
        st@ == (StatementView {
            sql: TAKE_COPIES@,
            args: seq![SqlArgView::Text(number@), SqlArgView::Int(count)],
        }),
{
    let mut args: Vec<SqlArg> = Vec::new();
    args.push(text_arg(number));
    args.push(SqlArg::Int(count));
    let st = Statement { sql: TAKE_COPIES, args };
    assert(st.args.deep_view() =~= seq![SqlArgView::Text(number@), SqlArgView::Int(count)]);
    st
}

/// The statement that looks a series up by its id.
pub fn series_by_id_statement(id: i32) -> (st: Statement)
    ensures
        st@ == (StatementView { sql: SERIES_BY_ID@, args: seq![SqlArgView::Int(id)] }),
{
    let mut args: Vec<SqlArg> = Vec::new();
    args.push(SqlArg::Int(id));
    let st = Statement { sql: SERIES_BY_ID, args };
    assert(st.args.deep_view() =~= seq![SqlArgView::Int(id)]);
    st
}

/// Whether a character has a special meaning in a `LIKE` pattern: `%` stands
/// for any text, `_` for any one character, and the backslash takes the
/// special meaning from the character that follows it.
pub open spec fn special_in_like(c: char) -> bool {
    c == '%' || c == '_' || c == '\\'
}

/// A text as a `LIKE` pattern that matches that text and no other: every
/// character that has a special meaning stands behind a backslash, and every
/// other character stands as it is.
pub open spec fn like_escaped(q: Seq<char>) -> Seq<char>
    decreases q.len(),
{
    if q.len() == 0 {
        Seq::empty()
    } else if special_in_like(q.last()) {
        like_escaped(q.drop_last()) + seq!['\\', q.last()]
    } else {
        like_escaped(q.drop_last()).push(q.last())
    }
}

/// The `LIKE` pattern of a search by name: the words of the search, taken
/// literally as [`like_escaped`] writes them, between two `%`, so that they
/// may stand anywhere in the name; a lone `%`, which every name matches,
/// where nothing is searched for.
pub open spec fn name_pattern(query: Option<Seq<char>>) -> Seq<char> {
    match query {
        Some(q) => seq!['%'] + like_escaped(q) + seq!['%'],
        None => seq!['%'],
    }
}

/// Tests a character for a special meaning in a `LIKE` pattern.
fn is_special_in_like(c: char) -> (b: bool)
    ensures
        b == special_in_like(c),
{
    c == '%' || c == '_' || c == '\\'
}

/// `like_escaped` after one more character.
proof fn lemma_like_escaped_step(q: Seq<char>, i: int)
    requires
        0 <= i < q.len(),
    ensures
        like_escaped(q.take(i + 1)) == if special_in_like(q[i]) {
            like_escaped(q.take(i)) + seq!['\\', q[i]]
        } else {
            like_escaped(q.take(i)).push(q[i])
        },
{
    assert(q.take(i + 1).drop_last() =~= q.take(i));
}

/// Appends `text` as [`like_escaped`] writes it.
fn append_like_escaped(pattern: &mut String, text: &str)
    ensures
        final(pattern)@ == old(pattern)@ + like_escaped(text@),
{
    let chars = chars_of(text);
    let ghost lead = pattern@;
    let mut run: usize = 0;
    let mut i: usize = 0;
    while i < chars.len()
        invariant
            run <= i <= chars.len(),
            chars@ == text@,
            pattern@ + chars@.subrange(run as int, i as int) == lead + like_escaped(
                text@.take(i as int),
            ),
        decreases chars.len() - i,
    {
        proof {
            lemma_like_escaped_step(text@, i as int);
        }
        let ghost before = pattern@;
        if is_special_in_like(chars[i]) {
            pattern.append(text.substring_char(run, i));
            pattern.append("\\");
            proof {
                reveal_strlit("\\");
            }
            run = i;
        } else {
            assert(pattern@ + chars@.subrange(run as int, i + 1) =~= (before + chars@.subrange(
                run as int,
                i as int,
            )).push(chars@[i as int]));
        }
        i += 1;
    }
    pattern.append(text.substring_char(run, i));
    assert(text@.take(i as int) =~= text@);
}

/// The `LIKE` pattern of a search by name, as [`name_pattern`] says.
pub fn like_pattern(query: Option<&str>) -> (pattern: String)
    ensures
        pattern@ == name_pattern(option_text(query)),
{
    proof {
        reveal_strlit("%");
    }
    let mut pattern = String::from_str("%");
    match query {
        Some(q) => {
            append_like_escaped(&mut pattern, q);
            pattern.append("%");
        },
        None => {},
    }
    pattern
}

/// A text without a character of special meaning is its own pattern.
pub proof fn lemma_like_escaped_plain(q: Seq<char>)
    requires
        forall|i: int| 0 <= i < q.len() ==> !special_in_like(q[i]),
    ensures
        like_escaped(q) == q,
    decreases q.len(),
{
    if q.len() > 0 {
        lemma_like_escaped_plain(q.drop_last());
    }
}

/// The statement that lists the cards whose name matches a search.
pub fn cards_by_name_statement(query: Option<&str>) -> (st: Statement)
    ensures
        st@ == (StatementView {
            sql: CARDS_BY_NAME@,
            args: seq![SqlArgView::Text(name_pattern(option_text(query)))],
        }),
{
    let pattern = like_pattern(query);
    with_text(CARDS_BY_NAME, pattern.as_str())
}

} // verus!
