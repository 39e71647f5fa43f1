//! The store: a SQLite database of rarities, card types, series and cards.
//!
//! Every operation hands one of the statements of [`crate::statements`] to
//! SQLite and answers as [`crate::answers`] says for what comes back. What
//! SQLite finds in the database is not known to verification, so the
//! contracts here say what holds of every answer: which errors an operation
//! can give and with what detail, and how a result over several cards is put
//! together from the results for each.

use vstd::prelude::*;
use crate::answers::{
    card_insert_answer, card_insert_result, cards_or_unknown, collect_answer, count_inserted,
    duplicate_warning, duplicate_warning_text, id_or_missing, id_refusal_text,
    numbers_passed_over, refusal_text, sale_result, sell_answer, series_or_missing, tally,
};
use crate::card::{Card, DatabaseCard};
pub use crate::card_number::{get_series_and_number, parse_card_range};
use crate::card_number::{card_numbers, card_range, range_card_number};
use crate::cardtype::{card_type_of_label, CardType};
use crate::dberror::{answer, DbError, DbErrorView};
use crate::jsoncards::{CardJson, SeriesJson};
use crate::report::texts;
use crate::rows::{cards_of_rows, readable_cards, readable_series, series_of_rows};
use crate::seed::seed_statements;
use crate::series::Series;
use crate::sql::{
    classify, open_connection, CardColumns, Fault, FaultKind, SeriesColumns, Statement,
};
use crate::statements::{
    add_copies_statement, cards_by_name_statement, insert_card_statement, plain,
    schema_statements, series_by_id_statement, series_insertion, take_copies_statement,
    with_text, with_two_texts, ALL_SERIES, CARDS_BY_SERIES, CARD_TYPE_ID, INSERT_CARD_TYPE,
    INSERT_RARITY, RARITY_ID_BY_NAME, SERIES_ID_BY_NAME,
};
use crate::text::{int_text, option_text};

verus! {

/// A store of cards in one SQLite database.
pub struct DatabaseConnection {
    conn: rusqlite::Connection,
}

/// The detail of the error for a card type that is not there: its main
/// category, a comma, its sub-category.
pub open spec fn card_type_detail(label: Seq<char>) -> Seq<char> {
    card_type_of_label(label).main + seq![','] + card_type_of_label(label).sub
}

/// By how many copies a collect raises a card: by `count`, or by one where
/// none is given.
pub open spec fn collect_delta(count: Option<i32>) -> i32 {
    match count {
        Some(c) => c,
        None => 1,
    }
}

/// What a load did: how many cards it inserted, and the numbers of the cards
/// that it passed over because their number was taken, in the order of the
/// list.
#[derive(Debug, Clone)]
pub struct LoadReport {
    pub inserted: usize,
    pub passed_over: Vec<String>,
}

/// The card numbers of the records of a card list, in their order.
pub open spec fn record_numbers(cards: Seq<CardJson>) -> Seq<Seq<char>> {
    cards.map_values(|record: CardJson| record.card_number@)
}

/// The errors with which a load of the records `cards` can end: a fault of
/// the storage; an unknown series, named by an id; the rarity or the card
/// type of one of the records, where it is not there; or an invalid
/// operation for a card that was inserted under a row id that is no id of
/// the store.
pub open spec fn load_error(e: DbErrorView, cards: Seq<CardJson>) -> bool {
    ||| e is SqliteError
    ||| exists|id: i32| e == DbErrorView::UnknownSeries(#[trigger] int_text(id as int))
    ||| exists|rowid: int|
        !(0 < rowid <= i32::MAX) && e == DbErrorView::InvalidOperation(
            #[trigger] id_refusal_text(rowid),
        )
    ||| exists|i: int|
        0 <= i < cards.len() && (e == DbErrorView::UnknownRarity((#[trigger] cards[i]).rarity@)
            || e == DbErrorView::UnknownCardType(card_type_detail(cards[i].category@)))
}

/// By how many copies a collect raises a card, as [`collect_delta`] says.
pub fn delta_of(count: Option<i32>) -> (delta: i32)
    ensures
        delta == collect_delta(count),
{
    match count {
        Some(c) => c,
        None => 1,
    }
}

impl DatabaseConnection {
    /// Opens the database file at `db_path`, creating it where there is none.
    /// Its tables are not created: see [`DatabaseConnection::create_tables`].
    pub fn new(db_path: &str) -> (r: Result<DatabaseConnection, rusqlite::Error>) {
        match open_connection(db_path) {
            Ok(conn) => Ok(DatabaseConnection { conn }),
            Err(e) => Err(e),
        }
    }

    /// Runs the statements of a plan in order, and stops at the first that
    /// fails.
    fn run_all(&self, plan: &Vec<Statement>) -> (r: Result<(), rusqlite::Error>) {
        let mut i: usize = 0;
        while i < plan.len()
            invariant
                i <= plan.len(),
            decreases plan.len() - i,
        {
            match plan[i].run(&self.conn) {
                Ok(_) => {},
                Err(e) => {
                    return Err(e);
                },
            }
            i += 1;
        }
        Ok(())
    }

    /// Creates the four tables of the store, each unless it is there already:
    /// rarities, card types, series and cards, in this order. What is run is
    /// [`schema_statements`], one after the other up to the first that fails.
    pub fn create_tables(&self) -> (r: Result<(), rusqlite::Error>) {
        self.run_all(&schema_statements())
    }

    /// Inserts the rarity `name` unless it is there already.
    pub fn insert_rarity(&self, name: &str) -> (r: Result<(), rusqlite::Error>) {
        match with_text(INSERT_RARITY, name).run(&self.conn) {
            Ok(_) => Ok(()),
            Err(e) => Err(e),
        }
    }

    /// Inserts the card type of this main and sub-category unless it is there
    /// already.
    pub fn insert_card_type(&self, main_type: &str, sub_type: &str) -> (r: Result<
        (),
        rusqlite::Error,
    >) {
        match with_two_texts(INSERT_CARD_TYPE, main_type, sub_type).run(&self.conn) {
            Ok(_) => Ok(()),
            Err(e) => Err(e),
        }
    }

    /// Inserts a series unless one of its name is there already, and gives the
    /// id under which the store holds a series of that name.
    ///
    /// What is run is [`series_insertion`], which binds the release date as
    /// [`crate::dates::stored_date`] says: a date that cannot be read is
    /// stored as `1970-01-01` and fails nothing.
    pub fn insert_series(&self, series: &Series) -> (r: Result<i32, rusqlite::Error>) {
        match series_insertion(series).run(&self.conn) {
            Ok(_) => {},
            Err(e) => {
                return Err(e);
            },
        }
        with_text(SERIES_ID_BY_NAME, series.name.as_str()).first_int(&self.conn)
    }

    /// Inserts a card and gives the id of its row, which is positive; gives 0,
    /// and inserts nothing, where a card of its number is there already. With
    /// the id comes the warning for a card that was passed over, which names
    /// the card and its series.
    ///
    /// The series of the card is looked up first: a card of an unknown series
    /// is refused with [`DbError::UnknownSeries`], the id as its detail. What
    /// the insertion itself gives is answered as [`card_insert_answer`] says:
    /// the answer is that of no other function of what SQLite gave.
    pub fn insert_card_with_warning(&self, card: &DatabaseCard) -> (r: Result<
        (i32, Option<String>),
        DbError,
    >)
        ensures
            r matches Ok(done) ==> done.0 >= 0 && (done.0 == 0 <==> done.1 is Some),
            r matches Ok(done) ==> (done.1 matches Some(warning) ==> exists|series: Seq<char>|
                warning@ == #[trigger] duplicate_warning_text(card.number@, series)),
            r matches Ok(done) ==> exists|step: Result<i64, Fault>| #[trigger]
                card_insert_answer(step) == Ok::<i32, DbErrorView>(done.0),
            r matches Err(e) ==> e@ == DbErrorView::UnknownSeries(int_text(card.series_id as int))
                || exists|step: Result<i64, Fault>| #[trigger]
                    card_insert_answer(step) == Err::<i32, DbErrorView>(e@),
    {
        let series = match self.get_series_by_id(card.series_id) {
            Ok(series) => series,
            Err(e) => {
                proof {
                    if e@ is SqliteError {
                        let cause = e@->SqliteError_0;
                        let step = Err::<i64, Fault>(Fault { kind: FaultKind::Other, cause });
                        assert(card_insert_answer(step) == Err::<i32, DbErrorView>(e@));
                    }
                }
                return Err(e);
            },
        };
        let step: Result<i64, Fault> = match classify(
            insert_card_statement(card).run(&self.conn),
        ) {
            Ok(_) => Ok(self.conn.last_insert_rowid()),
            Err(fault) => Err(fault),
        };
        match card_insert_result(step) {
            Ok(id) => if id == 0 {
                let warning = duplicate_warning(card.number.as_str(), series.name.as_str());
                Ok((id, Some(warning)))
            } else {
                Ok((id, None))
            },
            Err(e) => Err(e),
        }
    }

    /// Inserts a card and gives the id of its row, which is positive; gives 0,
    /// and inserts nothing, where a card of its number is there already.
    ///
    /// The series of the card is looked up first: a card of an unknown series
    /// is refused with [`DbError::UnknownSeries`], the id as its detail. What
    /// the insertion itself gives is answered as [`card_insert_answer`] says:
    /// a row id from 1 to the largest `i32` with itself, a refusal for a taken
    /// number with 0, any other row id with an invalid operation, and any
    /// other fault as it stands.
    pub fn insert_card(&self, card: &DatabaseCard) -> (r: Result<i32, DbError>)
        ensures
            r matches Ok(id) ==> id >= 0,
            r matches Err(e) ==> e@ is SqliteError || e@ == DbErrorView::UnknownSeries(
                int_text(card.series_id as int),
            ) || exists|rowid: int|
                !(0 < rowid <= i32::MAX) && e@ == DbErrorView::InvalidOperation(
                    #[trigger] id_refusal_text(rowid),
                ),
            answer(r) == Err::<i32, DbErrorView>(
                DbErrorView::UnknownSeries(int_text(card.series_id as int)),
            ) || exists|step: Result<i64, Fault>| answer(r) == #[trigger] card_insert_answer(step),
    {
        match self.insert_card_with_warning(card) {
            Ok(done) => Ok(done.0),
            Err(e) => Err(e),
        }
    }

    /// Adds copies to a card, or to every card of a range, and gives the new
    /// count, or the sum of the new counts over the range.
    ///
    /// Each card is raised by [`collect_delta`] of `count`. The cards are those
    /// of [`card_numbers`], worked on in order; the first one that fails, a
    /// card that is not there among them, ends the call with its fault, and
    /// the cards before it stay raised. The answer is
    /// [`collect_answer`] of what the cards gave: one result for each card
    /// when all went well, and fewer only when the last of them failed.
    pub fn collect_card(&self, card_id: &str, count: Option<i32>) -> (r: Result<i32, DbError>)
        ensures
            card_numbers(card_id@).len() == 0 ==> answer(r) == Ok::<i32, DbErrorView>(0),
            r matches Err(e) ==> e@ is SqliteError,
            exists|steps: Seq<Result<i32, rusqlite::Error>>|
                {
                    &&& answer(r) == #[trigger] collect_answer(steps)
                    &&& steps.len() <= card_numbers(card_id@).len()
                    &&& steps.len() < card_numbers(card_id@).len() ==> r is Err
                },
    {
        let delta: i32 = delta_of(count);
        match parse_card_range(card_id) {
            Some((prefix, sub_prefix, start, end)) => {
                let ghost mut steps: Seq<Result<i32, rusqlite::Error>> = Seq::empty();
                let mut total: i32 = 0;
                let mut num: i64 = start as i64;
                while num <= end as i64
                    invariant
                        start <= num,
                        start <= end ==> num <= end + 1,
                        start > end ==> num == start,
                        card_numbers(card_id@).len() == if start <= end {
                            end - start + 1
                        } else {
                            0
                        },
                        steps.len() == num - start,
                        collect_answer(steps) == Ok::<i32, DbErrorView>(total),
                    decreases end + 1 - num,
                {
                    let number = range_card_number(prefix, sub_prefix, num as i32);
                    let step = add_copies_statement(number.as_str(), delta).first_int(&self.conn);
                    proof {
                        assert(steps.push(step).drop_last() =~= steps);
                        steps = steps.push(step);
                    }
                    match tally(total, step) {
                        Ok(sum) => {
                            total = sum;
                        },
                        Err(e) => {
                            return Err(e);
                        },
                    }
                    num += 1;
                }
                Ok(total)
            },
            None => {
                let step = add_copies_statement(card_id, delta).first_int(&self.conn);
                let ghost steps = seq![step];
                assert(collect_answer(steps.drop_last()) == Ok::<i32, DbErrorView>(0));
                let r = tally(0, step);
                assert(answer(r) == collect_answer(steps));
                r
            },
        }
    }

    /// Takes `count` copies from a card, or from every card of a range, and
    /// gives the new count, or the sum of the new counts over the range.
    ///
    /// A card gives up copies only if it owns as many: its count never falls
    /// below zero. The cards are those of [`card_numbers`], worked on in
    /// order; the first one that cannot be sold ends the call with
    /// [`DbError::InvalidOperation`], and the cards before it stay sold. The
    /// answer is [`sell_answer`] of what the cards gave: one result for each
    /// card when all went well, and fewer only when the last of them failed.
    pub fn sell_card(&self, card_id: &str, count: i32) -> (r: Result<i32, DbError>)
        ensures
            card_numbers(card_id@).len() == 0 ==> answer(r) == Ok::<i32, DbErrorView>(0),
            r matches Err(e) ==> e@ is SqliteError || exists|i: int|
                0 <= i < card_numbers(card_id@).len() && e@ == DbErrorView::InvalidOperation(
                    refusal_text(#[trigger] card_numbers(card_id@)[i]),
                ),
            exists|steps: Seq<Result<i32, Fault>>|
                {
                    &&& answer(r) == #[trigger] sell_answer(card_numbers(card_id@), steps)
                    &&& steps.len() <= card_numbers(card_id@).len()
                    &&& steps.len() < card_numbers(card_id@).len() ==> r is Err
                },
    {
        let ghost numbers = card_numbers(card_id@);
        match parse_card_range(card_id) {
            Some((prefix, sub_prefix, start, end)) => {
                let ghost mut steps: Seq<Result<i32, Fault>> = Seq::empty();
                let mut total: i32 = 0;
                let mut num: i64 = start as i64;
                while num <= end as i64
                    invariant
                        start <= num,
                        start <= end ==> num <= end + 1,
                        start > end ==> num == start,
                        card_range(card_id@) == Some(
                            (prefix@, option_text(sub_prefix), start, end),
                        ),
                        numbers == card_numbers(card_id@),
                        steps.len() == num - start,
                        sell_answer(numbers, steps) == Ok::<i32, DbErrorView>(total),
                    decreases end + 1 - num,
                {
                    let number = range_card_number(prefix, sub_prefix, num as i32);
                    let step = classify(
                        take_copies_statement(number.as_str(), count).first_int(&self.conn),
                    );
                    proof {
                        assert(steps.push(step).drop_last() =~= steps);
                        steps = steps.push(step);
                    }
                    match sale_result(number.as_str(), step) {
                        Ok(sold) => {
                            total = total.wrapping_add(sold);
                        },
                        Err(e) => {
                            return Err(e);
                        },
                    }
                    num += 1;
                }
                Ok(total)
            },
            None => {
                let step = classify(
                    take_copies_statement(card_id, count).first_int(&self.conn),
                );
                let ghost steps = seq![step];
                assert(sell_answer(numbers, steps.drop_last()) == Ok::<i32, DbErrorView>(0));
                let r = sale_result(card_id, step);
                assert(answer(r) == sell_answer(numbers, steps));
                r
            },
        }
    }

    /// Lists the cards whose name matches `query`, or all cards where there is
    /// no query, each with its series, rarity and card type. The match is a
    /// `LIKE` on the pattern of [`crate::statements::name_pattern`], letters
    /// compared without regard to case. Rows that cannot be read are passed
    /// over.
    ///
    /// Which rows SQLite finds is its own matter; the cards of the answer are
    /// what [`readable_cards`] reads from the rows that it gave, in their
    /// order, so that each of them carries the id of its series.
    pub fn get_cards(&self, query: Option<&str>) -> (r: Result<Vec<Card>, rusqlite::Error>)
        ensures
            r matches Ok(cards) ==> exists|rows: Seq<Option<CardColumns>>|
                cards.deep_view() == #[trigger] readable_cards(rows),
    {
        match cards_by_name_statement(query).all_cards(&self.conn) {
            Ok(rows) => Ok(cards_of_rows(&rows)),
            Err(e) => Err(e),
        }
    }

    /// Lists the cards of the series `series_name`, letters compared without
    /// regard to case, each with its series, rarity and card type. A series
    /// without cards, whether it is there or not, is an unknown series.
    pub fn get_cards_by_seriesname(&self, series_name: &str) -> (r: Result<Vec<Card>, DbError>)
        ensures
            r matches Ok(cards) ==> cards.len() > 0,
            r matches Ok(cards) ==> exists|rows: Seq<Option<CardColumns>>|
                cards.deep_view() == #[trigger] readable_cards(rows),
            r matches Err(e) ==> e@ is SqliteError || e@ == DbErrorView::UnknownSeries(
                series_name@,
            ),
    {
        match with_text(CARDS_BY_SERIES, series_name).all_cards(&self.conn) {
            Ok(rows) => cards_or_unknown(cards_of_rows(&rows), series_name),
            Err(e) => Err(DbError::SqliteError(e)),
        }
    }

    /// The id of the rarity `rarity_name`.
    pub fn get_rarity_id(&self, rarity_name: &str) -> (r: Result<i32, DbError>)
        ensures
            r matches Err(e) ==> e@ is SqliteError || e@ == DbErrorView::UnknownRarity(
                rarity_name@,
            ),
    {
        let found = classify(with_text(RARITY_ID_BY_NAME, rarity_name).first_int(&self.conn));
        id_or_missing(found, DbError::UnknownRarity(String::from_str(rarity_name)))
    }

    /// The series of this id.
    pub fn get_series_by_id(&self, id: i32) -> (r: Result<Series, DbError>)
        ensures
            r matches Ok(series) ==> series.id is Some,
            r matches Err(e) ==> e@ is SqliteError || e@ == DbErrorView::UnknownSeries(
                int_text(id as int),
            ),
    {
        let found = classify(series_by_id_statement(id).first_series(&self.conn));
        series_or_missing(found, id)
    }

    /// The id of the card type that the label `name` looks up, the label read
    /// as [`card_type_of_label`] says.
    pub fn get_card_type_id(&self, name: &str) -> (r: Result<i32, DbError>)
        ensures
            r matches Err(e) ==> e@ is SqliteError || e@ == DbErrorView::UnknownCardType(
                card_type_detail(name@),
            ),
    {
        let wanted = CardType::from_label(name);
        let lookup = with_two_texts(CARD_TYPE_ID, wanted.main.as_str(), wanted.sub.as_str());
        let found = classify(lookup.only_int(&self.conn));
        let mut detail = wanted.main.clone();
        detail.append(",");
        detail.append(wanted.sub.as_str());
        proof {
            reveal_strlit(",");
            assert(detail@ =~= card_type_detail(name@));
        }
        id_or_missing(found, DbError::UnknownCardType(detail))
    }

    /// Loads a card list: inserts its series, then each of its cards in order,
    /// and reports how many cards were inserted and which were passed over. A
    /// card whose number was there already is passed over and not counted.
    ///
    /// Rarity and card type of each card are looked up by name, the rarity
    /// first; the first name that is not there ends the call with its error,
    /// and the cards before it stay inserted. The report is that of what the
    /// insertions answered with, one answer for each card of the list: the
    /// number inserted is [`count_inserted`] of the answers, and the numbers
    /// passed over are [`numbers_passed_over`], in the order of the list.
    pub fn load_series(&self, list: &SeriesJson) -> (r: Result<LoadReport, DbError>)
        ensures
            r matches Ok(report) ==> report.inserted + report.passed_over.len()
                == list.cards.len(),
            r matches Ok(report) ==> exists|ids: Seq<i32>|
                {
                    &&& ids.len() == list.cards.len()
                    &&& report.inserted == #[trigger] count_inserted(ids)
                    &&& texts(report.passed_over@) == numbers_passed_over(
                        record_numbers(list.cards@),
                        ids,
                    )
                },
            r matches Err(e) ==> load_error(e@, list.cards@),
    {
        let series_id: i32 = match self.insert_series(&list.series()) {
            Ok(id) => id,
            Err(e) => {
                return Err(DbError::SqliteError(e));
            },
        };
        let ghost numbers = record_numbers(list.cards@);
        let ghost mut ids: Seq<i32> = Seq::empty();
        let mut passed_over: Vec<String> = Vec::new();
        let mut inserted: usize = 0;
        let mut i: usize = 0;
        while i < list.cards.len()
            invariant
                i <= list.cards.len(),
                numbers == record_numbers(list.cards@),
                ids.len() == i,
                inserted + passed_over.len() == i,
                inserted == count_inserted(ids),
                texts(passed_over@) == numbers_passed_over(numbers, ids),
            decreases list.cards.len() - i,
        {
            let record = &list.cards[i];
            let rarity_id: i32 = match self.get_rarity_id(record.rarity.as_str()) {
                Ok(id) => id,
                Err(e) => {
                    return Err(e);
                },
            };
            let card_type_id: i32 = match self.get_card_type_id(record.category.as_str()) {
                Ok(id) => id,
                Err(e) => {
                    return Err(e);
                },
            };
            let card = record.to_card(series_id, rarity_id, card_type_id);
            let id: i32 = match self.insert_card(&card) {
                Ok(id) => id,
                Err(e) => {
                    return Err(e);
                },
            };
            proof {
                assert(ids.push(id).drop_last() =~= ids);
                ids = ids.push(id);
            }
            if id != 0 {
                inserted += 1;
            } else {
                passed_over.push(record.card_number.clone());
            }
            i += 1;
        }
        Ok(LoadReport { inserted, passed_over })
    }

    /// Loads a card list, as [`DatabaseConnection::load_series`] does, and
    /// gives the number of cards that were inserted: [`count_inserted`] of
    /// what the insertions answered with, one answer for each card of the
    /// list.
    pub fn import_series(&self, list: &SeriesJson) -> (r: Result<usize, DbError>)
        ensures
            r matches Ok(inserted) ==> inserted <= list.cards.len() && exists|ids: Seq<i32>|
                ids.len() == list.cards.len() && inserted == #[trigger] count_inserted(ids),
            r matches Err(e) ==> load_error(e@, list.cards@),
    {
        match self.load_series(list) {
            Ok(report) => Ok(report.inserted),
            Err(e) => Err(e),
        }
    }

    /// Lists all series, ordered by release date ascending. Rows that cannot
    /// be read are passed over.
    ///
    /// Which rows SQLite gives, and in which order, is its own matter; the
    /// series of the answer are what [`readable_series`] reads from those
    /// rows, in their order, so that each of them carries its id.
    pub fn get_unique_series(&self) -> (r: Result<Vec<Series>, DbError>)
        ensures
            r matches Ok(series) ==> exists|rows: Seq<Option<SeriesColumns>>|
                series.deep_view() == #[trigger] readable_series(rows),
            r matches Err(e) ==> e@ is SqliteError,
    {
        match plain(ALL_SERIES).all_series(&self.conn) {
            Ok(rows) => Ok(series_of_rows(&rows)),
            Err(e) => Err(DbError::SqliteError(e)),
        }
    }
}

/// Opens the store at `dbname`, creates its tables where they are missing,
/// and inserts the standard rarities and card types, each unless it is there
/// already. What is run is [`seed_statements`], one after the other up to the
/// first that fails; every failure is a fault of the storage.
pub fn setup(dbname: &str) -> (r: Result<DatabaseConnection, DbError>)
    ensures
        r matches Err(e) ==> e@ is SqliteError,
{
    let db = match DatabaseConnection::new(dbname) {
        Ok(db) => db,
        Err(e) => {
            return Err(DbError::SqliteError(e));
        },
    };
    match db.run_all(&seed_statements()) {
        Ok(_) => Ok(db),
        Err(e) => Err(DbError::SqliteError(e)),
    }
}

} // verus!
