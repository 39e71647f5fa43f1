//! What the store answers for each outcome of a statement.
//!
//! Whether a statement succeeds, and with what, is decided in SQLite. Every
//! function here takes such an outcome as an argument and says exactly what
//! the store makes of it.

use vstd::prelude::*;
use vstd::wrapping::i32_specs::wrapping_add;
use crate::card::{Card, CardView};
use crate::dberror::{answer, DbError, DbErrorView};
use crate::rows::{series_from_columns, series_of_columns};
use crate::series::{Series, SeriesView};
use crate::sql::{Fault, FaultKind, SeriesColumns};
use crate::text::{int_string, int_text, long_string};

verus! {

/// The extended result code with which SQLite refuses a row that would repeat
/// a value of a unique column.
pub const UNIQUE_VIOLATION: i32 = 2067;

/// The answer to a lookup of an id: the id that was found; the error `missing`
/// where no row was found; any other fault as it stands.
pub open spec fn id_answer(found: Result<i32, Fault>, missing: DbErrorView) -> Result<
    i32,
    DbErrorView,
> {
    match found {
        Ok(id) => Ok(id),
        Err(fault) => match fault.kind {
            FaultKind::NoRows => Err(missing),
            _ => Err(DbErrorView::SqliteError(fault.cause)),
        },
    }
}

/// The answer to a lookup of a series by id: the series that was found; an
/// unknown series, named by the id, where no row was found; any other fault
/// as it stands.
pub open spec fn series_answer(found: Result<SeriesColumns, Fault>, id: i32) -> Result<
    SeriesView,
    DbErrorView,
> {
    match found {
        Ok(c) => Ok(series_of_columns(c)),
        Err(fault) => match fault.kind {
            FaultKind::NoRows => Err(DbErrorView::UnknownSeries(int_text(id as int))),
            _ => Err(DbErrorView::SqliteError(fault.cause)),
        },
    }
}

/// What is said when a card was inserted under a row id that is no id of the
/// store.
pub open spec fn id_refusal_text(rowid: int) -> Seq<char> {
    "Card was inserted under the row id "@ + int_text(rowid)
        + ", which is not a positive 32-bit id."@
}

/// The answer to the insertion of a card, `step` being the row id of the new
/// row or the fault of the statement: the row id, which is positive, where it
/// is one of the store, from 1 to the largest `i32`; an invalid operation for
/// any other row id; 0 where the number of the card was taken already; any
/// other fault as it stands.
pub open spec fn card_insert_answer(step: Result<i64, Fault>) -> Result<i32, DbErrorView> {
    match step {
        Ok(rowid) => if 0 < rowid <= i32::MAX {
            Ok(rowid as i32)
        } else {
            Err(DbErrorView::InvalidOperation(id_refusal_text(rowid as int)))
        },
        Err(fault) => match fault.kind {
            FaultKind::Failure { extended_code } => if extended_code == UNIQUE_VIOLATION {
                Ok(0)
            } else {
                Err(DbErrorView::SqliteError(fault.cause))
            },
            _ => Err(DbErrorView::SqliteError(fault.cause)),
        },
    }
}

/// The warning for a card that was not inserted because its number was taken.
pub open spec fn duplicate_warning_text(number: Seq<char>, series_name: Seq<char>) -> Seq<char> {
    "Warning: Card '"@ + number + "' already exists in series '"@ + series_name + "'."@
}

/// The numbers of the cards that a load passed over, `numbers` being the
/// numbers of the cards and `ids` what their insertions answered with: those
/// whose answer was 0, in the order of the cards.
pub open spec fn numbers_passed_over(numbers: Seq<Seq<char>>, ids: Seq<i32>) -> Seq<Seq<char>>
    decreases ids.len(),
{
    if ids.len() == 0 {
        Seq::empty()
    } else if ids.last() == 0 {
        numbers_passed_over(numbers, ids.drop_last()).push(numbers[ids.len() - 1])
    } else {
        numbers_passed_over(numbers, ids.drop_last())
    }
}

/// The running total of a collect after one more card: the total so far plus
/// the new count of the card, wrapping around at the ends of `i32`; the fault
/// of the statement where it failed.
pub open spec fn tally_answer(total: i32, step: Result<i32, rusqlite::Error>) -> Result<
    i32,
    DbErrorView,
> {
    match step {
        Ok(count) => Ok(wrapping_add(total, count)),
        Err(cause) => Err(DbErrorView::SqliteError(cause)),
    }
}

/// The answer of a collect whose cards gave `steps`, one after the other: the
/// fault of the first statement that failed, or else the sum of the new
/// counts, wrapping around at the ends of `i32`.
pub open spec fn collect_answer(steps: Seq<Result<i32, rusqlite::Error>>) -> Result<
    i32,
    DbErrorView,
>
    decreases steps.len(),
{
    if steps.len() == 0 {
        Ok(0)
    } else {
        match collect_answer(steps.drop_last()) {
            Ok(total) => tally_answer(total, steps.last()),
            Err(e) => Err(e),
        }
    }
}

/// What is said when a card cannot be sold.
pub open spec fn refusal_text(number: Seq<char>) -> Seq<char> {
    "Could not sell card '"@ + number
        + "': Number of copies in collection cannot become negative."@
}

/// The answer to the sale of copies of one card: the new count; an invalid
/// operation where no row was changed, which is so when the card is not
/// there or owns fewer copies than were to be sold; any other fault as it
/// stands.
pub open spec fn sale_answer(number: Seq<char>, step: Result<i32, Fault>) -> Result<
    i32,
    DbErrorView,
> {
    match step {
        Ok(count) => Ok(count),
        Err(fault) => match fault.kind {
            FaultKind::NoRows => Err(DbErrorView::InvalidOperation(refusal_text(number))),
            _ => Err(DbErrorView::SqliteError(fault.cause)),
        },
    }
}

/// The answer of a sale over the cards `numbers` whose statements gave
/// `steps`, one after the other: the error of the first card that could not
/// be sold, or else the sum of the new counts, wrapping around at the ends of
/// `i32`.
pub open spec fn sell_answer(numbers: Seq<Seq<char>>, steps: Seq<Result<i32, Fault>>) -> Result<
    i32,
    DbErrorView,
>
    decreases steps.len(),
{
    if steps.len() == 0 {
        Ok(0)
    } else {
        match sell_answer(numbers, steps.drop_last()) {
            Ok(total) => match sale_answer(numbers[steps.len() - 1], steps.last()) {
                Ok(count) => Ok(wrapping_add(total, count)),
                Err(e) => Err(e),
            },
            Err(e) => Err(e),
        }
    }
}

/// How many cards a load inserted, `ids` being what the insertions answered
/// with, one for each card: as many as answered with an id that is not 0,
/// which is the answer for a card whose number was taken.
pub open spec fn count_inserted(ids: Seq<i32>) -> nat
    decreases ids.len(),
{
    if ids.len() == 0 {
        0
    } else {
        count_inserted(ids.drop_last()) + if ids.last() != 0 {
            1nat
        } else {
            0nat
        }
    }
}

/// A list of cards, or the error that a series without cards gives.
pub open spec fn cards_answer(cards: Seq<CardView>, series_name: Seq<char>) -> Result<
    Seq<CardView>,
    DbErrorView,
> {
    if cards.len() == 0 {
        Err(DbErrorView::UnknownSeries(series_name))
    } else {
        Ok(cards)
    }
}

/// An answer that holds a series, taken by its view.
pub open spec fn series_view(r: Result<Series, DbError>) -> Result<SeriesView, DbErrorView> {
    match r {
        Ok(s) => Ok(s@),
        Err(e) => Err(e@),
    }
}

/// An answer that holds cards, taken by its view.
pub open spec fn cards_view(r: Result<Vec<Card>, DbError>) -> Result<Seq<CardView>, DbErrorView> {
    match r {
        Ok(cards) => Ok(cards.deep_view()),
        Err(e) => Err(e@),
    }
}

/// Answers a lookup of an id, as [`id_answer`] says.
pub fn id_or_missing(found: Result<i32, Fault>, missing: DbError) -> (r: Result<i32, DbError>)
    ensures
        answer(r) == id_answer(found, missing@),
{
    match found {
        Ok(id) => Ok(id),
        Err(fault) => match fault.kind {
            FaultKind::NoRows => Err(missing),
            _ => Err(DbError::SqliteError(fault.cause)),
        },
    }
}

/// Answers a lookup of a series by id, as [`series_answer`] says.
pub fn series_or_missing(found: Result<SeriesColumns, Fault>, id: i32) -> (r: Result<
    Series,
    DbError,
>)
    ensures
        series_view(r) == series_answer(found, id),
{
    match found {
        Ok(c) => Ok(series_from_columns(&c)),
        Err(fault) => match fault.kind {
            FaultKind::NoRows => Err(DbError::UnknownSeries(int_string(id))),
            _ => Err(DbError::SqliteError(fault.cause)),
        },
    }
}

/// Answers the insertion of a card, as [`card_insert_answer`] says.
pub fn card_insert_result(step: Result<i64, Fault>) -> (r: Result<i32, DbError>)
    ensures
        answer(r) == card_insert_answer(step),
{
    match step {
        Ok(rowid) => if 0 < rowid && rowid <= 2147483647 {
            Ok(rowid as i32)
        } else {
            let mut said = String::from_str("Card was inserted under the row id ");
            said.append(long_string(rowid).as_str());
            said.append(", which is not a positive 32-bit id.");
            Err(DbError::InvalidOperation(said))
        },
        Err(fault) => match fault.kind {
            FaultKind::Failure { extended_code } => if extended_code == UNIQUE_VIOLATION {
                Ok(0)
            } else {
                Err(DbError::SqliteError(fault.cause))
            },
            _ => Err(DbError::SqliteError(fault.cause)),
        },
    }
}

/// The warning for a card that was not inserted because its number was taken,
/// as [`duplicate_warning_text`] says.
pub fn duplicate_warning(number: &str, series_name: &str) -> (warning: String)
    ensures
        warning@ == duplicate_warning_text(number@, series_name@),
{
    let mut warning = String::from_str("Warning: Card '");
    warning.append(number);
    warning.append("' already exists in series '");
    warning.append(series_name);
    warning.append("'.");
    warning
}

/// Adds the new count of one more card to the total of a collect, as
/// [`tally_answer`] says.
pub fn tally(total: i32, step: Result<i32, rusqlite::Error>) -> (r: Result<i32, DbError>)
    ensures
        answer(r) == tally_answer(total, step),
{
    match step {
        Ok(count) => Ok(total.wrapping_add(count)),
        Err(cause) => Err(DbError::SqliteError(cause)),
    }
}

/// Answers the sale of copies of the card `number`, as [`sale_answer`] says.
pub fn sale_result(number: &str, step: Result<i32, Fault>) -> (r: Result<i32, DbError>)
    ensures
        answer(r) == sale_answer(number@, step),
{
    match step {
        Ok(count) => Ok(count),
        Err(fault) => match fault.kind {
            FaultKind::NoRows => {
                let mut said = String::from_str("Could not sell card '");
                said.append(number);
                said.append("': Number of copies in collection cannot become negative.");
                Err(DbError::InvalidOperation(said))
            },
            _ => Err(DbError::SqliteError(fault.cause)),
        },
    }
}

/// The cards of a series, or an unknown series where there are none, as
/// [`cards_answer`] says.
pub fn cards_or_unknown(cards: Vec<Card>, series_name: &str) -> (r: Result<Vec<Card>, DbError>)
    ensures
        cards_view(r) == cards_answer(cards.deep_view(), series_name@),
{
    if cards.len() == 0 {
        Err(DbError::UnknownSeries(String::from_str(series_name)))
    } else {
        Ok(cards)
    }
}

/// An insertion answers with a positive id exactly when it gave a row id from
/// 1 up to the largest `i32`, and then with that id; it answers with 0
/// exactly when it was refused because the number was taken; and it never
/// answers with a negative id.
pub proof fn lemma_card_insert_answer(step: Result<i64, Fault>)
    ensures
        card_insert_answer(step) matches Ok(id) ==> id >= 0,
        card_insert_answer(step) matches Ok(id) ==> (id > 0 <==> step is Ok),
        step matches Ok(rowid) ==> (0 < rowid <= i32::MAX ==> card_insert_answer(step) == Ok::<
            i32,
            DbErrorView,
        >(rowid as i32)),
        step matches Ok(rowid) ==> (!(0 < rowid <= i32::MAX) ==> card_insert_answer(step) is Err),
        step matches Err(fault) ==> (fault.kind == (FaultKind::Failure {
            extended_code: UNIQUE_VIOLATION,
        }) <==> card_insert_answer(step) == Ok::<i32, DbErrorView>(0)),
{
}

/// A collect over several cards answers with a count when every card gave
/// one, and otherwise with the fault of the first card that failed, whatever
/// the cards after it gave.
pub proof fn lemma_collect_answer(steps: Seq<Result<i32, rusqlite::Error>>)
    ensures
        (forall|i: int| 0 <= i < steps.len() ==> steps[i] is Ok) ==> collect_answer(steps) is Ok,
        forall|i: int|
            0 <= i < steps.len() && (#[trigger] steps[i]) is Err && (forall|j: int|
                0 <= j < i ==> steps[j] is Ok) ==> collect_answer(steps) == Err::<
                i32,
                DbErrorView,
            >(DbErrorView::SqliteError(steps[i]->Err_0)),
    decreases steps.len(),
{
    if steps.len() > 0 {
        let front = steps.drop_last();
        lemma_collect_answer(front);
        assert forall|i: int|
            0 <= i < steps.len() && (#[trigger] steps[i]) is Err && (forall|j: int|
                0 <= j < i ==> steps[j] is Ok) implies collect_answer(steps) == Err::<
            i32,
            DbErrorView,
        >(DbErrorView::SqliteError(steps[i]->Err_0)) by {
            if i < front.len() {
                assert(front[i] == steps[i]);
                assert forall|j: int| 0 <= j < i implies front[j] is Ok by {
                    assert(front[j] == steps[j]);
                }
            }
        }
    }
}

/// A sale over several cards answers with a count when every card gave one,
/// and otherwise with the error of the first card that gave none: an invalid
/// operation that names the card where no row was changed, the fault as it
/// stands otherwise.
pub proof fn lemma_sell_answer(numbers: Seq<Seq<char>>, steps: Seq<Result<i32, Fault>>)
    requires
        steps.len() <= numbers.len(),
    ensures
        (forall|i: int| 0 <= i < steps.len() ==> steps[i] is Ok) ==> sell_answer(
            numbers,
            steps,
        ) is Ok,
        forall|i: int|
            0 <= i < steps.len() && (#[trigger] steps[i]) is Err && (forall|j: int|
                0 <= j < i ==> steps[j] is Ok) ==> sell_answer(numbers, steps) == sale_answer(
                numbers[i],
                steps[i],
            ),
    decreases steps.len(),
{
    if steps.len() > 0 {
        let front = steps.drop_last();
        lemma_sell_answer(numbers, front);
        assert forall|i: int|
            0 <= i < steps.len() && (#[trigger] steps[i]) is Err && (forall|j: int|
                0 <= j < i ==> steps[j] is Ok) implies sell_answer(numbers, steps) == sale_answer(
            numbers[i],
            steps[i],
        ) by {
            if i < front.len() {
                assert(front[i] == steps[i]);
                assert forall|j: int| 0 <= j < i implies front[j] is Ok by {
                    assert(front[j] == steps[j]);
                }
            }
        }
    }
}

} // verus!
