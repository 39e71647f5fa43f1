//! The errors of the store.

use vstd::prelude::*;
use crate::sql::error_text;
use crate::text::starts_with;

verus! {

/// What can go wrong in the store.
#[derive(Debug)]
pub enum DbError {
    /// No rarity of this name.
    UnknownRarity(String),
    /// No series of this name or id.
    UnknownSeries(String),
    /// No card type of this main and sub-category.
    UnknownCardType(String),
    /// A card of this number is already there.
    UniqueConstraintViolation(String),
    /// The operation would break a rule of the collection, such as selling
    /// more copies than are owned.
    InvalidOperation(String),
    /// Any other fault of the underlying storage.
    SqliteError(rusqlite::Error),
}

/// What a [`DbError`] holds.
pub enum DbErrorView {
    UnknownRarity(Seq<char>),
    UnknownSeries(Seq<char>),
    UnknownCardType(Seq<char>),
    UniqueConstraintViolation(Seq<char>),
    InvalidOperation(Seq<char>),
    SqliteError(rusqlite::Error),
}

impl View for DbError {
    type V = DbErrorView;

    open spec fn view(&self) -> DbErrorView {
        match self {
            DbError::UnknownRarity(detail) => DbErrorView::UnknownRarity(detail@),
            DbError::UnknownSeries(detail) => DbErrorView::UnknownSeries(detail@),
            DbError::UnknownCardType(detail) => DbErrorView::UnknownCardType(detail@),
            DbError::UniqueConstraintViolation(detail) => DbErrorView::UniqueConstraintViolation(
                detail@,
            ),
            DbError::InvalidOperation(detail) => DbErrorView::InvalidOperation(detail@),
            DbError::SqliteError(cause) => DbErrorView::SqliteError(*cause),
        }
    }
}

/// An answer of the store with its error, if any, taken by its view.
pub open spec fn answer<T>(r: Result<T, DbError>) -> Result<T, DbErrorView> {
    match r {
        Ok(v) => Ok(v),
        Err(e) => Err(e@),
    }
}

/// The words that the message of each kind of error begins with.
pub open spec fn message_lead(e: DbErrorView) -> Seq<char> {
    match e {
        DbErrorView::UnknownRarity(_) => "Encountered undefined rarity: "@,
        DbErrorView::UnknownSeries(_) => "Encountered undefined series: "@,
        DbErrorView::UnknownCardType(_) => "Encountered undefined card type: "@,
        DbErrorView::UniqueConstraintViolation(_) => "Adding card failure: "@,
        DbErrorView::InvalidOperation(_) => "Invalid DB operation: "@,
        DbErrorView::SqliteError(_) => "SQLite error: "@,
    }
}

/// The detail that an error carries, where it is a text.
pub open spec fn message_detail(e: DbErrorView) -> Option<Seq<char>> {
    match e {
        DbErrorView::UnknownRarity(detail) => Some(detail),
        DbErrorView::UnknownSeries(detail) => Some(detail),
        DbErrorView::UnknownCardType(detail) => Some(detail),
        DbErrorView::UniqueConstraintViolation(detail) => Some(detail),
        DbErrorView::InvalidOperation(detail) => Some(detail),
        DbErrorView::SqliteError(_) => None,
    }
}

impl DbError {
    /// The message of this error: the lead of its kind, then its detail. For
    /// a storage fault the detail is what the storage layer says of it.
    pub fn message(&self) -> (text: String)
        ensures
            starts_with(text@, message_lead(self@)),
            message_detail(self@) matches Some(detail) ==> text@ == message_lead(self@) + detail,
    {
        let mut text = String::new();
        match self {
            DbError::UnknownRarity(detail) => {
                text.append("Encountered undefined rarity: ");
                text.append(detail.as_str());
            },
            DbError::UnknownSeries(detail) => {
                text.append("Encountered undefined series: ");
                text.append(detail.as_str());
            },
            DbError::UnknownCardType(detail) => {
                text.append("Encountered undefined card type: ");
                text.append(detail.as_str());
            },
            DbError::UniqueConstraintViolation(detail) => {
                text.append("Adding card failure: ");
                text.append(detail.as_str());
            },
            DbError::InvalidOperation(detail) => {
                text.append("Invalid DB operation: ");
                text.append(detail.as_str());
            },
            DbError::SqliteError(cause) => {
                text.append("SQLite error: ");
                let said = error_text(cause);
                text.append(said.as_str());
            },
        }
        assert(text@.take(message_lead(self@).len() as int) =~= message_lead(self@));
        text
    }
}

impl From<rusqlite::Error> for DbError {
    /// A storage fault as an error of the store.
    fn from(e: rusqlite::Error) -> (r: DbError) {
        DbError::SqliteError(e)
    }
}

impl vstd::std_specs::convert::FromSpecImpl<rusqlite::Error> for DbError {
    open spec fn obeys_from_spec() -> bool {
        true
    }

    open spec fn from_spec(e: rusqlite::Error) -> DbError {
        DbError::SqliteError(e)
    }
}

} // verus!
