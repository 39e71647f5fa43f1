//! The SQLite connection, and the calls that run statements on it.
//!
//! The functions of this module that are marked `external_body` are trusted
//! rather than proved: each makes one call into `rusqlite` and hands back
//! what came of it. What a statement finds or changes is decided by SQLite
//! and by what the database file holds, so none of them promises anything
//! about it; the verified code of the crate decides what to do for every
//! possible answer.

use vstd::prelude::*;

verus! {

/// A connection to a SQLite database, opaque to verification.
#[verifier::external_type_specification]
#[verifier::external_body]
pub struct ExConnection(rusqlite::Connection);

/// An error of `rusqlite`, opaque to verification.
#[verifier::external_type_specification]
#[verifier::external_body]
pub struct ExSqlError(rusqlite::Error);

/// A value as SQLite takes it for a parameter, opaque to verification.
#[verifier::external_type_specification]
#[verifier::external_body]
pub struct ExSqlValue(rusqlite::types::Value);

/// A value bound to a parameter of a statement.
#[derive(Debug, Clone)]
pub enum SqlArg {
    Int(i32),
    Text(String),
    Null,
}

/// What a [`SqlArg`] holds.
pub enum SqlArgView {
    Int(i32),
    Text(Seq<char>),
    Null,
}

impl View for SqlArg {
    type V = SqlArgView;

    open spec fn view(&self) -> SqlArgView {
        match self {
            SqlArg::Int(i) => SqlArgView::Int(*i),
            SqlArg::Text(t) => SqlArgView::Text(t@),
            SqlArg::Null => SqlArgView::Null,
        }
    }
}

impl DeepView for SqlArg {
    type V = SqlArgView;

    open spec fn deep_view(&self) -> SqlArgView {
        self@
    }
}

/// A statement ready to run: its SQL text and the values of its parameters
/// `?1`, `?2`, ... in order.
#[derive(Debug)]
pub struct Statement {
    pub sql: &'static str,
    pub args: Vec<SqlArg>,
}

/// What a [`Statement`] holds.
pub struct StatementView {
    pub sql: Seq<char>,
    pub args: Seq<SqlArgView>,
}

impl View for Statement {
    type V = StatementView;

    open spec fn view(&self) -> StatementView {
        StatementView { sql: self.sql@, args: self.args.deep_view() }
    }
}

impl DeepView for Statement {
    type V = StatementView;

    open spec fn deep_view(&self) -> StatementView {
        self@
    }
}

/// The columns of a series row: id, name, release date, card count, prefix.
pub type SeriesColumns = (i32, String, String, i32, Option<String>);

/// The columns of a card row joined with its rarity, card type and series:
/// card name, series id, number, collection number, owned copies, rarity id,
/// rarity name, main category, sub-category, series name, series prefix,
/// release date, card count of the series.
pub type CardColumns = (
    String,
    i32,
    String,
    i32,
    i32,
    i32,
    String,
    String,
    String,
    String,
    Option<String>,
    String,
    i32,
);

/// The kinds of failure that the store tells apart.
#[derive(Debug, Clone, Copy)]
pub enum FaultKind {
    /// A query that was to give a row gave none.
    NoRows,
    /// SQLite refused the statement; `extended_code` is its extended result
    /// code.
    Failure { extended_code: i32 },
    /// Any other error.
    Other,
}

/// A failed call: the error and its kind.
#[derive(Debug)]
pub struct Fault {
    pub kind: FaultKind,
    pub cause: rusqlite::Error,
}

/// `rusqlite::Connection::open`: opens the database file at `path`, creating
/// it where there is none. Nothing is promised of the outcome.
#[verifier::external_body]
pub(crate) fn open_connection(path: &str) -> (r: Result<rusqlite::Connection, rusqlite::Error>) {
    rusqlite::Connection::open(path)
}

/// The values of `rusqlite::types::Value` that stand for the values bound to
/// a statement, one for one: `Integer` for a number, `Text` for a text and
/// `Null`. Nothing is promised of the result, which is opaque.
#[verifier::external_body]
pub(crate) fn bind(args: &Vec<SqlArg>) -> (values: Vec<rusqlite::types::Value>) {
    let value = |a: &SqlArg| match a {
        SqlArg::Int(i) => rusqlite::types::Value::Integer(i64::from(*i)),
        SqlArg::Text(t) => rusqlite::types::Value::Text(t.clone()),
        SqlArg::Null => rusqlite::types::Value::Null,
    };
    args.iter().map(value).collect()
}

/// `rusqlite::Connection::execute`: prepares and runs one statement with its
/// parameters bound, and gives the number of rows that it changed. Nothing is
/// promised of the outcome.
#[verifier::external_body]
pub(crate) fn execute(
    conn: &rusqlite::Connection,
    sql: &str,
    values: &Vec<rusqlite::types::Value>,
) -> (r: Result<usize, rusqlite::Error>) {
    conn.execute(sql, rusqlite::params_from_iter(values))
}

/// `rusqlite::Connection::last_insert_rowid`: the row id of the most recent
/// successful insert on the connection. Nothing is promised of it.
pub assume_specification[ rusqlite::Connection::last_insert_rowid ](
    conn: &rusqlite::Connection,
) -> (id: i64)
;

/// `rusqlite::Connection::query_row`, reading a 32-bit integer from the first
/// column of the first row. Nothing is promised of the outcome.
#[verifier::external_body]
pub(crate) fn query_row_int(
    conn: &rusqlite::Connection,
    sql: &str,
    values: &Vec<rusqlite::types::Value>,
) -> (r: Result<i32, rusqlite::Error>) {
    conn.query_row(sql, rusqlite::params_from_iter(values), |row| row.get(0))
}

/// `rusqlite::Connection::query_one`, reading a 32-bit integer from the first
/// column of the only row. Nothing is promised of the outcome.
#[verifier::external_body]
pub(crate) fn query_one_int(
    conn: &rusqlite::Connection,
    sql: &str,
    values: &Vec<rusqlite::types::Value>,
) -> (r: Result<i32, rusqlite::Error>) {
    conn.query_one(sql, rusqlite::params_from_iter(values), |row| row.get(0))
}

/// `rusqlite::Connection::query_row`, reading the columns of a series from
/// the first row. Nothing is promised of the outcome.
#[verifier::external_body]
pub(crate) fn query_row_series(
    conn: &rusqlite::Connection,
    sql: &str,
    values: &Vec<rusqlite::types::Value>,
) -> (r: Result<SeriesColumns, rusqlite::Error>) {
    conn.query_row(sql, rusqlite::params_from_iter(values), |row| SeriesColumns::try_from(row))
}

/// `rusqlite::Statement::query_map` on the statement that
/// `rusqlite::Connection::prepare` gives, reading the columns of a series
/// from each row; a row that does not read as one stands as `None` in the
/// result. Nothing is promised of the outcome.
#[verifier::external_body]
pub(crate) fn query_map_series(
    conn: &rusqlite::Connection,
    sql: &str,
    values: &Vec<rusqlite::types::Value>,
) -> (r: Result<Vec<Option<SeriesColumns>>, rusqlite::Error>) {
    let mut prepared = conn.prepare(sql)?;
    let bound = rusqlite::params_from_iter(values);
    let rows = prepared.query_map(bound, |row| SeriesColumns::try_from(row))?;
    Ok(rows.map(|row| row.ok()).collect())
}

/// `rusqlite::Statement::query_map` on the statement that
/// `rusqlite::Connection::prepare` gives, reading the columns of a joined
/// card from each row; a row that does not read as one stands as `None` in
/// the result. Nothing is promised of the outcome.
#[verifier::external_body]
pub(crate) fn query_map_cards(
    conn: &rusqlite::Connection,
    sql: &str,
    values: &Vec<rusqlite::types::Value>,
) -> (r: Result<Vec<Option<CardColumns>>, rusqlite::Error>) {
    let mut prepared = conn.prepare(sql)?;
    let bound = rusqlite::params_from_iter(values);
    let rows = prepared.query_map(bound, |row| CardColumns::try_from(row))?;
    Ok(rows.map(|row| row.ok()).collect())
}

/// Tells the variants of `rusqlite::Error` apart: `QueryReturnedNoRows`,
/// `SqliteFailure` with its extended result code, and the rest. Nothing is
/// promised of the answer.
#[verifier::external_body]
pub(crate) fn fault_kind(e: &rusqlite::Error) -> (kind: FaultKind) {
    match e {
        rusqlite::Error::QueryReturnedNoRows => FaultKind::NoRows,
        rusqlite::Error::SqliteFailure(failure, _) => FaultKind::Failure {
            extended_code: failure.extended_code,
        },
        _ => FaultKind::Other,
    }
}

/// The `Display` text of a `rusqlite::Error`. Nothing is promised of it.
#[verifier::external_body]
pub(crate) fn error_text(e: &rusqlite::Error) -> (text: String) {
    e.to_string()
}

/// Puts an error together with its kind.
pub fn fault_of(e: rusqlite::Error) -> (f: Fault)
    ensures
        f.cause == e,
{
    Fault { kind: fault_kind(&e), cause: e }
}

impl Statement {
    /// Runs the statement and gives the number of rows that it changed.
    pub(crate) fn run(&self, conn: &rusqlite::Connection) -> (r: Result<usize, rusqlite::Error>) {
        execute(conn, self.sql, &bind(&self.args))
    }

    /// Runs the statement and reads a number from its first row.
    pub(crate) fn first_int(&self, conn: &rusqlite::Connection) -> (r: Result<
        i32,
        rusqlite::Error,
    >) {
        query_row_int(conn, self.sql, &bind(&self.args))
    }

    /// Runs the statement and reads a number from its row, which is to be the
    /// only one.
    pub(crate) fn only_int(&self, conn: &rusqlite::Connection) -> (r: Result<
        i32,
        rusqlite::Error,
    >) {
        query_one_int(conn, self.sql, &bind(&self.args))
    }

    /// Runs the statement and reads a series from its first row.
    pub(crate) fn first_series(&self, conn: &rusqlite::Connection) -> (r: Result<
        SeriesColumns,
        rusqlite::Error,
    >) {
        query_row_series(conn, self.sql, &bind(&self.args))
    }

    /// Runs the statement and reads a series from each of its rows.
    pub(crate) fn all_series(&self, conn: &rusqlite::Connection) -> (r: Result<
        Vec<Option<SeriesColumns>>,
        rusqlite::Error,
    >) {
        query_map_series(conn, self.sql, &bind(&self.args))
    }

    /// Runs the statement and reads a joined card from each of its rows.
    pub(crate) fn all_cards(&self, conn: &rusqlite::Connection) -> (r: Result<
        Vec<Option<CardColumns>>,
        rusqlite::Error,
    >) {
        query_map_cards(conn, self.sql, &bind(&self.args))
    }
}

/// The outcome of a call with the error, if any, put together with its kind.
pub fn classify<T>(outcome: Result<T, rusqlite::Error>) -> (r: Result<T, Fault>)
    ensures
        match (outcome, r) {
            (Ok(a), Ok(b)) => a == b,
            (Err(e), Err(f)) => f.cause == e,
            _ => false,
        },
{
    match outcome {
        Ok(v) => Ok(v),
        Err(e) => Err(fault_of(e)),
    }
}

} // verus!
