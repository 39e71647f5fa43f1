//! A personal trading-card collection: cards grouped into series, each with a
//! rarity, a card type and a count of owned copies, kept in a SQLite file.
//!
//! The rules of the collection are verified: how a card number is read
//! ([`card_number`]), which statement each operation of the store runs
//! ([`statements`]), what the store answers for every outcome of a statement
//! ([`answers`], [`db`]), and how its answers are written out ([`report`],
//! [`routes`]). The statements themselves run in SQLite. The calls that cross
//! into code that is not verified are the trusted functions of [`sql`],
//! [`dates`] and [`wiki`]; each of them says in its comment what it takes on
//! trust.

pub mod answers;
pub mod card;
pub mod card_number;
pub mod cardtype;
pub mod cli;
pub mod dates;
pub mod db;
pub mod dberror;
pub mod jsoncards;
pub mod rarity;
pub mod report;
pub mod routes;
pub mod rows;
pub mod seed;
pub mod series;
pub mod sql;
pub mod statements;
pub mod text;
pub mod wiki;
