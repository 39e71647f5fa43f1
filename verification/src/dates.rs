//! Release dates: read in long form, stored in ISO form.

use vstd::prelude::*;
use crate::text::option_string_text;

verus! {

/// The date that `text` states in long form, such as `September 5, 2025`,
/// written in ISO form (`2025-09-05`); `None` where `text` states no date in
/// that form. This is what `chrono` reads with the format `%B %d, %Y`, and
/// is known only by that.
pub uninterp spec fn long_date(text: Seq<char>) -> Option<Seq<char>>;

/// `chrono::NaiveDate::parse_from_str` with the format `%B %d, %Y`, and the
/// `Display` text of the date that it gives. The result is a function of
/// `text` alone; the contract only gives it its name.
#[verifier::external_body]
pub(crate) fn parse_long_date(text: &str) -> (r: Option<String>)
    ensures
        option_string_text(r) == long_date(text@),
{
    chrono::NaiveDate::parse_from_str(text, "%B %d, %Y").ok().map(|date| date.to_string())
}

/// The date that is stored for a release date as read: the date itself, or
/// the first day of 1970 where none was read.
pub open spec fn stored_date(parsed: Option<Seq<char>>) -> Seq<char> {
    match parsed {
        Some(date) => date,
        None => "1970-01-01"@,
    }
}

/// The date to store for a release date as read, as [`stored_date`] says.
pub fn date_or_epoch(parsed: Option<String>) -> (date: String)
    ensures
        date@ == stored_date(option_string_text(parsed)),
{
    match parsed {
        Some(date) => date,
        None => String::from_str("1970-01-01"),
    }
}

/// The date to store for the release date `text`: the date that it states in
/// long form, in ISO form, or `1970-01-01` where it states none.
pub fn release_date_for_store(text: &str) -> (date: String)
    ensures
        date@ == stored_date(long_date(text@)),
{
    date_or_epoch(parse_long_date(text))
}

} // verus!
