//! Series: named releases that cards belong to.

use vstd::prelude::*;
use crate::text::option_string_text;

verus! {

/// A series as the store holds it. `id` is `None` until the series has been
/// inserted; `prefix` is the short code that its card numbers begin with.
#[derive(Debug, Clone)]
pub struct Series {
    pub id: Option<i32>,
    pub name: String,
    pub release_date: String,
    pub n_cards: i32,
    pub prefix: Option<String>,
}

/// What a [`Series`] holds.
pub struct SeriesView {
    pub id: Option<i32>,
    pub name: Seq<char>,
    pub release_date: Seq<char>,
    pub n_cards: i32,
    pub prefix: Option<Seq<char>>,
}

impl View for Series {
    type V = SeriesView;

    open spec fn view(&self) -> SeriesView {
        SeriesView {
            id: self.id,
            name: self.name@,
            release_date: self.release_date@,
            n_cards: self.n_cards,
            prefix: option_string_text(self.prefix),
        }
    }
}

impl DeepView for Series {
    type V = SeriesView;

    open spec fn deep_view(&self) -> SeriesView {
        self@
    }
}

impl std::ops::Deref for Series {
    type Target = Option<i32>;

    /// A series dereferences to its id.
    fn deref(&self) -> (id: &Option<i32>)
        ensures
            *id == self.id,
    {
        &self.id
    }
}

} // verus!
