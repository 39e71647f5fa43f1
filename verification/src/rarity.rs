//! Rarities: a fixed vocabulary attached to each card.

use vstd::prelude::*;

verus! {

/// A rarity as the store holds it.
#[derive(Debug, Clone)]
pub struct Rarity {
    pub id: i32,
    pub name: String,
}

/// What a [`Rarity`] holds.
pub struct RarityView {
    pub id: i32,
    pub name: Seq<char>,
}

impl View for Rarity {
    type V = RarityView;

    open spec fn view(&self) -> RarityView {
        RarityView { id: self.id, name: self.name@ }
    }
}

impl DeepView for Rarity {
    type V = RarityView;

    open spec fn deep_view(&self) -> RarityView {
        self@
    }
}

} // verus!
