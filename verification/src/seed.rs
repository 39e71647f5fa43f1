//! The rarities and card types that every store starts with.

use vstd::prelude::*;
use crate::sql::{SqlArgView, Statement, StatementView};
use crate::statements::{
    schema_plan, schema_statements, with_text, with_two_texts, INSERT_CARD_TYPE, INSERT_RARITY,
};

verus! {

/// The names of the standard rarities, in the order in which they are
/// inserted.
pub open spec fn standard_rarity_names() -> Seq<Seq<char>> {
    seq![
        "Common"@,
        "Rare"@,
        "Super Rare"@,
        "Ultra Rare"@,
        "Secret Rare"@,
        "Starlight Rare"@,
        "Quarter Century Rare"@,
    ]
}

/// The standard card types, each as main category and sub-category, in the
/// order in which they are inserted.
pub open spec fn standard_card_type_names() -> Seq<(Seq<char>, Seq<char>)> {
    seq![
        ("Spell Card"@, "Normal"@),
        ("Spell Card"@, "Equip"@),
        ("Spell Card"@, "Field"@),
        ("Spell Card"@, "Quick-Play"@),
        ("Monster"@, "Normal"@),
        ("Monster"@, "Flip"@),
        ("Monster"@, "Effect"@),
        ("Monster"@, "Union"@),
        ("Fusion Monster"@, "Normal"@),
        ("Fusion Monster"@, "Effect"@),
        ("Trap Card"@, "Normal"@),
        ("Trap Card"@, "Continuous"@),
        ("Trap Card"@, "Counter"@),
    ]
}

/// The standard rarities, as [`standard_rarity_names`] lists them.
pub fn standard_rarities() -> (names: Vec<&'static str>)
    ensures
        names@.map_values(|name: &'static str| name@) == standard_rarity_names(),
{
    let mut names: Vec<&'static str> = Vec::new();
    names.push("Common");
    names.push("Rare");
    names.push("Super Rare");
    names.push("Ultra Rare");
    names.push("Secret Rare");
    names.push("Starlight Rare");
    names.push("Quarter Century Rare");
    names
}

/// The standard card types, as [`standard_card_type_names`] lists them.
pub fn standard_card_types() -> (types: Vec<(&'static str, &'static str)>)
    ensures
        types@.map_values(|t: (&'static str, &'static str)| (t.0@, t.1@))
            == standard_card_type_names(),
{
    let mut types: Vec<(&'static str, &'static str)> = Vec::new();
    types.push(("Spell Card", "Normal"));
    types.push(("Spell Card", "Equip"));
    types.push(("Spell Card", "Field"));
    types.push(("Spell Card", "Quick-Play"));
    types.push(("Monster", "Normal"));
    types.push(("Monster", "Flip"));
    types.push(("Monster", "Effect"));
    types.push(("Monster", "Union"));
    types.push(("Fusion Monster", "Normal"));
    types.push(("Fusion Monster", "Effect"));
    types.push(("Trap Card", "Normal"));
    types.push(("Trap Card", "Continuous"));
    types.push(("Trap Card", "Counter"));
    types
}

/// The statement that inserts the rarity `name` unless it is there.
pub open spec fn rarity_insertion(name: Seq<char>) -> StatementView {
    StatementView { sql: INSERT_RARITY@, args: seq![SqlArgView::Text(name)] }
}

/// The statement that inserts the card type of a main category and a
/// sub-category unless it is there.
pub open spec fn card_type_insertion(t: (Seq<char>, Seq<char>)) -> StatementView {
    StatementView {
        sql: INSERT_CARD_TYPE@,
        args: seq![SqlArgView::Text(t.0), SqlArgView::Text(t.1)],
    }
}

/// What the setting up of a store hands to SQLite, in order: the statements
/// that create the tables, then the insertion of each standard rarity, then
/// the insertion of each standard card type.
pub open spec fn seed_plan() -> Seq<StatementView> {
    schema_plan() + standard_rarity_names().map_values(|name: Seq<char>| rarity_insertion(name))
        + standard_card_type_names().map_values(
        |t: (Seq<char>, Seq<char>)| card_type_insertion(t),
    )
}

/// The statements that set a store up, as [`seed_plan`] lists them.
pub fn seed_statements() -> (plan: Vec<Statement>)
    ensures
        plan.deep_view() == seed_plan(),
{
    let mut plan = schema_statements();
    let rarities = standard_rarities();
    let ghost names = standard_rarity_names();
    let ghost first = |name: Seq<char>| rarity_insertion(name);
    let mut i: usize = 0;
    while i < rarities.len()
        invariant
            i <= rarities.len(),
            names == standard_rarity_names(),
            rarities@.map_values(|name: &'static str| name@) == names,
            first == |name: Seq<char>| rarity_insertion(name),
            plan.deep_view() == schema_plan() + names.take(i as int).map_values(first),
        decreases rarities.len() - i,
    {
        let ghost before = plan.deep_view();
        plan.push(with_text(INSERT_RARITY, rarities[i]));
        assert(plan.deep_view() =~= before.push(rarity_insertion(names[i as int])));
        i += 1;
    }
    let ghost lead = plan.deep_view();
    let card_types = standard_card_types();
    let ghost pairs = standard_card_type_names();
    let ghost second = |t: (Seq<char>, Seq<char>)| card_type_insertion(t);
    let mut j: usize = 0;
    while j < card_types.len()
        invariant
            j <= card_types.len(),
            pairs == standard_card_type_names(),
            card_types@.map_values(|t: (&'static str, &'static str)| (t.0@, t.1@)) == pairs,
            second == |t: (Seq<char>, Seq<char>)| card_type_insertion(t),
            plan.deep_view() == lead + pairs.take(j as int).map_values(second),
        decreases card_types.len() - j,
    {
        let ghost before = plan.deep_view();
        plan.push(with_two_texts(INSERT_CARD_TYPE, card_types[j].0, card_types[j].1));
        assert(plan.deep_view() =~= before.push(card_type_insertion(pairs[j as int])));
        j += 1;
    }
    plan
}

} // verus!
