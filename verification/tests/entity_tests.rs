use card_collection_manager::card::DatabaseCard;
use card_collection_manager::cardtype::CardType;
use card_collection_manager::dates::{date_or_epoch, release_date_for_store};
use card_collection_manager::dberror::DbError;
use card_collection_manager::jsoncards::{CardJson, SeriesJson};
use card_collection_manager::seed::{standard_card_types, standard_rarities};
use card_collection_manager::series::Series;

#[test]
fn a_card_type_displays_as_sub_category_then_main_category() {
    let t = CardType { main: "Spell Card".to_string(), sub: "Normal".to_string() };
    assert_eq!(t.display(), "Normal Spell Card");
    let bare = CardType { main: String::new(), sub: String::new() };
    assert_eq!(bare.display(), " ");
}

#[test]
fn a_label_divides_at_its_first_space() {
    let t = CardType::split("Continuous Spell Card");
    assert_eq!((t.main.as_str(), t.sub.as_str()), ("Spell Card", "Continuous"));
    let t = CardType::split("Effect Fusion Monster");
    assert_eq!((t.main.as_str(), t.sub.as_str()), ("Fusion Monster", "Effect"));
    let t = CardType::split("Fusion Monster");
    assert_eq!((t.main.as_str(), t.sub.as_str()), ("Monster", "Fusion"));
}

#[test]
fn a_label_without_a_space_is_all_sub_category() {
    let t = CardType::split("Token");
    assert_eq!((t.main.as_str(), t.sub.as_str()), ("", "Token"));
    let t = CardType::split("");
    assert_eq!((t.main.as_str(), t.sub.as_str()), ("", ""));
}

#[test]
fn spaces_at_the_ends_of_a_label_are_kept() {
    let t = CardType::split(" Monster");
    assert_eq!((t.main.as_str(), t.sub.as_str()), ("Monster", ""));
    let t = CardType::split("Effect ");
    assert_eq!((t.main.as_str(), t.sub.as_str()), ("", "Effect"));
    let t = CardType::split("Effect  Monster");
    assert_eq!((t.main.as_str(), t.sub.as_str()), (" Monster", "Effect"));
}

#[test]
fn fusion_and_ritual_monsters_are_looked_up_as_normal() {
    let t = CardType::from_label("Fusion Monster");
    assert_eq!((t.main.as_str(), t.sub.as_str()), ("Fusion Monster", "Normal"));
    let t = CardType::from_label("Ritual Monster");
    assert_eq!((t.main.as_str(), t.sub.as_str()), ("Ritual Monster", "Normal"));
    let t = CardType::from_label("Effect Monster");
    assert_eq!((t.main.as_str(), t.sub.as_str()), ("Monster", "Effect"));
    let t = CardType::from_label("fusion monster");
    assert_eq!((t.main.as_str(), t.sub.as_str()), ("monster", "fusion"));
}

#[test]
fn a_displayed_card_type_divides_back_into_itself() {
    let t = CardType { main: "Trap Card".to_string(), sub: "Counter".to_string() };
    let back = CardType::split(&t.display());
    assert_eq!((back.main, back.sub), (t.main, t.sub));
}

#[test]
fn a_series_dereferences_to_its_id() {
    let mut series = Series {
        id: None,
        name: "Test Series".to_string(),
        release_date: "2025-09-05".to_string(),
        n_cards: 10,
        prefix: None,
    };
    assert_eq!(*series, None);
    assert!(series.is_none());
    series.id = Some(3);
    assert_eq!(*series, Some(3));
}

#[test]
fn each_error_has_its_message() {
    let text = |e: DbError| e.message();
    assert_eq!(
        text(DbError::UnknownRarity("Mythic".to_string())),
        "Encountered undefined rarity: Mythic"
    );
    assert_eq!(
        text(DbError::UnknownSeries("42".to_string())),
        "Encountered undefined series: 42"
    );
    assert_eq!(
        text(DbError::UnknownCardType("Monster,Odd".to_string())),
        "Encountered undefined card type: Monster,Odd"
    );
    assert_eq!(
        text(DbError::UniqueConstraintViolation("TS-001".to_string())),
        "Adding card failure: TS-001"
    );
    assert_eq!(
        text(DbError::InvalidOperation("no".to_string())),
        "Invalid DB operation: no"
    );
    assert_eq!(
        text(DbError::SqliteError(rusqlite::Error::QueryReturnedNoRows)),
        "SQLite error: Query returned no rows"
    );
}

#[test]
fn a_storage_fault_becomes_an_error_of_the_store() {
    let e = DbError::from(rusqlite::Error::InvalidQuery);
    assert!(matches!(e, DbError::SqliteError(rusqlite::Error::InvalidQuery)));
}

#[test]
fn a_long_date_is_stored_in_iso_form() {
    assert_eq!(release_date_for_store("September 5, 2025"), "2025-09-05");
    assert_eq!(release_date_for_store("March 8, 2002"), "2002-03-08");
    assert_eq!(release_date_for_store("December 31, 1999"), "1999-12-31");
    assert_eq!(release_date_for_store("February 29, 2024"), "2024-02-29");
}

#[test]
fn a_text_that_is_no_long_date_is_stored_as_the_epoch() {
    assert_eq!(release_date_for_store("2025-09-05"), "1970-01-01");
    assert_eq!(release_date_for_store(""), "1970-01-01");
    assert_eq!(release_date_for_store("February 30, 2024"), "1970-01-01");
    assert_eq!(release_date_for_store("Septober 5, 2025"), "1970-01-01");
    assert_eq!(release_date_for_store("September 5 2025"), "1970-01-01");
}

#[test]
fn a_date_that_was_read_is_kept_and_a_missing_one_is_the_epoch() {
    assert_eq!(date_or_epoch(Some("2002-03-08".to_string())), "2002-03-08");
    assert_eq!(date_or_epoch(Some(String::new())), "");
    assert_eq!(date_or_epoch(None), "1970-01-01");
}

#[test]
fn the_standard_rarities_are_seven() {
    assert_eq!(
        standard_rarities(),
        vec![
            "Common",
            "Rare",
            "Super Rare",
            "Ultra Rare",
            "Secret Rare",
            "Starlight Rare",
            "Quarter Century Rare",
        ]
    );
}

#[test]
fn the_standard_card_types_are_thirteen() {
    assert_eq!(
        standard_card_types(),
        vec![
            ("Spell Card", "Normal"),
            ("Spell Card", "Equip"),
            ("Spell Card", "Field"),
            ("Spell Card", "Quick-Play"),
            ("Monster", "Normal"),
            ("Monster", "Flip"),
            ("Monster", "Effect"),
            ("Monster", "Union"),
            ("Fusion Monster", "Normal"),
            ("Fusion Monster", "Effect"),
            ("Trap Card", "Normal"),
            ("Trap Card", "Continuous"),
            ("Trap Card", "Counter"),
        ]
    );
}

#[test]
fn a_record_of_a_card_list_becomes_a_card_without_copies() {
    let record = CardJson {
        card_number: "LOB-EN005".to_string(),
        name: "Dark Magician".to_string(),
        rarity: "Ultra Rare".to_string(),
        category: "Normal Monster".to_string(),
    };
    let card: DatabaseCard = record.to_card(3, 4, 5);
    assert_eq!(card.name, "Dark Magician");
    assert_eq!(card.number, "LOB-EN005");
    assert_eq!(card.collection_number, 5);
    assert_eq!(card.in_collection, 0);
    assert_eq!(card.series_id, 3);
    assert_eq!(card.rarity_id, 4);
    assert_eq!(card.card_type_id, 5);
}

#[test]
fn a_record_without_a_number_has_collection_number_zero() {
    let record = CardJson {
        card_number: "PROMO".to_string(),
        name: "Promo".to_string(),
        rarity: "Common".to_string(),
        category: "Normal Monster".to_string(),
    };
    assert_eq!(record.to_card(1, 1, 1).collection_number, 0);
}

#[test]
fn a_card_list_stands_for_a_series_not_yet_inserted() {
    let list = SeriesJson {
        name: "Metal Raiders".to_string(),
        ncards: 144,
        release_date: "June 26, 2002".to_string(),
        prefix: Some("MRD".to_string()),
        cards: vec![],
    };
    let series = list.series();
    assert_eq!(series.id, None);
    assert_eq!(series.name, "Metal Raiders");
    assert_eq!(series.release_date, "June 26, 2002");
    assert_eq!(series.n_cards, 144);
    assert_eq!(series.prefix, Some("MRD".to_string()));
    let bare = SeriesJson { prefix: None, ..list };
    assert_eq!(bare.series().prefix, Some(String::new()));
}
