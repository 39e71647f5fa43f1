use card_collection_manager::card::DatabaseCard;
use card_collection_manager::db::{setup, DatabaseConnection};
use card_collection_manager::dberror::DbError;
use card_collection_manager::jsoncards::{CardJson, SeriesJson};
use card_collection_manager::series::Series;

fn test_series(name: &str, release_date: &str) -> Series {
    Series {
        id: None,
        name: name.to_string(),
        release_date: release_date.to_string(),
        n_cards: 10,
        prefix: Some("TS".to_string()),
    }
}

fn test_card(number: &str, name: &str, series_id: i32) -> DatabaseCard {
    DatabaseCard {
        name: name.to_string(),
        series_id,
        number: number.to_string(),
        collection_number: 1,
        in_collection: 0,
        rarity_id: 1,
        card_type_id: 1,
    }
}

/// A store with one series and the cards TS-001 to TS-005.
fn store_with_five_cards() -> (DatabaseConnection, i32) {
    let db = setup(":memory:").unwrap();
    let series_id = db.insert_series(&test_series("Test Series", "2025-09-05")).unwrap();
    for n in 1..=5 {
        let number = format!("TS-{:03}", n);
        let name = format!("Card {}", n);
        assert!(db.insert_card(&test_card(&number, &name, series_id)).unwrap() > 0);
    }
    (db, series_id)
}

fn owned(db: &DatabaseConnection, number: &str) -> i32 {
    let cards = db.get_cards(None).unwrap();
    let card = cards.iter().find(|c| c.number == number).unwrap();
    card.in_collection
}

#[test]
fn inserting_a_rarity_twice_changes_nothing() {
    let db = setup(":memory:").unwrap();
    db.insert_rarity("Ghost Rare").unwrap();
    let id = db.get_rarity_id("Ghost Rare").unwrap();
    db.insert_rarity("Ghost Rare").unwrap();
    assert_eq!(db.get_rarity_id("Ghost Rare").unwrap(), id);
    db.insert_rarity("Common").unwrap();
    assert_eq!(db.get_rarity_id("Common").unwrap(), 1);
}

#[test]
fn inserting_a_card_type_twice_changes_nothing() {
    let db = setup(":memory:").unwrap();
    db.insert_card_type("Monster", "Gemini").unwrap();
    let id = db.get_card_type_id("Gemini Monster").unwrap();
    db.insert_card_type("Monster", "Gemini").unwrap();
    assert_eq!(db.get_card_type_id("Gemini Monster").unwrap(), id);
    db.insert_card_type("Spell Card", "Normal").unwrap();
    assert_eq!(db.get_card_type_id("Normal Spell Card").unwrap(), 1);
}

#[test]
fn setup_twice_on_one_store_changes_nothing() {
    let db = setup(":memory:").unwrap();
    db.create_tables().unwrap();
    assert_eq!(db.get_rarity_id("Quarter Century Rare").unwrap(), 7);
    assert_eq!(db.get_card_type_id("Counter Trap Card").unwrap(), 13);
}

#[test]
fn the_standard_rarities_are_there_in_order() {
    let db = setup(":memory:").unwrap();
    let names = [
        "Common",
        "Rare",
        "Super Rare",
        "Ultra Rare",
        "Secret Rare",
        "Starlight Rare",
        "Quarter Century Rare",
    ];
    for (i, name) in names.iter().enumerate() {
        assert_eq!(db.get_rarity_id(name).unwrap(), i as i32 + 1);
    }
}

#[test]
fn the_standard_card_types_are_there_in_order() {
    let db = setup(":memory:").unwrap();
    let labels = [
        "Normal Spell Card",
        "Equip Spell Card",
        "Field Spell Card",
        "Quick-Play Spell Card",
        "Normal Monster",
        "Flip Monster",
        "Effect Monster",
        "Union Monster",
        "Fusion Monster",
        "Effect Fusion Monster",
        "Normal Trap Card",
        "Continuous Trap Card",
        "Counter Trap Card",
    ];
    for (i, label) in labels.iter().enumerate() {
        assert_eq!(db.get_card_type_id(label).unwrap(), i as i32 + 1);
    }
}

#[test]
fn an_inserted_series_is_listed_once_and_keeps_its_id() {
    let db = setup(":memory:").unwrap();
    let series = test_series("Legend of Blue Eyes", "March 8, 2002");
    let id = db.insert_series(&series).unwrap();
    assert!(id > 0);
    assert_eq!(db.insert_series(&series).unwrap(), id);
    assert_eq!(db.insert_series(&series).unwrap(), id);
    let listed = db.get_unique_series().unwrap();
    assert_eq!(listed.len(), 1);
    assert_eq!(listed[0].name, "Legend of Blue Eyes");
    assert_eq!(listed[0].id, Some(id));
    assert_eq!(listed[0].n_cards, 10);
    assert_eq!(listed[0].prefix, Some("TS".to_string()));
    assert_eq!(*listed[0], Some(id));
}

#[test]
fn a_release_date_in_long_form_is_stored_in_iso_form() {
    let db = setup(":memory:").unwrap();
    let id = db.insert_series(&test_series("Metal Raiders", "June 26, 2002")).unwrap();
    let series = db.get_series_by_id(id).unwrap();
    assert_eq!(series.release_date, "2002-06-26");
    assert_eq!(series.name, "Metal Raiders");
    assert_eq!(series.id, Some(id));
}

#[test]
fn a_release_date_that_cannot_be_read_is_stored_as_the_epoch() {
    let db = setup(":memory:").unwrap();
    let id = db.insert_series(&test_series("Test Series", "2025-09-05")).unwrap();
    assert_eq!(db.get_series_by_id(id).unwrap().release_date, "1970-01-01");
    let other = db.insert_series(&test_series("Other", "")).unwrap();
    assert_eq!(db.get_series_by_id(other).unwrap().release_date, "1970-01-01");
}

#[test]
fn series_are_listed_by_release_date() {
    let db = setup(":memory:").unwrap();
    db.insert_series(&test_series("Third", "September 5, 2025")).unwrap();
    db.insert_series(&test_series("First", "March 8, 2002")).unwrap();
    db.insert_series(&test_series("Second", "June 26, 2002")).unwrap();
    let listed = db.get_unique_series().unwrap();
    let names: Vec<&str> = listed.iter().map(|s| s.name.as_str()).collect();
    assert_eq!(names, vec!["First", "Second", "Third"]);
}

#[test]
fn a_series_without_prefix_is_stored_without_one() {
    let db = setup(":memory:").unwrap();
    let mut series = test_series("Bare", "March 8, 2002");
    series.prefix = None;
    let id = db.insert_series(&series).unwrap();
    assert_eq!(db.get_series_by_id(id).unwrap().prefix, None);
}

#[test]
fn a_fresh_card_gets_a_positive_id_and_a_repeated_one_gets_zero() {
    let db = setup(":memory:").unwrap();
    let series_id = db.insert_series(&test_series("Test Series", "2025-09-05")).unwrap();
    let first = db.insert_card(&test_card("TS-001", "Test Card", series_id)).unwrap();
    assert!(first > 0);
    let second = db.insert_card(&test_card("TS-002", "Other Card", series_id)).unwrap();
    assert!(second > first);
    assert_eq!(db.get_cards(None).unwrap().len(), 2);
    let again = db.insert_card(&test_card("TS-001", "Impostor", series_id)).unwrap();
    assert_eq!(again, 0);
    let cards = db.get_cards(None).unwrap();
    assert_eq!(cards.len(), 2);
    assert!(cards.iter().all(|c| c.name != "Impostor"));
}

#[test]
fn a_repeated_card_comes_with_a_warning_that_names_its_series() {
    let db = setup(":memory:").unwrap();
    let series_id = db.insert_series(&test_series("Test Series", "2025-09-05")).unwrap();
    let (first, warning) =
        db.insert_card_with_warning(&test_card("TS-001", "Test Card", series_id)).unwrap();
    assert!(first > 0);
    assert_eq!(warning, None);
    let (again, warning) =
        db.insert_card_with_warning(&test_card("TS-001", "Impostor", series_id)).unwrap();
    assert_eq!(again, 0);
    assert_eq!(
        warning,
        Some("Warning: Card 'TS-001' already exists in series 'Test Series'.".to_string())
    );
    assert_eq!(db.get_cards(None).unwrap().len(), 1);
    let refused = db.insert_card_with_warning(&test_card("TS-002", "Test Card", 42));
    assert!(matches!(refused, Err(DbError::UnknownSeries(ref id)) if id == "42"));
}

#[test]
fn a_card_of_an_unknown_series_is_refused() {
    let db = setup(":memory:").unwrap();
    let refused = db.insert_card(&test_card("TS-001", "Test Card", 42));
    assert!(matches!(refused, Err(DbError::UnknownSeries(ref id)) if id == "42"));
    assert_eq!(db.get_cards(None).unwrap().len(), 0);
    let negative = db.insert_card(&test_card("TS-001", "Test Card", -7));
    assert!(matches!(negative, Err(DbError::UnknownSeries(ref id)) if id == "-7"));
}

#[test]
fn a_card_of_an_unknown_rarity_or_card_type_is_a_storage_fault() {
    let db = setup(":memory:").unwrap();
    let series_id = db.insert_series(&test_series("Test Series", "2025-09-05")).unwrap();
    let mut card = test_card("TS-001", "Test Card", series_id);
    card.rarity_id = 99;
    assert!(matches!(db.insert_card(&card), Err(DbError::SqliteError(_))));
    card.rarity_id = 1;
    card.card_type_id = 99;
    assert!(matches!(db.insert_card(&card), Err(DbError::SqliteError(_))));
    assert_eq!(db.get_cards(None).unwrap().len(), 0);
}

#[test]
fn a_listed_card_carries_its_series_rarity_and_card_type() {
    let db = setup(":memory:").unwrap();
    let series_id = db.insert_series(&test_series("Test Series", "September 5, 2025")).unwrap();
    let mut card = test_card("TS-007", "Dark Magician", series_id);
    card.collection_number = 7;
    card.rarity_id = 4;
    card.card_type_id = 5;
    db.insert_card(&card).unwrap();
    let cards = db.get_cards(None).unwrap();
    assert_eq!(cards.len(), 1);
    let listed = &cards[0];
    assert_eq!(listed.name, "Dark Magician");
    assert_eq!(listed.number, "TS-007");
    assert_eq!(listed.collection_number, 7);
    assert_eq!(listed.in_collection, 0);
    assert_eq!(listed.series.id, Some(series_id));
    assert_eq!(listed.series.name, "Test Series");
    assert_eq!(listed.series.release_date, "2025-09-05");
    assert_eq!(listed.series.n_cards, 10);
    assert_eq!(listed.series.prefix, Some("TS".to_string()));
    assert_eq!(listed.rarity.id, 4);
    assert_eq!(listed.rarity.name, "Ultra Rare");
    assert_eq!(listed.cardtype.main, "Monster");
    assert_eq!(listed.cardtype.sub, "Normal");
}

#[test]
fn cards_are_found_by_a_part_of_their_name_in_any_case() {
    let (db, _) = store_with_five_cards();
    assert_eq!(db.get_cards(Some("card")).unwrap().len(), 5);
    assert_eq!(db.get_cards(Some("CARD 3")).unwrap().len(), 1);
    assert_eq!(db.get_cards(Some("ard 3")).unwrap()[0].number, "TS-003");
    assert_eq!(db.get_cards(Some("dragon")).unwrap().len(), 0);
    assert_eq!(db.get_cards(Some("")).unwrap().len(), 5);
    assert_eq!(db.get_cards(None).unwrap().len(), 5);
}

#[test]
fn a_search_takes_its_words_literally() {
    let db = setup(":memory:").unwrap();
    let series_id = db.insert_series(&test_series("Test Series", "2025-09-05")).unwrap();
    db.insert_card(&test_card("TS-001", "Test Card", series_id)).unwrap();
    assert_eq!(db.get_cards(Some("Test")).unwrap().len(), 1);
    assert!(db.get_cards(Some("T_st")).unwrap().is_empty());
    assert!(db.get_cards(Some("T%d")).unwrap().is_empty());
    assert!(db.get_cards(Some("%")).unwrap().is_empty());
    assert!(db.get_cards(Some("_")).unwrap().is_empty());
    assert!(db.get_cards(Some("\\")).unwrap().is_empty());
}

#[test]
fn a_search_finds_names_that_hold_the_special_characters() {
    let db = setup(":memory:").unwrap();
    let series_id = db.insert_series(&test_series("Test Series", "2025-09-05")).unwrap();
    db.insert_card(&test_card("TS-001", "100% Dragon", series_id)).unwrap();
    db.insert_card(&test_card("TS-002", "Snake_Case", series_id)).unwrap();
    db.insert_card(&test_card("TS-003", "Back\\slash", series_id)).unwrap();
    db.insert_card(&test_card("TS-004", "Plain", series_id)).unwrap();
    let found = |q: &str| -> Vec<String> {
        db.get_cards(Some(q)).unwrap().into_iter().map(|c| c.number).collect()
    };
    assert_eq!(found("%"), vec!["TS-001"]);
    assert_eq!(found("0% d"), vec!["TS-001"]);
    assert_eq!(found("_"), vec!["TS-002"]);
    assert_eq!(found("e_c"), vec!["TS-002"]);
    assert_eq!(found("\\"), vec!["TS-003"]);
    assert_eq!(found("k\\S"), vec!["TS-003"]);
    assert_eq!(found("a"), vec!["TS-001", "TS-002", "TS-003", "TS-004"]);
    assert_eq!(db.get_cards(None).unwrap().len(), 4);
}

#[test]
fn cards_are_listed_by_series_name_in_any_case() {
    let (db, _) = store_with_five_cards();
    assert_eq!(db.get_cards_by_seriesname("Test Series").unwrap().len(), 5);
    assert_eq!(db.get_cards_by_seriesname("test series").unwrap().len(), 5);
}

#[test]
fn a_series_without_cards_is_an_unknown_series() {
    let (db, _) = store_with_five_cards();
    db.insert_series(&test_series("Empty", "March 8, 2002")).unwrap();
    let empty = db.get_cards_by_seriesname("Empty");
    assert!(matches!(empty, Err(DbError::UnknownSeries(ref name)) if name == "Empty"));
    let missing = db.get_cards_by_seriesname("Nowhere");
    assert!(matches!(missing, Err(DbError::UnknownSeries(ref name)) if name == "Nowhere"));
}

#[test]
fn an_unknown_rarity_is_named_in_the_error() {
    let db = setup(":memory:").unwrap();
    let missing = db.get_rarity_id("Mythic");
    assert!(matches!(missing, Err(DbError::UnknownRarity(ref name)) if name == "Mythic"));
    let other_case = db.get_rarity_id("common");
    assert!(matches!(other_case, Err(DbError::UnknownRarity(ref name)) if name == "common"));
}

#[test]
fn an_unknown_series_id_is_named_in_the_error() {
    let db = setup(":memory:").unwrap();
    let missing = db.get_series_by_id(12345);
    assert!(matches!(missing, Err(DbError::UnknownSeries(ref id)) if id == "12345"));
    let least = db.get_series_by_id(i32::MIN);
    assert!(matches!(least, Err(DbError::UnknownSeries(ref id)) if id == "-2147483648"));
}

#[test]
fn an_unknown_card_type_is_named_by_main_and_sub_category() {
    let db = setup(":memory:").unwrap();
    let missing = db.get_card_type_id("Continuous Spell Card");
    assert!(
        matches!(missing, Err(DbError::UnknownCardType(ref d)) if d == "Spell Card,Continuous")
    );
    let ritual = db.get_card_type_id("Ritual Monster");
    assert!(matches!(ritual, Err(DbError::UnknownCardType(ref d)) if d == "Ritual Monster,Normal"));
    let one_word = db.get_card_type_id("Token");
    assert!(matches!(one_word, Err(DbError::UnknownCardType(ref d)) if d == ",Token"));
}

#[test]
fn fusion_monster_alone_is_a_main_category() {
    let db = setup(":memory:").unwrap();
    assert_eq!(db.get_card_type_id("Fusion Monster").unwrap(), 9);
    assert_eq!(db.get_card_type_id("Effect Fusion Monster").unwrap(), 10);
}

#[test]
fn collecting_a_fresh_card_gives_one_and_selling_two_is_refused() {
    let db = setup(":memory:").unwrap();
    let series_id = db.insert_series(&test_series("Test Series", "2025-09-05")).unwrap();
    db.insert_card(&test_card("TS-001", "Test Card", series_id)).unwrap();
    assert_eq!(db.collect_card("TS-001", None).unwrap(), 1);
    let refused = db.sell_card("TS-001", 2);
    assert!(matches!(refused, Err(DbError::InvalidOperation(_))));
    assert_eq!(owned(&db, "TS-001"), 1);
}

#[test]
fn a_refused_sale_says_which_card_it_was() {
    let (db, _) = store_with_five_cards();
    match db.sell_card("TS-002", 1) {
        Err(DbError::InvalidOperation(said)) => assert_eq!(
            said,
            "Could not sell card 'TS-002': Number of copies in collection cannot become negative."
        ),
        other => panic!("{:?}", other),
    }
}

#[test]
fn collecting_adds_the_count_that_is_given() {
    let (db, _) = store_with_five_cards();
    assert_eq!(db.collect_card("TS-001", Some(3)).unwrap(), 3);
    assert_eq!(db.collect_card("TS-001", None).unwrap(), 4);
    assert_eq!(db.collect_card("TS-001", Some(0)).unwrap(), 4);
    assert_eq!(db.collect_card("TS-001", Some(-1)).unwrap(), 3);
    assert_eq!(owned(&db, "TS-001"), 3);
    assert_eq!(owned(&db, "TS-002"), 0);
}

#[test]
fn selling_takes_the_count_down_to_zero_and_no_further() {
    let (db, _) = store_with_five_cards();
    db.collect_card("TS-001", Some(3)).unwrap();
    assert_eq!(db.sell_card("TS-001", 1).unwrap(), 2);
    assert_eq!(db.sell_card("TS-001", 2).unwrap(), 0);
    assert!(matches!(db.sell_card("TS-001", 1), Err(DbError::InvalidOperation(_))));
    assert_eq!(owned(&db, "TS-001"), 0);
    assert_eq!(db.sell_card("TS-001", 0).unwrap(), 0);
}

#[test]
fn no_sequence_of_sales_makes_a_count_negative() {
    let (db, _) = store_with_five_cards();
    db.collect_card("TS-003", Some(5)).unwrap();
    let mut expected = 5;
    for take in [2, 4, 1, 0, 3, 2, 7, 1] {
        match db.sell_card("TS-003", take) {
            Ok(left) => {
                expected -= take;
                assert_eq!(left, expected);
            }
            Err(DbError::InvalidOperation(_)) => assert!(expected - take < 0),
            Err(other) => panic!("{:?}", other),
        }
        assert!(expected >= 0);
        assert_eq!(owned(&db, "TS-003"), expected);
    }
    assert_eq!(expected, 0);
}

#[test]
fn collecting_a_card_that_is_not_there_is_an_error() {
    let (db, _) = store_with_five_cards();
    assert!(matches!(db.collect_card("TS-999", None), Err(DbError::SqliteError(_))));
    assert!(matches!(db.collect_card("", Some(2)), Err(DbError::SqliteError(_))));
}

#[test]
fn selling_a_card_that_is_not_there_is_refused() {
    let (db, _) = store_with_five_cards();
    assert!(matches!(db.sell_card("TS-999", 1), Err(DbError::InvalidOperation(_))));
}

#[test]
fn collecting_a_range_gives_the_sum_of_the_new_counts() {
    let (db, _) = store_with_five_cards();
    db.collect_card("TS-002", Some(4)).unwrap();
    assert_eq!(db.collect_card("TS-001-003", None).unwrap(), 1 + 5 + 1);
    assert_eq!(db.collect_card("TS-001-003", Some(2)).unwrap(), 3 + 7 + 3);
    assert_eq!(owned(&db, "TS-001"), 3);
    assert_eq!(owned(&db, "TS-002"), 7);
    assert_eq!(owned(&db, "TS-003"), 3);
    assert_eq!(owned(&db, "TS-004"), 0);
}

#[test]
fn an_empty_range_touches_nothing() {
    let (db, _) = store_with_five_cards();
    assert_eq!(db.collect_card("TS-003-001", None).unwrap(), 0);
    assert_eq!(db.sell_card("TS-003-001", 1).unwrap(), 0);
    assert_eq!(db.collect_card("NO-009-001", Some(5)).unwrap(), 0);
    for n in 1..=5 {
        assert_eq!(owned(&db, &format!("TS-{:03}", n)), 0);
    }
}

#[test]
fn a_range_stops_at_its_first_failure_and_keeps_what_was_done() {
    let (db, _) = store_with_five_cards();
    assert!(matches!(db.collect_card("TS-004-007", None), Err(DbError::SqliteError(_))));
    assert_eq!(owned(&db, "TS-004"), 1);
    assert_eq!(owned(&db, "TS-005"), 1);
    db.collect_card("TS-001", Some(2)).unwrap();
    match db.sell_card("TS-001-003", 1) {
        Err(DbError::InvalidOperation(said)) => assert!(said.contains("'TS-002'")),
        other => panic!("{:?}", other),
    }
    assert_eq!(owned(&db, "TS-001"), 1);
    assert_eq!(owned(&db, "TS-002"), 0);
}

#[test]
fn selling_a_range_gives_the_sum_of_the_new_counts() {
    let (db, _) = store_with_five_cards();
    db.collect_card("TS-001-003", Some(3)).unwrap();
    db.collect_card("TS-002", None).unwrap();
    assert_eq!(db.sell_card("TS-001-003", 2).unwrap(), 1 + 2 + 1);
}

#[test]
fn a_range_with_a_sub_prefix_works_on_the_cards_of_that_sub_prefix() {
    let db = setup(":memory:").unwrap();
    let series_id = db.insert_series(&test_series("Test Series", "2025-09-05")).unwrap();
    for number in ["LOB-EN001", "LOB-EN002", "LOB-DE001", "LOB-DE002"] {
        db.insert_card(&test_card(number, number, series_id)).unwrap();
    }
    assert_eq!(db.collect_card("LOB-EN001-DE002", None).unwrap(), 2);
    assert_eq!(owned(&db, "LOB-EN001"), 1);
    assert_eq!(owned(&db, "LOB-EN002"), 1);
    assert_eq!(owned(&db, "LOB-DE001"), 0);
    assert_eq!(owned(&db, "LOB-DE002"), 0);
}

#[test]
fn a_store_that_cannot_be_opened_is_a_storage_fault() {
    let failed = setup("/nowhere/at/all/cards.db");
    assert!(matches!(failed, Err(DbError::SqliteError(_))));
}

#[test]
fn a_store_without_tables_fails_with_a_storage_fault() {
    let db = DatabaseConnection::new(":memory:").unwrap();
    assert!(db.insert_rarity("Common").is_err());
    assert!(db.get_cards(None).is_err());
    assert!(matches!(db.get_rarity_id("Common"), Err(DbError::SqliteError(_))));
    assert!(matches!(db.get_unique_series(), Err(DbError::SqliteError(_))));
    assert!(matches!(db.sell_card("TS-001", 1), Err(DbError::SqliteError(_))));
    assert!(matches!(db.get_cards_by_seriesname("Test"), Err(DbError::SqliteError(_))));
    db.create_tables().unwrap();
    db.insert_rarity("Common").unwrap();
    assert_eq!(db.get_rarity_id("Common").unwrap(), 1);
}

#[test]
fn a_card_list_is_loaded_and_repeated_cards_are_not_counted() {
    let db = setup(":memory:").unwrap();
    let record = |number: &str, name: &str, rarity: &str, category: &str| CardJson {
        card_number: number.to_string(),
        name: name.to_string(),
        rarity: rarity.to_string(),
        category: category.to_string(),
    };
    let list = SeriesJson {
        name: "Legend of Blue Eyes".to_string(),
        ncards: 3,
        release_date: "March 8, 2002".to_string(),
        prefix: Some("LOB".to_string()),
        cards: vec![
            record("LOB-EN001", "Blue-Eyes White Dragon", "Ultra Rare", "Normal Monster"),
            record("LOB-EN002", "Hitotsu-Me Giant", "Common", "Normal Monster"),
            record("LOB-EN001", "Blue-Eyes White Dragon", "Ultra Rare", "Normal Monster"),
            record("LOB-EN003", "Flame Swordsman", "Super Rare", "Fusion Monster"),
        ],
    };
    assert_eq!(db.import_series(&list).unwrap(), 3);
    assert_eq!(db.import_series(&list).unwrap(), 0);
    let report = db.load_series(&list).unwrap();
    assert_eq!(report.inserted, 0);
    assert_eq!(report.passed_over, vec!["LOB-EN001", "LOB-EN002", "LOB-EN001", "LOB-EN003"]);
    let cards = db.get_cards_by_seriesname("Legend of Blue Eyes").unwrap();
    assert_eq!(cards.len(), 3);
    let swordsman = cards.iter().find(|c| c.number == "LOB-EN003").unwrap();
    assert_eq!(swordsman.collection_number, 3);
    assert_eq!(swordsman.in_collection, 0);
    assert_eq!(swordsman.rarity.name, "Super Rare");
    assert_eq!(swordsman.cardtype.main, "Fusion Monster");
    assert_eq!(swordsman.cardtype.sub, "Normal");
    assert_eq!(swordsman.series.prefix, Some("LOB".to_string()));
    assert_eq!(swordsman.series.release_date, "2002-03-08");
}

#[test]
fn a_load_reports_the_cards_that_it_passed_over() {
    let db = setup(":memory:").unwrap();
    let record = |number: &str| CardJson {
        card_number: number.to_string(),
        name: number.to_string(),
        rarity: "Common".to_string(),
        category: "Normal Monster".to_string(),
    };
    let list = SeriesJson {
        name: "Repeats".to_string(),
        ncards: 5,
        release_date: "March 8, 2002".to_string(),
        prefix: Some("RP".to_string()),
        cards: vec![
            record("RP-001"),
            record("RP-002"),
            record("RP-001"),
            record("RP-003"),
            record("RP-002"),
        ],
    };
    let report = db.load_series(&list).unwrap();
    assert_eq!(report.inserted, 3);
    assert_eq!(report.passed_over, vec!["RP-001", "RP-002"]);
    assert_eq!(db.get_cards(None).unwrap().len(), 3);
    let empty = SeriesJson { cards: vec![], ..list };
    let report = db.load_series(&empty).unwrap();
    assert_eq!(report.inserted, 0);
    assert!(report.passed_over.is_empty());
}

#[test]
fn a_card_list_fails_at_its_first_unknown_name() {
    let db = setup(":memory:").unwrap();
    let record = |number: &str, rarity: &str, category: &str| CardJson {
        card_number: number.to_string(),
        name: number.to_string(),
        rarity: rarity.to_string(),
        category: category.to_string(),
    };
    let list = SeriesJson {
        name: "Broken".to_string(),
        ncards: 3,
        release_date: "March 8, 2002".to_string(),
        prefix: None,
        cards: vec![
            record("BR-001", "Common", "Normal Monster"),
            record("BR-002", "Mythic", "Unheard Monster"),
            record("BR-003", "Common", "Normal Monster"),
        ],
    };
    let failed = db.import_series(&list);
    assert!(matches!(failed, Err(DbError::UnknownRarity(ref name)) if name == "Mythic"));
    assert_eq!(db.get_cards(None).unwrap().len(), 1);
    assert_eq!(db.get_unique_series().unwrap()[0].prefix, Some(String::new()));
    let other = SeriesJson {
        name: "Broken".to_string(),
        ncards: 1,
        release_date: "March 8, 2002".to_string(),
        prefix: None,
        cards: vec![record("BR-009", "Common", "Unheard Monster")],
    };
    let failed = db.import_series(&other);
    assert!(
        matches!(failed, Err(DbError::UnknownCardType(ref d)) if d == "Monster,Unheard")
    );
}

#[test]
fn an_empty_card_list_inserts_its_series_alone() {
    let db = setup(":memory:").unwrap();
    let list = SeriesJson {
        name: "Empty".to_string(),
        ncards: 0,
        release_date: "March 8, 2002".to_string(),
        prefix: Some("EM".to_string()),
        cards: vec![],
    };
    assert_eq!(db.import_series(&list).unwrap(), 0);
    assert_eq!(db.get_unique_series().unwrap().len(), 1);
}
