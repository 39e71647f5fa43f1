use card_collection_manager::wiki::{is_white_space, wiki_page_name, wiki_page_url};

#[test]
fn words_are_capitalised_and_joined_by_underscores() {
    assert_eq!(wiki_page_name("metal raiders"), "Metal_Raiders");
    assert_eq!(wiki_page_name("Metal Raiders"), "Metal_Raiders");
    assert_eq!(wiki_page_name("pharaoh's servant"), "Pharaoh's_Servant");
}

#[test]
fn the_and_of_stay_as_they_are() {
    assert_eq!(
        wiki_page_name("legend of the blue eyes white dragon"),
        "Legend_of_the_Blue_Eyes_White_Dragon"
    );
    assert_eq!(wiki_page_name("the of"), "the_of");
    assert_eq!(wiki_page_name("The Of them often"), "The_Of_Them_Often");
}

#[test]
fn white_space_of_any_length_divides_words() {
    assert_eq!(wiki_page_name("  metal \t\n raiders  "), "Metal_Raiders");
    assert_eq!(wiki_page_name("metal\u{a0}raiders"), "Metal_Raiders");
    assert_eq!(wiki_page_name("one"), "One");
    assert_eq!(wiki_page_name("a b c"), "A_B_C");
}

#[test]
fn a_name_without_words_has_an_empty_page_name() {
    assert_eq!(wiki_page_name(""), "");
    assert_eq!(wiki_page_name("   "), "");
}

#[test]
fn only_the_first_character_of_a_word_changes() {
    assert_eq!(wiki_page_name("mETAL rAIDERS"), "METAL_RAIDERS");
    assert_eq!(wiki_page_name("123 go"), "123_Go");
    assert_eq!(wiki_page_name("élan ßtraße"), "Élan_SStraße");
}

#[test]
fn the_address_is_the_root_of_the_wiki_and_the_page_name() {
    assert_eq!(
        wiki_page_url("metal raiders"),
        "https://yugioh.fandom.com/wiki/Metal_Raiders"
    );
    assert_eq!(wiki_page_url(""), "https://yugioh.fandom.com/wiki/");
}

#[test]
fn white_space_is_what_the_standard_library_takes_for_it() {
    let mut found = 0;
    for code in 0..=0x10FFFFu32 {
        if let Some(c) = char::from_u32(code) {
            assert_eq!(is_white_space(c), c.is_whitespace(), "{:x}", code);
            if is_white_space(c) {
                found += 1;
            }
        }
    }
    assert_eq!(found, 25);
}

#[test]
fn the_common_white_space_is_white_space() {
    for c in [' ', '\t', '\n', '\r', '\u{a0}', '\u{2003}', '\u{3000}'] {
        assert!(is_white_space(c));
    }
    for c in ['a', '_', '-', '0', '\u{200b}', '\u{feff}', '\u{8}', '\u{1c}'] {
        assert!(!is_white_space(c));
    }
}
