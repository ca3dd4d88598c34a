use df_texture_helper::condition::{to_upper_snake, Condition};
use df_texture_helper::error::{
    highlight_error, index_error, parse_error, unknown_error, wrap_import_buffer_error, wrap_import_file_error,
    DFGHError, FieldRange,
};
use df_texture_helper::items::{BodyPartType, Color, ItemType};
use df_texture_helper::state::State;
use df_texture_helper::layer_set::name_for_group;
use df_texture_helper::text::{parse_u32, replace, str_lt, trim_string, without_first};
use df_texture_helper::tile::TilePage;
use df_texture_helper::tokens::{
    BPAppMod, Caste, Equipment, MaterialFlag, Metal, Profession, Shaping, SyndromeClass,
};
use df_texture_helper::words::{join_strings, split_char, str_contains, str_starts_with};

#[test]
fn parse_u32_accepts_what_std_accepts() {
    assert_eq!(parse_u32("42"), Some(42));
    assert_eq!(parse_u32("+7"), Some(7));
    assert_eq!(parse_u32("4294967295"), Some(u32::MAX));
    assert_eq!(parse_u32("4294967296"), None);
    assert_eq!(parse_u32(""), None);
    assert_eq!(parse_u32("-1"), None);
    assert_eq!(parse_u32("1a"), None);
}

#[test]
fn small_text_helpers() {
    assert_eq!(replace("a.png.png", ".png", ""), "a");
    assert_eq!(trim_string("  x y \t"), "x y");
    assert_eq!(without_first("\t\tA", '\t'), "\tA");
    assert_eq!(without_first("abc", '\t'), "abc");
    assert!(str_lt("BODY_LOWER", "BODY_UPPER"));
    assert!(str_lt("AB", "ABC"));
    assert!(!str_lt("b", "a"));
    assert_eq!(split_char("a__b", '_'), vec!["a", "", "b"]);
    assert_eq!(split_char("", '_'), vec![""]);
    assert_eq!(join_strings(&vec!["a".to_string(), "b".to_string()], "_"), "a_b");
    assert!(str_contains("HAIR_BACK", "HAIR"));
    assert!(str_contains("HAIR", ""));
    assert!(!str_contains("HA", "HAIR"));
    assert!(str_starts_with("tile_page_x", "tile_page_"));
}

#[test]
fn case_conversion_goes_through_the_library() {
    assert_eq!(to_upper_snake("body armor"), "BODY_ARMOR");
    assert_eq!(to_upper_snake("upper arm"), "UPPER_ARM");
    let page = TilePage { name: "a".to_string(), file_name: "Big Tiles".to_string(), image_size: [0, 0], tile_size: [1, 1] };
    assert!(page.display().contains("[FILE:images/big_tiles.png]"));
    assert_eq!(name_for_group(&"LIGHT_VERMIN".to_string(), &Vec::new()), "Light Vermin");
    assert_eq!(State::from("light_vermin".to_string()), State::LightVermin);
}

#[test]
fn error_messages_match_their_variants() {
    assert_eq!(DFGHError::IndexError.message(), "Index out of bounds");
    assert_eq!(DFGHError::ImportIndexError(5, 3).message(), "Expected 5 fields, found 3");
    assert_eq!(DFGHError::ImportParseError.message(), "Expected integer in the marked field.");
    assert_eq!(DFGHError::ImportUnknownError.message(), "Unknown import error.");
}

#[test]
fn block_errors_count_lines_from_the_end() {
    let e = index_error(1, 4, 2, 5);
    assert!(matches!(e, DFGHError::ImportBufferError(3, 4, FieldRange { start: 0, end: 2 }, ref m) if m == "Expected 5 fields, found 2"));
    let e = index_error(0, 2, 7, 5);
    assert!(matches!(e, DFGHError::ImportBufferError(2, 2, FieldRange { start: 5, end: 7 }, _)));
    let e = parse_error(2, 3, 1);
    assert!(matches!(e, DFGHError::ImportBufferError(2, 3, FieldRange { start: 1, end: 1 }, _)));
    let e = unknown_error(1, 3, 4);
    assert!(matches!(e, DFGHError::ImportBufferError(1, 3, FieldRange { start: 0, end: 3 }, ref m) if m == "Unknown import error."));
}

#[test]
fn wrapping_moves_errors_into_the_outer_block() {
    let inner = DFGHError::ImportBufferError(1, 2, FieldRange { start: 0, end: 1 }, "m".to_string());
    let outer = wrap_import_buffer_error(5, 10, FieldRange { start: 0, end: 0 }, &inner);
    assert!(matches!(outer, DFGHError::ImportBufferError(5, 10, FieldRange { start: 0, end: 1 }, ref m) if m == "m"));
    let parse = wrap_import_buffer_error(3, 4, FieldRange { start: 2, end: 2 }, &DFGHError::ImportParseError);
    assert!(matches!(parse, DFGHError::ImportBufferError(3, 4, FieldRange { start: 2, end: 2 }, _)));
    let other = wrap_import_buffer_error(3, 4, FieldRange { start: 2, end: 2 }, &DFGHError::IndexError);
    assert!(matches!(other, DFGHError::ImportUnknownError));
    let raw = vec!["[A:B]".to_string(), "[C:D:E]".to_string()];
    let file = wrap_import_file_error(&raw, &inner, 2, &"f.txt".to_string());
    match file {
        DFGHError::ImportError(line, path, excerpt, message) => {
            assert_eq!(line, 2);
            assert_eq!(path, "f.txt");
            assert_eq!(message, "m");
            assert_eq!(excerpt, "\n[A:B]\n[C:D:E]\n^^^    ");
        },
        _ => panic!("expected an import error"),
    }
}

#[test]
fn highlight_marks_the_fields() {
    let raw = vec!["[A:B:C]".to_string()];
    assert_eq!(highlight_error(&raw, 0, FieldRange { start: 1, end: 2 }), "\n[A:B:C]\n  ^^^  ");
    assert_eq!(highlight_error(&raw, 0, FieldRange { start: 9, end: 9 }), "\n[A:B:C]\n^^^^^^^");
}

#[test]
fn tokens_round_trip_through_their_names() {
    for m in Metal::iterator().into_iter().skip(1) {
        assert_eq!(Metal::from(m.name()), m);
    }
    for f in MaterialFlag::iterator() {
        assert_eq!(MaterialFlag::from(f.name()), f);
    }
    for b in BPAppMod::iterator() {
        assert_eq!(BPAppMod::from(b.name()), b);
    }
    for e in Equipment::iterator() {
        assert_eq!(Equipment::from(e.name()), e);
    }
    for s in Shaping::iterator() {
        assert_eq!(Shaping::from(s.name()), s);
    }
    for s in SyndromeClass::iterator() {
        assert_eq!(SyndromeClass::from(s.name()), s);
    }
    for s in State::iterator() {
        assert_eq!(State::from(s.name()), s);
    }
    for p in Profession::iterator() {
        assert_eq!(Profession::from(p.name()), p);
    }
    assert_eq!(Caste::from("FEMALE".to_string()), Caste::Female);
    assert_eq!(Caste::from("QUEEN".to_string()), Caste::Custom("QUEEN".to_string()));
    assert_eq!(State::from("corpse".to_string()), State::Corpse);
    assert_eq!(State::from("(none)".to_string()), State::Custom("(NONE)".to_string()));
    assert_eq!(Profession::from("MINER".to_string()), Profession::Miner);
    assert_eq!(Color::from("dark red".to_string()), Color::Custom("DARK_RED".to_string()));
    assert_eq!(BodyPartType::ByToken("HEAD".to_string()).display(), "BY_TOKEN:HEAD");
    assert_eq!(ItemType::Wield(Equipment::Weapon).equipment_name(), "WEAPON");
}

#[test]
fn conditions_have_names_and_a_list() {
    assert_eq!(Condition::Child.name(), "CONDITION_CHILD");
    assert_eq!(Condition::Custom("X".to_string()).name(), "(custom)");
    assert!(Condition::iterator().len() > 20);
    assert_eq!(Condition::new(), Condition::Default);
}
