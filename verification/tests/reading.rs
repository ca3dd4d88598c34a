use df_texture_helper::condition::Condition;
use df_texture_helper::creature::{Creature, SimpleLayer};
use df_texture_helper::error::{DFGHError, FieldRange};
use df_texture_helper::graphics::{Graphics, RawFileKind};
use df_texture_helper::graphics_file::GraphicsFile;
use df_texture_helper::group::LayerGroup;
use df_texture_helper::items::BodyPartType;
use df_texture_helper::layer::Layer;
use df_texture_helper::layer_set::{name_for_group, LayerSet};
use df_texture_helper::lines::ImageSize;
use df_texture_helper::state::State;
use df_texture_helper::statue::Statue;
use df_texture_helper::tile::{TilePage, TilePageFile};
use df_texture_helper::tokens::Caste;

fn lines(text: &[&str]) -> Vec<Vec<String>> {
    text.iter().map(|l| Graphics::read_brackets(&l.to_string())).collect()
}

fn raw(text: &[&str]) -> Vec<String> {
    text.iter().map(|l| l.to_string()).collect()
}

#[test]
fn layer_reads_fields_and_conditions() {
    let buffer = lines(&["[LAYER:BODY:CREATURES:1:2]", "[CONDITION_CHILD]", "[CONDITION_HAUL_COUNT_MIN:3]"]);
    let (layer, errors) = Layer::read(buffer);
    assert!(errors.is_empty());
    assert_eq!(layer.name, "BODY");
    assert_eq!(layer.tile_name, "CREATURES");
    assert_eq!(layer.coords, [1, 2]);
    assert_eq!(layer.large_coords, None);
    assert_eq!(layer.conditions, vec![Condition::Child, Condition::HaulCountMin(3)]);
}

#[test]
fn layer_reads_large_image_as_offsets() {
    let buffer = lines(&["[LAYER:BODY:CREATURES:LARGE_IMAGE:1:2:3:4]"]);
    let (layer, errors) = Layer::read(buffer);
    assert!(errors.is_empty());
    assert_eq!(layer.coords, [1, 2]);
    assert_eq!(layer.large_coords, Some([2, 2]));
}

#[test]
fn layer_large_image_after_as_is_reads_fixed_fields() {
    let buffer = lines(&["[LAYER:BODY:CREATURES:AS_IS:LARGE_IMAGE:1:2:3:4]"]);
    let (layer, errors) = Layer::read(buffer);
    assert_eq!(layer.coords, [0, 1]);
    assert_eq!(layer.large_coords, Some([2, 2]));
    assert_eq!(errors.len(), 1);
    assert!(matches!(&errors[0], DFGHError::ImportBufferError(0, 1, FieldRange { start: 4, end: 4 }, m)
        if m == "Expected integer in the marked field."));
}

#[test]
fn layer_short_line_is_an_index_error() {
    let buffer = lines(&["[LAYER:BODY:CREATURES]"]);
    let (layer, errors) = Layer::read(buffer);
    assert!(layer.is_new());
    assert_eq!(errors.len(), 1);
    assert!(matches!(&errors[0], DFGHError::ImportBufferError(1, 1, FieldRange { start: 0, end: 3 }, m)
        if m == "Expected 5 fields, found 3"));
}

#[test]
fn layer_parse_error_reads_zero() {
    let buffer = lines(&["[LAYER:BODY:CREATURES:x:2]"]);
    let (layer, errors) = Layer::read(buffer);
    assert_eq!(layer.coords, [0, 2]);
    assert_eq!(errors.len(), 1);
    assert!(matches!(&errors[0], DFGHError::ImportBufferError(0, 1, FieldRange { start: 3, end: 3 }, _)));
}

#[test]
fn group_splits_layers_and_drops_fresh_ones() {
    let buffer = lines(&[
        "[LAYER_GROUP]",
        "[LAYER:BODY:CREATURES:0:0]",
        "[LAYER:HEAD:CREATURES:1:0]",
        "[CONDITION_NOT_CHILD]",
    ]);
    let (group, errors) = LayerGroup::read(buffer);
    assert!(errors.is_empty());
    assert_eq!(group.name, "(new)");
    assert_eq!(group.layers.len(), 2);
    assert_eq!(group.layers[0].name, "BODY");
    assert_eq!(group.layers[1].name, "HEAD");
    assert_eq!(group.layers[1].conditions, vec![Condition::NotChild]);
}

#[test]
fn group_error_lines_are_relative_to_the_group() {
    let buffer = lines(&["[LAYER:BODY:CREATURES:0:0]", "[LAYER:HEAD:CREATURES]"]);
    let (_group, errors) = LayerGroup::read(buffer);
    assert_eq!(errors.len(), 1);
    // The short layer line is the only line of the last block, which is flushed just past the end.
    assert!(matches!(&errors[0], DFGHError::ImportBufferError(3, 2, FieldRange { start: 0, end: 3 }, _)));
}

#[test]
fn lg_condition_bp_reads_whole_line_selector() {
    let buffer = lines(&["[LAYER:BODY:CREATURES:0:0]", "[LG_CONDITION_BP:BY_CATEGORY:HEAD]"]);
    let (group, errors) = LayerGroup::read(buffer);
    assert!(errors.is_empty());
    assert_eq!(group.layers.len(), 2);
    assert_eq!(group.layers[1].name, "");
    assert_eq!(group.layers[1].conditions, vec![Condition::Default, Condition::LGConditionBP(BodyPartType::Unset)]);
}

#[test]
fn layer_set_reads_state_palettes_and_groups() {
    let buffer = lines(&[
        "[LAYER_SET:DEFAULT]",
        "[LS_PALETTE:SKIN]",
        "[LS_PALETTE_FILE:skin_colors]",
        "[LS_PALETTE_DEFAULT:3]",
        "[LAYER_GROUP]",
        "[LAYER:BODY_UPPER:CREATURES:0:0]",
        "[LAYER:BODY_LOWER:CREATURES:1:0]",
        "[END_LAYER_GROUP]",
    ]);
    let images = vec![ImageSize { file_name: "skin_colors".to_string(), width: 10, height: 20 }];
    let (set, errors) = LayerSet::read(buffer, &images);
    assert!(errors.is_empty());
    assert_eq!(set.state, State::Default);
    assert_eq!(set.palettes.len(), 1);
    assert_eq!(set.palettes[0].name, "SKIN");
    assert_eq!(set.palettes[0].file_name, "skin_colors");
    assert_eq!(set.palettes[0].max_row, 19);
    assert_eq!(set.palettes[0].default_index, 3);
    assert_eq!(set.layer_groups.len(), 1);
    assert_eq!(set.layer_groups[0].layers.len(), 2);
    assert_eq!(set.layer_groups[0].name, "BODY");
}

#[test]
fn layer_set_palette_without_image_keeps_row() {
    let buffer = lines(&["[LAYER_SET:CORPSE]", "[LS_PALETTE:SKIN]", "[LS_PALETTE_FILE:missing]"]);
    let (set, errors) = LayerSet::read(buffer, &Vec::new());
    assert!(errors.is_empty());
    assert_eq!(set.state, State::Corpse);
    assert_eq!(set.palettes[0].max_row, 0);
    assert_eq!(set.palettes[0].file_name, "missing");
}

#[test]
fn layer_set_short_palette_line_is_an_index_error() {
    let buffer = lines(&["[LAYER_SET:DEFAULT]", "[LS_PALETTE]"]);
    let (_set, errors) = LayerSet::read(buffer, &Vec::new());
    assert_eq!(errors.len(), 1);
    assert!(matches!(&errors[0], DFGHError::ImportBufferError(1, 2, FieldRange { start: 0, end: 1 }, m)
        if m == "Expected 2 fields, found 1"));
}

#[test]
fn group_names_come_from_shared_words() {
    let names = vec!["HAIR_FRONT".to_string(), "HAIR_BACK".to_string()];
    assert_eq!(name_for_group(&"DEFAULT".to_string(), &names), "HAIR");
    let same = vec!["BODY".to_string(), "BODY".to_string()];
    assert_eq!(name_for_group(&"DEFAULT".to_string(), &same), "BODY");
    let none = vec!["EYE".to_string(), "NOSE".to_string()];
    assert_eq!(name_for_group(&"DEFAULT".to_string(), &none), "Default");
    assert_eq!(name_for_group(&"LIGHT_VERMIN".to_string(), &Vec::new()), "Light Vermin");
}

#[test]
fn simple_layer_reads_state_and_sub_state() {
    let (sl, errors) = SimpleLayer::read(lines(&["[DEFAULT:CREATURES:3:4:AS_IS:CORPSE]"]));
    assert!(errors.is_empty());
    assert_eq!(sl.state, State::Default);
    assert_eq!(sl.tile_name, "CREATURES");
    assert_eq!(sl.coords, [3, 4]);
    assert_eq!(sl.sub_state, Some(State::Corpse));
    let (large, errors) = SimpleLayer::read(lines(&["[CHILD:CREATURES:LARGE_IMAGE:1:1:2:3:AS_IS]"]));
    assert!(errors.is_empty());
    assert_eq!(large.state, State::Child);
    assert_eq!(large.coords, [1, 1]);
    assert_eq!(large.large_coords, Some([1, 2]));
    let (bad, errors) = SimpleLayer::read(lines(&["[DEFAULT:CREATURES:LARGE_IMAGE]"]));
    assert!(bad.is_new());
    assert!(matches!(&errors[0], DFGHError::ImportBufferError(0, 1, FieldRange { start: 0, end: 3 }, m)
        if m == "Expected 7 fields, found 3"));
}

#[test]
fn creature_reads_simple_layers_and_layer_sets() {
    let buffer = lines(&[
        "[CREATURE_CASTE_GRAPHICS:DWARF:FEMALE]",
        "[DEFAULT:DWARVES:0:0:AS_IS]",
        "[LAYER_SET:CORPSE]",
        "[LAYER_GROUP]",
        "[LAYER:BODY:DWARVES:0:1]",
    ]);
    let (c, errors) = Creature::read(buffer, &Vec::new());
    assert!(errors.is_empty());
    assert_eq!(c.name, "DWARF");
    assert_eq!(c.caste, Some(Caste::Female));
    assert_eq!(c.simple_layers.len(), 1);
    assert_eq!(c.layer_sets.len(), 1);
    assert_eq!(c.layer_sets[0].state, State::Corpse);
    assert_eq!(c.layer_sets[0].layer_groups[0].name, "BODY");
}

#[test]
fn statue_reads_up_to_its_tile_line() {
    let buffer = lines(&[
        "[STATUE_CREATURE_GRAPHICS:DWARF]",
        "[DEFAULT:STATUES:2:0:2:1]",
        "[CHILD:STATUES:9:9:9:9]",
    ]);
    let (s, errors) = Statue::read(buffer);
    assert!(errors.is_empty());
    assert_eq!(s.creature_name, "DWARF");
    assert_eq!(s.state, State::Default);
    assert_eq!(s.tile_name, "STATUES");
    assert_eq!(s.coords, [2, 0]);
    assert_eq!(s.large_coords, Some([0, 1]));
}

#[test]
fn tile_page_reads_file_and_sizes() {
    let buffer = lines(&[
        "[TILE_PAGE:CREATURES]",
        "[FILE:images/creatures.png]",
        "[TILE_DIM:32:32]",
        "[PAGE_DIM_PIXELS:64:96]",
        "[SOMETHING:ELSE]",
    ]);
    let (tp, errors) = TilePage::read(buffer.clone(), &Vec::new());
    assert_eq!(tp.name, "CREATURES");
    assert_eq!(tp.file_name, "creatures");
    assert_eq!(tp.tile_size, [32, 32]);
    assert_eq!(tp.image_size, [64, 96]);
    assert_eq!(errors.len(), 1);
    assert!(matches!(&errors[0], DFGHError::ImportBufferError(4, 5, FieldRange { start: 0, end: 1 }, m)
        if m == "Unknown import error."));
    let images = vec![ImageSize { file_name: "creatures".to_string(), width: 128, height: 256 }];
    let (tp, _) = TilePage::read(buffer, &images);
    assert_eq!(tp.image_size, [128, 256]);
}

#[test]
fn tile_page_file_takes_its_name_from_the_file() {
    let text = ["[OBJECT:TILE_PAGE]", "[TILE_PAGE:A]", "[FILE:images/a.png]", "[TILE_PAGE:B]", "[FILE:images/b.png]"];
    let (f, errors) = TilePageFile::read(
        lines(&text),
        raw(&text),
        &"graphics/tile_page_x.txt".to_string(),
        &Some("tile_page_x.txt".to_string()),
        &Vec::new(),
    );
    assert!(errors.is_empty());
    assert_eq!(f.name, "tile_page_x");
    assert_eq!(f.tile_pages.len(), 2);
    assert_eq!(f.tile_pages[1].file_name, "b");
    let (g, _) = TilePageFile::read(Vec::new(), Vec::new(), &String::new(), &None, &Vec::new());
    assert_eq!(g.name, "no_name");
}

#[test]
fn graphics_file_reads_creatures_and_wraps_errors() {
    let text = [
        "graphics_creatures_test",
        "[OBJECT:GRAPHICS]",
        "[CREATURE_GRAPHICS:DWARF]",
        "[DEFAULT:DWARVES:0:x:AS_IS]",
        "[CREATURE_GRAPHICS:ELF]",
        "[DEFAULT:ELVES:1:1:AS_IS]",
    ];
    let (f, errors) = GraphicsFile::read(
        lines(&text),
        raw(&text),
        &"graphics/graphics_creatures_test.txt".to_string(),
        &Some("graphics_creatures_test.txt".to_string()),
        &Vec::new(),
    );
    match &f {
        GraphicsFile::CreatureFile(name, creatures) => {
            assert_eq!(name, "graphics_creatures_test");
            assert_eq!(creatures.len(), 2);
            assert_eq!(creatures[0].name, "DWARF");
            assert_eq!(creatures[1].name, "ELF");
        },
        _ => panic!("expected a creature file"),
    }
    assert_eq!(errors.len(), 1);
    assert!(matches!(&errors[0], DFGHError::ImportError(5, p, _, m)
        if p == "graphics/graphics_creatures_test.txt" && m == "Expected integer in the marked field."));
    assert_eq!(f.name(), "creatures_test");
}

#[test]
fn file_kind_follows_the_object_line() {
    assert_eq!(Graphics::file_kind(&lines(&["x", "[OBJECT:TILE_PAGE]"])), RawFileKind::TilePageFile);
    assert_eq!(Graphics::file_kind(&lines(&["[OBJECT:GRAPHICS]"])), RawFileKind::GraphicsFile);
    assert_eq!(Graphics::file_kind(&lines(&["[OBJECT:CREATURE]", "[OBJECT:GRAPHICS]"])), RawFileKind::Other);
    assert_eq!(Graphics::file_kind(&lines(&["nothing"])), RawFileKind::Other);
}

#[test]
fn read_file_adds_a_graphics_file() {
    let mut g = Graphics::new();
    let text = ["[OBJECT:GRAPHICS]", "[CREATURE_GRAPHICS:DWARF]", "[DEFAULT:DWARVES:0:0:AS_IS]"];
    assert!(Graphics::file_readable(&lines(&text)));
    let errors = g.read_file(raw(&text), &"p".to_string(), &Some("graphics_dwarf.txt".to_string()), &Vec::new());
    assert!(errors.is_empty());
    assert_eq!(g.graphics_files.len(), 1);
    assert_eq!(g.tile_page_files.len(), 0);
}

#[test]
fn unreadable_inputs_are_detected() {
    assert!(!TilePageFile::readable(&lines(&["[FILE:images.png]"])));
    assert!(TilePageFile::readable(&lines(&["[FILE:images/a.png]"])));
    let statue_gap = lines(&["[STATUE_CREATURE_GRAPHICS:DWARF]", "", "[DEFAULT:STATUES:0:0:AS_IS:0:1]"]);
    assert!(!GraphicsFile::readable(&statue_gap));
    let statue_ok = lines(&["[STATUE_CREATURE_GRAPHICS:DWARF]", "[DEFAULT:STATUES:0:0:AS_IS:0:1]", ""]);
    assert!(GraphicsFile::readable(&statue_ok));
}

#[test]
fn checked_readers_refuse_unreadable_input() {
    let gap = lines(&["[STATUE_CREATURE_GRAPHICS:DWARF]", "", "[DEFAULT:STATUES:0:0:0:1]"]);
    assert!(Statue::try_read(gap.clone()).is_none());
    let fine = lines(&["[STATUE_CREATURE_GRAPHICS:DWARF]", "[DEFAULT:STATUES:0:0:0:1]"]);
    let (s, errors) = Statue::try_read(fine).unwrap();
    assert_eq!(s.creature_name, "DWARF");
    assert!(errors.is_empty());
    assert!(GraphicsFile::try_read(gap, Vec::new(), &String::new(), &None, &Vec::new()).is_none());
    let mut g = Graphics::new();
    let text = ["[OBJECT:TILE_PAGE]", "[TILE_PAGE:X]", "[FILE:images.png]"];
    assert!(g.try_read_file(raw(&text), &"p".to_string(), &None, &Vec::new()).is_none());
    assert!(g.tile_page_files.is_empty());
    let text = ["[OBJECT:TILE_PAGE]", "[TILE_PAGE:X]", "[FILE:images/x.png]"];
    assert!(g.try_read_file(raw(&text), &"p".to_string(), &None, &Vec::new()).unwrap().is_empty());
    assert_eq!(g.tile_page_files[0].tile_pages[0].file_name, "x");
}

#[test]
fn image_names_list_palette_files_and_tile_images() {
    let names = Graphics::image_names(&lines(&[
        "[LS_PALETTE_FILE:skin]",
        "[LS_PALETTE_FILE:]",
        "[FILE:images/creatures.png]",
        "[FILE:images.png]",
        "[TILE_PAGE:X]",
    ]));
    assert_eq!(names, vec!["skin", "creatures"]);
}

#[test]
fn tile_page_file_errors_name_the_file() {
    let text = ["[OBJECT:TILE_PAGE]", "[TILE_PAGE:A]", "[TILE_DIM:x:32]"];
    let (f, errors) = TilePageFile::read(
        lines(&text),
        raw(&text),
        &"graphics/tile_page_a.txt".to_string(),
        &Some("tile_page_a.txt".to_string()),
        &Vec::new(),
    );
    assert_eq!(f.tile_pages.len(), 1);
    assert_eq!(f.tile_pages[0].tile_size, [0, 32]);
    assert_eq!(errors.len(), 1);
    assert!(matches!(&errors[0], DFGHError::ImportError(_, p, _, m)
        if p == "graphics/tile_page_a.txt" && m == "Expected integer in the marked field."));
}
