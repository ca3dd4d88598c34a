use df_texture_helper::condition::{Condition, Palette};
use df_texture_helper::creature::{Creature, SimpleLayer};
use df_texture_helper::graphics::Graphics;
use df_texture_helper::graphics_file::GraphicsFile;
use df_texture_helper::group::LayerGroup;
use df_texture_helper::items::BodyPartType;
use df_texture_helper::layer::Layer;
use df_texture_helper::layer_set::LayerSet;
use df_texture_helper::shared::CreatureShared;
use df_texture_helper::state::State;
use df_texture_helper::statue::{Plant, Statue, TileGraphic};
use df_texture_helper::tile::{TilePage, TilePageFile};
use df_texture_helper::tokens::Caste;

fn layer(name: &str, conditions: Vec<Condition>) -> Layer {
    Layer {
        name: name.to_string(),
        conditions,
        tile_name: "creatures".to_string(),
        coords: [1, 2],
        large_coords: None,
    }
}

#[test]
fn layer_display_writes_fields_then_conditions() {
    let l = layer("body top", vec![Condition::Child]);
    assert_eq!(l.display(), "\t\t\t[LAYER:BODY_TOP:CREATURES:1:2]\n\t\t\t\t[CONDITION_CHILD]\n");
    let mut large = layer("body", vec![]);
    large.large_coords = Some([1, 1]);
    assert_eq!(large.display(), "\t\t\t[LAYER:BODY:CREATURES:LARGE_IMAGE:1:2:2:3]\n");
}

#[test]
fn layer_group_display_puts_body_part_condition_first() {
    let g = LayerGroup {
        name: "hair".to_string(),
        layers: vec![
            layer("a", vec![]),
            layer("b", vec![Condition::Child, Condition::LGConditionBP(BodyPartType::ByCategory("HEAD".to_string()))]),
        ],
    };
    assert_eq!(
        g.display(),
        "\t\t[LAYER_GROUP] ---HAIR---\n\t\t\t[LG_CONDITION_BP:BY_CATEGORY:HEAD]\n\t\t\t[CONDITION_CHILD]\n\t\t\t[LAYER:A:CREATURES:1:2]\n\n"
    );
}

#[test]
fn palette_display_writes_three_lines() {
    let p = Palette { name: "skinColors".to_string(), file_name: "skin".to_string(), default_index: 4, max_row: 9 };
    assert_eq!(
        p.display(),
        "\t\t[LS_PALETTE:SKIN_COLORS]\n            \t\t\t[LS_PALETTE_FILE:SKIN]\n            \t\t\t[LS_PALETTE_DEFAULT:4]\n\n"
    );
}

#[test]
fn layer_set_display_writes_state_palettes_groups() {
    let set = LayerSet {
        state: State::Corpse,
        layer_groups: vec![LayerGroup { name: "x".to_string(), layers: vec![] }],
        palettes: vec![],
    };
    assert_eq!(set.display(), "\n\t[LAYER_SET:CORPSE]\n\t\t[LAYER_GROUP] ---X---\n\n");
}

#[test]
fn simple_layer_display_formats() {
    let mut s = SimpleLayer::new();
    s.tile_name = "dwarves".to_string();
    s.coords = [3, 4];
    assert_eq!(s.display(), "\t[DEFAULT:DWARVES:3:4:AS_IS]\n");
    s.sub_state = Some(State::Corpse);
    s.large_coords = Some([1, 0]);
    assert_eq!(s.display(), "\t\t[DEFAULT:DWARVES:LARGE_IMAGE:3:4:4:4:AS_IS:CORPSE]\n");
}

#[test]
fn creature_display_writes_header_and_parts() {
    let mut c = Creature::new();
    c.name = "dwarf".to_string();
    assert_eq!(c.display(), "[CREATURE_GRAPHICS:DWARF]\n\n");
    c.caste = Some(Caste::Male);
    assert_eq!(c.display(), "[CREATURE_CASTE_GRAPHICS:DWARF:MALE]\n\n");
}

#[test]
fn statue_display_defaults_to_two_tiles_high() {
    let mut s = Statue::new();
    s.creature_name = "dwarf".to_string();
    s.tile_name = "statues".to_string();
    s.coords = [2, 0];
    assert_eq!(s.display(), "\n[STATUE_CREATURE_GRAPHICS:DWARF]\n\t[DEFAULT:STATUES:2:0:2:1]\n\n");
    s.caste = Some(Caste::Female);
    assert_eq!(s.display(), "[STATUE_CREATURE_CASTE_GRAPHICS:DWARF:FEMALE]\n\t[DEFAULT:STATUES:2:0:2:1]\n");
}

#[test]
fn tile_page_display_writes_four_lines() {
    let t = TilePage {
        name: "creatures".to_string(),
        file_name: "My Tiles".to_string(),
        image_size: [64, 96],
        tile_size: [32, 32],
    };
    assert_eq!(
        t.display(),
        "[TILE_PAGE:CREATURES]\n\t[FILE:images/my_tiles.png]\n\t[TILE_DIM:32:32]\n\t[PAGE_DIM_PIXELS:64:96]\n\n"
    );
}

#[test]
fn tile_page_file_export_repeats_pages() {
    let f = TilePageFile { name: "dwarves".to_string(), tile_pages: vec![] };
    assert_eq!(f.display(), "tile_page_dwarves\n\n[OBJECT:TILE_PAGE]\n\n");
    let (name, contents) = f.export();
    assert_eq!(name, "tile_page_dwarves.txt");
    assert_eq!(contents, "tile_page_dwarves\n\n[OBJECT:TILE_PAGE]\n\n");
    let g = TilePageFile { name: "tile_page_elves".to_string(), tile_pages: vec![TilePage::new()] };
    let (name, contents) = g.export();
    assert_eq!(name, "tile_page_elves.txt");
    let page = TilePage::new().display();
    assert_eq!(contents, format!("tile_page_elves\n\n[OBJECT:TILE_PAGE]\n\n{}{}", page, page));
}

#[test]
fn graphics_file_names_and_exports() {
    let f = GraphicsFile::CreatureFile("graphics_creatures_dwarf".to_string(), vec![]);
    assert_eq!(f.name(), "creatures_dwarf");
    assert_eq!(f.display(), "graphics_creatures_dwarf\n\n[OBJECT:GRAPHICS]\n\n");
    assert_eq!(
        f.export(),
        Some(("graphics_creatures_dwarf.txt".to_string(), "graphics_creatures_dwarf\n\n[OBJECT:GRAPHICS]\n\n".to_string()))
    );
    let s = GraphicsFile::StatueCreatureFile("graphics_creatures_dwarf_statue".to_string(), vec![]);
    assert_eq!(s.display(), "graphics_creatures_dwarf_statue\n\n[OBJECT:GRAPHICS]\n\n");
    assert_eq!(s.export().unwrap().0, "graphics_creatures_dwarf_statue.txt");
    let p = GraphicsFile::PlantFile("graphics_trees".to_string(), vec![Plant::new()]);
    assert_eq!(p.display(), "graphics_trees\n\n[OBJECT:GRAPHICS]\n\n");
    assert_eq!(p.export(), None);
    let t = GraphicsFile::TileGraphicsFile("tools".to_string(), vec![TileGraphic::new()]);
    assert_eq!(t.name(), "tools");
    assert_eq!(GraphicsFile::DefaultFile.name(), "(new)");
    assert_eq!(GraphicsFile::DefaultFile.display(), "");
}

#[test]
fn graphics_export_lists_written_files() {
    let mut g = Graphics::new();
    g.tile_page_files.push(TilePageFile { name: "a".to_string(), tile_pages: vec![] });
    g.graphics_files.push(GraphicsFile::PlantFile("p".to_string(), vec![]));
    g.graphics_files.push(GraphicsFile::CreatureFile("c".to_string(), vec![]));
    let files = g.export();
    let names: Vec<&str> = files.iter().map(|f| f.0.as_str()).collect();
    assert_eq!(names, vec!["tile_page_a.txt", "graphics_creatures_c.txt"]);
}

#[test]
fn plant_and_tile_graphic_are_not_written_yet() {
    assert_eq!(Plant::new().display(), "");
    assert_eq!(TileGraphic::new().display(), "");
    let (p, e) = Plant::read(vec![vec!["PLANT_GRAPHICS".to_string()]]);
    assert!(p.is_new() && e.is_empty());
}

#[test]
fn creature_shared_update_sorts_and_dedups() {
    let mut c = Creature::new();
    let colors = Condition::TissueMayHaveColor(vec![
        df_texture_helper::items::Color::Custom("RED".to_string()),
        df_texture_helper::items::Color::Custom("BLUE".to_string()),
        df_texture_helper::items::Color::Custom("RED".to_string()),
    ]);
    let custom_b = Condition::Custom("B_THING".to_string());
    let custom_a = Condition::Custom("A_THING".to_string());
    let part = Condition::RandomPartIndex("EYE".to_string(), 1, 2);
    c.layer_sets.push(LayerSet {
        state: State::Custom("GLOWING".to_string()),
        layer_groups: vec![LayerGroup {
            name: "g".to_string(),
            layers: vec![layer("l", vec![colors, custom_b, custom_a.clone(), part.clone(), part])],
        }],
        palettes: vec![
            Palette { name: "Z".to_string(), file_name: "1".to_string(), default_index: 0, max_row: 0 },
            Palette { name: "A".to_string(), file_name: "2".to_string(), default_index: 0, max_row: 0 },
            Palette { name: "Z".to_string(), file_name: "3".to_string(), default_index: 0, max_row: 0 },
        ],
    });
    let mut shared = CreatureShared::new();
    shared.update(c);
    let colors: Vec<String> = shared.colors.iter().map(|c| c.name()).collect();
    assert_eq!(colors, vec!["BLUE", "RED"]);
    let palettes: Vec<(String, String)> = shared.palettes.iter().map(|p| (p.name.clone(), p.file_name.clone())).collect();
    assert_eq!(palettes, vec![("A".to_string(), "2".to_string()), ("Z".to_string(), "1".to_string())]);
    assert_eq!(shared.conditions, vec![custom_a, Condition::Custom("B_THING".to_string())]);
    assert_eq!(shared.random_part_groups, vec![("EYE".to_string(), 2)]);
    assert_eq!(shared.states, vec![State::Custom("GLOWING".to_string())]);
    let mut total = CreatureShared::new();
    total.append(&shared);
    total.append(&shared);
    assert_eq!(total.colors.len(), 4);
}

#[test]
fn update_shared_gives_each_creature_what_it_names() {
    let mut g = Graphics::new();
    let mut c = Creature::new();
    c.caste = Some(Caste::Custom("QUEEN".to_string()));
    g.graphics_files.push(GraphicsFile::CreatureFile("f".to_string(), vec![c]));
    g.update_shared();
    assert_eq!(g.shared.creature_shared.castes, vec![Caste::Custom("QUEEN".to_string())]);
    match &g.graphics_files[0] {
        GraphicsFile::CreatureFile(_, cs) => assert_eq!(cs[0].creature_shared.castes.len(), 1),
        _ => panic!("expected a creature file"),
    }
}

#[test]
fn gathered_states_are_sorted_by_name() {
    let mut c = Creature::new();
    let mut first = SimpleLayer::new();
    first.state = State::Custom("ZOMBIE_FORM".to_string());
    first.sub_state = Some(State::Custom("ANGRY".to_string()));
    let mut second = SimpleLayer::new();
    second.state = State::Custom("ANGRY".to_string());
    c.simple_layers = vec![first, second];
    let mut shared = CreatureShared::new();
    shared.update(c);
    assert_eq!(
        shared.states,
        vec![State::Custom("ANGRY".to_string()), State::Custom("ZOMBIE_FORM".to_string())]
    );
}
