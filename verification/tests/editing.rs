use df_texture_helper::condition::Condition;
use df_texture_helper::creature::{Creature, SimpleLayer};
use df_texture_helper::editor::{Action, ContextData, DFGraphicsHelper, GraphicsIndices, MainWindow, PreviewZoom};
use df_texture_helper::error::DFGHError;
use df_texture_helper::graphics_file::GraphicsFile;
use df_texture_helper::group::LayerGroup;
use df_texture_helper::layer::Layer;
use df_texture_helper::layer_set::LayerSet;
use df_texture_helper::tile::{TilePage, TilePageFile};

fn named_tile_page_file(name: &str) -> TilePageFile {
    TilePageFile { name: name.to_string(), tile_pages: vec![] }
}

fn names(h: &DFGraphicsHelper) -> Vec<String> {
    h.loaded_graphics.tile_page_files.iter().map(|f| f.name.clone()).collect()
}

#[test]
fn indices_start_at_zero_and_come_from_arrays() {
    let ix = GraphicsIndices::new();
    assert_eq!(ix, GraphicsIndices::from([0; 8]));
    let ix = GraphicsIndices::from([1, 2, 3, 4, 5, 6, 7, 8]);
    assert_eq!(ix.tile_page_file_index, 1);
    assert_eq!(ix.layer_index, 7);
    assert_eq!(ix.simple_layer_index, 8);
}

#[test]
fn insert_places_at_selection_or_end() {
    let mut h = DFGraphicsHelper::new();
    assert!(h.insert(ContextData::TilePageFile(named_tile_page_file("a"))).is_ok());
    assert!(h.insert(ContextData::TilePageFile(named_tile_page_file("b"))).is_ok());
    assert_eq!(names(&h), vec!["b", "a"]);
    h.indices.tile_page_file_index = 5;
    assert!(h.insert(ContextData::TilePageFile(named_tile_page_file("c"))).is_ok());
    assert_eq!(names(&h), vec!["b", "a", "c"]);
    assert_eq!(h.undo_buffer.len(), 3);
}

#[test]
fn undo_after_insert_restores_files() {
    let mut h = DFGraphicsHelper::new();
    h.insert(ContextData::TilePageFile(named_tile_page_file("a"))).unwrap();
    h.insert(ContextData::TilePageFile(named_tile_page_file("b"))).unwrap();
    h.undo();
    assert_eq!(names(&h), vec!["a"]);
    assert_eq!(h.undo_buffer.len(), 1);
    assert_eq!(h.redo_buffer.len(), 1);
    h.redo();
    assert_eq!(names(&h), vec!["a"]);
    assert_eq!(h.undo_buffer.len(), 2);
}

#[test]
fn undo_without_history_changes_nothing() {
    let mut h = DFGraphicsHelper::new();
    h.undo();
    h.redo();
    assert!(h.loaded_graphics.tile_page_files.is_empty());
    assert!(h.undo_buffer.is_empty() && h.redo_buffer.is_empty());
}

#[test]
fn delete_after_insert_gives_files_back() {
    let mut h = DFGraphicsHelper::new();
    h.insert(ContextData::TilePageFile(named_tile_page_file("a"))).unwrap();
    h.insert(ContextData::TilePageFile(named_tile_page_file("b"))).unwrap();
    h.delete(ContextData::TilePageFile(TilePageFile::new())).unwrap();
    assert_eq!(names(&h), vec!["a"]);
    assert_eq!(h.main_window, MainWindow::TilePageFileDefaultMenu);
}

#[test]
fn delete_moves_selection_back() {
    let mut h = DFGraphicsHelper::new();
    for n in ["a", "b", "c"] {
        h.insert(ContextData::TilePageFile(named_tile_page_file(n))).unwrap();
    }
    h.indices.tile_page_file_index = 2;
    h.delete(ContextData::TilePageFile(TilePageFile::new())).unwrap();
    assert_eq!(names(&h), vec!["c", "b"]);
    assert_eq!(h.indices.tile_page_file_index, 1);
    assert_eq!(h.main_window, MainWindow::DefaultMenu);
}

#[test]
fn missing_level_is_an_index_error() {
    let mut h = DFGraphicsHelper::new();
    let r = h.insert(ContextData::TilePage(TilePage::new()));
    assert!(matches!(r, Err(DFGHError::IndexError)));
    assert_eq!(h.undo_buffer.len(), 1);
    let r = h.delete(ContextData::Layer(Layer::new()));
    assert!(matches!(r, Err(DFGHError::IndexError)));
}

#[test]
fn nested_insert_and_delete_reach_layers() {
    let mut h = DFGraphicsHelper::new();
    h.insert(ContextData::GraphicsFile(GraphicsFile::CreatureFile("f".to_string(), vec![]))).unwrap();
    h.insert(ContextData::Creature(Creature::new())).unwrap();
    h.insert(ContextData::LayerSet(LayerSet::new())).unwrap();
    h.insert(ContextData::LayerGroup(LayerGroup::new())).unwrap();
    h.insert(ContextData::Layer(Layer::new())).unwrap();
    h.insert(ContextData::Condition(Condition::Child)).unwrap();
    h.insert(ContextData::SimpleLayer(SimpleLayer::new())).unwrap();
    let layer_conditions = match &h.loaded_graphics.graphics_files[0] {
        GraphicsFile::CreatureFile(_, cs) => {
            assert_eq!(cs[0].simple_layers.len(), 1);
            cs[0].layer_sets[0].layer_groups[0].layers[0].conditions.clone()
        },
        _ => panic!("expected a creature file"),
    };
    assert_eq!(layer_conditions, vec![Condition::Default, Condition::Child]);
    h.delete(ContextData::Condition(Condition::Default)).unwrap();
    match &h.loaded_graphics.graphics_files[0] {
        GraphicsFile::CreatureFile(_, cs) => {
            assert!(cs[0].layer_sets[0].layer_groups[0].layers[0].conditions.is_empty())
        },
        _ => panic!("expected a creature file"),
    }
    h.delete(ContextData::Layer(Layer::new())).unwrap();
    assert_eq!(h.main_window, MainWindow::LayerGroupMenu);
}

#[test]
fn copy_then_paste_inserts_the_copy() {
    let mut h = DFGraphicsHelper::new();
    h.copy(ContextData::TilePageFile(named_tile_page_file("x")));
    h.paste().unwrap();
    h.paste().unwrap();
    assert_eq!(names(&h), vec!["x", "x"]);
}

#[test]
fn cut_saves_twice_and_removes() {
    let mut h = DFGraphicsHelper::new();
    h.insert(ContextData::TilePageFile(named_tile_page_file("a"))).unwrap();
    h.cut(ContextData::TilePageFile(TilePageFile::new())).unwrap();
    assert!(names(&h).is_empty());
    assert_eq!(h.undo_buffer.len(), 3);
    assert!(matches!(&h.copied, ContextData::TilePageFile(f) if f.name == "(new)"));
}

#[test]
fn handle_records_errors_and_passes_on_outside_actions() {
    let mut h = DFGraphicsHelper::new();
    let rest = h.handle(Action::Insert(ContextData::TilePage(TilePage::new())));
    assert!(matches!(rest, Action::Idle));
    assert_eq!(h.errors.len(), 1);
    assert!(matches!(h.errors[0], DFGHError::IndexError));
    let rest = h.handle(Action::Zoom(PreviewZoom::All));
    assert!(matches!(rest, Action::Zoom(PreviewZoom::All)));
    let rest = h.handle(Action::Duplicate(ContextData::TilePageFile(named_tile_page_file("d"))));
    assert!(matches!(rest, Action::Idle));
    assert_eq!(names(&h), vec!["d"]);
}

#[test]
fn windows_offer_fresh_data() {
    assert!(matches!(ContextData::for_window(MainWindow::LayerMenu), ContextData::Layer(l) if l.is_new()));
    assert!(matches!(ContextData::for_window(MainWindow::DefaultMenu), ContextData::GraphicsFile(GraphicsFile::DefaultFile)));
}
