//! The editor's state and its edits: insert, delete, copy, cut, paste, undo and redo.
use vstd::prelude::*;
use crate::condition::{Condition, SpecCondition};
use crate::copy::{copy_graphics_files, copy_tile_page_files};
use crate::creature::{Creature, SimpleLayer, SpecCreature, SpecSimpleLayer};
use crate::error::DFGHError;
use crate::graphics::{spec_graphics_new, Graphics, SpecGraphics};
use crate::graphics_file::{GraphicsFile, SpecGraphicsFile};
use crate::group::{LayerGroup, SpecLayerGroup};
use crate::layer::{Layer, SpecLayer};
use crate::layer_set::{LayerSet, SpecLayerSet};
use crate::statue::{Plant, SpecStatue, Statue, TileGraphic};
use crate::tile::{SpecTilePageFile, TilePage, TilePageFile};

verus! {

/// The menu the editor shows.
#[derive(Clone, Copy, Debug, PartialEq, Eq, Structural)]
pub enum MainWindow {
    DefaultMenu,
    TilePageFileDefaultMenu,
    TilePageFileMenu,
    TilePageMenu,
    GraphicsFileDefaultMenu,
    GraphicsFileMenu,
    CreatureMenu,
    LayerGroupMenu,
    LayerSetMenu,
    LayerMenu,
    SimpleLayerMenu,
    StatueMenu,
    PlantMenu,
    TileGraphicMenu,
}

/// Where the editor's selection is, level by level.
#[derive(Clone, Copy, Debug, PartialEq, Eq, Structural)]
pub struct GraphicsIndices {
    pub tile_page_file_index: usize,
    pub tile_page_index: usize,
    pub graphics_file_index: usize,
    pub graphics_index: usize,
    pub layer_set_index: usize,
    pub layer_group_index: usize,
    pub layer_index: usize,
    pub simple_layer_index: usize,
}

impl GraphicsIndices {
    /// Every index at the first element.
    pub fn new() -> (r: GraphicsIndices)
        ensures
            r == (GraphicsIndices {
                tile_page_file_index: 0,
                tile_page_index: 0,
                graphics_file_index: 0,
                graphics_index: 0,
                layer_set_index: 0,
                layer_group_index: 0,
                layer_index: 0,
                simple_layer_index: 0,
            }),
    {
        GraphicsIndices {
            tile_page_file_index: 0,
            tile_page_index: 0,
            graphics_file_index: 0,
            graphics_index: 0,
            layer_set_index: 0,
            layer_group_index: 0,
            layer_index: 0,
            simple_layer_index: 0,
        }
    }

    /// The indices given in level order: tile page file, tile page, graphics
    /// file, graphics entry, layer set, layer group, layer, simple layer.
    pub fn from(index_array: [usize; 8]) -> (r: GraphicsIndices)
        ensures
            r == (GraphicsIndices {
                tile_page_file_index: index_array[0],
                tile_page_index: index_array[1],
                graphics_file_index: index_array[2],
                graphics_index: index_array[3],
                layer_set_index: index_array[4],
                layer_group_index: index_array[5],
                layer_index: index_array[6],
                simple_layer_index: index_array[7],
            }),
    {
        GraphicsIndices {
            tile_page_file_index: index_array[0],
            tile_page_index: index_array[1],
            graphics_file_index: index_array[2],
            graphics_index: index_array[3],
            layer_set_index: index_array[4],
            layer_group_index: index_array[5],
            layer_index: index_array[6],
            simple_layer_index: index_array[7],
        }
    }
}

/// What an edit works on: an element of one of the levels, or nothing.
#[derive(Clone, Debug)]
pub enum ContextData {
    Empty,
    TilePageFile(TilePageFile),
    TilePage(TilePage),
    GraphicsFile(GraphicsFile),
    Creature(Creature),
    LayerSet(LayerSet),
    LayerGroup(LayerGroup),
    Layer(Layer),
    SimpleLayer(SimpleLayer),
    Condition(Condition),
    Statue(Statue),
    Plant(Plant),
    TileGraphic(TileGraphic),
}

/// The view of [`ContextData`].
pub enum SpecContextData {
    Empty,
    TilePageFile(SpecTilePageFile),
    TilePage(TilePage<Seq<char>>),
    GraphicsFile(SpecGraphicsFile),
    Creature(SpecCreature),
    LayerSet(SpecLayerSet),
    LayerGroup(SpecLayerGroup),
    Layer(SpecLayer),
    SimpleLayer(SpecSimpleLayer),
    Condition(SpecCondition),
    Statue(SpecStatue),
    Plant(Plant<Seq<char>>),
    TileGraphic(TileGraphic<Seq<char>>),
}

impl View for ContextData {
    type V = SpecContextData;

    open spec fn view(&self) -> SpecContextData {
        match self {
            ContextData::Empty => SpecContextData::Empty,
            ContextData::TilePageFile(x) => SpecContextData::TilePageFile(x@),
            ContextData::TilePage(x) => SpecContextData::TilePage(x@),
            ContextData::GraphicsFile(x) => SpecContextData::GraphicsFile(x@),
            ContextData::Creature(x) => SpecContextData::Creature(x@),
            ContextData::LayerSet(x) => SpecContextData::LayerSet(x@),
            ContextData::LayerGroup(x) => SpecContextData::LayerGroup(x@),
            ContextData::Layer(x) => SpecContextData::Layer(x@),
            ContextData::SimpleLayer(x) => SpecContextData::SimpleLayer(x@),
            ContextData::Condition(x) => SpecContextData::Condition(x@),
            ContextData::Statue(x) => SpecContextData::Statue(x@),
            ContextData::Plant(x) => SpecContextData::Plant(x@),
            ContextData::TileGraphic(x) => SpecContextData::TileGraphic(x@),
        }
    }
}

impl ContextData {
    /// A copy of this data.
    pub fn duplicate(&self) -> (r: Self)
        ensures
            r@ == self@,
    {
        match self {
            ContextData::Empty => ContextData::Empty,
            ContextData::TilePageFile(x) => ContextData::TilePageFile(x.duplicate()),
            ContextData::TilePage(x) => ContextData::TilePage(x.duplicate()),
            ContextData::GraphicsFile(x) => ContextData::GraphicsFile(x.duplicate()),
            ContextData::Creature(x) => ContextData::Creature(x.duplicate()),
            ContextData::LayerSet(x) => ContextData::LayerSet(x.duplicate()),
            ContextData::LayerGroup(x) => ContextData::LayerGroup(x.duplicate()),
            ContextData::Layer(x) => ContextData::Layer(x.duplicate()),
            ContextData::SimpleLayer(x) => ContextData::SimpleLayer(x.duplicate()),
            ContextData::Condition(x) => ContextData::Condition(x.duplicate()),
            ContextData::Statue(x) => ContextData::Statue(x.duplicate()),
            ContextData::Plant(x) => ContextData::Plant(x.duplicate()),
            ContextData::TileGraphic(x) => ContextData::TileGraphic(x.duplicate()),
        }
    }

    /// The fresh data that the menu `main_window` offers to insert.
    pub fn for_window(main_window: MainWindow) -> (r: ContextData)
        ensures
            r@ == data_for_window(main_window),
    {
        match main_window {
            MainWindow::DefaultMenu => ContextData::GraphicsFile(GraphicsFile::new()),
            MainWindow::TilePageFileDefaultMenu => ContextData::TilePageFile(TilePageFile::new()),
            MainWindow::TilePageFileMenu => ContextData::TilePageFile(TilePageFile::new()),
            MainWindow::TilePageMenu => ContextData::TilePage(TilePage::new()),
            MainWindow::GraphicsFileDefaultMenu => ContextData::Creature(Creature::new()),
            MainWindow::GraphicsFileMenu => ContextData::GraphicsFile(GraphicsFile::new()),
            MainWindow::CreatureMenu => ContextData::Creature(Creature::new()),
            MainWindow::LayerGroupMenu => ContextData::LayerGroup(LayerGroup::new()),
            MainWindow::LayerSetMenu => ContextData::LayerSet(LayerSet::new()),
            MainWindow::LayerMenu => ContextData::Layer(Layer::new()),
            MainWindow::SimpleLayerMenu => ContextData::SimpleLayer(SimpleLayer::new()),
            MainWindow::StatueMenu => ContextData::Statue(Statue::new()),
            MainWindow::PlantMenu => ContextData::Plant(Plant::new()),
            MainWindow::TileGraphicMenu => ContextData::TileGraphic(TileGraphic::new()),
        }
    }
}

/// The fresh data that the menu `w` offers to insert.
pub open spec fn data_for_window(w: MainWindow) -> SpecContextData {
    match w {
        MainWindow::DefaultMenu => SpecContextData::GraphicsFile(SpecGraphicsFile::DefaultFile),
        MainWindow::TilePageFileDefaultMenu => SpecContextData::TilePageFile(crate::tile::spec_tile_page_file_new()),
        MainWindow::TilePageFileMenu => SpecContextData::TilePageFile(crate::tile::spec_tile_page_file_new()),
        MainWindow::TilePageMenu => SpecContextData::TilePage(crate::tile::spec_tile_page_new()),
        MainWindow::GraphicsFileDefaultMenu => SpecContextData::Creature(crate::creature::spec_creature_new()),
        MainWindow::GraphicsFileMenu => SpecContextData::GraphicsFile(SpecGraphicsFile::DefaultFile),
        MainWindow::CreatureMenu => SpecContextData::Creature(crate::creature::spec_creature_new()),
        MainWindow::LayerGroupMenu => SpecContextData::LayerGroup(crate::group::spec_layer_group_new()),
        MainWindow::LayerSetMenu => SpecContextData::LayerSet(crate::layer_set::spec_layer_set_new()),
        MainWindow::LayerMenu => SpecContextData::Layer(crate::layer::spec_layer_new()),
        MainWindow::SimpleLayerMenu => SpecContextData::SimpleLayer(crate::creature::spec_simple_layer_new()),
        MainWindow::StatueMenu => SpecContextData::Statue(crate::statue::spec_statue_new()),
        MainWindow::PlantMenu => SpecContextData::Plant(crate::statue::spec_plant_new()),
        MainWindow::TileGraphicMenu => SpecContextData::TileGraphic(crate::statue::spec_tile_graphic_new()),
    }
}

/// `x` inserted at `i` in `s`, or added at the end where `i` is past it.
pub open spec fn insert_at<T>(s: Seq<T>, i: usize, x: T) -> Seq<T> {
    if i < s.len() {
        s.insert(i as int, x)
    } else {
        s.push(x)
    }
}

/// Inserts `x` at `i` in `v`, or adds it at the end where `i` is past it.
pub fn insert_or_push<T>(v: &mut Vec<T>, i: usize, x: T)
    ensures
        final(v)@ == insert_at(old(v)@, i, x),
{
    if i < v.len() {
        v.insert(i, x);
    } else {
        v.push(x);
    }
}

/// Inserting into a list and then viewing it is viewing it and then inserting the view.
pub proof fn lemma_insert_at_map<T, V>(s: Seq<T>, i: usize, x: T, f: spec_fn(T) -> V)
    ensures
        insert_at(s, i, x).map_values(f) == insert_at(s.map_values(f), i, f(x)),
{
    assert(insert_at(s, i, x).map_values(f) =~= insert_at(s.map_values(f), i, f(x)));
}

/// `g` with `d` inserted: a layer at the selected position, or a condition at
/// the end of the selected layer (none where that layer does not exist).
pub open spec fn group_insert(g: SpecLayerGroup, d: SpecContextData, ix: GraphicsIndices) -> Option<SpecLayerGroup> {
    let li = ix.layer_index;
    match d {
        SpecContextData::Layer(l) => Some(SpecLayerGroup { layers: insert_at(g.layers, li, l), ..g }),
        SpecContextData::Condition(c) => if li < g.layers.len() {
            let l = g.layers[li as int];
            Some(SpecLayerGroup { layers: g.layers.update(li as int, SpecLayer { conditions: l.conditions.push(c), ..l }), ..g })
        } else {
            None
        },
        _ => Some(g),
    }
}

/// `s` with `d` inserted at the selection (none where a selected level does not exist).
pub open spec fn set_insert(s: SpecLayerSet, d: SpecContextData, ix: GraphicsIndices) -> Option<SpecLayerSet> {
    let gi = ix.layer_group_index;
    match d {
        SpecContextData::LayerGroup(g) => Some(SpecLayerSet { layer_groups: insert_at(s.layer_groups, gi, g), ..s }),
        SpecContextData::Layer(_) | SpecContextData::Condition(_) => if gi < s.layer_groups.len() {
            match group_insert(s.layer_groups[gi as int], d, ix) {
                Some(g2) => Some(SpecLayerSet { layer_groups: s.layer_groups.update(gi as int, g2), ..s }),
                None => None,
            }
        } else {
            None
        },
        _ => Some(s),
    }
}

/// `c` with `d` inserted at the selection (none where a selected level does not exist).
pub open spec fn creature_insert(c: SpecCreature, d: SpecContextData, ix: GraphicsIndices) -> Option<SpecCreature> {
    let si = ix.layer_set_index;
    match d {
        SpecContextData::LayerSet(s) => Some(SpecCreature { layer_sets: insert_at(c.layer_sets, si, s), ..c }),
        SpecContextData::SimpleLayer(l) => Some(
            SpecCreature { simple_layers: insert_at(c.simple_layers, ix.simple_layer_index, l), ..c },
        ),
        SpecContextData::LayerGroup(_) | SpecContextData::Layer(_) | SpecContextData::Condition(_) => if si
            < c.layer_sets.len() {
            match set_insert(c.layer_sets[si as int], d, ix) {
                Some(s2) => Some(SpecCreature { layer_sets: c.layer_sets.update(si as int, s2), ..c }),
                None => None,
            }
        } else {
            None
        },
        _ => Some(c),
    }
}

/// `f` with `d` inserted at the selection where `d` belongs in a file of its
/// kind (none where a selected level does not exist).
pub open spec fn file_insert(f: SpecGraphicsFile, d: SpecContextData, ix: GraphicsIndices) -> Option<SpecGraphicsFile> {
    let gi = ix.graphics_index;
    match f {
        SpecGraphicsFile::CreatureFile(n, cs) => match d {
            SpecContextData::Creature(c) => Some(SpecGraphicsFile::CreatureFile(n, insert_at(cs, gi, c))),
            SpecContextData::LayerSet(_) | SpecContextData::LayerGroup(_) | SpecContextData::Layer(_)
            | SpecContextData::Condition(_) | SpecContextData::SimpleLayer(_) => if gi < cs.len() {
                match creature_insert(cs[gi as int], d, ix) {
                    Some(c2) => Some(SpecGraphicsFile::CreatureFile(n, cs.update(gi as int, c2))),
                    None => None,
                }
            } else {
                None
            },
            _ => Some(f),
        },
        SpecGraphicsFile::StatueCreatureFile(n, ss) => match d {
            SpecContextData::Statue(s) => Some(SpecGraphicsFile::StatueCreatureFile(n, insert_at(ss, gi, s))),
            _ => Some(f),
        },
        SpecGraphicsFile::PlantFile(n, ps) => match d {
            SpecContextData::Plant(p) => Some(SpecGraphicsFile::PlantFile(n, insert_at(ps, gi, p))),
            _ => Some(f),
        },
        SpecGraphicsFile::TileGraphicsFile(n, ts) => match d {
            SpecContextData::TileGraphic(t) => Some(SpecGraphicsFile::TileGraphicsFile(n, insert_at(ts, gi, t))),
            _ => Some(f),
        },
        SpecGraphicsFile::DefaultFile => Some(f),
    }
}

/// The files with `d` inserted at the selection (none where a selected level
/// does not exist).
pub open spec fn files_insert(
    tpfs: Seq<SpecTilePageFile>,
    gfs: Seq<SpecGraphicsFile>,
    d: SpecContextData,
    ix: GraphicsIndices,
) -> Option<(Seq<SpecTilePageFile>, Seq<SpecGraphicsFile>)> {
    let ti = ix.tile_page_file_index;
    let fi = ix.graphics_file_index;
    match d {
        SpecContextData::Empty => Some((tpfs, gfs)),
        SpecContextData::TilePageFile(f) => Some((insert_at(tpfs, ti, f), gfs)),
        SpecContextData::TilePage(t) => if ti < tpfs.len() {
            let f = tpfs[ti as int];
            Some(
                (
                    tpfs.update(
                        ti as int,
                        SpecTilePageFile { tile_pages: insert_at(f.tile_pages, ix.tile_page_index, t), ..f },
                    ),
                    gfs,
                ),
            )
        } else {
            None
        },
        SpecContextData::GraphicsFile(f) => Some((tpfs, insert_at(gfs, fi, f))),
        _ => if fi < gfs.len() {
            match file_insert(gfs[fi as int], d, ix) {
                Some(f2) => Some((tpfs, gfs.update(fi as int, f2))),
                None => None,
            }
        } else {
            None
        },
    }
}

impl LayerGroup {
    /// Inserts `d` at the selection.
    pub fn insert_data(&mut self, d: ContextData, ix: GraphicsIndices) -> (r: Result<(), DFGHError>)
        ensures
            match group_insert(old(self)@, d@, ix) {
                Some(g) => r is Ok && final(self)@ == g,
                None => r matches Err(DFGHError::IndexError) && final(self)@ == old(self)@,
            },
    {
        let li = ix.layer_index;
        match d {
            ContextData::Layer(l) => {
                insert_or_push(&mut self.layers, li, l);
                proof {
                    lemma_insert_at_map(old(self).layers@, li, l, |x: Layer| x@);
                }
                Ok(())
            },
            ContextData::Condition(c) => {
                if li < self.layers.len() {
                    let ghost before = self.layers@;
                    let mut l = self.layers.remove(li);
                    let ghost cv = l.conditions@.map_values(|x: Condition| x@);
                    l.conditions.push(c);
                    assert(l.conditions@.map_values(|x: Condition| x@) =~= cv.push(c@));
                    self.layers.insert(li, l);
                    assert(self.layers@ =~= before.update(li as int, l));
                    assert(self@.layers =~= old(self)@.layers.update(li as int, l@));
                    Ok(())
                } else {
                    Err(DFGHError::IndexError)
                }
            },
            _ => Ok(()),
        }
    }
}

impl LayerSet {
    /// Inserts `d` at the selection.
    pub fn insert_data(&mut self, d: ContextData, ix: GraphicsIndices) -> (r: Result<(), DFGHError>)
        ensures
            match set_insert(old(self)@, d@, ix) {
                Some(s) => r is Ok && final(self)@ == s,
                None => r matches Err(DFGHError::IndexError) && final(self)@ == old(self)@,
            },
    {
        let gi = ix.layer_group_index;
        match d {
            ContextData::LayerGroup(g) => {
                insert_or_push(&mut self.layer_groups, gi, g);
                proof {
                    lemma_insert_at_map(old(self).layer_groups@, gi, g, |x: LayerGroup| x@);
                }
                Ok(())
            },
            ContextData::Layer(_) | ContextData::Condition(_) => {
                if gi < self.layer_groups.len() {
                    let ghost before = self.layer_groups@;
                    let mut g = self.layer_groups.remove(gi);
                    let r = g.insert_data(d, ix);
                    self.layer_groups.insert(gi, g);
                    assert(self.layer_groups@ =~= before.update(gi as int, g));
                    assert(self@.layer_groups =~= old(self)@.layer_groups.update(gi as int, g@));
                    proof {
                        if r is Err {
                            assert(self@.layer_groups =~= old(self)@.layer_groups);
                        }
                    }
                    r
                } else {
                    Err(DFGHError::IndexError)
                }
            },
            _ => Ok(()),
        }
    }
}

impl Creature {
    /// Inserts `d` at the selection.
    pub fn insert_data(&mut self, d: ContextData, ix: GraphicsIndices) -> (r: Result<(), DFGHError>)
        ensures
            match creature_insert(old(self)@, d@, ix) {
                Some(c) => r is Ok && final(self)@ == c,
                None => r matches Err(DFGHError::IndexError) && final(self)@ == old(self)@,
            },
    {
        let si = ix.layer_set_index;
        match d {
            ContextData::LayerSet(s) => {
                insert_or_push(&mut self.layer_sets, si, s);
                proof {
                    lemma_insert_at_map(old(self).layer_sets@, si, s, |x: LayerSet| x@);
                }
                Ok(())
            },
            ContextData::SimpleLayer(l) => {
                insert_or_push(&mut self.simple_layers, ix.simple_layer_index, l);
                proof {
                    lemma_insert_at_map(old(self).simple_layers@, ix.simple_layer_index, l, |x: SimpleLayer| x@);
                }
                Ok(())
            },
            ContextData::LayerGroup(_) | ContextData::Layer(_) | ContextData::Condition(_) => {
                if si < self.layer_sets.len() {
                    let ghost before = self.layer_sets@;
                    let mut s = self.layer_sets.remove(si);
                    let r = s.insert_data(d, ix);
                    self.layer_sets.insert(si, s);
                    assert(self.layer_sets@ =~= before.update(si as int, s));
                    assert(self@.layer_sets =~= old(self)@.layer_sets.update(si as int, s@));
                    proof {
                        if r is Err {
                            assert(self@.layer_sets =~= old(self)@.layer_sets);
                        }
                    }
                    r
                } else {
                    Err(DFGHError::IndexError)
                }
            },
            _ => Ok(()),
        }
    }
}

impl GraphicsFile {
    /// This file with `d` inserted at the selection where `d` belongs in a file
    /// of its kind.
    pub fn with_inserted(self, d: ContextData, ix: GraphicsIndices) -> (r: (GraphicsFile, Result<(), DFGHError>))
        ensures
            match file_insert(self@, d@, ix) {
                Some(f) => r.1 is Ok && r.0@ == f,
                None => r.1 matches Err(DFGHError::IndexError) && r.0@ == self@,
            },
    {
        let gi = ix.graphics_index;
        match self {
            GraphicsFile::CreatureFile(n, mut cs) => match d {
                ContextData::Creature(c) => {
                    let ghost old_cs = cs@;
                    insert_or_push(&mut cs, gi, c);
                    proof {
                        lemma_insert_at_map(old_cs, gi, c, |x: Creature| x@);
                    }
                    (GraphicsFile::CreatureFile(n, cs), Ok(()))
                },
                ContextData::LayerSet(_) | ContextData::LayerGroup(_) | ContextData::Layer(_) | ContextData::Condition(_)
                | ContextData::SimpleLayer(_) => {
                    if gi < cs.len() {
                        let ghost before = cs@;
                        let ghost bv = cs@.map_values(|x: Creature| x@);
                        let mut c = cs.remove(gi);
                        let r = c.insert_data(d, ix);
                        cs.insert(gi, c);
                        assert(cs@ =~= before.update(gi as int, c));
                        assert(cs@.map_values(|x: Creature| x@) =~= bv.update(gi as int, c@));
                        proof {
                            if r is Err {
                                assert(cs@.map_values(|x: Creature| x@) =~= bv);
                            }
                        }
                        (GraphicsFile::CreatureFile(n, cs), r)
                    } else {
                        (GraphicsFile::CreatureFile(n, cs), Err(DFGHError::IndexError))
                    }
                },
                _ => (GraphicsFile::CreatureFile(n, cs), Ok(())),
            },
            GraphicsFile::StatueCreatureFile(n, mut ss) => match d {
                ContextData::Statue(x) => {
                    let ghost old_v = ss@;
                    insert_or_push(&mut ss, gi, x);
                    proof {
                        lemma_insert_at_map(old_v, gi, x, |y: Statue| y@);
                    }
                    (GraphicsFile::StatueCreatureFile(n, ss), Ok(()))
                },
                _ => (GraphicsFile::StatueCreatureFile(n, ss), Ok(())),
            },
            GraphicsFile::PlantFile(n, mut ps) => match d {
                ContextData::Plant(x) => {
                    let ghost old_v = ps@;
                    insert_or_push(&mut ps, gi, x);
                    proof {
                        lemma_insert_at_map(old_v, gi, x, |y: Plant| y@);
                    }
                    (GraphicsFile::PlantFile(n, ps), Ok(()))
                },
                _ => (GraphicsFile::PlantFile(n, ps), Ok(())),
            },
            GraphicsFile::TileGraphicsFile(n, mut ts) => match d {
                ContextData::TileGraphic(x) => {
                    let ghost old_v = ts@;
                    insert_or_push(&mut ts, gi, x);
                    proof {
                        lemma_insert_at_map(old_v, gi, x, |y: TileGraphic| y@);
                    }
                    (GraphicsFile::TileGraphicsFile(n, ts), Ok(()))
                },
                _ => (GraphicsFile::TileGraphicsFile(n, ts), Ok(())),
            },
            GraphicsFile::DefaultFile => (GraphicsFile::DefaultFile, Ok(())),
        }
    }
}

impl Graphics {
    /// Inserts `d` at the selection `ix`: a tile page file or graphics file in
    /// its list, anything else into the selected element of the level above
    /// it. Fails with an index error where a selected level does not exist.
    pub fn insert_data(&mut self, d: ContextData, ix: GraphicsIndices) -> (r: Result<(), DFGHError>)
        ensures
            final(self)@.creature_shared == old(self)@.creature_shared,
            match files_insert(old(self)@.tile_page_files, old(self)@.graphics_files, d@, ix) {
                Some((t, g)) => r is Ok && final(self)@.tile_page_files == t && final(self)@.graphics_files == g,
                None => r matches Err(DFGHError::IndexError) && final(self)@ == old(self)@,
            },
    {
        let ti = ix.tile_page_file_index;
        let fi = ix.graphics_file_index;
        match d {
            ContextData::Empty => Ok(()),
            ContextData::TilePageFile(f) => {
                insert_or_push(&mut self.tile_page_files, ti, f);
                proof {
                    lemma_insert_at_map(old(self).tile_page_files@, ti, f, |x: TilePageFile| x@);
                }
                Ok(())
            },
            ContextData::TilePage(t) => {
                if ti < self.tile_page_files.len() {
                    let ghost before = self.tile_page_files@;
                    let mut f = self.tile_page_files.remove(ti);
                    let ghost old_tp = f.tile_pages@;
                    insert_or_push(&mut f.tile_pages, ix.tile_page_index, t);
                    proof {
                        lemma_insert_at_map(old_tp, ix.tile_page_index, t, |x: TilePage| x@);
                    }
                    self.tile_page_files.insert(ti, f);
                    assert(self.tile_page_files@ =~= before.update(ti as int, f));
                    assert(self@.tile_page_files =~= old(self)@.tile_page_files.update(ti as int, f@));
                    Ok(())
                } else {
                    Err(DFGHError::IndexError)
                }
            },
            ContextData::GraphicsFile(f) => {
                insert_or_push(&mut self.graphics_files, fi, f);
                proof {
                    lemma_insert_at_map(old(self).graphics_files@, fi, f, |x: GraphicsFile| x@);
                }
                Ok(())
            },
            _ => {
                if fi < self.graphics_files.len() {
                    let ghost before = self.graphics_files@;
                    let f = self.graphics_files.remove(fi);
                    let (f2, r) = f.with_inserted(d, ix);
                    self.graphics_files.insert(fi, f2);
                    assert(self.graphics_files@ =~= before.update(fi as int, f2));
                    assert(self@.graphics_files =~= old(self)@.graphics_files.update(fi as int, f2@));
                    proof {
                        if r is Err {
                            assert(self@.graphics_files =~= old(self)@.graphics_files);
                        }
                    }
                    r
                } else {
                    Err(DFGHError::IndexError)
                }
            },
        }
    }
}

/// What becomes of a selected index once its element is removed: the one
/// before it, or, for the first, the same index and the menu `menu`.
pub open spec fn step_back(i: usize, menu: MainWindow) -> (usize, Option<MainWindow>) {
    if i >= 1 {
        ((i - 1) as usize, None)
    } else {
        (i, Some(menu))
    }
}

/// What becomes of a selected index once its element is removed.
pub fn step_back_index(i: usize, menu: MainWindow) -> (r: (usize, Option<MainWindow>))
    ensures
        r == step_back(i, menu),
{
    if i >= 1 {
        (i - 1, None)
    } else {
        (i, Some(menu))
    }
}

/// The result of deleting `d` from a layer group: the group, the selection and
/// the menu to show if it changes (none where a selected level does not exist).
pub open spec fn group_delete(g: SpecLayerGroup, d: SpecContextData, ix: GraphicsIndices) -> Option<
    (SpecLayerGroup, GraphicsIndices, Option<MainWindow>),
> {
    let li = ix.layer_index;
    match d {
        SpecContextData::Layer(_) => if li < g.layers.len() {
            let (ni, mw) = step_back(li, MainWindow::LayerGroupMenu);
            Some(
                (SpecLayerGroup { layers: g.layers.remove(li as int), ..g }, GraphicsIndices { layer_index: ni, ..ix }, mw),
            )
        } else {
            Some((g, ix, None))
        },
        SpecContextData::Condition(_) => if li < g.layers.len() {
            let l = g.layers[li as int];
            Some((SpecLayerGroup { layers: g.layers.update(li as int, SpecLayer { conditions: seq![], ..l }), ..g }, ix, None))
        } else {
            None
        },
        _ => Some((g, ix, None)),
    }
}

/// The result of deleting `d` from a layer set.
pub open spec fn set_delete(s: SpecLayerSet, d: SpecContextData, ix: GraphicsIndices) -> Option<
    (SpecLayerSet, GraphicsIndices, Option<MainWindow>),
> {
    let gi = ix.layer_group_index;
    match d {
        SpecContextData::LayerGroup(_) => if gi < s.layer_groups.len() {
            let (ni, mw) = step_back(gi, MainWindow::LayerSetMenu);
            Some(
                (
                    SpecLayerSet { layer_groups: s.layer_groups.remove(gi as int), ..s },
                    GraphicsIndices { layer_group_index: ni, ..ix },
                    mw,
                ),
            )
        } else {
            Some((s, ix, None))
        },
        SpecContextData::Layer(_) | SpecContextData::Condition(_) => if gi < s.layer_groups.len() {
            match group_delete(s.layer_groups[gi as int], d, ix) {
                Some((g2, ix2, mw)) => Some((SpecLayerSet { layer_groups: s.layer_groups.update(gi as int, g2), ..s }, ix2, mw)),
                None => None,
            }
        } else {
            None
        },
        _ => Some((s, ix, None)),
    }
}

/// The result of deleting `d` from a creature.
pub open spec fn creature_delete(c: SpecCreature, d: SpecContextData, ix: GraphicsIndices) -> Option<
    (SpecCreature, GraphicsIndices, Option<MainWindow>),
> {
    let si = ix.layer_set_index;
    let li = ix.simple_layer_index;
    match d {
        SpecContextData::LayerSet(_) => if si < c.layer_sets.len() {
            let (ni, mw) = step_back(si, MainWindow::CreatureMenu);
            Some(
                (
                    SpecCreature { layer_sets: c.layer_sets.remove(si as int), ..c },
                    GraphicsIndices { layer_set_index: ni, ..ix },
                    mw,
                ),
            )
        } else {
            Some((c, ix, None))
        },
        SpecContextData::SimpleLayer(_) => if li < c.simple_layers.len() {
            let (ni, mw) = step_back(li, MainWindow::CreatureMenu);
            Some(
                (
                    SpecCreature { simple_layers: c.simple_layers.remove(li as int), ..c },
                    GraphicsIndices { simple_layer_index: ni, ..ix },
                    mw,
                ),
            )
        } else {
            Some((c, ix, None))
        },
        SpecContextData::LayerGroup(_) | SpecContextData::Layer(_) | SpecContextData::Condition(_) => if si
            < c.layer_sets.len() {
            match set_delete(c.layer_sets[si as int], d, ix) {
                Some((s2, ix2, mw)) => Some((SpecCreature { layer_sets: c.layer_sets.update(si as int, s2), ..c }, ix2, mw)),
                None => None,
            }
        } else {
            None
        },
        _ => Some((c, ix, None)),
    }
}

/// The result of deleting the selected entry of the list `v` of a graphics file.
pub open spec fn entry_delete<T>(v: Seq<T>, ix: GraphicsIndices) -> (Seq<T>, GraphicsIndices, Option<MainWindow>) {
    let gi = ix.graphics_index;
    if gi < v.len() {
        let (ni, mw) = step_back(gi, MainWindow::GraphicsFileMenu);
        (v.remove(gi as int), GraphicsIndices { graphics_index: ni, ..ix }, mw)
    } else {
        (v, ix, None)
    }
}

/// The result of deleting `d` from a graphics file.
pub open spec fn file_delete(f: SpecGraphicsFile, d: SpecContextData, ix: GraphicsIndices) -> Option<
    (SpecGraphicsFile, GraphicsIndices, Option<MainWindow>),
> {
    let gi = ix.graphics_index;
    match f {
        SpecGraphicsFile::CreatureFile(n, cs) => match d {
            SpecContextData::Creature(_) => {
                let (v, ix2, mw) = entry_delete(cs, ix);
                Some((SpecGraphicsFile::CreatureFile(n, v), ix2, mw))
            },
            SpecContextData::LayerSet(_) | SpecContextData::LayerGroup(_) | SpecContextData::Layer(_)
            | SpecContextData::Condition(_) | SpecContextData::SimpleLayer(_) => if gi < cs.len() {
                match creature_delete(cs[gi as int], d, ix) {
                    Some((c2, ix2, mw)) => Some((SpecGraphicsFile::CreatureFile(n, cs.update(gi as int, c2)), ix2, mw)),
                    None => None,
                }
            } else {
                None
            },
            _ => Some((f, ix, None)),
        },
        SpecGraphicsFile::StatueCreatureFile(n, ss) => match d {
            SpecContextData::Statue(_) => {
                let (v, ix2, mw) = entry_delete(ss, ix);
                Some((SpecGraphicsFile::StatueCreatureFile(n, v), ix2, mw))
            },
            _ => Some((f, ix, None)),
        },
        SpecGraphicsFile::PlantFile(n, ps) => match d {
            SpecContextData::Plant(_) => {
                let (v, ix2, mw) = entry_delete(ps, ix);
                Some((SpecGraphicsFile::PlantFile(n, v), ix2, mw))
            },
            _ => Some((f, ix, None)),
        },
        SpecGraphicsFile::TileGraphicsFile(n, ts) => match d {
            SpecContextData::TileGraphic(_) => {
                let (v, ix2, mw) = entry_delete(ts, ix);
                Some((SpecGraphicsFile::TileGraphicsFile(n, v), ix2, mw))
            },
            _ => Some((f, ix, None)),
        },
        SpecGraphicsFile::DefaultFile => Some((f, ix, None)),
    }
}

/// The result of deleting `d` from the files: the files, the selection and the
/// menu to show if it changes (none where a selected level does not exist).
pub open spec fn files_delete(
    tpfs: Seq<SpecTilePageFile>,
    gfs: Seq<SpecGraphicsFile>,
    d: SpecContextData,
    ix: GraphicsIndices,
) -> Option<(Seq<SpecTilePageFile>, Seq<SpecGraphicsFile>, GraphicsIndices, Option<MainWindow>)> {
    let ti = ix.tile_page_file_index;
    let fi = ix.graphics_file_index;
    match d {
        SpecContextData::Empty => Some((tpfs, gfs, ix, None)),
        SpecContextData::TilePageFile(_) => if ti < tpfs.len() {
            let (ni, mw) = step_back(ti, MainWindow::TilePageFileDefaultMenu);
            Some((tpfs.remove(ti as int), gfs, GraphicsIndices { tile_page_file_index: ni, ..ix }, mw))
        } else {
            Some((tpfs, gfs, ix, None))
        },
        SpecContextData::TilePage(_) => if ti < tpfs.len() {
            let f = tpfs[ti as int];
            let pi = ix.tile_page_index;
            if pi < f.tile_pages.len() {
                let (ni, mw) = step_back(pi, MainWindow::TilePageFileMenu);
                Some(
                    (
                        tpfs.update(ti as int, SpecTilePageFile { tile_pages: f.tile_pages.remove(pi as int), ..f }),
                        gfs,
                        GraphicsIndices { tile_page_index: ni, ..ix },
                        mw,
                    ),
                )
            } else {
                Some((tpfs, gfs, ix, None))
            }
        } else {
            None
        },
        SpecContextData::GraphicsFile(_) => if fi < gfs.len() {
            let (ni, mw) = step_back(fi, MainWindow::GraphicsFileDefaultMenu);
            Some((tpfs, gfs.remove(fi as int), GraphicsIndices { graphics_file_index: ni, ..ix }, mw))
        } else {
            Some((tpfs, gfs, ix, None))
        },
        _ => if fi < gfs.len() {
            match file_delete(gfs[fi as int], d, ix) {
                Some((f2, ix2, mw)) => Some((tpfs, gfs.update(fi as int, f2), ix2, mw)),
                None => None,
            }
        } else {
            None
        },
    }
}

/// The selection and menu change an edit made, or an index error.
pub type DeleteResult = Result<(GraphicsIndices, Option<MainWindow>), DFGHError>;

/// Whether `r` is what a delete whose outcome is `spec` returns, given that
/// the edited value ends as `after` where it started as `before`.
pub open spec fn delete_matches<V>(
    r: DeleteResult,
    spec: Option<(V, GraphicsIndices, Option<MainWindow>)>,
    before: V,
    after: V,
) -> bool {
    match spec {
        Some((v, ix2, mw)) => r == DeleteResult::Ok((ix2, mw)) && after == v,
        None => r matches Err(DFGHError::IndexError) && after == before,
    }
}

/// Removes the element at `i` of `v`, if there is one, and says what becomes
/// of the selection.
fn remove_selected<T>(v: &mut Vec<T>, i: usize, menu: MainWindow) -> (r: Option<(usize, Option<MainWindow>)>)
    ensures
        i < old(v)@.len() ==> final(v)@ == old(v)@.remove(i as int) && r == Some(step_back(i, menu)),
        i >= old(v)@.len() ==> final(v)@ == old(v)@ && r is None,
{
    if i < v.len() {
        v.remove(i);
        Some(step_back_index(i, menu))
    } else {
        None
    }
}

/// Removing from a list and then viewing it is viewing it and then removing.
pub proof fn lemma_remove_map<T, V>(s: Seq<T>, i: int, f: spec_fn(T) -> V)
    requires
        0 <= i < s.len(),
    ensures
        s.remove(i).map_values(f) == s.map_values(f).remove(i),
{
    assert(s.remove(i).map_values(f) =~= s.map_values(f).remove(i));
}

impl LayerGroup {
    /// Deletes the selected element of the kind of `d`.
    pub fn delete_data(&mut self, d: &ContextData, ix: GraphicsIndices) -> (r: DeleteResult)
        ensures
            delete_matches(r, group_delete(old(self)@, d@, ix), old(self)@, final(self)@),
    {
        let li = ix.layer_index;
        match d {
            ContextData::Layer(_) => {
                match remove_selected(&mut self.layers, li, MainWindow::LayerGroupMenu) {
                    Some((ni, mw)) => {
                        proof {
                            lemma_remove_map(old(self).layers@, li as int, |x: Layer| x@);
                        }
                        Ok((GraphicsIndices { layer_index: ni, ..ix }, mw))
                    },
                    None => Ok((ix, None)),
                }
            },
            ContextData::Condition(_) => {
                if li < self.layers.len() {
                    let ghost before = self.layers@;
                    let mut l = self.layers.remove(li);
                    l.conditions.clear();
                    assert(l@.conditions =~= Seq::<SpecCondition>::empty());
                    self.layers.insert(li, l);
                    assert(self.layers@ =~= before.update(li as int, l));
                    assert(self@.layers =~= old(self)@.layers.update(li as int, l@));
                    Ok((ix, None))
                } else {
                    Err(DFGHError::IndexError)
                }
            },
            _ => Ok((ix, None)),
        }
    }
}

impl LayerSet {
    /// Deletes the selected element of the kind of `d`.
    pub fn delete_data(&mut self, d: &ContextData, ix: GraphicsIndices) -> (r: DeleteResult)
        ensures
            delete_matches(r, set_delete(old(self)@, d@, ix), old(self)@, final(self)@),
    {
        let gi = ix.layer_group_index;
        match d {
            ContextData::LayerGroup(_) => {
                match remove_selected(&mut self.layer_groups, gi, MainWindow::LayerSetMenu) {
                    Some((ni, mw)) => {
                        proof {
                            lemma_remove_map(old(self).layer_groups@, gi as int, |x: LayerGroup| x@);
                        }
                        Ok((GraphicsIndices { layer_group_index: ni, ..ix }, mw))
                    },
                    None => Ok((ix, None)),
                }
            },
            ContextData::Layer(_) | ContextData::Condition(_) => {
                if gi < self.layer_groups.len() {
                    let ghost before = self.layer_groups@;
                    let mut g = self.layer_groups.remove(gi);
                    let r = g.delete_data(d, ix);
                    self.layer_groups.insert(gi, g);
                    assert(self.layer_groups@ =~= before.update(gi as int, g));
                    assert(self@.layer_groups =~= old(self)@.layer_groups.update(gi as int, g@));
                    proof {
                        if r is Err {
                            assert(self@.layer_groups =~= old(self)@.layer_groups);
                        }
                    }
                    r
                } else {
                    Err(DFGHError::IndexError)
                }
            },
            _ => Ok((ix, None)),
        }
    }
}

impl Creature {
    /// Deletes the selected element of the kind of `d`.
    pub fn delete_data(&mut self, d: &ContextData, ix: GraphicsIndices) -> (r: DeleteResult)
        ensures
            delete_matches(r, creature_delete(old(self)@, d@, ix), old(self)@, final(self)@),
    {
        let si = ix.layer_set_index;
        match d {
            ContextData::LayerSet(_) => {
                match remove_selected(&mut self.layer_sets, si, MainWindow::CreatureMenu) {
                    Some((ni, mw)) => {
                        proof {
                            lemma_remove_map(old(self).layer_sets@, si as int, |x: LayerSet| x@);
                        }
                        Ok((GraphicsIndices { layer_set_index: ni, ..ix }, mw))
                    },
                    None => Ok((ix, None)),
                }
            },
            ContextData::SimpleLayer(_) => {
                let li = ix.simple_layer_index;
                match remove_selected(&mut self.simple_layers, li, MainWindow::CreatureMenu) {
                    Some((ni, mw)) => {
                        proof {
                            lemma_remove_map(old(self).simple_layers@, li as int, |x: SimpleLayer| x@);
                        }
                        Ok((GraphicsIndices { simple_layer_index: ni, ..ix }, mw))
                    },
                    None => Ok((ix, None)),
                }
            },
            ContextData::LayerGroup(_) | ContextData::Layer(_) | ContextData::Condition(_) => {
                if si < self.layer_sets.len() {
                    let ghost before = self.layer_sets@;
                    let mut s = self.layer_sets.remove(si);
                    let r = s.delete_data(d, ix);
                    self.layer_sets.insert(si, s);
                    assert(self.layer_sets@ =~= before.update(si as int, s));
                    assert(self@.layer_sets =~= old(self)@.layer_sets.update(si as int, s@));
                    proof {
                        if r is Err {
                            assert(self@.layer_sets =~= old(self)@.layer_sets);
                        }
                    }
                    r
                } else {
                    Err(DFGHError::IndexError)
                }
            },
            _ => Ok((ix, None)),
        }
    }
}

impl GraphicsFile {
    /// This file with the selected element of the kind of `d` deleted.
    pub fn with_deleted(self, d: &ContextData, ix: GraphicsIndices) -> (r: (GraphicsFile, DeleteResult))
        ensures
            delete_matches(r.1, file_delete(self@, d@, ix), self@, r.0@),
    {
        let gi = ix.graphics_index;
        match self {
            GraphicsFile::CreatureFile(n, mut cs) => match d {
                ContextData::Creature(_) => {
                    let ghost ov = cs@;
                    let r = match remove_selected(&mut cs, gi, MainWindow::GraphicsFileMenu) {
                        Some((ni, mw)) => {
                            proof {
                                lemma_remove_map(ov, gi as int, |x: Creature| x@);
                            }
                            Ok((GraphicsIndices { graphics_index: ni, ..ix }, mw))
                        },
                        None => Ok((ix, None)),
                    };
                    (GraphicsFile::CreatureFile(n, cs), r)
                },
                ContextData::LayerSet(_) | ContextData::LayerGroup(_) | ContextData::Layer(_) | ContextData::Condition(_)
                | ContextData::SimpleLayer(_) => {
                    if gi < cs.len() {
                        let ghost before = cs@;
                        let ghost bv = cs@.map_values(|x: Creature| x@);
                        let mut c = cs.remove(gi);
                        let r = c.delete_data(d, ix);
                        cs.insert(gi, c);
                        assert(cs@ =~= before.update(gi as int, c));
                        assert(cs@.map_values(|x: Creature| x@) =~= bv.update(gi as int, c@));
                        proof {
                            if r is Err {
                                assert(cs@.map_values(|x: Creature| x@) =~= bv);
                            }
                        }
                        (GraphicsFile::CreatureFile(n, cs), r)
                    } else {
                        (GraphicsFile::CreatureFile(n, cs), Err(DFGHError::IndexError))
                    }
                },
                _ => (GraphicsFile::CreatureFile(n, cs), Ok((ix, None))),
            },
            GraphicsFile::StatueCreatureFile(n, mut v) => match d {
                ContextData::Statue(_) => {
                    let ghost ov = v@;
                    let r = match remove_selected(&mut v, gi, MainWindow::GraphicsFileMenu) {
                        Some((ni, mw)) => {
                            proof {
                                lemma_remove_map(ov, gi as int, |x: Statue| x@);
                            }
                            Ok((GraphicsIndices { graphics_index: ni, ..ix }, mw))
                        },
                        None => Ok((ix, None)),
                    };
                    (GraphicsFile::StatueCreatureFile(n, v), r)
                },
                _ => (GraphicsFile::StatueCreatureFile(n, v), Ok((ix, None))),
            },
            GraphicsFile::PlantFile(n, mut v) => match d {
                ContextData::Plant(_) => {
                    let ghost ov = v@;
                    let r = match remove_selected(&mut v, gi, MainWindow::GraphicsFileMenu) {
                        Some((ni, mw)) => {
                            proof {
                                lemma_remove_map(ov, gi as int, |x: Plant| x@);
                            }
                            Ok((GraphicsIndices { graphics_index: ni, ..ix }, mw))
                        },
                        None => Ok((ix, None)),
                    };
                    (GraphicsFile::PlantFile(n, v), r)
                },
                _ => (GraphicsFile::PlantFile(n, v), Ok((ix, None))),
            },
            GraphicsFile::TileGraphicsFile(n, mut v) => match d {
                ContextData::TileGraphic(_) => {
                    let ghost ov = v@;
                    let r = match remove_selected(&mut v, gi, MainWindow::GraphicsFileMenu) {
                        Some((ni, mw)) => {
                            proof {
                                lemma_remove_map(ov, gi as int, |x: TileGraphic| x@);
                            }
                            Ok((GraphicsIndices { graphics_index: ni, ..ix }, mw))
                        },
                        None => Ok((ix, None)),
                    };
                    (GraphicsFile::TileGraphicsFile(n, v), r)
                },
                _ => (GraphicsFile::TileGraphicsFile(n, v), Ok((ix, None))),
            },
            GraphicsFile::DefaultFile => (GraphicsFile::DefaultFile, Ok((ix, None))),
        }
    }
}

impl Graphics {
    /// Deletes the selected element of the kind of `d` (for a condition: every
    /// condition of the selected layer), and says what becomes of the selection
    /// and which menu to show if that changes. Fails with an index error where
    /// a selected level above it does not exist.
    pub fn delete_data(&mut self, d: &ContextData, ix: GraphicsIndices) -> (r: DeleteResult)
        ensures
            final(self)@.creature_shared == old(self)@.creature_shared,
            match files_delete(old(self)@.tile_page_files, old(self)@.graphics_files, d@, ix) {
                Some((t, g, ix2, mw)) => r == DeleteResult::Ok((ix2, mw)) && final(self)@.tile_page_files == t
                    && final(self)@.graphics_files == g,
                None => r matches Err(DFGHError::IndexError) && final(self)@ == old(self)@,
            },
    {
        let ti = ix.tile_page_file_index;
        let fi = ix.graphics_file_index;
        match d {
            ContextData::Empty => Ok((ix, None)),
            ContextData::TilePageFile(_) => {
                match remove_selected(&mut self.tile_page_files, ti, MainWindow::TilePageFileDefaultMenu) {
                    Some((ni, mw)) => {
                        proof {
                            lemma_remove_map(old(self).tile_page_files@, ti as int, |x: TilePageFile| x@);
                        }
                        Ok((GraphicsIndices { tile_page_file_index: ni, ..ix }, mw))
                    },
                    None => Ok((ix, None)),
                }
            },
            ContextData::TilePage(_) => {
                if ti < self.tile_page_files.len() {
                    let ghost before = self.tile_page_files@;
                    let mut f = self.tile_page_files.remove(ti);
                    let ghost old_tp = f.tile_pages@;
                    let pi = ix.tile_page_index;
                    let r = match remove_selected(&mut f.tile_pages, pi, MainWindow::TilePageFileMenu) {
                        Some((ni, mw)) => {
                            proof {
                                lemma_remove_map(old_tp, pi as int, |x: TilePage| x@);
                            }
                            Ok((GraphicsIndices { tile_page_index: ni, ..ix }, mw))
                        },
                        None => {
                            assert(f.tile_pages@ == old_tp);
                            Ok((ix, None))
                        },
                    };
                    self.tile_page_files.insert(ti, f);
                    assert(self.tile_page_files@ =~= before.update(ti as int, f));
                    assert(self@.tile_page_files =~= old(self)@.tile_page_files.update(ti as int, f@));
                    proof {
                        if pi >= old_tp.len() {
                            assert(self@.tile_page_files =~= old(self)@.tile_page_files);
                        }
                    }
                    r
                } else {
                    Err(DFGHError::IndexError)
                }
            },
            ContextData::GraphicsFile(_) => {
                match remove_selected(&mut self.graphics_files, fi, MainWindow::GraphicsFileDefaultMenu) {
                    Some((ni, mw)) => {
                        proof {
                            lemma_remove_map(old(self).graphics_files@, fi as int, |x: GraphicsFile| x@);
                        }
                        Ok((GraphicsIndices { graphics_file_index: ni, ..ix }, mw))
                    },
                    None => Ok((ix, None)),
                }
            },
            _ => {
                if fi < self.graphics_files.len() {
                    let ghost before = self.graphics_files@;
                    let f = self.graphics_files.remove(fi);
                    let (f2, r) = f.with_deleted(d, ix);
                    self.graphics_files.insert(fi, f2);
                    assert(self.graphics_files@ =~= before.update(fi as int, f2));
                    assert(self@.graphics_files =~= old(self)@.graphics_files.update(fi as int, f2@));
                    proof {
                        if r is Err {
                            assert(self@.graphics_files =~= old(self)@.graphics_files);
                        }
                    }
                    r
                } else {
                    Err(DFGHError::IndexError)
                }
            },
        }
    }
}

/// A saved state of the editor: the files and the selection.
pub type Snapshot = (Seq<SpecTilePageFile>, Seq<SpecGraphicsFile>, GraphicsIndices);

/// The view of a saved state.
pub open spec fn snapshot_view(s: (Vec<TilePageFile>, Vec<GraphicsFile>, GraphicsIndices)) -> Snapshot {
    (s.0@.map_values(|f: TilePageFile| f@), s.1@.map_values(|f: GraphicsFile| f@), s.2)
}

/// The editor: the menu it shows, the loaded graphics, the selection, what was
/// copied, the states to undo and redo, and the errors to report.
pub struct DFGraphicsHelper {
    pub main_window: MainWindow,
    pub loaded_graphics: Graphics,
    pub indices: GraphicsIndices,
    pub copied: ContextData,
    pub undo_buffer: Vec<(Vec<TilePageFile>, Vec<GraphicsFile>, GraphicsIndices)>,
    pub redo_buffer: Vec<(Vec<TilePageFile>, Vec<GraphicsFile>, GraphicsIndices)>,
    pub errors: Vec<DFGHError>,
}

/// The view of a [`DFGraphicsHelper`].
pub struct SpecHelper {
    pub main_window: MainWindow,
    pub graphics: SpecGraphics,
    pub indices: GraphicsIndices,
    pub copied: SpecContextData,
    pub undo_buffer: Seq<Snapshot>,
    pub redo_buffer: Seq<Snapshot>,
    pub errors: Seq<DFGHError<Seq<char>>>,
}

impl View for DFGraphicsHelper {
    type V = SpecHelper;

    open spec fn view(&self) -> SpecHelper {
        SpecHelper {
            main_window: self.main_window,
            graphics: self.loaded_graphics@,
            indices: self.indices,
            copied: self.copied@,
            undo_buffer: self.undo_buffer@.map_values(|s: (Vec<TilePageFile>, Vec<GraphicsFile>, GraphicsIndices)| snapshot_view(s)),
            redo_buffer: self.redo_buffer@.map_values(|s: (Vec<TilePageFile>, Vec<GraphicsFile>, GraphicsIndices)| snapshot_view(s)),
            errors: crate::lines::errs(self.errors@),
        }
    }
}

/// The state the editor saves: its files and selection.
pub open spec fn current(h: SpecHelper) -> Snapshot {
    (h.graphics.tile_page_files, h.graphics.graphics_files, h.indices)
}

/// `h` with its files and selection set from `s`.
pub open spec fn restored(h: SpecHelper, s: Snapshot) -> SpecHelper {
    SpecHelper {
        graphics: SpecGraphics { tile_page_files: s.0, graphics_files: s.1, ..h.graphics },
        indices: s.2,
        ..h
    }
}

/// `h` once it saved its state for undoing: the redo history is dropped.
pub open spec fn spec_save_state(h: SpecHelper) -> SpecHelper {
    SpecHelper { undo_buffer: h.undo_buffer.push(current(h)), redo_buffer: seq![], ..h }
}

/// `h` after undo: the last saved state comes back and goes to the redo
/// history (nothing happens without one).
pub open spec fn spec_undo(h: SpecHelper) -> SpecHelper {
    if h.undo_buffer.len() > 0 {
        let s = h.undo_buffer.last();
        restored(SpecHelper { undo_buffer: h.undo_buffer.drop_last(), redo_buffer: h.redo_buffer.push(s), ..h }, s)
    } else {
        h
    }
}

/// `h` after redo: the last state of the redo history comes back and goes to
/// the undo history (nothing happens without one).
pub open spec fn spec_redo(h: SpecHelper) -> SpecHelper {
    if h.redo_buffer.len() > 0 {
        let s = h.redo_buffer.last();
        restored(SpecHelper { redo_buffer: h.redo_buffer.drop_last(), undo_buffer: h.undo_buffer.push(s), ..h }, s)
    } else {
        h
    }
}

/// `h` after inserting `d`, and whether that succeeded: the state is saved
/// first, then `d` goes in at the selection.
pub open spec fn spec_insert(h: SpecHelper, d: SpecContextData) -> (SpecHelper, bool) {
    let h1 = spec_save_state(h);
    match files_insert(h1.graphics.tile_page_files, h1.graphics.graphics_files, d, h1.indices) {
        Some((t, g)) => (restored(h1, (t, g, h1.indices)), true),
        None => (h1, false),
    }
}

/// `h` after deleting the selected element of the kind of `d`, and whether
/// that succeeded: the state is saved first.
pub open spec fn spec_delete(h: SpecHelper, d: SpecContextData) -> (SpecHelper, bool) {
    let h1 = spec_save_state(h);
    match files_delete(h1.graphics.tile_page_files, h1.graphics.graphics_files, d, h1.indices) {
        Some((t, g, ix, mw)) => (
            SpecHelper {
                main_window: match mw {
                    Some(w) => w,
                    None => h1.main_window,
                },
                ..restored(h1, (t, g, ix))
            },
            true,
        ),
        None => (h1, false),
    }
}

/// The editor with nothing loaded.
pub open spec fn spec_helper_new() -> SpecHelper {
    SpecHelper {
        main_window: MainWindow::DefaultMenu,
        graphics: spec_graphics_new(),
        indices: GraphicsIndices {
            tile_page_file_index: 0,
            tile_page_index: 0,
            graphics_file_index: 0,
            graphics_index: 0,
            layer_set_index: 0,
            layer_group_index: 0,
            layer_index: 0,
            simple_layer_index: 0,
        },
        copied: SpecContextData::Empty,
        undo_buffer: seq![],
        redo_buffer: seq![],
        errors: seq![],
    }
}

impl DFGraphicsHelper {
    /// The editor with nothing loaded.
    pub fn new() -> (r: Self)
        ensures
            r@ == spec_helper_new(),
    {
        let r = DFGraphicsHelper {
            main_window: MainWindow::DefaultMenu,
            loaded_graphics: Graphics::new(),
            indices: GraphicsIndices::new(),
            copied: ContextData::Empty,
            undo_buffer: Vec::new(),
            redo_buffer: Vec::new(),
            errors: Vec::new(),
        };
        assert(r@.undo_buffer =~= seq![]);
        assert(r@.redo_buffer =~= seq![]);
        assert(r@.errors =~= seq![]);
        r
    }

    /// Saves the files and selection for undoing, and drops the redo history.
    pub fn save_state(&mut self)
        ensures
            final(self)@ == spec_save_state(old(self)@),
    {
        let s = (
            copy_tile_page_files(&self.loaded_graphics.tile_page_files),
            copy_graphics_files(&self.loaded_graphics.graphics_files),
            self.indices,
        );
        let ghost before = self@.undo_buffer;
        self.undo_buffer.push(s);
        if self.redo_buffer.len() > 0 {
            self.redo_buffer.clear();
        }
        assert(self@.undo_buffer =~= before.push(current(old(self)@)));
        assert(self@.redo_buffer =~= seq![]);
    }

    /// Brings back the last saved state and moves it to the redo history.
    pub fn undo(&mut self)
        ensures
            final(self)@ == spec_undo(old(self)@),
    {
        if self.undo_buffer.len() > 0 {
            let ghost u = self@.undo_buffer;
            let ghost r0 = self@.redo_buffer;
            let s = self.undo_buffer.pop().unwrap();
            assert(self@.undo_buffer =~= u.drop_last());
            let copy = (copy_tile_page_files(&s.0), copy_graphics_files(&s.1), s.2);
            self.redo_buffer.push(copy);
            assert(self@.redo_buffer =~= r0.push(snapshot_view(s)));
            self.loaded_graphics.tile_page_files = s.0;
            self.loaded_graphics.graphics_files = s.1;
            self.indices = s.2;
        }
    }

    /// Brings back the last state of the redo history and moves it to the undo history.
    pub fn redo(&mut self)
        ensures
            final(self)@ == spec_redo(old(self)@),
    {
        if self.redo_buffer.len() > 0 {
            let ghost r = self@.redo_buffer;
            let ghost u0 = self@.undo_buffer;
            let s = self.redo_buffer.pop().unwrap();
            assert(self@.redo_buffer =~= r.drop_last());
            let copy = (copy_tile_page_files(&s.0), copy_graphics_files(&s.1), s.2);
            self.undo_buffer.push(copy);
            assert(self@.undo_buffer =~= u0.push(snapshot_view(s)));
            self.loaded_graphics.tile_page_files = s.0;
            self.loaded_graphics.graphics_files = s.1;
            self.indices = s.2;
        }
    }

    /// Keeps a copy of `selected` for pasting.
    pub fn copy(&mut self, selected: ContextData)
        ensures
            final(self)@ == (SpecHelper { copied: selected@, ..old(self)@ }),
    {
        self.copied = selected;
    }

    /// Inserts `data` at the selection, after saving the state for undoing.
    pub fn insert(&mut self, data: ContextData) -> (r: Result<(), DFGHError>)
        ensures
            final(self)@ == spec_insert(old(self)@, data@).0,
            spec_insert(old(self)@, data@).1 ==> r is Ok,
            !spec_insert(old(self)@, data@).1 ==> r matches Err(DFGHError::IndexError),
    {
        self.save_state();
        let ix = self.indices;
        self.loaded_graphics.insert_data(data, ix)
    }

    /// Deletes the selected element of the kind of `selected`, after saving
    /// the state for undoing.
    pub fn delete(&mut self, selected: ContextData) -> (r: Result<(), DFGHError>)
        ensures
            final(self)@ == spec_delete(old(self)@, selected@).0,
            spec_delete(old(self)@, selected@).1 ==> r is Ok,
            !spec_delete(old(self)@, selected@).1 ==> r matches Err(DFGHError::IndexError),
    {
        self.save_state();
        let ix = self.indices;
        match self.loaded_graphics.delete_data(&selected, ix) {
            Ok((ix2, mw)) => {
                self.indices = ix2;
                match mw {
                    Some(w) => {
                        self.main_window = w;
                    },
                    None => {},
                }
                Ok(())
            },
            Err(e) => Err(e),
        }
    }

    /// Keeps a copy of `selected` for pasting and deletes it, saving the state
    /// for undoing first (the delete saves it once more).
    pub fn cut(&mut self, selected: ContextData) -> (r: Result<(), DFGHError>)
        ensures
            final(self)@ == spec_delete(
                SpecHelper { copied: selected@, ..spec_save_state(old(self)@) },
                selected@,
            ).0,
            spec_delete(SpecHelper { copied: selected@, ..spec_save_state(old(self)@) }, selected@).1 ==> r is Ok,
            !spec_delete(SpecHelper { copied: selected@, ..spec_save_state(old(self)@) }, selected@).1 ==> r matches Err(
                DFGHError::IndexError,
            ),
    {
        self.save_state();
        self.copied = selected.duplicate();
        self.delete(selected)
    }

    /// Inserts a copy of what was copied at the selection.
    pub fn paste(&mut self) -> (r: Result<(), DFGHError>)
        ensures
            final(self)@ == spec_insert(old(self)@, old(self)@.copied).0,
            spec_insert(old(self)@, old(self)@.copied).1 ==> r is Ok,
            !spec_insert(old(self)@, old(self)@.copied).1 ==> r matches Err(DFGHError::IndexError),
    {
        let data = self.copied.duplicate();
        self.insert(data)
    }
}

/// How the preview is zoomed.
#[derive(Clone, Copy, Debug, PartialEq, Eq, Structural)]
pub enum PreviewZoom {
    Unset,
    All,
    Selected,
    HorizontalFit,
    VerticalFit,
}

/// What the user asked for.
#[derive(Clone, Debug)]
pub enum Action {
    Idle,
    Copy(ContextData),
    Cut(ContextData),
    Paste,
    Duplicate(ContextData),
    Insert(ContextData),
    Undo,
    Redo,
    Delete(ContextData),
    Import,
    Export,
    Update,
    Zoom(PreviewZoom),
    Debug,
}

/// `h` with the error of a failed edit recorded.
pub open spec fn with_result(h: SpecHelper, ok: bool) -> SpecHelper {
    if ok {
        h
    } else {
        SpecHelper { errors: h.errors.push(DFGHError::IndexError), ..h }
    }
}

/// `h` after the editing action `a` (an index error of a failed edit is
/// recorded); the other actions leave it as it is.
pub open spec fn spec_handle(h: SpecHelper, a: Action) -> SpecHelper {
    match a {
        Action::Copy(d) => SpecHelper { copied: d@, ..h },
        Action::Cut(d) => {
            let (h2, ok) = spec_delete(SpecHelper { copied: d@, ..spec_save_state(h) }, d@);
            with_result(h2, ok)
        },
        Action::Paste => {
            let (h2, ok) = spec_insert(h, h.copied);
            with_result(h2, ok)
        },
        Action::Duplicate(d) => {
            let (h2, ok) = spec_insert(SpecHelper { copied: d@, ..h }, d@);
            with_result(h2, ok)
        },
        Action::Insert(d) => {
            let (h2, ok) = spec_insert(h, d@);
            with_result(h2, ok)
        },
        Action::Undo => spec_undo(h),
        Action::Redo => spec_redo(h),
        Action::Delete(d) => {
            let (h2, ok) = spec_delete(h, d@);
            with_result(h2, ok)
        },
        _ => h,
    }
}

/// Whether `a` is carried out outside the editor's state (files, the
/// preview, debugging).
pub open spec fn is_outside_action(a: Action) -> bool {
    a is Import || a is Export || a is Update || a is Zoom || a is Debug
}

impl DFGraphicsHelper {
    /// Records the error of a failed edit.
    fn record(&mut self, r: Result<(), DFGHError>)
        requires
            r is Ok || r matches Err(DFGHError::IndexError),
        ensures
            final(self)@ == with_result(old(self)@, r is Ok),
    {
        match r {
            Ok(()) => {},
            Err(e) => {
                let ghost before = self.errors@;
                self.errors.push(e);
                assert(crate::lines::errs(self.errors@) =~= crate::lines::errs(before).push(DFGHError::IndexError));
            },
        }
    }

    /// Carries out an editing action, recording the error of a failed edit,
    /// and hands back the actions that are carried out outside the editor's
    /// state (nothing is left of the others).
    pub fn handle(&mut self, action: Action) -> (r: Action)
        ensures
            final(self)@ == spec_handle(old(self)@, action),
            is_outside_action(action) ==> r == action,
            !is_outside_action(action) ==> r is Idle,
    {
        match action {
            Action::Copy(d) => {
                self.copy(d);
                Action::Idle
            },
            Action::Cut(d) => {
                let r = self.cut(d);
                self.record(r);
                Action::Idle
            },
            Action::Paste => {
                let r = self.paste();
                self.record(r);
                Action::Idle
            },
            Action::Duplicate(d) => {
                self.copy(d);
                let r = self.paste();
                self.record(r);
                Action::Idle
            },
            Action::Insert(d) => {
                let r = self.insert(d);
                self.record(r);
                Action::Idle
            },
            Action::Undo => {
                self.undo();
                Action::Idle
            },
            Action::Redo => {
                self.redo();
                Action::Idle
            },
            Action::Delete(d) => {
                let r = self.delete(d);
                self.record(r);
                Action::Idle
            },
            other => other,
        }
    }
}

/// `h` once its last error is dismissed: after an image error the last edit is
/// undone; after an index error the editor goes back to its first menu and
/// selection.
pub open spec fn spec_dismiss_error(h: SpecHelper) -> SpecHelper {
    if h.errors.len() == 0 {
        h
    } else {
        let h1 = SpecHelper { errors: h.errors.drop_last(), ..h };
        match h.errors.last() {
            DFGHError::ImageError(_) => spec_undo(h1),
            DFGHError::IndexError => SpecHelper {
                main_window: MainWindow::DefaultMenu,
                indices: spec_helper_new().indices,
                ..h1
            },
            _ => h1,
        }
    }
}

impl DFGraphicsHelper {
    /// Dismisses the last error: after an image error the last edit is undone;
    /// after an index error the editor goes back to its first menu and selection.
    pub fn dismiss_error(&mut self)
        ensures
            final(self)@ == spec_dismiss_error(old(self)@),
    {
        let ghost es = self@.errors;
        match self.errors.pop() {
            Some(e) => {
                assert(crate::lines::errs(self.errors@) =~= es.drop_last());
                assert(e@ == es.last());
                match e {
                    DFGHError::ImageError(_) => self.undo(),
                    DFGHError::IndexError => {
                        self.main_window = MainWindow::DefaultMenu;
                        self.indices = GraphicsIndices::new();
                    },
                    _ => {},
                }
            },
            None => {},
        }
    }
}

} // verus!
