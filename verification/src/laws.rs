//! Properties that hold across the editor's operations and of what the readers keep.
use vstd::prelude::*;
use vstd::string::*;
use crate::editor::{
    current, files_delete, files_insert, insert_at, spec_delete, spec_insert, spec_redo, spec_undo,
    SpecContextData, SpecHelper,
};
use crate::graphics_file::{
    empty_file, file_line, file_read_upto, flush_entry, graphics_file_read, SpecGraphicsFile,
};
use crate::creature::spec_creature_new;
use crate::statue::{spec_plant_new, spec_statue_new, spec_tile_graphic_new};
use crate::tile::{spec_tile_page_new, tile_page_file_read, tile_page_file_upto};
use crate::lines::ImageSize;
use crate::group::{group_read, group_read_upto};
use crate::layer::spec_layer_new;
use crate::tile::SpecTilePageFile;
use crate::condition::{condition_display, Palette, SpecCondition};
use crate::creature::SpecCreature;
use crate::gather::{
    conditions_castes, conditions_colors, conditions_customs, conditions_item_groups, conditions_items,
    conditions_metals, conditions_part_groups, creature_caste, sets_conditions, sets_palettes,
};
use crate::items::{color_name, Color, ItemType};
use crate::ordering::{law_sorted_by_key, law_sorted_unique};
use crate::shared::{item_group_key, item_key, part_group_key, shared_of};
use crate::gather::{sets_states, simple_layers_states};
use crate::state::{state_name, State};
use crate::text::text_lt;
use crate::tokens::{caste_name, metal_name, Caste, Metal};

verus! {

/// Undoing right after an insert, whether it succeeded or not, gives back the
/// files and selection from before it, and the undo history from before it.
pub proof fn law_undo_reverts_insert(h: SpecHelper, d: SpecContextData)
    ensures
        current(spec_undo(spec_insert(h, d).0)) == current(h),
        spec_undo(spec_insert(h, d).0).undo_buffer == h.undo_buffer,
        spec_undo(spec_insert(h, d).0).redo_buffer == seq![current(h)],
{
    let h1 = spec_insert(h, d).0;
    assert(h1.undo_buffer == h.undo_buffer.push(current(h)));
    assert(h1.undo_buffer.drop_last() =~= h.undo_buffer);
    assert(seq![].push(current(h)) =~= seq![current(h)]);
}

/// Undoing right after a delete, whether it succeeded or not, gives back the
/// files and selection from before it, and the undo history from before it.
pub proof fn law_undo_reverts_delete(h: SpecHelper, d: SpecContextData)
    ensures
        current(spec_undo(spec_delete(h, d).0)) == current(h),
        spec_undo(spec_delete(h, d).0).undo_buffer == h.undo_buffer,
        spec_undo(spec_delete(h, d).0).redo_buffer == seq![current(h)],
{
    let h1 = spec_delete(h, d).0;
    assert(h1.undo_buffer == h.undo_buffer.push(current(h)));
    assert(h1.undo_buffer.drop_last() =~= h.undo_buffer);
    assert(seq![].push(current(h)) =~= seq![current(h)]);
}

/// Redoing right after an undo keeps the files and selection that the undo
/// brought back, and restores the undo history.
pub proof fn law_redo_after_undo(h: SpecHelper)
    requires
        h.undo_buffer.len() > 0,
    ensures
        current(spec_redo(spec_undo(h))) == current(spec_undo(h)),
        spec_redo(spec_undo(h)).undo_buffer == h.undo_buffer,
        spec_redo(spec_undo(h)).redo_buffer == h.redo_buffer,
{
    let u = spec_undo(h);
    assert(u.redo_buffer.drop_last() =~= h.redo_buffer);
    assert(h.undo_buffer.drop_last().push(h.undo_buffer.last()) =~= h.undo_buffer);
}

/// Without a saved state, undo and redo change nothing.
pub proof fn law_undo_redo_without_history(h: SpecHelper)
    ensures
        h.undo_buffer.len() == 0 ==> spec_undo(h) == h,
        h.redo_buffer.len() == 0 ==> spec_redo(h) == h,
{
}

/// Every edit first saves the state and drops the redo history.
pub proof fn law_edits_drop_redo(h: SpecHelper, d: SpecContextData)
    ensures
        spec_insert(h, d).0.redo_buffer.len() == 0,
        spec_delete(h, d).0.redo_buffer.len() == 0,
        spec_insert(h, d).0.undo_buffer == h.undo_buffer.push(current(h)),
        spec_delete(h, d).0.undo_buffer == h.undo_buffer.push(current(h)),
{
}

/// Pasting right after copying `d` inserts `d`.
pub proof fn law_paste_after_copy(h: SpecHelper, d: SpecContextData)
    ensures
        spec_insert(SpecHelper { copied: d, ..h }, d) == ({
            let (h2, ok) = spec_insert(h, d);
            (SpecHelper { copied: d, ..h2 }, ok)
        }),
{
}

/// Removing what was just inserted at a position within a list gives the list back.
pub proof fn lemma_remove_inserted<T>(s: Seq<T>, i: usize, x: T)
    requires
        i < s.len(),
    ensures
        insert_at(s, i, x).remove(i as int) == s,
{
    assert(insert_at(s, i, x).remove(i as int) =~= s);
}

/// Deleting the selected tile page file right after inserting one at the
/// selection gives back the tile page files (where the selection is within them).
pub proof fn law_delete_after_insert_tile_page_file(
    t: Seq<SpecTilePageFile>,
    g: Seq<SpecGraphicsFile>,
    f: SpecTilePageFile,
    d: SpecContextData,
    ix: crate::editor::GraphicsIndices,
)
    requires
        ix.tile_page_file_index < t.len(),
        d is TilePageFile,
    ensures
        ({
            let (t1, g1) = files_insert(t, g, SpecContextData::TilePageFile(f), ix).unwrap();
            let (t2, g2, _, _) = files_delete(t1, g1, d, ix).unwrap();
            t2 == t && g2 == g
        }),
{
    lemma_remove_inserted(t, ix.tile_page_file_index, f);
}

/// Deleting the selected graphics file right after inserting one at the
/// selection gives back the graphics files (where the selection is within them).
pub proof fn law_delete_after_insert_graphics_file(
    t: Seq<SpecTilePageFile>,
    g: Seq<SpecGraphicsFile>,
    f: SpecGraphicsFile,
    d: SpecContextData,
    ix: crate::editor::GraphicsIndices,
)
    requires
        ix.graphics_file_index < g.len(),
        d is GraphicsFile,
    ensures
        ({
            let (t1, g1) = files_insert(t, g, SpecContextData::GraphicsFile(f), ix).unwrap();
            let (t2, g2, _, _) = files_delete(t1, g1, d, ix).unwrap();
            t2 == t && g2 == g
        }),
{
    lemma_remove_inserted(g, ix.graphics_file_index, f);
}

/// The group reader never keeps a fresh layer: after any number of lines.
pub proof fn lemma_group_upto_no_fresh(buffer: Seq<Seq<Seq<char>>>, n: int)
    ensures
        forall|k: int|
            0 <= k < group_read_upto(buffer, n).0.layers.len() ==> #[trigger] group_read_upto(buffer, n).0.layers[k]
                != spec_layer_new(),
    decreases n,
{
    if n > 0 {
        lemma_group_upto_no_fresh(buffer, n - 1);
    }
}

/// A layer group read from any block holds no fresh layer: blocks that read
/// as a fresh layer are dropped.
pub proof fn law_read_group_keeps_no_fresh_layer(buffer: Seq<Seq<Seq<char>>>)
    ensures
        forall|k: int|
            0 <= k < group_read(buffer).0.layers.len() ==> #[trigger] group_read(buffer).0.layers[k] != spec_layer_new(),
{
    lemma_group_upto_no_fresh(buffer, buffer.len() as int);
}

/// What a creature names is gathered in lists sorted by key with no key twice:
/// palettes by name, colors by name, items and item groups by equipment and
/// names, castes by name, custom conditions by text, random part groups by
/// name and range, metals by name.
pub proof fn law_gathered_lists_sorted(c: SpecCreature)
    ensures
        ({
            let sh = shared_of(c);
            &&& forall|i: int, j: int|
                0 <= i < j < sh.palettes.len() ==> text_lt((#[trigger] sh.palettes[i]).name, (#[trigger] sh.palettes[j]).name)
            &&& forall|i: int, j: int|
                0 <= i < j < sh.colors.len() ==> text_lt(color_name(#[trigger] sh.colors[i]), color_name(#[trigger] sh.colors[j]))
            &&& forall|i: int, j: int|
                0 <= i < j < sh.items.len() ==> text_lt(item_key(#[trigger] sh.items[i]), item_key(#[trigger] sh.items[j]))
            &&& forall|i: int, j: int|
                0 <= i < j < sh.item_groups.len() ==> text_lt(
                    item_group_key(#[trigger] sh.item_groups[i]),
                    item_group_key(#[trigger] sh.item_groups[j]),
                )
            &&& forall|i: int, j: int|
                0 <= i < j < sh.castes.len() ==> text_lt(caste_name(#[trigger] sh.castes[i]), caste_name(#[trigger] sh.castes[j]))
            &&& forall|i: int, j: int|
                0 <= i < j < sh.conditions.len() ==> text_lt(
                    condition_display(#[trigger] sh.conditions[i]),
                    condition_display(#[trigger] sh.conditions[j]),
                )
            &&& forall|i: int, j: int|
                0 <= i < j < sh.random_part_groups.len() ==> text_lt(
                    part_group_key(#[trigger] sh.random_part_groups[i]),
                    part_group_key(#[trigger] sh.random_part_groups[j]),
                )
            &&& forall|i: int, j: int|
                0 <= i < j < sh.metals.len() ==> text_lt(metal_name(#[trigger] sh.metals[i]), metal_name(#[trigger] sh.metals[j]))
        }),
{
    let cs = sets_conditions(c.layer_sets);
    law_sorted_unique(sets_palettes(c.layer_sets), |p: Palette<Seq<char>>| p.name);
    law_sorted_unique(conditions_colors(cs), |x: Color<Seq<char>>| color_name(x));
    law_sorted_unique(conditions_items(cs), |x: (ItemType<Seq<char>>, Seq<char>)| item_key(x));
    law_sorted_unique(conditions_item_groups(cs), |x: (ItemType<Seq<char>>, Seq<Seq<char>>)| item_group_key(x));
    law_sorted_unique(creature_caste(c) + conditions_castes(cs), |x: Caste<Seq<char>>| caste_name(x));
    law_sorted_unique(conditions_customs(cs), |x: SpecCondition| condition_display(x));
    law_sorted_unique(conditions_part_groups(cs), |x: (Seq<char>, u32)| part_group_key(x));
    law_sorted_unique(conditions_metals(cs), |x: Metal<Seq<char>>| metal_name(x));
}

/// The tile page file reader never keeps a fresh tile page: after any number of lines.
pub proof fn lemma_tile_page_file_upto_no_fresh(
    buffer: Seq<Seq<Seq<char>>>,
    n: int,
    raw: Seq<Seq<char>>,
    path: Seq<char>,
    images: Seq<ImageSize>,
)
    ensures
        forall|k: int|
            0 <= k < tile_page_file_upto(buffer, n, raw, path, images).0.len() ==> #[trigger] tile_page_file_upto(
                buffer,
                n,
                raw,
                path,
                images,
            ).0[k] != spec_tile_page_new(),
    decreases n,
{
    if n > 0 {
        lemma_tile_page_file_upto_no_fresh(buffer, n - 1, raw, path, images);
        let (tps, es, start) = tile_page_file_upto(buffer, n - 1, raw, path, images);
        let i = n - 1;
        let tp = crate::tile::tile_page_read(buffer.subrange(start, i), images).0;
        if start < i && tp != spec_tile_page_new() {
            let v = tps.push(tp);
            assert forall|k: int| 0 <= k < v.len() implies #[trigger] v[k] != spec_tile_page_new() by {
                if k < tps.len() {
                    assert(v[k] == tps[k]);
                }
            }
        }
    }
}

/// A tile page file read from any lines holds no fresh tile page: blocks that
/// read as a fresh tile page are dropped.
pub proof fn law_read_tile_page_file_keeps_no_fresh_page(
    buffer: Seq<Seq<Seq<char>>>,
    raw: Seq<Seq<char>>,
    path: Seq<char>,
    file_name: Option<Seq<char>>,
    images: Seq<ImageSize>,
)
    ensures
        forall|k: int|
            0 <= k < tile_page_file_read(buffer, raw, path, file_name, images).0.tile_pages.len() ==> #[trigger] tile_page_file_read(
                buffer,
                raw,
                path,
                file_name,
                images,
            ).0.tile_pages[k] != spec_tile_page_new(),
{
    lemma_tile_page_file_upto_no_fresh(buffer, buffer.len() as int, raw, path, images);
}

/// Whether a graphics file holds no fresh entry.
pub open spec fn no_fresh_entry(f: SpecGraphicsFile) -> bool {
    match f {
        SpecGraphicsFile::CreatureFile(_, cs) => forall|k: int| 0 <= k < cs.len() ==> #[trigger] cs[k] != spec_creature_new(),
        SpecGraphicsFile::StatueCreatureFile(_, ss) => forall|k: int|
            0 <= k < ss.len() ==> #[trigger] ss[k] != spec_statue_new(),
        SpecGraphicsFile::PlantFile(_, ps) => forall|k: int| 0 <= k < ps.len() ==> #[trigger] ps[k] != spec_plant_new(),
        SpecGraphicsFile::TileGraphicsFile(_, ts) => forall|k: int|
            0 <= k < ts.len() ==> #[trigger] ts[k] != spec_tile_graphic_new(),
        SpecGraphicsFile::DefaultFile => true,
    }
}

/// Reading a block into a file without fresh entries leaves it without them.
pub proof fn lemma_flush_entry_no_fresh(
    gf: SpecGraphicsFile,
    es: Seq<crate::error::DFGHError<Seq<char>>>,
    block: Seq<Seq<Seq<char>>>,
    at: usize,
    raw: Seq<Seq<char>>,
    path: Seq<char>,
    images: Seq<ImageSize>,
)
    requires
        no_fresh_entry(gf),
    ensures
        no_fresh_entry(flush_entry(gf, es, block, at, raw, path, images).0),
{
    match gf {
        SpecGraphicsFile::CreatureFile(n, cs) => {
            let c = crate::creature::creature_read(block, images).0;
            if c != spec_creature_new() {
                let v = cs.push(c);
                assert forall|k: int| 0 <= k < v.len() implies #[trigger] v[k] != spec_creature_new() by {
                    if k < cs.len() {
                        assert(v[k] == cs[k]);
                    }
                }
            }
        },
        SpecGraphicsFile::StatueCreatureFile(n, ss) => {
            let s = crate::statue::statue_read(block).0;
            if s != spec_statue_new() {
                let v = ss.push(s);
                assert forall|k: int| 0 <= k < v.len() implies #[trigger] v[k] != spec_statue_new() by {
                    if k < ss.len() {
                        assert(v[k] == ss[k]);
                    }
                }
            }
        },
        _ => {},
    }
}

/// The graphics file reader never keeps a fresh entry: after any number of lines.
pub proof fn lemma_file_upto_no_fresh(
    buffer: Seq<Seq<Seq<char>>>,
    n: int,
    raw: Seq<Seq<char>>,
    path: Seq<char>,
    name: Seq<char>,
    images: Seq<ImageSize>,
)
    ensures
        no_fresh_entry(file_read_upto(buffer, n, raw, path, name, images).0),
    decreases n,
{
    if n > 0 {
        lemma_file_upto_no_fresh(buffer, n - 1, raw, path, name, images);
        reveal(file_line);
        let st = file_read_upto(buffer, n - 1, raw, path, name, images);
        let i = n - 1;
        let (gf, es, start) = st;
        if start < i {
            lemma_flush_entry_no_fresh(gf, es, buffer.subrange(start, i), i as usize, raw, path, images);
        }
        match crate::graphics_file::graphics_kind(buffer[i][0]) {
            Some(k) => {
                let e = empty_file(k, name);
                assert(no_fresh_entry(e));
            },
            None => {},
        }
    }
}

/// A graphics file read from any lines holds no fresh creature, statue, plant
/// or tile graphic: blocks that read as a fresh entry are dropped.
pub proof fn law_read_graphics_file_keeps_no_fresh_entry(
    buffer: Seq<Seq<Seq<char>>>,
    raw: Seq<Seq<char>>,
    path: Seq<char>,
    file_name: Option<Seq<char>>,
    images: Seq<ImageSize>,
)
    ensures
        no_fresh_entry(graphics_file_read(buffer, raw, path, file_name, images).0),
{
    let n = buffer.len() as int;
    let name = crate::tile::file_stem_name(file_name);
    lemma_file_upto_no_fresh(buffer, n, raw, path, name, images);
    let (gf, es, start) = file_read_upto(buffer, n, raw, path, name, images);
    if start < n {
        lemma_flush_entry_no_fresh(gf, es, buffer.subrange(start, n), n as usize, raw, path, images);
    }
}

/// Whether `e` is an import error naming the file at `path`, or an unknown import error.
pub open spec fn error_names_file(e: crate::error::DFGHError<Seq<char>>, path: Seq<char>) -> bool {
    match e {
        crate::error::DFGHError::ImportUnknownError => true,
        crate::error::DFGHError::ImportError(_, p, _, _) => p == path,
        _ => false,
    }
}

/// Whether every error of `es` is an import error naming the file at `path`,
/// or an unknown import error.
pub open spec fn errors_name_file(es: Seq<crate::error::DFGHError<Seq<char>>>, path: Seq<char>) -> bool {
    forall|k: int| 0 <= k < es.len() ==> error_names_file(#[trigger] es[k], path)
}

/// Errors of a block, as the file reports them, name the file.
pub proof fn lemma_wrap_file_names_file(
    es: Seq<crate::error::DFGHError<Seq<char>>>,
    more: Seq<crate::error::DFGHError<Seq<char>>>,
    raw: Seq<Seq<char>>,
    at: usize,
    path: Seq<char>,
)
    requires
        errors_name_file(es, path),
    ensures
        errors_name_file(es + crate::lines::wrap_all_file(more, raw, at, path), path),
{
    let w = crate::lines::wrap_all_file(more, raw, at, path);
    let all = es + w;
    assert forall|k: int| 0 <= k < all.len() implies error_names_file(#[trigger] all[k], path) by {
        if k >= es.len() {
            assert(all[k] == w[k - es.len()]);
            assert(w[k - es.len()] == crate::error::spec_wrap_file_error(raw, more[k - es.len()], at, path));
        } else {
            assert(all[k] == es[k]);
        }
    }
}

/// The graphics file reader's errors name the file: after any number of lines.
pub proof fn lemma_file_upto_errors_name_file(
    buffer: Seq<Seq<Seq<char>>>,
    n: int,
    raw: Seq<Seq<char>>,
    path: Seq<char>,
    name: Seq<char>,
    images: Seq<ImageSize>,
)
    ensures
        errors_name_file(file_read_upto(buffer, n, raw, path, name, images).1, path),
    decreases n,
{
    if n > 0 {
        lemma_file_upto_errors_name_file(buffer, n - 1, raw, path, name, images);
        reveal(file_line);
        let (gf, es, start) = file_read_upto(buffer, n - 1, raw, path, name, images);
        let i = n - 1;
        let block = buffer.subrange(start, i);
        lemma_wrap_file_names_file(es, crate::creature::creature_read(block, images).1, raw, i as usize, path);
        lemma_wrap_file_names_file(es, crate::statue::statue_read(block).1, raw, i as usize, path);
    }
}

/// Every error that reading a graphics file reports names that file (or is an
/// unknown import error).
pub proof fn law_graphics_file_errors_name_the_file(
    buffer: Seq<Seq<Seq<char>>>,
    raw: Seq<Seq<char>>,
    path: Seq<char>,
    file_name: Option<Seq<char>>,
    images: Seq<ImageSize>,
)
    ensures
        errors_name_file(graphics_file_read(buffer, raw, path, file_name, images).1, path),
{
    let n = buffer.len() as int;
    let name = crate::tile::file_stem_name(file_name);
    lemma_file_upto_errors_name_file(buffer, n, raw, path, name, images);
    let (gf, es, start) = file_read_upto(buffer, n, raw, path, name, images);
    let block = buffer.subrange(start, n);
    lemma_wrap_file_names_file(es, crate::creature::creature_read(block, images).1, raw, n as usize, path);
    lemma_wrap_file_names_file(es, crate::statue::statue_read(block).1, raw, n as usize, path);
}

/// The tile page file reader's errors name the file: after any number of lines.
pub proof fn lemma_tile_page_file_upto_errors_name_file(
    buffer: Seq<Seq<Seq<char>>>,
    n: int,
    raw: Seq<Seq<char>>,
    path: Seq<char>,
    images: Seq<ImageSize>,
)
    ensures
        errors_name_file(tile_page_file_upto(buffer, n, raw, path, images).1, path),
    decreases n,
{
    if n > 0 {
        lemma_tile_page_file_upto_errors_name_file(buffer, n - 1, raw, path, images);
        let (tps, es, start) = tile_page_file_upto(buffer, n - 1, raw, path, images);
        let i = n - 1;
        let block = buffer.subrange(start, i);
        lemma_wrap_file_names_file(es, crate::tile::tile_page_read(block, images).1, raw, i as usize, path);
    }
}

/// Every error that reading a tile page file reports names that file (or is an
/// unknown import error).
pub proof fn law_tile_page_file_errors_name_the_file(
    buffer: Seq<Seq<Seq<char>>>,
    raw: Seq<Seq<char>>,
    path: Seq<char>,
    file_name: Option<Seq<char>>,
    images: Seq<ImageSize>,
)
    ensures
        errors_name_file(tile_page_file_read(buffer, raw, path, file_name, images).1, path),
{
    let n = buffer.len() as int;
    lemma_tile_page_file_upto_errors_name_file(buffer, n, raw, path, images);
    let (tps, es, start) = tile_page_file_upto(buffer, n, raw, path, images);
    let block = buffer.subrange(start, n);
    lemma_wrap_file_names_file(es, crate::tile::tile_page_read(block, images).1, raw, n as usize, path);
}

/// The custom states a creature names are gathered sorted by name (states
/// of one name may repeat where they are not the same state).
pub proof fn law_gathered_states_sorted(c: SpecCreature)
    ensures
        forall|i: int, j: int|
            0 <= i < j < shared_of(c).states.len() ==> !text_lt(
                state_name(#[trigger] shared_of(c).states[j]),
                state_name(#[trigger] shared_of(c).states[i]),
            ),
{
    law_sorted_by_key(
        simple_layers_states(c.simple_layers) + sets_states(c.layer_sets),
        |x: State<Seq<char>>| state_name(x),
    );
}

/// Inserting a tile page puts it at the selected position of the selected
/// tile page file's pages (at their end where the position is past it): the
/// pages before it stay before it, the others follow it, and nothing else changes.
pub proof fn law_insert_tile_page_at_selection(
    t: Seq<SpecTilePageFile>,
    g: Seq<SpecGraphicsFile>,
    page: crate::tile::TilePage<Seq<char>>,
    ix: crate::editor::GraphicsIndices,
)
    requires
        ix.tile_page_file_index < t.len(),
    ensures
        ({
            let fi = ix.tile_page_file_index as int;
            let i = ix.tile_page_index as int;
            let before = t[fi].tile_pages;
            let r = files_insert(t, g, SpecContextData::TilePage(page), ix);
            &&& r is Some
            &&& r.unwrap().1 == g
            &&& r.unwrap().0.len() == t.len()
            &&& forall|f: int| 0 <= f < t.len() && f != fi ==> #[trigger] r.unwrap().0[f] == t[f]
            &&& r.unwrap().0[fi].name == t[fi].name
            &&& r.unwrap().0[fi].tile_pages.len() == before.len() + 1
            &&& (i < before.len() ==> {
                &&& r.unwrap().0[fi].tile_pages[i] == page
                &&& forall|k: int| 0 <= k < i ==> #[trigger] r.unwrap().0[fi].tile_pages[k] == before[k]
                &&& forall|k: int| i < k <= before.len() ==> #[trigger] r.unwrap().0[fi].tile_pages[k] == before[k - 1]
            })
            &&& (i >= before.len() ==> {
                &&& r.unwrap().0[fi].tile_pages[before.len() as int] == page
                &&& forall|k: int| 0 <= k < before.len() ==> #[trigger] r.unwrap().0[fi].tile_pages[k] == before[k]
            })
        }),
{
}

/// Whether a line is the header of a statue.
pub open spec fn statue_header(l: Seq<Seq<char>>) -> bool {
    l.len() >= 1 && (l[0] == "STATUE_CREATURE_GRAPHICS"@ || l[0] == "STATUE_CREATURE_CASTE_GRAPHICS"@)
}

/// After a caste header, the statue reader keeps the header's creature and
/// caste while no other header comes.
proof fn lemma_statue_keeps_caste(buffer: Seq<Seq<Seq<char>>>, n: int)
    requires
        1 <= n <= buffer.len(),
        buffer[0].len() >= 3,
        buffer[0][0] == "STATUE_CREATURE_CASTE_GRAPHICS"@,
        crate::statue::statue_lines_ok(buffer),
        forall|i: int| 1 <= i < buffer.len() ==> !statue_header(#[trigger] buffer[i]),
    ensures
        crate::statue::statue_read_upto(buffer, n).0.caste == Some(crate::tokens::caste_from(buffer[0][2])),
        crate::statue::statue_read_upto(buffer, n).0.creature_name == buffer[0][1],
    decreases n,
{
    if n == 1 {
        reveal_strlit("STATUE_CREATURE_GRAPHICS");
        reveal_strlit("STATUE_CREATURE_CASTE_GRAPHICS");
        assert("STATUE_CREATURE_GRAPHICS"@.len() == 24);
        assert("STATUE_CREATURE_CASTE_GRAPHICS"@.len() == 30);
        assert(crate::statue::statue_read_upto(buffer, 0).2 == false);
    } else {
        lemma_statue_keeps_caste(buffer, n - 1);
        let st = crate::statue::statue_read_upto(buffer, n - 1);
        if !st.2 {
            assert(buffer[n - 1].len() >= 1);
            assert(!statue_header(buffer[n - 1]));
        }
    }
}

/// Reading a statue whose block starts with a caste header of at least three
/// fields, and holds no other header, gives the header's creature and the
/// caste its third field names.
pub proof fn law_statue_caste_from_header(buffer: Seq<Seq<Seq<char>>>)
    requires
        buffer.len() >= 1,
        buffer[0].len() >= 3,
        buffer[0][0] == "STATUE_CREATURE_CASTE_GRAPHICS"@,
        crate::statue::statue_lines_ok(buffer),
        forall|i: int| 1 <= i < buffer.len() ==> !statue_header(#[trigger] buffer[i]),
    ensures
        crate::statue::statue_read(buffer).0.caste == Some(crate::tokens::caste_from(buffer[0][2])),
        crate::statue::statue_read(buffer).0.creature_name == buffer[0][1],
{
    lemma_statue_keeps_caste(buffer, buffer.len() as int);
}

} // verus!
