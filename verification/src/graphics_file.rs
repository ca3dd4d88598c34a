//! Graphics files: a named list of creatures, statues, plants or tile graphics.
use vstd::prelude::*;
use vstd::string::*;
use crate::creature::{creature_display, creature_displayable, creature_read, spec_creature_new, Creature, SpecCreature};
use crate::error::DFGHError;
use crate::lines::{append_file_wrapped, clone_block, errors_within, errs, max_lines, wrap_all_file, ImageSize};
use crate::statue::{
    lemma_statue_done_stays, spec_statue_new, statue_display, statue_displayable, statue_lines_ok, statue_read,
    statue_read_upto, Plant, SpecStatue, Statue, TileGraphic,
};
use crate::text::{
    case_converted, convert_case, push_str, replace, replace_all, str_eq, string_of, CaseBoundaries, TextCase,
};
use crate::tile::{file_stem_name, stem_name};

verus! {

/// The kind of entries a graphics file holds.
#[derive(Clone, Copy, Debug, PartialEq, Eq, Structural)]
pub enum GraphicsKind {
    Creature,
    Statue,
    Plant,
    Tile,
}

/// The kind of graphics file whose entries start with the token `t`, if any.
pub open spec fn graphics_kind(t: Seq<char>) -> Option<GraphicsKind> {
    if t == "CREATURE_CASTE_GRAPHICS"@ || t == "CREATURE_GRAPHICS"@ {
        Some(GraphicsKind::Creature)
    } else if t == "STATUE_CREATURE_CASTE_GRAPHICS"@ || t == "STATUE_CREATURE_GRAPHICS"@ {
        Some(GraphicsKind::Statue)
    } else if t == "PLANT_GRAPHICS"@ {
        Some(GraphicsKind::Plant)
    } else if t == "TILE_GRAPHICS"@ || t == "HELM_GRAPHICS"@ || t == "ARMOR_GRAPHICS"@ || t == "PANTS_GRAPHICS"@
        || t == "GLOVES_GRAPHICS"@ || t == "SHOES_GRAPHICS"@ || t == "AMMO_GRAPHICS"@ || t == "SIEGEAMMO_GRAPHICS"@
        || t == "WEAPON_GRAPHICS"@ || t == "SHIELD_GRAPHICS"@ || t == "TRAPCOMP_GRAPHICS"@ || t == "BOULDER_GRAPHICS"@
        || t == "ROUGH_GEM_GRAPHICS"@ || t == "BARS_GRAPHICS"@ || t == "FOOD_GRAPHICS"@ || t == "TOY_GRAPHICS"@
        || t == "TOOL_GRAPHICS"@ || t == "ADD_TOOL_GRAPHICS"@ || t == "FOOD_CONTAINER_GRAPHICS"@ {
        Some(GraphicsKind::Tile)
    } else {
        None
    }
}

/// The kind of graphics file whose entries start with the token `t`, if any.
pub fn kind_of_token(t: &str) -> (r: Option<GraphicsKind>)
    ensures
        r == graphics_kind(t@),
{
    if str_eq(t, "CREATURE_CASTE_GRAPHICS") || str_eq(t, "CREATURE_GRAPHICS") {
        Some(GraphicsKind::Creature)
    } else if str_eq(t, "STATUE_CREATURE_CASTE_GRAPHICS") || str_eq(t, "STATUE_CREATURE_GRAPHICS") {
        Some(GraphicsKind::Statue)
    } else if str_eq(t, "PLANT_GRAPHICS") {
        Some(GraphicsKind::Plant)
    } else if str_eq(t, "TILE_GRAPHICS") || str_eq(t, "HELM_GRAPHICS") || str_eq(t, "ARMOR_GRAPHICS") || str_eq(
        t,
        "PANTS_GRAPHICS",
    ) || str_eq(t, "GLOVES_GRAPHICS") || str_eq(t, "SHOES_GRAPHICS") || str_eq(t, "AMMO_GRAPHICS") || str_eq(
        t,
        "SIEGEAMMO_GRAPHICS",
    ) || str_eq(t, "WEAPON_GRAPHICS") || str_eq(t, "SHIELD_GRAPHICS") || str_eq(t, "TRAPCOMP_GRAPHICS") || str_eq(
        t,
        "BOULDER_GRAPHICS",
    ) || str_eq(t, "ROUGH_GEM_GRAPHICS") || str_eq(t, "BARS_GRAPHICS") || str_eq(t, "FOOD_GRAPHICS") || str_eq(
        t,
        "TOY_GRAPHICS",
    ) || str_eq(t, "TOOL_GRAPHICS") || str_eq(t, "ADD_TOOL_GRAPHICS") || str_eq(t, "FOOD_CONTAINER_GRAPHICS") {
        Some(GraphicsKind::Tile)
    } else {
        None
    }
}

/// A graphics file: its kind, name and entries.
#[derive(Clone, Debug, PartialEq)]
pub enum GraphicsFile {
    DefaultFile,
    CreatureFile(String, Vec<Creature>),
    StatueCreatureFile(String, Vec<Statue>),
    PlantFile(String, Vec<Plant>),
    TileGraphicsFile(String, Vec<TileGraphic>),
}

/// The view of a [`GraphicsFile`].
pub enum SpecGraphicsFile {
    DefaultFile,
    CreatureFile(Seq<char>, Seq<SpecCreature>),
    StatueCreatureFile(Seq<char>, Seq<SpecStatue>),
    PlantFile(Seq<char>, Seq<Plant<Seq<char>>>),
    TileGraphicsFile(Seq<char>, Seq<TileGraphic<Seq<char>>>),
}

impl View for GraphicsFile {
    type V = SpecGraphicsFile;

    open spec fn view(&self) -> SpecGraphicsFile {
        match self {
            GraphicsFile::DefaultFile => SpecGraphicsFile::DefaultFile,
            GraphicsFile::CreatureFile(n, v) => SpecGraphicsFile::CreatureFile(n@, v@.map_values(|c: Creature| c@)),
            GraphicsFile::StatueCreatureFile(n, v) => SpecGraphicsFile::StatueCreatureFile(
                n@,
                v@.map_values(|s: Statue| s@),
            ),
            GraphicsFile::PlantFile(n, v) => SpecGraphicsFile::PlantFile(n@, v@.map_values(|p: Plant| p@)),
            GraphicsFile::TileGraphicsFile(n, v) => SpecGraphicsFile::TileGraphicsFile(
                n@,
                v@.map_values(|t: TileGraphic| t@),
            ),
        }
    }
}

/// An empty graphics file of kind `k` named `name`.
pub open spec fn empty_file(k: GraphicsKind, name: Seq<char>) -> SpecGraphicsFile {
    match k {
        GraphicsKind::Creature => SpecGraphicsFile::CreatureFile(name, seq![]),
        GraphicsKind::Statue => SpecGraphicsFile::StatueCreatureFile(name, seq![]),
        GraphicsKind::Plant => SpecGraphicsFile::PlantFile(name, seq![]),
        GraphicsKind::Tile => SpecGraphicsFile::TileGraphicsFile(name, seq![]),
    }
}

/// The kind of a graphics file (none before its kind is known).
pub open spec fn file_kind(gf: SpecGraphicsFile) -> Option<GraphicsKind> {
    match gf {
        SpecGraphicsFile::DefaultFile => None,
        SpecGraphicsFile::CreatureFile(..) => Some(GraphicsKind::Creature),
        SpecGraphicsFile::StatueCreatureFile(..) => Some(GraphicsKind::Statue),
        SpecGraphicsFile::PlantFile(..) => Some(GraphicsKind::Plant),
        SpecGraphicsFile::TileGraphicsFile(..) => Some(GraphicsKind::Tile),
    }
}

/// Reads the pending block as an entry of the file's kind, keeps it unless it
/// is a fresh one, and adds its errors as met in the block ending at line `at`
/// of the file.
pub open spec fn flush_entry(
    gf: SpecGraphicsFile,
    es: Seq<DFGHError<Seq<char>>>,
    block: Seq<Seq<Seq<char>>>,
    at: usize,
    raw: Seq<Seq<char>>,
    path: Seq<char>,
    images: Seq<ImageSize>,
) -> (SpecGraphicsFile, Seq<DFGHError<Seq<char>>>) {
    match gf {
        SpecGraphicsFile::CreatureFile(n, cs) => {
            let (c, ces) = creature_read(block, images);
            (
                SpecGraphicsFile::CreatureFile(n, if c == spec_creature_new() { cs } else { cs.push(c) }),
                es + wrap_all_file(ces, raw, at, path),
            )
        },
        SpecGraphicsFile::StatueCreatureFile(n, ss) => {
            let (s, ses) = statue_read(block);
            (
                SpecGraphicsFile::StatueCreatureFile(n, if s == spec_statue_new() { ss } else { ss.push(s) }),
                es + wrap_all_file(ses, raw, at, path),
            )
        },
        _ => (gf, es),
    }
}

/// The graphics file reader's state: the file so far, the errors met, and
/// where the pending block starts.
pub type FileReadState = (SpecGraphicsFile, Seq<DFGHError<Seq<char>>>, int);

/// Whether line `l` starts a new entry of a file of kind `k`.
pub open spec fn starts_entry(l: Seq<Seq<char>>, k: GraphicsKind) -> bool {
    l.len() >= 1 && graphics_kind(l[0]) == Some(k)
}

/// Whether line `l` makes a file of no kind yet one of some kind.
pub open spec fn names_kind(l: Seq<Seq<char>>) -> bool {
    l.len() >= 2 && graphics_kind(l[0]) is Some
}

/// The graphics file reader's state after line `i` of `buffer`.
#[verifier::opaque]
pub open spec fn file_line(
    st: FileReadState,
    buffer: Seq<Seq<Seq<char>>>,
    i: int,
    raw: Seq<Seq<char>>,
    path: Seq<char>,
    name: Seq<char>,
    images: Seq<ImageSize>,
) -> FileReadState {
    let (gf, es, start) = st;
    let l = buffer[i];
    match file_kind(gf) {
        None => if names_kind(l) {
            (empty_file(graphics_kind(l[0]).unwrap(), name), es, i)
        } else {
            st
        },
        Some(k) => if starts_entry(l, k) && start < i {
            let (gf2, es2) = flush_entry(gf, es, buffer.subrange(start, i), i as usize, raw, path, images);
            (gf2, es2, i)
        } else {
            st
        },
    }
}

/// The graphics file reader's state after the first `n` lines of `buffer`.
pub open spec fn file_read_upto(
    buffer: Seq<Seq<Seq<char>>>,
    n: int,
    raw: Seq<Seq<char>>,
    path: Seq<char>,
    name: Seq<char>,
    images: Seq<ImageSize>,
) -> FileReadState
    decreases n,
{
    if n <= 0 {
        (SpecGraphicsFile::DefaultFile, seq![], 0)
    } else {
        file_line(file_read_upto(buffer, n - 1, raw, path, name, images), buffer, n - 1, raw, path, name, images)
    }
}

/// The graphics file and errors read from the lines of the file at `path` named
/// `file_name` (its raw lines are `raw`), given the sizes of the images that exist.
pub open spec fn graphics_file_read(
    buffer: Seq<Seq<Seq<char>>>,
    raw: Seq<Seq<char>>,
    path: Seq<char>,
    file_name: Option<Seq<char>>,
    images: Seq<ImageSize>,
) -> (SpecGraphicsFile, Seq<DFGHError<Seq<char>>>) {
    let n = buffer.len() as int;
    let (gf, es, start) = file_read_upto(buffer, n, raw, path, file_stem_name(file_name), images);
    if start < n {
        flush_entry(gf, es, buffer.subrange(start, n), n as usize, raw, path, images)
    } else {
        (gf, es)
    }
}

/// Whether a block of a file of kind `k` can be read: a statue block must not
/// reach a line without a token before its tile line.
pub open spec fn block_readable(k: GraphicsKind, block: Seq<Seq<Seq<char>>>) -> bool {
    k == GraphicsKind::Statue ==> statue_lines_ok(block)
}

/// How a graphics file splits into blocks after its first `n` lines: its kind,
/// where the pending block starts, and whether every finished block can be read.
pub open spec fn block_scan(buffer: Seq<Seq<Seq<char>>>, n: int) -> (Option<GraphicsKind>, int, bool)
    decreases n,
{
    if n <= 0 {
        (None, 0, true)
    } else {
        let (kind, start, ok) = block_scan(buffer, n - 1);
        let i = n - 1;
        let l = buffer[i];
        match kind {
            None => if names_kind(l) {
                (graphics_kind(l[0]), i, ok)
            } else {
                (kind, start, ok)
            },
            Some(k) => if starts_entry(l, k) && start < i {
                (kind, i, ok && block_readable(k, buffer.subrange(start, i)))
            } else {
                (kind, start, ok)
            },
        }
    }
}

/// Whether every block of a graphics file can be read.
pub open spec fn graphics_file_readable(buffer: Seq<Seq<Seq<char>>>) -> bool {
    let n = buffer.len() as int;
    let (kind, start, ok) = block_scan(buffer, n);
    ok && (kind is Some && start < n ==> block_readable(kind.unwrap(), buffer.subrange(start, n)))
}

/// Whether every block so far can be read only if every earlier one can.
pub proof fn lemma_scan_ok_mono(buffer: Seq<Seq<Seq<char>>>, i: int, j: int)
    requires
        0 <= i <= j,
        block_scan(buffer, j).2,
    ensures
        block_scan(buffer, i).2,
    decreases j - i,
{
    if i < j {
        lemma_scan_ok_mono(buffer, i, j - 1);
    }
}

/// The file of kind `kind` named `name` holding the entries of that kind.
pub open spec fn assembled(
    kind: Option<GraphicsKind>,
    name: Seq<char>,
    cs: Seq<SpecCreature>,
    ss: Seq<SpecStatue>,
    ps: Seq<Plant<Seq<char>>>,
    ts: Seq<TileGraphic<Seq<char>>>,
) -> SpecGraphicsFile {
    match kind {
        None => SpecGraphicsFile::DefaultFile,
        Some(GraphicsKind::Creature) => SpecGraphicsFile::CreatureFile(name, cs),
        Some(GraphicsKind::Statue) => SpecGraphicsFile::StatueCreatureFile(name, ss),
        Some(GraphicsKind::Plant) => SpecGraphicsFile::PlantFile(name, ps),
        Some(GraphicsKind::Tile) => SpecGraphicsFile::TileGraphicsFile(name, ts),
    }
}

/// The entries of a graphics file while it is read.
struct Entries {
    creatures: Vec<Creature>,
    statues: Vec<Statue>,
    plants: Vec<Plant>,
    tiles: Vec<TileGraphic>,
}

impl Entries {
    /// The file these entries make, of kind `kind` and named `name`.
    spec fn file(&self, kind: Option<GraphicsKind>, name: Seq<char>) -> SpecGraphicsFile {
        assembled(
            kind,
            name,
            self.creatures@.map_values(|c: Creature| c@),
            self.statues@.map_values(|s: Statue| s@),
            self.plants@.map_values(|p: Plant| p@),
            self.tiles@.map_values(|t: TileGraphic| t@),
        )
    }

    /// Reads lines `start..at` as an entry of kind `kind`.
    fn flush(
        &mut self,
        kind: GraphicsKind,
        name: &String,
        errors: &mut Vec<DFGHError>,
        buffer: &Vec<Vec<String>>,
        start: usize,
        at: usize,
        raw: &Vec<String>,
        path: &String,
        images: &Vec<ImageSize>,
    )
        requires
            start <= at <= buffer@.len() <= max_lines(),
            block_readable(kind, buffer.deep_view().subrange(start as int, at as int)),
        ensures
            (final(self).file(Some(kind), name@), errs(final(errors)@)) == flush_entry(
                old(self).file(Some(kind), name@),
                errs(old(errors)@),
                buffer.deep_view().subrange(start as int, at as int),
                at,
                raw.deep_view(),
                path@,
                images@,
            ),
    {
        let block = clone_block(buffer, start, at);
        match kind {
            GraphicsKind::Creature => {
                let (c, ces) = Creature::read(block, images);
                append_file_wrapped(errors, &ces, raw, at, path, Ghost(3));
                if !c.is_new() {
                    let ghost before = self.creatures@.map_values(|c: Creature| c@);
                    self.creatures.push(c);
                    assert(self.creatures@.map_values(|c: Creature| c@) =~= before.push(c@));
                }
            },
            GraphicsKind::Statue => {
                let (s, ses) = Statue::read(block);
                append_file_wrapped(errors, &ses, raw, at, path, Ghost(0));
                if !s.is_new() {
                    let ghost before = self.statues@.map_values(|s: Statue| s@);
                    self.statues.push(s);
                    assert(self.statues@.map_values(|s: Statue| s@) =~= before.push(s@));
                }
            },
            GraphicsKind::Plant => {
                let (p, pes) = Plant::read(block);
                if !p.is_new() {
                    self.plants.push(p);
                }
            },
            GraphicsKind::Tile => {
                let (t, tes) = TileGraphic::read(block);
                if !t.is_new() {
                    self.tiles.push(t);
                }
            },
        }
    }
}

/// Whether the statue reader can read lines `start..end` of `buffer`.
pub(crate) fn statue_block_check(buffer: &Vec<Vec<String>>, start: usize, end: usize) -> (r: bool)
    requires
        start <= end <= buffer@.len() <= max_lines(),
    ensures
        r == statue_lines_ok(buffer.deep_view().subrange(start as int, end as int)),
{
    let ghost block = buffer.deep_view().subrange(start as int, end as int);
    let bl = end - start;
    let mut s = Statue::new();
    let mut errors: Vec<DFGHError> = Vec::new();
    assert(errs(errors@) =~= Seq::<DFGHError<Seq<char>>>::empty());
    let mut i: usize = 0;
    let mut done = false;
    while i < bl && !done
        invariant
            bl == block.len() <= max_lines(),
            bl == end - start,
            start <= end <= buffer@.len(),
            block == buffer.deep_view().subrange(start as int, end as int),
            i <= bl,
            (s@, errs(errors@), done) == statue_read_upto(block, i as int),
            errors_within(errs(errors@), 0),
            forall|j: int| 0 <= j < i && !(#[trigger] statue_read_upto(block, j)).2 ==> block[j].len() >= 1,
        decreases bl - i,
    {
        let p = start + i;
        assert(block[i as int] == buffer.deep_view()[p as int]);
        assert(buffer[p as int].deep_view() == block[i as int]);
        if buffer[p].len() == 0 {
            return false;
        }
        done = s.read_line(&mut errors, &buffer[p], i, bl);
        i = i + 1;
    }
    proof {
        assert forall|j: int| 0 <= j < block.len() && !(#[trigger] statue_read_upto(block, j)).2 implies block[j].len()
            >= 1 by {
            if j >= i {
                lemma_statue_done_stays(block, i as int, j);
            }
        }
    }
    true
}

impl GraphicsFile {
    /// A graphics file of no kind yet.
    pub fn new() -> (r: Self)
        ensures
            r@ == SpecGraphicsFile::DefaultFile,
    {
        GraphicsFile::DefaultFile
    }

    /// Whether every block of a graphics file with lines `buffer` can be read.
    pub fn readable(buffer: &Vec<Vec<String>>) -> (r: bool)
        requires
            buffer@.len() <= max_lines(),
        ensures
            r == graphics_file_readable(buffer.deep_view()),
    {
        let ghost bv = buffer.deep_view();
        let bl = buffer.len();
        let mut kind: Option<GraphicsKind> = None;
        let mut start: usize = 0;
        let mut ok = true;
        let mut i: usize = 0;
        while i < bl
            invariant
                bl == buffer@.len() <= max_lines(),
                bv == buffer.deep_view(),
                start <= i <= bl,
                block_scan(bv, i as int) == (kind, start as int, ok),
            decreases bl - i,
        {
            let line = &buffer[i];
            assert(line.deep_view() == bv[i as int]);
            let t = if line.len() >= 1 {
                assert(line[0]@ == bv[i as int][0]);
                kind_of_token(line[0].as_str())
            } else {
                None
            };
            match kind {
                None => {
                    if line.len() >= 2 && t.is_some() {
                        kind = t;
                        start = i;
                    }
                },
                Some(k) => {
                    if line.len() >= 1 && t == Some(k) && start < i {
                        if k == GraphicsKind::Statue {
                            ok = ok && statue_block_check(buffer, start, i);
                        }
                        start = i;
                    }
                },
            }
            i = i + 1;
        }
        match kind {
            Some(GraphicsKind::Statue) => {
                if start < bl {
                    ok = ok && statue_block_check(buffer, start, bl);
                }
            },
            _ => {},
        }
        ok
    }

    /// Reads a graphics file as [`GraphicsFile::read`] does where every block
    /// can be read; gives nothing where one cannot.
    pub fn try_read(
        buffer: Vec<Vec<String>>,
        raw_buffer: Vec<String>,
        path: &String,
        file_name: &Option<String>,
        images: &Vec<ImageSize>,
    ) -> (r: Option<(GraphicsFile, Vec<DFGHError>)>)
        requires
            buffer@.len() <= max_lines(),
        ensures
            graphics_file_readable(buffer.deep_view()) ==> r is Some && (r.unwrap().0@, errs(r.unwrap().1@))
                == graphics_file_read(
                buffer.deep_view(),
                raw_buffer.deep_view(),
                path@,
                match file_name {
                    Some(f) => Some(f@),
                    None => None,
                },
                images@,
            ),
            !graphics_file_readable(buffer.deep_view()) ==> r is None,
    {
        if GraphicsFile::readable(&buffer) {
            Some(GraphicsFile::read(buffer, raw_buffer, path, file_name, images))
        } else {
            None
        }
    }

    /// Reads a graphics file from the lines of the file at `path` named
    /// `file_name` (its raw lines are `raw_buffer`), with the errors met;
    /// `images` holds the sizes of the images that exist.
    pub fn read(
        buffer: Vec<Vec<String>>,
        raw_buffer: Vec<String>,
        path: &String,
        file_name: &Option<String>,
        images: &Vec<ImageSize>,
    ) -> (r: (GraphicsFile, Vec<DFGHError>))
        requires
            buffer@.len() <= max_lines(),
            graphics_file_readable(buffer.deep_view()),
        ensures
            (r.0@, errs(r.1@)) == graphics_file_read(
                buffer.deep_view(),
                raw_buffer.deep_view(),
                path@,
                match file_name {
                    Some(f) => Some(f@),
                    None => None,
                },
                images@,
            ),
    {
        let ghost fname = match file_name {
            Some(f) => Some(f@),
            None => None,
        };
        let name = stem_name(file_name);
        let ghost bv = buffer.deep_view();
        let ghost rv = raw_buffer.deep_view();
        let bl = buffer.len();
        let mut entries = Entries { creatures: Vec::new(), statues: Vec::new(), plants: Vec::new(), tiles: Vec::new() };
        let mut kind: Option<GraphicsKind> = None;
        let mut errors: Vec<DFGHError> = Vec::new();
        let mut start: usize = 0;
        assert(errs(errors@) =~= Seq::<DFGHError<Seq<char>>>::empty());
        let mut i: usize = 0;
        while i < bl
            invariant
                bl == buffer@.len() <= max_lines(),
                bv == buffer.deep_view(),
                rv == raw_buffer.deep_view(),
                name@ == file_stem_name(fname),
                graphics_file_readable(bv),
                start <= i <= bl,
                file_read_upto(bv, i as int, rv, path@, name@, images@) == (
                    entries.file(kind, name@),
                    errs(errors@),
                    start as int,
                ),
                block_scan(bv, i as int).0 == kind,
                block_scan(bv, i as int).1 == start as int,
                kind is None ==> entries.creatures@.len() == 0 && entries.statues@.len() == 0
                    && entries.plants@.len() == 0 && entries.tiles@.len() == 0,
            decreases bl - i,
        {
            reveal(file_line);
            let line = &buffer[i];
            let ghost l = bv[i as int];
            assert(line.deep_view() == l);
            let len = line.len();
            let t = if len >= 1 {
                assert(line[0]@ == l[0]);
                kind_of_token(line[0].as_str())
            } else {
                None
            };
            proof {
                lemma_scan_ok_mono(bv, i + 1, bv.len() as int);
            }
            match kind {
                None => {
                    if len >= 2 && t.is_some() {
                        kind = t;
                        start = i;
                        assert(entries.file(kind, name@) =~= empty_file(t.unwrap(), name@)) by {
                            assert(entries.creatures@.map_values(|c: Creature| c@) =~= seq![]);
                            assert(entries.statues@.map_values(|s: Statue| s@) =~= seq![]);
                            assert(entries.plants@.map_values(|p: Plant| p@) =~= seq![]);
                            assert(entries.tiles@.map_values(|t: TileGraphic| t@) =~= seq![]);
                        }
                    }
                },
                Some(k) => {
                    if len >= 1 && t == Some(k) && start < i {
                        entries.flush(k, &name, &mut errors, &buffer, start, i, &raw_buffer, path, images);
                        start = i;
                    }
                },
            }
            i = i + 1;
        }
        match kind {
            Some(k) => {
                if start < bl {
                    entries.flush(k, &name, &mut errors, &buffer, start, bl, &raw_buffer, path, images);
                }
            },
            None => {},
        }
        let gf = match kind {
            None => GraphicsFile::DefaultFile,
            Some(GraphicsKind::Creature) => GraphicsFile::CreatureFile(name, entries.creatures),
            Some(GraphicsKind::Statue) => GraphicsFile::StatueCreatureFile(name, entries.statues),
            Some(GraphicsKind::Plant) => GraphicsFile::PlantFile(name, entries.plants),
            Some(GraphicsKind::Tile) => GraphicsFile::TileGraphicsFile(name, entries.tiles),
        };
        (gf, errors)
    }
}

/// The raw text of each creature, concatenated.
pub open spec fn creatures_display(cs: Seq<SpecCreature>) -> Seq<char>
    decreases cs.len(),
{
    if cs.len() == 0 {
        seq![]
    } else {
        creatures_display(cs.drop_last()) + creature_display(cs.last())
    }
}

/// The raw text of each statue, concatenated.
pub open spec fn statues_display(ss: Seq<SpecStatue>) -> Seq<char>
    decreases ss.len(),
{
    if ss.len() == 0 {
        seq![]
    } else {
        statues_display(ss.drop_last()) + statue_display(ss.last())
    }
}

/// A file name in snake case, split on spaces and lower-to-upper case changes.
pub open spec fn snake_name(s: Seq<char>) -> Seq<char> {
    case_converted(s, CaseBoundaries::SpaceLowerUpper, TextCase::Snake)
}

/// `s` without any `graphics_` or `.txt`.
pub open spec fn without_graphics(s: Seq<char>) -> Seq<char> {
    replace_all(replace_all(s, "graphics_"@, seq![]), ".txt"@, seq![])
}

/// `s` without any `graphics_`, `creatures_` or `.txt`.
pub open spec fn without_creatures(s: Seq<char>) -> Seq<char> {
    replace_all(replace_all(replace_all(s, "graphics_"@, seq![]), "creatures_"@, seq![]), ".txt"@, seq![])
}

/// `s` without any `graphics_`, `creatures_`, `_statue` or `.txt`.
pub open spec fn without_statue(s: Seq<char>) -> Seq<char> {
    replace_all(
        replace_all(replace_all(replace_all(s, "graphics_"@, seq![]), "creatures_"@, seq![]), "_statue"@, seq![]),
        ".txt"@,
        seq![],
    )
}

/// Whether creatures can be written without a coordinate sum overflowing.
pub open spec fn creatures_displayable(cs: Seq<SpecCreature>) -> bool {
    forall|k: int| 0 <= k < cs.len() ==> creature_displayable(#[trigger] cs[k])
}

/// Whether statues can be written without a coordinate sum overflowing.
pub open spec fn statues_displayable(ss: Seq<SpecStatue>) -> bool {
    forall|k: int| 0 <= k < ss.len() ==> statue_displayable(#[trigger] ss[k])
}

/// Whether a graphics file can be written without a coordinate sum overflowing.
pub open spec fn graphics_file_displayable(gf: SpecGraphicsFile) -> bool {
    match gf {
        SpecGraphicsFile::CreatureFile(_, cs) => creatures_displayable(cs),
        SpecGraphicsFile::StatueCreatureFile(_, ss) => statues_displayable(ss),
        _ => true,
    }
}

/// The raw text of a graphics file (plants and tile graphics write nothing yet).
pub open spec fn graphics_file_display(gf: SpecGraphicsFile) -> Seq<char> {
    match gf {
        SpecGraphicsFile::DefaultFile => seq![],
        SpecGraphicsFile::CreatureFile(n, cs) => "graphics_creatures_"@ + without_creatures(snake_name(n))
            + "\n\n[OBJECT:GRAPHICS]\n\n"@ + creatures_display(cs),
        SpecGraphicsFile::StatueCreatureFile(n, ss) => "graphics_creatures_"@ + without_statue(snake_name(n))
            + "_statue\n\n[OBJECT:GRAPHICS]\n\n"@ + statues_display(ss),
        SpecGraphicsFile::PlantFile(n, _) => "graphics_"@ + without_graphics(snake_name(n)) + "\n\n[OBJECT:GRAPHICS]\n\n"@,
        SpecGraphicsFile::TileGraphicsFile(n, _) => "graphics_"@ + without_graphics(snake_name(n))
            + "\n\n[OBJECT:GRAPHICS]\n\n"@,
    }
}

/// The name shown for a graphics file.
pub open spec fn graphics_file_name(gf: SpecGraphicsFile) -> Seq<char> {
    match gf {
        SpecGraphicsFile::DefaultFile => "(new)"@,
        SpecGraphicsFile::CreatureFile(n, _) => replace_all(n, "graphics_"@, seq![]),
        SpecGraphicsFile::StatueCreatureFile(n, _) => replace_all(n, "graphics_"@, seq![]),
        SpecGraphicsFile::PlantFile(n, _) => replace_all(n, "graphics_"@, seq![]),
        SpecGraphicsFile::TileGraphicsFile(n, _) => replace_all(n, "graphics_"@, seq![]),
    }
}

/// The name a graphics file is written under, and what is written: creature and
/// statue files are written; the other kinds are not written yet.
pub open spec fn graphics_file_export(gf: SpecGraphicsFile) -> Option<(Seq<char>, Seq<char>)> {
    match gf {
        SpecGraphicsFile::CreatureFile(n, _) => {
            let bare = case_converted(
                replace_all(replace_all(n, ".txt"@, seq![]), "graphics_creatures_"@, seq![]),
                CaseBoundaries::Space,
                TextCase::Snake,
            );
            Some(("graphics_creatures_"@ + bare + ".txt"@, graphics_file_display(gf)))
        },
        SpecGraphicsFile::StatueCreatureFile(n, _) => {
            let bare = case_converted(
                replace_all(
                    replace_all(replace_all(n, ".txt"@, seq![]), "graphics_creatures_"@, seq![]),
                    "_statue"@,
                    seq![],
                ),
                CaseBoundaries::Space,
                TextCase::Snake,
            );
            Some(("graphics_creatures_"@ + bare + "_statue.txt"@, graphics_file_display(gf)))
        },
        _ => None,
    }
}

impl GraphicsFile {
    /// The raw text of each creature.
    fn creatures_text(cs: &Vec<Creature>) -> (r: String)
        requires
            creatures_displayable(cs@.map_values(|c: Creature| c@)),
        ensures
            r@ == creatures_display(cs@.map_values(|c: Creature| c@)),
    {
        let ghost v = cs@.map_values(|c: Creature| c@);
        let mut out = String::new();
        let mut k: usize = 0;
        while k < cs.len()
            invariant
                v == cs@.map_values(|c: Creature| c@),
                k <= v.len(),
                creatures_displayable(v),
                out@ == creatures_display(v.take(k as int)),
            decreases v.len() - k,
        {
            assert(v.take(k + 1).drop_last() =~= v.take(k as int));
            assert(v.take(k + 1).last() == cs@[k as int]@);
            assert(creature_displayable(v[k as int]));
            push_str(&mut out, cs[k].display().as_str());
            k = k + 1;
        }
        assert(v.take(v.len() as int) =~= v);
        out
    }

    /// The raw text of each statue.
    fn statues_text(ss: &Vec<Statue>) -> (r: String)
        requires
            statues_displayable(ss@.map_values(|s: Statue| s@)),
        ensures
            r@ == statues_display(ss@.map_values(|s: Statue| s@)),
    {
        let ghost v = ss@.map_values(|s: Statue| s@);
        let mut out = String::new();
        let mut k: usize = 0;
        while k < ss.len()
            invariant
                v == ss@.map_values(|s: Statue| s@),
                k <= v.len(),
                statues_displayable(v),
                out@ == statues_display(v.take(k as int)),
            decreases v.len() - k,
        {
            assert(v.take(k + 1).drop_last() =~= v.take(k as int));
            assert(v.take(k + 1).last() == ss@[k as int]@);
            assert(statue_displayable(v[k as int]));
            push_str(&mut out, ss[k].display().as_str());
            k = k + 1;
        }
        assert(v.take(v.len() as int) =~= v);
        out
    }

    /// Whether this file can be written without a coordinate sum overflowing.
    pub fn displayable(&self) -> (r: bool)
        ensures
            r == graphics_file_displayable(self@),
    {
        match self {
            GraphicsFile::CreatureFile(n, cs) => {
                let ghost v = cs@.map_values(|c: Creature| c@);
                assert(self@ == SpecGraphicsFile::CreatureFile(n@, v));
                let mut k: usize = 0;
                while k < cs.len()
                    invariant
                        v == cs@.map_values(|c: Creature| c@),
                        self@ == SpecGraphicsFile::CreatureFile(n@, v),
                        k <= v.len(),
                        forall|j: int| 0 <= j < k ==> creature_displayable(#[trigger] v[j]),
                    decreases v.len() - k,
                {
                    assert(v[k as int] == cs@[k as int]@);
                    if !cs[k].displayable() {
                        assert(!creatures_displayable(v));
                        return false;
                    }
                    k = k + 1;
                }
                assert(creatures_displayable(v));
                true
            },
            GraphicsFile::StatueCreatureFile(n, ss) => {
                let ghost v = ss@.map_values(|s: Statue| s@);
                assert(self@ == SpecGraphicsFile::StatueCreatureFile(n@, v));
                let mut k: usize = 0;
                while k < ss.len()
                    invariant
                        v == ss@.map_values(|s: Statue| s@),
                        self@ == SpecGraphicsFile::StatueCreatureFile(n@, v),
                        k <= v.len(),
                        forall|j: int| 0 <= j < k ==> statue_displayable(#[trigger] v[j]),
                    decreases v.len() - k,
                {
                    assert(v[k as int] == ss@[k as int]@);
                    if !ss[k].displayable() {
                        assert(!statues_displayable(v));
                        return false;
                    }
                    k = k + 1;
                }
                assert(statues_displayable(v));
                true
            },
            _ => true,
        }
    }

    /// The raw text of this graphics file.
    pub fn display(&self) -> (r: String)
        requires
            graphics_file_displayable(self@),
        ensures
            r@ == graphics_file_display(self@),
    {
        proof {
            reveal_strlit("graphics_");
            reveal_strlit("creatures_");
            reveal_strlit("_statue");
            reveal_strlit(".txt");
            reveal_strlit("");
        }
        assert(""@ =~= Seq::<char>::empty());
        match self {
            GraphicsFile::DefaultFile => String::new(),
            GraphicsFile::CreatureFile(n, cs) => {
                let mut out = string_of("graphics_creatures_");
                let sn = convert_case(n.as_str(), CaseBoundaries::SpaceLowerUpper, TextCase::Snake);
                let a = replace(sn.as_str(), "graphics_", "");
                let b = replace(a.as_str(), "creatures_", "");
                let bare = replace(b.as_str(), ".txt", "");
                push_str(&mut out, bare.as_str());
                push_str(&mut out, "\n\n[OBJECT:GRAPHICS]\n\n");
                push_str(&mut out, GraphicsFile::creatures_text(cs).as_str());
                out
            },
            GraphicsFile::StatueCreatureFile(n, ss) => {
                let mut out = string_of("graphics_creatures_");
                let sn = convert_case(n.as_str(), CaseBoundaries::SpaceLowerUpper, TextCase::Snake);
                let a = replace(sn.as_str(), "graphics_", "");
                let b = replace(a.as_str(), "creatures_", "");
                let c = replace(b.as_str(), "_statue", "");
                let bare = replace(c.as_str(), ".txt", "");
                push_str(&mut out, bare.as_str());
                push_str(&mut out, "_statue\n\n[OBJECT:GRAPHICS]\n\n");
                push_str(&mut out, GraphicsFile::statues_text(ss).as_str());
                out
            },
            GraphicsFile::PlantFile(n, _) | GraphicsFile::TileGraphicsFile(n, _) => {
                let mut out = string_of("graphics_");
                let sn = convert_case(n.as_str(), CaseBoundaries::SpaceLowerUpper, TextCase::Snake);
                let a = replace(sn.as_str(), "graphics_", "");
                let bare = replace(a.as_str(), ".txt", "");
                push_str(&mut out, bare.as_str());
                push_str(&mut out, "\n\n[OBJECT:GRAPHICS]\n\n");
                out
            },
        }
    }

    /// The name shown for this graphics file.
    pub fn name(&self) -> (r: String)
        ensures
            r@ == graphics_file_name(self@),
    {
        proof {
            reveal_strlit("graphics_");
            reveal_strlit("");
        }
        assert(""@ =~= Seq::<char>::empty());
        match self {
            GraphicsFile::DefaultFile => string_of("(new)"),
            GraphicsFile::CreatureFile(n, _) => replace(n.as_str(), "graphics_", ""),
            GraphicsFile::StatueCreatureFile(n, _) => replace(n.as_str(), "graphics_", ""),
            GraphicsFile::PlantFile(n, _) => replace(n.as_str(), "graphics_", ""),
            GraphicsFile::TileGraphicsFile(n, _) => replace(n.as_str(), "graphics_", ""),
        }
    }

    /// The name this file is written under and its text, for the kinds that are
    /// written (creature and statue files); none for the others.
    pub fn export(&self) -> (r: Option<(String, String)>)
        requires
            graphics_file_displayable(self@),
        ensures
            match r {
                Some((n, c)) => graphics_file_export(self@) == Some((n@, c@)),
                None => graphics_file_export(self@) is None,
            },
    {
        proof {
            reveal_strlit("graphics_creatures_");
            reveal_strlit("_statue");
            reveal_strlit(".txt");
            reveal_strlit("");
        }
        assert(""@ =~= Seq::<char>::empty());
        match self {
            GraphicsFile::CreatureFile(n, _) => {
                let a = replace(n.as_str(), ".txt", "");
                let b = replace(a.as_str(), "graphics_creatures_", "");
                let bare = convert_case(b.as_str(), CaseBoundaries::Space, TextCase::Snake);
                let mut name = string_of("graphics_creatures_");
                push_str(&mut name, bare.as_str());
                push_str(&mut name, ".txt");
                Some((name, self.display()))
            },
            GraphicsFile::StatueCreatureFile(n, _) => {
                let a = replace(n.as_str(), ".txt", "");
                let b = replace(a.as_str(), "graphics_creatures_", "");
                let c = replace(b.as_str(), "_statue", "");
                let bare = convert_case(c.as_str(), CaseBoundaries::Space, TextCase::Snake);
                let mut name = string_of("graphics_creatures_");
                push_str(&mut name, bare.as_str());
                push_str(&mut name, "_statue.txt");
                Some((name, self.display()))
            },
            _ => None,
        }
    }
}

} // verus!
