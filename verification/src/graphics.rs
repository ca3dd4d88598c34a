//! The loaded graphics of a mod: its tile page files and graphics files.
use vstd::prelude::*;
use crate::error::DFGHError;
use crate::graphics_file::{
    graphics_file_displayable, graphics_file_export, graphics_file_read, graphics_file_readable, GraphicsFile,
    SpecGraphicsFile,
};
use crate::lines::{errs, max_lines, ImageSize};
use crate::creature::{Creature, SpecCreature};
use crate::shared::{shared_append, shared_of, spec_creature_shared_new, CreatureShared, SpecCreatureShared};
use crate::text::{chars_of, str_eq, string_from_chars};
use crate::tile::{
    file_field, file_field_check, file_field_ok, take_file_field, tile_page_file_display,
    tile_page_file_export_name, tile_page_file_read, tile_page_lines_ok, tile_pages_display, SpecTilePageFile,
    TilePageFile,
};
use crate::words::{split_char, split_on};

verus! {

/// The position of the first `c` in `s`, if any.
pub open spec fn first_index(s: Seq<char>, c: char) -> Option<int>
    decreases s.len(),
{
    if s.len() == 0 {
        None
    } else if s[0] == c {
        Some(0)
    } else {
        match first_index(s.drop_first(), c) {
            Some(k) => Some(k + 1),
            None => None,
        }
    }
}

/// The fields of a raw line: the text between its first `[` and the first `]`
/// after it, split at each `:`; no fields where either bracket is missing.
pub open spec fn bracket_fields(s: Seq<char>) -> Seq<Seq<char>> {
    match first_index(s, '[') {
        None => seq![],
        Some(p) => {
            let rest = s.skip(p + 1);
            match first_index(rest, ']') {
                None => seq![],
                Some(q) => split_on(rest.take(q), ':'),
            }
        },
    }
}

/// Where [`first_index`] finds `c`, and that it is the first.
pub proof fn lemma_first_index(s: Seq<char>, c: char)
    ensures
        match first_index(s, c) {
            Some(k) => 0 <= k < s.len() && s[k] == c && forall|j: int| 0 <= j < k ==> s[j] != c,
            None => forall|j: int| 0 <= j < s.len() ==> s[j] != c,
        },
    decreases s.len(),
{
    if s.len() > 0 && s[0] != c {
        lemma_first_index(s.drop_first(), c);
        match first_index(s.drop_first(), c) {
            Some(k) => {
                assert forall|j: int| 0 <= j < k + 1 implies s[j] != c by {
                    if j > 0 {
                        assert(s[j] == s.drop_first()[j - 1]);
                    }
                }
            },
            None => {
                assert forall|j: int| 0 <= j < s.len() implies s[j] != c by {
                    if j > 0 {
                        assert(s[j] == s.drop_first()[j - 1]);
                    }
                }
            },
        }
    }
}

/// The position of the first `c` in `cs[from..]`, if any.
fn find_char(cs: &Vec<char>, from: usize, c: char) -> (r: Option<usize>)
    requires
        from <= cs@.len(),
    ensures
        match r {
            Some(k) => first_index(cs@.skip(from as int), c) == Some(k - from) && from <= k < cs@.len() && k < usize::MAX,
            None => first_index(cs@.skip(from as int), c) is None,
        },
{
    let ghost s = cs@.skip(from as int);
    proof {
        lemma_first_index(s, c);
    }
    let mut i = from;
    while i < cs.len()
        invariant
            from <= i <= cs@.len(),
            s == cs@.skip(from as int),
            forall|j: int| from <= j < i ==> cs@[j] != c,
            match first_index(s, c) {
                Some(k) => 0 <= k < s.len() && s[k] == c && forall|j: int| 0 <= j < k ==> s[j] != c,
                None => forall|j: int| 0 <= j < s.len() ==> s[j] != c,
            },
        decreases cs@.len() - i,
    {
        if cs[i] == c {
            proof {
                assert(s[i - from] == c);
                match first_index(s, c) {
                    Some(k) => {
                        if k < i - from {
                            assert(s[k] == cs@[from + k]);
                        }
                        if k > i - from {
                            assert(s[i - from] != c);
                        }
                    },
                    None => {},
                }
            }
            return Some(i);
        }
        i = i + 1;
    }
    proof {
        match first_index(s, c) {
            Some(k) => {
                assert(s[k] == cs@[from + k]);
            },
            None => {},
        }
    }
    None
}

/// The shell of a loaded mod's menus: what its creatures name.
#[derive(Clone, Debug, PartialEq)]
pub struct Shared {
    pub creature_shared: CreatureShared,
}

impl Shared {
    /// Nothing gathered.
    pub fn new() -> (r: Self)
        ensures
            r.creature_shared@ == spec_creature_shared_new(),
    {
        Shared { creature_shared: CreatureShared::new() }
    }

    /// Forgets what was gathered.
    pub fn clear(&mut self)
        ensures
            final(self).creature_shared@ == spec_creature_shared_new(),
    {
        self.creature_shared = CreatureShared::new();
    }
}

/// The loaded graphics of a mod.
#[derive(Clone, Debug, PartialEq)]
pub struct Graphics {
    pub tile_page_files: Vec<TilePageFile>,
    pub graphics_files: Vec<GraphicsFile>,
    pub shared: Shared,
}

/// The view of [`Graphics`].
pub struct SpecGraphics {
    pub tile_page_files: Seq<SpecTilePageFile>,
    pub graphics_files: Seq<SpecGraphicsFile>,
    pub creature_shared: SpecCreatureShared,
}

impl View for Graphics {
    type V = SpecGraphics;

    open spec fn view(&self) -> SpecGraphics {
        SpecGraphics {
            tile_page_files: self.tile_page_files@.map_values(|t: TilePageFile| t@),
            graphics_files: self.graphics_files@.map_values(|g: GraphicsFile| g@),
            creature_shared: self.shared.creature_shared@,
        }
    }
}

/// The image a line refers to, if any: a palette's file, or a tile page's image.
pub open spec fn line_image_names(l: Seq<Seq<char>>) -> Seq<Seq<char>> {
    if l.len() >= 2 && l[0] == "LS_PALETTE_FILE"@ && l[1].len() > 0 {
        seq![l[1]]
    } else if l.len() >= 2 && l[0] == "FILE"@ && file_field_ok(l[1]) {
        seq![file_field(l[1])]
    } else {
        seq![]
    }
}

/// The images the lines refer to, in order.
pub open spec fn image_names(lines: Seq<Seq<Seq<char>>>) -> Seq<Seq<char>>
    decreases lines.len(),
{
    if lines.len() == 0 {
        seq![]
    } else {
        image_names(lines.drop_last()) + line_image_names(lines.last())
    }
}

/// The fields of each raw line.
pub open spec fn lines_fields(raw: Seq<Seq<char>>) -> Seq<Seq<Seq<char>>> {
    raw.map_values(|l: Seq<char>| bracket_fields(l))
}

/// The kind of a raw file, as its first `OBJECT` line says.
#[derive(Clone, Copy, Debug, PartialEq, Eq, Structural)]
pub enum RawFileKind {
    TilePageFile,
    GraphicsFile,
    Other,
}

/// The kind of the raw file with lines `lines` after line `from`: the first
/// line with at least two fields whose token is `OBJECT` decides.
pub open spec fn raw_file_kind_from(lines: Seq<Seq<Seq<char>>>, from: int) -> RawFileKind
    decreases lines.len() - from,
{
    if from >= lines.len() || from < 0 {
        RawFileKind::Other
    } else {
        let l = lines[from];
        if l.len() >= 2 && l[0] == "OBJECT"@ {
            if l[1] == "TILE_PAGE"@ {
                RawFileKind::TilePageFile
            } else if l[1] == "GRAPHICS"@ {
                RawFileKind::GraphicsFile
            } else {
                RawFileKind::Other
            }
        } else {
            raw_file_kind_from(lines, from + 1)
        }
    }
}

/// The kind of the raw file with lines `lines`.
pub open spec fn raw_file_kind(lines: Seq<Seq<Seq<char>>>) -> RawFileKind {
    raw_file_kind_from(lines, 0)
}

/// Whether the raw file with lines `lines` can be read as its kind.
pub open spec fn raw_file_readable(lines: Seq<Seq<Seq<char>>>) -> bool {
    &&& lines.len() <= max_lines()
    &&& match raw_file_kind(lines) {
        RawFileKind::TilePageFile => tile_page_lines_ok(lines),
        RawFileKind::GraphicsFile => graphics_file_readable(lines),
        RawFileKind::Other => true,
    }
}

/// What reading a raw file adds to the loaded graphics: a tile page file, a
/// graphics file or nothing, and the errors met.
pub open spec fn graphics_with_file(
    g: SpecGraphics,
    lines: Seq<Seq<Seq<char>>>,
    raw: Seq<Seq<char>>,
    path: Seq<char>,
    file_name: Option<Seq<char>>,
    images: Seq<ImageSize>,
) -> (SpecGraphics, Seq<DFGHError<Seq<char>>>) {
    match raw_file_kind(lines) {
        RawFileKind::TilePageFile => {
            let (f, es) = tile_page_file_read(lines, raw, path, file_name, images);
            (SpecGraphics { tile_page_files: g.tile_page_files.push(f), ..g }, es)
        },
        RawFileKind::GraphicsFile => {
            let (f, es) = graphics_file_read(lines, raw, path, file_name, images);
            (SpecGraphics { graphics_files: g.graphics_files.push(f), ..g }, es)
        },
        RawFileKind::Other => (g, seq![]),
    }
}

/// Nothing loaded.
pub open spec fn spec_graphics_new() -> SpecGraphics {
    SpecGraphics { tile_page_files: seq![], graphics_files: seq![], creature_shared: spec_creature_shared_new() }
}

/// The file name and text of each file the loaded graphics write.
pub open spec fn export_files(g: SpecGraphics) -> Seq<(Seq<char>, Seq<char>)> {
    tile_page_file_exports(g.tile_page_files) + graphics_file_exports(g.graphics_files)
}

/// The file name and text of each tile page file.
pub open spec fn tile_page_file_exports(fs: Seq<SpecTilePageFile>) -> Seq<(Seq<char>, Seq<char>)>
    decreases fs.len(),
{
    if fs.len() == 0 {
        seq![]
    } else {
        let f = fs.last();
        tile_page_file_exports(fs.drop_last()).push(
            (tile_page_file_export_name(f), tile_page_file_display(f) + tile_pages_display(f.tile_pages)),
        )
    }
}

/// The file name and text of each graphics file that is written.
pub open spec fn graphics_file_exports(fs: Seq<SpecGraphicsFile>) -> Seq<(Seq<char>, Seq<char>)>
    decreases fs.len(),
{
    if fs.len() == 0 {
        seq![]
    } else {
        match graphics_file_export(fs.last()) {
            Some(e) => graphics_file_exports(fs.drop_last()).push(e),
            None => graphics_file_exports(fs.drop_last()),
        }
    }
}

/// Whether the loaded graphics can be written without a coordinate sum overflowing.
pub open spec fn graphics_displayable(g: SpecGraphics) -> bool {
    forall|k: int| 0 <= k < g.graphics_files.len() ==> graphics_file_displayable(#[trigger] g.graphics_files[k])
}

/// `c` holding what it names.
pub open spec fn with_own_shared(c: SpecCreature) -> SpecCreature {
    SpecCreature { creature_shared: shared_of(c), ..c }
}

/// `f`, each of its creatures holding what it names.
pub open spec fn file_with_own_shared(f: SpecGraphicsFile) -> SpecGraphicsFile {
    match f {
        SpecGraphicsFile::CreatureFile(n, cs) => SpecGraphicsFile::CreatureFile(
            n,
            cs.map_values(|c: SpecCreature| with_own_shared(c)),
        ),
        _ => f,
    }
}

/// `acc` followed by what each of `cs` names.
pub open spec fn creatures_total(acc: SpecCreatureShared, cs: Seq<SpecCreature>) -> SpecCreatureShared
    decreases cs.len(),
{
    if cs.len() == 0 {
        acc
    } else {
        shared_append(creatures_total(acc, cs.drop_last()), shared_of(cs.last()))
    }
}

/// What the creatures of the creature files among `fs` name, creature after creature.
pub open spec fn files_total(fs: Seq<SpecGraphicsFile>) -> SpecCreatureShared
    decreases fs.len(),
{
    if fs.len() == 0 {
        spec_creature_shared_new()
    } else {
        match fs.last() {
            SpecGraphicsFile::CreatureFile(_, cs) => creatures_total(files_total(fs.drop_last()), cs),
            _ => files_total(fs.drop_last()),
        }
    }
}

/// `g` with every creature holding what it names, and with all of that gathered.
pub open spec fn graphics_updated(g: SpecGraphics) -> SpecGraphics {
    SpecGraphics {
        tile_page_files: g.tile_page_files,
        graphics_files: g.graphics_files.map_values(|f: SpecGraphicsFile| file_with_own_shared(f)),
        creature_shared: files_total(g.graphics_files),
    }
}

/// Gives each creature of `cs` what it names, and appends that to `total`.
fn update_creatures(cs: &mut Vec<Creature>, total: &mut CreatureShared)
    ensures
        final(cs)@.map_values(|c: Creature| c@) == old(cs)@.map_values(|c: Creature| with_own_shared(c@)),
        final(total)@ == creatures_total(old(total)@, old(cs)@.map_values(|c: Creature| c@)),
{
    let ghost orig = cs@.map_values(|c: Creature| c@);
    let ghost t0 = total@;
    let n = cs.len();
    let mut j: usize = 0;
    while j < n
        invariant
            n == orig.len(),
            cs@.len() == n,
            j <= n,
            orig == old(cs)@.map_values(|c: Creature| c@),
            t0 == old(total)@,
            forall|i: int| 0 <= i < j ==> (#[trigger] cs@[i])@ == with_own_shared(orig[i]),
            forall|i: int| j <= i < n ==> (#[trigger] cs@[i])@ == orig[i],
            total@ == creatures_total(t0, orig.take(j as int)),
        decreases n - j,
    {
        let ghost before = cs@;
        let mut c = cs.remove(j);
        let copy = c.duplicate();
        c.creature_shared.update(copy);
        total.append(&c.creature_shared);
        cs.insert(j, c);
        assert(orig.take(j + 1).drop_last() =~= orig.take(j as int));
        assert forall|i: int| 0 <= i < n && i != j implies (#[trigger] cs@[i]) == before[i] by {}
        j = j + 1;
    }
    assert(cs@.map_values(|c: Creature| c@) =~= old(cs)@.map_values(|c: Creature| with_own_shared(c@)));
    assert(orig.take(n as int) =~= orig);
}

impl Graphics {
    /// Gives each creature what it names, and gathers all of that, file after
    /// file and creature after creature.
    pub fn update_shared(&mut self)
        ensures
            final(self)@ == graphics_updated(old(self)@),
    {
        let ghost orig = self@.graphics_files;
        let mut total = CreatureShared::new();
        let n = self.graphics_files.len();
        let mut k: usize = 0;
        while k < n
            invariant
                n == orig.len(),
                self.graphics_files@.len() == n,
                k <= n,
                orig == old(self)@.graphics_files,
                self.tile_page_files@ == old(self).tile_page_files@,
                forall|i: int| 0 <= i < k ==> (#[trigger] self.graphics_files@[i])@ == file_with_own_shared(orig[i]),
                forall|i: int| k <= i < n ==> (#[trigger] self.graphics_files@[i])@ == orig[i],
                total@ == files_total(orig.take(k as int)),
            decreases n - k,
        {
            let ghost before = self.graphics_files@;
            let gf = self.graphics_files.remove(k);
            assert(orig.take(k + 1).drop_last() =~= orig.take(k as int));
            let updated = match gf {
                GraphicsFile::CreatureFile(name, mut cs) => {
                    let ghost cv = cs@.map_values(|c: Creature| c@);
                    update_creatures(&mut cs, &mut total);
                    assert(cs@.map_values(|c: Creature| c@) =~= cv.map_values(|c: SpecCreature| with_own_shared(c)));
                    GraphicsFile::CreatureFile(name, cs)
                },
                other => other,
            };
            self.graphics_files.insert(k, updated);
            assert forall|i: int| 0 <= i < n && i != k implies (#[trigger] self.graphics_files@[i]) == before[i] by {}
            k = k + 1;
        }
        assert(orig.take(n as int) =~= orig);
        self.shared.creature_shared = total;
        assert(self@.graphics_files =~= orig.map_values(|f: SpecGraphicsFile| file_with_own_shared(f)));
        assert(self@.tile_page_files =~= old(self)@.tile_page_files);
    }

    /// Nothing loaded.
    pub fn new() -> (r: Self)
        ensures
            r@ == spec_graphics_new(),
    {
        let r = Graphics {
            tile_page_files: Vec::new(),
            graphics_files: Vec::new(),
            shared: Shared::new(),
        };
        assert(r@.tile_page_files =~= seq![]);
        assert(r@.graphics_files =~= seq![]);
        r
    }

    /// The fields of a raw line: the text between its first `[` and the first
    /// `]` after it, split at each `:`; none where either bracket is missing.
    pub fn read_brackets(raw_line: &String) -> (r: Vec<String>)
        ensures
            r.deep_view() == bracket_fields(raw_line@),
    {
        let cs = chars_of(raw_line.as_str());
        let ghost s = raw_line@;
        match find_char(&cs, 0, '[') {
            None => {
                assert(s.skip(0) =~= s);
                Vec::new()
            },
            Some(p) => {
                assert(s.skip(0) =~= s);
                let ghost rest = s.skip(p + 1);
                match find_char(&cs, p + 1, ']') {
                    None => Vec::new(),
                    Some(q) => {
                        let inner = string_from_chars(&cs, p + 1, q);
                        assert(inner@ =~= rest.take(q - (p + 1)));
                        split_char(inner.as_str(), ':')
                    },
                }
            },
        }
    }

    /// The fields of each raw line.
    pub fn bracket_lines(raw_lines: &Vec<String>) -> (r: Vec<Vec<String>>)
        ensures
            r.deep_view() == lines_fields(raw_lines.deep_view()),
    {
        let mut r: Vec<Vec<String>> = Vec::new();
        let mut k: usize = 0;
        while k < raw_lines.len()
            invariant
                k <= raw_lines@.len(),
                r@.len() == k,
                forall|j: int| 0 <= j < k ==> (#[trigger] r.deep_view()[j]) == bracket_fields(raw_lines@[j]@),
            decreases raw_lines@.len() - k,
        {
            let ghost before = r.deep_view();
            r.push(Graphics::read_brackets(&raw_lines[k]));
            assert forall|j: int| 0 <= j < k + 1 implies (#[trigger] r.deep_view()[j]) == bracket_fields(
                raw_lines@[j]@,
            ) by {
                if j < k {
                    assert(r.deep_view()[j] == before[j]);
                }
            }
            k = k + 1;
        }
        assert(r.deep_view() =~= lines_fields(raw_lines.deep_view()));
        r
    }

    /// Reads the raw file at `path` named `file_name`, with raw lines
    /// `raw_lines`, as its kind says, adds what it holds and returns the errors
    /// met; `images` holds the sizes of the images that exist.
    pub fn read_file(
        &mut self,
        raw_lines: Vec<String>,
        path: &String,
        file_name: &Option<String>,
        images: &Vec<ImageSize>,
    ) -> (r: Vec<DFGHError>)
        requires
            raw_file_readable(lines_fields(raw_lines.deep_view())),
        ensures
            (final(self)@, errs(r@)) == graphics_with_file(
                old(self)@,
                lines_fields(raw_lines.deep_view()),
                raw_lines.deep_view(),
                path@,
                match file_name {
                    Some(f) => Some(f@),
                    None => None,
                },
                images@,
            ),
    {
        let lines = Graphics::bracket_lines(&raw_lines);
        match Graphics::file_kind(&lines) {
            RawFileKind::TilePageFile => {
                let (f, es) = TilePageFile::read(lines, raw_lines, path, file_name, images);
                let ghost before = self@.tile_page_files;
                self.tile_page_files.push(f);
                assert(self@.tile_page_files =~= before.push(f@));
                es
            },
            RawFileKind::GraphicsFile => {
                let (f, es) = GraphicsFile::read(lines, raw_lines, path, file_name, images);
                let ghost before = self@.graphics_files;
                self.graphics_files.push(f);
                assert(self@.graphics_files =~= before.push(f@));
                es
            },
            RawFileKind::Other => {
                let es: Vec<DFGHError> = Vec::new();
                assert(errs(es@) =~= seq![]);
                es
            },
        }
    }

    /// Whether every file can be written without a coordinate sum overflowing.
    pub fn displayable(&self) -> (r: bool)
        ensures
            r == graphics_displayable(self@),
    {
        let mut k: usize = 0;
        while k < self.graphics_files.len()
            invariant
                k <= self.graphics_files@.len(),
                forall|j: int| 0 <= j < k ==> graphics_file_displayable(#[trigger] self@.graphics_files[j]),
            decreases self.graphics_files@.len() - k,
        {
            assert(self@.graphics_files[k as int] == self.graphics_files@[k as int]@);
            if !self.graphics_files[k].displayable() {
                return false;
            }
            k = k + 1;
        }
        true
    }

    /// Reads the raw file as [`Graphics::read_file`] does where it can be read
    /// as its kind, and gives its errors; leaves the graphics as they are and
    /// gives nothing where it cannot.
    pub fn try_read_file(
        &mut self,
        raw_lines: Vec<String>,
        path: &String,
        file_name: &Option<String>,
        images: &Vec<ImageSize>,
    ) -> (r: Option<Vec<DFGHError>>)
        ensures
            raw_file_readable(lines_fields(raw_lines.deep_view())) ==> r is Some && (final(self)@, errs(r.unwrap()@))
                == graphics_with_file(
                old(self)@,
                lines_fields(raw_lines.deep_view()),
                raw_lines.deep_view(),
                path@,
                match file_name {
                    Some(f) => Some(f@),
                    None => None,
                },
                images@,
            ),
            !raw_file_readable(lines_fields(raw_lines.deep_view())) ==> r is None && final(self)@ == old(self)@,
    {
        let lines = Graphics::bracket_lines(&raw_lines);
        if Graphics::file_readable(&lines) {
            Some(self.read_file(raw_lines, path, file_name, images))
        } else {
            None
        }
    }

    /// The file name and text of each file to write: every tile page file, then
    /// every creature and statue graphics file.
    pub fn export(&self) -> (r: Vec<(String, String)>)
        requires
            graphics_displayable(self@),
        ensures
            r@.map_values(|p: (String, String)| (p.0@, p.1@)) == export_files(self@),
    {
        let mut r: Vec<(String, String)> = Vec::new();
        let ghost tv = self@.tile_page_files;
        let mut k: usize = 0;
        while k < self.tile_page_files.len()
            invariant
                tv == self@.tile_page_files,
                k <= tv.len(),
                r@.map_values(|p: (String, String)| (p.0@, p.1@)) == tile_page_file_exports(tv.take(k as int)),
            decreases tv.len() - k,
        {
            assert(tv.take(k + 1).drop_last() =~= tv.take(k as int));
            assert(tv.take(k + 1).last() == self.tile_page_files@[k as int]@);
            let e = self.tile_page_files[k].export();
            let ghost before = r@.map_values(|p: (String, String)| (p.0@, p.1@));
            r.push(e);
            assert(r@.map_values(|p: (String, String)| (p.0@, p.1@)) =~= before.push((e.0@, e.1@)));
            k = k + 1;
        }
        assert(tv.take(tv.len() as int) =~= tv);
        let ghost mid = r@.map_values(|p: (String, String)| (p.0@, p.1@));
        let ghost gv = self@.graphics_files;
        let mut k: usize = 0;
        assert(gv.take(0) =~= seq![]);
        assert(mid + graphics_file_exports(gv.take(0)) =~= mid);
        while k < self.graphics_files.len()
            invariant
                gv == self@.graphics_files,
                graphics_displayable(self@),
                k <= gv.len(),
                r@.map_values(|p: (String, String)| (p.0@, p.1@)) == mid + graphics_file_exports(gv.take(k as int)),
            decreases gv.len() - k,
        {
            assert(gv.take(k + 1).drop_last() =~= gv.take(k as int));
            assert(gv.take(k + 1).last() == self.graphics_files@[k as int]@);
            assert(graphics_file_displayable(gv[k as int]));
            match self.graphics_files[k].export() {
                Some(e) => {
                    let ghost before = r@.map_values(|p: (String, String)| (p.0@, p.1@));
                    r.push(e);
                    assert(r@.map_values(|p: (String, String)| (p.0@, p.1@)) =~= before.push((e.0@, e.1@)));
                },
                None => {},
            }
            k = k + 1;
        }
        assert(gv.take(gv.len() as int) =~= gv);
        r
    }

    /// The images that the lines refer to, in order: the size of each is what
    /// reading needs to know of the disk.
    pub fn image_names(lines: &Vec<Vec<String>>) -> (r: Vec<String>)
        ensures
            r.deep_view() == image_names(lines.deep_view()),
    {
        let ghost lv = lines.deep_view();
        let mut r: Vec<String> = Vec::new();
        let mut k: usize = 0;
        assert(r.deep_view() =~= image_names(lv.take(0)));
        while k < lines.len()
            invariant
                lv == lines.deep_view(),
                k <= lv.len(),
                r.deep_view() == image_names(lv.take(k as int)),
            decreases lv.len() - k,
        {
            assert(lv.take(k + 1).drop_last() =~= lv.take(k as int));
            let l = &lines[k];
            assert(lv.take(k + 1).last() == l.deep_view());
            let ghost before = r.deep_view();
            if l.len() >= 2 {
                assert(l[0]@ == l.deep_view()[0]);
                assert(l[1]@ == l.deep_view()[1]);
                if str_eq(l[0].as_str(), "LS_PALETTE_FILE") && l[1].unicode_len() > 0 {
                    r.push(l[1].clone());
                    assert(r.deep_view() =~= before + seq![l[1]@]);
                } else if str_eq(l[0].as_str(), "FILE") && file_field_check(&l[1]) {
                    let n = take_file_field(&l[1]);
                    r.push(n);
                    assert(r.deep_view() =~= before + seq![n@]);
                } else {
                    assert(r.deep_view() =~= before + Seq::<Seq<char>>::empty());
                }
            } else {
                assert(r.deep_view() =~= before + Seq::<Seq<char>>::empty());
            }
            k = k + 1;
        }
        assert(lv.take(lv.len() as int) =~= lv);
        r
    }

    /// The kind of the raw file with lines `lines`.
    pub fn file_kind(lines: &Vec<Vec<String>>) -> (r: RawFileKind)
        ensures
            r == raw_file_kind(lines.deep_view()),
    {
        let ghost lv = lines.deep_view();
        let mut i: usize = 0;
        while i < lines.len()
            invariant
                lv == lines.deep_view(),
                i <= lv.len(),
                raw_file_kind_from(lv, i as int) == raw_file_kind(lv),
            decreases lv.len() - i,
        {
            let l = &lines[i];
            assert(l.deep_view() == lv[i as int]);
            if l.len() >= 2 {
                assert(l[0]@ == lv[i as int][0]);
                assert(l[1]@ == lv[i as int][1]);
                if str_eq(l[0].as_str(), "OBJECT") {
                    if str_eq(l[1].as_str(), "TILE_PAGE") {
                        return RawFileKind::TilePageFile;
                    } else if str_eq(l[1].as_str(), "GRAPHICS") {
                        return RawFileKind::GraphicsFile;
                    } else {
                        return RawFileKind::Other;
                    }
                }
            }
            i = i + 1;
        }
        RawFileKind::Other
    }

    /// Whether the raw file with lines `lines` can be read as its kind.
    pub fn file_readable(lines: &Vec<Vec<String>>) -> (r: bool)
        ensures
            r == raw_file_readable(lines.deep_view()),
    {
        let limit: usize = (isize::MAX / 2) as usize;
        if lines.len() > limit {
            return false;
        }
        match Graphics::file_kind(lines) {
            RawFileKind::TilePageFile => TilePageFile::readable(lines),
            RawFileKind::GraphicsFile => GraphicsFile::readable(lines),
            RawFileKind::Other => true,
        }
    }
}

} // verus!
