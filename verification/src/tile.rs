//! Tile pages: the images that graphics draw their tiles from.
use vstd::prelude::*;
use vstd::string::*;
use crate::condition::{field_errors, parse_or_zero, read_u32_field, to_upper_snake, upper_snake};
use crate::error::{index_error, spec_index_error, spec_unknown_error, unknown_error, DFGHError};
use crate::lines::{
    append_file_wrapped, clone_block, errors_within, errs, find_image, image_lookup, lemma_field_errors_within,
    lemma_index_error_within, lemma_within_append, lemma_within_push, max_lines, push_error, wrap_all_file,
    ImageSize,
};
use crate::text::{
    case_converted, chars_of, convert_case, decimal, push_decimal, push_str, replace, replace_all, str_eq,
    string_from_chars, string_of, trim, trim_string, CaseBoundaries, TextCase,
};
use crate::words::{starts_with, str_starts_with};

verus! {

/// A tile page: its name, image file, image size and tile size.
#[derive(Clone, Debug, PartialEq)]
pub struct TilePage<S = String> {
    pub name: S,
    pub file_name: S,
    pub image_size: [u32; 2],
    pub tile_size: [u32; 2],
}

impl View for TilePage<String> {
    type V = TilePage<Seq<char>>;

    open spec fn view(&self) -> TilePage<Seq<char>> {
        TilePage {
            name: self.name@,
            file_name: self.file_name@,
            image_size: self.image_size,
            tile_size: self.tile_size,
        }
    }
}

/// A fresh tile page.
pub open spec fn spec_tile_page_new() -> TilePage<Seq<char>> {
    TilePage { name: "(new)"@, file_name: seq![], image_size: [0, 0], tile_size: [32, 32] }
}

/// The `FILE` field with `.png` and `images` taken out, before its first
/// character is dropped.
pub open spec fn file_field_stripped(f: Seq<char>) -> Seq<char> {
    replace_all(replace_all(f, ".png"@, seq![]), "images"@, seq![])
}

/// Whether the image name of a `FILE` field can be taken: something is left once
/// `.png` and `images` are taken out, and it starts with a one-byte character.
pub open spec fn file_field_ok(f: Seq<char>) -> bool {
    let g = file_field_stripped(f);
    g.len() >= 1 && (g[0] as u32) < 128
}

/// The image name a `FILE` field gives: the field without `.png`, `images` and
/// its first character (the separator after `images`).
pub open spec fn file_field(f: Seq<char>) -> Seq<char> {
    file_field_stripped(f).drop_first()
}

/// Whether every `FILE` line of `buffer` has an image name that can be taken.
pub open spec fn tile_page_lines_ok(buffer: Seq<Seq<Seq<char>>>) -> bool {
    forall|i: int|
        0 <= i < buffer.len() && (#[trigger] buffer[i]).len() >= 2 && buffer[i][0] == "FILE"@ ==> file_field_ok(
            buffer[i][1],
        )
}

/// The tile page reader's state after line `l`, line `i` of a block of `bl` lines.
pub open spec fn tile_page_line(
    st: (TilePage<Seq<char>>, Seq<DFGHError<Seq<char>>>),
    l: Seq<Seq<char>>,
    i: usize,
    bl: usize,
    images: Seq<ImageSize>,
) -> (TilePage<Seq<char>>, Seq<DFGHError<Seq<char>>>) {
    let (tp, es) = st;
    let len = l.len();
    if len < 2 {
        st
    } else if l[0] == "TILE_PAGE"@ {
        (TilePage { name: l[1], ..tp }, es)
    } else if l[0] == "FILE"@ {
        (TilePage { file_name: file_field(l[1]), ..tp }, es)
    } else if l[0] == "TILE_DIM"@ {
        if len >= 3 {
            (
                TilePage { tile_size: [parse_or_zero(l[1]), parse_or_zero(l[2])], ..tp },
                es + field_errors(l, 1, i, bl) + field_errors(l, 2, i, bl),
            )
        } else {
            (tp, es.push(spec_index_error(i, bl, len as usize, 3)))
        }
    } else if l[0] == "PAGE_DIM_PIXELS"@ {
        if tp.file_name.len() > 0 && image_lookup(images, tp.file_name) is Some {
            let (w, h) = image_lookup(images, tp.file_name).unwrap();
            (TilePage { image_size: [w, h], ..tp }, es)
        } else if len >= 3 {
            (
                TilePage { image_size: [parse_or_zero(l[1]), parse_or_zero(l[2])], ..tp },
                es + field_errors(l, 1, i, bl) + field_errors(l, 2, i, bl),
            )
        } else {
            (tp, es.push(spec_index_error(i, bl, len as usize, 3)))
        }
    } else if l[0] == "OBJECT"@ || l[0] == ""@ {
        st
    } else {
        (tp, es.push(spec_unknown_error(i, bl, len as usize)))
    }
}

/// The tile page reader's state after the first `n` lines of `buffer`.
pub open spec fn tile_page_read_upto(
    buffer: Seq<Seq<Seq<char>>>,
    n: int,
    images: Seq<ImageSize>,
) -> (TilePage<Seq<char>>, Seq<DFGHError<Seq<char>>>)
    decreases n,
{
    if n <= 0 {
        (spec_tile_page_new(), seq![])
    } else {
        tile_page_line(tile_page_read_upto(buffer, n - 1, images), buffer[n - 1], (n - 1) as usize, buffer.len() as usize, images)
    }
}

/// The tile page and errors read from a block of lines, given the sizes of the
/// images that exist.
pub open spec fn tile_page_read(buffer: Seq<Seq<Seq<char>>>, images: Seq<ImageSize>) -> (TilePage<Seq<char>>, Seq<DFGHError<Seq<char>>>) {
    tile_page_read_upto(buffer, buffer.len() as int, images)
}

/// The raw text of a tile page.
pub open spec fn tile_page_display(tp: TilePage<Seq<char>>) -> Seq<char> {
    "[TILE_PAGE:"@ + upper_snake(tp.name) + "]\n\t[FILE:images/"@ + case_converted(tp.file_name, CaseBoundaries::Space, TextCase::Snake)
        + ".png]\n\t[TILE_DIM:"@ + decimal(tp.tile_size[0] as nat) + ":"@ + decimal(tp.tile_size[1] as nat)
        + "]\n\t[PAGE_DIM_PIXELS:"@ + decimal(tp.image_size[0] as nat) + ":"@ + decimal(tp.image_size[1] as nat) + "]\n\n"@
}

/// Whether the image name of a `FILE` field can be taken.
pub fn file_field_check(f: &String) -> (r: bool)
    ensures
        r == file_field_ok(f@),
{
    proof {
        reveal_strlit(".png");
        reveal_strlit("images");
        reveal_strlit("");
    }
    assert(""@ =~= Seq::<char>::empty());
    let a = replace(f.as_str(), ".png", "");
    let b = replace(a.as_str(), "images", "");
    let cs = chars_of(b.as_str());
    cs.len() >= 1 && (cs[0] as u32) < 128
}

/// The image name a `FILE` field gives.
pub fn take_file_field(f: &String) -> (r: String)
    requires
        file_field_ok(f@),
    ensures
        r@ == file_field(f@),
{
    proof {
        reveal_strlit(".png");
        reveal_strlit("images");
        reveal_strlit("");
    }
    assert(""@ =~= Seq::<char>::empty());
    let a = replace(f.as_str(), ".png", "");
    let b = replace(a.as_str(), "images", "");
    let cs = chars_of(b.as_str());
    string_from_chars(&cs, 1, cs.len())
}

/// Records that line `i` of a block of `bl` lines has `len` fields where `k` are needed.
fn short_line(errors: &mut Vec<DFGHError>, i: usize, bl: usize, len: usize, k: usize)
    requires
        bl <= max_lines(),
        errors_within(errs(old(errors)@), 0),
    ensures
        errs(final(errors)@) == errs(old(errors)@).push(spec_index_error(i, bl, len, k)),
        errors_within(errs(final(errors)@), 0),
{
    let ghost es0 = errs(errors@);
    push_error(errors, index_error(i, bl, len, k));
    proof {
        lemma_index_error_within(i, bl, len, k);
        lemma_within_push(es0, spec_index_error(i, bl, len, k), 0);
    }
}

/// Reads the two integer fields of a size line.
fn read_pair(line: &Vec<String>, i: usize, bl: usize, errors: &mut Vec<DFGHError>) -> (r: [u32; 2])
    requires
        line@.len() >= 3,
        i < bl <= max_lines(),
        errors_within(errs(old(errors)@), 0),
    ensures
        r == [parse_or_zero(line.deep_view()[1]), parse_or_zero(line.deep_view()[2])],
        errs(final(errors)@) == errs(old(errors)@) + field_errors(line.deep_view(), 1, i, bl) + field_errors(
            line.deep_view(),
            2,
            i,
            bl,
        ),
        errors_within(errs(final(errors)@), 0),
{
    let ghost es0 = errs(errors@);
    let ghost l = line.deep_view();
    let a = read_u32_field(line, 1, i, bl, errors);
    let b = read_u32_field(line, 2, i, bl, errors);
    proof {
        lemma_field_errors_within(l, 1, i, bl);
        lemma_field_errors_within(l, 2, i, bl);
        lemma_within_append(es0, field_errors(l, 1, i, bl), 0);
        lemma_within_append(es0 + field_errors(l, 1, i, bl), field_errors(l, 2, i, bl), 0);
    }
    [a, b]
}

impl TilePage {
    /// A fresh tile page.
    pub fn new() -> (r: Self)
        ensures
            r@ == spec_tile_page_new(),
    {
        let r = TilePage { name: string_of("(new)"), file_name: String::new(), image_size: [0, 0], tile_size: [32, 32] };
        assert(r@.file_name =~= seq![]);
        r
    }

    /// Whether this tile page is still as [`TilePage::new`] makes it.
    pub fn is_new(&self) -> (r: bool)
        ensures
            r == (self@ == spec_tile_page_new()),
    {
        let r = str_eq(self.name.as_str(), "(new)") && self.file_name.unicode_len() == 0 && self.image_size[0] == 0
            && self.image_size[1] == 0 && self.tile_size[0] == 32 && self.tile_size[1] == 32;
        proof {
            if r {
                assert(self@.file_name =~= seq![]);
                assert(self@.image_size =~= [0u32, 0u32]);
                assert(self@.tile_size =~= [32u32, 32u32]);
            }
        }
        r
    }

    /// Applies line `i` of a block of `bl` lines.
    fn read_line(&mut self, errors: &mut Vec<DFGHError>, line: &Vec<String>, i: usize, bl: usize, images: &Vec<ImageSize>)
        requires
            i < bl <= max_lines(),
            errors_within(errs(old(errors)@), 0),
            line@.len() >= 2 && line.deep_view()[0] == "FILE"@ ==> file_field_ok(line.deep_view()[1]),
        ensures
            (final(self)@, errs(final(errors)@)) == tile_page_line(
                (old(self)@, errs(old(errors)@)),
                line.deep_view(),
                i,
                bl,
                images@,
            ),
            errors_within(errs(final(errors)@), 0),
    {
        let ghost l = line.deep_view();
        let ghost es0 = errs(errors@);
        let len = line.len();
        if len < 2 {
            return;
        }
        assert(line[0]@ == l[0]);
        assert(line[1]@ == l[1]);
        let t = line[0].as_str();
        if str_eq(t, "TILE_PAGE") {
            self.name = line[1].clone();
        } else if str_eq(t, "FILE") {
            self.file_name = take_file_field(&line[1]);
        } else if str_eq(t, "TILE_DIM") {
            if len >= 3 {
                self.tile_size = read_pair(line, i, bl, errors);
            } else {
                short_line(errors, i, bl, len, 3);
            }
        } else if str_eq(t, "PAGE_DIM_PIXELS") {
            let found = if self.file_name.unicode_len() > 0 {
                find_image(images, &self.file_name)
            } else {
                None
            };
            match found {
                Some((w, h)) => {
                    self.image_size = [w, h];
                },
                None => {
                    if len >= 3 {
                        self.image_size = read_pair(line, i, bl, errors);
                    } else {
                        short_line(errors, i, bl, len, 3);
                    }
                },
            }
        } else if str_eq(t, "OBJECT") || str_eq(t, "") {
        } else {
            push_error(errors, unknown_error(i, bl, len));
            proof {
                let s = seq![spec_unknown_error(i, bl, len)];
                assert(s[0] == spec_unknown_error(i, bl, len));
                lemma_within_push(es0, spec_unknown_error(i, bl, len), 0);
            }
        }
    }

    /// Reads a tile page from its block of lines, with the errors met; `images`
    /// holds the sizes of the images that exist.
    pub fn read(buffer: Vec<Vec<String>>, images: &Vec<ImageSize>) -> (r: (TilePage, Vec<DFGHError>))
        requires
            buffer@.len() <= max_lines(),
            tile_page_lines_ok(buffer.deep_view()),
        ensures
            (r.0@, errs(r.1@)) == tile_page_read(buffer.deep_view(), images@),
            errors_within(errs(r.1@), 0),
    {
        let mut tp = TilePage::new();
        let mut errors: Vec<DFGHError> = Vec::new();
        let bl = buffer.len();
        let ghost bv = buffer.deep_view();
        assert(errs(errors@) =~= Seq::<DFGHError<Seq<char>>>::empty());
        let mut i: usize = 0;
        while i < bl
            invariant
                bl == buffer@.len() <= max_lines(),
                bv == buffer.deep_view(),
                tile_page_lines_ok(bv),
                i <= bl,
                (tp@, errs(errors@)) == tile_page_read_upto(bv, i as int, images@),
                errors_within(errs(errors@), 0),
            decreases bl - i,
        {
            assert(buffer[i as int].deep_view() == bv[i as int]);
            tp.read_line(&mut errors, &buffer[i], i, bl, images);
            i = i + 1;
        }
        (tp, errors)
    }

    /// The raw text of this tile page.
    pub fn display(&self) -> (r: String)
        ensures
            r@ == tile_page_display(self@),
    {
        let mut out = string_of("[TILE_PAGE:");
        push_str(&mut out, to_upper_snake(self.name.as_str()).as_str());
        push_str(&mut out, "]\n\t[FILE:images/");
        push_str(&mut out, convert_case(self.file_name.as_str(), CaseBoundaries::Space, TextCase::Snake).as_str());
        push_str(&mut out, ".png]\n\t[TILE_DIM:");
        push_decimal(&mut out, self.tile_size[0] as u64);
        push_str(&mut out, ":");
        push_decimal(&mut out, self.tile_size[1] as u64);
        push_str(&mut out, "]\n\t[PAGE_DIM_PIXELS:");
        push_decimal(&mut out, self.image_size[0] as u64);
        push_str(&mut out, ":");
        push_decimal(&mut out, self.image_size[1] as u64);
        push_str(&mut out, "]\n\n");
        out
    }
}

/// A tile page file: its name and its tile pages.
#[derive(Clone, Debug, PartialEq)]
pub struct TilePageFile {
    pub name: String,
    pub tile_pages: Vec<TilePage>,
}

/// The view of a [`TilePageFile`].
pub struct SpecTilePageFile {
    pub name: Seq<char>,
    pub tile_pages: Seq<TilePage<Seq<char>>>,
}

impl View for TilePageFile {
    type V = SpecTilePageFile;

    open spec fn view(&self) -> SpecTilePageFile {
        SpecTilePageFile { name: self.name@, tile_pages: self.tile_pages@.map_values(|t: TilePage| t@) }
    }
}

/// A fresh tile page file, holding one fresh tile page.
pub open spec fn spec_tile_page_file_new() -> SpecTilePageFile {
    SpecTilePageFile { name: "(new)"@, tile_pages: seq![spec_tile_page_new()] }
}

/// The name of a graphics or tile page file read from the file named
/// `file_name` (`no_name` where the path has no usable file name): the name
/// without `.txt`, trimmed.
pub open spec fn file_stem_name(file_name: Option<Seq<char>>) -> Seq<char> {
    let f = match file_name {
        Some(f) => f,
        None => "no_name"@,
    };
    trim(replace_all(f, ".txt"@, seq![]))
}

/// The name of a file read from the file named `file_name`.
pub fn stem_name(file_name: &Option<String>) -> (r: String)
    ensures
        r@ == file_stem_name(
            match file_name {
                Some(f) => Some(f@),
                None => None,
            },
        ),
{
    proof {
        reveal_strlit(".txt");
        reveal_strlit("");
    }
    assert(""@ =~= Seq::<char>::empty());
    let f = match file_name {
        Some(f) => f.clone(),
        None => string_of("no_name"),
    };
    let g = replace(f.as_str(), ".txt", "");
    trim_string(g.as_str())
}

/// Reads the pending block as a tile page, keeps it unless it is a fresh one,
/// and adds its errors as met in the block ending at line `at` of the file.
pub open spec fn flush_tile_page(
    tps: Seq<TilePage<Seq<char>>>,
    es: Seq<DFGHError<Seq<char>>>,
    block: Seq<Seq<Seq<char>>>,
    at: usize,
    raw: Seq<Seq<char>>,
    path: Seq<char>,
    images: Seq<ImageSize>,
) -> (Seq<TilePage<Seq<char>>>, Seq<DFGHError<Seq<char>>>) {
    let (tp, tes) = tile_page_read(block, images);
    (if tp == spec_tile_page_new() { tps } else { tps.push(tp) }, es + wrap_all_file(tes, raw, at, path))
}

/// The tile page file reader's state after the first `n` lines: the tile pages,
/// the errors and where the pending block starts.
pub open spec fn tile_page_file_upto(
    buffer: Seq<Seq<Seq<char>>>,
    n: int,
    raw: Seq<Seq<char>>,
    path: Seq<char>,
    images: Seq<ImageSize>,
) -> (Seq<TilePage<Seq<char>>>, Seq<DFGHError<Seq<char>>>, int)
    decreases n,
{
    if n <= 0 {
        (seq![], seq![], 0)
    } else {
        let (tps, es, start) = tile_page_file_upto(buffer, n - 1, raw, path, images);
        let i = n - 1;
        let l = buffer[i];
        if l.len() >= 1 && l[0] == "TILE_PAGE"@ && start < i {
            let (tps2, es2) = flush_tile_page(tps, es, buffer.subrange(start, i), i as usize, raw, path, images);
            (tps2, es2, i)
        } else {
            (tps, es, start)
        }
    }
}

/// The tile page file and errors read from the lines of the file at `path`
/// named `file_name`, whose raw lines are `raw`.
pub open spec fn tile_page_file_read(
    buffer: Seq<Seq<Seq<char>>>,
    raw: Seq<Seq<char>>,
    path: Seq<char>,
    file_name: Option<Seq<char>>,
    images: Seq<ImageSize>,
) -> (SpecTilePageFile, Seq<DFGHError<Seq<char>>>) {
    let n = buffer.len() as int;
    let (tps, es, start) = tile_page_file_upto(buffer, n, raw, path, images);
    let (tps2, es2) = if start < n {
        flush_tile_page(tps, es, buffer.subrange(start, n), n as usize, raw, path, images)
    } else {
        (tps, es)
    };
    (SpecTilePageFile { name: file_stem_name(file_name), tile_pages: tps2 }, es2)
}

/// The raw text of each tile page, concatenated.
pub open spec fn tile_pages_display(tps: Seq<TilePage<Seq<char>>>) -> Seq<char>
    decreases tps.len(),
{
    if tps.len() == 0 {
        seq![]
    } else {
        tile_pages_display(tps.drop_last()) + tile_page_display(tps.last())
    }
}

/// The raw text of a tile page file.
pub open spec fn tile_page_file_display(f: SpecTilePageFile) -> Seq<char> {
    "tile_page_"@ + replace_all(
        replace_all(case_converted(f.name, CaseBoundaries::Space, TextCase::Snake), "tile_page_"@, seq![]),
        ".txt"@,
        seq![],
    ) + "\n\n[OBJECT:TILE_PAGE]\n\n"@ + tile_pages_display(f.tile_pages)
}

/// The name a tile page file is written under.
pub open spec fn tile_page_file_export_name(f: SpecTilePageFile) -> Seq<char> {
    let n = case_converted(f.name + ".txt"@, CaseBoundaries::Space, TextCase::Snake);
    if starts_with(n, "tile_page_"@) {
        n
    } else {
        "tile_page_"@ + n
    }
}

/// A tile page block of `buffer` has image names that can be taken.
pub proof fn lemma_tile_page_lines_sub(buffer: Seq<Seq<Seq<char>>>, a: int, b: int)
    requires
        tile_page_lines_ok(buffer),
        0 <= a <= b <= buffer.len(),
    ensures
        tile_page_lines_ok(buffer.subrange(a, b)),
{
    let s = buffer.subrange(a, b);
    assert forall|i: int| 0 <= i < s.len() && (#[trigger] s[i]).len() >= 2 && s[i][0] == "FILE"@ implies file_field_ok(
        s[i][1],
    ) by {
        assert(s[i] == buffer[a + i]);
    }
}

impl TilePageFile {
    /// A fresh tile page file, holding one fresh tile page.
    pub fn new() -> (r: Self)
        ensures
            r@ == spec_tile_page_file_new(),
    {
        let mut tile_pages: Vec<TilePage> = Vec::new();
        tile_pages.push(TilePage::new());
        let r = TilePageFile { name: string_of("(new)"), tile_pages };
        assert(r@.tile_pages =~= seq![spec_tile_page_new()]);
        r
    }

    /// Whether every `FILE` line of a tile page file with lines `buffer` has an
    /// image name that can be taken.
    pub fn readable(buffer: &Vec<Vec<String>>) -> (r: bool)
        ensures
            r == tile_page_lines_ok(buffer.deep_view()),
    {
        let ghost bv = buffer.deep_view();
        let mut i: usize = 0;
        while i < buffer.len()
            invariant
                bv == buffer.deep_view(),
                i <= bv.len(),
                forall|j: int|
                    0 <= j < i && (#[trigger] bv[j]).len() >= 2 && bv[j][0] == "FILE"@ ==> file_field_ok(bv[j][1]),
            decreases bv.len() - i,
        {
            let line = &buffer[i];
            assert(line.deep_view() == bv[i as int]);
            if line.len() >= 2 {
                assert(line[0]@ == bv[i as int][0]);
                assert(line[1]@ == bv[i as int][1]);
                if str_eq(line[0].as_str(), "FILE") && !file_field_check(&line[1]) {
                    return false;
                }
            }
            i = i + 1;
        }
        true
    }

    /// Reads lines `start..at` as a tile page.
    fn flush(
        tile_pages: &mut Vec<TilePage>,
        errors: &mut Vec<DFGHError>,
        buffer: &Vec<Vec<String>>,
        start: usize,
        at: usize,
        raw: &Vec<String>,
        path: &String,
        images: &Vec<ImageSize>,
    )
        requires
            start <= at <= buffer@.len() <= max_lines(),
            tile_page_lines_ok(buffer.deep_view()),
        ensures
            (final(tile_pages)@.map_values(|t: TilePage| t@), errs(final(errors)@)) == flush_tile_page(
                old(tile_pages)@.map_values(|t: TilePage| t@),
                errs(old(errors)@),
                buffer.deep_view().subrange(start as int, at as int),
                at,
                raw.deep_view(),
                path@,
                images@,
            ),
    {
        let block = clone_block(buffer, start, at);
        proof {
            lemma_tile_page_lines_sub(buffer.deep_view(), start as int, at as int);
        }
        let (tp, tes) = TilePage::read(block, images);
        append_file_wrapped(errors, &tes, raw, at, path, Ghost(0));
        if !tp.is_new() {
            let ghost before = tile_pages@.map_values(|t: TilePage| t@);
            tile_pages.push(tp);
            assert(tile_pages@.map_values(|t: TilePage| t@) =~= before.push(tp@));
        }
    }

    /// Reads a tile page file from the lines of the file at `path` named
    /// `file_name` (its raw lines are `raw_buffer`), with the errors met;
    /// `images` holds the sizes of the images that exist.
    pub fn read(
        buffer: Vec<Vec<String>>,
        raw_buffer: Vec<String>,
        path: &String,
        file_name: &Option<String>,
        images: &Vec<ImageSize>,
    ) -> (r: (TilePageFile, Vec<DFGHError>))
        requires
            buffer@.len() <= max_lines(),
            tile_page_lines_ok(buffer.deep_view()),
        ensures
            (r.0@, errs(r.1@)) == tile_page_file_read(
                buffer.deep_view(),
                raw_buffer.deep_view(),
                path@,
                match file_name {
                    Some(f) => Some(f@),
                    None => None,
                },
                images@,
            ),
    {
        let name = stem_name(file_name);
        let mut tile_pages: Vec<TilePage> = Vec::new();
        let mut errors: Vec<DFGHError> = Vec::new();
        let bl = buffer.len();
        let ghost bv = buffer.deep_view();
        let ghost rv = raw_buffer.deep_view();
        assert(errs(errors@) =~= Seq::<DFGHError<Seq<char>>>::empty());
        assert(tile_pages@.map_values(|t: TilePage| t@) =~= Seq::<TilePage<Seq<char>>>::empty());
        let mut start: usize = 0;
        let mut i: usize = 0;
        while i < bl
            invariant
                bl == buffer@.len() <= max_lines(),
                bv == buffer.deep_view(),
                rv == raw_buffer.deep_view(),
                tile_page_lines_ok(bv),
                start <= i <= bl,
                (tile_pages@.map_values(|t: TilePage| t@), errs(errors@), start as int) == tile_page_file_upto(
                    bv,
                    i as int,
                    rv,
                    path@,
                    images@,
                ),
            decreases bl - i,
        {
            let line = &buffer[i];
            assert(line.deep_view() == bv[i as int]);
            if line.len() >= 1 {
                assert(line[0]@ == bv[i as int][0]);
            }
            if line.len() >= 1 && str_eq(line[0].as_str(), "TILE_PAGE") && start < i {
                TilePageFile::flush(&mut tile_pages, &mut errors, &buffer, start, i, &raw_buffer, path, images);
                start = i;
            }
            i = i + 1;
        }
        if start < bl {
            TilePageFile::flush(&mut tile_pages, &mut errors, &buffer, start, bl, &raw_buffer, path, images);
        }
        (TilePageFile { name, tile_pages }, errors)
    }

    /// The raw text of each tile page.
    fn pages_text(&self) -> (r: String)
        ensures
            r@ == tile_pages_display(self@.tile_pages),
    {
        let ghost tps = self@.tile_pages;
        let mut out = String::new();
        let mut k: usize = 0;
        while k < self.tile_pages.len()
            invariant
                tps == self@.tile_pages,
                k <= tps.len(),
                out@ == tile_pages_display(tps.take(k as int)),
            decreases tps.len() - k,
        {
            assert(tps.take(k + 1).drop_last() =~= tps.take(k as int));
            assert(tps.take(k + 1).last() == self.tile_pages@[k as int]@);
            push_str(&mut out, self.tile_pages[k].display().as_str());
            k = k + 1;
        }
        assert(tps.take(tps.len() as int) =~= tps);
        out
    }

    /// The raw text of this tile page file.
    pub fn display(&self) -> (r: String)
        ensures
            r@ == tile_page_file_display(self@),
    {
        proof {
            reveal_strlit("tile_page_");
            reveal_strlit(".txt");
            reveal_strlit("");
        }
        assert(""@ =~= Seq::<char>::empty());
        let mut out = string_of("tile_page_");
        let n = convert_case(self.name.as_str(), CaseBoundaries::Space, TextCase::Snake);
        let n = replace(n.as_str(), "tile_page_", "");
        let n = replace(n.as_str(), ".txt", "");
        push_str(&mut out, n.as_str());
        push_str(&mut out, "\n\n[OBJECT:TILE_PAGE]\n\n");
        push_str(&mut out, self.pages_text().as_str());
        out
    }

    /// The name this file is written under and what is written: its text,
    /// followed once more by the text of each of its tile pages.
    pub fn export(&self) -> (r: (String, String))
        ensures
            r.0@ == tile_page_file_export_name(self@),
            r.1@ == tile_page_file_display(self@) + tile_pages_display(self@.tile_pages),
    {
        let mut n = self.name.clone();
        push_str(&mut n, ".txt");
        let n = convert_case(n.as_str(), CaseBoundaries::Space, TextCase::Snake);
        let name = if str_starts_with(n.as_str(), "tile_page_") {
            n
        } else {
            let mut p = string_of("tile_page_");
            push_str(&mut p, n.as_str());
            p
        };
        let mut contents = self.display();
        push_str(&mut contents, self.pages_text().as_str());
        (name, contents)
    }
}

} // verus!
