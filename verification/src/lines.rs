//! Helpers shared by the block readers: raw lines, error lists, image sizes.
use vstd::prelude::*;
use crate::condition::field_errors;
use crate::error::{
    spec_index_error, spec_parse_error, spec_wrap_buffer_error, spec_wrap_file_error, wrap_file_fits,
    wrap_import_file_error, wrap_buffer_fits, wrap_import_buffer_error, DFGHError, FieldRange,
};
use crate::items::tail_of;
use crate::text::str_eq;

verus! {

/// The views of a list of errors.
pub open spec fn errs(v: Seq<DFGHError>) -> Seq<DFGHError<Seq<char>>> {
    v.map_values(|e: DFGHError| e@)
}

/// The most lines a block may have. A block is a `Vec` of lines, each a `Vec`
/// of more than two bytes, so every block that fits in memory is shorter.
pub open spec fn max_lines() -> int {
    isize::MAX / 2
}

/// Every block error in `es` names a line at most `d` past the end of its block
/// (each level of nesting can add one), in a block of at most [`max_lines`] lines.
pub open spec fn errors_within(es: Seq<DFGHError<Seq<char>>>, d: nat) -> bool {
    forall|k: int|
        0 <= k < es.len() ==> (#[trigger] es[k] matches DFGHError::ImportBufferError(r, b, _, _) ==> r <= b + d
            && b <= max_lines())
}

/// A bound on the errors is also any larger bound.
pub proof fn lemma_within_mono(es: Seq<DFGHError<Seq<char>>>, d: nat, d2: nat)
    requires
        errors_within(es, d),
        d <= d2,
    ensures
        errors_within(es, d2),
{
}

/// Joining two error lists within a bound gives a list within it.
pub proof fn lemma_within_append(a: Seq<DFGHError<Seq<char>>>, b: Seq<DFGHError<Seq<char>>>, d: nat)
    requires
        errors_within(a, d),
        errors_within(b, d),
    ensures
        errors_within(a + b, d),
{
    let c = a + b;
    assert forall|k: int| 0 <= k < c.len() implies (#[trigger] c[k] matches DFGHError::ImportBufferError(r, bb, _, _)
        ==> r <= bb + d && bb <= max_lines()) by {
        if k < a.len() {
            assert(c[k] == a[k]);
        } else {
            assert(c[k] == b[k - a.len()]);
        }
    }
}

/// Adding an error within a bound to a list within it keeps the list within it.
pub proof fn lemma_within_push(es: Seq<DFGHError<Seq<char>>>, e: DFGHError<Seq<char>>, d: nat)
    requires
        errors_within(es, d),
        errors_within(seq![e], d),
    ensures
        errors_within(es.push(e), d),
{
    assert(es.push(e) =~= es + seq![e]);
    lemma_within_append(es, seq![e], d);
}

/// The error for a short line names a line within its block.
pub proof fn lemma_index_error_within(i: usize, bl: usize, len: usize, k: usize)
    requires
        bl <= max_lines(),
    ensures
        errors_within(seq![spec_index_error(i, bl, len, k)], 0),
{
    let s = seq![spec_index_error(i, bl, len, k)];
    assert(s[0] == spec_index_error(i, bl, len, k));
}

/// The error for a field that is not an integer names a line within its block.
pub proof fn lemma_field_errors_within(l: Seq<Seq<char>>, k: int, i: usize, bl: usize)
    requires
        i <= bl <= max_lines(),
    ensures
        errors_within(field_errors(l, k, i, bl), 0),
{
    let s = field_errors(l, k, i, bl);
    if s.len() > 0 {
        assert(s[0] == spec_parse_error(i, bl, k as usize));
    }
}

/// Appends one error.
pub fn push_error(errors: &mut Vec<DFGHError>, e: DFGHError)
    ensures
        errs(final(errors)@) == errs(old(errors)@).push(e@),
{
    errors.push(e);
    assert(errs(errors@) =~= errs(old(errors)@).push(e@));
}

/// `es` as errors of the block that holds, at line `i`, the sub-block they were met in.
pub open spec fn wrap_all(es: Seq<DFGHError<Seq<char>>>, i: usize, bl: usize) -> Seq<DFGHError<Seq<char>>> {
    es.map_values(|e: DFGHError<Seq<char>>| spec_wrap_buffer_error(i, bl, FieldRange { start: 0, end: 0 }, e))
}

/// Wrapping errors at a line of a block keeps them within their bound; wrapping
/// them just past its last line widens it by one.
pub proof fn lemma_wrap_all_within(es: Seq<DFGHError<Seq<char>>>, d: nat, i: usize, bl: usize)
    requires
        errors_within(es, d),
        d <= 16,
        i <= bl <= max_lines(),
    ensures
        errors_within(wrap_all(es, i, bl), d + 1),
        i < bl ==> errors_within(wrap_all(es, i, bl), d),
{
    let w = wrap_all(es, i, bl);
    assert forall|k: int| 0 <= k < w.len() implies (#[trigger] w[k] matches DFGHError::ImportBufferError(r, b, _, _)
        ==> r <= b + d + 1 && b <= max_lines() && (i < bl ==> r <= b + d)) by {
        assert(w[k] == spec_wrap_buffer_error(i, bl, FieldRange { start: 0, end: 0 }, es[k]));
    }
}

/// Appends the errors `es` of a sub-block met at line `i` of a block of `bl` lines.
pub fn append_wrapped(errors: &mut Vec<DFGHError>, es: &Vec<DFGHError>, i: usize, bl: usize, Ghost(d): Ghost<nat>)
    requires
        errors_within(errs(es@), d),
        d <= 16,
        i <= bl <= max_lines(),
    ensures
        errs(final(errors)@) == errs(old(errors)@) + wrap_all(errs(es@), i, bl),
{
    let mut k: usize = 0;
    while k < es.len()
        invariant
            k <= es@.len(),
            d <= 16,
            i <= bl <= max_lines(),
            errors_within(errs(es@), d),
            errs(errors@) == errs(old(errors)@) + wrap_all(errs(es@).take(k as int), i, bl),
        decreases es@.len() - k,
    {
        assert(errs(es@)[k as int] == es@[k as int]@);
        assert(wrap_buffer_fits(i, es@[k as int]@));
        let w = wrap_import_buffer_error(i, bl, FieldRange { start: 0, end: 0 }, &es[k]);
        let ghost before = errors@;
        errors.push(w);
        assert(errs(errors@) =~= errs(before).push(w@));
        let ghost t = errs(es@).take(k + 1);
        assert(t =~= errs(es@).take(k as int).push(es@[k as int]@));
        assert(wrap_all(t, i, bl) =~= wrap_all(errs(es@).take(k as int), i, bl).push(w@));
        k = k + 1;
        assert(errs(errors@) =~= errs(old(errors)@) + wrap_all(errs(es@).take(k as int), i, bl));
    }
    assert(errs(es@).take(es@.len() as int) =~= errs(es@));
}

/// `es` as errors of the file whose raw lines are `raw`, met in a block that
/// ends at line `i` of the file at `path`.
pub open spec fn wrap_all_file(
    es: Seq<DFGHError<Seq<char>>>,
    raw: Seq<Seq<char>>,
    i: usize,
    path: Seq<char>,
) -> Seq<DFGHError<Seq<char>>> {
    es.map_values(|e: DFGHError<Seq<char>>| spec_wrap_file_error(raw, e, i, path))
}

/// Appends the errors `es` of a block that ends at line `i` of a file.
pub fn append_file_wrapped(
    errors: &mut Vec<DFGHError>,
    es: &Vec<DFGHError>,
    raw: &Vec<String>,
    i: usize,
    path: &String,
    Ghost(d): Ghost<nat>,
)
    requires
        errors_within(errs(es@), d),
        d <= 16,
        i <= max_lines(),
    ensures
        errs(final(errors)@) == errs(old(errors)@) + wrap_all_file(errs(es@), raw.deep_view(), i, path@),
{
    let ghost rv = raw.deep_view();
    let mut k: usize = 0;
    while k < es.len()
        invariant
            k <= es@.len(),
            d <= 16,
            i <= max_lines(),
            rv == raw.deep_view(),
            errors_within(errs(es@), d),
            errs(errors@) == errs(old(errors)@) + wrap_all_file(errs(es@).take(k as int), rv, i, path@),
        decreases es@.len() - k,
    {
        assert(errs(es@)[k as int] == es@[k as int]@);
        assert(wrap_file_fits(es@[k as int]@, i));
        let w = wrap_import_file_error(raw, &es[k], i, path);
        let ghost before = errors@;
        errors.push(w);
        assert(errs(errors@) =~= errs(before).push(w@));
        let ghost t = errs(es@).take(k + 1);
        assert(t =~= errs(es@).take(k as int).push(es@[k as int]@));
        assert(wrap_all_file(t, rv, i, path@) =~= wrap_all_file(errs(es@).take(k as int), rv, i, path@).push(w@));
        k = k + 1;
        assert(errs(errors@) =~= errs(old(errors)@) + wrap_all_file(errs(es@).take(k as int), rv, i, path@));
    }
    assert(errs(es@).take(es@.len() as int) =~= errs(es@));
}

/// A copy of a raw line.
pub fn clone_line(v: &Vec<String>) -> (r: Vec<String>)
    ensures
        r.deep_view() == v.deep_view(),
{
    let r = tail_of(v, 0);
    assert(v.deep_view().skip(0) =~= v.deep_view());
    r
}

/// A copy of lines `from..to` of a buffer.
pub fn clone_block(buffer: &Vec<Vec<String>>, from: usize, to: usize) -> (r: Vec<Vec<String>>)
    requires
        from <= to <= buffer@.len(),
    ensures
        r@.len() == to - from,
        r.deep_view() == buffer.deep_view().subrange(from as int, to as int),
{
    let mut r: Vec<Vec<String>> = Vec::new();
    let mut i = from;
    while i < to
        invariant
            from <= i <= to <= buffer@.len(),
            r@.len() == i - from,
            forall|k: int| 0 <= k < r@.len() ==> #[trigger] r@[k].deep_view() == buffer@[from + k].deep_view(),
        decreases to - i,
    {
        r.push(clone_line(&buffer[i]));
        i = i + 1;
    }
    assert(r.deep_view() =~= buffer.deep_view().subrange(from as int, to as int));
    r
}

/// A buffer holding a copy of one line.
pub fn single_line(v: &Vec<String>) -> (r: Vec<Vec<String>>)
    ensures
        r@.len() == 1,
        r.deep_view() == seq![v.deep_view()],
{
    let mut r: Vec<Vec<String>> = Vec::new();
    r.push(clone_line(v));
    assert(r.deep_view() =~= seq![v.deep_view()]);
    r
}

/// The fields of `l` other than `AS_IS`, in order.
pub open spec fn without_as_is(l: Seq<Seq<char>>) -> Seq<Seq<char>>
    decreases l.len(),
{
    if l.len() == 0 {
        seq![]
    } else if l.last() == "AS_IS"@ {
        without_as_is(l.drop_last())
    } else {
        without_as_is(l.drop_last()).push(l.last())
    }
}

/// Dropping `AS_IS` fields never lengthens a line.
pub proof fn lemma_without_as_is_len(l: Seq<Seq<char>>)
    ensures
        without_as_is(l).len() <= l.len(),
    decreases l.len(),
{
    if l.len() > 0 {
        lemma_without_as_is_len(l.drop_last());
    }
}

/// The fields of `line` other than `AS_IS`.
pub fn reduce_line(line: &Vec<String>) -> (r: Vec<String>)
    ensures
        r.deep_view() == without_as_is(line.deep_view()),
{
    let mut r: Vec<String> = Vec::new();
    let mut i: usize = 0;
    while i < line.len()
        invariant
            i <= line@.len(),
            r.deep_view() == without_as_is(line.deep_view().take(i as int)),
        decreases line@.len() - i,
    {
        let ghost t = line.deep_view().take(i + 1);
        assert(t.drop_last() =~= line.deep_view().take(i as int));
        assert(t.last() == line@[i as int]@);
        if !str_eq(line[i].as_str(), "AS_IS") {
            let ghost before = r.deep_view();
            r.push(line[i].clone());
            assert(r.deep_view() =~= before.push(line@[i as int]@));
        }
        i = i + 1;
    }
    assert(line.deep_view().take(line@.len() as int) =~= line.deep_view());
    r
}

/// Whether one of the fields of `line` is `word`.
pub fn has_field(line: &Vec<String>, word: &str) -> (r: bool)
    ensures
        r == line.deep_view().contains(word@),
{
    let mut i: usize = 0;
    while i < line.len()
        invariant
            i <= line@.len(),
            forall|k: int| 0 <= k < i ==> line.deep_view()[k] != word@,
        decreases line@.len() - i,
    {
        if str_eq(line[i].as_str(), word) {
            assert(line.deep_view()[i as int] == word@);
            return true;
        }
        i = i + 1;
    }
    false
}

/// `|a - b|` for `u32`.
pub open spec fn abs_diff(a: u32, b: u32) -> u32 {
    if a >= b { (a - b) as u32 } else { (b - a) as u32 }
}

/// `|a - b|` for `u32`.
pub fn abs_diff_u32(a: u32, b: u32) -> (r: u32)
    ensures
        r == abs_diff(a, b),
{
    if a >= b { a - b } else { b - a }
}

/// The pixel size of an image file, as found on disk when a file was read.
#[derive(Clone, Debug, PartialEq)]
pub struct ImageSize {
    /// The image name as a raw file refers to it.
    pub file_name: String,
    pub width: u32,
    pub height: u32,
}

/// The size of the first image named `name` in `table`, if any.
pub open spec fn image_lookup(table: Seq<ImageSize>, name: Seq<char>) -> Option<(u32, u32)>
    decreases table.len(),
{
    if table.len() == 0 {
        None
    } else if table[0].file_name@ == name {
        Some((table[0].width, table[0].height))
    } else {
        image_lookup(table.drop_first(), name)
    }
}

/// The size of the first image named `name` in `table`, if any.
pub fn find_image(table: &Vec<ImageSize>, name: &String) -> (r: Option<(u32, u32)>)
    ensures
        r == image_lookup(table@, name@),
{
    let mut i: usize = 0;
    assert(table@.skip(0) =~= table@);
    while i < table.len()
        invariant
            i <= table@.len(),
            image_lookup(table@.skip(i as int), name@) == image_lookup(table@, name@),
        decreases table@.len() - i,
    {
        assert(table@.skip(i as int)[0] == table@[i as int]);
        if str_eq(table[i].file_name.as_str(), name.as_str()) {
            return Some((table[i].width, table[i].height));
        }
        assert(table@.skip(i as int).drop_first() =~= table@.skip(i + 1));
        i = i + 1;
    }
    None
}

} // verus!
