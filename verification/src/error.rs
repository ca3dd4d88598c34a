//! Errors of the reader, and the text that points a user at the faulty line.
use vstd::prelude::*;
use crate::text::{chars_of, decimal, push_char, push_decimal, push_str, string_of};

verus! {

/// An inclusive range of field indices within a raw line (`start..=end`).
#[derive(Clone, Copy, Debug, PartialEq, Eq, Structural)]
pub struct FieldRange {
    pub start: usize,
    pub end: usize,
}

/// An error met while reading, editing or writing graphics files.
///
/// `S` is the string type: `String` for values, `Seq<char>` for their views.
#[derive(Clone, Debug, PartialEq)]
pub enum DFGHError<S = String> {
    /// No error.
    NoError,
    IndexError,
    IoError(S),
    ImageError(S),
    ImageLoadError(S),
    ImportUnknownError,
    ImportMismatchError,
    ImportParseError,
    /// Expected and found number of fields.
    ImportIndexError(usize, usize),
    UnsupportedFileName(S),
    NoGraphicsDirectory(S),
    /// Line relative to the block, block length, marked field range, message.
    ImportBufferError(usize, usize, FieldRange, S),
    /// Line number, file path, highlighted excerpt, message.
    ImportError(usize, S, S, S),
}

impl View for DFGHError<String> {
    type V = DFGHError<Seq<char>>;

    open spec fn view(&self) -> DFGHError<Seq<char>> {
        match self {
            DFGHError::NoError => DFGHError::NoError,
            DFGHError::IndexError => DFGHError::IndexError,
            DFGHError::IoError(s) => DFGHError::IoError(s@),
            DFGHError::ImageError(s) => DFGHError::ImageError(s@),
            DFGHError::ImageLoadError(s) => DFGHError::ImageLoadError(s@),
            DFGHError::ImportUnknownError => DFGHError::ImportUnknownError,
            DFGHError::ImportMismatchError => DFGHError::ImportMismatchError,
            DFGHError::ImportParseError => DFGHError::ImportParseError,
            DFGHError::ImportIndexError(a, b) => DFGHError::ImportIndexError(*a, *b),
            DFGHError::UnsupportedFileName(s) => DFGHError::UnsupportedFileName(s@),
            DFGHError::NoGraphicsDirectory(s) => DFGHError::NoGraphicsDirectory(s@),
            DFGHError::ImportBufferError(a, b, r, s) => DFGHError::ImportBufferError(*a, *b, *r, s@),
            DFGHError::ImportError(a, p, h, s) => DFGHError::ImportError(*a, p@, h@, s@),
        }
    }
}

/// The text shown to the user for an error.
pub open spec fn error_message(e: DFGHError<Seq<char>>) -> Seq<char> {
    match e {
        DFGHError::NoError => "Unexpected error type. This error is not intended to be displayed."@,
        DFGHError::IndexError => "Index out of bounds"@,
        DFGHError::IoError(_) => "Failed to read or save a file. Please check if the file is in use and try again."@,
        DFGHError::ImageError(_) => "Failed to process an image."@,
        DFGHError::ImageLoadError(p) => "Unable to locate an image at the current path:\n\t"@ + p,
        DFGHError::ImportUnknownError => "Unknown import error."@,
        DFGHError::ImportMismatchError => "File contains incompatible tags."@,
        DFGHError::ImportParseError => "Expected integer in the marked field."@,
        DFGHError::ImportIndexError(a, b) => "Expected "@ + decimal(a as nat) + " fields, found "@ + decimal(b as nat),
        DFGHError::UnsupportedFileName(p) => "File name includes unsupported characters(non UTF-8):\n\t"@ + p,
        DFGHError::NoGraphicsDirectory(p) => "No valid directory found at:\n\t"@ + p
            + "\n\nFormat is mod_name (numeric version)/graphics/"@,
        DFGHError::ImportBufferError(_, _, _, s) => "Should not be displayed. Error String: "@ + s,
        DFGHError::ImportError(l, p, h, s) => "Failed to import line "@ + decimal(l as nat) + " in file:\n\n"@ + p
            + "\n\n"@ + h + "\n\n"@ + s,
    }
}

impl DFGHError {
    /// The text shown to the user for this error.
    pub fn message(&self) -> (r: String)
        ensures
            r@ == error_message(self@),
    {
        match self {
            DFGHError::NoError => string_of("Unexpected error type. This error is not intended to be displayed."),
            DFGHError::IndexError => string_of("Index out of bounds"),
            DFGHError::IoError(_) => string_of(
                "Failed to read or save a file. Please check if the file is in use and try again.",
            ),
            DFGHError::ImageError(_) => string_of("Failed to process an image."),
            DFGHError::ImageLoadError(p) => {
                let mut r = string_of("Unable to locate an image at the current path:\n\t");
                push_str(&mut r, p.as_str());
                r
            },
            DFGHError::ImportUnknownError => string_of("Unknown import error."),
            DFGHError::ImportMismatchError => string_of("File contains incompatible tags."),
            DFGHError::ImportParseError => string_of("Expected integer in the marked field."),
            DFGHError::ImportIndexError(a, b) => index_message(*a, *b),
            DFGHError::UnsupportedFileName(p) => {
                let mut r = string_of("File name includes unsupported characters(non UTF-8):\n\t");
                push_str(&mut r, p.as_str());
                r
            },
            DFGHError::NoGraphicsDirectory(p) => {
                let mut r = string_of("No valid directory found at:\n\t");
                push_str(&mut r, p.as_str());
                push_str(&mut r, "\n\nFormat is mod_name (numeric version)/graphics/");
                r
            },
            DFGHError::ImportBufferError(_, _, _, s) => {
                let mut r = string_of("Should not be displayed. Error String: ");
                push_str(&mut r, s.as_str());
                r
            },
            DFGHError::ImportError(l, p, h, s) => {
                let mut r = string_of("Failed to import line ");
                push_decimal(&mut r, *l as u64);
                push_str(&mut r, " in file:\n\n");
                push_str(&mut r, p.as_str());
                push_str(&mut r, "\n\n");
                push_str(&mut r, h.as_str());
                push_str(&mut r, "\n\n");
                push_str(&mut r, s.as_str());
                r
            },
        }
    }
}

/// `a - b`, or 0 where `b > a`.
pub open spec fn sat_sub(a: int, b: int) -> int {
    if a >= b { a - b } else { 0 }
}

/// The error a block reader reports for an error `e` met in its sub-block
/// ending at its line `i_rel_line`, where the block has `buffer_len` lines.
pub open spec fn spec_wrap_buffer_error(
    i_rel_line: usize,
    buffer_len: usize,
    r_error: FieldRange,
    e: DFGHError<Seq<char>>,
) -> DFGHError<Seq<char>> {
    match e {
        DFGHError::IoError(_)
        | DFGHError::ImageError(_)
        | DFGHError::ImportParseError
        | DFGHError::ImportMismatchError
        | DFGHError::UnsupportedFileName(_) => DFGHError::ImportBufferError(
            i_rel_line,
            buffer_len,
            r_error,
            error_message(e),
        ),
        DFGHError::ImportBufferError(i_rel, b_len, r_e, s) => DFGHError::ImportBufferError(
            sat_sub(i_rel_line + i_rel + 1, b_len as int) as usize,
            buffer_len,
            r_e,
            s,
        ),
        _ => DFGHError::ImportUnknownError,
    }
}

/// Whether wrapping `e` at relative line `i_rel_line` stays within `usize`.
pub open spec fn wrap_buffer_fits(i_rel_line: usize, e: DFGHError<Seq<char>>) -> bool {
    e matches DFGHError::ImportBufferError(i_rel, _, _, _) ==> i_rel_line + i_rel + 1 <= usize::MAX
}

/// Re-expresses an error met in a sub-block in terms of the enclosing block.
pub fn wrap_import_buffer_error(i_rel_line: usize, buffer_len: usize, r_error: FieldRange, e: &DFGHError) -> (r: DFGHError)
    requires
        wrap_buffer_fits(i_rel_line, e@),
    ensures
        r@ == spec_wrap_buffer_error(i_rel_line, buffer_len, r_error, e@),
{
    match e {
        DFGHError::IoError(_)
        | DFGHError::ImageError(_)
        | DFGHError::ImportParseError
        | DFGHError::ImportMismatchError
        | DFGHError::UnsupportedFileName(_) => DFGHError::ImportBufferError(i_rel_line, buffer_len, r_error, e.message()),
        DFGHError::ImportBufferError(i_rel, b_len, r_e, s) => {
            let total = i_rel_line + i_rel + 1;
            let line = if total >= *b_len { total - *b_len } else { 0 };
            DFGHError::ImportBufferError(line, buffer_len, *r_e, s.clone())
        },
        _ => DFGHError::ImportUnknownError,
    }
}

/// Whether `c` separates fields of a raw line.
pub open spec fn is_break_char(c: char) -> bool {
    c == '[' || c == ']' || c == ':'
}

/// The positions of the field separators of `line`, in order.
pub open spec fn break_positions(line: Seq<char>) -> Seq<usize>
    decreases line.len(),
{
    if line.len() == 0 {
        seq![]
    } else {
        let b = break_positions(line.drop_last());
        if is_break_char(line.last()) {
            b.push((line.len() - 1) as usize)
        } else {
            b
        }
    }
}

/// The separators that bound the marked fields: `r` clamped to the last separator.
pub open spec fn marker_span(breaks: Seq<usize>, r: FieldRange) -> (usize, usize) {
    let be = (breaks.len() - 1) as usize;
    if r.start > be {
        (0, be)
    } else if r.end > be {
        (r.start, be)
    } else {
        (r.start, r.end)
    }
}

/// The marker character under position `j` of `line`.
pub open spec fn marker_char(line: Seq<char>, j: int, lo: int, hi: int) -> char {
    if lo <= j && j <= hi {
        '^'
    } else if line[j] == '\t' {
        '\t'
    } else {
        ' '
    }
}

/// The line of markers drawn under `line`: carets under the marked fields,
/// tabs under tabs and spaces elsewhere; empty where the line has fewer than
/// two separators.
pub open spec fn marker_line(line: Seq<char>, r: FieldRange) -> Seq<char> {
    let b = break_positions(line);
    if b.len() >= 2 {
        let (s, e) = marker_span(b, r);
        Seq::new(line.len(), |j: int| marker_char(line, j, b[s as int] as int, b[e as int] as int))
    } else {
        seq![]
    }
}

/// The distance between two line numbers.
pub open spec fn line_distance(a: int, b: int) -> int {
    if a >= b { a - b } else { b - a }
}

/// The text that line `i` of `raw` adds to the excerpt around line `i_line`.
pub open spec fn excerpt_line(raw: Seq<Seq<char>>, i: int, i_line: int, r: FieldRange) -> Seq<char> {
    if line_distance(i, i_line) <= 8 && i != i_line {
        seq!['\n'] + raw[i]
    } else if i == i_line {
        seq!['\n'] + raw[i] + seq!['\n'] + marker_line(raw[i], r)
    } else {
        seq![]
    }
}

/// The excerpt text of the first `n` lines of `raw`.
pub open spec fn excerpt_lines(raw: Seq<Seq<char>>, n: int, i_line: int, r: FieldRange) -> Seq<char>
    decreases n,
{
    if n <= 0 {
        seq![]
    } else {
        excerpt_lines(raw, n - 1, i_line, r) + excerpt_line(raw, n - 1, i_line, r)
    }
}

/// The excerpt of `raw` around line `i_line`: the eight lines on each side,
/// the line itself with the fields in `r` marked below it, and `...` where
/// lines were left out.
pub open spec fn spec_highlight_error(raw: Seq<Seq<char>>, i_line: usize, r: FieldRange) -> Seq<char> {
    (if i_line > 8 { "..."@ } else { seq![] }) + excerpt_lines(raw, raw.len() as int, i_line as int, r) + (
    if line_distance(raw.len() as int, i_line as int) > 8 {
        "\n..."@
    } else {
        seq![]
    })
}

/// The positions of the field separators of `cs`.
fn breaks_of(cs: &Vec<char>) -> (b: Vec<usize>)
    ensures
        b@ == break_positions(cs@),
{
    let mut b: Vec<usize> = Vec::new();
    let mut i: usize = 0;
    while i < cs.len()
        invariant
            i <= cs@.len(),
            b@ == break_positions(cs@.take(i as int)),
        decreases cs@.len() - i,
    {
        let c = cs[i];
        assert(cs@.take(i + 1).drop_last() =~= cs@.take(i as int));
        if c == '[' || c == ']' || c == ':' {
            b.push(i);
        }
        i = i + 1;
    }
    assert(cs@.take(cs@.len() as int) =~= cs@);
    b
}

/// The marker line drawn under `line` for the fields in `r`.
fn marker_line_of(line: &String, r: FieldRange) -> (m: String)
    ensures
        m@ == marker_line(line@, r),
{
    let cs = chars_of(line.as_str());
    let b = breaks_of(&cs);
    let mut m = String::new();
    if b.len() >= 2 {
        let be = b.len() - 1;
        let (s, e) = if r.start > be {
            (0, be)
        } else if r.end > be {
            (r.start, be)
        } else {
            (r.start, r.end)
        };
        let lo = b[s];
        let hi = b[e];
        let mut j: usize = 0;
        while j < cs.len()
            invariant
                j <= cs@.len(),
                cs@ == line@,
                m@ == Seq::new(j as nat, |k: int| marker_char(cs@, k, lo as int, hi as int)),
            decreases cs@.len() - j,
        {
            let c = if lo <= j && j <= hi {
                '^'
            } else if cs[j] == '\t' {
                '\t'
            } else {
                ' '
            };
            push_char(&mut m, c);
            j = j + 1;
            assert(m@ =~= Seq::new(j as nat, |k: int| marker_char(cs@, k, lo as int, hi as int)));
        }
        assert(m@ =~= marker_line(line@, r));
    } else {
        assert(m@ =~= marker_line(line@, r));
    }
    m
}

/// An excerpt of `raw_buffer` around line `i_line` with the fields in `r_error` marked.
pub fn highlight_error(raw_buffer: &Vec<String>, i_line: usize, r_error: FieldRange) -> (h: String)
    ensures
        h@ == spec_highlight_error(raw_buffer.deep_view(), i_line, r_error),
{
    let ghost raw = raw_buffer.deep_view();
    let mut h = String::new();
    if i_line > 8 {
        push_str(&mut h, "...");
    }
    let ghost head = h@;
    let mut i: usize = 0;
    while i < raw_buffer.len()
        invariant
            i <= raw_buffer@.len(),
            raw == raw_buffer.deep_view(),
            head == (if i_line > 8 { "..."@ } else { Seq::<char>::empty() }),
            h@ == head + excerpt_lines(raw, i as int, i_line as int, r_error),
        decreases raw_buffer@.len() - i,
    {
        let line = &raw_buffer[i];
        let dist = if i >= i_line { i - i_line } else { i_line - i };
        assert(raw[i as int] == line@);
        if dist <= 8 && i != i_line {
            push_char(&mut h, '\n');
            push_str(&mut h, line.as_str());
        } else if i == i_line {
            push_char(&mut h, '\n');
            push_str(&mut h, line.as_str());
            push_char(&mut h, '\n');
            let m = marker_line_of(line, r_error);
            push_str(&mut h, m.as_str());
        }
        i = i + 1;
        assert(h@ =~= head + excerpt_lines(raw, i as int, i_line as int, r_error));
    }
    let n = raw_buffer.len();
    let dist = if n >= i_line { n - i_line } else { i_line - n };
    if dist > 8 {
        push_str(&mut h, "\n...");
    }
    assert(h@ =~= spec_highlight_error(raw, i_line, r_error));
    h
}

/// The error a file reader reports for an error `e` met in its block that
/// ends at line `i_line` of the file at `path`.
pub open spec fn spec_wrap_file_error(
    raw: Seq<Seq<char>>,
    e: DFGHError<Seq<char>>,
    i_line: usize,
    path: Seq<char>,
) -> DFGHError<Seq<char>> {
    match e {
        DFGHError::ImportBufferError(i_rel_line, buffer_len, r_error, s) => {
            let line_number = sat_sub(i_line + i_rel_line, buffer_len as int) as usize;
            DFGHError::ImportError(
                (line_number + 1) as usize,
                path,
                spec_highlight_error(raw, line_number, r_error),
                s,
            )
        },
        _ => DFGHError::ImportUnknownError,
    }
}

/// Whether wrapping `e` at line `i_line` stays within `usize`.
pub open spec fn wrap_file_fits(e: DFGHError<Seq<char>>, i_line: usize) -> bool {
    e matches DFGHError::ImportBufferError(i_rel, b_len, _, _) ==> (i_line + i_rel <= usize::MAX && sat_sub(
        i_line + i_rel,
        b_len as int,
    ) + 1 <= usize::MAX)
}

/// Turns an error met in a block of a file into one that names the file,
/// the line and an excerpt around it.
pub fn wrap_import_file_error(raw_buffer: &Vec<String>, e: &DFGHError, i_line: usize, path: &String) -> (r: DFGHError)
    requires
        wrap_file_fits(e@, i_line),
    ensures
        r@ == spec_wrap_file_error(raw_buffer.deep_view(), e@, i_line, path@),
{
    match e {
        DFGHError::ImportBufferError(i_rel_line, buffer_len, r_error, s) => {
            let total = i_line + *i_rel_line;
            let line_number = if total >= *buffer_len { total - *buffer_len } else { 0 };
            DFGHError::ImportError(
                line_number + 1,
                path.clone(),
                highlight_error(raw_buffer, line_number, *r_error),
                s.clone(),
            )
        },
        _ => DFGHError::ImportUnknownError,
    }
}

/// The error reported where line `i_line` of a block of `buffer_len` lines has
/// `actual` fields but at least `expected` are needed; the line is counted
/// back from the end of the block.
pub open spec fn spec_index_error(i_line: usize, buffer_len: usize, actual: usize, expected: usize) -> DFGHError<Seq<char>> {
    DFGHError::ImportBufferError(
        sat_sub(buffer_len as int, i_line as int) as usize,
        buffer_len,
        if actual < expected {
            FieldRange { start: 0, end: actual }
        } else {
            FieldRange { start: expected, end: actual }
        },
        error_message(DFGHError::ImportIndexError(expected, actual)),
    )
}

/// The error for a line with too few fields.
pub fn index_error(i_line: usize, buffer_len: usize, actual: usize, expected: usize) -> (r: DFGHError)
    ensures
        r@ == spec_index_error(i_line, buffer_len, actual, expected),
{
    let e = DFGHError::ImportIndexError(expected, actual);
    let line = if buffer_len >= i_line { buffer_len - i_line } else { 0 };
    let range = if actual < expected {
        FieldRange { start: 0, end: actual }
    } else {
        FieldRange { start: expected, end: actual }
    };
    DFGHError::ImportBufferError(line, buffer_len, range, e.message())
}

/// The error reported where field `field` of line `i_line` of a block of
/// `buffer_len` lines is not an integer.
pub open spec fn spec_parse_error(i_line: usize, buffer_len: usize, field: usize) -> DFGHError<Seq<char>> {
    spec_wrap_buffer_error(i_line, buffer_len, FieldRange { start: field, end: field }, DFGHError::ImportParseError)
}

/// The error for a field that should hold an integer.
pub fn parse_error(i_line: usize, buffer_len: usize, field: usize) -> (r: DFGHError)
    ensures
        r@ == spec_parse_error(i_line, buffer_len, field),
{
    wrap_import_buffer_error(i_line, buffer_len, FieldRange { start: field, end: field }, &DFGHError::ImportParseError)
}

/// The error reported for a line whose token is not known, `len` fields long.
pub open spec fn spec_unknown_error(i_line: usize, buffer_len: usize, len: usize) -> DFGHError<Seq<char>> {
    DFGHError::ImportBufferError(
        i_line,
        buffer_len,
        FieldRange { start: 0, end: (len - 1) as usize },
        error_message(DFGHError::ImportUnknownError),
    )
}

/// The error reported for a line whose token is not known.
pub fn unknown_error(i_line: usize, buffer_len: usize, len: usize) -> (r: DFGHError)
    requires
        len >= 1,
    ensures
        r@ == spec_unknown_error(i_line, buffer_len, len),
{
    DFGHError::ImportBufferError(
        i_line,
        buffer_len,
        FieldRange { start: 0, end: len - 1 },
        DFGHError::ImportUnknownError.message(),
    )
}

/// The text of an `ImportIndexError`.
fn index_message(expected: usize, found: usize) -> (r: String)
    ensures
        r@ == "Expected "@ + decimal(expected as nat) + " fields, found "@ + decimal(found as nat),
{
    let mut r = string_of("Expected ");
    push_decimal(&mut r, expected as u64);
    push_str(&mut r, " fields, found ");
    push_decimal(&mut r, found as u64);
    r
}

} // verus!
