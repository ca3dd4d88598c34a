//! Statues, plants and tile graphics: the other kinds of graphics entries.
use vstd::prelude::*;
use crate::condition::{field_errors, palette_case, parse_or_zero, read_u32_field, to_upper_snake, upper_snake};
use crate::error::{index_error, spec_index_error, DFGHError};
use crate::lines::{
    abs_diff, abs_diff_u32, errors_within, errs, lemma_field_errors_within, lemma_index_error_within,
    lemma_within_append, lemma_within_push, lemma_without_as_is_len, max_lines, push_error, reduce_line,
    without_as_is,
};
use crate::state::{state_from, state_name, State};
use crate::text::{convert_case, decimal, push_decimal, push_str, str_eq, string_of, CaseBoundaries, TextCase};
use crate::tokens::{caste_from, caste_name, Caste};

verus! {

/// A statue graphic of a creature (or caste).
#[derive(Clone, Debug, PartialEq)]
pub struct Statue {
    pub creature_name: String,
    pub state: State,
    pub tile_name: String,
    pub coords: [u32; 2],
    pub large_coords: Option<[u32; 2]>,
    pub caste: Option<Caste>,
}

/// The view of a [`Statue`].
pub struct SpecStatue {
    pub creature_name: Seq<char>,
    pub state: State<Seq<char>>,
    pub tile_name: Seq<char>,
    pub coords: [u32; 2],
    pub large_coords: Option<[u32; 2]>,
    pub caste: Option<Caste<Seq<char>>>,
}

impl View for Statue {
    type V = SpecStatue;

    open spec fn view(&self) -> SpecStatue {
        SpecStatue {
            creature_name: self.creature_name@,
            state: self.state@,
            tile_name: self.tile_name@,
            coords: self.coords,
            large_coords: self.large_coords,
            caste: match &self.caste {
                Some(c) => Some(c@),
                None => None,
            },
        }
    }
}

/// A fresh statue.
pub open spec fn spec_statue_new() -> SpecStatue {
    SpecStatue {
        creature_name: "(new)"@,
        state: State::Default,
        tile_name: seq![],
        coords: [0, 0],
        large_coords: None,
        caste: None,
    }
}

/// The statue reader's state: the statue so far, the errors met, and whether
/// the tile line has been read (the reader stops there).
pub type StatueReadState = (SpecStatue, Seq<DFGHError<Seq<char>>>, bool);

/// The statue reader's state after line `l`, line `i` of a block of `bl` lines.
pub open spec fn statue_line(st: StatueReadState, l: Seq<Seq<char>>, i: usize, bl: usize) -> StatueReadState {
    let (s, es, done) = st;
    let len = l.len();
    if done {
        st
    } else if l[0] == "STATUE_CREATURE_GRAPHICS"@ {
        if len >= 2 {
            (SpecStatue { creature_name: l[1], ..s }, es, false)
        } else {
            (s, es.push(spec_index_error(i, bl, len as usize, 2)), false)
        }
    } else if l[0] == "STATUE_CREATURE_CASTE_GRAPHICS"@ {
        if len >= 3 {
            (SpecStatue { creature_name: l[1], caste: Some(caste_from(l[2])), ..s }, es, false)
        } else {
            (s, es.push(spec_index_error(i, bl, len as usize, 3)), false)
        }
    } else if state_from(l[0]) is Custom {
        st
    } else {
        let red = without_as_is(l);
        if red.len() > 3 {
            if red.len() == 6 {
                let x = parse_or_zero(l[2]);
                let y = parse_or_zero(l[3]);
                let xl = parse_or_zero(l[4]);
                let yl = parse_or_zero(l[5]);
                (
                    SpecStatue {
                        state: state_from(l[0]),
                        tile_name: red[1],
                        coords: [x, y],
                        large_coords: Some([abs_diff(xl, x), abs_diff(yl, y)]),
                        ..s
                    },
                    es + field_errors(l, 2, i, bl) + field_errors(l, 3, i, bl) + field_errors(l, 4, i, bl)
                        + field_errors(l, 5, i, bl),
                    true,
                )
            } else {
                (s, es, true)
            }
        } else {
            (s, es.push(spec_index_error(i, bl, len as usize, 6)), false)
        }
    }
}

/// The statue reader's state after the first `n` lines of `buffer`.
pub open spec fn statue_read_upto(buffer: Seq<Seq<Seq<char>>>, n: int) -> StatueReadState
    decreases n,
{
    if n <= 0 {
        (spec_statue_new(), seq![], false)
    } else {
        statue_line(statue_read_upto(buffer, n - 1), buffer[n - 1], (n - 1) as usize, buffer.len() as usize)
    }
}

/// Whether every line the statue reader looks at has a token: the reader
/// looks at each line up to its tile line.
pub open spec fn statue_lines_ok(buffer: Seq<Seq<Seq<char>>>) -> bool {
    forall|i: int| 0 <= i < buffer.len() && !(#[trigger] statue_read_upto(buffer, i)).2 ==> buffer[i].len() >= 1
}

/// The statue and errors read from a block of lines.
pub open spec fn statue_read(buffer: Seq<Seq<Seq<char>>>) -> (SpecStatue, Seq<DFGHError<Seq<char>>>) {
    let (s, es, _) = statue_read_upto(buffer, buffer.len() as int);
    (s, es)
}

/// The size a statue's tile spans, one by two tiles where none is given.
pub open spec fn statue_span(s: SpecStatue) -> [u32; 2] {
    match s.large_coords {
        Some(l) => l,
        None => [0, 1],
    }
}

/// Whether a statue can be written without a coordinate sum overflowing.
pub open spec fn statue_displayable(s: SpecStatue) -> bool {
    s.coords[0] + statue_span(s)[0] <= u32::MAX && s.coords[1] + statue_span(s)[1] <= u32::MAX
}

/// The first line of a statue's text.
pub open spec fn statue_header(s: SpecStatue) -> Seq<char> {
    match s.caste {
        Some(c) => "[STATUE_CREATURE_CASTE_GRAPHICS:"@ + upper_snake(s.creature_name) + ":"@ + caste_name(c) + "]\n"@,
        None => "\n[STATUE_CREATURE_GRAPHICS:"@ + upper_snake(s.creature_name) + "]\n"@,
    }
}

/// The tile line of a statue's text.
pub open spec fn statue_tile_line(s: SpecStatue) -> Seq<char> {
    let x = s.coords[0];
    let y = s.coords[1];
    let span = statue_span(s);
    "\t["@ + state_name(s.state) + ":"@ + palette_case(s.tile_name) + ":"@ + decimal(x as nat) + ":"@ + decimal(
        y as nat,
    ) + ":"@ + decimal((x + span[0]) as nat) + ":"@ + decimal((y + span[1]) as nat) + "]\n"@
}

/// The raw text of a statue: a blank line follows a statue without a caste.
pub open spec fn statue_display(s: SpecStatue) -> Seq<char> {
    statue_header(s) + statue_tile_line(s) + (if s.caste is None {
        "\n"@
    } else {
        seq![]
    })
}

/// Records that line `i` of a block of `bl` lines has `len` fields where `k` are needed.
fn short_line(errors: &mut Vec<DFGHError>, i: usize, bl: usize, len: usize, k: usize)
    requires
        bl <= max_lines(),
        errors_within(errs(old(errors)@), 0),
    ensures
        errs(final(errors)@) == errs(old(errors)@).push(spec_index_error(i, bl, len, k)),
        errors_within(errs(final(errors)@), 0),
{
    let ghost es0 = errs(errors@);
    push_error(errors, index_error(i, bl, len, k));
    proof {
        lemma_index_error_within(i, bl, len, k);
        lemma_within_push(es0, spec_index_error(i, bl, len, k), 0);
    }
}

impl Statue {
    /// A fresh statue.
    pub fn new() -> (r: Self)
        ensures
            r@ == spec_statue_new(),
    {
        let r = Statue {
            creature_name: string_of("(new)"),
            state: State::Default,
            tile_name: String::new(),
            coords: [0, 0],
            large_coords: None,
            caste: None,
        };
        assert(r@.tile_name =~= seq![]);
        r
    }

    /// Whether this statue is still as [`Statue::new`] makes it.
    pub fn is_new(&self) -> (r: bool)
        ensures
            r == (self@ == spec_statue_new()),
    {
        let r = str_eq(self.creature_name.as_str(), "(new)") && matches!(self.state, State::Default)
            && self.tile_name.unicode_len() == 0 && self.coords[0] == 0 && self.coords[1] == 0
            && self.large_coords.is_none() && self.caste.is_none();
        proof {
            if r {
                assert(self@.tile_name =~= seq![]);
                assert(self@.coords =~= [0u32, 0u32]);
            }
        }
        r
    }

    /// Applies line `i` of a block of `bl` lines; returns whether the tile line was read.
    pub(crate) fn read_line(&mut self, errors: &mut Vec<DFGHError>, line: &Vec<String>, i: usize, bl: usize) -> (done: bool)
        requires
            i < bl <= max_lines(),
            errors_within(errs(old(errors)@), 0),
            line@.len() >= 1,
        ensures
            (final(self)@, errs(final(errors)@), done) == statue_line(
                (old(self)@, errs(old(errors)@), false),
                line.deep_view(),
                i,
                bl,
            ),
            errors_within(errs(final(errors)@), 0),
    {
        let ghost l = line.deep_view();
        let ghost es0 = errs(errors@);
        let len = line.len();
        assert(line[0]@ == l[0]);
        let t = line[0].as_str();
        if str_eq(t, "STATUE_CREATURE_GRAPHICS") {
            if len >= 2 {
                assert(line[1]@ == l[1]);
                self.creature_name = line[1].clone();
            } else {
                short_line(errors, i, bl, len, 2);
            }
            false
        } else if str_eq(t, "STATUE_CREATURE_CASTE_GRAPHICS") {
            if len >= 3 {
                assert(line[1]@ == l[1]);
                assert(line[2]@ == l[2]);
                self.creature_name = line[1].clone();
                self.caste = Some(Caste::from(line[2].clone()));
            } else {
                short_line(errors, i, bl, len, 3);
            }
            false
        } else if matches!(State::from(line[0].clone()), State::Custom(_)) {
            false
        } else {
            let red = reduce_line(line);
            let ghost rv = red.deep_view();
            proof {
                lemma_without_as_is_len(l);
            }
            if red.len() > 3 {
                if red.len() == 6 {
                    assert(red[1]@ == rv[1]);
                    let x = read_u32_field(line, 2, i, bl, errors);
                    let y = read_u32_field(line, 3, i, bl, errors);
                    let xl = read_u32_field(line, 4, i, bl, errors);
                    let yl = read_u32_field(line, 5, i, bl, errors);
                    self.state = State::from(line[0].clone());
                    self.tile_name = red[1].clone();
                    self.coords = [x, y];
                    self.large_coords = Some([abs_diff_u32(xl, x), abs_diff_u32(yl, y)]);
                    proof {
                        let e2 = es0 + field_errors(l, 2, i, bl);
                        let e3 = e2 + field_errors(l, 3, i, bl);
                        let e4 = e3 + field_errors(l, 4, i, bl);
                        lemma_field_errors_within(l, 2, i, bl);
                        lemma_field_errors_within(l, 3, i, bl);
                        lemma_field_errors_within(l, 4, i, bl);
                        lemma_field_errors_within(l, 5, i, bl);
                        lemma_within_append(es0, field_errors(l, 2, i, bl), 0);
                        lemma_within_append(e2, field_errors(l, 3, i, bl), 0);
                        lemma_within_append(e3, field_errors(l, 4, i, bl), 0);
                        lemma_within_append(e4, field_errors(l, 5, i, bl), 0);
                    }
                }
                true
            } else {
                short_line(errors, i, bl, len, 6);
                false
            }
        }
    }

    /// Reads a statue from its block of lines, with the errors met.
    pub fn read(buffer: Vec<Vec<String>>) -> (r: (Statue, Vec<DFGHError>))
        requires
            buffer@.len() <= max_lines(),
            statue_lines_ok(buffer.deep_view()),
        ensures
            (r.0@, errs(r.1@)) == statue_read(buffer.deep_view()),
            errors_within(errs(r.1@), 0),
    {
        let mut s = Statue::new();
        let mut errors: Vec<DFGHError> = Vec::new();
        let bl = buffer.len();
        let ghost bv = buffer.deep_view();
        assert(errs(errors@) =~= Seq::<DFGHError<Seq<char>>>::empty());
        let mut i: usize = 0;
        let mut done = false;
        while i < bl && !done
            invariant
                bl == buffer@.len() <= max_lines(),
                bv == buffer.deep_view(),
                statue_lines_ok(bv),
                i <= bl,
                (s@, errs(errors@), done) == statue_read_upto(bv, i as int),
                errors_within(errs(errors@), 0),
            decreases bl - i,
        {
            assert(buffer[i as int].deep_view() == bv[i as int]);
            assert(!statue_read_upto(bv, i as int).2);
            done = s.read_line(&mut errors, &buffer[i], i, bl);
            i = i + 1;
        }
        proof {
            lemma_statue_done_stays(bv, i as int, bl as int);
        }
        (s, errors)
    }

    /// Whether this statue can be written without a coordinate sum overflowing.
    pub fn displayable(&self) -> (r: bool)
        ensures
            r == statue_displayable(self@),
    {
        let span = match self.large_coords {
            Some(l) => l,
            None => [0, 1],
        };
        self.coords[0].checked_add(span[0]).is_some() && self.coords[1].checked_add(span[1]).is_some()
    }

    /// The first line of this statue's text.
    fn header_text(&self) -> (r: String)
        ensures
            r@ == statue_header(self@),
    {
        match &self.caste {
            Some(c) => {
                let mut o = string_of("[STATUE_CREATURE_CASTE_GRAPHICS:");
                push_str(&mut o, to_upper_snake(self.creature_name.as_str()).as_str());
                push_str(&mut o, ":");
                push_str(&mut o, c.name().as_str());
                push_str(&mut o, "]\n");
                o
            },
            None => {
                let mut o = string_of("\n[STATUE_CREATURE_GRAPHICS:");
                push_str(&mut o, to_upper_snake(self.creature_name.as_str()).as_str());
                push_str(&mut o, "]\n");
                o
            },
        }
    }

    /// The tile line of this statue's text.
    fn tile_line_text(&self) -> (r: String)
        requires
            statue_displayable(self@),
        ensures
            r@ == statue_tile_line(self@),
    {
        let span = match self.large_coords {
            Some(l) => l,
            None => [0, 1],
        };
        let mut out = string_of("\t[");
        push_str(&mut out, self.state.name().as_str());
        push_str(&mut out, ":");
        push_str(
            &mut out,
            convert_case(self.tile_name.as_str(), CaseBoundaries::SpaceLowerUpper, TextCase::UpperSnake).as_str(),
        );
        push_str(&mut out, ":");
        push_decimal(&mut out, self.coords[0] as u64);
        push_str(&mut out, ":");
        push_decimal(&mut out, self.coords[1] as u64);
        push_str(&mut out, ":");
        push_decimal(&mut out, (self.coords[0] + span[0]) as u64);
        push_str(&mut out, ":");
        push_decimal(&mut out, (self.coords[1] + span[1]) as u64);
        push_str(&mut out, "]\n");
        assert(out@ =~= statue_tile_line(self@));
        out
    }

    /// Reads a statue as [`Statue::read`] does where every line it looks at
    /// has a token; gives nothing where one does not.
    pub fn try_read(buffer: Vec<Vec<String>>) -> (r: Option<(Statue, Vec<DFGHError>)>)
        requires
            buffer@.len() <= max_lines(),
        ensures
            statue_lines_ok(buffer.deep_view()) ==> r is Some && (r.unwrap().0@, errs(r.unwrap().1@)) == statue_read(
                buffer.deep_view(),
            ),
            !statue_lines_ok(buffer.deep_view()) ==> r is None,
    {
        let n = buffer.len();
        let ok = crate::graphics_file::statue_block_check(&buffer, 0, n);
        assert(buffer.deep_view().subrange(0, n as int) =~= buffer.deep_view());
        if ok {
            Some(Statue::read(buffer))
        } else {
            None
        }
    }

    /// The raw text of this statue.
    pub fn display(&self) -> (r: String)
        requires
            statue_displayable(self@),
        ensures
            r@ == statue_display(self@),
    {
        let mut out = self.header_text();
        push_str(&mut out, self.tile_line_text().as_str());
        if self.caste.is_none() {
            push_str(&mut out, "\n");
        }
        assert(out@ =~= statue_display(self@));
        out
    }
}

/// Once the statue reader has read its tile line, later lines change nothing.
pub proof fn lemma_statue_done_stays(buffer: Seq<Seq<Seq<char>>>, i: int, n: int)
    requires
        0 <= i <= n <= buffer.len(),
        i == n || statue_read_upto(buffer, i).2,
    ensures
        statue_read_upto(buffer, n) == statue_read_upto(buffer, i),
    decreases n - i,
{
    if i < n {
        lemma_statue_done_stays(buffer, i, n - 1);
    }
}

/// A plant graphic (plants are neither read nor written yet).
#[derive(Clone, Debug, PartialEq)]
pub struct Plant<S = String> {
    pub name: S,
    pub tile_name: S,
    pub coords: [Option<[u32; 2]>; 9],
}

impl View for Plant<String> {
    type V = Plant<Seq<char>>;

    open spec fn view(&self) -> Plant<Seq<char>> {
        Plant { name: self.name@, tile_name: self.tile_name@, coords: self.coords }
    }
}

/// A fresh plant.
pub open spec fn spec_plant_new() -> Plant<Seq<char>> {
    Plant { name: "(new)"@, tile_name: seq![], coords: [None, None, None, None, None, None, None, None, None] }
}

impl Plant {
    /// A fresh plant.
    pub fn new() -> (r: Self)
        ensures
            r@ == spec_plant_new(),
    {
        let r = Plant {
            name: string_of("(new)"),
            tile_name: String::new(),
            coords: [None, None, None, None, None, None, None, None, None],
        };
        assert(r@.tile_name =~= seq![]);
        r
    }

    /// Whether this plant is still as [`Plant::new`] makes it.
    pub fn is_new(&self) -> (r: bool)
        ensures
            r == (self@ == spec_plant_new()),
    {
        let mut k: usize = 0;
        while k < 9
            invariant
                k <= 9,
                forall|j: int| 0 <= j < k ==> self.coords[j] is None,
            decreases 9 - k,
        {
            if self.coords[k].is_some() {
                proof {
                    if self@ == spec_plant_new() {
                        assert(self@.coords[k as int] is None);
                    }
                }
                return false;
            }
            k = k + 1;
        }
        let r = str_eq(self.name.as_str(), "(new)") && self.tile_name.unicode_len() == 0;
        proof {
            if r {
                assert(self@.tile_name =~= seq![]);
                assert(self@.coords =~= spec_plant_new().coords);
            }
        }
        r
    }

    /// Reads a plant: plants are not read yet, so this is a fresh plant and no errors.
    pub fn read(buffer: Vec<Vec<String>>) -> (r: (Plant, Vec<DFGHError>))
        ensures
            r.0@ == spec_plant_new(),
            r.1@.len() == 0,
    {
        (Plant::new(), Vec::new())
    }

    /// The raw text of a plant: plants are not written yet, so it is empty.
    pub fn display(&self) -> (r: String)
        ensures
            r@ == Seq::<char>::empty(),
    {
        String::new()
    }
}

/// A tile graphic (tile graphics are neither read nor written yet).
#[derive(Clone, Debug, PartialEq)]
pub struct TileGraphic<S = String> {
    pub name: S,
    pub tile_name: S,
    pub coords: [u32; 2],
}

impl View for TileGraphic<String> {
    type V = TileGraphic<Seq<char>>;

    open spec fn view(&self) -> TileGraphic<Seq<char>> {
        TileGraphic { name: self.name@, tile_name: self.tile_name@, coords: self.coords }
    }
}

/// A fresh tile graphic.
pub open spec fn spec_tile_graphic_new() -> TileGraphic<Seq<char>> {
    TileGraphic { name: "(new)"@, tile_name: seq![], coords: [0, 0] }
}

impl TileGraphic {
    /// A fresh tile graphic.
    pub fn new() -> (r: Self)
        ensures
            r@ == spec_tile_graphic_new(),
    {
        let r = TileGraphic { name: string_of("(new)"), tile_name: String::new(), coords: [0, 0] };
        assert(r@.tile_name =~= seq![]);
        r
    }

    /// Whether this tile graphic is still as [`TileGraphic::new`] makes it.
    pub fn is_new(&self) -> (r: bool)
        ensures
            r == (self@ == spec_tile_graphic_new()),
    {
        let r = str_eq(self.name.as_str(), "(new)") && self.tile_name.unicode_len() == 0 && self.coords[0] == 0
            && self.coords[1] == 0;
        proof {
            if r {
                assert(self@.tile_name =~= seq![]);
                assert(self@.coords =~= [0u32, 0u32]);
            }
        }
        r
    }

    /// Reads a tile graphic: they are not read yet, so this is a fresh one and no errors.
    pub fn read(buffer: Vec<Vec<String>>) -> (r: (TileGraphic, Vec<DFGHError>))
        ensures
            r.0@ == spec_tile_graphic_new(),
            r.1@.len() == 0,
    {
        (TileGraphic::new(), Vec::new())
    }

    /// The raw text of a tile graphic: they are not written yet, so it is empty.
    pub fn display(&self) -> (r: String)
        ensures
            r@ == Seq::<char>::empty(),
    {
        String::new()
    }
}

} // verus!
