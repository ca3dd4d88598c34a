//! Creatures: simple layers and layer sets of one creature (or caste).
use vstd::prelude::*;
use crate::condition::{field_errors, parse_or_zero, read_u32_field, to_upper_snake, upper_snake};
use crate::error::{index_error, spec_index_error, DFGHError};
use crate::layer_set::{layer_set_display, layer_set_displayable, set_read, LayerSet, SpecLayerSet};
use crate::lines::{
    abs_diff, abs_diff_u32, append_wrapped, clone_block, errors_within, errs, has_field, lemma_field_errors_within,
    lemma_index_error_within, lemma_within_append, lemma_within_mono, lemma_within_push, lemma_without_as_is_len,
    lemma_wrap_all_within, max_lines, push_error, reduce_line, single_line, without_as_is, wrap_all, ImageSize,
};
use crate::shared::{spec_creature_shared_new, CreatureShared, SpecCreatureShared};
use crate::state::{state_from, state_name, State};
use crate::text::{decimal, push_decimal, push_str, str_eq, string_of};
use crate::tokens::{caste_from, caste_name, Caste};

verus! {

/// A single-tile graphic of a creature in one state.
#[derive(Clone, Debug, PartialEq)]
pub struct SimpleLayer {
    pub state: State,
    pub tile_name: String,
    pub coords: [u32; 2],
    pub large_coords: Option<[u32; 2]>,
    pub sub_state: Option<State>,
}

/// The view of a [`SimpleLayer`].
pub struct SpecSimpleLayer {
    pub state: State<Seq<char>>,
    pub tile_name: Seq<char>,
    pub coords: [u32; 2],
    pub large_coords: Option<[u32; 2]>,
    pub sub_state: Option<State<Seq<char>>>,
}

impl View for SimpleLayer {
    type V = SpecSimpleLayer;

    open spec fn view(&self) -> SpecSimpleLayer {
        SpecSimpleLayer {
            state: self.state@,
            tile_name: self.tile_name@,
            coords: self.coords,
            large_coords: self.large_coords,
            sub_state: match &self.sub_state {
                Some(s) => Some(s@),
                None => None,
            },
        }
    }
}

/// A fresh simple layer.
pub open spec fn spec_simple_layer_new() -> SpecSimpleLayer {
    SpecSimpleLayer { state: State::Default, tile_name: seq![], coords: [0, 0], large_coords: None, sub_state: None }
}

/// The simple layer and errors read from the line `l` (a block of one line).
pub open spec fn simple_layer_read(l: Seq<Seq<char>>) -> (SpecSimpleLayer, Seq<DFGHError<Seq<char>>>) {
    let red = without_as_is(l);
    let rl = red.len();
    let len = l.len();
    if rl == 4 || rl == 5 {
        (
            SpecSimpleLayer {
                state: state_from(l[0]),
                tile_name: red[1],
                coords: [parse_or_zero(red[2]), parse_or_zero(red[3])],
                large_coords: None,
                sub_state: if rl == 5 {
                    Some(state_from(red[4]))
                } else {
                    None
                },
            },
            field_errors(red, 2, 1, 1) + field_errors(red, 3, 1, 1),
        )
    } else if rl == 7 || rl == 8 {
        let x = parse_or_zero(l[3]);
        let y = parse_or_zero(l[4]);
        let xl = parse_or_zero(l[5]);
        let yl = parse_or_zero(l[6]);
        (
            SpecSimpleLayer {
                state: state_from(l[0]),
                tile_name: red[1],
                coords: [x, y],
                large_coords: Some([abs_diff(xl, x), abs_diff(yl, y)]),
                sub_state: if rl == 8 {
                    Some(state_from(red[7]))
                } else {
                    None
                },
            },
            field_errors(l, 3, 1, 1) + field_errors(l, 4, 1, 1) + field_errors(l, 5, 1, 1) + field_errors(l, 6, 1, 1),
        )
    } else if red.contains("LARGE_IMAGE"@) {
        (spec_simple_layer_new(), seq![spec_index_error(1, 1, len as usize, 7)])
    } else {
        (spec_simple_layer_new(), seq![spec_index_error(1, 1, len as usize, 4)])
    }
}

/// Whether a simple layer can be written without a coordinate sum overflowing.
pub open spec fn simple_layer_displayable(s: SpecSimpleLayer) -> bool {
    match s.large_coords {
        Some(l) => s.coords[0] + l[0] <= u32::MAX && s.coords[1] + l[1] <= u32::MAX,
        None => true,
    }
}

/// The coordinate fields of a simple layer's line.
pub open spec fn simple_layer_coords(s: SpecSimpleLayer) -> Seq<char> {
    let x = s.coords[0];
    let y = s.coords[1];
    match s.large_coords {
        Some(l) => ":LARGE_IMAGE:"@ + decimal(x as nat) + ":"@ + decimal(y as nat) + ":"@ + decimal((x + l[0]) as nat)
            + ":"@ + decimal((y + l[1]) as nat),
        None => ":"@ + decimal(x as nat) + ":"@ + decimal(y as nat),
    }
}

/// The raw text of a simple layer.
pub open spec fn simple_layer_display(s: SpecSimpleLayer) -> Seq<char> {
    let body = state_name(s.state) + ":"@ + upper_snake(s.tile_name) + simple_layer_coords(s) + ":AS_IS"@;
    match s.sub_state {
        Some(sub) => "\t\t["@ + body + ":"@ + state_name(sub) + "]\n"@,
        None => "\t["@ + body + "]\n"@,
    }
}

impl SimpleLayer {
    /// A fresh simple layer.
    pub fn new() -> (r: Self)
        ensures
            r@ == spec_simple_layer_new(),
    {
        let r = SimpleLayer {
            state: State::Default,
            tile_name: String::new(),
            coords: [0, 0],
            large_coords: None,
            sub_state: None,
        };
        assert(r@.tile_name =~= seq![]);
        r
    }

    /// Whether this simple layer is still as [`SimpleLayer::new`] makes it.
    pub fn is_new(&self) -> (r: bool)
        ensures
            r == (self@ == spec_simple_layer_new()),
    {
        let r = matches!(self.state, State::Default) && self.tile_name.unicode_len() == 0 && self.coords[0] == 0
            && self.coords[1] == 0 && self.large_coords.is_none() && self.sub_state.is_none();
        proof {
            if r {
                assert(self@.tile_name =~= seq![]);
                assert(self@.coords =~= [0u32, 0u32]);
            }
        }
        r
    }

    /// Reads a simple layer from the first line of `buffer`.
    pub fn read(buffer: Vec<Vec<String>>) -> (r: (SimpleLayer, Vec<DFGHError>))
        requires
            buffer@.len() >= 1,
        ensures
            (r.0@, errs(r.1@)) == simple_layer_read(buffer.deep_view()[0]),
            errors_within(errs(r.1@), 0),
    {
        let line = &buffer[0];
        let ghost l = line.deep_view();
        assert(l == buffer.deep_view()[0]);
        let mut errors: Vec<DFGHError> = Vec::new();
        assert(errs(errors@) =~= seq![]);
        let len = line.len();
        let red = reduce_line(line);
        let ghost rv = red.deep_view();
        proof {
            lemma_without_as_is_len(l);
        }
        let rl = red.len();
        if rl == 4 || rl == 5 {
            assert(line[0]@ == l[0]);
            assert(red[1]@ == rv[1]);
            let x = read_u32_field(&red, 2, 1, 1, &mut errors);
            let y = read_u32_field(&red, 3, 1, 1, &mut errors);
            let sub_state = if rl == 5 {
                assert(red[4]@ == rv[4]);
                Some(State::from(red[4].clone()))
            } else {
                None
            };
            let r = SimpleLayer {
                state: State::from(line[0].clone()),
                tile_name: red[1].clone(),
                coords: [x, y],
                large_coords: None,
                sub_state,
            };
            proof {
                lemma_field_errors_within(rv, 2, 1, 1);
                lemma_field_errors_within(rv, 3, 1, 1);
                lemma_within_append(field_errors(rv, 2, 1, 1), field_errors(rv, 3, 1, 1), 0);
                assert(seq![] + field_errors(rv, 2, 1, 1) =~= field_errors(rv, 2, 1, 1));
            }
            (r, errors)
        } else if rl == 7 || rl == 8 {
            assert(line[0]@ == l[0]);
            assert(red[1]@ == rv[1]);
            let x = read_u32_field(line, 3, 1, 1, &mut errors);
            let y = read_u32_field(line, 4, 1, 1, &mut errors);
            let xl = read_u32_field(line, 5, 1, 1, &mut errors);
            let yl = read_u32_field(line, 6, 1, 1, &mut errors);
            let sub_state = if rl == 8 {
                assert(red[7]@ == rv[7]);
                Some(State::from(red[7].clone()))
            } else {
                None
            };
            let r = SimpleLayer {
                state: State::from(line[0].clone()),
                tile_name: red[1].clone(),
                coords: [x, y],
                large_coords: Some([abs_diff_u32(xl, x), abs_diff_u32(yl, y)]),
                sub_state,
            };
            proof {
                let e3 = field_errors(l, 3, 1, 1);
                let e4 = field_errors(l, 4, 1, 1);
                let e5 = field_errors(l, 5, 1, 1);
                let e6 = field_errors(l, 6, 1, 1);
                lemma_field_errors_within(l, 3, 1, 1);
                lemma_field_errors_within(l, 4, 1, 1);
                lemma_field_errors_within(l, 5, 1, 1);
                lemma_field_errors_within(l, 6, 1, 1);
                lemma_within_append(e3, e4, 0);
                lemma_within_append(e3 + e4, e5, 0);
                lemma_within_append(e3 + e4 + e5, e6, 0);
                assert(seq![] + e3 =~= e3);
            }
            (r, errors)
        } else {
            let k: usize = if has_field(&red, "LARGE_IMAGE") { 7 } else { 4 };
            push_error(&mut errors, index_error(1, 1, len, k));
            proof {
                lemma_index_error_within(1, 1, len, k);
                assert(errs(errors@) =~= seq![spec_index_error(1, 1, len, k)]);
            }
            (SimpleLayer::new(), errors)
        }
    }

    /// Whether this simple layer can be written without a coordinate sum overflowing.
    pub fn displayable(&self) -> (r: bool)
        ensures
            r == simple_layer_displayable(self@),
    {
        match self.large_coords {
            Some(l) => self.coords[0].checked_add(l[0]).is_some() && self.coords[1].checked_add(l[1]).is_some(),
            None => true,
        }
    }

    /// The coordinate fields of this layer's line.
    fn coords_text(&self) -> (r: String)
        requires
            simple_layer_displayable(self@),
        ensures
            r@ == simple_layer_coords(self@),
    {
        let mut out = String::new();
        let x = self.coords[0];
        let y = self.coords[1];
        match self.large_coords {
            Some(l) => {
                push_str(&mut out, ":LARGE_IMAGE:");
                push_decimal(&mut out, x as u64);
                push_str(&mut out, ":");
                push_decimal(&mut out, y as u64);
                push_str(&mut out, ":");
                push_decimal(&mut out, (x + l[0]) as u64);
                push_str(&mut out, ":");
                push_decimal(&mut out, (y + l[1]) as u64);
            },
            None => {
                push_str(&mut out, ":");
                push_decimal(&mut out, x as u64);
                push_str(&mut out, ":");
                push_decimal(&mut out, y as u64);
            },
        }
        assert(out@ =~= simple_layer_coords(self@));
        out
    }

    /// The raw text of this simple layer.
    pub fn display(&self) -> (r: String)
        requires
            simple_layer_displayable(self@),
        ensures
            r@ == simple_layer_display(self@),
    {
        let mut out = match &self.sub_state {
            Some(_) => string_of("\t\t["),
            None => string_of("\t["),
        };
        push_str(&mut out, self.state.name().as_str());
        push_str(&mut out, ":");
        push_str(&mut out, to_upper_snake(self.tile_name.as_str()).as_str());
        push_str(&mut out, self.coords_text().as_str());
        push_str(&mut out, ":AS_IS");
        match &self.sub_state {
            Some(sub) => {
                push_str(&mut out, ":");
                push_str(&mut out, sub.name().as_str());
            },
            None => {},
        }
        push_str(&mut out, "]\n");
        assert(out@ =~= simple_layer_display(self@));
        out
    }
}

/// A creature's graphics: its name, caste, simple layers and layer sets.
#[derive(Clone, Debug, PartialEq)]
pub struct Creature {
    pub name: String,
    pub caste: Option<Caste>,
    pub simple_layers: Vec<SimpleLayer>,
    pub layer_sets: Vec<LayerSet>,
    pub creature_shared: CreatureShared,
}

/// The view of a [`Creature`].
pub struct SpecCreature {
    pub name: Seq<char>,
    pub caste: Option<Caste<Seq<char>>>,
    pub simple_layers: Seq<SpecSimpleLayer>,
    pub layer_sets: Seq<SpecLayerSet>,
    pub creature_shared: SpecCreatureShared,
}

impl View for Creature {
    type V = SpecCreature;

    open spec fn view(&self) -> SpecCreature {
        SpecCreature {
            name: self.name@,
            caste: match &self.caste {
                Some(c) => Some(c@),
                None => None,
            },
            simple_layers: self.simple_layers@.map_values(|s: SimpleLayer| s@),
            layer_sets: self.layer_sets@.map_values(|s: LayerSet| s@),
            creature_shared: self.creature_shared@,
        }
    }
}

/// A fresh creature.
pub open spec fn spec_creature_new() -> SpecCreature {
    SpecCreature {
        name: "(new)"@,
        caste: None,
        simple_layers: seq![],
        layer_sets: seq![],
        creature_shared: spec_creature_shared_new(),
    }
}

/// The creature reader's state: the creature so far, the errors met, and where
/// the pending block of lines starts.
pub type CreatureReadState = (SpecCreature, Seq<DFGHError<Seq<char>>>, int);

/// Reads the pending block as a layer set, keeps it where it names a state, and
/// adds its errors as met at line `at` of a block of `bl` lines.
pub open spec fn flush_set(
    c: SpecCreature,
    es: Seq<DFGHError<Seq<char>>>,
    block: Seq<Seq<Seq<char>>>,
    at: usize,
    bl: usize,
    images: Seq<ImageSize>,
) -> (SpecCreature, Seq<DFGHError<Seq<char>>>) {
    let (s, ses) = set_read(block, images);
    (
        if s.state == State::<Seq<char>>::Empty {
            c
        } else {
            SpecCreature { layer_sets: c.layer_sets.push(s), ..c }
        },
        es + wrap_all(ses, at, bl),
    )
}

/// The creature reader's state after line `i` of `buffer`.
#[verifier::opaque]
pub open spec fn creature_line(
    st: CreatureReadState,
    buffer: Seq<Seq<Seq<char>>>,
    i: int,
    images: Seq<ImageSize>,
) -> CreatureReadState {
    let (c, es, start) = st;
    let l = buffer[i];
    let len = l.len();
    let iu = i as usize;
    let bl = buffer.len() as usize;
    if len < 2 {
        st
    } else if l[0] == "CREATURE_GRAPHICS"@ {
        (SpecCreature { name: l[1], ..c }, es, start)
    } else if l[0] == "CREATURE_CASTE_GRAPHICS"@ {
        if len >= 3 {
            (SpecCreature { name: l[1], caste: Some(caste_from(l[2])), ..c }, es, start)
        } else {
            (c, es.push(spec_index_error(iu, bl, len as usize, 3)), start)
        }
    } else if l[0] == "LAYER_SET"@ {
        if start < i {
            let (c2, es2) = flush_set(c, es, buffer.subrange(start, i), iu, bl, images);
            (c2, es2, i)
        } else {
            st
        }
    } else if state_from(l[0]) is Custom {
        st
    } else {
        let (c1, es1, start1) = if i - start >= 2 {
            let (c2, es2) = flush_set(c, es, buffer.subrange(start, i), iu, bl, images);
            (c2, es2, i)
        } else {
            st
        };
        if len >= 4 {
            let (sl, sles) = simple_layer_read(l);
            (
                if sl == spec_simple_layer_new() {
                    c1
                } else {
                    SpecCreature { simple_layers: c1.simple_layers.push(sl), ..c1 }
                },
                es1 + wrap_all(sles, iu, bl),
                start1,
            )
        } else {
            (c1, es1.push(spec_index_error(iu, bl, len as usize, 4)), start1)
        }
    }
}

/// The creature reader's state after the first `n` lines of `buffer`.
pub open spec fn creature_read_upto(buffer: Seq<Seq<Seq<char>>>, n: int, images: Seq<ImageSize>) -> CreatureReadState
    decreases n,
{
    if n <= 0 {
        (spec_creature_new(), seq![], 0)
    } else {
        creature_line(creature_read_upto(buffer, n - 1, images), buffer, n - 1, images)
    }
}

/// The creature and errors read from a block of lines, given the sizes of the
/// palette images that exist.
pub open spec fn creature_read(buffer: Seq<Seq<Seq<char>>>, images: Seq<ImageSize>) -> (SpecCreature, Seq<DFGHError<Seq<char>>>) {
    let n = buffer.len() as int;
    let (c, es, start) = creature_read_upto(buffer, n, images);
    if n - start >= 2 {
        flush_set(c, es, buffer.subrange(start, n), n as usize, n as usize, images)
    } else {
        (c, es)
    }
}

/// The raw text of each simple layer, concatenated.
pub open spec fn simple_layers_display(ls: Seq<SpecSimpleLayer>) -> Seq<char>
    decreases ls.len(),
{
    if ls.len() == 0 {
        seq![]
    } else {
        simple_layers_display(ls.drop_last()) + simple_layer_display(ls.last())
    }
}

/// The raw text of each layer set, concatenated.
pub open spec fn layer_sets_display(ls: Seq<SpecLayerSet>) -> Seq<char>
    decreases ls.len(),
{
    if ls.len() == 0 {
        seq![]
    } else {
        layer_sets_display(ls.drop_last()) + layer_set_display(ls.last())
    }
}

/// The raw text of a creature.
pub open spec fn creature_display(c: SpecCreature) -> Seq<char> {
    (match c.caste {
        Some(caste) => "[CREATURE_CASTE_GRAPHICS:"@ + upper_snake(c.name) + ":"@ + caste_name(caste) + "]\n"@,
        None => "[CREATURE_GRAPHICS:"@ + upper_snake(c.name) + "]\n"@,
    }) + simple_layers_display(c.simple_layers) + layer_sets_display(c.layer_sets) + "\n"@
}

/// Whether a creature can be written without a coordinate sum overflowing.
pub open spec fn creature_displayable(c: SpecCreature) -> bool {
    &&& forall|k: int| 0 <= k < c.simple_layers.len() ==> simple_layer_displayable(#[trigger] c.simple_layers[k])
    &&& forall|k: int| 0 <= k < c.layer_sets.len() ==> layer_set_displayable(#[trigger] c.layer_sets[k])
}

impl Creature {
    /// A fresh creature.
    pub fn new() -> (r: Self)
        ensures
            r@ == spec_creature_new(),
    {
        let r = Creature {
            name: string_of("(new)"),
            caste: None,
            simple_layers: Vec::new(),
            layer_sets: Vec::new(),
            creature_shared: CreatureShared::new(),
        };
        assert(r@.simple_layers =~= seq![]);
        assert(r@.layer_sets =~= seq![]);
        r
    }

    /// Whether this creature is still as [`Creature::new`] makes it.
    pub fn is_new(&self) -> (r: bool)
        ensures
            r == (self@ == spec_creature_new()),
    {
        let r = str_eq(self.name.as_str(), "(new)") && self.caste.is_none() && self.simple_layers.len() == 0
            && self.layer_sets.len() == 0 && self.creature_shared.is_empty();
        proof {
            let v = self@;
            if r {
                assert(v.simple_layers =~= seq![]);
                assert(v.layer_sets =~= seq![]);
            }
            if v == spec_creature_new() {
                assert(v.simple_layers.len() == self.simple_layers@.len());
                assert(v.layer_sets.len() == self.layer_sets@.len());
            }
        }
        r
    }

    /// Reads lines `start..at` of `buffer` as a layer set, keeping it where it
    /// names a state, with its errors as met at line `at`.
    fn flush(
        &mut self,
        errors: &mut Vec<DFGHError>,
        buffer: &Vec<Vec<String>>,
        start: usize,
        at: usize,
        images: &Vec<ImageSize>,
    )
        requires
            start <= at <= buffer@.len() <= max_lines(),
            errors_within(errs(old(errors)@), 3),
        ensures
            (final(self)@, errs(final(errors)@)) == flush_set(
                old(self)@,
                errs(old(errors)@),
                buffer.deep_view().subrange(start as int, at as int),
                at,
                buffer@.len() as usize,
                images@,
            ),
            errors_within(errs(final(errors)@), 3),
    {
        let block = clone_block(buffer, start, at);
        let (s, ses) = LayerSet::read(block, images);
        proof {
            lemma_wrap_all_within(errs(ses@), 2, at, buffer@.len() as usize);
            lemma_within_append(errs(old(errors)@), wrap_all(errs(ses@), at, buffer@.len() as usize), 3);
        }
        append_wrapped(errors, &ses, at, buffer.len(), Ghost(2));
        if !matches!(s.state, State::Empty) {
            let ghost before = self@.layer_sets;
            self.layer_sets.push(s);
            assert(self@.layer_sets =~= before.push(s@));
        }
    }

    /// Records a short line.
    fn short_line(errors: &mut Vec<DFGHError>, i: usize, bl: usize, len: usize, k: usize)
        requires
            bl <= max_lines(),
            errors_within(errs(old(errors)@), 3),
        ensures
            errs(final(errors)@) == errs(old(errors)@).push(spec_index_error(i, bl, len, k)),
            errors_within(errs(final(errors)@), 3),
    {
        let ghost es0 = errs(errors@);
        push_error(errors, index_error(i, bl, len, k));
        proof {
            lemma_index_error_within(i, bl, len, k);
            lemma_within_mono(seq![spec_index_error(i, bl, len, k)], 0, 3);
            lemma_within_push(es0, spec_index_error(i, bl, len, k), 3);
        }
    }

    /// Applies line `i` of `buffer` to the creature being read; `start` is where
    /// the pending block of lines starts.
    fn read_line(
        &mut self,
        errors: &mut Vec<DFGHError>,
        buffer: &Vec<Vec<String>>,
        i: usize,
        start: &mut usize,
        images: &Vec<ImageSize>,
    )
        requires
            *old(start) <= i < buffer@.len() <= max_lines(),
            errors_within(errs(old(errors)@), 3),
        ensures
            (final(self)@, errs(final(errors)@), *final(start) as int) == creature_line(
                (old(self)@, errs(old(errors)@), *old(start) as int),
                buffer.deep_view(),
                i as int,
                images@,
            ),
            *final(start) <= i,
            errors_within(errs(final(errors)@), 3),
    {
        reveal(creature_line);
        let ghost es0 = errs(errors@);
        let line = &buffer[i];
        let ghost l = buffer.deep_view()[i as int];
        assert(line.deep_view() == l);
        let len = line.len();
        let bl = buffer.len();
        if len < 2 {
            return;
        }
        assert(line[0]@ == l[0]);
        assert(line[1]@ == l[1]);
        let t = line[0].as_str();
        if str_eq(t, "CREATURE_GRAPHICS") {
            self.name = line[1].clone();
        } else if str_eq(t, "CREATURE_CASTE_GRAPHICS") {
            if len >= 3 {
                assert(line[2]@ == l[2]);
                self.name = line[1].clone();
                self.caste = Some(Caste::from(line[2].clone()));
            } else {
                Creature::short_line(errors, i, bl, len, 3);
            }
        } else if str_eq(t, "LAYER_SET") {
            if *start < i {
                self.flush(errors, buffer, *start, i, images);
                *start = i;
            }
        } else if !matches!(State::from(line[0].clone()), State::Custom(_)) {
            if i - *start >= 2 {
                self.flush(errors, buffer, *start, i, images);
                *start = i;
            }
            if len >= 4 {
                let ghost es1 = errs(errors@);
                let one = single_line(line);
                assert(one.deep_view()[0] == l);
                let (sl, sles) = SimpleLayer::read(one);
                proof {
                    lemma_wrap_all_within(errs(sles@), 0, i, bl);
                    lemma_within_mono(wrap_all(errs(sles@), i, bl), 0, 3);
                    lemma_within_append(es1, wrap_all(errs(sles@), i, bl), 3);
                }
                append_wrapped(errors, &sles, i, bl, Ghost(0));
                if !sl.is_new() {
                    let ghost before = self@.simple_layers;
                    self.simple_layers.push(sl);
                    assert(self@.simple_layers =~= before.push(sl@));
                }
            } else {
                Creature::short_line(errors, i, bl, len, 4);
            }
        }
    }

    /// Reads a creature from its block of lines, with the errors met; `images`
    /// holds the sizes of the palette images that exist.
    pub fn read(buffer: Vec<Vec<String>>, images: &Vec<ImageSize>) -> (r: (Creature, Vec<DFGHError>))
        requires
            buffer@.len() <= max_lines(),
        ensures
            (r.0@, errs(r.1@)) == creature_read(buffer.deep_view(), images@),
            errors_within(errs(r.1@), 3),
    {
        let mut c = Creature::new();
        let mut errors: Vec<DFGHError> = Vec::new();
        let bl = buffer.len();
        let ghost bv = buffer.deep_view();
        assert(errs(errors@) =~= Seq::<DFGHError<Seq<char>>>::empty());
        let mut start: usize = 0;
        let mut i: usize = 0;
        while i < bl
            invariant
                bl == buffer@.len() <= max_lines(),
                bv == buffer.deep_view(),
                start <= i <= bl,
                (c@, errs(errors@), start as int) == creature_read_upto(bv, i as int, images@),
                errors_within(errs(errors@), 3),
            decreases bl - i,
        {
            c.read_line(&mut errors, &buffer, i, &mut start, images);
            i = i + 1;
        }
        if bl - start >= 2 {
            c.flush(&mut errors, &buffer, start, bl, images);
        }
        (c, errors)
    }

    /// Whether this creature can be written without a coordinate sum overflowing.
    pub fn displayable(&self) -> (r: bool)
        ensures
            r == creature_displayable(self@),
    {
        let mut k: usize = 0;
        while k < self.simple_layers.len()
            invariant
                k <= self.simple_layers@.len(),
                forall|j: int| 0 <= j < k ==> simple_layer_displayable(#[trigger] self@.simple_layers[j]),
            decreases self.simple_layers@.len() - k,
        {
            assert(self@.simple_layers[k as int] == self.simple_layers@[k as int]@);
            if !self.simple_layers[k].displayable() {
                return false;
            }
            k = k + 1;
        }
        let mut k: usize = 0;
        while k < self.layer_sets.len()
            invariant
                k <= self.layer_sets@.len(),
                forall|j: int| 0 <= j < self.simple_layers@.len() ==> simple_layer_displayable(
                    #[trigger] self@.simple_layers[j],
                ),
                forall|j: int| 0 <= j < k ==> layer_set_displayable(#[trigger] self@.layer_sets[j]),
            decreases self.layer_sets@.len() - k,
        {
            assert(self@.layer_sets[k as int] == self.layer_sets@[k as int]@);
            if !self.layer_sets[k].displayable() {
                return false;
            }
            k = k + 1;
        }
        true
    }

    /// The raw text of this creature.
    pub fn display(&self) -> (r: String)
        requires
            creature_displayable(self@),
        ensures
            r@ == creature_display(self@),
    {
        let mut out = match &self.caste {
            Some(caste) => {
                let mut o = string_of("[CREATURE_CASTE_GRAPHICS:");
                push_str(&mut o, to_upper_snake(self.name.as_str()).as_str());
                push_str(&mut o, ":");
                push_str(&mut o, caste.name().as_str());
                push_str(&mut o, "]\n");
                o
            },
            None => {
                let mut o = string_of("[CREATURE_GRAPHICS:");
                push_str(&mut o, to_upper_snake(self.name.as_str()).as_str());
                push_str(&mut o, "]\n");
                o
            },
        };
        let ghost mid = out@;
        let ghost sl = self@.simple_layers;
        let mut k: usize = 0;
        while k < self.simple_layers.len()
            invariant
                sl == self@.simple_layers,
                k <= sl.len(),
                creature_displayable(self@),
                out@ == mid + simple_layers_display(sl.take(k as int)),
            decreases sl.len() - k,
        {
            assert(sl.take(k + 1).drop_last() =~= sl.take(k as int));
            assert(sl.take(k + 1).last() == self.simple_layers@[k as int]@);
            assert(simple_layer_displayable(sl[k as int]));
            push_str(&mut out, self.simple_layers[k].display().as_str());
            k = k + 1;
        }
        assert(sl.take(sl.len() as int) =~= sl);
        let ghost mid2 = out@;
        let ghost ls = self@.layer_sets;
        let mut k: usize = 0;
        while k < self.layer_sets.len()
            invariant
                ls == self@.layer_sets,
                k <= ls.len(),
                creature_displayable(self@),
                out@ == mid2 + layer_sets_display(ls.take(k as int)),
            decreases ls.len() - k,
        {
            assert(ls.take(k + 1).drop_last() =~= ls.take(k as int));
            assert(ls.take(k + 1).last() == self.layer_sets@[k as int]@);
            assert(layer_set_displayable(ls[k as int]));
            push_str(&mut out, self.layer_sets[k].display().as_str());
            k = k + 1;
        }
        assert(ls.take(ls.len() as int) =~= ls);
        push_str(&mut out, "\n");
        assert(out@ =~= creature_display(self@));
        out
    }
}

} // verus!
