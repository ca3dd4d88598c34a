//! Layers: one tile of a layered creature graphic and the conditions it is drawn under.
use vstd::prelude::*;
use crate::condition::{
    condition_display, condition_displayable, condition_read, field_errors, lemma_condition_read_within, parse_or_zero,
    read_u32_field, upper_snake, to_upper_snake, Condition, SpecCondition,
};
use crate::error::{index_error, spec_index_error, DFGHError};
use crate::lines::{
    abs_diff, abs_diff_u32, append_wrapped, errors_within, errs, has_field, lemma_field_errors_within,
    lemma_index_error_within, lemma_within_append, lemma_within_push, lemma_without_as_is_len,
    lemma_wrap_all_within, max_lines, push_error, reduce_line, single_line, without_as_is, wrap_all,
};
use crate::text::{decimal, push_decimal, push_str, str_eq, string_of};

verus! {

/// One layer of a layer group.
#[derive(Clone, Debug, PartialEq)]
pub struct Layer {
    pub name: String,
    pub conditions: Vec<Condition>,
    pub tile_name: String,
    pub coords: [u32; 2],
    pub large_coords: Option<[u32; 2]>,
}

/// The view of a [`Layer`].
pub struct SpecLayer {
    pub name: Seq<char>,
    pub conditions: Seq<SpecCondition>,
    pub tile_name: Seq<char>,
    pub coords: [u32; 2],
    pub large_coords: Option<[u32; 2]>,
}

impl View for Layer {
    type V = SpecLayer;

    open spec fn view(&self) -> SpecLayer {
        SpecLayer {
            name: self.name@,
            conditions: self.conditions@.map_values(|c: Condition| c@),
            tile_name: self.tile_name@,
            coords: self.coords,
            large_coords: self.large_coords,
        }
    }
}

/// A fresh layer.
pub open spec fn spec_layer_new() -> SpecLayer {
    SpecLayer {
        name: "(new)"@,
        conditions: seq![SpecCondition::Default],
        tile_name: Seq::empty(),
        coords: [0, 0],
        large_coords: None,
    }
}

/// The reader's state after some lines: the layer so far and the errors met.
pub type LayerReadState = (SpecLayer, Seq<DFGHError<Seq<char>>>);

/// Whether `t` is a token that a layer reader passes over.
pub open spec fn layer_ignores(t: Seq<char>) -> bool {
    t == "LAYER_SET"@ || t == "LS_PALETTE"@ || t == "LS_PALETTE_FILE"@ || t == "LS_PALETTE_DEFAULT"@
        || t == "END_LAYER_GROUP"@ || t == "LAYER_GROUP"@
}

/// `layer` with `c` added to its conditions unless `c` is the default condition.
pub open spec fn with_condition(layer: SpecLayer, c: SpecCondition) -> SpecLayer {
    if c == SpecCondition::Default {
        layer
    } else {
        SpecLayer { conditions: layer.conditions.push(c), ..layer }
    }
}

/// The reader's state after line `l` (line `i` of a block of `bl` lines).
pub open spec fn layer_line(st: LayerReadState, l: Seq<Seq<char>>, i: usize, bl: usize) -> LayerReadState {
    let (layer, es) = st;
    let len = l.len();
    if len >= 1 {
        if l[0] == "LAYER"@ {
            if len >= 5 {
                let red = without_as_is(l);
                if red.len() == 5 {
                    (
                        SpecLayer {
                            name: red[1],
                            tile_name: red[2],
                            coords: [parse_or_zero(red[3]), parse_or_zero(red[4])],
                            large_coords: None,
                            conditions: seq![],
                        },
                        es + field_errors(red, 3, i, bl) + field_errors(red, 4, i, bl),
                    )
                } else if red.len() == 8 {
                    let x = parse_or_zero(l[4]);
                    let y = parse_or_zero(l[5]);
                    let xl = parse_or_zero(l[6]);
                    let yl = parse_or_zero(l[7]);
                    (
                        SpecLayer {
                            name: red[1],
                            tile_name: red[2],
                            coords: [x, y],
                            large_coords: Some([abs_diff(xl, x), abs_diff(yl, y)]),
                            conditions: seq![],
                        },
                        es + field_errors(l, 4, i, bl) + field_errors(l, 5, i, bl) + field_errors(l, 6, i, bl)
                            + field_errors(l, 7, i, bl),
                    )
                } else if red.contains("LARGE_IMAGE"@) {
                    (layer, es.push(spec_index_error(i, bl, len as usize, 8)))
                } else {
                    (layer, es.push(spec_index_error(i, bl, len as usize, 5)))
                }
            } else {
                (layer, es.push(spec_index_error(i, bl, len as usize, 5)))
            }
        } else if l[0] == "LG_CONDITION_BP"@ {
            if len >= 3 {
                let base = SpecLayer {
                    name: Seq::empty(),
                    tile_name: Seq::empty(),
                    coords: [0, 0],
                    large_coords: None,
                    conditions: layer.conditions,
                };
                let (c, ces) = condition_read(l, 1);
                (with_condition(base, c), es + wrap_all(ces, i, bl))
            } else {
                (layer, es.push(spec_index_error(i, bl, len as usize, 3)))
            }
        } else if layer_ignores(l[0]) {
            st
        } else {
            let (c, ces) = condition_read(l, 1);
            (with_condition(layer, c), es + wrap_all(ces, i, bl))
        }
    } else {
        st
    }
}

/// The reader's state after the first `n` lines of `buffer`.
pub open spec fn layer_read_upto(buffer: Seq<Seq<Seq<char>>>, n: int) -> LayerReadState
    decreases n,
{
    if n <= 0 {
        (spec_layer_new(), seq![])
    } else {
        layer_line(layer_read_upto(buffer, n - 1), buffer[n - 1], (n - 1) as usize, buffer.len() as usize)
    }
}

/// The layer and errors read from a block of lines.
pub open spec fn layer_read(buffer: Seq<Seq<Seq<char>>>) -> LayerReadState {
    layer_read_upto(buffer, buffer.len() as int)
}

/// Whether a layer can be written without a coordinate sum overflowing.
pub open spec fn layer_displayable(layer: SpecLayer) -> bool {
    &&& match layer.large_coords {
        Some(l) => layer.coords[0] + l[0] <= u32::MAX && layer.coords[1] + l[1] <= u32::MAX,
        None => true,
    }
    &&& forall|k: int| 0 <= k < layer.conditions.len() ==> condition_displayable(#[trigger] layer.conditions[k])
}

/// The raw text of each condition, concatenated.
pub open spec fn conditions_display(cs: Seq<SpecCondition>) -> Seq<char>
    decreases cs.len(),
{
    if cs.len() == 0 {
        seq![]
    } else {
        conditions_display(cs.drop_last()) + condition_display(cs.last())
    }
}

/// The raw text of a layer.
pub open spec fn layer_display(layer: SpecLayer) -> Seq<char> {
    let x = layer.coords[0];
    let y = layer.coords[1];
    (match layer.large_coords {
        Some(l) => "\t\t\t[LAYER:"@ + upper_snake(layer.name) + ":"@ + upper_snake(layer.tile_name) + ":LARGE_IMAGE:"@
            + decimal(x as nat) + ":"@ + decimal(y as nat) + ":"@ + decimal((x + l[0]) as nat) + ":"@ + decimal(
            (y + l[1]) as nat,
        ) + "]\n"@,
        None => "\t\t\t[LAYER:"@ + upper_snake(layer.name) + ":"@ + upper_snake(layer.tile_name) + ":"@ + decimal(
            x as nat,
        ) + ":"@ + decimal(y as nat) + "]\n"@,
    }) + conditions_display(layer.conditions)
}

/// Appends the raw text of each condition.
pub fn push_conditions(out: &mut String, cs: &Vec<Condition>)
    requires
        forall|k: int| 0 <= k < cs@.len() ==> condition_displayable(#[trigger] cs@[k]@),
    ensures
        final(out)@ == old(out)@ + conditions_display(cs@.map_values(|c: Condition| c@)),
{
    let ghost v = cs@.map_values(|c: Condition| c@);
    let mut k: usize = 0;
    while k < cs.len()
        invariant
            k <= cs@.len(),
            v == cs@.map_values(|c: Condition| c@),
            forall|j: int| 0 <= j < cs@.len() ==> condition_displayable(#[trigger] cs@[j]@),
            out@ == old(out)@ + conditions_display(v.take(k as int)),
        decreases cs@.len() - k,
    {
        assert(v.take(k + 1).drop_last() =~= v.take(k as int));
        assert(v.take(k + 1).last() == cs@[k as int]@);
        let d = cs[k].display();
        push_str(out, d.as_str());
        k = k + 1;
    }
    assert(v.take(cs@.len() as int) =~= v);
}

impl Layer {
    /// A fresh layer.
    pub fn new() -> (r: Self)
        ensures
            r@ == spec_layer_new(),
    {
        let mut conditions: Vec<Condition> = Vec::new();
        conditions.push(Condition::Default);
        let r = Layer { name: string_of("(new)"), conditions, tile_name: String::new(), coords: [0, 0], large_coords: None };
        assert(r@.conditions =~= seq![SpecCondition::Default]);
        r
    }

    /// Whether this layer is still as [`Layer::new`] makes it.
    pub fn is_new(&self) -> (r: bool)
        ensures
            r == (self@ == spec_layer_new()),
    {
        if !str_eq(self.name.as_str(), "(new)") || self.conditions.len() != 1 || self.tile_name.unicode_len() != 0
            || self.coords[0] != 0 || self.coords[1] != 0 || self.large_coords.is_some() {
            proof {
                if self@ == spec_layer_new() {
                    assert(self@.conditions.len() == 1);
                }
            }
            return false;
        }
        assert(self.conditions@.len() == 1);
        assert(self@.conditions[0] == self.conditions@[0]@);
        let r = match &self.conditions[0] {
            Condition::Default => true,
            _ => false,
        };
        proof {
            if r {
                assert(self@.conditions =~= seq![SpecCondition::Default]);
                assert(self@.tile_name =~= Seq::<char>::empty());
                assert(self@.coords =~= [0u32, 0u32]);
            }
        }
        r
    }

    /// Reads a layer from its block of lines, with the errors met.
    pub fn read(buffer: Vec<Vec<String>>) -> (r: (Layer, Vec<DFGHError>))
        requires
            buffer@.len() <= max_lines(),
        ensures
            (r.0@, errs(r.1@)) == layer_read(buffer.deep_view()),
            errors_within(errs(r.1@), 0),
    {
        let mut layer = Layer::new();
        let mut errors: Vec<DFGHError> = Vec::new();
        let bl = buffer.len();
        let ghost bv = buffer.deep_view();
        assert(errs(errors@) =~= Seq::<DFGHError<Seq<char>>>::empty());
        let mut i: usize = 0;
        while i < bl
            invariant
                bl == buffer@.len() <= max_lines(),
                bv == buffer.deep_view(),
                i <= bl,
                (layer@, errs(errors@)) == layer_read_upto(bv, i as int),
                errors_within(errs(errors@), 0),
            decreases bl - i,
        {
            assert(buffer[i as int].deep_view() == bv[i as int]);
            layer.read_line(&mut errors, &buffer[i], i, bl);
            i = i + 1;
        }
        (layer, errors)
    }

    /// Whether this layer can be written without a coordinate sum overflowing.
    pub fn displayable(&self) -> (r: bool)
        ensures
            r == layer_displayable(self@),
    {
        let fits = match self.large_coords {
            Some(l) => self.coords[0].checked_add(l[0]).is_some() && self.coords[1].checked_add(l[1]).is_some(),
            None => true,
        };
        if !fits {
            return false;
        }
        let mut k: usize = 0;
        while k < self.conditions.len()
            invariant
                k <= self.conditions@.len(),
                forall|j: int| 0 <= j < k ==> condition_displayable(#[trigger] self@.conditions[j]),
            decreases self.conditions@.len() - k,
        {
            assert(self@.conditions[k as int] == self.conditions@[k as int]@);
            if !self.conditions[k].displayable() {
                return false;
            }
            k = k + 1;
        }
        true
    }

    /// The raw text of this layer and its conditions.
    pub fn display(&self) -> (r: String)
        requires
            layer_displayable(self@),
        ensures
            r@ == layer_display(self@),
    {
        let mut out = String::new();
        let x = self.coords[0];
        let y = self.coords[1];
        push_str(&mut out, "\t\t\t[LAYER:");
        push_str(&mut out, to_upper_snake(self.name.as_str()).as_str());
        push_str(&mut out, ":");
        push_str(&mut out, to_upper_snake(self.tile_name.as_str()).as_str());
        match self.large_coords {
            Some(l) => {
                push_str(&mut out, ":LARGE_IMAGE:");
                push_decimal(&mut out, x as u64);
                push_str(&mut out, ":");
                push_decimal(&mut out, y as u64);
                push_str(&mut out, ":");
                push_decimal(&mut out, (x + l[0]) as u64);
                push_str(&mut out, ":");
                push_decimal(&mut out, (y + l[1]) as u64);
            },
            None => {
                push_str(&mut out, ":");
                push_decimal(&mut out, x as u64);
                push_str(&mut out, ":");
                push_decimal(&mut out, y as u64);
            },
        }
        push_str(&mut out, "]\n");
        assert forall|k: int| 0 <= k < self.conditions@.len() implies condition_displayable(
            #[trigger] self.conditions@[k]@,
        ) by {
            assert(self@.conditions[k] == self.conditions@[k]@);
        }
        push_conditions(&mut out, &self.conditions);
        assert(out@ =~= layer_display(self@));
        out
    }

    /// Applies one line of a layer's block to the layer being read.
    fn read_line(&mut self, errors: &mut Vec<DFGHError>, line: &Vec<String>, i: usize, bl: usize)
        requires
            i < bl <= max_lines(),
            errors_within(errs(old(errors)@), 0),
        ensures
            (final(self)@, errs(final(errors)@)) == layer_line((old(self)@, errs(old(errors)@)), line.deep_view(), i, bl),
            errors_within(errs(final(errors)@), 0),
    {
        let ghost l = line.deep_view();
        let ghost es0 = errs(errors@);
        let ghost st0 = (self@, es0);
        let len = line.len();
        if len < 1 {
            return;
        }
        assert(line[0]@ == l[0]);
        if str_eq(line[0].as_str(), "LAYER") {
            if len >= 5 {
                let red = reduce_line(line);
                let ghost rv = red.deep_view();
                proof {
                    lemma_without_as_is_len(l);
                }
                if red.len() == 5 {
                    assert(red[1]@ == rv[1]);
                    assert(red[2]@ == rv[2]);
                    let x = read_u32_field(&red, 3, i, bl, errors);
                    let y = read_u32_field(&red, 4, i, bl, errors);
                    self.name = red[1].clone();
                    self.tile_name = red[2].clone();
                    self.coords = [x, y];
                    self.large_coords = None;
                    self.conditions = Vec::new();
                    assert(self@.conditions =~= Seq::<SpecCondition>::empty());
                    proof {
                        lemma_field_errors_within(rv, 3, i, bl);
                        lemma_field_errors_within(rv, 4, i, bl);
                        lemma_within_append(es0, field_errors(rv, 3, i, bl), 0);
                        lemma_within_append(es0 + field_errors(rv, 3, i, bl), field_errors(rv, 4, i, bl), 0);
                    }
                } else if red.len() == 8 {
                    assert(red[1]@ == rv[1]);
                    assert(red[2]@ == rv[2]);
                    let x = read_u32_field(line, 4, i, bl, errors);
                    let y = read_u32_field(line, 5, i, bl, errors);
                    let xl = read_u32_field(line, 6, i, bl, errors);
                    let yl = read_u32_field(line, 7, i, bl, errors);
                    self.name = red[1].clone();
                    self.tile_name = red[2].clone();
                    self.coords = [x, y];
                    self.large_coords = Some([abs_diff_u32(xl, x), abs_diff_u32(yl, y)]);
                    self.conditions = Vec::new();
                    assert(self@.conditions =~= Seq::<SpecCondition>::empty());
                    proof {
                        let e4 = es0 + field_errors(l, 4, i, bl);
                        let e5 = e4 + field_errors(l, 5, i, bl);
                        let e6 = e5 + field_errors(l, 6, i, bl);
                        lemma_field_errors_within(l, 4, i, bl);
                        lemma_field_errors_within(l, 5, i, bl);
                        lemma_field_errors_within(l, 6, i, bl);
                        lemma_field_errors_within(l, 7, i, bl);
                        lemma_within_append(es0, field_errors(l, 4, i, bl), 0);
                        lemma_within_append(e4, field_errors(l, 5, i, bl), 0);
                        lemma_within_append(e5, field_errors(l, 6, i, bl), 0);
                        lemma_within_append(e6, field_errors(l, 7, i, bl), 0);
                    }
                } else {
                    let k: usize = if has_field(&red, "LARGE_IMAGE") { 8 } else { 5 };
                    push_error(errors, index_error(i, bl, len, k));
                    proof {
                        lemma_index_error_within(i, bl, len, k);
                        lemma_within_push(es0, spec_index_error(i, bl, len, k), 0);
                    }
                }
            } else {
                push_error(errors, index_error(i, bl, len, 5));
                proof {
                    lemma_index_error_within(i, bl, len, 5);
                    lemma_within_push(es0, spec_index_error(i, bl, len, 5), 0);
                }
            }
        } else if str_eq(line[0].as_str(), "LG_CONDITION_BP") {
            if len >= 3 {
                self.name = String::new();
                self.tile_name = String::new();
                self.coords = [0, 0];
                self.large_coords = None;
                self.add_condition_line(errors, line, i, bl);
            } else {
                push_error(errors, index_error(i, bl, len, 3));
                proof {
                    lemma_index_error_within(i, bl, len, 3);
                    lemma_within_push(es0, spec_index_error(i, bl, len, 3), 0);
                }
            }
        } else if str_eq(line[0].as_str(), "LAYER_SET") || str_eq(line[0].as_str(), "LS_PALETTE") || str_eq(
            line[0].as_str(),
            "LS_PALETTE_FILE",
        ) || str_eq(line[0].as_str(), "LS_PALETTE_DEFAULT") || str_eq(line[0].as_str(), "END_LAYER_GROUP") || str_eq(
            line[0].as_str(),
            "LAYER_GROUP",
        ) {
        } else {
            self.add_condition_line(errors, line, i, bl);
        }
    }

    /// Reads `line` as a condition and adds it (unless it is the default one),
    /// with its errors re-expressed for line `i` of a block of `bl` lines.
    fn add_condition_line(&mut self, errors: &mut Vec<DFGHError>, line: &Vec<String>, i: usize, bl: usize)
        requires
            i < bl <= max_lines(),
            errors_within(errs(old(errors)@), 0),
        ensures
            final(self)@ == with_condition(old(self)@, condition_read(line.deep_view(), 1).0),
            errs(final(errors)@) == errs(old(errors)@) + wrap_all(condition_read(line.deep_view(), 1).1, i, bl),
            errors_within(errs(final(errors)@), 0),
    {
        let ghost l = line.deep_view();
        let buf = single_line(line);
        assert(buf.deep_view()[0] == l);
        let (c, ces) = Condition::read(buf);
        proof {
            lemma_condition_read_within(l, 1);
            lemma_wrap_all_within(errs(ces@), 0, i, bl);
            lemma_within_append(errs(old(errors)@), wrap_all(errs(ces@), i, bl), 0);
        }
        append_wrapped(errors, &ces, i, bl, Ghost(0));
        if !matches!(c, Condition::Default) {
            let ghost before = self@.conditions;
            self.conditions.push(c);
            assert(self@.conditions =~= before.push(c@));
        }
    }
}

} // verus!
