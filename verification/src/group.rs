//! Layer groups: named sets of layers drawn together.
use vstd::prelude::*;
use crate::condition::{condition_display, condition_displayable, to_upper_snake, upper_snake, Condition, SpecCondition};
use crate::error::DFGHError;
use crate::layer::{layer_display, layer_displayable, layer_read, spec_layer_new, Layer, SpecLayer};
use crate::lines::{
    append_wrapped, clone_block, errors_within, errs, lemma_within_append, lemma_wrap_all_within, max_lines,
    wrap_all,
};
use crate::text::{push_str, remove_first, string_of, str_eq, without_first};

verus! {

/// A layer group: a name and its layers.
#[derive(Clone, Debug, PartialEq)]
pub struct LayerGroup {
    pub name: String,
    pub layers: Vec<Layer>,
}

/// The view of a [`LayerGroup`].
pub struct SpecLayerGroup {
    pub name: Seq<char>,
    pub layers: Seq<SpecLayer>,
}

impl View for LayerGroup {
    type V = SpecLayerGroup;

    open spec fn view(&self) -> SpecLayerGroup {
        SpecLayerGroup { name: self.name@, layers: self.layers@.map_values(|l: Layer| l@) }
    }
}

/// A fresh layer group.
pub open spec fn spec_layer_group_new() -> SpecLayerGroup {
    SpecLayerGroup { name: "(new)"@, layers: seq![] }
}

/// Whether a line starts a new layer within a group.
pub open spec fn starts_layer(l: Seq<Seq<char>>) -> bool {
    l.len() >= 1 && (l[0] == "LG_CONDITION_BP"@ || l[0] == "LAYER"@)
}

/// The group reader's state: the group so far, the errors met, and where the
/// pending block of lines starts.
pub type GroupReadState = (SpecLayerGroup, Seq<DFGHError<Seq<char>>>, int);

/// Reads the pending block as a layer, keeps it unless it is a fresh one, and
/// adds its errors as met at line `at` of a block of `bl` lines.
pub open spec fn flush_layer(
    g: SpecLayerGroup,
    es: Seq<DFGHError<Seq<char>>>,
    block: Seq<Seq<Seq<char>>>,
    at: usize,
    bl: usize,
) -> (SpecLayerGroup, Seq<DFGHError<Seq<char>>>) {
    let (l, les) = layer_read(block);
    (
        if l == spec_layer_new() {
            g
        } else {
            SpecLayerGroup { layers: g.layers.push(l), ..g }
        },
        es + wrap_all(les, at, bl),
    )
}

/// The group reader's state after the first `n` lines of `buffer`.
pub open spec fn group_read_upto(buffer: Seq<Seq<Seq<char>>>, n: int) -> GroupReadState
    decreases n,
{
    if n <= 0 {
        (spec_layer_group_new(), seq![], 0)
    } else {
        let (g, es, start) = group_read_upto(buffer, n - 1);
        let i = n - 1;
        if starts_layer(buffer[i]) && start < i {
            let (g2, es2) = flush_layer(g, es, buffer.subrange(start, i), i as usize, buffer.len() as usize);
            (g2, es2, i)
        } else {
            (g, es, start)
        }
    }
}

/// The layer group and errors read from a block of lines.
pub open spec fn group_read(buffer: Seq<Seq<Seq<char>>>) -> (SpecLayerGroup, Seq<DFGHError<Seq<char>>>) {
    let n = buffer.len() as int;
    let (g, es, start) = group_read_upto(buffer, n);
    if start < n {
        flush_layer(g, es, buffer.subrange(start, n), n as usize, n as usize)
    } else {
        (g, es)
    }
}

/// The position of the first body-part group condition in `cs` (its length where there is none).
pub open spec fn first_lgbp(cs: Seq<SpecCondition>) -> int
    decreases cs.len(),
{
    if cs.len() == 0 {
        0
    } else if cs[0] is LGConditionBP {
        0
    } else {
        1 + first_lgbp(cs.drop_first())
    }
}

/// Whether a layer holds a body-part group condition.
pub open spec fn has_lgbp(l: SpecLayer) -> bool {
    exists|k: int| 0 <= k < l.conditions.len() && (#[trigger] l.conditions[k]) is LGConditionBP
}

/// The position of the first layer that holds a body-part group condition (the
/// number of layers where none does).
pub open spec fn first_lgbp_layer(ls: Seq<SpecLayer>) -> int
    decreases ls.len(),
{
    if ls.len() == 0 {
        0
    } else if has_lgbp(ls[0]) {
        0
    } else {
        1 + first_lgbp_layer(ls.drop_first())
    }
}

/// The text of the conditions other than body-part group ones, each without its first tab.
pub open spec fn trimmed_conditions_display(cs: Seq<SpecCondition>) -> Seq<char>
    decreases cs.len(),
{
    if cs.len() == 0 {
        seq![]
    } else if cs.last() is LGConditionBP {
        trimmed_conditions_display(cs.drop_last())
    } else {
        trimmed_conditions_display(cs.drop_last()) + remove_first(condition_display(cs.last()), '\t')
    }
}

/// The text of the layers that hold no body-part group condition.
pub open spec fn plain_layers_display(ls: Seq<SpecLayer>) -> Seq<char>
    decreases ls.len(),
{
    if ls.len() == 0 {
        seq![]
    } else if has_lgbp(ls.last()) {
        plain_layers_display(ls.drop_last())
    } else {
        plain_layers_display(ls.drop_last()) + layer_display(ls.last())
    }
}

/// The text written for the first layer that holds a body-part group condition:
/// that condition, then its other conditions one level less indented.
pub open spec fn lgbp_block_display(ls: Seq<SpecLayer>) -> Seq<char> {
    let p = first_lgbp_layer(ls);
    if p < ls.len() {
        let cs = ls[p].conditions;
        condition_display(cs[first_lgbp(cs)]) + trimmed_conditions_display(cs)
    } else {
        seq![]
    }
}

/// The raw text of a layer group.
pub open spec fn group_display(g: SpecLayerGroup) -> Seq<char> {
    "\t\t[LAYER_GROUP] ---"@ + upper_snake(g.name) + "---\n"@ + lgbp_block_display(g.layers) + plain_layers_display(
        g.layers,
    ) + "\n"@
}

/// Whether a layer group can be written without a coordinate sum overflowing.
pub open spec fn group_displayable(g: SpecLayerGroup) -> bool {
    &&& forall|k: int| 0 <= k < g.layers.len() && !has_lgbp(#[trigger] g.layers[k]) ==> layer_displayable(g.layers[k])
    &&& first_lgbp_layer(g.layers) < g.layers.len() ==> forall|j: int|
        0 <= j < g.layers[first_lgbp_layer(g.layers)].conditions.len() ==> condition_displayable(
            #[trigger] g.layers[first_lgbp_layer(g.layers)].conditions[j],
        )
}

/// The first body-part group condition is found where [`first_lgbp`] says, and
/// exists exactly when a layer has one.
pub proof fn lemma_first_lgbp(cs: Seq<SpecCondition>)
    ensures
        0 <= first_lgbp(cs) <= cs.len(),
        first_lgbp(cs) < cs.len() ==> cs[first_lgbp(cs)] is LGConditionBP,
        forall|k: int| 0 <= k < first_lgbp(cs) ==> !(#[trigger] cs[k] is LGConditionBP),
    decreases cs.len(),
{
    if cs.len() > 0 && !(cs[0] is LGConditionBP) {
        lemma_first_lgbp(cs.drop_first());
        assert forall|k: int| 0 <= k < first_lgbp(cs) implies !(#[trigger] cs[k] is LGConditionBP) by {
            if k > 0 {
                assert(cs[k] == cs.drop_first()[k - 1]);
            }
        }
        if first_lgbp(cs) < cs.len() {
            assert(cs[first_lgbp(cs)] == cs.drop_first()[first_lgbp(cs.drop_first())]);
        }
    }
}

/// The first layer with a body-part group condition is found where
/// [`first_lgbp_layer`] says.
pub proof fn lemma_first_lgbp_layer(ls: Seq<SpecLayer>)
    ensures
        0 <= first_lgbp_layer(ls) <= ls.len(),
        first_lgbp_layer(ls) < ls.len() ==> has_lgbp(ls[first_lgbp_layer(ls)]),
        forall|k: int| 0 <= k < first_lgbp_layer(ls) ==> !has_lgbp(#[trigger] ls[k]),
    decreases ls.len(),
{
    if ls.len() > 0 && !has_lgbp(ls[0]) {
        lemma_first_lgbp_layer(ls.drop_first());
        assert forall|k: int| 0 <= k < first_lgbp_layer(ls) implies !has_lgbp(#[trigger] ls[k]) by {
            if k > 0 {
                assert(ls[k] == ls.drop_first()[k - 1]);
            }
        }
        if first_lgbp_layer(ls) < ls.len() {
            assert(ls[first_lgbp_layer(ls)] == ls.drop_first()[first_lgbp_layer(ls.drop_first())]);
        }
    }
}

/// Whether a condition is a body-part group condition.
fn is_lgbp(c: &Condition) -> (r: bool)
    ensures
        r == (c@ is LGConditionBP),
{
    match c {
        Condition::LGConditionBP(_) => true,
        _ => false,
    }
}

/// The position of the first body-part group condition of `cs`.
fn find_lgbp(cs: &Vec<Condition>) -> (r: usize)
    ensures
        r == first_lgbp(cs@.map_values(|c: Condition| c@)),
{
    let ghost v = cs@.map_values(|c: Condition| c@);
    proof {
        lemma_first_lgbp(v);
    }
    let mut i: usize = 0;
    while i < cs.len()
        invariant
            v == cs@.map_values(|c: Condition| c@),
            i <= cs@.len(),
            i <= first_lgbp(v),
            0 <= first_lgbp(v) <= v.len(),
            first_lgbp(v) < v.len() ==> v[first_lgbp(v)] is LGConditionBP,
            forall|k: int| 0 <= k < first_lgbp(v) ==> !(#[trigger] v[k] is LGConditionBP),
        decreases cs@.len() - i,
    {
        assert(v[i as int] == cs@[i as int]@);
        if is_lgbp(&cs[i]) {
            return i;
        }
        i = i + 1;
    }
    i
}

/// Whether a layer holds a body-part group condition.
fn layer_has_lgbp(l: &Layer) -> (r: bool)
    ensures
        r == has_lgbp(l@),
{
    let p = find_lgbp(&l.conditions);
    proof {
        let v = l@.conditions;
        lemma_first_lgbp(v);
        if has_lgbp(l@) {
            let k = choose|k: int| 0 <= k < v.len() && (#[trigger] v[k]) is LGConditionBP;
            assert(k >= first_lgbp(v));
        }
    }
    p < l.conditions.len()
}

/// The position of the first layer that holds a body-part group condition.
fn find_lgbp_layer(ls: &Vec<Layer>) -> (r: usize)
    ensures
        r == first_lgbp_layer(ls@.map_values(|l: Layer| l@)),
{
    let ghost v = ls@.map_values(|l: Layer| l@);
    proof {
        lemma_first_lgbp_layer(v);
    }
    let mut i: usize = 0;
    while i < ls.len()
        invariant
            v == ls@.map_values(|l: Layer| l@),
            i <= ls@.len(),
            i <= first_lgbp_layer(v),
            0 <= first_lgbp_layer(v) <= v.len(),
            first_lgbp_layer(v) < v.len() ==> has_lgbp(v[first_lgbp_layer(v)]),
            forall|k: int| 0 <= k < first_lgbp_layer(v) ==> !has_lgbp(#[trigger] v[k]),
        decreases ls@.len() - i,
    {
        assert(v[i as int] == ls@[i as int]@);
        if layer_has_lgbp(&ls[i]) {
            return i;
        }
        i = i + 1;
    }
    i
}

impl LayerGroup {
    /// A fresh layer group.
    pub fn new() -> (r: Self)
        ensures
            r@ == spec_layer_group_new(),
    {
        let r = LayerGroup { name: string_of("(new)"), layers: Vec::new() };
        assert(r@.layers =~= Seq::<SpecLayer>::empty());
        r
    }

    /// Whether this group is still as [`LayerGroup::new`] makes it.
    pub fn is_new(&self) -> (r: bool)
        ensures
            r == (self@ == spec_layer_group_new()),
    {
        let r = str_eq(self.name.as_str(), "(new)") && self.layers.len() == 0;
        proof {
            if r {
                assert(self@.layers =~= Seq::<SpecLayer>::empty());
            }
            if self@ == spec_layer_group_new() {
                assert(self@.layers.len() == self.layers@.len());
            }
        }
        r
    }

    /// Reads lines `start..at` of `buffer` as a layer, keeping it unless it is a
    /// fresh one, with its errors as met at line `at`.
    fn flush(&mut self, errors: &mut Vec<DFGHError>, buffer: &Vec<Vec<String>>, start: usize, at: usize)
        requires
            start <= at <= buffer@.len() <= max_lines(),
            errors_within(errs(old(errors)@), 1),
        ensures
            (final(self)@, errs(final(errors)@)) == flush_layer(
                old(self)@,
                errs(old(errors)@),
                buffer.deep_view().subrange(start as int, at as int),
                at,
                buffer@.len() as usize,
            ),
            errors_within(errs(final(errors)@), 1),
    {
        let block = clone_block(buffer, start, at);
        let (l, les) = Layer::read(block);
        proof {
            lemma_wrap_all_within(errs(les@), 0, at, buffer@.len() as usize);
            lemma_within_append(errs(old(errors)@), wrap_all(errs(les@), at, buffer@.len() as usize), 1);
        }
        append_wrapped(errors, &les, at, buffer.len(), Ghost(0));
        if !l.is_new() {
            let ghost before = self@.layers;
            self.layers.push(l);
            assert(self@.layers =~= before.push(l@));
        }
    }

    /// Reads a layer group from its block of lines, with the errors met.
    pub fn read(buffer: Vec<Vec<String>>) -> (r: (LayerGroup, Vec<DFGHError>))
        requires
            buffer@.len() <= max_lines(),
        ensures
            (r.0@, errs(r.1@)) == group_read(buffer.deep_view()),
            errors_within(errs(r.1@), 1),
    {
        let mut g = LayerGroup::new();
        let mut errors: Vec<DFGHError> = Vec::new();
        let bl = buffer.len();
        let ghost bv = buffer.deep_view();
        assert(errs(errors@) =~= Seq::<DFGHError<Seq<char>>>::empty());
        let mut start: usize = 0;
        let mut i: usize = 0;
        while i < bl
            invariant
                bl == buffer@.len() <= max_lines(),
                bv == buffer.deep_view(),
                start <= i <= bl,
                (g@, errs(errors@), start as int) == group_read_upto(bv, i as int),
                errors_within(errs(errors@), 1),
            decreases bl - i,
        {
            let line = &buffer[i];
            assert(line.deep_view() == bv[i as int]);
            if line.len() >= 1 {
                assert(line[0]@ == bv[i as int][0]);
            }
            let starts = line.len() >= 1 && (str_eq(line[0].as_str(), "LG_CONDITION_BP") || str_eq(
                line[0].as_str(),
                "LAYER",
            ));
            if starts && start < i {
                g.flush(&mut errors, &buffer, start, i);
                start = i;
            }
            i = i + 1;
        }
        if start < bl {
            g.flush(&mut errors, &buffer, start, bl);
        }
        (g, errors)
    }

    /// Whether this group can be written without a coordinate sum overflowing.
    pub fn displayable(&self) -> (r: bool)
        ensures
            r == group_displayable(self@),
    {
        let ghost ls = self@.layers;
        let mut k: usize = 0;
        while k < self.layers.len()
            invariant
                ls == self@.layers,
                k <= ls.len(),
                forall|j: int| 0 <= j < k && !has_lgbp(#[trigger] ls[j]) ==> layer_displayable(ls[j]),
            decreases ls.len() - k,
        {
            assert(ls[k as int] == self.layers@[k as int]@);
            if !layer_has_lgbp(&self.layers[k]) && !self.layers[k].displayable() {
                return false;
            }
            k = k + 1;
        }
        let p = find_lgbp_layer(&self.layers);
        proof {
            lemma_first_lgbp_layer(ls);
        }
        if p < self.layers.len() {
            let cs = &self.layers[p].conditions;
            assert(cs@.map_values(|c: Condition| c@) == ls[p as int].conditions);
            let mut j: usize = 0;
            while j < cs.len()
                invariant
                    ls == self@.layers,
                    p < ls.len(),
                    p == first_lgbp_layer(ls),
                    cs@.map_values(|c: Condition| c@) == ls[p as int].conditions,
                    j <= cs@.len(),
                    forall|i: int| 0 <= i < j ==> condition_displayable(#[trigger] ls[p as int].conditions[i]),
                decreases cs@.len() - j,
            {
                assert(ls[p as int].conditions[j as int] == cs@[j as int]@);
                if !cs[j].displayable() {
                    assert(!condition_displayable(ls[first_lgbp_layer(ls)].conditions[j as int]));
                    return false;
                }
                j = j + 1;
            }
        }
        true
    }

    /// The raw text of this group: the first body-part group condition with the
    /// other conditions of its layer, then every layer without such a condition.
    pub fn display(&self) -> (r: String)
        requires
            group_displayable(self@),
        ensures
            r@ == group_display(self@),
    {
        let ghost ls = self@.layers;
        let mut out = string_of("\t\t[LAYER_GROUP] ---");
        push_str(&mut out, to_upper_snake(self.name.as_str()).as_str());
        push_str(&mut out, "---\n");
        let p = find_lgbp_layer(&self.layers);
        proof {
            lemma_first_lgbp_layer(ls);
        }
        if p < self.layers.len() {
            let cs = &self.layers[p].conditions;
            let ghost cv = cs@.map_values(|c: Condition| c@);
            assert(cv == ls[p as int].conditions);
            let q = find_lgbp(cs);
            proof {
                lemma_first_lgbp(cv);
                let k = choose|k: int| 0 <= k < cv.len() && (#[trigger] cv[k]) is LGConditionBP;
                assert(k >= first_lgbp(cv));
                assert(condition_displayable(cv[q as int]));
            }
            assert(cs@[q as int]@ == cv[q as int]);
            push_str(&mut out, cs[q].display().as_str());
            let mut k: usize = 0;
            let ghost base = out@;
            while k < cs.len()
                invariant
                    cv == cs@.map_values(|c: Condition| c@),
                    k <= cs@.len(),
                    forall|j: int| 0 <= j < cv.len() ==> condition_displayable(#[trigger] cv[j]),
                    out@ == base + trimmed_conditions_display(cv.take(k as int)),
                decreases cs@.len() - k,
            {
                assert(cv.take(k + 1).drop_last() =~= cv.take(k as int));
                assert(cv.take(k + 1).last() == cs@[k as int]@);
                if !is_lgbp(&cs[k]) {
                    assert(condition_displayable(cv[k as int]));
                    let d = cs[k].display();
                    push_str(&mut out, without_first(d.as_str(), '\t').as_str());
                }
                k = k + 1;
            }
            assert(cv.take(cs@.len() as int) =~= cv);
        }
        let ghost mid = out@;
        let mut k: usize = 0;
        while k < self.layers.len()
            invariant
                ls == self@.layers,
                k <= ls.len(),
                group_displayable(self@),
                out@ == mid + plain_layers_display(ls.take(k as int)),
            decreases ls.len() - k,
        {
            assert(ls.take(k + 1).drop_last() =~= ls.take(k as int));
            assert(ls.take(k + 1).last() == self.layers@[k as int]@);
            if !layer_has_lgbp(&self.layers[k]) {
                assert(layer_displayable(ls[k as int]));
                push_str(&mut out, self.layers[k].display().as_str());
            }
            k = k + 1;
        }
        assert(ls.take(ls.len() as int) =~= ls);
        push_str(&mut out, "\n");
        assert(out@ =~= group_display(self@));
        out
    }
}

} // verus!
