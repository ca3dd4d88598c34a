//! Every color a creature's conditions name is offered, and only those.
use vstd::prelude::*;
use crate::condition::SpecCondition;
use crate::creature::SpecCreature;
use crate::gather::{condition_colors, conditions_colors, groups_conditions, layers_conditions, sets_conditions};
use crate::group::SpecLayerGroup;
use crate::items::{color_name, Color};
use crate::layer::SpecLayer;
use crate::layer_set::SpecLayerSet;
use crate::ordering::law_sorted_unique;
use crate::shared::shared_of;

verus! {

/// Whether `x` is a condition of one of the layers `ls`.
pub open spec fn in_layers(ls: Seq<SpecLayer>, x: SpecCondition) -> bool {
    exists|l: int, k: int| 0 <= l < ls.len() && 0 <= k < ls[l].conditions.len() && #[trigger] ls[l].conditions[k] == x
}

/// Whether `x` is a condition of a layer of one of the groups `gs`.
pub open spec fn in_groups(gs: Seq<SpecLayerGroup>, x: SpecCondition) -> bool {
    exists|g: int| 0 <= g < gs.len() && #[trigger] in_layers(gs[g].layers, x)
}

/// Whether `x` is a condition of a layer of a group of one of the sets `ss`.
pub open spec fn in_sets(ss: Seq<SpecLayerSet>, x: SpecCondition) -> bool {
    exists|s: int| 0 <= s < ss.len() && #[trigger] in_groups(ss[s].layer_groups, x)
}

/// Whether some condition of some layer of `c` names the color `col`: a dye,
/// or a tissue that may have it.
pub open spec fn creature_names_color(c: SpecCreature, col: Color<Seq<char>>) -> bool {
    exists|x: SpecCondition|
        #[trigger] in_sets(c.layer_sets, x) && (x == SpecCondition::Dye(col) || (x matches SpecCondition::TissueMayHaveColor(
            v,
        ) && v.contains(col)))
}

/// The conditions of layers are exactly those gathered from them.
proof fn lemma_layers_conditions(ls: Seq<SpecLayer>)
    ensures
        forall|x: SpecCondition| #[trigger] layers_conditions(ls).contains(x) <==> in_layers(ls, x),
    decreases ls.len(),
{
    if ls.len() > 0 {
        let t = ls.drop_last();
        lemma_layers_conditions(t);
        let a = layers_conditions(t);
        let b = ls.last().conditions;
        assert forall|x: SpecCondition| #[trigger] layers_conditions(ls).contains(x) <==> in_layers(ls, x) by {
            if layers_conditions(ls).contains(x) {
                let i = choose|i: int| 0 <= i < (a + b).len() && (a + b)[i] == x;
                if i < a.len() {
                    assert(a[i] == x);
                    assert(a.contains(x));
                    assert(in_layers(t, x));
                    let (l, k) = choose|l: int, k: int|
                        0 <= l < t.len() && 0 <= k < t[l].conditions.len() && #[trigger] t[l].conditions[k] == x;
                    assert(ls[l] == t[l]);
                } else {
                    assert(b[i - a.len()] == x);
                    assert(ls[ls.len() - 1].conditions[i - a.len()] == x);
                }
            }
            if in_layers(ls, x) {
                let (l, k) = choose|l: int, k: int|
                    0 <= l < ls.len() && 0 <= k < ls[l].conditions.len() && #[trigger] ls[l].conditions[k] == x;
                if l < t.len() {
                    assert(t[l] == ls[l]);
                    assert(t[l].conditions[k] == x);
                    assert(in_layers(t, x));
                    assert(a.contains(x));
                    let i = choose|i: int| 0 <= i < a.len() && a[i] == x;
                    assert((a + b)[i] == x);
                } else {
                    assert((a + b)[a.len() + k] == x);
                }
            }
        }
    }
}

/// The conditions of the layers of groups are exactly those gathered from them.
proof fn lemma_groups_conditions(gs: Seq<SpecLayerGroup>)
    ensures
        forall|x: SpecCondition| #[trigger] groups_conditions(gs).contains(x) <==> in_groups(gs, x),
    decreases gs.len(),
{
    if gs.len() > 0 {
        let t = gs.drop_last();
        lemma_groups_conditions(t);
        lemma_layers_conditions(gs.last().layers);
        let a = groups_conditions(t);
        let b = layers_conditions(gs.last().layers);
        assert forall|x: SpecCondition| #[trigger] groups_conditions(gs).contains(x) <==> in_groups(gs, x) by {
            if groups_conditions(gs).contains(x) {
                let i = choose|i: int| 0 <= i < (a + b).len() && (a + b)[i] == x;
                if i < a.len() {
                    assert(a[i] == x);
                    assert(a.contains(x));
                    let g = choose|g: int| 0 <= g < t.len() && #[trigger] in_layers(t[g].layers, x);
                    assert(gs[g] == t[g]);
                } else {
                    assert(b[i - a.len()] == x);
                    assert(b.contains(x));
                    assert(in_layers(gs[gs.len() - 1].layers, x));
                }
            }
            if in_groups(gs, x) {
                let g = choose|g: int| 0 <= g < gs.len() && #[trigger] in_layers(gs[g].layers, x);
                if g < t.len() {
                    assert(t[g] == gs[g]);
                    assert(in_groups(t, x));
                    assert(a.contains(x));
                    let i = choose|i: int| 0 <= i < a.len() && a[i] == x;
                    assert((a + b)[i] == x);
                } else {
                    assert(b.contains(x));
                    let i = choose|i: int| 0 <= i < b.len() && b[i] == x;
                    assert((a + b)[a.len() + i] == x);
                }
            }
        }
    }
}

/// The conditions of every layer of sets are exactly those gathered from them.
pub proof fn lemma_sets_conditions(ss: Seq<SpecLayerSet>)
    ensures
        forall|x: SpecCondition| #[trigger] sets_conditions(ss).contains(x) <==> in_sets(ss, x),
    decreases ss.len(),
{
    if ss.len() > 0 {
        let t = ss.drop_last();
        lemma_sets_conditions(t);
        lemma_groups_conditions(ss.last().layer_groups);
        let a = sets_conditions(t);
        let b = groups_conditions(ss.last().layer_groups);
        assert forall|x: SpecCondition| #[trigger] sets_conditions(ss).contains(x) <==> in_sets(ss, x) by {
            if sets_conditions(ss).contains(x) {
                let i = choose|i: int| 0 <= i < (a + b).len() && (a + b)[i] == x;
                if i < a.len() {
                    assert(a[i] == x);
                    assert(a.contains(x));
                    let s = choose|s: int| 0 <= s < t.len() && #[trigger] in_groups(t[s].layer_groups, x);
                    assert(ss[s] == t[s]);
                } else {
                    assert(b[i - a.len()] == x);
                    assert(b.contains(x));
                    assert(in_groups(ss[ss.len() - 1].layer_groups, x));
                }
            }
            if in_sets(ss, x) {
                let s = choose|s: int| 0 <= s < ss.len() && #[trigger] in_groups(ss[s].layer_groups, x);
                if s < t.len() {
                    assert(t[s] == ss[s]);
                    assert(in_sets(t, x));
                    assert(a.contains(x));
                    let i = choose|i: int| 0 <= i < a.len() && a[i] == x;
                    assert((a + b)[i] == x);
                } else {
                    assert(b.contains(x));
                    let i = choose|i: int| 0 <= i < b.len() && b[i] == x;
                    assert((a + b)[a.len() + i] == x);
                }
            }
        }
    }
}

/// The colors gathered from conditions are exactly those some condition names.
proof fn lemma_conditions_colors(cs: Seq<SpecCondition>)
    ensures
        forall|col: Color<Seq<char>>| #[trigger] conditions_colors(cs).contains(col) <==> exists|x: SpecCondition|
            #[trigger] cs.contains(x) && condition_colors(x).contains(col),
    decreases cs.len(),
{
    if cs.len() > 0 {
        let t = cs.drop_last();
        lemma_conditions_colors(t);
        let a = conditions_colors(t);
        let b = condition_colors(cs.last());
        assert forall|col: Color<Seq<char>>| #[trigger] conditions_colors(cs).contains(col) <==> exists|x: SpecCondition|
            #[trigger] cs.contains(x) && condition_colors(x).contains(col) by {
            if conditions_colors(cs).contains(col) {
                let i = choose|i: int| 0 <= i < (a + b).len() && (a + b)[i] == col;
                if i < a.len() {
                    assert(a[i] == col);
                    assert(a.contains(col));
                    let x = choose|x: SpecCondition| #[trigger] t.contains(x) && condition_colors(x).contains(col);
                    let k = choose|k: int| 0 <= k < t.len() && t[k] == x;
                    assert(cs[k] == x);
                    assert(cs.contains(x));
                } else {
                    assert(b[i - a.len()] == col);
                    assert(cs[cs.len() - 1] == cs.last());
                    assert(cs.contains(cs.last()));
                }
            }
            if exists|x: SpecCondition| #[trigger] cs.contains(x) && condition_colors(x).contains(col) {
                let x = choose|x: SpecCondition| #[trigger] cs.contains(x) && condition_colors(x).contains(col);
                let k = choose|k: int| 0 <= k < cs.len() && cs[k] == x;
                let j = choose|j: int| 0 <= j < condition_colors(x).len() && condition_colors(x)[j] == col;
                if k < t.len() {
                    assert(t[k] == x);
                    assert(t.contains(x));
                    assert(a.contains(col));
                    let i = choose|i: int| 0 <= i < a.len() && a[i] == col;
                    assert((a + b)[i] == col);
                } else {
                    assert((a + b)[a.len() + j] == col);
                }
            }
        }
    }
}

/// Whether condition `x` names the color `col`: a dye of it, or a tissue that may have it.
pub open spec fn condition_names_color(x: SpecCondition, col: Color<Seq<char>>) -> bool {
    x == SpecCondition::Dye(col) || (x matches SpecCondition::TissueMayHaveColor(v) && v.contains(col))
}

/// A condition's colors are the colors it names.
proof fn lemma_condition_colors(x: SpecCondition, col: Color<Seq<char>>)
    ensures
        condition_colors(x).contains(col) <==> condition_names_color(x, col),
{
    match x {
        SpecCondition::Dye(d) => {
            if d == col {
                assert(seq![d][0] == col);
            }
        },
        _ => {},
    }
}

/// After gathering what a creature names, every color that a dye or a tissue
/// condition of any of its layers names is offered (by name), and every
/// offered color is named by such a condition.
pub proof fn law_gathered_colors(c: SpecCreature)
    ensures
        forall|col: Color<Seq<char>>| #[trigger] creature_names_color(c, col) ==> exists|j: int|
            0 <= j < shared_of(c).colors.len() && color_name(#[trigger] shared_of(c).colors[j]) == color_name(col),
        forall|j: int| 0 <= j < shared_of(c).colors.len() ==> creature_names_color(c, #[trigger] shared_of(c).colors[j]),
{
    let cs = sets_conditions(c.layer_sets);
    let raw = conditions_colors(cs);
    lemma_sets_conditions(c.layer_sets);
    lemma_conditions_colors(cs);
    law_sorted_unique(raw, |x: Color<Seq<char>>| color_name(x));
    let r = shared_of(c).colors;
    assert forall|col: Color<Seq<char>>| #[trigger] creature_names_color(c, col) implies exists|j: int|
        0 <= j < r.len() && color_name(#[trigger] r[j]) == color_name(col) by {
        let x = choose|x: SpecCondition|
            #[trigger] in_sets(c.layer_sets, x) && (x == SpecCondition::Dye(col) || (x matches SpecCondition::TissueMayHaveColor(
                v,
            ) && v.contains(col)));
        lemma_condition_colors(x, col);
        assert(cs.contains(x));
        assert(raw.contains(col));
        let i = choose|i: int| 0 <= i < raw.len() && raw[i] == col;
        assert(exists|j: int| 0 <= j < r.len() && color_name(#[trigger] r[j]) == color_name(raw[i]));
    }
    assert forall|j: int| 0 <= j < r.len() implies creature_names_color(c, #[trigger] r[j]) by {
        let col = r[j];
        assert(raw.contains(col));
        let x = choose|x: SpecCondition| #[trigger] cs.contains(x) && condition_colors(x).contains(col);
        lemma_condition_colors(x, col);
        assert(in_sets(c.layer_sets, x));
    }
}

} // verus!
