//! What a creature names, collected in the order it names it.
use vstd::prelude::*;
use crate::condition::{Condition, Palette, SpecCondition};
use crate::copy::{copy_colors, copy_conditions, copy_palettes};
use crate::creature::{Creature, SpecCreature, SpecSimpleLayer};
use crate::group::{LayerGroup, SpecLayerGroup};
use crate::items::{Color, ItemType};
use crate::layer::{Layer, SpecLayer};
use crate::layer_set::{LayerSet, SpecLayerSet};
use crate::ordering::{dedup_by_key, sort_by_key, sorted_unique, strip_keys, keyed_view};
use crate::state::State;
use crate::tokens::{Caste, Metal};

verus! {

/// The conditions of `ls`, layer after layer.
pub open spec fn layers_conditions(ls: Seq<SpecLayer>) -> Seq<SpecCondition>
    decreases ls.len(),
{
    if ls.len() == 0 {
        seq![]
    } else {
        layers_conditions(ls.drop_last()) + ls.last().conditions
    }
}

/// The conditions of the layers of `gs`, group after group.
pub open spec fn groups_conditions(gs: Seq<SpecLayerGroup>) -> Seq<SpecCondition>
    decreases gs.len(),
{
    if gs.len() == 0 {
        seq![]
    } else {
        groups_conditions(gs.drop_last()) + layers_conditions(gs.last().layers)
    }
}

/// The conditions of the layers of the groups of `ss`, set after set.
pub open spec fn sets_conditions(ss: Seq<SpecLayerSet>) -> Seq<SpecCondition>
    decreases ss.len(),
{
    if ss.len() == 0 {
        seq![]
    } else {
        sets_conditions(ss.drop_last()) + groups_conditions(ss.last().layer_groups)
    }
}

/// The palettes of `ss`, set after set.
pub open spec fn sets_palettes(ss: Seq<SpecLayerSet>) -> Seq<Palette<Seq<char>>>
    decreases ss.len(),
{
    if ss.len() == 0 {
        seq![]
    } else {
        sets_palettes(ss.drop_last()) + ss.last().palettes
    }
}

/// `s` where it is a custom state.
pub open spec fn custom_state(s: State<Seq<char>>) -> Seq<State<Seq<char>>> {
    if s is Custom {
        seq![s]
    } else {
        seq![]
    }
}

/// The custom states of `ls`: each layer's state, then its sub-state.
pub open spec fn simple_layers_states(ls: Seq<SpecSimpleLayer>) -> Seq<State<Seq<char>>>
    decreases ls.len(),
{
    if ls.len() == 0 {
        seq![]
    } else {
        let l = ls.last();
        simple_layers_states(ls.drop_last()) + custom_state(l.state) + match l.sub_state {
            Some(s) => custom_state(s),
            None => seq![],
        }
    }
}

/// The custom states of `ss`.
pub open spec fn sets_states(ss: Seq<SpecLayerSet>) -> Seq<State<Seq<char>>>
    decreases ss.len(),
{
    if ss.len() == 0 {
        seq![]
    } else {
        sets_states(ss.drop_last()) + custom_state(ss.last().state)
    }
}

/// The colors a condition names.
pub open spec fn condition_colors(c: SpecCondition) -> Seq<Color<Seq<char>>> {
    match c {
        SpecCondition::TissueMayHaveColor(v) => v,
        SpecCondition::Dye(col) => seq![col],
        _ => seq![],
    }
}

/// The colors `cs` name, in order.
pub open spec fn conditions_colors(cs: Seq<SpecCondition>) -> Seq<Color<Seq<char>>>
    decreases cs.len(),
{
    if cs.len() == 0 {
        seq![]
    } else {
        conditions_colors(cs.drop_last()) + condition_colors(cs.last())
    }
}

/// The item names of an item condition, sorted, each once.
pub open spec fn sorted_items(items: Seq<Seq<char>>) -> Seq<Seq<char>> {
    sorted_unique(items, |i: Seq<char>| i)
}

/// Each item an item condition names, with its item type.
pub open spec fn condition_items(c: SpecCondition) -> Seq<(ItemType<Seq<char>>, Seq<char>)> {
    match c {
        SpecCondition::ItemWorn(t, items) | SpecCondition::ShutOffIfItemPresent(t, items) => sorted_items(items).map_values(
            |i: Seq<char>| (t, i),
        ),
        _ => seq![],
    }
}

/// The items `cs` name, in order.
pub open spec fn conditions_items(cs: Seq<SpecCondition>) -> Seq<(ItemType<Seq<char>>, Seq<char>)>
    decreases cs.len(),
{
    if cs.len() == 0 {
        seq![]
    } else {
        conditions_items(cs.drop_last()) + condition_items(cs.last())
    }
}

/// The item group an item condition names where it names three items or more.
pub open spec fn condition_item_groups(c: SpecCondition) -> Seq<(ItemType<Seq<char>>, Seq<Seq<char>>)> {
    match c {
        SpecCondition::ItemWorn(t, items) | SpecCondition::ShutOffIfItemPresent(t, items) => if sorted_items(
            items,
        ).len() >= 3 {
            seq![(t, sorted_items(items))]
        } else {
            seq![]
        },
        _ => seq![],
    }
}

/// The item groups `cs` name, in order.
pub open spec fn conditions_item_groups(cs: Seq<SpecCondition>) -> Seq<(ItemType<Seq<char>>, Seq<Seq<char>>)>
    decreases cs.len(),
{
    if cs.len() == 0 {
        seq![]
    } else {
        conditions_item_groups(cs.drop_last()) + condition_item_groups(cs.last())
    }
}

/// The custom caste a condition names.
pub open spec fn condition_castes(c: SpecCondition) -> Seq<Caste<Seq<char>>> {
    match c {
        SpecCondition::Caste(Caste::Custom(n)) => seq![Caste::Custom(n)],
        _ => seq![],
    }
}

/// The custom castes `cs` name, in order.
pub open spec fn conditions_castes(cs: Seq<SpecCondition>) -> Seq<Caste<Seq<char>>>
    decreases cs.len(),
{
    if cs.len() == 0 {
        seq![]
    } else {
        conditions_castes(cs.drop_last()) + condition_castes(cs.last())
    }
}

/// The custom conditions among `cs`, in order.
pub open spec fn conditions_customs(cs: Seq<SpecCondition>) -> Seq<SpecCondition>
    decreases cs.len(),
{
    if cs.len() == 0 {
        seq![]
    } else if cs.last() is Custom {
        conditions_customs(cs.drop_last()).push(cs.last())
    } else {
        conditions_customs(cs.drop_last())
    }
}

/// The random part groups (name and range) `cs` name, in order.
pub open spec fn conditions_part_groups(cs: Seq<SpecCondition>) -> Seq<(Seq<char>, u32)>
    decreases cs.len(),
{
    if cs.len() == 0 {
        seq![]
    } else {
        match cs.last() {
            SpecCondition::RandomPartIndex(n, _, r) => conditions_part_groups(cs.drop_last()).push((n, r)),
            _ => conditions_part_groups(cs.drop_last()),
        }
    }
}

/// The custom metals `cs` name, in order.
pub open spec fn conditions_metals(cs: Seq<SpecCondition>) -> Seq<Metal<Seq<char>>>
    decreases cs.len(),
{
    if cs.len() == 0 {
        seq![]
    } else {
        match cs.last() {
            SpecCondition::MaterialType(Metal::Custom(n)) => conditions_metals(cs.drop_last()).push(Metal::Custom(n)),
            _ => conditions_metals(cs.drop_last()),
        }
    }
}

/// The custom caste of a creature.
pub open spec fn creature_caste(c: SpecCreature) -> Seq<Caste<Seq<char>>> {
    match c.caste {
        Some(Caste::Custom(n)) => seq![Caste::Custom(n)],
        _ => seq![],
    }
}

/// The conditions of the layers of `ls`.
fn layers_conds(ls: &Vec<Layer>) -> (r: Vec<Condition>)
    ensures
        r@.map_values(|c: Condition| c@) == layers_conditions(ls@.map_values(|l: Layer| l@)),
{
    let ghost v = ls@.map_values(|l: Layer| l@);
    let mut r: Vec<Condition> = Vec::new();
    let mut k: usize = 0;
    assert(r@.map_values(|c: Condition| c@) =~= layers_conditions(v.take(0)));
    while k < ls.len()
        invariant
            v == ls@.map_values(|l: Layer| l@),
            k <= v.len(),
            r@.map_values(|c: Condition| c@) == layers_conditions(v.take(k as int)),
        decreases v.len() - k,
    {
        assert(v.take(k + 1).drop_last() =~= v.take(k as int));
        assert(v.take(k + 1).last() == ls@[k as int]@);
        let ghost before = r@.map_values(|c: Condition| c@);
        let mut more = copy_conditions(&ls[k].conditions);
        let ghost mv = more@.map_values(|c: Condition| c@);
        r.append(&mut more);
        assert(r@.map_values(|c: Condition| c@) =~= before + mv);
        k = k + 1;
    }
    assert(v.take(v.len() as int) =~= v);
    r
}

/// The conditions of the layers of the groups `gs`.
fn groups_conds(gs: &Vec<LayerGroup>) -> (r: Vec<Condition>)
    ensures
        r@.map_values(|c: Condition| c@) == groups_conditions(gs@.map_values(|g: LayerGroup| g@)),
{
    let ghost v = gs@.map_values(|g: LayerGroup| g@);
    let mut r: Vec<Condition> = Vec::new();
    let mut k: usize = 0;
    assert(r@.map_values(|c: Condition| c@) =~= groups_conditions(v.take(0)));
    while k < gs.len()
        invariant
            v == gs@.map_values(|g: LayerGroup| g@),
            k <= v.len(),
            r@.map_values(|c: Condition| c@) == groups_conditions(v.take(k as int)),
        decreases v.len() - k,
    {
        assert(v.take(k + 1).drop_last() =~= v.take(k as int));
        assert(v.take(k + 1).last() == gs@[k as int]@);
        let ghost before = r@.map_values(|c: Condition| c@);
        let mut more = layers_conds(&gs[k].layers);
        let ghost mv = more@.map_values(|c: Condition| c@);
        r.append(&mut more);
        assert(r@.map_values(|c: Condition| c@) =~= before + mv);
        k = k + 1;
    }
    assert(v.take(v.len() as int) =~= v);
    r
}

/// The conditions of every layer of the sets `ss`.
pub fn sets_conds(ss: &Vec<LayerSet>) -> (r: Vec<Condition>)
    ensures
        r@.map_values(|c: Condition| c@) == sets_conditions(ss@.map_values(|s: LayerSet| s@)),
{
    let ghost v = ss@.map_values(|s: LayerSet| s@);
    let mut r: Vec<Condition> = Vec::new();
    let mut k: usize = 0;
    assert(r@.map_values(|c: Condition| c@) =~= sets_conditions(v.take(0)));
    while k < ss.len()
        invariant
            v == ss@.map_values(|s: LayerSet| s@),
            k <= v.len(),
            r@.map_values(|c: Condition| c@) == sets_conditions(v.take(k as int)),
        decreases v.len() - k,
    {
        assert(v.take(k + 1).drop_last() =~= v.take(k as int));
        assert(v.take(k + 1).last() == ss@[k as int]@);
        let ghost before = r@.map_values(|c: Condition| c@);
        let mut more = groups_conds(&ss[k].layer_groups);
        let ghost mv = more@.map_values(|c: Condition| c@);
        r.append(&mut more);
        assert(r@.map_values(|c: Condition| c@) =~= before + mv);
        k = k + 1;
    }
    assert(v.take(v.len() as int) =~= v);
    r
}

/// The palettes of the sets `ss`.
pub fn sets_pals(ss: &Vec<LayerSet>) -> (r: Vec<Palette>)
    ensures
        r@.map_values(|p: Palette| p@) == sets_palettes(ss@.map_values(|s: LayerSet| s@)),
{
    let ghost v = ss@.map_values(|s: LayerSet| s@);
    let mut r: Vec<Palette> = Vec::new();
    let mut k: usize = 0;
    assert(r@.map_values(|p: Palette| p@) =~= sets_palettes(v.take(0)));
    while k < ss.len()
        invariant
            v == ss@.map_values(|s: LayerSet| s@),
            k <= v.len(),
            r@.map_values(|p: Palette| p@) == sets_palettes(v.take(k as int)),
        decreases v.len() - k,
    {
        assert(v.take(k + 1).drop_last() =~= v.take(k as int));
        assert(v.take(k + 1).last() == ss@[k as int]@);
        let ghost before = r@.map_values(|p: Palette| p@);
        let mut more = copy_palettes(&ss[k].palettes);
        let ghost mv = more@.map_values(|p: Palette| p@);
        r.append(&mut more);
        assert(r@.map_values(|p: Palette| p@) =~= before + mv);
        k = k + 1;
    }
    assert(v.take(v.len() as int) =~= v);
    r
}

/// The custom state `s`, if it is one, appended to `out`.
fn push_custom_state(out: &mut Vec<State>, s: &State)
    ensures
        final(out)@.map_values(|x: State| x@) == old(out)@.map_values(|x: State| x@) + custom_state(s@),
{
    let ghost before = out@.map_values(|x: State| x@);
    if let State::Custom(n) = s {
        out.push(State::Custom(n.clone()));
        assert(out@.map_values(|x: State| x@) =~= before + custom_state(s@));
    } else {
        assert(out@.map_values(|x: State| x@) =~= before + custom_state(s@));
    }
}

/// The custom states of a creature: those of its simple layers, then those of its sets.
pub fn creature_states(c: &Creature) -> (r: Vec<State>)
    ensures
        r@.map_values(|s: State| s@) == simple_layers_states(c@.simple_layers) + sets_states(c@.layer_sets),
{
    let ghost sl = c@.simple_layers;
    let mut r: Vec<State> = Vec::new();
    let mut k: usize = 0;
    assert(r@.map_values(|s: State| s@) =~= simple_layers_states(sl.take(0)));
    while k < c.simple_layers.len()
        invariant
            sl == c@.simple_layers,
            k <= sl.len(),
            r@.map_values(|s: State| s@) == simple_layers_states(sl.take(k as int)),
        decreases sl.len() - k,
    {
        assert(sl.take(k + 1).drop_last() =~= sl.take(k as int));
        assert(sl.take(k + 1).last() == c.simple_layers@[k as int]@);
        let l = &c.simple_layers[k];
        push_custom_state(&mut r, &l.state);
        let ghost mid = r@.map_values(|s: State| s@);
        match &l.sub_state {
            Some(s) => push_custom_state(&mut r, s),
            None => {
                assert(r@.map_values(|s: State| s@) =~= mid + Seq::<State<Seq<char>>>::empty());
            },
        }
        k = k + 1;
    }
    assert(sl.take(sl.len() as int) =~= sl);
    let ghost mid = r@.map_values(|s: State| s@);
    let ghost ss = c@.layer_sets;
    let mut k: usize = 0;
    assert(mid + sets_states(ss.take(0)) =~= mid);
    while k < c.layer_sets.len()
        invariant
            ss == c@.layer_sets,
            k <= ss.len(),
            r@.map_values(|s: State| s@) == mid + sets_states(ss.take(k as int)),
        decreases ss.len() - k,
    {
        assert(ss.take(k + 1).drop_last() =~= ss.take(k as int));
        assert(ss.take(k + 1).last() == c.layer_sets@[k as int]@);
        push_custom_state(&mut r, &c.layer_sets[k].state);
        k = k + 1;
    }
    assert(ss.take(ss.len() as int) =~= ss);
    r
}

/// The colors `cs` name, in order.
pub fn colors_of(cs: &Vec<Condition>) -> (r: Vec<Color>)
    ensures
        r@.map_values(|c: Color| c@) == conditions_colors(cs@.map_values(|c: Condition| c@)),
{
    let ghost v = cs@.map_values(|c: Condition| c@);
    let mut r: Vec<Color> = Vec::new();
    let mut k: usize = 0;
    assert(r@.map_values(|c: Color| c@) =~= conditions_colors(v.take(0)));
    while k < cs.len()
        invariant
            v == cs@.map_values(|c: Condition| c@),
            k <= v.len(),
            r@.map_values(|c: Color| c@) == conditions_colors(v.take(k as int)),
        decreases v.len() - k,
    {
        assert(v.take(k + 1).drop_last() =~= v.take(k as int));
        assert(v.take(k + 1).last() == cs@[k as int]@);
        let ghost before = r@.map_values(|c: Color| c@);
        match &cs[k] {
            Condition::TissueMayHaveColor(colors) => {
                let mut more = copy_colors(colors);
                let ghost mv = more@.map_values(|c: Color| c@);
                r.append(&mut more);
                assert(r@.map_values(|c: Color| c@) =~= before + mv);
            },
            Condition::Dye(col) => {
                r.push(col.duplicate());
                assert(r@.map_values(|c: Color| c@) =~= before + seq![col@]);
            },
            _ => {
                assert(r@.map_values(|c: Color| c@) =~= before + Seq::<Color<Seq<char>>>::empty());
            },
        }
        k = k + 1;
    }
    assert(v.take(v.len() as int) =~= v);
    r
}

/// The names of `items`, sorted, each once.
pub fn sorted_item_names(items: &Vec<String>) -> (r: Vec<String>)
    ensures
        r.deep_view() == sorted_items(items.deep_view()),
{
    let ghost xs = items.deep_view();
    let mut pairs: Vec<(String, String)> = Vec::new();
    let mut k: usize = 0;
    while k < items.len()
        invariant
            xs == items.deep_view(),
            k <= xs.len(),
            pairs@.len() == k,
            forall|j: int| 0 <= j < k ==> (#[trigger] pairs@[j]).0@ == xs[j] && pairs@[j].1@ == xs[j],
        decreases xs.len() - k,
    {
        assert(items@[k as int]@ == xs[k as int]);
        pairs.push((items[k].clone(), items[k].clone()));
        k = k + 1;
    }
    assert(keyed_view(pairs@) =~= xs.map_values(|x: Seq<char>| ((|i: Seq<char>| i)(x), x)));
    let r = strip_keys(dedup_by_key(sort_by_key(pairs)));
    assert(r.deep_view() =~= r@.map_values(|t: String| t@));
    r
}

/// Each item that `cs` name with its item type, in order.
pub fn items_of(cs: &Vec<Condition>) -> (r: Vec<(ItemType, String)>)
    ensures
        r@.map_values(|x: (ItemType, String)| (x.0@, x.1@)) == conditions_items(cs@.map_values(|c: Condition| c@)),
{
    let ghost v = cs@.map_values(|c: Condition| c@);
    let mut r: Vec<(ItemType, String)> = Vec::new();
    let mut k: usize = 0;
    assert(r@.map_values(|x: (ItemType, String)| (x.0@, x.1@)) =~= conditions_items(v.take(0)));
    while k < cs.len()
        invariant
            v == cs@.map_values(|c: Condition| c@),
            k <= v.len(),
            r@.map_values(|x: (ItemType, String)| (x.0@, x.1@)) == conditions_items(v.take(k as int)),
        decreases v.len() - k,
    {
        assert(v.take(k + 1).drop_last() =~= v.take(k as int));
        assert(v.take(k + 1).last() == cs@[k as int]@);
        let ghost before = r@.map_values(|x: (ItemType, String)| (x.0@, x.1@));
        match &cs[k] {
            Condition::ItemWorn(t, items) | Condition::ShutOffIfItemPresent(t, items) => {
                let names = sorted_item_names(items);
                let ghost add = sorted_items(items.deep_view()).map_values(|i: Seq<char>| (t@, i));
                let mut j: usize = 0;
                while j < names.len()
                    invariant
                        j <= names@.len(),
                        r@.map_values(|x: (ItemType, String)| (x.0@, x.1@)) == before + add.take(j as int),
                        add == names.deep_view().map_values(|i: Seq<char>| (t@, i)),
                    decreases names@.len() - j,
                {
                    let ghost b2 = r@.map_values(|x: (ItemType, String)| (x.0@, x.1@));
                    r.push((t.duplicate(), names[j].clone()));
                    assert(add.take(j + 1) =~= add.take(j as int).push(add[j as int]));
                    assert(r@.map_values(|x: (ItemType, String)| (x.0@, x.1@)) =~= b2.push(add[j as int]));
                    j = j + 1;
                }
                assert(add.take(names@.len() as int) =~= add);
            },
            _ => {
                assert(r@.map_values(|x: (ItemType, String)| (x.0@, x.1@)) =~= before + Seq::<
                    (ItemType<Seq<char>>, Seq<char>),
                >::empty());
            },
        }
        k = k + 1;
    }
    assert(v.take(v.len() as int) =~= v);
    r
}

/// The item groups (three items or more) that `cs` name, in order.
pub fn item_groups_of(cs: &Vec<Condition>) -> (r: Vec<(ItemType, Vec<String>)>)
    ensures
        r@.map_values(|x: (ItemType, Vec<String>)| (x.0@, x.1.deep_view())) == conditions_item_groups(
            cs@.map_values(|c: Condition| c@),
        ),
{
    let ghost v = cs@.map_values(|c: Condition| c@);
    let mut r: Vec<(ItemType, Vec<String>)> = Vec::new();
    let mut k: usize = 0;
    assert(r@.map_values(|x: (ItemType, Vec<String>)| (x.0@, x.1.deep_view())) =~= conditions_item_groups(v.take(0)));
    while k < cs.len()
        invariant
            v == cs@.map_values(|c: Condition| c@),
            k <= v.len(),
            r@.map_values(|x: (ItemType, Vec<String>)| (x.0@, x.1.deep_view())) == conditions_item_groups(
                v.take(k as int),
            ),
        decreases v.len() - k,
    {
        assert(v.take(k + 1).drop_last() =~= v.take(k as int));
        assert(v.take(k + 1).last() == cs@[k as int]@);
        let ghost before = r@.map_values(|x: (ItemType, Vec<String>)| (x.0@, x.1.deep_view()));
        match &cs[k] {
            Condition::ItemWorn(t, items) | Condition::ShutOffIfItemPresent(t, items) => {
                let names = sorted_item_names(items);
                if names.len() >= 3 {
                    let ghost nv = names.deep_view();
                    r.push((t.duplicate(), names));
                    assert(r@.map_values(|x: (ItemType, Vec<String>)| (x.0@, x.1.deep_view())) =~= before + seq![
                        (t@, nv),
                    ]);
                } else {
                    assert(r@.map_values(|x: (ItemType, Vec<String>)| (x.0@, x.1.deep_view())) =~= before + Seq::<
                        (ItemType<Seq<char>>, Seq<Seq<char>>),
                    >::empty());
                }
            },
            _ => {
                assert(r@.map_values(|x: (ItemType, Vec<String>)| (x.0@, x.1.deep_view())) =~= before + Seq::<
                    (ItemType<Seq<char>>, Seq<Seq<char>>),
                >::empty());
            },
        }
        k = k + 1;
    }
    assert(v.take(v.len() as int) =~= v);
    r
}

/// The custom castes of a creature: its own, then those its conditions name.
pub fn castes_of(c: &Creature, cs: &Vec<Condition>) -> (r: Vec<Caste>)
    ensures
        r@.map_values(|x: Caste| x@) == creature_caste(c@) + conditions_castes(cs@.map_values(|c: Condition| c@)),
{
    let ghost v = cs@.map_values(|c: Condition| c@);
    let mut r: Vec<Caste> = Vec::new();
    if let Some(Caste::Custom(n)) = &c.caste {
        r.push(Caste::Custom(n.clone()));
    }
    let ghost mid = r@.map_values(|x: Caste| x@);
    assert(mid =~= creature_caste(c@));
    let mut k: usize = 0;
    assert(mid + conditions_castes(v.take(0)) =~= mid);
    while k < cs.len()
        invariant
            v == cs@.map_values(|c: Condition| c@),
            k <= v.len(),
            r@.map_values(|x: Caste| x@) == mid + conditions_castes(v.take(k as int)),
        decreases v.len() - k,
    {
        assert(v.take(k + 1).drop_last() =~= v.take(k as int));
        assert(v.take(k + 1).last() == cs@[k as int]@);
        let ghost before = r@.map_values(|x: Caste| x@);
        if let Condition::Caste(Caste::Custom(n)) = &cs[k] {
            r.push(Caste::Custom(n.clone()));
            assert(r@.map_values(|x: Caste| x@) =~= before + condition_castes(v[k as int]));
        } else {
            assert(r@.map_values(|x: Caste| x@) =~= before + condition_castes(v[k as int]));
        }
        k = k + 1;
    }
    assert(v.take(v.len() as int) =~= v);
    r
}

/// The custom conditions among `cs`, in order.
pub fn customs_of(cs: &Vec<Condition>) -> (r: Vec<Condition>)
    ensures
        r@.map_values(|c: Condition| c@) == conditions_customs(cs@.map_values(|c: Condition| c@)),
{
    let ghost v = cs@.map_values(|c: Condition| c@);
    let mut r: Vec<Condition> = Vec::new();
    let mut k: usize = 0;
    assert(r@.map_values(|c: Condition| c@) =~= conditions_customs(v.take(0)));
    while k < cs.len()
        invariant
            v == cs@.map_values(|c: Condition| c@),
            k <= v.len(),
            r@.map_values(|c: Condition| c@) == conditions_customs(v.take(k as int)),
        decreases v.len() - k,
    {
        assert(v.take(k + 1).drop_last() =~= v.take(k as int));
        assert(v.take(k + 1).last() == cs@[k as int]@);
        let ghost before = r@.map_values(|c: Condition| c@);
        if let Condition::Custom(s) = &cs[k] {
            r.push(Condition::Custom(s.clone()));
            assert(r@.map_values(|c: Condition| c@) =~= before.push(v[k as int]));
        }
        k = k + 1;
    }
    assert(v.take(v.len() as int) =~= v);
    r
}

/// The random part groups (name and range) that `cs` name, in order.
pub fn part_groups_of(cs: &Vec<Condition>) -> (r: Vec<(String, u32)>)
    ensures
        r@.map_values(|x: (String, u32)| (x.0@, x.1)) == conditions_part_groups(cs@.map_values(|c: Condition| c@)),
{
    let ghost v = cs@.map_values(|c: Condition| c@);
    let mut r: Vec<(String, u32)> = Vec::new();
    let mut k: usize = 0;
    assert(r@.map_values(|x: (String, u32)| (x.0@, x.1)) =~= conditions_part_groups(v.take(0)));
    while k < cs.len()
        invariant
            v == cs@.map_values(|c: Condition| c@),
            k <= v.len(),
            r@.map_values(|x: (String, u32)| (x.0@, x.1)) == conditions_part_groups(v.take(k as int)),
        decreases v.len() - k,
    {
        assert(v.take(k + 1).drop_last() =~= v.take(k as int));
        assert(v.take(k + 1).last() == cs@[k as int]@);
        let ghost before = r@.map_values(|x: (String, u32)| (x.0@, x.1));
        if let Condition::RandomPartIndex(n, _, range) = &cs[k] {
            r.push((n.clone(), *range));
            assert(r@.map_values(|x: (String, u32)| (x.0@, x.1)) =~= before.push((n@, *range)));
        }
        k = k + 1;
    }
    assert(v.take(v.len() as int) =~= v);
    r
}

/// The custom metals that `cs` name, in order.
pub fn metals_of(cs: &Vec<Condition>) -> (r: Vec<Metal>)
    ensures
        r@.map_values(|m: Metal| m@) == conditions_metals(cs@.map_values(|c: Condition| c@)),
{
    let ghost v = cs@.map_values(|c: Condition| c@);
    let mut r: Vec<Metal> = Vec::new();
    let mut k: usize = 0;
    assert(r@.map_values(|m: Metal| m@) =~= conditions_metals(v.take(0)));
    while k < cs.len()
        invariant
            v == cs@.map_values(|c: Condition| c@),
            k <= v.len(),
            r@.map_values(|m: Metal| m@) == conditions_metals(v.take(k as int)),
        decreases v.len() - k,
    {
        assert(v.take(k + 1).drop_last() =~= v.take(k as int));
        assert(v.take(k + 1).last() == cs@[k as int]@);
        let ghost before = r@.map_values(|m: Metal| m@);
        if let Condition::MaterialType(Metal::Custom(n)) = &cs[k] {
            r.push(Metal::Custom(n.clone()));
            assert(r@.map_values(|m: Metal| m@) =~= before.push(Metal::Custom(n@)));
        }
        k = k + 1;
    }
    assert(v.take(v.len() as int) =~= v);
    r
}

} // verus!
