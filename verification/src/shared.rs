//! What the creatures of the loaded files name, gathered for the editor's menus.
use vstd::prelude::*;
use vstd::string::*;
use crate::condition::{condition_display, Condition, Palette, SpecCondition};
use crate::copy::{
    copy_castes, copy_colors, copy_conditions, copy_item_groups, copy_items, copy_metals, copy_palettes,
    copy_part_groups, copy_states,
};
use crate::creature::{Creature, SpecCreature};
use crate::gather::{
    castes_of, colors_of, conditions_castes, conditions_colors, conditions_customs, conditions_item_groups,
    conditions_items, conditions_metals, conditions_part_groups, creature_caste, creature_states, customs_of,
    item_groups_of, items_of, metals_of, part_groups_of, sets_conditions, sets_conds, sets_palettes, sets_pals,
    simple_layers_states, sets_states,
};
use crate::items::{color_name, item_type_equipment_name, Color, ItemType};
use crate::ordering::{sorted_distinct, 
    dedup_by_key, dedup_values, keyed_view, sort_by_key, sorted_unique, stable_sort, strip_keys, values_of,
};
use crate::state::{same_state, state_name, State};
use crate::text::{decimal, push_decimal, push_str};
use crate::tokens::{caste_name, metal_name, Caste, Metal};
use crate::words::{join_strings, join_with};

verus! {

/// The palettes, colors, items, castes, states, custom conditions, random part
/// groups and metals that creatures name.
#[derive(Clone, Debug, PartialEq)]
pub struct CreatureShared {
    pub palettes: Vec<Palette>,
    pub colors: Vec<Color>,
    pub items: Vec<(ItemType, String)>,
    pub item_groups: Vec<(ItemType, Vec<String>)>,
    pub castes: Vec<Caste>,
    pub states: Vec<State>,
    pub conditions: Vec<Condition>,
    pub random_part_groups: Vec<(String, u32)>,
    pub metals: Vec<Metal>,
}

/// The view of a [`CreatureShared`].
pub struct SpecCreatureShared {
    pub palettes: Seq<Palette<Seq<char>>>,
    pub colors: Seq<Color<Seq<char>>>,
    pub items: Seq<(ItemType<Seq<char>>, Seq<char>)>,
    pub item_groups: Seq<(ItemType<Seq<char>>, Seq<Seq<char>>)>,
    pub castes: Seq<Caste<Seq<char>>>,
    pub states: Seq<State<Seq<char>>>,
    pub conditions: Seq<SpecCondition>,
    pub random_part_groups: Seq<(Seq<char>, u32)>,
    pub metals: Seq<Metal<Seq<char>>>,
}

impl View for CreatureShared {
    type V = SpecCreatureShared;

    open spec fn view(&self) -> SpecCreatureShared {
        SpecCreatureShared {
            palettes: self.palettes@.map_values(|p: Palette| p@),
            colors: self.colors@.map_values(|c: Color| c@),
            items: self.items@.map_values(|i: (ItemType, String)| (i.0@, i.1@)),
            item_groups: self.item_groups@.map_values(|g: (ItemType, Vec<String>)| (g.0@, g.1.deep_view())),
            castes: self.castes@.map_values(|c: Caste| c@),
            states: self.states@.map_values(|s: State| s@),
            conditions: self.conditions@.map_values(|c: Condition| c@),
            random_part_groups: self.random_part_groups@.map_values(|g: (String, u32)| (g.0@, g.1)),
            metals: self.metals@.map_values(|m: Metal| m@),
        }
    }
}

/// Nothing gathered.
pub open spec fn spec_creature_shared_new() -> SpecCreatureShared {
    SpecCreatureShared {
        palettes: seq![],
        colors: seq![],
        items: seq![],
        item_groups: seq![],
        castes: seq![],
        states: seq![],
        conditions: seq![],
        random_part_groups: seq![],
        metals: seq![],
    }
}

impl CreatureShared {
    /// Nothing gathered.
    pub fn new() -> (r: Self)
        ensures
            r@ == spec_creature_shared_new(),
    {
        let r = CreatureShared {
            palettes: Vec::new(),
            colors: Vec::new(),
            items: Vec::new(),
            item_groups: Vec::new(),
            castes: Vec::new(),
            states: Vec::new(),
            conditions: Vec::new(),
            random_part_groups: Vec::new(),
            metals: Vec::new(),
        };
        assert(r@.palettes =~= seq![]);
        assert(r@.colors =~= seq![]);
        assert(r@.items =~= seq![]);
        assert(r@.item_groups =~= seq![]);
        assert(r@.castes =~= seq![]);
        assert(r@.states =~= seq![]);
        assert(r@.conditions =~= seq![]);
        assert(r@.random_part_groups =~= seq![]);
        assert(r@.metals =~= seq![]);
        r
    }

    /// Whether nothing is gathered.
    pub fn is_empty(&self) -> (r: bool)
        ensures
            r == (self@ == spec_creature_shared_new()),
    {
        let r = self.palettes.len() == 0 && self.colors.len() == 0 && self.items.len() == 0
            && self.item_groups.len() == 0 && self.castes.len() == 0 && self.states.len() == 0
            && self.conditions.len() == 0 && self.random_part_groups.len() == 0 && self.metals.len() == 0;
        proof {
            let v = self@;
            if r {
                assert(v.palettes =~= seq![]);
                assert(v.colors =~= seq![]);
                assert(v.items =~= seq![]);
                assert(v.item_groups =~= seq![]);
                assert(v.castes =~= seq![]);
                assert(v.states =~= seq![]);
                assert(v.conditions =~= seq![]);
                assert(v.random_part_groups =~= seq![]);
                assert(v.metals =~= seq![]);
            }
            if v == spec_creature_shared_new() {
                assert(v.palettes.len() == self.palettes@.len());
                assert(v.colors.len() == self.colors@.len());
                assert(v.items.len() == self.items@.len());
                assert(v.item_groups.len() == self.item_groups@.len());
                assert(v.castes.len() == self.castes@.len());
                assert(v.states.len() == self.states@.len());
                assert(v.conditions.len() == self.conditions@.len());
                assert(v.random_part_groups.len() == self.random_part_groups@.len());
                assert(v.metals.len() == self.metals@.len());
            }
        }
        r
    }
}

/// `a` followed by `b`, list by list.
pub open spec fn shared_append(a: SpecCreatureShared, b: SpecCreatureShared) -> SpecCreatureShared {
    SpecCreatureShared {
        palettes: a.palettes + b.palettes,
        colors: a.colors + b.colors,
        items: a.items + b.items,
        item_groups: a.item_groups + b.item_groups,
        castes: a.castes + b.castes,
        states: a.states + b.states,
        conditions: a.conditions + b.conditions,
        random_part_groups: a.random_part_groups + b.random_part_groups,
        metals: a.metals + b.metals,
    }
}

/// The key an item is sorted by: its equipment, a colon and its name.
pub open spec fn item_key(x: (ItemType<Seq<char>>, Seq<char>)) -> Seq<char> {
    item_type_equipment_name(x.0) + ":"@ + x.1
}

/// The key an item group is sorted by: its equipment, a colon and its names run together.
pub open spec fn item_group_key(x: (ItemType<Seq<char>>, Seq<Seq<char>>)) -> Seq<char> {
    item_type_equipment_name(x.0) + ":"@ + join_with(x.1, seq![])
}

/// The key a random part group is sorted by: its name followed by its range.
pub open spec fn part_group_key(x: (Seq<char>, u32)) -> Seq<char> {
    x.0 + decimal(x.1 as nat)
}

/// The custom states of a creature, sorted by name, without neighbours that are the same.
pub open spec fn sorted_states(xs: Seq<State<Seq<char>>>) -> Seq<State<Seq<char>>> {
    sorted_distinct(xs, |x: State<Seq<char>>| state_name(x))
}

/// What a creature names: each list sorted by its key and holding the first of
/// each key only (states: sorted by name, dropping repeats next to each other).
pub open spec fn shared_of(c: SpecCreature) -> SpecCreatureShared {
    let cs = sets_conditions(c.layer_sets);
    SpecCreatureShared {
        palettes: sorted_unique(sets_palettes(c.layer_sets), |p: Palette<Seq<char>>| p.name),
        colors: sorted_unique(conditions_colors(cs), |x: Color<Seq<char>>| color_name(x)),
        items: sorted_unique(conditions_items(cs), |x: (ItemType<Seq<char>>, Seq<char>)| item_key(x)),
        item_groups: sorted_unique(conditions_item_groups(cs), |x: (ItemType<Seq<char>>, Seq<Seq<char>>)| item_group_key(x)),
        castes: sorted_unique(creature_caste(c) + conditions_castes(cs), |x: Caste<Seq<char>>| caste_name(x)),
        states: sorted_states(simple_layers_states(c.simple_layers) + sets_states(c.layer_sets)),
        conditions: sorted_unique(conditions_customs(cs), |x: SpecCondition| condition_display(x)),
        random_part_groups: sorted_unique(conditions_part_groups(cs), |x: (Seq<char>, u32)| part_group_key(x)),
        metals: sorted_unique(conditions_metals(cs), |x: Metal<Seq<char>>| metal_name(x)),
    }
}

/// Every condition [`conditions_customs`] keeps is a custom one.
pub proof fn lemma_customs_are_custom(cs: Seq<SpecCondition>)
    ensures
        forall|k: int| 0 <= k < conditions_customs(cs).len() ==> (#[trigger] conditions_customs(cs)[k]) is Custom,
    decreases cs.len(),
{
    if cs.len() > 0 {
        lemma_customs_are_custom(cs.drop_last());
    }
}

/// Sorts keyed values and keeps the first of each key.
fn finish<T: View>(pairs: Vec<(String, T)>) -> (r: Vec<T>)
    ensures
        r@.map_values(|t: T| t@) == values_of(crate::ordering::dedup_keys(stable_sort(keyed_view(pairs@)))),
{
    strip_keys(dedup_by_key(sort_by_key(pairs)))
}

/// `pairs` without each element that is the same state as the last one kept before it.
fn dedup_states(pairs: Vec<(String, State)>) -> (r: Vec<(String, State)>)
    ensures
        keyed_view(r@) == dedup_values(keyed_view(pairs@)),
{
    let ghost orig = keyed_view(pairs@);
    let n = pairs.len();
    let mut rest = pairs;
    let mut r: Vec<(String, State)> = Vec::new();
    let mut i: usize = 0;
    assert(orig.take(0) =~= Seq::<(Seq<char>, State<Seq<char>>)>::empty());
    while i < n
        invariant
            n == orig.len(),
            i <= n,
            rest@.len() == n - i,
            keyed_view(rest@) == orig.skip(i as int),
            keyed_view(r@) == dedup_values(orig.take(i as int)),
        decreases n - i,
    {
        let ghost rv = keyed_view(r@);
        let ghost r0 = rest@;
        let x = rest.remove(0);
        proof {
            crate::ordering::lemma_keyed_remove_first(r0);
        }
        assert(keyed_view(rest@) =~= orig.skip(i + 1));
        assert((x.0@, x.1@) == orig[i as int]) by {
            assert(orig.skip(i as int)[0] == orig[i as int]);
        }
        assert(orig.take(i + 1).drop_last() =~= orig.take(i as int));
        let k = r.len();
        let same = k > 0 && same_state(&r[k - 1].1, &x.1);
        proof {
            if k > 0 {
                assert(rv.last() == (r@[k - 1].0@, r@[k - 1].1@));
            }
        }
        if !same {
            let ghost xv = (x.0@, x.1@);
            r.push(x);
            assert(keyed_view(r@) =~= rv.push(xv));
        }
        i = i + 1;
    }
    assert(orig.take(n as int) =~= orig);
    r
}

impl CreatureShared {
    /// Appends, list by list, a copy of what `creature_shared` gathered.
    pub fn append(&mut self, creature_shared: &CreatureShared)
        ensures
            final(self)@ == shared_append(old(self)@, creature_shared@),
    {
        let ghost a = self@;
        let ghost b = creature_shared@;
        let mut v = copy_palettes(&creature_shared.palettes);
        self.palettes.append(&mut v);
        let mut v = copy_colors(&creature_shared.colors);
        self.colors.append(&mut v);
        let mut v = copy_items(&creature_shared.items);
        self.items.append(&mut v);
        let mut v = copy_item_groups(&creature_shared.item_groups);
        self.item_groups.append(&mut v);
        let mut v = copy_castes(&creature_shared.castes);
        self.castes.append(&mut v);
        let mut v = copy_states(&creature_shared.states);
        self.states.append(&mut v);
        let mut v = copy_conditions(&creature_shared.conditions);
        self.conditions.append(&mut v);
        let mut v = copy_part_groups(&creature_shared.random_part_groups);
        self.random_part_groups.append(&mut v);
        let mut v = copy_metals(&creature_shared.metals);
        self.metals.append(&mut v);
        assert(self@.palettes =~= a.palettes + b.palettes);
        assert(self@.colors =~= a.colors + b.colors);
        assert(self@.items =~= a.items + b.items);
        assert(self@.item_groups =~= a.item_groups + b.item_groups);
        assert(self@.castes =~= a.castes + b.castes);
        assert(self@.states =~= a.states + b.states);
        assert(self@.conditions =~= a.conditions + b.conditions);
        assert(self@.random_part_groups =~= a.random_part_groups + b.random_part_groups);
        assert(self@.metals =~= a.metals + b.metals);
    }

    /// Replaces what is gathered by what `creature` names: its palettes,
    /// colors, items, item groups, custom castes, custom states, custom
    /// conditions, random part groups and custom metals, each list sorted by
    /// its key and holding the first of each key.
    pub fn update(&mut self, creature: Creature)
        ensures
            final(self)@ == shared_of(creature@),
    {
        let conds = sets_conds(&creature.layer_sets);
        proof {
            lemma_customs_are_custom(sets_conditions(creature@.layer_sets));
        }
        let palettes = sort_palettes(sets_pals(&creature.layer_sets));
        let colors = sort_colors(colors_of(&conds));
        let items = sort_items(items_of(&conds));
        let item_groups = sort_item_groups(item_groups_of(&conds));
        let castes = sort_castes(castes_of(&creature, &conds));
        let states = sort_states(creature_states(&creature));
        let customs = customs_of(&conds);
        assert forall|k: int| 0 <= k < customs@.len() implies (#[trigger] customs@[k])@ is Custom by {
            assert(customs@.map_values(|c: Condition| c@)[k] == customs@[k]@);
        }
        let conditions = sort_conditions(customs);
        let random_part_groups = sort_part_groups(part_groups_of(&conds));
        let metals = sort_metals(metals_of(&conds));
        *self = CreatureShared {
            palettes,
            colors,
            items,
            item_groups,
            castes,
            states,
            conditions,
            random_part_groups,
            metals,
        };
    }
}

/// Palettes sorted by name, the first of each name only.
fn sort_palettes(raw: Vec<Palette>) -> (r: Vec<Palette>)
    ensures
        r@.map_values(|x: Palette| x@) == sorted_unique(raw@.map_values(|x: Palette| x@), |x: Palette<Seq<char>>| x.name),
{
    let ghost xs = raw@.map_values(|x: Palette| x@);
    let mut pairs: Vec<(String, Palette)> = Vec::new();
    let mut rest = raw;
    let n = rest.len();
    let mut k: usize = 0;
    while k < n
        invariant
            n == xs.len(),
            k <= n,
            rest@.len() == n - k,
            forall|j: int| 0 <= j < rest@.len() ==> xs[k + j] == ({ let x = #[trigger] rest@[j]; x@ }),
            pairs@.len() == k,
            forall|j: int| 0 <= j < k ==> ({ let x = xs[j]; x.name }) == (#[trigger] pairs@[j]).0@ && xs[j] == ({ let x = pairs@[j].1; x@ }),
        decreases n - k,
    {
        let x = rest.remove(0);
        let key = x.name.clone();
        pairs.push((key, x));
        k = k + 1;
    }
    assert(keyed_view(pairs@) =~= xs.map_values(|y: Palette<Seq<char>>| ((|x: Palette<Seq<char>>| x.name)(y), y)));
    finish(pairs)
}

/// Colors sorted by name, the first of each name only.
fn sort_colors(raw: Vec<Color>) -> (r: Vec<Color>)
    ensures
        r@.map_values(|x: Color| x@) == sorted_unique(raw@.map_values(|x: Color| x@), |x: Color<Seq<char>>| color_name(x)),
{
    let ghost xs = raw@.map_values(|x: Color| x@);
    let mut pairs: Vec<(String, Color)> = Vec::new();
    let mut rest = raw;
    let n = rest.len();
    let mut k: usize = 0;
    while k < n
        invariant
            n == xs.len(),
            k <= n,
            rest@.len() == n - k,
            forall|j: int| 0 <= j < rest@.len() ==> xs[k + j] == ({ let x = #[trigger] rest@[j]; x@ }),
            pairs@.len() == k,
            forall|j: int| 0 <= j < k ==> ({ let x = xs[j]; color_name(x) }) == (#[trigger] pairs@[j]).0@ && xs[j] == ({ let x = pairs@[j].1; x@ }),
        decreases n - k,
    {
        let x = rest.remove(0);
        let key = x.name();
        pairs.push((key, x));
        k = k + 1;
    }
    assert(keyed_view(pairs@) =~= xs.map_values(|y: Color<Seq<char>>| ((|x: Color<Seq<char>>| color_name(x))(y), y)));
    finish(pairs)
}

/// Castes sorted by name, the first of each name only.
fn sort_castes(raw: Vec<Caste>) -> (r: Vec<Caste>)
    ensures
        r@.map_values(|x: Caste| x@) == sorted_unique(raw@.map_values(|x: Caste| x@), |x: Caste<Seq<char>>| caste_name(x)),
{
    let ghost xs = raw@.map_values(|x: Caste| x@);
    let mut pairs: Vec<(String, Caste)> = Vec::new();
    let mut rest = raw;
    let n = rest.len();
    let mut k: usize = 0;
    while k < n
        invariant
            n == xs.len(),
            k <= n,
            rest@.len() == n - k,
            forall|j: int| 0 <= j < rest@.len() ==> xs[k + j] == ({ let x = #[trigger] rest@[j]; x@ }),
            pairs@.len() == k,
            forall|j: int| 0 <= j < k ==> ({ let x = xs[j]; caste_name(x) }) == (#[trigger] pairs@[j]).0@ && xs[j] == ({ let x = pairs@[j].1; x@ }),
        decreases n - k,
    {
        let x = rest.remove(0);
        let key = x.name();
        pairs.push((key, x));
        k = k + 1;
    }
    assert(keyed_view(pairs@) =~= xs.map_values(|y: Caste<Seq<char>>| ((|x: Caste<Seq<char>>| caste_name(x))(y), y)));
    finish(pairs)
}

/// Metals sorted by name, the first of each name only.
fn sort_metals(raw: Vec<Metal>) -> (r: Vec<Metal>)
    ensures
        r@.map_values(|x: Metal| x@) == sorted_unique(raw@.map_values(|x: Metal| x@), |x: Metal<Seq<char>>| metal_name(x)),
{
    let ghost xs = raw@.map_values(|x: Metal| x@);
    let mut pairs: Vec<(String, Metal)> = Vec::new();
    let mut rest = raw;
    let n = rest.len();
    let mut k: usize = 0;
    while k < n
        invariant
            n == xs.len(),
            k <= n,
            rest@.len() == n - k,
            forall|j: int| 0 <= j < rest@.len() ==> xs[k + j] == ({ let x = #[trigger] rest@[j]; x@ }),
            pairs@.len() == k,
            forall|j: int| 0 <= j < k ==> ({ let x = xs[j]; metal_name(x) }) == (#[trigger] pairs@[j]).0@ && xs[j] == ({ let x = pairs@[j].1; x@ }),
        decreases n - k,
    {
        let x = rest.remove(0);
        let key = x.name();
        pairs.push((key, x));
        k = k + 1;
    }
    assert(keyed_view(pairs@) =~= xs.map_values(|y: Metal<Seq<char>>| ((|x: Metal<Seq<char>>| metal_name(x))(y), y)));
    finish(pairs)
}

/// Custom conditions sorted by their text, the first of each text only.
fn sort_conditions(raw: Vec<Condition>) -> (r: Vec<Condition>)
    requires
        forall|k: int| 0 <= k < raw@.len() ==> (#[trigger] raw@[k])@ is Custom,
    ensures
        r@.map_values(|x: Condition| x@) == sorted_unique(raw@.map_values(|x: Condition| x@), |x: SpecCondition| condition_display(x)),
{
    let ghost xs = raw@.map_values(|x: Condition| x@);
    let mut pairs: Vec<(String, Condition)> = Vec::new();
    let mut rest = raw;
    let n = rest.len();
    let mut k: usize = 0;
    while k < n
        invariant
            n == xs.len(),
            k <= n,
            rest@.len() == n - k,
            forall|j: int| 0 <= j < rest@.len() ==> xs[k + j] == ({ let x = #[trigger] rest@[j]; x@ }),
            forall|j: int| 0 <= j < rest@.len() ==> (#[trigger] rest@[j])@ is Custom,
            pairs@.len() == k,
            forall|j: int| 0 <= j < k ==> ({ let x = xs[j]; condition_display(x) }) == (#[trigger] pairs@[j]).0@ && xs[j] == ({ let x = pairs@[j].1; x@ }),
        decreases n - k,
    {
        let x = rest.remove(0);
        let key = x.display();
        pairs.push((key, x));
        k = k + 1;
    }
    assert(keyed_view(pairs@) =~= xs.map_values(|y: SpecCondition| ((|x: SpecCondition| condition_display(x))(y), y)));
    finish(pairs)
}

/// Items sorted by equipment and name, the first of each only.
fn sort_items(raw: Vec<(ItemType, String)>) -> (r: Vec<(ItemType, String)>)
    ensures
        r@.map_values(|x: (ItemType, String)| (x.0@, x.1@)) == sorted_unique(raw@.map_values(|x: (ItemType, String)| (x.0@, x.1@)), |x: (ItemType<Seq<char>>, Seq<char>)| item_key(x)),
{
    let ghost xs = raw@.map_values(|x: (ItemType, String)| (x.0@, x.1@));
    let mut pairs: Vec<(String, (ItemType, String))> = Vec::new();
    let mut rest = raw;
    let n = rest.len();
    let mut k: usize = 0;
    while k < n
        invariant
            n == xs.len(),
            k <= n,
            rest@.len() == n - k,
            forall|j: int| 0 <= j < rest@.len() ==> xs[k + j] == ({ let x = #[trigger] rest@[j]; (x.0@, x.1@) }),
            pairs@.len() == k,
            forall|j: int| 0 <= j < k ==> ({ let x = xs[j]; item_key(x) }) == (#[trigger] pairs@[j]).0@ && xs[j] == ({ let x = pairs@[j].1; (x.0@, x.1@) }),
        decreases n - k,
    {
        let x = rest.remove(0);
        let key = { let mut k = x.0.equipment_name(); push_str(&mut k, ":"); push_str(&mut k, x.1.as_str()); k };
        pairs.push((key, x));
        k = k + 1;
    }
    assert(keyed_view(pairs@) =~= xs.map_values(|y: (ItemType<Seq<char>>, Seq<char>)| ((|x: (ItemType<Seq<char>>, Seq<char>)| item_key(x))(y), y)));
    finish(pairs)
}

/// Random part groups sorted by name and range, the first of each only.
fn sort_part_groups(raw: Vec<(String, u32)>) -> (r: Vec<(String, u32)>)
    ensures
        r@.map_values(|x: (String, u32)| (x.0@, x.1)) == sorted_unique(raw@.map_values(|x: (String, u32)| (x.0@, x.1)), |x: (Seq<char>, u32)| part_group_key(x)),
{
    let ghost xs = raw@.map_values(|x: (String, u32)| (x.0@, x.1));
    let mut pairs: Vec<(String, (String, u32))> = Vec::new();
    let mut rest = raw;
    let n = rest.len();
    let mut k: usize = 0;
    while k < n
        invariant
            n == xs.len(),
            k <= n,
            rest@.len() == n - k,
            forall|j: int| 0 <= j < rest@.len() ==> xs[k + j] == ({ let x = #[trigger] rest@[j]; (x.0@, x.1) }),
            pairs@.len() == k,
            forall|j: int| 0 <= j < k ==> ({ let x = xs[j]; part_group_key(x) }) == (#[trigger] pairs@[j]).0@ && xs[j] == ({ let x = pairs@[j].1; (x.0@, x.1) }),
        decreases n - k,
    {
        let x = rest.remove(0);
        let key = { let mut k = x.0.clone(); push_decimal(&mut k, x.1 as u64); k };
        pairs.push((key, x));
        k = k + 1;
    }
    assert(keyed_view(pairs@) =~= xs.map_values(|y: (Seq<char>, u32)| ((|x: (Seq<char>, u32)| part_group_key(x))(y), y)));
    finish(pairs)
}

/// Item groups sorted by equipment and names, the first of each only.
fn sort_groups(raw: Vec<Group>) -> (r: Vec<Group>)
    ensures
        r@.map_values(|x: Group| x@) == sorted_unique(raw@.map_values(|x: Group| x@), |x: (ItemType<Seq<char>>, Seq<Seq<char>>)| item_group_key(x)),
{
    proof {
        reveal_strlit("");
    }
    assert(""@ =~= Seq::<char>::empty());
    let ghost xs = raw@.map_values(|x: Group| x@);
    let mut pairs: Vec<(String, Group)> = Vec::new();
    let mut rest = raw;
    let n = rest.len();
    let mut k: usize = 0;
    while k < n
        invariant
            n == xs.len(),
            k <= n,
            rest@.len() == n - k,
            forall|j: int| 0 <= j < rest@.len() ==> xs[k + j] == ({ let x = #[trigger] rest@[j]; x@ }),
            pairs@.len() == k,
            forall|j: int| 0 <= j < k ==> ({ let x = xs[j]; item_group_key(x) }) == (#[trigger] pairs@[j]).0@ && xs[j] == ({ let x = pairs@[j].1; x@ }),
        decreases n - k,
    {
        let x = rest.remove(0);
        assert(x@.0 == x.0@ && x@.1 == x.1.deep_view());
        let ghost before = pairs@;
        let key = { let mut k = x.0.equipment_name(); push_str(&mut k, ":"); push_str(&mut k, join_strings(&x.1, "").as_str()); k };
        pairs.push((key, x));
        proof {
            reveal_strlit("");
        }
        assert(""@ =~= Seq::<char>::empty());
        assert(pairs@[k as int].0@ == item_group_key(xs[k as int]));
        assert forall|j: int| 0 <= j < k implies pairs@[j] == before[j] by {}
        k = k + 1;
    }
    assert(keyed_view(pairs@) =~= xs.map_values(|y: (ItemType<Seq<char>>, Seq<Seq<char>>)| ((|x: (ItemType<Seq<char>>, Seq<Seq<char>>)| item_group_key(x))(y), y)));
    finish(pairs)
}

/// An item group while it is sorted.
struct Group(ItemType, Vec<String>);

impl View for Group {
    type V = (ItemType<Seq<char>>, Seq<Seq<char>>);

    closed spec fn view(&self) -> (ItemType<Seq<char>>, Seq<Seq<char>>) {
        (self.0@, self.1.deep_view())
    }
}

/// Item groups sorted by equipment and names, the first of each only.
fn sort_item_groups(raw: Vec<(ItemType, Vec<String>)>) -> (r: Vec<(ItemType, Vec<String>)>)
    ensures
        r@.map_values(|x: (ItemType, Vec<String>)| (x.0@, x.1.deep_view())) == sorted_unique(
            raw@.map_values(|x: (ItemType, Vec<String>)| (x.0@, x.1.deep_view())),
            |x: (ItemType<Seq<char>>, Seq<Seq<char>>)| item_group_key(x),
        ),
{
    let ghost xs = raw@.map_values(|x: (ItemType, Vec<String>)| (x.0@, x.1.deep_view()));
    let mut groups: Vec<Group> = Vec::new();
    let mut rest = raw;
    let n = rest.len();
    let mut k: usize = 0;
    while k < n
        invariant
            n == xs.len(),
            k <= n,
            rest@.len() == n - k,
            forall|j: int| 0 <= j < rest@.len() ==> xs[k + j] == ((#[trigger] rest@[j]).0@, rest@[j].1.deep_view()),
            groups@.len() == k,
            forall|j: int| 0 <= j < k ==> xs[j] == (#[trigger] groups@[j])@,
        decreases n - k,
    {
        let x = rest.remove(0);
        groups.push(Group(x.0, x.1));
        k = k + 1;
    }
    assert(groups@.map_values(|g: Group| g@) =~= xs);
    let sorted = sort_groups(groups);
    let ghost sv = sorted@.map_values(|g: Group| g@);
    let mut r: Vec<(ItemType, Vec<String>)> = Vec::new();
    let mut rest = sorted;
    let n = rest.len();
    let mut k: usize = 0;
    while k < n
        invariant
            n == sv.len(),
            k <= n,
            rest@.len() == n - k,
            forall|j: int| 0 <= j < rest@.len() ==> sv[k + j] == (#[trigger] rest@[j])@,
            r@.len() == k,
            forall|j: int| 0 <= j < k ==> sv[j] == ((#[trigger] r@[j]).0@, r@[j].1.deep_view()),
        decreases n - k,
    {
        let g = rest.remove(0);
        r.push((g.0, g.1));
        k = k + 1;
    }
    assert(r@.map_values(|x: (ItemType, Vec<String>)| (x.0@, x.1.deep_view())) =~= sv);
    r
}

/// Custom states sorted by name, without neighbours that are the same.
fn sort_states(raw: Vec<State>) -> (r: Vec<State>)
    ensures
        r@.map_values(|x: State| x@) == sorted_states(raw@.map_values(|x: State| x@)),
{
    let ghost xs = raw@.map_values(|x: State| x@);
    let mut pairs: Vec<(String, State)> = Vec::new();
    let mut rest = raw;
    let n = rest.len();
    let mut k: usize = 0;
    while k < n
        invariant
            n == xs.len(),
            k <= n,
            rest@.len() == n - k,
            forall|j: int| 0 <= j < rest@.len() ==> xs[k + j] == (#[trigger] rest@[j])@,
            pairs@.len() == k,
            forall|j: int| 0 <= j < k ==> state_name(xs[j]) == (#[trigger] pairs@[j]).0@ && xs[j] == pairs@[j].1@,
        decreases n - k,
    {
        let x = rest.remove(0);
        let key = x.name();
        pairs.push((key, x));
        k = k + 1;
    }
    assert(keyed_view(pairs@) =~= xs.map_values(
        |y: State<Seq<char>>| ((|x: State<Seq<char>>| state_name(x))(y), y),
    ));
    strip_keys(dedup_states(sort_by_key(pairs)))
}

} // verus!
