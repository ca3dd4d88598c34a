//! Copies of the graphics data, made field by field so that each copy is
//! known to equal what it copies.
use vstd::prelude::*;
use crate::condition::{Condition, Palette};
use crate::creature::{Creature, SimpleLayer};
use crate::graphics_file::GraphicsFile;
use crate::group::LayerGroup;
use crate::items::{BodyPartType, Color, ItemType};
use crate::layer::Layer;
use crate::layer_set::LayerSet;
use crate::lines::clone_line;
use crate::shared::CreatureShared;
use crate::state::State;
use crate::statue::{Plant, Statue, TileGraphic};
use crate::tile::{TilePage, TilePageFile};
use crate::tokens::{Caste, MaterialFlag, Metal, Profession, Shaping, SyndromeClass};

verus! {

impl State {
    /// A copy of this value.
    pub fn duplicate(&self) -> (r: Self)
        ensures
            r@ == self@,
    {
        match self {
            State::Empty => State::Empty,
            State::Default => State::Default,
            State::Child => State::Child,
            State::Baby => State::Baby,
            State::Animated => State::Animated,
            State::Corpse => State::Corpse,
            State::ListIcon => State::ListIcon,
            State::Portrait => State::Portrait,
            State::TrainedHunter => State::TrainedHunter,
            State::TrainedWar => State::TrainedWar,
            State::Skeleton => State::Skeleton,
            State::SkeletonWithSkull => State::SkeletonWithSkull,
            State::Vermin => State::Vermin,
            State::VerminAlt => State::VerminAlt,
            State::SwarmSmall => State::SwarmSmall,
            State::SwarmMedium => State::SwarmMedium,
            State::SwarmLarge => State::SwarmLarge,
            State::LightVermin => State::LightVermin,
            State::LightVerminAlt => State::LightVerminAlt,
            State::LightSwarmSmall => State::LightSwarmSmall,
            State::LightSwarmMedium => State::LightSwarmMedium,
            State::LightSwarmLarge => State::LightSwarmLarge,
            State::Remains => State::Remains,
            State::Hive => State::Hive,
            State::Custom(s) => State::Custom(s.clone()),
        }
    }
}

impl Caste {
    /// A copy of this value.
    pub fn duplicate(&self) -> (r: Self)
        ensures
            r@ == self@,
    {
        match self {
            Caste::Female => Caste::Female,
            Caste::Male => Caste::Male,
            Caste::Custom(s) => Caste::Custom(s.clone()),
        }
    }
}

impl Metal {
    /// A copy of this value.
    pub fn duplicate(&self) -> (r: Self)
        ensures
            r@ == self@,
    {
        match self {
            Metal::Unset => Metal::Unset,
            Metal::Copper => Metal::Copper,
            Metal::Silver => Metal::Silver,
            Metal::Bronze => Metal::Bronze,
            Metal::BlackBronze => Metal::BlackBronze,
            Metal::Iron => Metal::Iron,
            Metal::Steel => Metal::Steel,
            Metal::Adamantine => Metal::Adamantine,
            Metal::Custom(s) => Metal::Custom(s.clone()),
        }
    }
}

impl Profession {
    /// A copy of this value.
    pub fn duplicate(&self) -> (r: Self)
        ensures
            r@ == self@,
    {
        match self {
            Profession::Empty => Profession::Empty,
            Profession::Stoneworker => Profession::Stoneworker,
            Profession::Miner => Profession::Miner,
            Profession::Metalsmith => Profession::Metalsmith,
            Profession::Engineer => Profession::Engineer,
            Profession::Farmer => Profession::Farmer,
            Profession::Woodworker => Profession::Woodworker,
            Profession::Jeweler => Profession::Jeweler,
            Profession::Ranger => Profession::Ranger,
            Profession::Standard => Profession::Standard,
            Profession::Craftsman => Profession::Craftsman,
            Profession::FisheryWorker => Profession::FisheryWorker,
            Profession::Merchant => Profession::Merchant,
            Profession::Child => Profession::Child,
            Profession::NoneCategory => Profession::NoneCategory,
            Profession::Custom(s) => Profession::Custom(s.clone()),
        }
    }
}

impl SyndromeClass {
    /// A copy of this value.
    pub fn duplicate(&self) -> (r: Self)
        ensures
            r@ == self@,
    {
        match self {
            SyndromeClass::Zombie => SyndromeClass::Zombie,
            SyndromeClass::Necromancer => SyndromeClass::Necromancer,
            SyndromeClass::Vampcurse => SyndromeClass::Vampcurse,
            SyndromeClass::RaisedUndead => SyndromeClass::RaisedUndead,
            SyndromeClass::DisturbedDead => SyndromeClass::DisturbedDead,
            SyndromeClass::Ghoul => SyndromeClass::Ghoul,
            SyndromeClass::Custom(s) => SyndromeClass::Custom(s.clone()),
        }
    }
}

impl Color {
    /// A copy of this value.
    pub fn duplicate(&self) -> (r: Self)
        ensures
            r@ == self@,
    {
        match self {
            Color::Unset => Color::Unset,
            Color::Custom(s) => Color::Custom(s.clone()),
        }
    }
}

/// A copy of each element of `v`.
pub fn copy_states(v: &Vec<State>) -> (r: Vec<State>)
    ensures
        r@.map_values(|x: State| x@) == v@.map_values(|x: State| x@),
{
    let mut r: Vec<State> = Vec::new();
    let mut k: usize = 0;
    while k < v.len()
        invariant
            k <= v@.len(),
            r@.len() == k,
            forall|j: int| 0 <= j < k ==> #[trigger] r@[j]@ == v@[j]@,
        decreases v@.len() - k,
    {
        r.push(v[k].duplicate());
        k = k + 1;
    }
    assert(r@.map_values(|x: State| x@) =~= v@.map_values(|x: State| x@));
    r
}

/// A copy of each element of `v`.
pub fn copy_castes(v: &Vec<Caste>) -> (r: Vec<Caste>)
    ensures
        r@.map_values(|x: Caste| x@) == v@.map_values(|x: Caste| x@),
{
    let mut r: Vec<Caste> = Vec::new();
    let mut k: usize = 0;
    while k < v.len()
        invariant
            k <= v@.len(),
            r@.len() == k,
            forall|j: int| 0 <= j < k ==> #[trigger] r@[j]@ == v@[j]@,
        decreases v@.len() - k,
    {
        r.push(v[k].duplicate());
        k = k + 1;
    }
    assert(r@.map_values(|x: Caste| x@) =~= v@.map_values(|x: Caste| x@));
    r
}

/// A copy of each element of `v`.
pub fn copy_metals(v: &Vec<Metal>) -> (r: Vec<Metal>)
    ensures
        r@.map_values(|x: Metal| x@) == v@.map_values(|x: Metal| x@),
{
    let mut r: Vec<Metal> = Vec::new();
    let mut k: usize = 0;
    while k < v.len()
        invariant
            k <= v@.len(),
            r@.len() == k,
            forall|j: int| 0 <= j < k ==> #[trigger] r@[j]@ == v@[j]@,
        decreases v@.len() - k,
    {
        r.push(v[k].duplicate());
        k = k + 1;
    }
    assert(r@.map_values(|x: Metal| x@) =~= v@.map_values(|x: Metal| x@));
    r
}

/// A copy of each element of `v`.
pub fn copy_professions(v: &Vec<Profession>) -> (r: Vec<Profession>)
    ensures
        r@.map_values(|x: Profession| x@) == v@.map_values(|x: Profession| x@),
{
    let mut r: Vec<Profession> = Vec::new();
    let mut k: usize = 0;
    while k < v.len()
        invariant
            k <= v@.len(),
            r@.len() == k,
            forall|j: int| 0 <= j < k ==> #[trigger] r@[j]@ == v@[j]@,
        decreases v@.len() - k,
    {
        r.push(v[k].duplicate());
        k = k + 1;
    }
    assert(r@.map_values(|x: Profession| x@) =~= v@.map_values(|x: Profession| x@));
    r
}

/// A copy of each element of `v`.
pub fn copy_colors(v: &Vec<Color>) -> (r: Vec<Color>)
    ensures
        r@.map_values(|x: Color| x@) == v@.map_values(|x: Color| x@),
{
    let mut r: Vec<Color> = Vec::new();
    let mut k: usize = 0;
    while k < v.len()
        invariant
            k <= v@.len(),
            r@.len() == k,
            forall|j: int| 0 <= j < k ==> #[trigger] r@[j]@ == v@[j]@,
        decreases v@.len() - k,
    {
        r.push(v[k].duplicate());
        k = k + 1;
    }
    assert(r@.map_values(|x: Color| x@) =~= v@.map_values(|x: Color| x@));
    r
}

/// A copy of each element of `v`.
pub fn copy_palettes(v: &Vec<Palette>) -> (r: Vec<Palette>)
    ensures
        r@.map_values(|x: Palette| x@) == v@.map_values(|x: Palette| x@),
{
    let mut r: Vec<Palette> = Vec::new();
    let mut k: usize = 0;
    while k < v.len()
        invariant
            k <= v@.len(),
            r@.len() == k,
            forall|j: int| 0 <= j < k ==> #[trigger] r@[j]@ == v@[j]@,
        decreases v@.len() - k,
    {
        r.push(v[k].duplicate());
        k = k + 1;
    }
    assert(r@.map_values(|x: Palette| x@) =~= v@.map_values(|x: Palette| x@));
    r
}

/// A copy of each element of `v`.
pub fn copy_conditions(v: &Vec<Condition>) -> (r: Vec<Condition>)
    ensures
        r@.map_values(|x: Condition| x@) == v@.map_values(|x: Condition| x@),
{
    let mut r: Vec<Condition> = Vec::new();
    let mut k: usize = 0;
    while k < v.len()
        invariant
            k <= v@.len(),
            r@.len() == k,
            forall|j: int| 0 <= j < k ==> #[trigger] r@[j]@ == v@[j]@,
        decreases v@.len() - k,
    {
        r.push(v[k].duplicate());
        k = k + 1;
    }
    assert(r@.map_values(|x: Condition| x@) =~= v@.map_values(|x: Condition| x@));
    r
}

/// A copy of each element of `v`.
pub fn copy_layers(v: &Vec<Layer>) -> (r: Vec<Layer>)
    ensures
        r@.map_values(|x: Layer| x@) == v@.map_values(|x: Layer| x@),
{
    let mut r: Vec<Layer> = Vec::new();
    let mut k: usize = 0;
    while k < v.len()
        invariant
            k <= v@.len(),
            r@.len() == k,
            forall|j: int| 0 <= j < k ==> #[trigger] r@[j]@ == v@[j]@,
        decreases v@.len() - k,
    {
        r.push(v[k].duplicate());
        k = k + 1;
    }
    assert(r@.map_values(|x: Layer| x@) =~= v@.map_values(|x: Layer| x@));
    r
}

/// A copy of each element of `v`.
pub fn copy_layer_groups(v: &Vec<LayerGroup>) -> (r: Vec<LayerGroup>)
    ensures
        r@.map_values(|x: LayerGroup| x@) == v@.map_values(|x: LayerGroup| x@),
{
    let mut r: Vec<LayerGroup> = Vec::new();
    let mut k: usize = 0;
    while k < v.len()
        invariant
            k <= v@.len(),
            r@.len() == k,
            forall|j: int| 0 <= j < k ==> #[trigger] r@[j]@ == v@[j]@,
        decreases v@.len() - k,
    {
        r.push(v[k].duplicate());
        k = k + 1;
    }
    assert(r@.map_values(|x: LayerGroup| x@) =~= v@.map_values(|x: LayerGroup| x@));
    r
}

/// A copy of each element of `v`.
pub fn copy_layer_sets(v: &Vec<LayerSet>) -> (r: Vec<LayerSet>)
    ensures
        r@.map_values(|x: LayerSet| x@) == v@.map_values(|x: LayerSet| x@),
{
    let mut r: Vec<LayerSet> = Vec::new();
    let mut k: usize = 0;
    while k < v.len()
        invariant
            k <= v@.len(),
            r@.len() == k,
            forall|j: int| 0 <= j < k ==> #[trigger] r@[j]@ == v@[j]@,
        decreases v@.len() - k,
    {
        r.push(v[k].duplicate());
        k = k + 1;
    }
    assert(r@.map_values(|x: LayerSet| x@) =~= v@.map_values(|x: LayerSet| x@));
    r
}

/// A copy of each element of `v`.
pub fn copy_simple_layers(v: &Vec<SimpleLayer>) -> (r: Vec<SimpleLayer>)
    ensures
        r@.map_values(|x: SimpleLayer| x@) == v@.map_values(|x: SimpleLayer| x@),
{
    let mut r: Vec<SimpleLayer> = Vec::new();
    let mut k: usize = 0;
    while k < v.len()
        invariant
            k <= v@.len(),
            r@.len() == k,
            forall|j: int| 0 <= j < k ==> #[trigger] r@[j]@ == v@[j]@,
        decreases v@.len() - k,
    {
        r.push(v[k].duplicate());
        k = k + 1;
    }
    assert(r@.map_values(|x: SimpleLayer| x@) =~= v@.map_values(|x: SimpleLayer| x@));
    r
}

/// A copy of each element of `v`.
pub fn copy_creatures(v: &Vec<Creature>) -> (r: Vec<Creature>)
    ensures
        r@.map_values(|x: Creature| x@) == v@.map_values(|x: Creature| x@),
{
    let mut r: Vec<Creature> = Vec::new();
    let mut k: usize = 0;
    while k < v.len()
        invariant
            k <= v@.len(),
            r@.len() == k,
            forall|j: int| 0 <= j < k ==> #[trigger] r@[j]@ == v@[j]@,
        decreases v@.len() - k,
    {
        r.push(v[k].duplicate());
        k = k + 1;
    }
    assert(r@.map_values(|x: Creature| x@) =~= v@.map_values(|x: Creature| x@));
    r
}

/// A copy of each element of `v`.
pub fn copy_statues(v: &Vec<Statue>) -> (r: Vec<Statue>)
    ensures
        r@.map_values(|x: Statue| x@) == v@.map_values(|x: Statue| x@),
{
    let mut r: Vec<Statue> = Vec::new();
    let mut k: usize = 0;
    while k < v.len()
        invariant
            k <= v@.len(),
            r@.len() == k,
            forall|j: int| 0 <= j < k ==> #[trigger] r@[j]@ == v@[j]@,
        decreases v@.len() - k,
    {
        r.push(v[k].duplicate());
        k = k + 1;
    }
    assert(r@.map_values(|x: Statue| x@) =~= v@.map_values(|x: Statue| x@));
    r
}

/// A copy of each element of `v`.
pub fn copy_plants(v: &Vec<Plant>) -> (r: Vec<Plant>)
    ensures
        r@.map_values(|x: Plant| x@) == v@.map_values(|x: Plant| x@),
{
    let mut r: Vec<Plant> = Vec::new();
    let mut k: usize = 0;
    while k < v.len()
        invariant
            k <= v@.len(),
            r@.len() == k,
            forall|j: int| 0 <= j < k ==> #[trigger] r@[j]@ == v@[j]@,
        decreases v@.len() - k,
    {
        r.push(v[k].duplicate());
        k = k + 1;
    }
    assert(r@.map_values(|x: Plant| x@) =~= v@.map_values(|x: Plant| x@));
    r
}

/// A copy of each element of `v`.
pub fn copy_tile_graphics(v: &Vec<TileGraphic>) -> (r: Vec<TileGraphic>)
    ensures
        r@.map_values(|x: TileGraphic| x@) == v@.map_values(|x: TileGraphic| x@),
{
    let mut r: Vec<TileGraphic> = Vec::new();
    let mut k: usize = 0;
    while k < v.len()
        invariant
            k <= v@.len(),
            r@.len() == k,
            forall|j: int| 0 <= j < k ==> #[trigger] r@[j]@ == v@[j]@,
        decreases v@.len() - k,
    {
        r.push(v[k].duplicate());
        k = k + 1;
    }
    assert(r@.map_values(|x: TileGraphic| x@) =~= v@.map_values(|x: TileGraphic| x@));
    r
}

/// A copy of each element of `v`.
pub fn copy_tile_pages(v: &Vec<TilePage>) -> (r: Vec<TilePage>)
    ensures
        r@.map_values(|x: TilePage| x@) == v@.map_values(|x: TilePage| x@),
{
    let mut r: Vec<TilePage> = Vec::new();
    let mut k: usize = 0;
    while k < v.len()
        invariant
            k <= v@.len(),
            r@.len() == k,
            forall|j: int| 0 <= j < k ==> #[trigger] r@[j]@ == v@[j]@,
        decreases v@.len() - k,
    {
        r.push(v[k].duplicate());
        k = k + 1;
    }
    assert(r@.map_values(|x: TilePage| x@) =~= v@.map_values(|x: TilePage| x@));
    r
}

/// A copy of each element of `v`.
pub fn copy_tile_page_files(v: &Vec<TilePageFile>) -> (r: Vec<TilePageFile>)
    ensures
        r@.map_values(|x: TilePageFile| x@) == v@.map_values(|x: TilePageFile| x@),
{
    let mut r: Vec<TilePageFile> = Vec::new();
    let mut k: usize = 0;
    while k < v.len()
        invariant
            k <= v@.len(),
            r@.len() == k,
            forall|j: int| 0 <= j < k ==> #[trigger] r@[j]@ == v@[j]@,
        decreases v@.len() - k,
    {
        r.push(v[k].duplicate());
        k = k + 1;
    }
    assert(r@.map_values(|x: TilePageFile| x@) =~= v@.map_values(|x: TilePageFile| x@));
    r
}

/// A copy of each element of `v`.
pub fn copy_graphics_files(v: &Vec<GraphicsFile>) -> (r: Vec<GraphicsFile>)
    ensures
        r@.map_values(|x: GraphicsFile| x@) == v@.map_values(|x: GraphicsFile| x@),
{
    let mut r: Vec<GraphicsFile> = Vec::new();
    let mut k: usize = 0;
    while k < v.len()
        invariant
            k <= v@.len(),
            r@.len() == k,
            forall|j: int| 0 <= j < k ==> #[trigger] r@[j]@ == v@[j]@,
        decreases v@.len() - k,
    {
        r.push(v[k].duplicate());
        k = k + 1;
    }
    assert(r@.map_values(|x: GraphicsFile| x@) =~= v@.map_values(|x: GraphicsFile| x@));
    r
}

/// A copy of each element of `v`.
pub fn copy_material_flags(v: &Vec<MaterialFlag>) -> (r: Vec<MaterialFlag>)
    ensures
        r@ == v@,
{
    let mut r: Vec<MaterialFlag> = Vec::new();
    let mut k: usize = 0;
    while k < v.len()
        invariant
            k <= v@.len(),
            r@ == v@.take(k as int),
        decreases v@.len() - k,
    {
        r.push(v[k]);
        k = k + 1;
        assert(r@ =~= v@.take(k as int));
    }
    assert(v@.take(v@.len() as int) =~= v@);
    r
}

/// A copy of each element of `v`.
pub fn copy_shapings(v: &Vec<Shaping>) -> (r: Vec<Shaping>)
    ensures
        r@ == v@,
{
    let mut r: Vec<Shaping> = Vec::new();
    let mut k: usize = 0;
    while k < v.len()
        invariant
            k <= v@.len(),
            r@ == v@.take(k as int),
        decreases v@.len() - k,
    {
        r.push(v[k]);
        k = k + 1;
        assert(r@ =~= v@.take(k as int));
    }
    assert(v@.take(v@.len() as int) =~= v@);
    r
}

impl ItemType {
    /// A copy of this value.
    pub fn duplicate(&self) -> (r: Self)
        ensures
            r@ == self@,
    {
        match self {
            ItemType::Unset => ItemType::Unset,
            ItemType::ByCategory(s, e) => ItemType::ByCategory(s.clone(), *e),
            ItemType::ByToken(s, e) => ItemType::ByToken(s.clone(), *e),
            ItemType::AnyHeld(e) => ItemType::AnyHeld(*e),
            ItemType::Wield(e) => ItemType::Wield(*e),
        }
    }
}

impl BodyPartType {
    /// A copy of this value.
    pub fn duplicate(&self) -> (r: Self)
        ensures
            r@ == self@,
    {
        match self {
            BodyPartType::Unset => BodyPartType::Unset,
            BodyPartType::ByType(s) => BodyPartType::ByType(s.clone()),
            BodyPartType::ByCategory(s) => BodyPartType::ByCategory(s.clone()),
            BodyPartType::ByToken(s) => BodyPartType::ByToken(s.clone()),
        }
    }
}

impl Condition {
    /// A copy of this condition.
    pub fn duplicate(&self) -> (r: Self)
        ensures
            r@ == self@,
    {
        match self {
            Condition::Default => Condition::Default,
            Condition::ItemWorn(t, items) => Condition::ItemWorn(t.duplicate(), clone_line(items)),
            Condition::ShutOffIfItemPresent(t, items) => Condition::ShutOffIfItemPresent(t.duplicate(), clone_line(items)),
            Condition::Dye(c) => Condition::Dye(c.duplicate()),
            Condition::NotDyed => Condition::NotDyed,
            Condition::MaterialFlag(v) => Condition::MaterialFlag(copy_material_flags(v)),
            Condition::MaterialType(m) => Condition::MaterialType(m.duplicate()),
            Condition::ProfessionCategory(v) => Condition::ProfessionCategory(copy_professions(v)),
            Condition::RandomPartIndex(s, a, b) => Condition::RandomPartIndex(s.clone(), *a, *b),
            Condition::HaulCountMin(n) => Condition::HaulCountMin(*n),
            Condition::HaulCountMax(n) => Condition::HaulCountMax(*n),
            Condition::Child => Condition::Child,
            Condition::NotChild => Condition::NotChild,
            Condition::Caste(c) => Condition::Caste(c.duplicate()),
            Condition::IsGhost => Condition::IsGhost,
            Condition::SynClass(c) => Condition::SynClass(c.duplicate()),
            Condition::TissueLayer(a, b) => Condition::TissueLayer(a.clone(), b.clone()),
            Condition::TissueMinLength(n) => Condition::TissueMinLength(*n),
            Condition::TissueMaxLength(n) => Condition::TissueMaxLength(*n),
            Condition::TissueMayHaveColor(v) => Condition::TissueMayHaveColor(copy_colors(v)),
            Condition::TissueMayHaveShaping(v) => Condition::TissueMayHaveShaping(copy_shapings(v)),
            Condition::TissueNotShaped => Condition::TissueNotShaped,
            Condition::TissueSwap(a, n, b, xy, large) => Condition::TissueSwap(a.clone(), *n, b.clone(), *xy, *large),
            Condition::ItemQuality(n) => Condition::ItemQuality(*n),
            Condition::UsePalette(p, n) => Condition::UsePalette(p.duplicate(), *n),
            Condition::UseStandardPalette => Condition::UseStandardPalette,
            Condition::ConditionBP(b) => Condition::ConditionBP(b.duplicate()),
            Condition::LGConditionBP(b) => Condition::LGConditionBP(b.duplicate()),
            Condition::BPAppearanceModifierRange(m, a, b) => Condition::BPAppearanceModifierRange(*m, *a, *b),
            Condition::BPPresent => Condition::BPPresent,
            Condition::BPScarred => Condition::BPScarred,
            Condition::Custom(s) => Condition::Custom(s.clone()),
        }
    }
}

impl Layer {
    /// A copy of this layer.
    pub fn duplicate(&self) -> (r: Self)
        ensures
            r@ == self@,
    {
        Layer {
            name: self.name.clone(),
            conditions: copy_conditions(&self.conditions),
            tile_name: self.tile_name.clone(),
            coords: self.coords,
            large_coords: self.large_coords,
        }
    }
}

impl LayerGroup {
    /// A copy of this layer group.
    pub fn duplicate(&self) -> (r: Self)
        ensures
            r@ == self@,
    {
        LayerGroup { name: self.name.clone(), layers: copy_layers(&self.layers) }
    }
}

impl LayerSet {
    /// A copy of this layer set.
    pub fn duplicate(&self) -> (r: Self)
        ensures
            r@ == self@,
    {
        LayerSet {
            state: self.state.duplicate(),
            layer_groups: copy_layer_groups(&self.layer_groups),
            palettes: copy_palettes(&self.palettes),
        }
    }
}

impl SimpleLayer {
    /// A copy of this simple layer.
    pub fn duplicate(&self) -> (r: Self)
        ensures
            r@ == self@,
    {
        SimpleLayer {
            state: self.state.duplicate(),
            tile_name: self.tile_name.clone(),
            coords: self.coords,
            large_coords: self.large_coords,
            sub_state: match &self.sub_state {
                Some(s) => Some(s.duplicate()),
                None => None,
            },
        }
    }
}

/// A copy of each item of `v`.
pub fn copy_items(v: &Vec<(ItemType, String)>) -> (r: Vec<(ItemType, String)>)
    ensures
        r@.map_values(|x: (ItemType, String)| (x.0@, x.1@)) == v@.map_values(|x: (ItemType, String)| (x.0@, x.1@)),
{
    let mut r: Vec<(ItemType, String)> = Vec::new();
    let mut k: usize = 0;
    while k < v.len()
        invariant
            k <= v@.len(),
            r@.len() == k,
            forall|j: int| 0 <= j < k ==> (#[trigger] r@[j]).0@ == v@[j].0@ && r@[j].1@ == v@[j].1@,
        decreases v@.len() - k,
    {
        r.push((v[k].0.duplicate(), v[k].1.clone()));
        k = k + 1;
    }
    assert(r@.map_values(|x: (ItemType, String)| (x.0@, x.1@)) =~= v@.map_values(|x: (ItemType, String)| (x.0@, x.1@)));
    r
}

/// A copy of each item group of `v`.
pub fn copy_item_groups(v: &Vec<(ItemType, Vec<String>)>) -> (r: Vec<(ItemType, Vec<String>)>)
    ensures
        r@.map_values(|x: (ItemType, Vec<String>)| (x.0@, x.1.deep_view())) == v@.map_values(
            |x: (ItemType, Vec<String>)| (x.0@, x.1.deep_view()),
        ),
{
    let mut r: Vec<(ItemType, Vec<String>)> = Vec::new();
    let mut k: usize = 0;
    while k < v.len()
        invariant
            k <= v@.len(),
            r@.len() == k,
            forall|j: int|
                0 <= j < k ==> (#[trigger] r@[j]).0@ == v@[j].0@ && r@[j].1.deep_view() == v@[j].1.deep_view(),
        decreases v@.len() - k,
    {
        r.push((v[k].0.duplicate(), clone_line(&v[k].1)));
        k = k + 1;
    }
    assert(r@.map_values(|x: (ItemType, Vec<String>)| (x.0@, x.1.deep_view())) =~= v@.map_values(
        |x: (ItemType, Vec<String>)| (x.0@, x.1.deep_view()),
    ));
    r
}

/// A copy of each random part group of `v`.
pub fn copy_part_groups(v: &Vec<(String, u32)>) -> (r: Vec<(String, u32)>)
    ensures
        r@.map_values(|x: (String, u32)| (x.0@, x.1)) == v@.map_values(|x: (String, u32)| (x.0@, x.1)),
{
    let mut r: Vec<(String, u32)> = Vec::new();
    let mut k: usize = 0;
    while k < v.len()
        invariant
            k <= v@.len(),
            r@.len() == k,
            forall|j: int| 0 <= j < k ==> (#[trigger] r@[j]).0@ == v@[j].0@ && r@[j].1 == v@[j].1,
        decreases v@.len() - k,
    {
        r.push((v[k].0.clone(), v[k].1));
        k = k + 1;
    }
    assert(r@.map_values(|x: (String, u32)| (x.0@, x.1)) =~= v@.map_values(|x: (String, u32)| (x.0@, x.1)));
    r
}

impl CreatureShared {
    /// A copy of what is gathered.
    pub fn duplicate(&self) -> (r: Self)
        ensures
            r@ == self@,
    {
        CreatureShared {
            palettes: copy_palettes(&self.palettes),
            colors: copy_colors(&self.colors),
            items: copy_items(&self.items),
            item_groups: copy_item_groups(&self.item_groups),
            castes: copy_castes(&self.castes),
            states: copy_states(&self.states),
            conditions: copy_conditions(&self.conditions),
            random_part_groups: copy_part_groups(&self.random_part_groups),
            metals: copy_metals(&self.metals),
        }
    }
}

impl Creature {
    /// A copy of this creature.
    pub fn duplicate(&self) -> (r: Self)
        ensures
            r@ == self@,
    {
        Creature {
            name: self.name.clone(),
            caste: match &self.caste {
                Some(c) => Some(c.duplicate()),
                None => None,
            },
            simple_layers: copy_simple_layers(&self.simple_layers),
            layer_sets: copy_layer_sets(&self.layer_sets),
            creature_shared: self.creature_shared.duplicate(),
        }
    }
}

impl Statue {
    /// A copy of this statue.
    pub fn duplicate(&self) -> (r: Self)
        ensures
            r@ == self@,
    {
        Statue {
            creature_name: self.creature_name.clone(),
            state: self.state.duplicate(),
            tile_name: self.tile_name.clone(),
            coords: self.coords,
            large_coords: self.large_coords,
            caste: match &self.caste {
                Some(c) => Some(c.duplicate()),
                None => None,
            },
        }
    }
}

impl Plant {
    /// A copy of this plant.
    pub fn duplicate(&self) -> (r: Self)
        ensures
            r@ == self@,
    {
        Plant { name: self.name.clone(), tile_name: self.tile_name.clone(), coords: self.coords }
    }
}

impl TileGraphic {
    /// A copy of this tile graphic.
    pub fn duplicate(&self) -> (r: Self)
        ensures
            r@ == self@,
    {
        TileGraphic { name: self.name.clone(), tile_name: self.tile_name.clone(), coords: self.coords }
    }
}

impl TilePage {
    /// A copy of this tile page.
    pub fn duplicate(&self) -> (r: Self)
        ensures
            r@ == self@,
    {
        TilePage {
            name: self.name.clone(),
            file_name: self.file_name.clone(),
            image_size: self.image_size,
            tile_size: self.tile_size,
        }
    }
}

impl TilePageFile {
    /// A copy of this tile page file.
    pub fn duplicate(&self) -> (r: Self)
        ensures
            r@ == self@,
    {
        TilePageFile { name: self.name.clone(), tile_pages: copy_tile_pages(&self.tile_pages) }
    }
}

impl GraphicsFile {
    /// A copy of this graphics file.
    pub fn duplicate(&self) -> (r: Self)
        ensures
            r@ == self@,
    {
        match self {
            GraphicsFile::DefaultFile => GraphicsFile::DefaultFile,
            GraphicsFile::CreatureFile(n, v) => GraphicsFile::CreatureFile(n.clone(), copy_creatures(v)),
            GraphicsFile::StatueCreatureFile(n, v) => GraphicsFile::StatueCreatureFile(n.clone(), copy_statues(v)),
            GraphicsFile::PlantFile(n, v) => GraphicsFile::PlantFile(n.clone(), copy_plants(v)),
            GraphicsFile::TileGraphicsFile(n, v) => GraphicsFile::TileGraphicsFile(n.clone(), copy_tile_graphics(v)),
        }
    }
}

} // verus!
