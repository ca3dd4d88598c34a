//! The vocabulary of raw tokens: states, castes, materials, items, body parts.
use vstd::prelude::*;
use crate::text::{case_converted, convert_case, str_eq, string_of, CaseBoundaries, TextCase};

verus! {

/// The caste a graphic applies to.
#[derive(Clone, Debug, PartialEq)]
pub enum Caste<S = String> {
    Female,
    Male,
    Custom(S),
}

impl View for Caste<String> {
    type V = Caste<Seq<char>>;

    open spec fn view(&self) -> Caste<Seq<char>> {
        match self {
            Caste::Female => Caste::Female,
            Caste::Male => Caste::Male,
            Caste::Custom(s) => Caste::Custom(s@),
        }
    }
}

/// The raw token of a `Caste`.
pub open spec fn caste_name(x: Caste<Seq<char>>) -> Seq<char> {
    match x {
        Caste::Female => "FEMALE"@,
        Caste::Male => "MALE"@,
        Caste::Custom(s) => case_converted(s, CaseBoundaries::Space, TextCase::UpperSnake),
    }
}

/// The `Caste` that a raw token names.
pub open spec fn caste_from(s: Seq<char>) -> Caste<Seq<char>> {
    if s == "FEMALE"@ {
        Caste::Female
    } else if s == "MALE"@ {
        Caste::Male
    } else {
        Caste::Custom(s)
    }
}

impl Caste {
    /// The raw token of this value.
    pub fn name(&self) -> (r: String)
        ensures
            r@ == caste_name(self@),
    {
        match self {
            Caste::Female => string_of("FEMALE"),
            Caste::Male => string_of("MALE"),
            Caste::Custom(s) => convert_case(s.as_str(), CaseBoundaries::Space, TextCase::UpperSnake),
        }
    }

    /// The value that a raw token names.
    pub fn from(string: String) -> (r: Self)
        ensures
            r@ == caste_from(string@),
    {
        if str_eq(string.as_str(), "FEMALE") {
            Caste::Female
        } else if str_eq(string.as_str(), "MALE") {
            Caste::Male
        } else {
            Caste::Custom(string)
        }
    }
}

/// The metal of an item a condition tests for.
#[derive(Clone, Debug, PartialEq)]
pub enum Metal<S = String> {
    Unset,
    Copper,
    Silver,
    Bronze,
    BlackBronze,
    Iron,
    Steel,
    Adamantine,
    Custom(S),
}

impl View for Metal<String> {
    type V = Metal<Seq<char>>;

    open spec fn view(&self) -> Metal<Seq<char>> {
        match self {
            Metal::Unset => Metal::Unset,
            Metal::Copper => Metal::Copper,
            Metal::Silver => Metal::Silver,
            Metal::Bronze => Metal::Bronze,
            Metal::BlackBronze => Metal::BlackBronze,
            Metal::Iron => Metal::Iron,
            Metal::Steel => Metal::Steel,
            Metal::Adamantine => Metal::Adamantine,
            Metal::Custom(s) => Metal::Custom(s@),
        }
    }
}

/// The raw token of a `Metal`.
pub open spec fn metal_name(x: Metal<Seq<char>>) -> Seq<char> {
    match x {
        Metal::Unset => ""@,
        Metal::Copper => "COPPER"@,
        Metal::Silver => "SILVER"@,
        Metal::Bronze => "BRONZE"@,
        Metal::BlackBronze => "BLACK_BRONZE"@,
        Metal::Iron => "IRON"@,
        Metal::Steel => "STEEL"@,
        Metal::Adamantine => "ADAMANTINE"@,
        Metal::Custom(s) => case_converted(s, CaseBoundaries::Space, TextCase::UpperSnake),
    }
}

/// The `Metal` that a raw token names.
pub open spec fn metal_from(s: Seq<char>) -> Metal<Seq<char>> {
    if s == "COPPER"@ {
        Metal::Copper
    } else if s == "SILVER"@ {
        Metal::Silver
    } else if s == "BRONZE"@ {
        Metal::Bronze
    } else if s == "BLACK_BRONZE"@ {
        Metal::BlackBronze
    } else if s == "IRON"@ {
        Metal::Iron
    } else if s == "STEEL"@ {
        Metal::Steel
    } else if s == "ADAMANTINE"@ {
        Metal::Adamantine
    } else {
        Metal::Custom(s)
    }
}

impl Metal {
    /// The raw token of this value.
    pub fn name(&self) -> (r: String)
        ensures
            r@ == metal_name(self@),
    {
        match self {
            Metal::Unset => string_of(""),
            Metal::Copper => string_of("COPPER"),
            Metal::Silver => string_of("SILVER"),
            Metal::Bronze => string_of("BRONZE"),
            Metal::BlackBronze => string_of("BLACK_BRONZE"),
            Metal::Iron => string_of("IRON"),
            Metal::Steel => string_of("STEEL"),
            Metal::Adamantine => string_of("ADAMANTINE"),
            Metal::Custom(s) => convert_case(s.as_str(), CaseBoundaries::Space, TextCase::UpperSnake),
        }
    }

    /// The value that a raw token names.
    pub fn from(string: String) -> (r: Self)
        ensures
            r@ == metal_from(string@),
    {
        if str_eq(string.as_str(), "COPPER") {
            Metal::Copper
        } else if str_eq(string.as_str(), "SILVER") {
            Metal::Silver
        } else if str_eq(string.as_str(), "BRONZE") {
            Metal::Bronze
        } else if str_eq(string.as_str(), "BLACK_BRONZE") {
            Metal::BlackBronze
        } else if str_eq(string.as_str(), "IRON") {
            Metal::Iron
        } else if str_eq(string.as_str(), "STEEL") {
            Metal::Steel
        } else if str_eq(string.as_str(), "ADAMANTINE") {
            Metal::Adamantine
        } else {
            Metal::Custom(string)
        }
    }

    /// The values offered for selection, in display order.
    pub fn iterator() -> (r: Vec<Self>)
        ensures
            r@ == seq![Metal::<String>::Unset, Metal::<String>::Copper, Metal::<String>::Silver, Metal::<String>::Bronze, Metal::<String>::BlackBronze, Metal::<String>::Iron, Metal::<String>::Steel, Metal::<String>::Adamantine],
    {
        let mut r: Vec<Self> = Vec::new();
        r.push(Metal::Unset);
        r.push(Metal::Copper);
        r.push(Metal::Silver);
        r.push(Metal::Bronze);
        r.push(Metal::BlackBronze);
        r.push(Metal::Iron);
        r.push(Metal::Steel);
        r.push(Metal::Adamantine);
        assert(r@ =~= seq![Metal::<String>::Unset, Metal::<String>::Copper, Metal::<String>::Silver, Metal::<String>::Bronze, Metal::<String>::BlackBronze, Metal::<String>::Iron, Metal::<String>::Steel, Metal::<String>::Adamantine]);
        r
    }
}

/// A material flag a condition tests for.
#[derive(Clone, Copy, Debug, PartialEq, Eq, Structural)]
pub enum MaterialFlag {
    Unset,
    DivineMaterial,
    Artifact,
    NotArtifact,
    Leather,
    Bone,
    Shell,
    Wood,
    Woven,
    Silk,
    Yarn,
    Plant,
    NotImproved,
    Empty,
    Stone,
    Gem,
    Tooth,
    Horn,
    Pearl,
    Soap,
    HardMat,
    Metal,
    Glass,
    Sand,
    StrandTissue,
    Lye,
    Potashable,
    FoodStorage,
    EmptyBarrel,
    NotPressed,
    FireSafe,
    MagmaSafe,
    BuildMat,
    WorthlessStone,
    BodyComp,
    CanUseLocation,
    NoEdge,
    Edge,
    NotEngraved,
    WritingImprovment,
    NotAbsorb,
    Unrotten,
    NotWeb,
    Web,
    CanUseArtifact,
    OnGround,
}

/// The raw token of a `MaterialFlag`.
pub open spec fn material_flag_name(x: MaterialFlag) -> Seq<char> {
    match x {
        MaterialFlag::Unset => ""@,
        MaterialFlag::DivineMaterial => "IS_DIVINE_MATERIAL"@,
        MaterialFlag::Artifact => "IS_CRAFTED_ARTIFACT"@,
        MaterialFlag::NotArtifact => "NOT_ARTIFACT"@,
        MaterialFlag::Leather => "ANY_LEATHER_MATERIAL"@,
        MaterialFlag::Bone => "ANY_BONE_MATERIAL"@,
        MaterialFlag::Shell => "ANY_SHELL_MATERIAL"@,
        MaterialFlag::Wood => "ANY_WOOD_MATERIAL"@,
        MaterialFlag::Woven => "WOVEN_ITEM"@,
        MaterialFlag::Silk => "ANY_SILK_MATERIAL"@,
        MaterialFlag::Yarn => "ANY_YARN_MATERIAL"@,
        MaterialFlag::Plant => "ANY_PLANT_MATERIAL"@,
        MaterialFlag::NotImproved => "NOT_IMPROVED"@,
        MaterialFlag::Empty => "EMPTY"@,
        MaterialFlag::Stone => "ANY_STONE_MATERIAL"@,
        MaterialFlag::Gem => "ANY_GEM_MATERIAL"@,
        MaterialFlag::Tooth => "ANY_TOOTH_MATERIAL"@,
        MaterialFlag::Horn => "ANY_HORN_MATERIAL"@,
        MaterialFlag::Pearl => "ANY_PEARL_MATERIAL"@,
        MaterialFlag::Soap => "ANY_SOAP_MATERIAL"@,
        MaterialFlag::HardMat => "HARD_ITEM_MATERIAL"@,
        MaterialFlag::Metal => "METAL_ITEM_MATERIAL"@,
        MaterialFlag::Glass => "GLASS_MATERIAL"@,
        MaterialFlag::Sand => "IS_SAND_MATERIAL"@,
        MaterialFlag::StrandTissue => "ANY_STRAND_TISSUE"@,
        MaterialFlag::Lye => "CONTAINS_LYE"@,
        MaterialFlag::Potashable => "POTASHABLE"@,
        MaterialFlag::FoodStorage => "FOOD_STORAGE_CONTAINER"@,
        MaterialFlag::EmptyBarrel => "NOT_CONTAIN_BARREL_ITEM"@,
        MaterialFlag::NotPressed => "NOT_PRESSED"@,
        MaterialFlag::FireSafe => "FIRE_BUILD_SAFE"@,
        MaterialFlag::MagmaSafe => "MAGMA_BUILD_SAFE"@,
        MaterialFlag::BuildMat => "BUILDMAT"@,
        MaterialFlag::WorthlessStone => "WORTHLESS_STONE_ONLY"@,
        MaterialFlag::BodyComp => "USE_BODY_COMPONENT"@,
        MaterialFlag::CanUseLocation => "CAN_USE_LOCATION_RESERVED"@,
        MaterialFlag::NoEdge => "NO_EDGE_ALLOWED"@,
        MaterialFlag::Edge => "HAS_EDGE"@,
        MaterialFlag::NotEngraved => "NOT_ENGRAVED"@,
        MaterialFlag::WritingImprovment => "HAS_WRITING_IMPROVEMENT"@,
        MaterialFlag::NotAbsorb => "DOES_NOT_ABSORB"@,
        MaterialFlag::Unrotten => "UNROTTEN"@,
        MaterialFlag::NotWeb => "NOT_WEB"@,
        MaterialFlag::Web => "WEB_ONLY"@,
        MaterialFlag::CanUseArtifact => "CAN_USE_ARTIFACT"@,
        MaterialFlag::OnGround => "ON_GROUND"@,
    }
}

/// The `MaterialFlag` that a raw token names.
pub open spec fn material_flag_from(s: Seq<char>) -> MaterialFlag {
    if s == "IS_DIVINE_MATERIAL"@ {
        MaterialFlag::DivineMaterial
    } else if s == "IS_CRAFTED_ARTIFACT"@ {
        MaterialFlag::Artifact
    } else if s == "NOT_ARTIFACT"@ {
        MaterialFlag::NotArtifact
    } else if s == "ANY_LEATHER_MATERIAL"@ {
        MaterialFlag::Leather
    } else if s == "ANY_BONE_MATERIAL"@ {
        MaterialFlag::Bone
    } else if s == "ANY_SHELL_MATERIAL"@ {
        MaterialFlag::Shell
    } else if s == "ANY_WOOD_MATERIAL"@ {
        MaterialFlag::Wood
    } else if s == "WOVEN_ITEM"@ {
        MaterialFlag::Woven
    } else if s == "ANY_SILK_MATERIAL"@ {
        MaterialFlag::Silk
    } else if s == "ANY_YARN_MATERIAL"@ {
        MaterialFlag::Yarn
    } else if s == "ANY_PLANT_MATERIAL"@ {
        MaterialFlag::Plant
    } else if s == "NOT_IMPROVED"@ {
        MaterialFlag::NotImproved
    } else if s == "EMPTY"@ {
        MaterialFlag::Empty
    } else if s == "ANY_STONE_MATERIAL"@ {
        MaterialFlag::Stone
    } else if s == "ANY_GEM_MATERIAL"@ {
        MaterialFlag::Gem
    } else if s == "ANY_TOOTH_MATERIAL"@ {
        MaterialFlag::Tooth
    } else if s == "ANY_HORN_MATERIAL"@ {
        MaterialFlag::Horn
    } else if s == "ANY_PEARL_MATERIAL"@ {
        MaterialFlag::Pearl
    } else if s == "ANY_SOAP_MATERIAL"@ {
        MaterialFlag::Soap
    } else if s == "HARD_ITEM_MATERIAL"@ {
        MaterialFlag::HardMat
    } else if s == "METAL_ITEM_MATERIAL"@ {
        MaterialFlag::Metal
    } else if s == "GLASS_MATERIAL"@ {
        MaterialFlag::Glass
    } else if s == "IS_SAND_MATERIAL"@ {
        MaterialFlag::Sand
    } else if s == "ANY_STRAND_TISSUE"@ {
        MaterialFlag::StrandTissue
    } else if s == "CONTAINS_LYE"@ {
        MaterialFlag::Lye
    } else if s == "POTASHABLE"@ {
        MaterialFlag::Potashable
    } else if s == "FOOD_STORAGE_CONTAINER"@ {
        MaterialFlag::FoodStorage
    } else if s == "NOT_CONTAIN_BARREL_ITEM"@ {
        MaterialFlag::EmptyBarrel
    } else if s == "NOT_PRESSED"@ {
        MaterialFlag::NotPressed
    } else if s == "FIRE_BUILD_SAFE"@ {
        MaterialFlag::FireSafe
    } else if s == "MAGMA_BUILD_SAFE"@ {
        MaterialFlag::MagmaSafe
    } else if s == "BUILDMAT"@ {
        MaterialFlag::BuildMat
    } else if s == "WORTHLESS_STONE_ONLY"@ {
        MaterialFlag::WorthlessStone
    } else if s == "USE_BODY_COMPONENT"@ {
        MaterialFlag::BodyComp
    } else if s == "CAN_USE_LOCATION_RESERVED"@ {
        MaterialFlag::CanUseLocation
    } else if s == "NO_EDGE_ALLOWED"@ {
        MaterialFlag::NoEdge
    } else if s == "HAS_EDGE"@ {
        MaterialFlag::Edge
    } else if s == "NOT_ENGRAVED"@ {
        MaterialFlag::NotEngraved
    } else if s == "HAS_WRITING_IMPROVEMENT"@ {
        MaterialFlag::WritingImprovment
    } else if s == "DOES_NOT_ABSORB"@ {
        MaterialFlag::NotAbsorb
    } else if s == "UNROTTEN"@ {
        MaterialFlag::Unrotten
    } else if s == "NOT_WEB"@ {
        MaterialFlag::NotWeb
    } else if s == "WEB_ONLY"@ {
        MaterialFlag::Web
    } else if s == "CAN_USE_ARTIFACT"@ {
        MaterialFlag::CanUseArtifact
    } else if s == "ON_GROUND"@ {
        MaterialFlag::OnGround
    } else {
        MaterialFlag::Unset
    }
}

impl MaterialFlag {
    /// The raw token of this value.
    pub fn name(&self) -> (r: String)
        ensures
            r@ == material_flag_name(*self),
    {
        match self {
            MaterialFlag::Unset => string_of(""),
            MaterialFlag::DivineMaterial => string_of("IS_DIVINE_MATERIAL"),
            MaterialFlag::Artifact => string_of("IS_CRAFTED_ARTIFACT"),
            MaterialFlag::NotArtifact => string_of("NOT_ARTIFACT"),
            MaterialFlag::Leather => string_of("ANY_LEATHER_MATERIAL"),
            MaterialFlag::Bone => string_of("ANY_BONE_MATERIAL"),
            MaterialFlag::Shell => string_of("ANY_SHELL_MATERIAL"),
            MaterialFlag::Wood => string_of("ANY_WOOD_MATERIAL"),
            MaterialFlag::Woven => string_of("WOVEN_ITEM"),
            MaterialFlag::Silk => string_of("ANY_SILK_MATERIAL"),
            MaterialFlag::Yarn => string_of("ANY_YARN_MATERIAL"),
            MaterialFlag::Plant => string_of("ANY_PLANT_MATERIAL"),
            MaterialFlag::NotImproved => string_of("NOT_IMPROVED"),
            MaterialFlag::Empty => string_of("EMPTY"),
            MaterialFlag::Stone => string_of("ANY_STONE_MATERIAL"),
            MaterialFlag::Gem => string_of("ANY_GEM_MATERIAL"),
            MaterialFlag::Tooth => string_of("ANY_TOOTH_MATERIAL"),
            MaterialFlag::Horn => string_of("ANY_HORN_MATERIAL"),
            MaterialFlag::Pearl => string_of("ANY_PEARL_MATERIAL"),
            MaterialFlag::Soap => string_of("ANY_SOAP_MATERIAL"),
            MaterialFlag::HardMat => string_of("HARD_ITEM_MATERIAL"),
            MaterialFlag::Metal => string_of("METAL_ITEM_MATERIAL"),
            MaterialFlag::Glass => string_of("GLASS_MATERIAL"),
            MaterialFlag::Sand => string_of("IS_SAND_MATERIAL"),
            MaterialFlag::StrandTissue => string_of("ANY_STRAND_TISSUE"),
            MaterialFlag::Lye => string_of("CONTAINS_LYE"),
            MaterialFlag::Potashable => string_of("POTASHABLE"),
            MaterialFlag::FoodStorage => string_of("FOOD_STORAGE_CONTAINER"),
            MaterialFlag::EmptyBarrel => string_of("NOT_CONTAIN_BARREL_ITEM"),
            MaterialFlag::NotPressed => string_of("NOT_PRESSED"),
            MaterialFlag::FireSafe => string_of("FIRE_BUILD_SAFE"),
            MaterialFlag::MagmaSafe => string_of("MAGMA_BUILD_SAFE"),
            MaterialFlag::BuildMat => string_of("BUILDMAT"),
            MaterialFlag::WorthlessStone => string_of("WORTHLESS_STONE_ONLY"),
            MaterialFlag::BodyComp => string_of("USE_BODY_COMPONENT"),
            MaterialFlag::CanUseLocation => string_of("CAN_USE_LOCATION_RESERVED"),
            MaterialFlag::NoEdge => string_of("NO_EDGE_ALLOWED"),
            MaterialFlag::Edge => string_of("HAS_EDGE"),
            MaterialFlag::NotEngraved => string_of("NOT_ENGRAVED"),
            MaterialFlag::WritingImprovment => string_of("HAS_WRITING_IMPROVEMENT"),
            MaterialFlag::NotAbsorb => string_of("DOES_NOT_ABSORB"),
            MaterialFlag::Unrotten => string_of("UNROTTEN"),
            MaterialFlag::NotWeb => string_of("NOT_WEB"),
            MaterialFlag::Web => string_of("WEB_ONLY"),
            MaterialFlag::CanUseArtifact => string_of("CAN_USE_ARTIFACT"),
            MaterialFlag::OnGround => string_of("ON_GROUND"),
        }
    }

    /// The value that a raw token names.
    pub fn from(string: String) -> (r: Self)
        ensures
            r == material_flag_from(string@),
    {
        if str_eq(string.as_str(), "IS_DIVINE_MATERIAL") {
            MaterialFlag::DivineMaterial
        } else if str_eq(string.as_str(), "IS_CRAFTED_ARTIFACT") {
            MaterialFlag::Artifact
        } else if str_eq(string.as_str(), "NOT_ARTIFACT") {
            MaterialFlag::NotArtifact
        } else if str_eq(string.as_str(), "ANY_LEATHER_MATERIAL") {
            MaterialFlag::Leather
        } else if str_eq(string.as_str(), "ANY_BONE_MATERIAL") {
            MaterialFlag::Bone
        } else if str_eq(string.as_str(), "ANY_SHELL_MATERIAL") {
            MaterialFlag::Shell
        } else if str_eq(string.as_str(), "ANY_WOOD_MATERIAL") {
            MaterialFlag::Wood
        } else if str_eq(string.as_str(), "WOVEN_ITEM") {
            MaterialFlag::Woven
        } else if str_eq(string.as_str(), "ANY_SILK_MATERIAL") {
            MaterialFlag::Silk
        } else if str_eq(string.as_str(), "ANY_YARN_MATERIAL") {
            MaterialFlag::Yarn
        } else if str_eq(string.as_str(), "ANY_PLANT_MATERIAL") {
            MaterialFlag::Plant
        } else if str_eq(string.as_str(), "NOT_IMPROVED") {
            MaterialFlag::NotImproved
        } else if str_eq(string.as_str(), "EMPTY") {
            MaterialFlag::Empty
        } else if str_eq(string.as_str(), "ANY_STONE_MATERIAL") {
            MaterialFlag::Stone
        } else if str_eq(string.as_str(), "ANY_GEM_MATERIAL") {
            MaterialFlag::Gem
        } else if str_eq(string.as_str(), "ANY_TOOTH_MATERIAL") {
            MaterialFlag::Tooth
        } else if str_eq(string.as_str(), "ANY_HORN_MATERIAL") {
            MaterialFlag::Horn
        } else if str_eq(string.as_str(), "ANY_PEARL_MATERIAL") {
            MaterialFlag::Pearl
        } else if str_eq(string.as_str(), "ANY_SOAP_MATERIAL") {
            MaterialFlag::Soap
        } else if str_eq(string.as_str(), "HARD_ITEM_MATERIAL") {
            MaterialFlag::HardMat
        } else if str_eq(string.as_str(), "METAL_ITEM_MATERIAL") {
            MaterialFlag::Metal
        } else if str_eq(string.as_str(), "GLASS_MATERIAL") {
            MaterialFlag::Glass
        } else if str_eq(string.as_str(), "IS_SAND_MATERIAL") {
            MaterialFlag::Sand
        } else if str_eq(string.as_str(), "ANY_STRAND_TISSUE") {
            MaterialFlag::StrandTissue
        } else if str_eq(string.as_str(), "CONTAINS_LYE") {
            MaterialFlag::Lye
        } else if str_eq(string.as_str(), "POTASHABLE") {
            MaterialFlag::Potashable
        } else if str_eq(string.as_str(), "FOOD_STORAGE_CONTAINER") {
            MaterialFlag::FoodStorage
        } else if str_eq(string.as_str(), "NOT_CONTAIN_BARREL_ITEM") {
            MaterialFlag::EmptyBarrel
        } else if str_eq(string.as_str(), "NOT_PRESSED") {
            MaterialFlag::NotPressed
        } else if str_eq(string.as_str(), "FIRE_BUILD_SAFE") {
            MaterialFlag::FireSafe
        } else if str_eq(string.as_str(), "MAGMA_BUILD_SAFE") {
            MaterialFlag::MagmaSafe
        } else if str_eq(string.as_str(), "BUILDMAT") {
            MaterialFlag::BuildMat
        } else if str_eq(string.as_str(), "WORTHLESS_STONE_ONLY") {
            MaterialFlag::WorthlessStone
        } else if str_eq(string.as_str(), "USE_BODY_COMPONENT") {
            MaterialFlag::BodyComp
        } else if str_eq(string.as_str(), "CAN_USE_LOCATION_RESERVED") {
            MaterialFlag::CanUseLocation
        } else if str_eq(string.as_str(), "NO_EDGE_ALLOWED") {
            MaterialFlag::NoEdge
        } else if str_eq(string.as_str(), "HAS_EDGE") {
            MaterialFlag::Edge
        } else if str_eq(string.as_str(), "NOT_ENGRAVED") {
            MaterialFlag::NotEngraved
        } else if str_eq(string.as_str(), "HAS_WRITING_IMPROVEMENT") {
            MaterialFlag::WritingImprovment
        } else if str_eq(string.as_str(), "DOES_NOT_ABSORB") {
            MaterialFlag::NotAbsorb
        } else if str_eq(string.as_str(), "UNROTTEN") {
            MaterialFlag::Unrotten
        } else if str_eq(string.as_str(), "NOT_WEB") {
            MaterialFlag::NotWeb
        } else if str_eq(string.as_str(), "WEB_ONLY") {
            MaterialFlag::Web
        } else if str_eq(string.as_str(), "CAN_USE_ARTIFACT") {
            MaterialFlag::CanUseArtifact
        } else if str_eq(string.as_str(), "ON_GROUND") {
            MaterialFlag::OnGround
        } else {
            MaterialFlag::Unset
        }
    }

    /// The values offered for selection, in display order.
    pub fn iterator() -> (r: Vec<Self>)
        ensures
            r@ == seq![MaterialFlag::DivineMaterial, MaterialFlag::Artifact, MaterialFlag::NotArtifact, MaterialFlag::Leather, MaterialFlag::Bone, MaterialFlag::Shell, MaterialFlag::Wood, MaterialFlag::Woven, MaterialFlag::Silk, MaterialFlag::Yarn, MaterialFlag::Plant, MaterialFlag::NotImproved, MaterialFlag::Empty, MaterialFlag::Stone, MaterialFlag::Gem, MaterialFlag::Tooth, MaterialFlag::Horn, MaterialFlag::Pearl, MaterialFlag::Soap, MaterialFlag::HardMat, MaterialFlag::Metal, MaterialFlag::Glass, MaterialFlag::Sand, MaterialFlag::StrandTissue, MaterialFlag::Lye, MaterialFlag::Potashable, MaterialFlag::FoodStorage, MaterialFlag::EmptyBarrel, MaterialFlag::NotPressed, MaterialFlag::FireSafe, MaterialFlag::MagmaSafe, MaterialFlag::BuildMat, MaterialFlag::WorthlessStone, MaterialFlag::BodyComp, MaterialFlag::CanUseLocation, MaterialFlag::NoEdge, MaterialFlag::Edge, MaterialFlag::NotEngraved, MaterialFlag::WritingImprovment, MaterialFlag::NotAbsorb, MaterialFlag::Unrotten, MaterialFlag::NotWeb, MaterialFlag::Web, MaterialFlag::CanUseArtifact, MaterialFlag::OnGround],
    {
        let mut r: Vec<Self> = Vec::new();
        r.push(MaterialFlag::DivineMaterial);
        r.push(MaterialFlag::Artifact);
        r.push(MaterialFlag::NotArtifact);
        r.push(MaterialFlag::Leather);
        r.push(MaterialFlag::Bone);
        r.push(MaterialFlag::Shell);
        r.push(MaterialFlag::Wood);
        r.push(MaterialFlag::Woven);
        r.push(MaterialFlag::Silk);
        r.push(MaterialFlag::Yarn);
        r.push(MaterialFlag::Plant);
        r.push(MaterialFlag::NotImproved);
        r.push(MaterialFlag::Empty);
        r.push(MaterialFlag::Stone);
        r.push(MaterialFlag::Gem);
        r.push(MaterialFlag::Tooth);
        r.push(MaterialFlag::Horn);
        r.push(MaterialFlag::Pearl);
        r.push(MaterialFlag::Soap);
        r.push(MaterialFlag::HardMat);
        r.push(MaterialFlag::Metal);
        r.push(MaterialFlag::Glass);
        r.push(MaterialFlag::Sand);
        r.push(MaterialFlag::StrandTissue);
        r.push(MaterialFlag::Lye);
        r.push(MaterialFlag::Potashable);
        r.push(MaterialFlag::FoodStorage);
        r.push(MaterialFlag::EmptyBarrel);
        r.push(MaterialFlag::NotPressed);
        r.push(MaterialFlag::FireSafe);
        r.push(MaterialFlag::MagmaSafe);
        r.push(MaterialFlag::BuildMat);
        r.push(MaterialFlag::WorthlessStone);
        r.push(MaterialFlag::BodyComp);
        r.push(MaterialFlag::CanUseLocation);
        r.push(MaterialFlag::NoEdge);
        r.push(MaterialFlag::Edge);
        r.push(MaterialFlag::NotEngraved);
        r.push(MaterialFlag::WritingImprovment);
        r.push(MaterialFlag::NotAbsorb);
        r.push(MaterialFlag::Unrotten);
        r.push(MaterialFlag::NotWeb);
        r.push(MaterialFlag::Web);
        r.push(MaterialFlag::CanUseArtifact);
        r.push(MaterialFlag::OnGround);
        assert(r@ =~= seq![MaterialFlag::DivineMaterial, MaterialFlag::Artifact, MaterialFlag::NotArtifact, MaterialFlag::Leather, MaterialFlag::Bone, MaterialFlag::Shell, MaterialFlag::Wood, MaterialFlag::Woven, MaterialFlag::Silk, MaterialFlag::Yarn, MaterialFlag::Plant, MaterialFlag::NotImproved, MaterialFlag::Empty, MaterialFlag::Stone, MaterialFlag::Gem, MaterialFlag::Tooth, MaterialFlag::Horn, MaterialFlag::Pearl, MaterialFlag::Soap, MaterialFlag::HardMat, MaterialFlag::Metal, MaterialFlag::Glass, MaterialFlag::Sand, MaterialFlag::StrandTissue, MaterialFlag::Lye, MaterialFlag::Potashable, MaterialFlag::FoodStorage, MaterialFlag::EmptyBarrel, MaterialFlag::NotPressed, MaterialFlag::FireSafe, MaterialFlag::MagmaSafe, MaterialFlag::BuildMat, MaterialFlag::WorthlessStone, MaterialFlag::BodyComp, MaterialFlag::CanUseLocation, MaterialFlag::NoEdge, MaterialFlag::Edge, MaterialFlag::NotEngraved, MaterialFlag::WritingImprovment, MaterialFlag::NotAbsorb, MaterialFlag::Unrotten, MaterialFlag::NotWeb, MaterialFlag::Web, MaterialFlag::CanUseArtifact, MaterialFlag::OnGround]);
        r
    }
}

/// A body part appearance modifier a condition tests.
#[derive(Clone, Copy, Debug, PartialEq, Eq, Structural)]
pub enum BPAppMod {
    Unset,
    Thickness,
    Broadness,
    Length,
    Height,
    CloseSet,
    DeepSet,
    RoundVsNarrow,
    LargeIris,
    Upturned,
    Convex,
    SplayedOut,
    HangingLobes,
    Gaps,
    HighCheekbones,
    BroadChin,
    JuttingChin,
    SquareChin,
    DeepVoice,
    RaspyVoice,
}

/// The raw token of a `BPAppMod`.
pub open spec fn bpapp_mod_name(x: BPAppMod) -> Seq<char> {
    match x {
        BPAppMod::Unset => ""@,
        BPAppMod::Thickness => "THICKNESS"@,
        BPAppMod::Broadness => "BROADNESS"@,
        BPAppMod::Length => "LENGTH"@,
        BPAppMod::Height => "HEIGHT"@,
        BPAppMod::CloseSet => "CLOSE_SET"@,
        BPAppMod::DeepSet => "DEEP_SET"@,
        BPAppMod::RoundVsNarrow => "ROUND_VS_NARROW"@,
        BPAppMod::LargeIris => "LARGE_IRIS"@,
        BPAppMod::Upturned => "UPTURNED"@,
        BPAppMod::Convex => "CONVEX"@,
        BPAppMod::SplayedOut => "SPLAYED_OUT"@,
        BPAppMod::HangingLobes => "HANGING_LOBES"@,
        BPAppMod::Gaps => "GAPS"@,
        BPAppMod::HighCheekbones => "HIGH_CHEEKBONES"@,
        BPAppMod::BroadChin => "BROAD_CHIN"@,
        BPAppMod::JuttingChin => "JUTTING_CHIN"@,
        BPAppMod::SquareChin => "SQUARE_CHIN"@,
        BPAppMod::DeepVoice => "DEEP_VOICE"@,
        BPAppMod::RaspyVoice => "RASPY_VOICE"@,
    }
}

/// The `BPAppMod` that a raw token names.
pub open spec fn bpapp_mod_from(s: Seq<char>) -> BPAppMod {
    if s == "THICKNESS"@ {
        BPAppMod::Thickness
    } else if s == "BROADNESS"@ {
        BPAppMod::Broadness
    } else if s == "LENGTH"@ {
        BPAppMod::Length
    } else if s == "HEIGHT"@ {
        BPAppMod::Height
    } else if s == "CLOSE_SET"@ {
        BPAppMod::CloseSet
    } else if s == "DEEP_SET"@ {
        BPAppMod::DeepSet
    } else if s == "ROUND_VS_NARROW"@ {
        BPAppMod::RoundVsNarrow
    } else if s == "LARGE_IRIS"@ {
        BPAppMod::LargeIris
    } else if s == "UPTURNED"@ {
        BPAppMod::Upturned
    } else if s == "CONVEX"@ {
        BPAppMod::Convex
    } else if s == "SPLAYED_OUT"@ {
        BPAppMod::SplayedOut
    } else if s == "HANGING_LOBES"@ {
        BPAppMod::HangingLobes
    } else if s == "GAPS"@ {
        BPAppMod::Gaps
    } else if s == "HIGH_CHEEKBONES"@ {
        BPAppMod::HighCheekbones
    } else if s == "BROAD_CHIN"@ {
        BPAppMod::BroadChin
    } else if s == "JUTTING_CHIN"@ {
        BPAppMod::JuttingChin
    } else if s == "SQUARE_CHIN"@ {
        BPAppMod::SquareChin
    } else if s == "DEEP_VOICE"@ {
        BPAppMod::DeepVoice
    } else if s == "RASPY_VOICE"@ {
        BPAppMod::RaspyVoice
    } else {
        BPAppMod::Unset
    }
}

impl BPAppMod {
    /// The raw token of this value.
    pub fn name(&self) -> (r: String)
        ensures
            r@ == bpapp_mod_name(*self),
    {
        match self {
            BPAppMod::Unset => string_of(""),
            BPAppMod::Thickness => string_of("THICKNESS"),
            BPAppMod::Broadness => string_of("BROADNESS"),
            BPAppMod::Length => string_of("LENGTH"),
            BPAppMod::Height => string_of("HEIGHT"),
            BPAppMod::CloseSet => string_of("CLOSE_SET"),
            BPAppMod::DeepSet => string_of("DEEP_SET"),
            BPAppMod::RoundVsNarrow => string_of("ROUND_VS_NARROW"),
            BPAppMod::LargeIris => string_of("LARGE_IRIS"),
            BPAppMod::Upturned => string_of("UPTURNED"),
            BPAppMod::Convex => string_of("CONVEX"),
            BPAppMod::SplayedOut => string_of("SPLAYED_OUT"),
            BPAppMod::HangingLobes => string_of("HANGING_LOBES"),
            BPAppMod::Gaps => string_of("GAPS"),
            BPAppMod::HighCheekbones => string_of("HIGH_CHEEKBONES"),
            BPAppMod::BroadChin => string_of("BROAD_CHIN"),
            BPAppMod::JuttingChin => string_of("JUTTING_CHIN"),
            BPAppMod::SquareChin => string_of("SQUARE_CHIN"),
            BPAppMod::DeepVoice => string_of("DEEP_VOICE"),
            BPAppMod::RaspyVoice => string_of("RASPY_VOICE"),
        }
    }

    /// The value that a raw token names.
    pub fn from(string: String) -> (r: Self)
        ensures
            r == bpapp_mod_from(string@),
    {
        if str_eq(string.as_str(), "THICKNESS") {
            BPAppMod::Thickness
        } else if str_eq(string.as_str(), "BROADNESS") {
            BPAppMod::Broadness
        } else if str_eq(string.as_str(), "LENGTH") {
            BPAppMod::Length
        } else if str_eq(string.as_str(), "HEIGHT") {
            BPAppMod::Height
        } else if str_eq(string.as_str(), "CLOSE_SET") {
            BPAppMod::CloseSet
        } else if str_eq(string.as_str(), "DEEP_SET") {
            BPAppMod::DeepSet
        } else if str_eq(string.as_str(), "ROUND_VS_NARROW") {
            BPAppMod::RoundVsNarrow
        } else if str_eq(string.as_str(), "LARGE_IRIS") {
            BPAppMod::LargeIris
        } else if str_eq(string.as_str(), "UPTURNED") {
            BPAppMod::Upturned
        } else if str_eq(string.as_str(), "CONVEX") {
            BPAppMod::Convex
        } else if str_eq(string.as_str(), "SPLAYED_OUT") {
            BPAppMod::SplayedOut
        } else if str_eq(string.as_str(), "HANGING_LOBES") {
            BPAppMod::HangingLobes
        } else if str_eq(string.as_str(), "GAPS") {
            BPAppMod::Gaps
        } else if str_eq(string.as_str(), "HIGH_CHEEKBONES") {
            BPAppMod::HighCheekbones
        } else if str_eq(string.as_str(), "BROAD_CHIN") {
            BPAppMod::BroadChin
        } else if str_eq(string.as_str(), "JUTTING_CHIN") {
            BPAppMod::JuttingChin
        } else if str_eq(string.as_str(), "SQUARE_CHIN") {
            BPAppMod::SquareChin
        } else if str_eq(string.as_str(), "DEEP_VOICE") {
            BPAppMod::DeepVoice
        } else if str_eq(string.as_str(), "RASPY_VOICE") {
            BPAppMod::RaspyVoice
        } else {
            BPAppMod::Unset
        }
    }

    /// The values offered for selection, in display order.
    pub fn iterator() -> (r: Vec<Self>)
        ensures
            r@ == seq![BPAppMod::Thickness, BPAppMod::Broadness, BPAppMod::Length, BPAppMod::Height, BPAppMod::CloseSet, BPAppMod::DeepSet, BPAppMod::RoundVsNarrow, BPAppMod::LargeIris, BPAppMod::Upturned, BPAppMod::Convex, BPAppMod::SplayedOut, BPAppMod::HangingLobes, BPAppMod::Gaps, BPAppMod::HighCheekbones, BPAppMod::BroadChin, BPAppMod::JuttingChin, BPAppMod::SquareChin, BPAppMod::DeepVoice, BPAppMod::RaspyVoice],
    {
        let mut r: Vec<Self> = Vec::new();
        r.push(BPAppMod::Thickness);
        r.push(BPAppMod::Broadness);
        r.push(BPAppMod::Length);
        r.push(BPAppMod::Height);
        r.push(BPAppMod::CloseSet);
        r.push(BPAppMod::DeepSet);
        r.push(BPAppMod::RoundVsNarrow);
        r.push(BPAppMod::LargeIris);
        r.push(BPAppMod::Upturned);
        r.push(BPAppMod::Convex);
        r.push(BPAppMod::SplayedOut);
        r.push(BPAppMod::HangingLobes);
        r.push(BPAppMod::Gaps);
        r.push(BPAppMod::HighCheekbones);
        r.push(BPAppMod::BroadChin);
        r.push(BPAppMod::JuttingChin);
        r.push(BPAppMod::SquareChin);
        r.push(BPAppMod::DeepVoice);
        r.push(BPAppMod::RaspyVoice);
        assert(r@ =~= seq![BPAppMod::Thickness, BPAppMod::Broadness, BPAppMod::Length, BPAppMod::Height, BPAppMod::CloseSet, BPAppMod::DeepSet, BPAppMod::RoundVsNarrow, BPAppMod::LargeIris, BPAppMod::Upturned, BPAppMod::Convex, BPAppMod::SplayedOut, BPAppMod::HangingLobes, BPAppMod::Gaps, BPAppMod::HighCheekbones, BPAppMod::BroadChin, BPAppMod::JuttingChin, BPAppMod::SquareChin, BPAppMod::DeepVoice, BPAppMod::RaspyVoice]);
        r
    }
}

/// The kind of equipment an item condition names.
#[derive(Clone, Copy, Debug, PartialEq, Eq, Structural)]
pub enum Equipment {
    Unset,
    Armor,
    Helm,
    Gloves,
    Shoes,
    Pants,
    Shield,
    Weapon,
    Tool,
    Any,
}

/// The raw token of a `Equipment`.
pub open spec fn equipment_name(x: Equipment) -> Seq<char> {
    match x {
        Equipment::Unset => ""@,
        Equipment::Armor => "ARMOR"@,
        Equipment::Helm => "HELM"@,
        Equipment::Gloves => "GLOVES"@,
        Equipment::Shoes => "SHOES"@,
        Equipment::Pants => "PANTS"@,
        Equipment::Shield => "SHIELD"@,
        Equipment::Weapon => "WEAPON"@,
        Equipment::Tool => "TOOL"@,
        Equipment::Any => "ANY"@,
    }
}

/// The `Equipment` that a raw token names.
pub open spec fn equipment_from(s: Seq<char>) -> Equipment {
    if s == "ARMOR"@ {
        Equipment::Armor
    } else if s == "HELM"@ {
        Equipment::Helm
    } else if s == "GLOVES"@ {
        Equipment::Gloves
    } else if s == "SHOES"@ {
        Equipment::Shoes
    } else if s == "PANTS"@ {
        Equipment::Pants
    } else if s == "SHIELD"@ {
        Equipment::Shield
    } else if s == "WEAPON"@ {
        Equipment::Weapon
    } else if s == "TOOL"@ {
        Equipment::Tool
    } else if s == "ANY"@ {
        Equipment::Any
    } else {
        Equipment::Unset
    }
}

impl Equipment {
    /// The raw token of this value.
    pub fn name(&self) -> (r: String)
        ensures
            r@ == equipment_name(*self),
    {
        match self {
            Equipment::Unset => string_of(""),
            Equipment::Armor => string_of("ARMOR"),
            Equipment::Helm => string_of("HELM"),
            Equipment::Gloves => string_of("GLOVES"),
            Equipment::Shoes => string_of("SHOES"),
            Equipment::Pants => string_of("PANTS"),
            Equipment::Shield => string_of("SHIELD"),
            Equipment::Weapon => string_of("WEAPON"),
            Equipment::Tool => string_of("TOOL"),
            Equipment::Any => string_of("ANY"),
        }
    }

    /// The value that a raw token names.
    pub fn from(string: String) -> (r: Self)
        ensures
            r == equipment_from(string@),
    {
        if str_eq(string.as_str(), "ARMOR") {
            Equipment::Armor
        } else if str_eq(string.as_str(), "HELM") {
            Equipment::Helm
        } else if str_eq(string.as_str(), "GLOVES") {
            Equipment::Gloves
        } else if str_eq(string.as_str(), "SHOES") {
            Equipment::Shoes
        } else if str_eq(string.as_str(), "PANTS") {
            Equipment::Pants
        } else if str_eq(string.as_str(), "SHIELD") {
            Equipment::Shield
        } else if str_eq(string.as_str(), "WEAPON") {
            Equipment::Weapon
        } else if str_eq(string.as_str(), "TOOL") {
            Equipment::Tool
        } else if str_eq(string.as_str(), "ANY") {
            Equipment::Any
        } else {
            Equipment::Unset
        }
    }

    /// The values offered for selection, in display order.
    pub fn iterator() -> (r: Vec<Self>)
        ensures
            r@ == seq![Equipment::Armor, Equipment::Helm, Equipment::Gloves, Equipment::Shoes, Equipment::Pants, Equipment::Shield, Equipment::Weapon, Equipment::Tool, Equipment::Any],
    {
        let mut r: Vec<Self> = Vec::new();
        r.push(Equipment::Armor);
        r.push(Equipment::Helm);
        r.push(Equipment::Gloves);
        r.push(Equipment::Shoes);
        r.push(Equipment::Pants);
        r.push(Equipment::Shield);
        r.push(Equipment::Weapon);
        r.push(Equipment::Tool);
        r.push(Equipment::Any);
        assert(r@ =~= seq![Equipment::Armor, Equipment::Helm, Equipment::Gloves, Equipment::Shoes, Equipment::Pants, Equipment::Shield, Equipment::Weapon, Equipment::Tool, Equipment::Any]);
        r
    }
}

/// A profession category a condition tests for.
#[derive(Clone, Debug, PartialEq)]
pub enum Profession<S = String> {
    Empty,
    Stoneworker,
    Miner,
    Metalsmith,
    Engineer,
    Farmer,
    Woodworker,
    Jeweler,
    Ranger,
    Standard,
    Craftsman,
    FisheryWorker,
    Merchant,
    Child,
    NoneCategory,
    Custom(S),
}

impl View for Profession<String> {
    type V = Profession<Seq<char>>;

    open spec fn view(&self) -> Profession<Seq<char>> {
        match self {
            Profession::Empty => Profession::Empty,
            Profession::Stoneworker => Profession::Stoneworker,
            Profession::Miner => Profession::Miner,
            Profession::Metalsmith => Profession::Metalsmith,
            Profession::Engineer => Profession::Engineer,
            Profession::Farmer => Profession::Farmer,
            Profession::Woodworker => Profession::Woodworker,
            Profession::Jeweler => Profession::Jeweler,
            Profession::Ranger => Profession::Ranger,
            Profession::Standard => Profession::Standard,
            Profession::Craftsman => Profession::Craftsman,
            Profession::FisheryWorker => Profession::FisheryWorker,
            Profession::Merchant => Profession::Merchant,
            Profession::Child => Profession::Child,
            Profession::NoneCategory => Profession::NoneCategory,
            Profession::Custom(s) => Profession::Custom(s@),
        }
    }
}

/// The raw token of a `Profession`.
pub open spec fn profession_name(x: Profession<Seq<char>>) -> Seq<char> {
    match x {
        Profession::Empty => ""@,
        Profession::Stoneworker => "STONEWORKER"@,
        Profession::Miner => "MINER"@,
        Profession::Metalsmith => "METALSMITH"@,
        Profession::Engineer => "ENGINEER"@,
        Profession::Farmer => "FARMER"@,
        Profession::Woodworker => "WOODWORKER"@,
        Profession::Jeweler => "JEWELER"@,
        Profession::Ranger => "RANGER"@,
        Profession::Standard => "STANDARD"@,
        Profession::Craftsman => "CRAFTSMAN"@,
        Profession::FisheryWorker => "FISHERY_WORKER"@,
        Profession::Merchant => "MERCHANT"@,
        Profession::Child => "CHILD"@,
        Profession::NoneCategory => "NONE"@,
        Profession::Custom(s) => case_converted(s, CaseBoundaries::Space, TextCase::UpperSnake),
    }
}

/// The `Profession` that a raw token names.
pub open spec fn profession_from(s: Seq<char>) -> Profession<Seq<char>> {
    if s == "STONEWORKER"@ {
        Profession::Stoneworker
    } else if s == "MINER"@ {
        Profession::Miner
    } else if s == "METALSMITH"@ {
        Profession::Metalsmith
    } else if s == "ENGINEER"@ {
        Profession::Engineer
    } else if s == "FARMER"@ {
        Profession::Farmer
    } else if s == "WOODWORKER"@ {
        Profession::Woodworker
    } else if s == "JEWELER"@ {
        Profession::Jeweler
    } else if s == "RANGER"@ {
        Profession::Ranger
    } else if s == "STANDARD"@ {
        Profession::Standard
    } else if s == "CRAFTSMAN"@ {
        Profession::Craftsman
    } else if s == "FISHERY_WORKER"@ {
        Profession::FisheryWorker
    } else if s == "MERCHANT"@ {
        Profession::Merchant
    } else if s == "NONE"@ {
        Profession::NoneCategory
    } else {
        Profession::Custom(s)
    }
}

impl Profession {
    /// The raw token of this value.
    pub fn name(&self) -> (r: String)
        ensures
            r@ == profession_name(self@),
    {
        match self {
            Profession::Empty => string_of(""),
            Profession::Stoneworker => string_of("STONEWORKER"),
            Profession::Miner => string_of("MINER"),
            Profession::Metalsmith => string_of("METALSMITH"),
            Profession::Engineer => string_of("ENGINEER"),
            Profession::Farmer => string_of("FARMER"),
            Profession::Woodworker => string_of("WOODWORKER"),
            Profession::Jeweler => string_of("JEWELER"),
            Profession::Ranger => string_of("RANGER"),
            Profession::Standard => string_of("STANDARD"),
            Profession::Craftsman => string_of("CRAFTSMAN"),
            Profession::FisheryWorker => string_of("FISHERY_WORKER"),
            Profession::Merchant => string_of("MERCHANT"),
            Profession::Child => string_of("CHILD"),
            Profession::NoneCategory => string_of("NONE"),
            Profession::Custom(s) => convert_case(s.as_str(), CaseBoundaries::Space, TextCase::UpperSnake),
        }
    }

    /// The value that a raw token names.
    pub fn from(string: String) -> (r: Self)
        ensures
            r@ == profession_from(string@),
    {
        if str_eq(string.as_str(), "STONEWORKER") {
            Profession::Stoneworker
        } else if str_eq(string.as_str(), "MINER") {
            Profession::Miner
        } else if str_eq(string.as_str(), "METALSMITH") {
            Profession::Metalsmith
        } else if str_eq(string.as_str(), "ENGINEER") {
            Profession::Engineer
        } else if str_eq(string.as_str(), "FARMER") {
            Profession::Farmer
        } else if str_eq(string.as_str(), "WOODWORKER") {
            Profession::Woodworker
        } else if str_eq(string.as_str(), "JEWELER") {
            Profession::Jeweler
        } else if str_eq(string.as_str(), "RANGER") {
            Profession::Ranger
        } else if str_eq(string.as_str(), "STANDARD") {
            Profession::Standard
        } else if str_eq(string.as_str(), "CRAFTSMAN") {
            Profession::Craftsman
        } else if str_eq(string.as_str(), "FISHERY_WORKER") {
            Profession::FisheryWorker
        } else if str_eq(string.as_str(), "MERCHANT") {
            Profession::Merchant
        } else if str_eq(string.as_str(), "NONE") {
            Profession::NoneCategory
        } else {
            Profession::Custom(string)
        }
    }

    /// The values offered for selection, in display order.
    pub fn iterator() -> (r: Vec<Self>)
        ensures
            r@ == seq![Profession::<String>::Standard, Profession::<String>::Stoneworker, Profession::<String>::Miner, Profession::<String>::Metalsmith, Profession::<String>::Engineer, Profession::<String>::Farmer, Profession::<String>::Woodworker, Profession::<String>::Jeweler, Profession::<String>::Ranger, Profession::<String>::Craftsman, Profession::<String>::FisheryWorker, Profession::<String>::Merchant, Profession::<String>::NoneCategory],
    {
        let mut r: Vec<Self> = Vec::new();
        r.push(Profession::Standard);
        r.push(Profession::Stoneworker);
        r.push(Profession::Miner);
        r.push(Profession::Metalsmith);
        r.push(Profession::Engineer);
        r.push(Profession::Farmer);
        r.push(Profession::Woodworker);
        r.push(Profession::Jeweler);
        r.push(Profession::Ranger);
        r.push(Profession::Craftsman);
        r.push(Profession::FisheryWorker);
        r.push(Profession::Merchant);
        r.push(Profession::NoneCategory);
        assert(r@ =~= seq![Profession::<String>::Standard, Profession::<String>::Stoneworker, Profession::<String>::Miner, Profession::<String>::Metalsmith, Profession::<String>::Engineer, Profession::<String>::Farmer, Profession::<String>::Woodworker, Profession::<String>::Jeweler, Profession::<String>::Ranger, Profession::<String>::Craftsman, Profession::<String>::FisheryWorker, Profession::<String>::Merchant, Profession::<String>::NoneCategory]);
        r
    }
}

/// A syndrome class a condition tests for.
#[derive(Clone, Debug, PartialEq)]
pub enum SyndromeClass<S = String> {
    Zombie,
    Necromancer,
    Vampcurse,
    RaisedUndead,
    DisturbedDead,
    Ghoul,
    Custom(S),
}

impl View for SyndromeClass<String> {
    type V = SyndromeClass<Seq<char>>;

    open spec fn view(&self) -> SyndromeClass<Seq<char>> {
        match self {
            SyndromeClass::Zombie => SyndromeClass::Zombie,
            SyndromeClass::Necromancer => SyndromeClass::Necromancer,
            SyndromeClass::Vampcurse => SyndromeClass::Vampcurse,
            SyndromeClass::RaisedUndead => SyndromeClass::RaisedUndead,
            SyndromeClass::DisturbedDead => SyndromeClass::DisturbedDead,
            SyndromeClass::Ghoul => SyndromeClass::Ghoul,
            SyndromeClass::Custom(s) => SyndromeClass::Custom(s@),
        }
    }
}

/// The raw token of a `SyndromeClass`.
pub open spec fn syndrome_class_name(x: SyndromeClass<Seq<char>>) -> Seq<char> {
    match x {
        SyndromeClass::Zombie => "ZOMBIE"@,
        SyndromeClass::Necromancer => "NECROMANCER"@,
        SyndromeClass::Vampcurse => "VAMPCURSE"@,
        SyndromeClass::RaisedUndead => "RAISED_UNDEAD"@,
        SyndromeClass::DisturbedDead => "DISTURBED_DEAD"@,
        SyndromeClass::Ghoul => "GHOUL"@,
        SyndromeClass::Custom(s) => case_converted(s, CaseBoundaries::Space, TextCase::UpperSnake),
    }
}

/// The `SyndromeClass` that a raw token names.
pub open spec fn syndrome_class_from(s: Seq<char>) -> SyndromeClass<Seq<char>> {
    if s == "ZOMBIE"@ {
        SyndromeClass::Zombie
    } else if s == "NECROMANCER"@ {
        SyndromeClass::Necromancer
    } else if s == "VAMPCURSE"@ {
        SyndromeClass::Vampcurse
    } else if s == "RAISED_UNDEAD"@ {
        SyndromeClass::RaisedUndead
    } else if s == "DISTURBED_DEAD"@ {
        SyndromeClass::DisturbedDead
    } else if s == "GHOUL"@ {
        SyndromeClass::Ghoul
    } else {
        SyndromeClass::Custom(s)
    }
}

impl SyndromeClass {
    /// The raw token of this value.
    pub fn name(&self) -> (r: String)
        ensures
            r@ == syndrome_class_name(self@),
    {
        match self {
            SyndromeClass::Zombie => string_of("ZOMBIE"),
            SyndromeClass::Necromancer => string_of("NECROMANCER"),
            SyndromeClass::Vampcurse => string_of("VAMPCURSE"),
            SyndromeClass::RaisedUndead => string_of("RAISED_UNDEAD"),
            SyndromeClass::DisturbedDead => string_of("DISTURBED_DEAD"),
            SyndromeClass::Ghoul => string_of("GHOUL"),
            SyndromeClass::Custom(s) => convert_case(s.as_str(), CaseBoundaries::Space, TextCase::UpperSnake),
        }
    }

    /// The value that a raw token names.
    pub fn from(string: String) -> (r: Self)
        ensures
            r@ == syndrome_class_from(string@),
    {
        if str_eq(string.as_str(), "ZOMBIE") {
            SyndromeClass::Zombie
        } else if str_eq(string.as_str(), "NECROMANCER") {
            SyndromeClass::Necromancer
        } else if str_eq(string.as_str(), "VAMPCURSE") {
            SyndromeClass::Vampcurse
        } else if str_eq(string.as_str(), "RAISED_UNDEAD") {
            SyndromeClass::RaisedUndead
        } else if str_eq(string.as_str(), "DISTURBED_DEAD") {
            SyndromeClass::DisturbedDead
        } else if str_eq(string.as_str(), "GHOUL") {
            SyndromeClass::Ghoul
        } else {
            SyndromeClass::Custom(string)
        }
    }

    /// The values offered for selection, in display order.
    pub fn iterator() -> (r: Vec<Self>)
        ensures
            r@ == seq![SyndromeClass::<String>::Zombie, SyndromeClass::<String>::Necromancer, SyndromeClass::<String>::Vampcurse, SyndromeClass::<String>::RaisedUndead, SyndromeClass::<String>::DisturbedDead, SyndromeClass::<String>::Ghoul],
    {
        let mut r: Vec<Self> = Vec::new();
        r.push(SyndromeClass::Zombie);
        r.push(SyndromeClass::Necromancer);
        r.push(SyndromeClass::Vampcurse);
        r.push(SyndromeClass::RaisedUndead);
        r.push(SyndromeClass::DisturbedDead);
        r.push(SyndromeClass::Ghoul);
        assert(r@ =~= seq![SyndromeClass::<String>::Zombie, SyndromeClass::<String>::Necromancer, SyndromeClass::<String>::Vampcurse, SyndromeClass::<String>::RaisedUndead, SyndromeClass::<String>::DisturbedDead, SyndromeClass::<String>::Ghoul]);
        r
    }
}

/// A tissue shaping a condition tests for.
#[derive(Clone, Copy, Debug, PartialEq, Eq, Structural)]
pub enum Shaping {
    StandardHair,
    StandardBeard,
    StandardMoustache,
    StandardSideburns,
    CleanShaven,
    NeatlyCombed,
    Braided,
    DoubleBraids,
    PonyTails,
}

/// The raw token of a `Shaping`.
pub open spec fn shaping_name(x: Shaping) -> Seq<char> {
    match x {
        Shaping::StandardHair => "STANDARD_HAIR_SHAPINGS"@,
        Shaping::StandardBeard => "STANDARD_BEARD_SHAPINGS"@,
        Shaping::StandardMoustache => "STANDARD_MOUSTACHE_SHAPINGS"@,
        Shaping::StandardSideburns => "STANDARD_SIDEBURNS_SHAPINGS"@,
        Shaping::CleanShaven => "CLEAN_SHAVEN"@,
        Shaping::NeatlyCombed => "NEATLY_COMBED"@,
        Shaping::Braided => "BRAIDED"@,
        Shaping::DoubleBraids => "DOUBLE_BRAIDS"@,
        Shaping::PonyTails => "PONY_TAILS"@,
    }
}

/// The `Shaping` that a raw token names.
pub open spec fn shaping_from(s: Seq<char>) -> Shaping {
    if s == "STANDARD_HAIR_SHAPINGS"@ {
        Shaping::StandardHair
    } else if s == "STANDARD_BEARD_SHAPINGS"@ {
        Shaping::StandardBeard
    } else if s == "STANDARD_MOUSTACHE_SHAPINGS"@ {
        Shaping::StandardMoustache
    } else if s == "STANDARD_SIDEBURNS_SHAPINGS"@ {
        Shaping::StandardSideburns
    } else if s == "CLEAN_SHAVEN"@ {
        Shaping::CleanShaven
    } else if s == "NEATLY_COMBED"@ {
        Shaping::NeatlyCombed
    } else if s == "BRAIDED"@ {
        Shaping::Braided
    } else if s == "DOUBLE_BRAIDS"@ {
        Shaping::DoubleBraids
    } else if s == "PONY_TAILS"@ {
        Shaping::PonyTails
    } else {
        Shaping::StandardHair
    }
}

impl Shaping {
    /// The raw token of this value.
    pub fn name(&self) -> (r: String)
        ensures
            r@ == shaping_name(*self),
    {
        match self {
            Shaping::StandardHair => string_of("STANDARD_HAIR_SHAPINGS"),
            Shaping::StandardBeard => string_of("STANDARD_BEARD_SHAPINGS"),
            Shaping::StandardMoustache => string_of("STANDARD_MOUSTACHE_SHAPINGS"),
            Shaping::StandardSideburns => string_of("STANDARD_SIDEBURNS_SHAPINGS"),
            Shaping::CleanShaven => string_of("CLEAN_SHAVEN"),
            Shaping::NeatlyCombed => string_of("NEATLY_COMBED"),
            Shaping::Braided => string_of("BRAIDED"),
            Shaping::DoubleBraids => string_of("DOUBLE_BRAIDS"),
            Shaping::PonyTails => string_of("PONY_TAILS"),
        }
    }

    /// The value that a raw token names.
    pub fn from(string: String) -> (r: Self)
        ensures
            r == shaping_from(string@),
    {
        if str_eq(string.as_str(), "STANDARD_HAIR_SHAPINGS") {
            Shaping::StandardHair
        } else if str_eq(string.as_str(), "STANDARD_BEARD_SHAPINGS") {
            Shaping::StandardBeard
        } else if str_eq(string.as_str(), "STANDARD_MOUSTACHE_SHAPINGS") {
            Shaping::StandardMoustache
        } else if str_eq(string.as_str(), "STANDARD_SIDEBURNS_SHAPINGS") {
            Shaping::StandardSideburns
        } else if str_eq(string.as_str(), "CLEAN_SHAVEN") {
            Shaping::CleanShaven
        } else if str_eq(string.as_str(), "NEATLY_COMBED") {
            Shaping::NeatlyCombed
        } else if str_eq(string.as_str(), "BRAIDED") {
            Shaping::Braided
        } else if str_eq(string.as_str(), "DOUBLE_BRAIDS") {
            Shaping::DoubleBraids
        } else if str_eq(string.as_str(), "PONY_TAILS") {
            Shaping::PonyTails
        } else {
            Shaping::StandardHair
        }
    }

    /// The values offered for selection, in display order.
    pub fn iterator() -> (r: Vec<Self>)
        ensures
            r@ == seq![Shaping::StandardHair, Shaping::StandardBeard, Shaping::StandardMoustache, Shaping::StandardSideburns, Shaping::CleanShaven, Shaping::NeatlyCombed, Shaping::Braided, Shaping::DoubleBraids, Shaping::PonyTails],
    {
        let mut r: Vec<Self> = Vec::new();
        r.push(Shaping::StandardHair);
        r.push(Shaping::StandardBeard);
        r.push(Shaping::StandardMoustache);
        r.push(Shaping::StandardSideburns);
        r.push(Shaping::CleanShaven);
        r.push(Shaping::NeatlyCombed);
        r.push(Shaping::Braided);
        r.push(Shaping::DoubleBraids);
        r.push(Shaping::PonyTails);
        assert(r@ =~= seq![Shaping::StandardHair, Shaping::StandardBeard, Shaping::StandardMoustache, Shaping::StandardSideburns, Shaping::CleanShaven, Shaping::NeatlyCombed, Shaping::Braided, Shaping::DoubleBraids, Shaping::PonyTails]);
        r
    }
}

} // verus!
