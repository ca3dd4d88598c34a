//! Conditions attached to layers, and palettes.
use vstd::prelude::*;
use crate::error::{index_error, parse_error, spec_index_error, spec_parse_error, DFGHError};
use crate::lines::{errors_within, errs, max_lines};
use crate::items::{
    body_part_type_display, body_part_type_from, color_from, color_name, item_type_from, BodyPartType, Color,
    ItemType,
};
use crate::text::{
    case_converted, convert_case, decimal, parse_u32, push_decimal, push_str, spec_parse_u32, str_eq, string_of,
    CaseBoundaries, TextCase,
};
use crate::tokens::{
    bpapp_mod_from, bpapp_mod_name, caste_from, caste_name, equipment_name, material_flag_from, material_flag_name,
    metal_from, metal_name, profession_from, profession_name, shaping_from, shaping_name, syndrome_class_from,
    syndrome_class_name, BPAppMod, Caste, MaterialFlag, Metal, Profession, Shaping, SyndromeClass,
};

verus! {

/// A palette of a layer set.
#[derive(Clone, Debug, PartialEq)]
pub struct Palette<S = String> {
    pub name: S,
    pub file_name: S,
    pub default_index: u32,
    pub max_row: u32,
}

impl View for Palette<String> {
    type V = Palette<Seq<char>>;

    open spec fn view(&self) -> Palette<Seq<char>> {
        Palette { name: self.name@, file_name: self.file_name@, default_index: self.default_index, max_row: self.max_row }
    }
}

/// The palette a freshly created layer set palette starts as.
pub open spec fn spec_palette_new() -> Palette<Seq<char>> {
    Palette { name: "(new)"@, file_name: Seq::empty(), default_index: 0, max_row: 255 }
}

impl Palette {
    /// A fresh palette.
    pub fn new() -> (r: Self)
        ensures
            r@ == spec_palette_new(),
    {
        Palette { name: string_of("(new)"), file_name: String::new(), default_index: 0, max_row: 255 }
    }

    /// Reads a palette: palettes are read with their layer set, so this is a
    /// fresh palette and no errors.
    pub fn read(buffer: Vec<Vec<String>>) -> (r: (Palette, Vec<DFGHError>))
        ensures
            r.0@ == spec_palette_new(),
            r.1@.len() == 0,
    {
        (Palette::new(), Vec::new())
    }

    /// A copy of this palette.
    pub fn duplicate(&self) -> (r: Self)
        ensures
            r@ == self@,
    {
        Palette {
            name: self.name.clone(),
            file_name: self.file_name.clone(),
            default_index: self.default_index,
            max_row: self.max_row,
        }
    }

    /// The raw text of this palette's three lines.
    pub fn display(&self) -> (r: String)
        ensures
            r@ == palette_display(self@),
    {
        let mut out = string_of("\t\t[LS_PALETTE:");
        push_str(&mut out, convert_case(self.name.as_str(), CaseBoundaries::SpaceLowerUpper, TextCase::UpperSnake).as_str());
        push_str(&mut out, "]\n            \t\t\t[LS_PALETTE_FILE:");
        push_str(
            &mut out,
            convert_case(self.file_name.as_str(), CaseBoundaries::SpaceLowerUpper, TextCase::UpperSnake).as_str(),
        );
        push_str(&mut out, "]\n            \t\t\t[LS_PALETTE_DEFAULT:");
        push_decimal(&mut out, self.default_index as u64);
        push_str(&mut out, "]\n\n");
        out
    }
}

/// `s` in upper snake case, split on spaces and lower-to-upper case changes.
pub open spec fn palette_case(s: Seq<char>) -> Seq<char> {
    case_converted(s, CaseBoundaries::SpaceLowerUpper, TextCase::UpperSnake)
}

/// The raw text of a palette.
pub open spec fn palette_display(p: Palette<Seq<char>>) -> Seq<char> {
    "\t\t[LS_PALETTE:"@ + palette_case(p.name) + "]\n            \t\t\t[LS_PALETTE_FILE:"@ + palette_case(p.file_name)
        + "]\n            \t\t\t[LS_PALETTE_DEFAULT:"@ + decimal(p.default_index as nat) + "]\n\n"@
}

/// A condition under which a layer is drawn.
#[derive(Clone, Debug, PartialEq)]
pub enum Condition {
    Default,
    ItemWorn(ItemType, Vec<String>),
    ShutOffIfItemPresent(ItemType, Vec<String>),
    Dye(Color),
    NotDyed,
    MaterialFlag(Vec<MaterialFlag>),
    MaterialType(Metal),
    ProfessionCategory(Vec<Profession>),
    RandomPartIndex(String, u32, u32),
    HaulCountMin(u32),
    HaulCountMax(u32),
    Child,
    NotChild,
    Caste(Caste),
    IsGhost,
    SynClass(SyndromeClass),
    TissueLayer(String, String),
    TissueMinLength(u32),
    TissueMaxLength(u32),
    TissueMayHaveColor(Vec<Color>),
    TissueMayHaveShaping(Vec<Shaping>),
    TissueNotShaped,
    TissueSwap(String, u32, String, [u32; 2], Option<[u32; 2]>),
    ItemQuality(u32),
    UsePalette(Palette, u32),
    UseStandardPalette,
    ConditionBP(BodyPartType),
    LGConditionBP(BodyPartType),
    BPAppearanceModifierRange(BPAppMod, u32, u32),
    BPPresent,
    BPScarred,
    Custom(String),
}

/// The view of a [`Condition`].
pub enum SpecCondition {
    Default,
    ItemWorn(ItemType<Seq<char>>, Seq<Seq<char>>),
    ShutOffIfItemPresent(ItemType<Seq<char>>, Seq<Seq<char>>),
    Dye(Color<Seq<char>>),
    NotDyed,
    MaterialFlag(Seq<MaterialFlag>),
    MaterialType(Metal<Seq<char>>),
    ProfessionCategory(Seq<Profession<Seq<char>>>),
    RandomPartIndex(Seq<char>, u32, u32),
    HaulCountMin(u32),
    HaulCountMax(u32),
    Child,
    NotChild,
    Caste(Caste<Seq<char>>),
    IsGhost,
    SynClass(SyndromeClass<Seq<char>>),
    TissueLayer(Seq<char>, Seq<char>),
    TissueMinLength(u32),
    TissueMaxLength(u32),
    TissueMayHaveColor(Seq<Color<Seq<char>>>),
    TissueMayHaveShaping(Seq<Shaping>),
    TissueNotShaped,
    TissueSwap(Seq<char>, u32, Seq<char>, [u32; 2], Option<[u32; 2]>),
    ItemQuality(u32),
    UsePalette(Palette<Seq<char>>, u32),
    UseStandardPalette,
    ConditionBP(BodyPartType<Seq<char>>),
    LGConditionBP(BodyPartType<Seq<char>>),
    BPAppearanceModifierRange(BPAppMod, u32, u32),
    BPPresent,
    BPScarred,
    Custom(Seq<char>),
}

impl View for Condition {
    type V = SpecCondition;

    open spec fn view(&self) -> SpecCondition {
        match self {
            Condition::Default => SpecCondition::Default,
            Condition::ItemWorn(t, items) => SpecCondition::ItemWorn(t@, items.deep_view()),
            Condition::ShutOffIfItemPresent(t, items) => SpecCondition::ShutOffIfItemPresent(t@, items.deep_view()),
            Condition::Dye(c) => SpecCondition::Dye(c@),
            Condition::NotDyed => SpecCondition::NotDyed,
            Condition::MaterialFlag(v) => SpecCondition::MaterialFlag(v@),
            Condition::MaterialType(m) => SpecCondition::MaterialType(m@),
            Condition::ProfessionCategory(v) => SpecCondition::ProfessionCategory(v@.map_values(|p: Profession| p@)),
            Condition::RandomPartIndex(s, a, b) => SpecCondition::RandomPartIndex(s@, *a, *b),
            Condition::HaulCountMin(a) => SpecCondition::HaulCountMin(*a),
            Condition::HaulCountMax(a) => SpecCondition::HaulCountMax(*a),
            Condition::Child => SpecCondition::Child,
            Condition::NotChild => SpecCondition::NotChild,
            Condition::Caste(c) => SpecCondition::Caste(c@),
            Condition::IsGhost => SpecCondition::IsGhost,
            Condition::SynClass(c) => SpecCondition::SynClass(c@),
            Condition::TissueLayer(a, b) => SpecCondition::TissueLayer(a@, b@),
            Condition::TissueMinLength(a) => SpecCondition::TissueMinLength(*a),
            Condition::TissueMaxLength(a) => SpecCondition::TissueMaxLength(*a),
            Condition::TissueMayHaveColor(v) => SpecCondition::TissueMayHaveColor(v@.map_values(|c: Color| c@)),
            Condition::TissueMayHaveShaping(v) => SpecCondition::TissueMayHaveShaping(v@),
            Condition::TissueNotShaped => SpecCondition::TissueNotShaped,
            Condition::TissueSwap(a, n, t, c, l) => SpecCondition::TissueSwap(a@, *n, t@, *c, *l),
            Condition::ItemQuality(a) => SpecCondition::ItemQuality(*a),
            Condition::UsePalette(p, r) => SpecCondition::UsePalette(p@, *r),
            Condition::UseStandardPalette => SpecCondition::UseStandardPalette,
            Condition::ConditionBP(b) => SpecCondition::ConditionBP(b@),
            Condition::LGConditionBP(b) => SpecCondition::LGConditionBP(b@),
            Condition::BPAppearanceModifierRange(m, a, b) => SpecCondition::BPAppearanceModifierRange(*m, *a, *b),
            Condition::BPPresent => SpecCondition::BPPresent,
            Condition::BPScarred => SpecCondition::BPScarred,
            Condition::Custom(s) => SpecCondition::Custom(s@),
        }
    }
}

/// The name of a condition's kind, as shown in the editor.
pub open spec fn condition_name(c: SpecCondition) -> Seq<char> {
    match c {
        SpecCondition::Default => "(default)"@,
        SpecCondition::ItemWorn(..) => "CONDITION_ITEM_WORN"@,
        SpecCondition::ShutOffIfItemPresent(..) => "SHUT_OFF_IF_ITEM_PRESENT"@,
        SpecCondition::Dye(..) => "CONDITION_DYE"@,
        SpecCondition::NotDyed => "CONDITION_NOT_DYED"@,
        SpecCondition::MaterialFlag(..) => "CONDITION_MATERIAL_FLAG"@,
        SpecCondition::MaterialType(..) => "CONDITION_MATERIAL_TYPE"@,
        SpecCondition::ProfessionCategory(..) => "CONDITION_PROFESSION_CATEGORY"@,
        SpecCondition::RandomPartIndex(..) => "CONDITION_RANDOM_PART_INDEX"@,
        SpecCondition::HaulCountMin(..) => "CONDITION_HAUL_COUNT_MIN"@,
        SpecCondition::HaulCountMax(..) => "CONDITION_HAUL_COUNT_MAX"@,
        SpecCondition::Child => "CONDITION_CHILD"@,
        SpecCondition::NotChild => "CONDITION_NOT_CHILD"@,
        SpecCondition::Caste(..) => "CONDITION_CASTE"@,
        SpecCondition::IsGhost => "CONDITION_GHOST"@,
        SpecCondition::SynClass(..) => "CONDITION_SYN_CLASS"@,
        SpecCondition::TissueLayer(..) => "CONDITION_TISSUE_LAYER"@,
        SpecCondition::TissueMinLength(..) => "TISSUE_MIN_LENGTH"@,
        SpecCondition::TissueMaxLength(..) => "TISSUE_MAX_LENGTH"@,
        SpecCondition::TissueMayHaveColor(..) => "TISSUE_MAY_HAVE_COLOR"@,
        SpecCondition::TissueMayHaveShaping(..) => "TISSUE_MAY_HAVE_SHAPING"@,
        SpecCondition::TissueNotShaped => "TISSUE_NOT_SHAPED"@,
        SpecCondition::TissueSwap(..) => "TISSUE_SWAP"@,
        SpecCondition::ItemQuality(..) => "ITEM_QUALITY"@,
        SpecCondition::UsePalette(..) => "USE_PALETTE"@,
        SpecCondition::UseStandardPalette => "USE_STANDARD_PALETTE"@,
        SpecCondition::ConditionBP(..) => "CONDITION_BP"@,
        SpecCondition::LGConditionBP(..) => "LG_CONDITION_BP"@,
        SpecCondition::BPAppearanceModifierRange(..) => "BP_APP_MOD_RANGE"@,
        SpecCondition::BPPresent => "BP_PRESENT"@,
        SpecCondition::BPScarred => "BP_SCARRED"@,
        SpecCondition::Custom(..) => "(custom)"@,
    }
}

/// `s` in upper snake case, split on spaces.
pub open spec fn upper_snake(s: Seq<char>) -> Seq<char> {
    case_converted(s, CaseBoundaries::Space, TextCase::UpperSnake)
}

/// `s` in upper snake case, split on spaces.
pub fn to_upper_snake(s: &str) -> (r: String)
    ensures
        r@ == upper_snake(s@),
{
    convert_case(s, CaseBoundaries::Space, TextCase::UpperSnake)
}

/// Each of `names` preceded by a colon, concatenated.
pub open spec fn colon_list(names: Seq<Seq<char>>) -> Seq<char>
    decreases names.len(),
{
    if names.len() == 0 {
        seq![]
    } else {
        colon_list(names.drop_last()) + ":"@ + names.last()
    }
}

/// The selector fields of an item condition.
pub open spec fn item_selector_text(t: ItemType<Seq<char>>) -> Seq<char> {
    match t {
        ItemType::ByCategory(c, e) => "BY_CATEGORY:"@ + upper_snake(c) + ":"@ + equipment_name(e),
        ItemType::ByToken(c, e) => "BY_TOKEN:"@ + upper_snake(c) + ":"@ + equipment_name(e),
        ItemType::AnyHeld(e) => "ANY_HELD:"@ + equipment_name(e),
        ItemType::Wield(e) => "WIELD:"@ + equipment_name(e),
        ItemType::Unset => seq![],
    }
}

/// Whether a condition can be written without a coordinate sum overflowing.
pub open spec fn condition_displayable(c: SpecCondition) -> bool {
    match c {
        SpecCondition::TissueSwap(_, _, _, xy, large) => match large {
            Some(l) => xy[0] + l[0] <= u32::MAX && xy[1] + l[1] <= u32::MAX,
            None => true,
        },
        _ => true,
    }
}

/// The raw text of a condition line.
pub open spec fn condition_display(c: SpecCondition) -> Seq<char> {
    match c {
        SpecCondition::Default => seq![],
        SpecCondition::ItemWorn(t, items) => "\t\t\t\t[CONDITION_ITEM_WORN:"@ + item_selector_text(t) + colon_list(
            items.map_values(|i: Seq<char>| upper_snake(i)),
        ) + "]\n"@,
        SpecCondition::ShutOffIfItemPresent(t, items) => "\t\t\t\t[SHUT_OFF_IF_ITEM_PRESENT:"@ + item_selector_text(t)
            + colon_list(items.map_values(|i: Seq<char>| upper_snake(i))) + "]\n"@,
        SpecCondition::Dye(c) => "\t\t\t\t[CONDITION_DYE:"@ + upper_snake(color_name(c)) + "]\n"@,
        SpecCondition::NotDyed => "\t\t\t\t[CONDITION_NOT_DYED]\n"@,
        SpecCondition::MaterialFlag(flags) => "\t\t\t\t[CONDITION_MATERIAL_FLAG"@ + colon_list(
            flags.map_values(|f: MaterialFlag| material_flag_name(f)),
        ) + "]\n"@,
        SpecCondition::MaterialType(m) => "\t\t\t\t[CONDITION_MATERIAL_TYPE:METAL:"@ + metal_name(m) + "]\n"@,
        SpecCondition::ProfessionCategory(ps) => "\t\t\t\t[CONDITION_PROFESSION_CATEGORY"@ + colon_list(
            ps.map_values(|p: Profession<Seq<char>>| profession_name(p)),
        ) + "]\n"@,
        SpecCondition::RandomPartIndex(id, i, m) => "\t\t\t\t[CONDITION_RANDOM_PART_INDEX:"@ + upper_snake(id) + ":"@
            + decimal(i as nat) + ":"@ + decimal(m as nat) + "]\n"@,
        SpecCondition::HaulCountMin(h) => "\t\t\t\t[CONDITION_HAUL_COUNT_MIN:"@ + decimal(h as nat) + "]\n"@,
        SpecCondition::HaulCountMax(h) => "\t\t\t\t[CONDITION_HAUL_COUNT_MAX:"@ + decimal(h as nat) + "]\n"@,
        SpecCondition::Child => "\t\t\t\t[CONDITION_CHILD]\n"@,
        SpecCondition::NotChild => "\t\t\t\t[CONDITION_NOT_CHILD]\n"@,
        SpecCondition::Caste(c) => "\t\t\t\t[CONDITION_CASTE:"@ + upper_snake(caste_name(c)) + "]\n"@,
        SpecCondition::IsGhost => "\t\t\t\t[CONDITION_GHOST]\n"@,
        SpecCondition::SynClass(s) => "\t\t\t\t[CONDITION_SYN_CLASS:"@ + syndrome_class_name(s) + "]\n"@,
        SpecCondition::TissueLayer(c, t) => "\t\t\t\t[CONDITION_TISSUE_LAYER:BY_CATEGORY:"@ + upper_snake(c) + ":"@
            + upper_snake(t) + "]\n"@,
        SpecCondition::TissueMinLength(l) => "\t\t\t\t\t[TISSUE_MIN_LENGTH:"@ + decimal(l as nat) + "]\n"@,
        SpecCondition::TissueMaxLength(l) => "\t\t\t\t\t[TISSUE_MAX_LENGTH:"@ + decimal(l as nat) + "]\n"@,
        SpecCondition::TissueMayHaveColor(cs) => "\t\t\t\t\t[TISSUE_MAY_HAVE_COLOR"@ + colon_list(
            cs.map_values(|c: Color<Seq<char>>| upper_snake(color_name(c))),
        ) + "]\n"@,
        SpecCondition::TissueMayHaveShaping(ss) => "\t\t\t\t\t[TISSUE_MAY_HAVE_SHAPING"@ + colon_list(
            ss.map_values(|s: Shaping| shaping_name(s)),
        ) + "]\n"@,
        SpecCondition::TissueNotShaped => "\t\t\t\t\t[TISSUE_NOT_SHAPED]\n"@,
        SpecCondition::TissueSwap(a, n, t, xy, large) => "\t\t\t\t\t[TISSUE_SWAP:"@ + upper_snake(a) + ":"@ + decimal(
            n as nat,
        ) + ":"@ + upper_snake(t) + ":"@ + match large {
            Some(l) => "LARGE_IMAGE:"@ + decimal(xy[0] as nat) + ":"@ + decimal(l[1] as nat) + ":"@ + decimal(
                (xy[0] + l[0]) as nat,
            ) + ":"@ + decimal((xy[1] + l[1]) as nat) + "]\n"@,
            None => decimal(xy[0] as nat) + ":"@ + decimal(xy[1] as nat) + "]\n"@,
        },
        SpecCondition::ItemQuality(i) => "\t\t\t\t[ITEM_QUALITY:"@ + decimal(i as nat) + "]\n"@,
        SpecCondition::UsePalette(p, r) => "\t\t\t\t[USE_PALETTE:"@ + p.name + ":"@ + decimal(r as nat) + "]\n"@,
        SpecCondition::UseStandardPalette => "\t\t\t\t[USE_STANDARD_PALETTE_FROM_ITEM]\n"@,
        SpecCondition::ConditionBP(b) => "\t\t\t\t[CONDITION_BP:"@ + body_part_type_display(b) + "]\n"@,
        SpecCondition::LGConditionBP(b) => "\t\t\t[LG_CONDITION_BP:"@ + body_part_type_display(b) + "]\n"@,
        SpecCondition::BPAppearanceModifierRange(m, a, b) => "\t\t\t\t[BP_APPEARANCE_MODIFIER_RANGE:"@ + bpapp_mod_name(m)
            + ":"@ + decimal(a as nat) + ":"@ + decimal(b as nat) + "]\n"@,
        SpecCondition::BPPresent => "\t\t\t\t[BP_PRESENT]\n"@,
        SpecCondition::BPScarred => "\t\t\t\t[BP_SCARRED]\n"@,
        SpecCondition::Custom(s) => "\t\t\t\t["@ + upper_snake(s) + "]\n"@,
    }
}

/// Appends `:name` for each of the strings in `items`, upper-snake-cased.
fn push_upper_snake_list(out: &mut String, items: &Vec<String>)
    ensures
        final(out)@ == old(out)@ + colon_list(items.deep_view().map_values(|i: Seq<char>| upper_snake(i))),
{
    let ghost names = items.deep_view().map_values(|i: Seq<char>| upper_snake(i));
    let mut k: usize = 0;
    while k < items.len()
        invariant
            k <= items@.len(),
            names == items.deep_view().map_values(|i: Seq<char>| upper_snake(i)),
            out@ == old(out)@ + colon_list(names.take(k as int)),
        decreases items@.len() - k,
    {
        assert(names.take(k + 1).drop_last() =~= names.take(k as int));
        assert(names[k as int] == upper_snake(items@[k as int]@));
        push_str(out, ":");
        let n = to_upper_snake(items[k].as_str());
        push_str(out, n.as_str());
        k = k + 1;
    }
    assert(names.take(items@.len() as int) =~= names);
}

/// Appends the selector fields of an item condition.
fn push_item_selector(out: &mut String, t: &ItemType)
    ensures
        final(out)@ == old(out)@ + item_selector_text(t@),
{
    match t {
        ItemType::ByCategory(c, e) => {
            push_str(out, "BY_CATEGORY:");
            push_str(out, to_upper_snake(c.as_str()).as_str());
            push_str(out, ":");
            push_str(out, e.name().as_str());
        },
        ItemType::ByToken(c, e) => {
            push_str(out, "BY_TOKEN:");
            push_str(out, to_upper_snake(c.as_str()).as_str());
            push_str(out, ":");
            push_str(out, e.name().as_str());
        },
        ItemType::AnyHeld(e) => {
            push_str(out, "ANY_HELD:");
            push_str(out, e.name().as_str());
        },
        ItemType::Wield(e) => {
            push_str(out, "WIELD:");
            push_str(out, e.name().as_str());
        },
        ItemType::Unset => {},
    }
}

/// One condition of each kind, as offered for selection.
pub open spec fn condition_kinds() -> Seq<SpecCondition> {
    seq![
        SpecCondition::ItemWorn(ItemType::Unset, Seq::empty()),
        SpecCondition::ShutOffIfItemPresent(ItemType::Unset, Seq::empty()),
        SpecCondition::Dye(Color::Unset),
        SpecCondition::NotDyed,
        SpecCondition::MaterialFlag(Seq::empty()),
        SpecCondition::MaterialType(Metal::Unset),
        SpecCondition::ProfessionCategory(Seq::empty()),
        SpecCondition::RandomPartIndex(Seq::empty(), 0, 0),
        SpecCondition::HaulCountMin(0),
        SpecCondition::HaulCountMax(0),
        SpecCondition::Child,
        SpecCondition::NotChild,
        SpecCondition::Caste(Caste::Female),
        SpecCondition::IsGhost,
        SpecCondition::SynClass(SyndromeClass::Zombie),
        SpecCondition::TissueLayer(Seq::empty(), Seq::empty()),
        SpecCondition::TissueMinLength(0),
        SpecCondition::TissueMaxLength(0),
        SpecCondition::TissueMayHaveColor(Seq::empty()),
        SpecCondition::TissueMayHaveShaping(Seq::empty()),
        SpecCondition::TissueNotShaped,
        SpecCondition::TissueSwap(Seq::empty(), 0, Seq::empty(), [0, 0], None),
        SpecCondition::ItemQuality(0),
        SpecCondition::UsePalette(Palette { name: Seq::empty(), file_name: Seq::empty(), default_index: 0, max_row: 255 }, 0),
        SpecCondition::UseStandardPalette,
        SpecCondition::ConditionBP(BodyPartType::Unset),
        SpecCondition::LGConditionBP(BodyPartType::Unset),
        SpecCondition::BPAppearanceModifierRange(BPAppMod::Unset, 0, 0),
        SpecCondition::BPPresent,
        SpecCondition::BPScarred,
        SpecCondition::Custom(Seq::empty()),
    ]
}

/// The value of an integer field, or 0 where it is not one.
pub open spec fn parse_or_zero(s: Seq<char>) -> u32 {
    match spec_parse_u32(s) {
        Some(v) => v,
        None => 0,
    }
}

/// The error (if any) for integer field `k` of line `l`, which is line
/// `i_line` of a block of `buffer_len` lines.
pub open spec fn field_errors(l: Seq<Seq<char>>, k: int, i_line: usize, buffer_len: usize) -> Seq<DFGHError<Seq<char>>> {
    if spec_parse_u32(l[k]) is Some {
        seq![]
    } else {
        seq![spec_parse_error(i_line, buffer_len, k as usize)]
    }
}

/// Reads integer field `k` of `line` (0 where it is not an integer, with an
/// error appended to `errors`).
pub fn read_u32_field(line: &Vec<String>, k: usize, i_line: usize, buffer_len: usize, errors: &mut Vec<DFGHError>) -> (v: u32)
    requires
        k < line@.len(),
    ensures
        v == parse_or_zero(line.deep_view()[k as int]),
        errs(final(errors)@) == errs(old(errors)@) + field_errors(line.deep_view(), k as int, i_line, buffer_len),
{
    assert(line[k as int]@ == line.deep_view()[k as int]);
    match parse_u32(line[k].as_str()) {
        Some(v) => {
            assert(errs(errors@) =~= errs(old(errors)@) + field_errors(line.deep_view(), k as int, i_line, buffer_len));
            v
        },
        None => {
            let e = parse_error(i_line, buffer_len, k);
            errors.push(e);
            assert(errs(errors@) =~= errs(old(errors)@) + field_errors(line.deep_view(), k as int, i_line, buffer_len));
            0
        },
    }
}

/// The concatenation of all fields of a line.
pub open spec fn concat_fields(l: Seq<Seq<char>>) -> Seq<char>
    decreases l.len(),
{
    if l.len() == 0 {
        seq![]
    } else {
        concat_fields(l.drop_last()) + l.last()
    }
}

/// `a - b` for `u32`, or 0 where `b > a`.
pub open spec fn sat_sub_u32(a: u32, b: u32) -> u32 {
    if a >= b { (a - b) as u32 } else { 0 }
}

/// The condition and errors read from line `l`, the first line of a block of
/// `buffer_len` lines.
pub open spec fn condition_read(l: Seq<Seq<char>>, buffer_len: usize) -> (SpecCondition, Seq<DFGHError<Seq<char>>>) {
    let len = l.len();
    let bl = buffer_len;
    let idx = |k: usize| seq![spec_index_error(1, bl, len as usize, k)];
    let p = |k: int| parse_or_zero(l[k]);
    let e = |k: int| field_errors(l, k, 1, bl);
    if len >= 1 {
        let t = l[0];
        if t == "(default)"@ {
            (SpecCondition::Default, seq![])
        } else if t == "CONDITION_ITEM_WORN"@ {
            let r = item_type_from(l.skip(1));
            (SpecCondition::ItemWorn(r.0, r.1), r.2)
        } else if t == "SHUT_OFF_IF_ITEM_PRESENT"@ {
            let r = item_type_from(l.skip(1));
            (SpecCondition::ShutOffIfItemPresent(r.0, r.1), r.2)
        } else if t == "CONDITION_DYE"@ {
            if len >= 2 { (SpecCondition::Dye(color_from(l[1])), seq![]) } else { (SpecCondition::Default, idx(2)) }
        } else if t == "CONDITION_NOT_DYED"@ {
            (SpecCondition::NotDyed, seq![])
        } else if t == "CONDITION_MATERIAL_FLAG"@ {
            if len >= 2 {
                (SpecCondition::MaterialFlag(l.skip(1).map_values(|s: Seq<char>| material_flag_from(s))), seq![])
            } else {
                (SpecCondition::Default, idx(2))
            }
        } else if t == "CONDITION_MATERIAL_TYPE"@ {
            if len >= 3 { (SpecCondition::MaterialType(metal_from(l[2])), seq![]) } else { (SpecCondition::Default, idx(3)) }
        } else if t == "CONDITION_PROFESSION_CATEGORY"@ {
            if len >= 2 {
                (SpecCondition::ProfessionCategory(l.skip(1).map_values(|s: Seq<char>| profession_from(s))), seq![])
            } else {
                (SpecCondition::Default, idx(2))
            }
        } else if t == "CONDITION_RANDOM_PART_INDEX"@ {
            if len >= 4 {
                (SpecCondition::RandomPartIndex(l[1], p(2), p(3)), e(2) + e(3))
            } else {
                (SpecCondition::Default, idx(4))
            }
        } else if t == "CONDITION_HAUL_COUNT_MIN"@ {
            if len >= 2 { (SpecCondition::HaulCountMin(p(1)), e(1)) } else { (SpecCondition::Default, idx(2)) }
        } else if t == "CONDITION_HAUL_COUNT_MAX"@ {
            if len >= 2 { (SpecCondition::HaulCountMax(p(1)), e(1)) } else { (SpecCondition::Default, idx(2)) }
        } else if t == "CONDITION_CHILD"@ {
            (SpecCondition::Child, seq![])
        } else if t == "CONDITION_NOT_CHILD"@ {
            (SpecCondition::NotChild, seq![])
        } else if t == "CONDITION_CASTE"@ {
            if len >= 2 { (SpecCondition::Caste(caste_from(l[1])), seq![]) } else { (SpecCondition::Default, idx(2)) }
        } else if t == "CONDITION_GHOST"@ {
            (SpecCondition::IsGhost, seq![])
        } else if t == "CONDITION_SYN_CLASS"@ {
            if len >= 2 {
                (SpecCondition::SynClass(syndrome_class_from(l[1])), seq![])
            } else {
                (SpecCondition::Default, idx(2))
            }
        } else if t == "CONDITION_TISSUE_LAYER"@ {
            if len >= 4 { (SpecCondition::TissueLayer(l[2], l[3]), seq![]) } else { (SpecCondition::Default, idx(4)) }
        } else if t == "TISSUE_MIN_LENGTH"@ {
            if len >= 2 { (SpecCondition::TissueMinLength(p(1)), e(1)) } else { (SpecCondition::Default, idx(2)) }
        } else if t == "TISSUE_MAX_LENGTH"@ {
            if len >= 2 { (SpecCondition::TissueMaxLength(p(1)), e(1)) } else { (SpecCondition::Default, idx(2)) }
        } else if t == "TISSUE_MAY_HAVE_COLOR"@ {
            if len >= 2 {
                (SpecCondition::TissueMayHaveColor(l.skip(1).map_values(|s: Seq<char>| color_from(s))), seq![])
            } else {
                (SpecCondition::Default, idx(2))
            }
        } else if t == "TISSUE_MAY_HAVE_SHAPING"@ {
            if len >= 2 {
                (SpecCondition::TissueMayHaveShaping(l.skip(1).map_values(|s: Seq<char>| shaping_from(s))), seq![])
            } else {
                (SpecCondition::Default, idx(2))
            }
        } else if t == "TISSUE_NOT_SHAPED"@ {
            (SpecCondition::TissueNotShaped, seq![])
        } else if t == "TISSUE_SWAP"@ {
            if len >= 6 {
                if l[4] == "LARGE_IMAGE"@ && len >= 9 {
                    let c = [p(5), p(6)];
                    let lc = [p(7), p(8)];
                    (
                        SpecCondition::TissueSwap(
                            l[1],
                            p(2),
                            l[3],
                            c,
                            Some([sat_sub_u32(lc[0], c[0]), sat_sub_u32(lc[1], c[1])]),
                        ),
                        e(5) + e(6) + e(7) + e(8) + e(2),
                    )
                } else {
                    (SpecCondition::TissueSwap(l[1], p(2), l[3], [p(4), p(5)], None), e(2) + e(4) + e(5))
                }
            } else {
                (SpecCondition::Default, idx(6))
            }
        } else if t == "ITEM_QUALITY"@ {
            if len >= 2 { (SpecCondition::ItemQuality(p(1)), e(1)) } else { (SpecCondition::Default, idx(2)) }
        } else if t == "USE_PALETTE"@ {
            if len >= 3 {
                (
                    SpecCondition::UsePalette(
                        Palette { name: l[1], file_name: Seq::empty(), default_index: 0, max_row: 0 },
                        p(2),
                    ),
                    e(2),
                )
            } else {
                (SpecCondition::Default, idx(3))
            }
        } else if t == "USE_STANDARD_PALETTE_FROM_ITEM"@ {
            (SpecCondition::UseStandardPalette, seq![])
        } else if t == "CONDITION_BP"@ {
            if len >= 3 {
                let r = body_part_type_from(l);
                (SpecCondition::ConditionBP(r.0), r.1)
            } else {
                (SpecCondition::Default, idx(3))
            }
        } else if t == "LG_CONDITION_BP"@ {
            if len >= 3 {
                let r = body_part_type_from(l);
                (SpecCondition::LGConditionBP(r.0), r.1)
            } else {
                (SpecCondition::Default, idx(3))
            }
        } else if t == "BP_APPEARANCE_MODIFIER_RANGE"@ {
            if len >= 4 {
                (SpecCondition::BPAppearanceModifierRange(bpapp_mod_from(l[1]), p(2), p(3)), e(2) + e(3))
            } else {
                (SpecCondition::Default, idx(3))
            }
        } else if t == "BP_PRESENT"@ {
            (SpecCondition::BPPresent, seq![])
        } else if t == "BP_SCARRED"@ {
            (SpecCondition::BPScarred, seq![])
        } else {
            (SpecCondition::Custom(concat_fields(l)), seq![])
        }
    } else {
        (SpecCondition::Default, idx(1))
    }
}

/// The errors of reading one condition line name lines within their block.
#[verifier::rlimit(60)]
pub proof fn lemma_condition_read_within(l: Seq<Seq<char>>, buffer_len: usize)
    requires
        1 <= buffer_len <= max_lines(),
    ensures
        errors_within(condition_read(l, buffer_len).1, 0),
{
    let bl = buffer_len;
    let len = l.len() as usize;
    assert forall|k: usize| errors_within(#[trigger] seq![spec_index_error(1, bl, len, k)], 0) by {
        let s = seq![spec_index_error(1, bl, len, k)];
        assert(s[0] == spec_index_error(1, bl, len, k));
    }
    assert forall|a: int, b: int, c: int| #![auto] 1 <= a < l.len() && 1 <= b < l.len() && 1 <= c < l.len()
        ==> errors_within(field_errors(l, a, 1, bl) + field_errors(l, b, 1, bl) + field_errors(l, c, 1, bl), 0) by {
    }
    lemma_item_type_from_within(l.skip(1));
    let r = body_part_type_from(l);
    assert(errors_within(r.1, 0));
}

/// The errors of reading an item selector name lines within their block.
pub proof fn lemma_item_type_from_within(l: Seq<Seq<char>>)
    ensures
        errors_within(item_type_from(l).2, 0),
{
}

/// Maps every field after the first through `material_flag_from`.
fn material_flags_of(line: &Vec<String>) -> (r: Vec<MaterialFlag>)
    requires
        line@.len() >= 1,
    ensures
        r@ == line.deep_view().skip(1).map_values(|s: Seq<char>| material_flag_from(s)),
{
    let mut r: Vec<MaterialFlag> = Vec::new();
    let mut i: usize = 1;
    while i < line.len()
        invariant
            1 <= i <= line@.len(),
            r@.len() == i - 1,
            forall|k: int| 0 <= k < r@.len() ==> #[trigger] r@[k] == material_flag_from(line@[k + 1]@),
        decreases line@.len() - i,
    {
        r.push(MaterialFlag::from(line[i].clone()));
        i = i + 1;
    }
    assert(r@ =~= line.deep_view().skip(1).map_values(|s: Seq<char>| material_flag_from(s)));
    r
}

/// Maps every field after the first through `profession_from`.
fn professions_of(line: &Vec<String>) -> (r: Vec<Profession>)
    requires
        line@.len() >= 1,
    ensures
        r@.map_values(|p: Profession| p@) == line.deep_view().skip(1).map_values(|s: Seq<char>| profession_from(s)),
{
    let mut r: Vec<Profession> = Vec::new();
    let mut i: usize = 1;
    while i < line.len()
        invariant
            1 <= i <= line@.len(),
            r@.len() == i - 1,
            forall|k: int| 0 <= k < r@.len() ==> #[trigger] r@[k]@ == profession_from(line@[k + 1]@),
        decreases line@.len() - i,
    {
        r.push(Profession::from(line[i].clone()));
        i = i + 1;
    }
    assert(r@.map_values(|p: Profession| p@) =~= line.deep_view().skip(1).map_values(|s: Seq<char>| profession_from(s)));
    r
}

/// Maps every field after the first through `color_from`.
fn colors_of(line: &Vec<String>) -> (r: Vec<Color>)
    requires
        line@.len() >= 1,
    ensures
        r@.map_values(|c: Color| c@) == line.deep_view().skip(1).map_values(|s: Seq<char>| color_from(s)),
{
    let mut r: Vec<Color> = Vec::new();
    let mut i: usize = 1;
    while i < line.len()
        invariant
            1 <= i <= line@.len(),
            r@.len() == i - 1,
            forall|k: int| 0 <= k < r@.len() ==> #[trigger] r@[k]@ == color_from(line@[k + 1]@),
        decreases line@.len() - i,
    {
        r.push(Color::from(line[i].clone()));
        i = i + 1;
    }
    assert(r@.map_values(|c: Color| c@) =~= line.deep_view().skip(1).map_values(|s: Seq<char>| color_from(s)));
    r
}

/// Maps every field after the first through `shaping_from`.
fn shapings_of(line: &Vec<String>) -> (r: Vec<Shaping>)
    requires
        line@.len() >= 1,
    ensures
        r@ == line.deep_view().skip(1).map_values(|s: Seq<char>| shaping_from(s)),
{
    let mut r: Vec<Shaping> = Vec::new();
    let mut i: usize = 1;
    while i < line.len()
        invariant
            1 <= i <= line@.len(),
            r@.len() == i - 1,
            forall|k: int| 0 <= k < r@.len() ==> #[trigger] r@[k] == shaping_from(line@[k + 1]@),
        decreases line@.len() - i,
    {
        r.push(Shaping::from(line[i].clone()));
        i = i + 1;
    }
    assert(r@ =~= line.deep_view().skip(1).map_values(|s: Seq<char>| shaping_from(s)));
    r
}

/// All fields of a line, concatenated.
fn concat_of(line: &Vec<String>) -> (r: String)
    ensures
        r@ == concat_fields(line.deep_view()),
{
    let mut r = String::new();
    let mut i: usize = 0;
    while i < line.len()
        invariant
            i <= line@.len(),
            r@ == concat_fields(line.deep_view().take(i as int)),
        decreases line@.len() - i,
    {
        let ghost t = line.deep_view().take(i + 1);
        assert(t.drop_last() =~= line.deep_view().take(i as int));
        r.append(line[i].as_str());
        i = i + 1;
    }
    assert(line.deep_view().take(line@.len() as int) =~= line.deep_view());
    r
}

/// A default condition with the error for a line of `len` fields where `k` are needed.
fn too_short(buffer_len: usize, len: usize, k: usize) -> (r: (Condition, Vec<DFGHError>))
    ensures
        r.0@ == SpecCondition::Default,
        errs(r.1@) == seq![spec_index_error(1, buffer_len, len, k)],
{
    let mut errors: Vec<DFGHError> = Vec::new();
    errors.push(index_error(1, buffer_len, len, k));
    assert(errs(errors@) =~= seq![spec_index_error(1, buffer_len, len, k)]);
    (Condition::Default, errors)
}

/// A condition read without errors.
fn clean(c: Condition) -> (r: (Condition, Vec<DFGHError>))
    ensures
        r.0 == c,
        errs(r.1@) == Seq::<DFGHError<Seq<char>>>::empty(),
{
    let errors: Vec<DFGHError> = Vec::new();
    assert(errs(errors@) =~= Seq::<DFGHError<Seq<char>>>::empty());
    (c, errors)
}

/// Appends `:name` for each material flag.
fn push_flag_list(out: &mut String, flags: &Vec<MaterialFlag>)
    ensures
        final(out)@ == old(out)@ + colon_list(flags@.map_values(|f: MaterialFlag| material_flag_name(f))),
{
    let ghost names = flags@.map_values(|f: MaterialFlag| material_flag_name(f));
    let mut k: usize = 0;
    while k < flags.len()
        invariant
            k <= flags@.len(),
            names == flags@.map_values(|f: MaterialFlag| material_flag_name(f)),
            out@ == old(out)@ + colon_list(names.take(k as int)),
        decreases flags@.len() - k,
    {
        assert(names.take(k + 1).drop_last() =~= names.take(k as int));
        push_str(out, ":");
        push_str(out, flags[k].name().as_str());
        k = k + 1;
    }
    assert(names.take(flags@.len() as int) =~= names);
}

/// Appends `:name` for each profession.
fn push_profession_list(out: &mut String, ps: &Vec<Profession>)
    ensures
        final(out)@ == old(out)@ + colon_list(ps@.map_values(|p: Profession| p@).map_values(|p: Profession<Seq<char>>| profession_name(p))),
{
    let ghost names = ps@.map_values(|p: Profession| p@).map_values(|p: Profession<Seq<char>>| profession_name(p));
    let mut k: usize = 0;
    while k < ps.len()
        invariant
            k <= ps@.len(),
            names == ps@.map_values(|p: Profession| p@).map_values(|p: Profession<Seq<char>>| profession_name(p)),
            out@ == old(out)@ + colon_list(names.take(k as int)),
        decreases ps@.len() - k,
    {
        assert(names.take(k + 1).drop_last() =~= names.take(k as int));
        push_str(out, ":");
        push_str(out, ps[k].name().as_str());
        k = k + 1;
    }
    assert(names.take(ps@.len() as int) =~= names);
}

/// Appends `:NAME` for each color.
fn push_color_list(out: &mut String, cs: &Vec<Color>)
    ensures
        final(out)@ == old(out)@ + colon_list(cs@.map_values(|c: Color| c@).map_values(|c: Color<Seq<char>>| upper_snake(color_name(c)))),
{
    let ghost names = cs@.map_values(|c: Color| c@).map_values(|c: Color<Seq<char>>| upper_snake(color_name(c)));
    let mut k: usize = 0;
    while k < cs.len()
        invariant
            k <= cs@.len(),
            names == cs@.map_values(|c: Color| c@).map_values(|c: Color<Seq<char>>| upper_snake(color_name(c))),
            out@ == old(out)@ + colon_list(names.take(k as int)),
        decreases cs@.len() - k,
    {
        assert(names.take(k + 1).drop_last() =~= names.take(k as int));
        push_str(out, ":");
        push_str(out, to_upper_snake(cs[k].name().as_str()).as_str());
        k = k + 1;
    }
    assert(names.take(cs@.len() as int) =~= names);
}

/// Appends `:name` for each shaping.
fn push_shaping_list(out: &mut String, ss: &Vec<Shaping>)
    ensures
        final(out)@ == old(out)@ + colon_list(ss@.map_values(|s: Shaping| shaping_name(s))),
{
    let ghost names = ss@.map_values(|s: Shaping| shaping_name(s));
    let mut k: usize = 0;
    while k < ss.len()
        invariant
            k <= ss@.len(),
            names == ss@.map_values(|s: Shaping| shaping_name(s)),
            out@ == old(out)@ + colon_list(names.take(k as int)),
        decreases ss@.len() - k,
    {
        assert(names.take(k + 1).drop_last() =~= names.take(k as int));
        push_str(out, ":");
        push_str(out, ss[k].name().as_str());
        k = k + 1;
    }
    assert(names.take(ss@.len() as int) =~= names);
}

impl Condition {
    /// Whether this condition can be written without a coordinate sum overflowing.
    pub fn displayable(&self) -> (r: bool)
        ensures
            r == condition_displayable(self@),
    {
        match self {
            Condition::TissueSwap(_, _, _, xy, large) => match large {
                Some(l) => xy[0].checked_add(l[0]).is_some() && xy[1].checked_add(l[1]).is_some(),
                None => true,
            },
            _ => true,
        }
    }

    /// The raw text of this condition's line.
    pub fn display(&self) -> (r: String)
        requires
            condition_displayable(self@),
        ensures
            r@ == condition_display(self@),
    {
        let mut out = String::new();
        match self {
            Condition::Default => {},
            Condition::ItemWorn(t, items) => {
                push_str(&mut out, "\t\t\t\t[CONDITION_ITEM_WORN:");
                push_item_selector(&mut out, t);
                push_upper_snake_list(&mut out, items);
                push_str(&mut out, "]\n");
            },
            Condition::ShutOffIfItemPresent(t, items) => {
                push_str(&mut out, "\t\t\t\t[SHUT_OFF_IF_ITEM_PRESENT:");
                push_item_selector(&mut out, t);
                push_upper_snake_list(&mut out, items);
                push_str(&mut out, "]\n");
            },
            Condition::Dye(c) => {
                push_str(&mut out, "\t\t\t\t[CONDITION_DYE:");
                push_str(&mut out, to_upper_snake(c.name().as_str()).as_str());
                push_str(&mut out, "]\n");
            },
            Condition::NotDyed => push_str(&mut out, "\t\t\t\t[CONDITION_NOT_DYED]\n"),
            Condition::MaterialFlag(flags) => {
                push_str(&mut out, "\t\t\t\t[CONDITION_MATERIAL_FLAG");
                push_flag_list(&mut out, flags);
                push_str(&mut out, "]\n");
            },
            Condition::MaterialType(m) => {
                push_str(&mut out, "\t\t\t\t[CONDITION_MATERIAL_TYPE:METAL:");
                push_str(&mut out, m.name().as_str());
                push_str(&mut out, "]\n");
            },
            Condition::ProfessionCategory(ps) => {
                push_str(&mut out, "\t\t\t\t[CONDITION_PROFESSION_CATEGORY");
                push_profession_list(&mut out, ps);
                push_str(&mut out, "]\n");
            },
            Condition::RandomPartIndex(id, i, m) => {
                push_str(&mut out, "\t\t\t\t[CONDITION_RANDOM_PART_INDEX:");
                push_str(&mut out, to_upper_snake(id.as_str()).as_str());
                push_str(&mut out, ":");
                push_decimal(&mut out, *i as u64);
                push_str(&mut out, ":");
                push_decimal(&mut out, *m as u64);
                push_str(&mut out, "]\n");
            },
            Condition::HaulCountMin(h) => {
                push_str(&mut out, "\t\t\t\t[CONDITION_HAUL_COUNT_MIN:");
                push_decimal(&mut out, *h as u64);
                push_str(&mut out, "]\n");
            },
            Condition::HaulCountMax(h) => {
                push_str(&mut out, "\t\t\t\t[CONDITION_HAUL_COUNT_MAX:");
                push_decimal(&mut out, *h as u64);
                push_str(&mut out, "]\n");
            },
            Condition::Child => push_str(&mut out, "\t\t\t\t[CONDITION_CHILD]\n"),
            Condition::NotChild => push_str(&mut out, "\t\t\t\t[CONDITION_NOT_CHILD]\n"),
            Condition::Caste(c) => {
                push_str(&mut out, "\t\t\t\t[CONDITION_CASTE:");
                push_str(&mut out, to_upper_snake(c.name().as_str()).as_str());
                push_str(&mut out, "]\n");
            },
            Condition::IsGhost => push_str(&mut out, "\t\t\t\t[CONDITION_GHOST]\n"),
            Condition::SynClass(c) => {
                push_str(&mut out, "\t\t\t\t[CONDITION_SYN_CLASS:");
                push_str(&mut out, c.name().as_str());
                push_str(&mut out, "]\n");
            },
            Condition::TissueLayer(c, t) => {
                push_str(&mut out, "\t\t\t\t[CONDITION_TISSUE_LAYER:BY_CATEGORY:");
                push_str(&mut out, to_upper_snake(c.as_str()).as_str());
                push_str(&mut out, ":");
                push_str(&mut out, to_upper_snake(t.as_str()).as_str());
                push_str(&mut out, "]\n");
            },
            Condition::TissueMinLength(l) => {
                push_str(&mut out, "\t\t\t\t\t[TISSUE_MIN_LENGTH:");
                push_decimal(&mut out, *l as u64);
                push_str(&mut out, "]\n");
            },
            Condition::TissueMaxLength(l) => {
                push_str(&mut out, "\t\t\t\t\t[TISSUE_MAX_LENGTH:");
                push_decimal(&mut out, *l as u64);
                push_str(&mut out, "]\n");
            },
            Condition::TissueMayHaveColor(cs) => {
                push_str(&mut out, "\t\t\t\t\t[TISSUE_MAY_HAVE_COLOR");
                push_color_list(&mut out, cs);
                push_str(&mut out, "]\n");
            },
            Condition::TissueMayHaveShaping(ss) => {
                push_str(&mut out, "\t\t\t\t\t[TISSUE_MAY_HAVE_SHAPING");
                push_shaping_list(&mut out, ss);
                push_str(&mut out, "]\n");
            },
            Condition::TissueNotShaped => push_str(&mut out, "\t\t\t\t\t[TISSUE_NOT_SHAPED]\n"),
            Condition::TissueSwap(a, n, t, xy, large) => {
                push_str(&mut out, "\t\t\t\t\t[TISSUE_SWAP:");
                push_str(&mut out, to_upper_snake(a.as_str()).as_str());
                push_str(&mut out, ":");
                push_decimal(&mut out, *n as u64);
                push_str(&mut out, ":");
                push_str(&mut out, to_upper_snake(t.as_str()).as_str());
                push_str(&mut out, ":");
                match large {
                    Some(l) => {
                        push_str(&mut out, "LARGE_IMAGE:");
                        push_decimal(&mut out, xy[0] as u64);
                        push_str(&mut out, ":");
                        push_decimal(&mut out, l[1] as u64);
                        push_str(&mut out, ":");
                        push_decimal(&mut out, (xy[0] + l[0]) as u64);
                        push_str(&mut out, ":");
                        push_decimal(&mut out, (xy[1] + l[1]) as u64);
                        push_str(&mut out, "]\n");
                    },
                    None => {
                        push_decimal(&mut out, xy[0] as u64);
                        push_str(&mut out, ":");
                        push_decimal(&mut out, xy[1] as u64);
                        push_str(&mut out, "]\n");
                    },
                }
            },
            Condition::ItemQuality(i) => {
                push_str(&mut out, "\t\t\t\t[ITEM_QUALITY:");
                push_decimal(&mut out, *i as u64);
                push_str(&mut out, "]\n");
            },
            Condition::UsePalette(p, row) => {
                push_str(&mut out, "\t\t\t\t[USE_PALETTE:");
                push_str(&mut out, p.name.as_str());
                push_str(&mut out, ":");
                push_decimal(&mut out, *row as u64);
                push_str(&mut out, "]\n");
            },
            Condition::UseStandardPalette => push_str(&mut out, "\t\t\t\t[USE_STANDARD_PALETTE_FROM_ITEM]\n"),
            Condition::ConditionBP(b) => {
                push_str(&mut out, "\t\t\t\t[CONDITION_BP:");
                push_str(&mut out, b.display().as_str());
                push_str(&mut out, "]\n");
            },
            Condition::LGConditionBP(b) => {
                push_str(&mut out, "\t\t\t[LG_CONDITION_BP:");
                push_str(&mut out, b.display().as_str());
                push_str(&mut out, "]\n");
            },
            Condition::BPAppearanceModifierRange(m, a, b) => {
                push_str(&mut out, "\t\t\t\t[BP_APPEARANCE_MODIFIER_RANGE:");
                push_str(&mut out, m.name().as_str());
                push_str(&mut out, ":");
                push_decimal(&mut out, *a as u64);
                push_str(&mut out, ":");
                push_decimal(&mut out, *b as u64);
                push_str(&mut out, "]\n");
            },
            Condition::BPPresent => push_str(&mut out, "\t\t\t\t[BP_PRESENT]\n"),
            Condition::BPScarred => push_str(&mut out, "\t\t\t\t[BP_SCARRED]\n"),
            Condition::Custom(s) => {
                push_str(&mut out, "\t\t\t\t[");
                push_str(&mut out, to_upper_snake(s.as_str()).as_str());
                push_str(&mut out, "]\n");
            },
        }
        assert(out@ =~= condition_display(self@));
        out
    }

    /// The name of this condition's kind, as shown in the editor.
    pub fn name(&self) -> (r: String)
        ensures
            r@ == condition_name(self@),
    {
        match self {
            Condition::Default => string_of("(default)"),
            Condition::ItemWorn(..) => string_of("CONDITION_ITEM_WORN"),
            Condition::ShutOffIfItemPresent(..) => string_of("SHUT_OFF_IF_ITEM_PRESENT"),
            Condition::Dye(..) => string_of("CONDITION_DYE"),
            Condition::NotDyed => string_of("CONDITION_NOT_DYED"),
            Condition::MaterialFlag(..) => string_of("CONDITION_MATERIAL_FLAG"),
            Condition::MaterialType(..) => string_of("CONDITION_MATERIAL_TYPE"),
            Condition::ProfessionCategory(..) => string_of("CONDITION_PROFESSION_CATEGORY"),
            Condition::RandomPartIndex(..) => string_of("CONDITION_RANDOM_PART_INDEX"),
            Condition::HaulCountMin(..) => string_of("CONDITION_HAUL_COUNT_MIN"),
            Condition::HaulCountMax(..) => string_of("CONDITION_HAUL_COUNT_MAX"),
            Condition::Child => string_of("CONDITION_CHILD"),
            Condition::NotChild => string_of("CONDITION_NOT_CHILD"),
            Condition::Caste(..) => string_of("CONDITION_CASTE"),
            Condition::IsGhost => string_of("CONDITION_GHOST"),
            Condition::SynClass(..) => string_of("CONDITION_SYN_CLASS"),
            Condition::TissueLayer(..) => string_of("CONDITION_TISSUE_LAYER"),
            Condition::TissueMinLength(..) => string_of("TISSUE_MIN_LENGTH"),
            Condition::TissueMaxLength(..) => string_of("TISSUE_MAX_LENGTH"),
            Condition::TissueMayHaveColor(..) => string_of("TISSUE_MAY_HAVE_COLOR"),
            Condition::TissueMayHaveShaping(..) => string_of("TISSUE_MAY_HAVE_SHAPING"),
            Condition::TissueNotShaped => string_of("TISSUE_NOT_SHAPED"),
            Condition::TissueSwap(..) => string_of("TISSUE_SWAP"),
            Condition::ItemQuality(..) => string_of("ITEM_QUALITY"),
            Condition::UsePalette(..) => string_of("USE_PALETTE"),
            Condition::UseStandardPalette => string_of("USE_STANDARD_PALETTE"),
            Condition::ConditionBP(..) => string_of("CONDITION_BP"),
            Condition::LGConditionBP(..) => string_of("LG_CONDITION_BP"),
            Condition::BPAppearanceModifierRange(..) => string_of("BP_APP_MOD_RANGE"),
            Condition::BPPresent => string_of("BP_PRESENT"),
            Condition::BPScarred => string_of("BP_SCARRED"),
            Condition::Custom(..) => string_of("(custom)"),
        }
    }

    /// One condition of each kind, as offered for selection.
    pub fn iterator() -> (r: Vec<Condition>)
        ensures
            r@.map_values(|c: Condition| c@) == condition_kinds(),
    {
        let mut r: Vec<Condition> = Vec::new();
        let v: Vec<String> = Vec::new();
        assert(v.deep_view() =~= Seq::<Seq<char>>::empty());
        r.push(Condition::ItemWorn(ItemType::Unset, v));
        let v: Vec<String> = Vec::new();
        assert(v.deep_view() =~= Seq::<Seq<char>>::empty());
        r.push(Condition::ShutOffIfItemPresent(ItemType::Unset, v));
        r.push(Condition::Dye(Color::Unset));
        r.push(Condition::NotDyed);
        r.push(Condition::MaterialFlag(Vec::new()));
        r.push(Condition::MaterialType(Metal::Unset));
        let v: Vec<Profession> = Vec::new();
        assert(v@.map_values(|p: Profession| p@) =~= Seq::<Profession<Seq<char>>>::empty());
        r.push(Condition::ProfessionCategory(v));
        r.push(Condition::RandomPartIndex(String::new(), 0, 0));
        r.push(Condition::HaulCountMin(0));
        r.push(Condition::HaulCountMax(0));
        r.push(Condition::Child);
        r.push(Condition::NotChild);
        r.push(Condition::Caste(Caste::Female));
        r.push(Condition::IsGhost);
        r.push(Condition::SynClass(SyndromeClass::Zombie));
        r.push(Condition::TissueLayer(String::new(), String::new()));
        r.push(Condition::TissueMinLength(0));
        r.push(Condition::TissueMaxLength(0));
        let v: Vec<Color> = Vec::new();
        assert(v@.map_values(|c: Color| c@) =~= Seq::<Color<Seq<char>>>::empty());
        r.push(Condition::TissueMayHaveColor(v));
        r.push(Condition::TissueMayHaveShaping(Vec::new()));
        r.push(Condition::TissueNotShaped);
        r.push(Condition::TissueSwap(String::new(), 0, String::new(), [0, 0], None));
        r.push(Condition::ItemQuality(0));
        r.push(Condition::UsePalette(Palette { name: String::new(), file_name: String::new(), default_index: 0, max_row: 255 }, 0));
        r.push(Condition::UseStandardPalette);
        r.push(Condition::ConditionBP(BodyPartType::Unset));
        r.push(Condition::LGConditionBP(BodyPartType::Unset));
        r.push(Condition::BPAppearanceModifierRange(BPAppMod::Unset, 0, 0));
        r.push(Condition::BPPresent);
        r.push(Condition::BPScarred);
        r.push(Condition::Custom(String::new()));
        assert(r@.map_values(|c: Condition| c@) =~= condition_kinds());
        r
    }

    /// A default condition.
    pub fn new() -> (r: Self)
        ensures
            r@ == SpecCondition::Default,
    {
        Condition::Default
    }

    /// Reads a condition from the first line of `buffer`.
    pub fn read(buffer: Vec<Vec<String>>) -> (r: (Condition, Vec<DFGHError>))
        requires
            buffer@.len() >= 1,
        ensures
            (r.0@, errs(r.1@)) == condition_read(buffer.deep_view()[0], buffer@.len() as usize),
    {
        let line = &buffer[0];
        let ghost l = line.deep_view();
        assert(l == buffer.deep_view()[0]);
        let len = line.len();
        let bl = buffer.len();
        if len < 1 {
            return too_short(bl, len, 1);
        }
        assert(line[0]@ == l[0]);
        let t = line[0].as_str();
        if str_eq(t, "(default)") {
            clean(Condition::Default)
        } else if str_eq(t, "CONDITION_ITEM_WORN") {
            let (it, items, es) = ItemType::from(crate::items::tail_of(line, 1));
            (Condition::ItemWorn(it, items), es)
        } else if str_eq(t, "SHUT_OFF_IF_ITEM_PRESENT") {
            let (it, items, es) = ItemType::from(crate::items::tail_of(line, 1));
            (Condition::ShutOffIfItemPresent(it, items), es)
        } else if str_eq(t, "CONDITION_DYE") {
            if len >= 2 {
                assert(line[1]@ == l[1]);
                clean(Condition::Dye(Color::from(line[1].clone())))
            } else {
                too_short(bl, len, 2)
            }
        } else if str_eq(t, "CONDITION_NOT_DYED") {
            clean(Condition::NotDyed)
        } else if str_eq(t, "CONDITION_MATERIAL_FLAG") {
            if len >= 2 {
                clean(Condition::MaterialFlag(material_flags_of(line)))
            } else {
                too_short(bl, len, 2)
            }
        } else if str_eq(t, "CONDITION_MATERIAL_TYPE") {
            if len >= 3 {
                assert(line[2]@ == l[2]);
                clean(Condition::MaterialType(Metal::from(line[2].clone())))
            } else {
                too_short(bl, len, 3)
            }
        } else if str_eq(t, "CONDITION_PROFESSION_CATEGORY") {
            if len >= 2 {
                clean(Condition::ProfessionCategory(professions_of(line)))
            } else {
                too_short(bl, len, 2)
            }
        } else if str_eq(t, "CONDITION_RANDOM_PART_INDEX") {
            if len >= 4 {
                assert(line[1]@ == l[1]);
                let mut errors: Vec<DFGHError> = Vec::new();
                let a = read_u32_field(line, 2, 1, bl, &mut errors);
                let b = read_u32_field(line, 3, 1, bl, &mut errors);
                (Condition::RandomPartIndex(line[1].clone(), a, b), errors)
            } else {
                too_short(bl, len, 4)
            }
        } else if str_eq(t, "CONDITION_HAUL_COUNT_MIN") {
            if len >= 2 {
                let mut errors: Vec<DFGHError> = Vec::new();
                let a = read_u32_field(line, 1, 1, bl, &mut errors);
                (Condition::HaulCountMin(a), errors)
            } else {
                too_short(bl, len, 2)
            }
        } else if str_eq(t, "CONDITION_HAUL_COUNT_MAX") {
            if len >= 2 {
                let mut errors: Vec<DFGHError> = Vec::new();
                let a = read_u32_field(line, 1, 1, bl, &mut errors);
                (Condition::HaulCountMax(a), errors)
            } else {
                too_short(bl, len, 2)
            }
        } else if str_eq(t, "CONDITION_CHILD") {
            clean(Condition::Child)
        } else if str_eq(t, "CONDITION_NOT_CHILD") {
            clean(Condition::NotChild)
        } else if str_eq(t, "CONDITION_CASTE") {
            if len >= 2 {
                assert(line[1]@ == l[1]);
                clean(Condition::Caste(Caste::from(line[1].clone())))
            } else {
                too_short(bl, len, 2)
            }
        } else if str_eq(t, "CONDITION_GHOST") {
            clean(Condition::IsGhost)
        } else if str_eq(t, "CONDITION_SYN_CLASS") {
            if len >= 2 {
                assert(line[1]@ == l[1]);
                clean(Condition::SynClass(SyndromeClass::from(line[1].clone())))
            } else {
                too_short(bl, len, 2)
            }
        } else if str_eq(t, "CONDITION_TISSUE_LAYER") {
            if len >= 4 {
                assert(line[2]@ == l[2]);
                assert(line[3]@ == l[3]);
                clean(Condition::TissueLayer(line[2].clone(), line[3].clone()))
            } else {
                too_short(bl, len, 4)
            }
        } else if str_eq(t, "TISSUE_MIN_LENGTH") {
            if len >= 2 {
                let mut errors: Vec<DFGHError> = Vec::new();
                let a = read_u32_field(line, 1, 1, bl, &mut errors);
                (Condition::TissueMinLength(a), errors)
            } else {
                too_short(bl, len, 2)
            }
        } else if str_eq(t, "TISSUE_MAX_LENGTH") {
            if len >= 2 {
                let mut errors: Vec<DFGHError> = Vec::new();
                let a = read_u32_field(line, 1, 1, bl, &mut errors);
                (Condition::TissueMaxLength(a), errors)
            } else {
                too_short(bl, len, 2)
            }
        } else if str_eq(t, "TISSUE_MAY_HAVE_COLOR") {
            if len >= 2 {
                clean(Condition::TissueMayHaveColor(colors_of(line)))
            } else {
                too_short(bl, len, 2)
            }
        } else if str_eq(t, "TISSUE_MAY_HAVE_SHAPING") {
            if len >= 2 {
                clean(Condition::TissueMayHaveShaping(shapings_of(line)))
            } else {
                too_short(bl, len, 2)
            }
        } else if str_eq(t, "TISSUE_NOT_SHAPED") {
            clean(Condition::TissueNotShaped)
        } else if str_eq(t, "TISSUE_SWAP") {
            if len >= 6 {
                assert(line[1]@ == l[1]);
                assert(line[3]@ == l[3]);
                assert(line[4]@ == l[4]);
                let mut errors: Vec<DFGHError> = Vec::new();
                if str_eq(line[4].as_str(), "LARGE_IMAGE") && len >= 9 {
                    let c0 = read_u32_field(line, 5, 1, bl, &mut errors);
                    let c1 = read_u32_field(line, 6, 1, bl, &mut errors);
                    let l0 = read_u32_field(line, 7, 1, bl, &mut errors);
                    let l1 = read_u32_field(line, 8, 1, bl, &mut errors);
                    let large = [if l0 >= c0 { l0 - c0 } else { 0 }, if l1 >= c1 { l1 - c1 } else { 0 }];
                    let amount = read_u32_field(line, 2, 1, bl, &mut errors);
                    (Condition::TissueSwap(line[1].clone(), amount, line[3].clone(), [c0, c1], Some(large)), errors)
                } else {
                    let amount = read_u32_field(line, 2, 1, bl, &mut errors);
                    let x = read_u32_field(line, 4, 1, bl, &mut errors);
                    let y = read_u32_field(line, 5, 1, bl, &mut errors);
                    (Condition::TissueSwap(line[1].clone(), amount, line[3].clone(), [x, y], None), errors)
                }
            } else {
                too_short(bl, len, 6)
            }
        } else if str_eq(t, "ITEM_QUALITY") {
            if len >= 2 {
                let mut errors: Vec<DFGHError> = Vec::new();
                let a = read_u32_field(line, 1, 1, bl, &mut errors);
                (Condition::ItemQuality(a), errors)
            } else {
                too_short(bl, len, 2)
            }
        } else if str_eq(t, "USE_PALETTE") {
            if len >= 3 {
                assert(line[1]@ == l[1]);
                let mut errors: Vec<DFGHError> = Vec::new();
                let row = read_u32_field(line, 2, 1, bl, &mut errors);
                let palette = Palette { name: line[1].clone(), file_name: String::new(), default_index: 0, max_row: 0 };
                (Condition::UsePalette(palette, row), errors)
            } else {
                too_short(bl, len, 3)
            }
        } else if str_eq(t, "USE_STANDARD_PALETTE_FROM_ITEM") {
            clean(Condition::UseStandardPalette)
        } else if str_eq(t, "CONDITION_BP") {
            if len >= 3 {
                let (bp, es) = BodyPartType::from(line.clone());
                (Condition::ConditionBP(bp), es)
            } else {
                too_short(bl, len, 3)
            }
        } else if str_eq(t, "LG_CONDITION_BP") {
            if len >= 3 {
                let (bp, es) = BodyPartType::from(line.clone());
                (Condition::LGConditionBP(bp), es)
            } else {
                too_short(bl, len, 3)
            }
        } else if str_eq(t, "BP_APPEARANCE_MODIFIER_RANGE") {
            if len >= 4 {
                assert(line[1]@ == l[1]);
                let mut errors: Vec<DFGHError> = Vec::new();
                let m = BPAppMod::from(line[1].clone());
                let a = read_u32_field(line, 2, 1, bl, &mut errors);
                let b = read_u32_field(line, 3, 1, bl, &mut errors);
                (Condition::BPAppearanceModifierRange(m, a, b), errors)
            } else {
                too_short(bl, len, 3)
            }
        } else if str_eq(t, "BP_PRESENT") {
            clean(Condition::BPPresent)
        } else if str_eq(t, "BP_SCARRED") {
            clean(Condition::BPScarred)
        } else {
            clean(Condition::Custom(concat_of(line)))
        }
    }
}

} // verus!
