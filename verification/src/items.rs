//! Item selectors, body part selectors and colors used by conditions.
use vstd::prelude::*;
use crate::error::{index_error, spec_index_error, DFGHError};
use crate::text::{case_converted, convert_case, str_eq, string_of, CaseBoundaries, TextCase};
use crate::tokens::{equipment_from, equipment_name, Equipment};

verus! {

/// How an item condition selects items.
#[derive(Clone, Debug, PartialEq)]
pub enum ItemType<S = String> {
    Unset,
    ByCategory(S, Equipment),
    ByToken(S, Equipment),
    AnyHeld(Equipment),
    Wield(Equipment),
}

impl View for ItemType<String> {
    type V = ItemType<Seq<char>>;

    open spec fn view(&self) -> ItemType<Seq<char>> {
        match self {
            ItemType::Unset => ItemType::Unset,
            ItemType::ByCategory(s, e) => ItemType::ByCategory(s@, *e),
            ItemType::ByToken(s, e) => ItemType::ByToken(s@, *e),
            ItemType::AnyHeld(e) => ItemType::AnyHeld(*e),
            ItemType::Wield(e) => ItemType::Wield(*e),
        }
    }
}

/// The selector token of an item type.
pub open spec fn item_type_name(x: ItemType<Seq<char>>) -> Seq<char> {
    match x {
        ItemType::Unset => Seq::empty(),
        ItemType::ByCategory(..) => "BY_CATEGORY"@,
        ItemType::ByToken(..) => "BY_TOKEN"@,
        ItemType::AnyHeld(..) => "ANY_HELD"@,
        ItemType::Wield(..) => "WIELD"@,
    }
}

/// The equipment token of an item type.
pub open spec fn item_type_equipment_name(x: ItemType<Seq<char>>) -> Seq<char> {
    match x {
        ItemType::Unset => Seq::empty(),
        ItemType::ByCategory(_, e) | ItemType::ByToken(_, e) | ItemType::AnyHeld(e) | ItemType::Wield(e) => equipment_name(e),
    }
}

/// The item type, item list and errors read from the fields after an item
/// condition's token.
pub open spec fn item_type_from(l: Seq<Seq<char>>) -> (ItemType<Seq<char>>, Seq<Seq<char>>, Seq<DFGHError<Seq<char>>>) {
    let len = l.len();
    if len >= 3 {
        if l[0] == "BY_CATEGORY"@ {
            if len >= 4 {
                (ItemType::ByCategory(l[1], equipment_from(l[2])), l.skip(3), seq![])
            } else {
                (ItemType::Unset, seq![], seq![spec_index_error(0, 0, len as usize, 4)])
            }
        } else if l[0] == "BY_TOKEN"@ {
            if len >= 4 {
                (ItemType::ByToken(l[1], equipment_from(l[2])), l.skip(3), seq![])
            } else {
                (ItemType::Unset, seq![], seq![spec_index_error(0, 0, len as usize, 4)])
            }
        } else if l[0] == "ANY_HELD"@ {
            (ItemType::AnyHeld(equipment_from(l[1])), l.skip(2), seq![])
        } else if l[0] == "WIELD"@ {
            (ItemType::Wield(equipment_from(l[1])), l.skip(2), seq![])
        } else {
            (ItemType::Unset, seq![], seq![])
        }
    } else {
        (ItemType::Unset, seq![], seq![spec_index_error(0, 0, len as usize, 4)])
    }
}

/// The strings `v[from..]`, copied.
pub fn tail_of(v: &Vec<String>, from: usize) -> (r: Vec<String>)
    requires
        from <= v@.len(),
    ensures
        r.deep_view() == v.deep_view().skip(from as int),
{
    let mut r: Vec<String> = Vec::new();
    let mut i = from;
    while i < v.len()
        invariant
            from <= i <= v@.len(),
            r@.len() == i - from,
            forall|k: int| 0 <= k < r@.len() ==> #[trigger] r@[k]@ == v@[from + k]@,
        decreases v@.len() - i,
    {
        let c = v[i].clone();
        r.push(c);
        i = i + 1;
    }
    assert(r.deep_view() =~= v.deep_view().skip(from as int));
    r
}

impl ItemType {
    /// The selector token of this item type.
    pub fn name(&self) -> (r: String)
        ensures
            r@ == item_type_name(self@),
    {
        match self {
            ItemType::Unset => String::new(),
            ItemType::ByCategory(..) => string_of("BY_CATEGORY"),
            ItemType::ByToken(..) => string_of("BY_TOKEN"),
            ItemType::AnyHeld(..) => string_of("ANY_HELD"),
            ItemType::Wield(..) => string_of("WIELD"),
        }
    }

    /// The equipment token of this item type.
    pub fn equipment_name(&self) -> (r: String)
        ensures
            r@ == item_type_equipment_name(self@),
    {
        match self {
            ItemType::Unset => String::new(),
            ItemType::ByCategory(_, e) | ItemType::ByToken(_, e) | ItemType::AnyHeld(e) | ItemType::Wield(e) => e.name(),
        }
    }

    /// Reads the item selector from the fields that follow an item condition's
    /// token; returns it, the item names that follow it and the errors met.
    pub fn from(line_vec: Vec<String>) -> (r: (ItemType, Vec<String>, Vec<DFGHError>))
        ensures
            (r.0@, r.1.deep_view(), r.2@.map_values(|e: DFGHError| e@)) == item_type_from(line_vec.deep_view()),
    {
        let ghost l = line_vec.deep_view();
        let len = line_vec.len();
        let mut errors: Vec<DFGHError> = Vec::new();
        let empty: Vec<String> = Vec::new();
        assert(empty.deep_view() =~= Seq::<Seq<char>>::empty());
        if len >= 3 {
            assert(line_vec[0]@ == l[0]);
            assert(line_vec[1]@ == l[1]);
            assert(line_vec[2]@ == l[2]);
            if str_eq(line_vec[0].as_str(), "BY_CATEGORY") {
                if len >= 4 {
                    let t = ItemType::ByCategory(line_vec[1].clone(), Equipment::from(line_vec[2].clone()));
                    let rest = tail_of(&line_vec, 3);
                    assert(errors@.map_values(|e: DFGHError| e@) =~= Seq::<DFGHError<Seq<char>>>::empty());
                    (t, rest, errors)
                } else {
                    errors.push(index_error(0, 0, len, 4));
                    assert(errors@.map_values(|e: DFGHError| e@) =~= seq![spec_index_error(0, 0, len as usize, 4)]);
                    (ItemType::Unset, empty, errors)
                }
            } else if str_eq(line_vec[0].as_str(), "BY_TOKEN") {
                if len >= 4 {
                    let t = ItemType::ByToken(line_vec[1].clone(), Equipment::from(line_vec[2].clone()));
                    let rest = tail_of(&line_vec, 3);
                    assert(errors@.map_values(|e: DFGHError| e@) =~= Seq::<DFGHError<Seq<char>>>::empty());
                    (t, rest, errors)
                } else {
                    errors.push(index_error(0, 0, len, 4));
                    assert(errors@.map_values(|e: DFGHError| e@) =~= seq![spec_index_error(0, 0, len as usize, 4)]);
                    (ItemType::Unset, empty, errors)
                }
            } else if str_eq(line_vec[0].as_str(), "ANY_HELD") {
                let t = ItemType::AnyHeld(Equipment::from(line_vec[1].clone()));
                let rest = tail_of(&line_vec, 2);
                assert(errors@.map_values(|e: DFGHError| e@) =~= Seq::<DFGHError<Seq<char>>>::empty());
                (t, rest, errors)
            } else if str_eq(line_vec[0].as_str(), "WIELD") {
                let t = ItemType::Wield(Equipment::from(line_vec[1].clone()));
                let rest = tail_of(&line_vec, 2);
                assert(errors@.map_values(|e: DFGHError| e@) =~= Seq::<DFGHError<Seq<char>>>::empty());
                (t, rest, errors)
            } else {
                assert(errors@.map_values(|e: DFGHError| e@) =~= Seq::<DFGHError<Seq<char>>>::empty());
                (ItemType::Unset, empty, errors)
            }
        } else {
            errors.push(index_error(0, 0, len, 4));
            assert(errors@.map_values(|e: DFGHError| e@) =~= seq![spec_index_error(0, 0, len as usize, 4)]);
            (ItemType::Unset, empty, errors)
        }
    }

    /// The item selectors offered for selection.
    pub fn iterator() -> (r: Vec<Self>)
        ensures
            r@.map_values(|x: ItemType| x@) == seq![
                ItemType::ByCategory(Seq::<char>::empty(), Equipment::Unset),
                ItemType::ByToken(Seq::<char>::empty(), Equipment::Unset),
                ItemType::<Seq<char>>::AnyHeld(Equipment::Unset),
                ItemType::<Seq<char>>::Wield(Equipment::Unset),
            ],
    {
        let mut r: Vec<Self> = Vec::new();
        r.push(ItemType::ByCategory(String::new(), Equipment::Unset));
        r.push(ItemType::ByToken(String::new(), Equipment::Unset));
        r.push(ItemType::AnyHeld(Equipment::Unset));
        r.push(ItemType::Wield(Equipment::Unset));
        assert(r@.map_values(|x: ItemType| x@) =~= seq![
            ItemType::ByCategory(Seq::<char>::empty(), Equipment::Unset),
            ItemType::ByToken(Seq::<char>::empty(), Equipment::Unset),
            ItemType::<Seq<char>>::AnyHeld(Equipment::Unset),
            ItemType::<Seq<char>>::Wield(Equipment::Unset),
        ]);
        r
    }
}

/// How a body part condition selects body parts.
#[derive(Clone, Debug, PartialEq)]
pub enum BodyPartType<S = String> {
    Unset,
    ByType(S),
    ByCategory(S),
    ByToken(S),
}

impl View for BodyPartType<String> {
    type V = BodyPartType<Seq<char>>;

    open spec fn view(&self) -> BodyPartType<Seq<char>> {
        match self {
            BodyPartType::Unset => BodyPartType::Unset,
            BodyPartType::ByType(s) => BodyPartType::ByType(s@),
            BodyPartType::ByCategory(s) => BodyPartType::ByCategory(s@),
            BodyPartType::ByToken(s) => BodyPartType::ByToken(s@),
        }
    }
}

/// The selector token of a body part selector.
pub open spec fn body_part_type_name(x: BodyPartType<Seq<char>>) -> Seq<char> {
    match x {
        BodyPartType::Unset => Seq::empty(),
        BodyPartType::ByType(..) => "BY_TYPE"@,
        BodyPartType::ByCategory(..) => "BY_CATEGORY"@,
        BodyPartType::ByToken(..) => "BY_TOKEN"@,
    }
}

/// The raw fields of a body part selector.
pub open spec fn body_part_type_display(x: BodyPartType<Seq<char>>) -> Seq<char> {
    match x {
        BodyPartType::Unset => Seq::empty(),
        BodyPartType::ByType(s) => "BY_TYPE:"@ + s,
        BodyPartType::ByCategory(s) => "BY_CATEGORY:"@ + s,
        BodyPartType::ByToken(s) => "BY_TOKEN:"@ + s,
    }
}

/// The body part selector and errors read from a line whose first field is the selector.
pub open spec fn body_part_type_from(l: Seq<Seq<char>>) -> (BodyPartType<Seq<char>>, Seq<DFGHError<Seq<char>>>) {
    if l.len() >= 2 {
        if l[0] == "BY_CATEGORY"@ {
            (BodyPartType::ByCategory(l[1]), seq![])
        } else if l[0] == "BY_TOKEN"@ {
            (BodyPartType::ByToken(l[1]), seq![])
        } else if l[0] == "BY_TYPE"@ {
            (BodyPartType::ByType(l[1]), seq![])
        } else {
            (BodyPartType::Unset, seq![])
        }
    } else {
        (BodyPartType::Unset, seq![spec_index_error(1, 1, l.len() as usize, 2)])
    }
}

impl BodyPartType {
    /// The selector token of this body part selector.
    pub fn name(&self) -> (r: String)
        ensures
            r@ == body_part_type_name(self@),
    {
        match self {
            BodyPartType::Unset => String::new(),
            BodyPartType::ByType(..) => string_of("BY_TYPE"),
            BodyPartType::ByCategory(..) => string_of("BY_CATEGORY"),
            BodyPartType::ByToken(..) => string_of("BY_TOKEN"),
        }
    }

    /// The raw fields of this body part selector.
    pub fn display(&self) -> (r: String)
        ensures
            r@ == body_part_type_display(self@),
    {
        match self {
            BodyPartType::Unset => String::new(),
            BodyPartType::ByType(s) => {
                let mut r = string_of("BY_TYPE:");
                r.append(s.as_str());
                r
            },
            BodyPartType::ByCategory(s) => {
                let mut r = string_of("BY_CATEGORY:");
                r.append(s.as_str());
                r
            },
            BodyPartType::ByToken(s) => {
                let mut r = string_of("BY_TOKEN:");
                r.append(s.as_str());
                r
            },
        }
    }

    /// Reads a body part selector from a line whose first field is the selector.
    pub fn from(line_vec: Vec<String>) -> (r: (Self, Vec<DFGHError>))
        ensures
            (r.0@, r.1@.map_values(|e: DFGHError| e@)) == body_part_type_from(line_vec.deep_view()),
    {
        let ghost l = line_vec.deep_view();
        let mut errors: Vec<DFGHError> = Vec::new();
        let bp = if line_vec.len() >= 2 {
            assert(line_vec[0]@ == l[0]);
            assert(line_vec[1]@ == l[1]);
            if str_eq(line_vec[0].as_str(), "BY_CATEGORY") {
                BodyPartType::ByCategory(line_vec[1].clone())
            } else if str_eq(line_vec[0].as_str(), "BY_TOKEN") {
                BodyPartType::ByToken(line_vec[1].clone())
            } else if str_eq(line_vec[0].as_str(), "BY_TYPE") {
                BodyPartType::ByType(line_vec[1].clone())
            } else {
                BodyPartType::Unset
            }
        } else {
            errors.push(index_error(1, 1, line_vec.len(), 2));
            BodyPartType::Unset
        };
        assert(errors@.map_values(|e: DFGHError| e@) =~= body_part_type_from(l).1);
        (bp, errors)
    }

    /// The body part selectors offered for selection.
    pub fn iterator() -> (r: Vec<Self>)
        ensures
            r@.map_values(|x: BodyPartType| x@) == seq![
                BodyPartType::ByCategory(Seq::<char>::empty()),
                BodyPartType::ByToken(Seq::<char>::empty()),
                BodyPartType::ByType(Seq::<char>::empty()),
            ],
    {
        let mut r: Vec<Self> = Vec::new();
        r.push(BodyPartType::ByCategory(String::new()));
        r.push(BodyPartType::ByToken(String::new()));
        r.push(BodyPartType::ByType(String::new()));
        assert(r@.map_values(|x: BodyPartType| x@) =~= seq![
            BodyPartType::ByCategory(Seq::<char>::empty()),
            BodyPartType::ByToken(Seq::<char>::empty()),
            BodyPartType::ByType(Seq::<char>::empty()),
        ]);
        r
    }
}

/// A color a condition tests for.
#[derive(Clone, Debug, PartialEq)]
pub enum Color<S = String> {
    Unset,
    Custom(S),
}

impl View for Color<String> {
    type V = Color<Seq<char>>;

    open spec fn view(&self) -> Color<Seq<char>> {
        match self {
            Color::Unset => Color::Unset,
            Color::Custom(s) => Color::Custom(s@),
        }
    }
}

/// The raw token of a color.
pub open spec fn color_name(x: Color<Seq<char>>) -> Seq<char> {
    match x {
        Color::Unset => "(none)"@,
        Color::Custom(s) => case_converted(s, CaseBoundaries::Space, TextCase::UpperSnake),
    }
}

/// The color a raw token names.
pub open spec fn color_from(s: Seq<char>) -> Color<Seq<char>> {
    Color::Custom(case_converted(s, CaseBoundaries::Space, TextCase::UpperSnake))
}

impl Color {
    /// The raw token of this color.
    pub fn name(&self) -> (r: String)
        ensures
            r@ == color_name(self@),
    {
        match self {
            Color::Unset => string_of("(none)"),
            Color::Custom(s) => convert_case(s.as_str(), CaseBoundaries::Space, TextCase::UpperSnake),
        }
    }

    /// The color a raw token names.
    pub fn from(string: String) -> (r: Self)
        ensures
            r@ == color_from(string@),
    {
        Color::Custom(convert_case(string.as_str(), CaseBoundaries::Space, TextCase::UpperSnake))
    }
}

} // verus!
