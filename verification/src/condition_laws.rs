//! Written conditions read back as themselves; read conditions are of the kind their token names.
use vstd::prelude::*;
use vstd::string::*;
use crate::condition::{condition_display, condition_name, condition_read, field_errors, parse_or_zero, SpecCondition};
use crate::error::DFGHError;
use crate::fields::{
    free_of, lacks, lemma_bare_line_fields, lemma_free_of, lemma_numeric_line_fields, lemma_parse_decimal,
};
use crate::graphics::bracket_fields;
use crate::text::decimal;

verus! {

/// A line whose token is `CONDITION_NOT_DYED` reads as that condition.
proof fn lemma_read_not_dyed(l: Seq<Seq<char>>, bl: usize)
    requires
        l.len() == 1,
        l[0] == "CONDITION_NOT_DYED"@,
    ensures
        condition_read(l, bl) == (SpecCondition::NotDyed, Seq::<DFGHError<Seq<char>>>::empty()),
{
    reveal_strlit("CONDITION_NOT_DYED");
    assert("CONDITION_NOT_DYED"@.len() == 18);
    reveal_strlit("(default)");
    assert("(default)"@.len() == 9);
    assert("CONDITION_NOT_DYED"@ != "(default)"@);
    reveal_strlit("CONDITION_ITEM_WORN");
    assert("CONDITION_ITEM_WORN"@.len() == 19);
    assert("CONDITION_NOT_DYED"@ != "CONDITION_ITEM_WORN"@);
    reveal_strlit("SHUT_OFF_IF_ITEM_PRESENT");
    assert("SHUT_OFF_IF_ITEM_PRESENT"@.len() == 24);
    assert("CONDITION_NOT_DYED"@ != "SHUT_OFF_IF_ITEM_PRESENT"@);
    reveal_strlit("CONDITION_DYE");
    assert("CONDITION_DYE"@.len() == 13);
    assert("CONDITION_NOT_DYED"@ != "CONDITION_DYE"@);
    assert(condition_read(l, bl).1 =~= Seq::<DFGHError<Seq<char>>>::empty());
}

/// A line whose token is `CONDITION_HAUL_COUNT_MIN` reads as that condition.
proof fn lemma_read_haul_count_min(l: Seq<Seq<char>>, bl: usize)
    requires
        l.len() == 2,
        l[0] == "CONDITION_HAUL_COUNT_MIN"@,
    ensures
        condition_read(l, bl) == (SpecCondition::HaulCountMin(parse_or_zero(l[1])), field_errors(l, 1, 1, bl)),
{
    reveal_strlit("CONDITION_HAUL_COUNT_MIN");
    assert("CONDITION_HAUL_COUNT_MIN"@.len() == 24);
    reveal_strlit("(default)");
    assert("(default)"@.len() == 9);
    assert("CONDITION_HAUL_COUNT_MIN"@ != "(default)"@);
    reveal_strlit("CONDITION_ITEM_WORN");
    assert("CONDITION_ITEM_WORN"@.len() == 19);
    assert("CONDITION_HAUL_COUNT_MIN"@ != "CONDITION_ITEM_WORN"@);
    reveal_strlit("SHUT_OFF_IF_ITEM_PRESENT");
    assert("SHUT_OFF_IF_ITEM_PRESENT"@.len() == 24);
    assert("CONDITION_HAUL_COUNT_MIN"@[0] != "SHUT_OFF_IF_ITEM_PRESENT"@[0]);
    assert("CONDITION_HAUL_COUNT_MIN"@ != "SHUT_OFF_IF_ITEM_PRESENT"@);
    reveal_strlit("CONDITION_DYE");
    assert("CONDITION_DYE"@.len() == 13);
    assert("CONDITION_HAUL_COUNT_MIN"@ != "CONDITION_DYE"@);
    reveal_strlit("CONDITION_NOT_DYED");
    assert("CONDITION_NOT_DYED"@.len() == 18);
    assert("CONDITION_HAUL_COUNT_MIN"@ != "CONDITION_NOT_DYED"@);
    reveal_strlit("CONDITION_MATERIAL_FLAG");
    assert("CONDITION_MATERIAL_FLAG"@.len() == 23);
    assert("CONDITION_HAUL_COUNT_MIN"@ != "CONDITION_MATERIAL_FLAG"@);
    reveal_strlit("CONDITION_MATERIAL_TYPE");
    assert("CONDITION_MATERIAL_TYPE"@.len() == 23);
    assert("CONDITION_HAUL_COUNT_MIN"@ != "CONDITION_MATERIAL_TYPE"@);
    reveal_strlit("CONDITION_PROFESSION_CATEGORY");
    assert("CONDITION_PROFESSION_CATEGORY"@.len() == 29);
    assert("CONDITION_HAUL_COUNT_MIN"@ != "CONDITION_PROFESSION_CATEGORY"@);
    reveal_strlit("CONDITION_RANDOM_PART_INDEX");
    assert("CONDITION_RANDOM_PART_INDEX"@.len() == 27);
    assert("CONDITION_HAUL_COUNT_MIN"@ != "CONDITION_RANDOM_PART_INDEX"@);
}

/// A line whose token is `CONDITION_HAUL_COUNT_MAX` reads as that condition.
proof fn lemma_read_haul_count_max(l: Seq<Seq<char>>, bl: usize)
    requires
        l.len() == 2,
        l[0] == "CONDITION_HAUL_COUNT_MAX"@,
    ensures
        condition_read(l, bl) == (SpecCondition::HaulCountMax(parse_or_zero(l[1])), field_errors(l, 1, 1, bl)),
{
    reveal_strlit("CONDITION_HAUL_COUNT_MAX");
    assert("CONDITION_HAUL_COUNT_MAX"@.len() == 24);
    reveal_strlit("(default)");
    assert("(default)"@.len() == 9);
    assert("CONDITION_HAUL_COUNT_MAX"@ != "(default)"@);
    reveal_strlit("CONDITION_ITEM_WORN");
    assert("CONDITION_ITEM_WORN"@.len() == 19);
    assert("CONDITION_HAUL_COUNT_MAX"@ != "CONDITION_ITEM_WORN"@);
    reveal_strlit("SHUT_OFF_IF_ITEM_PRESENT");
    assert("SHUT_OFF_IF_ITEM_PRESENT"@.len() == 24);
    assert("CONDITION_HAUL_COUNT_MAX"@[0] != "SHUT_OFF_IF_ITEM_PRESENT"@[0]);
    assert("CONDITION_HAUL_COUNT_MAX"@ != "SHUT_OFF_IF_ITEM_PRESENT"@);
    reveal_strlit("CONDITION_DYE");
    assert("CONDITION_DYE"@.len() == 13);
    assert("CONDITION_HAUL_COUNT_MAX"@ != "CONDITION_DYE"@);
    reveal_strlit("CONDITION_NOT_DYED");
    assert("CONDITION_NOT_DYED"@.len() == 18);
    assert("CONDITION_HAUL_COUNT_MAX"@ != "CONDITION_NOT_DYED"@);
    reveal_strlit("CONDITION_MATERIAL_FLAG");
    assert("CONDITION_MATERIAL_FLAG"@.len() == 23);
    assert("CONDITION_HAUL_COUNT_MAX"@ != "CONDITION_MATERIAL_FLAG"@);
    reveal_strlit("CONDITION_MATERIAL_TYPE");
    assert("CONDITION_MATERIAL_TYPE"@.len() == 23);
    assert("CONDITION_HAUL_COUNT_MAX"@ != "CONDITION_MATERIAL_TYPE"@);
    reveal_strlit("CONDITION_PROFESSION_CATEGORY");
    assert("CONDITION_PROFESSION_CATEGORY"@.len() == 29);
    assert("CONDITION_HAUL_COUNT_MAX"@ != "CONDITION_PROFESSION_CATEGORY"@);
    reveal_strlit("CONDITION_RANDOM_PART_INDEX");
    assert("CONDITION_RANDOM_PART_INDEX"@.len() == 27);
    assert("CONDITION_HAUL_COUNT_MAX"@ != "CONDITION_RANDOM_PART_INDEX"@);
    reveal_strlit("CONDITION_HAUL_COUNT_MIN");
    assert("CONDITION_HAUL_COUNT_MIN"@.len() == 24);
    assert("CONDITION_HAUL_COUNT_MAX"@[22] != "CONDITION_HAUL_COUNT_MIN"@[22]);
    assert("CONDITION_HAUL_COUNT_MAX"@ != "CONDITION_HAUL_COUNT_MIN"@);
}

/// A line whose token is `CONDITION_CHILD` reads as that condition.
proof fn lemma_read_child(l: Seq<Seq<char>>, bl: usize)
    requires
        l.len() == 1,
        l[0] == "CONDITION_CHILD"@,
    ensures
        condition_read(l, bl) == (SpecCondition::Child, Seq::<DFGHError<Seq<char>>>::empty()),
{
    reveal_strlit("CONDITION_CHILD");
    assert("CONDITION_CHILD"@.len() == 15);
    reveal_strlit("(default)");
    assert("(default)"@.len() == 9);
    assert("CONDITION_CHILD"@ != "(default)"@);
    reveal_strlit("CONDITION_ITEM_WORN");
    assert("CONDITION_ITEM_WORN"@.len() == 19);
    assert("CONDITION_CHILD"@ != "CONDITION_ITEM_WORN"@);
    reveal_strlit("SHUT_OFF_IF_ITEM_PRESENT");
    assert("SHUT_OFF_IF_ITEM_PRESENT"@.len() == 24);
    assert("CONDITION_CHILD"@ != "SHUT_OFF_IF_ITEM_PRESENT"@);
    reveal_strlit("CONDITION_DYE");
    assert("CONDITION_DYE"@.len() == 13);
    assert("CONDITION_CHILD"@ != "CONDITION_DYE"@);
    reveal_strlit("CONDITION_NOT_DYED");
    assert("CONDITION_NOT_DYED"@.len() == 18);
    assert("CONDITION_CHILD"@ != "CONDITION_NOT_DYED"@);
    reveal_strlit("CONDITION_MATERIAL_FLAG");
    assert("CONDITION_MATERIAL_FLAG"@.len() == 23);
    assert("CONDITION_CHILD"@ != "CONDITION_MATERIAL_FLAG"@);
    reveal_strlit("CONDITION_MATERIAL_TYPE");
    assert("CONDITION_MATERIAL_TYPE"@.len() == 23);
    assert("CONDITION_CHILD"@ != "CONDITION_MATERIAL_TYPE"@);
    reveal_strlit("CONDITION_PROFESSION_CATEGORY");
    assert("CONDITION_PROFESSION_CATEGORY"@.len() == 29);
    assert("CONDITION_CHILD"@ != "CONDITION_PROFESSION_CATEGORY"@);
    reveal_strlit("CONDITION_RANDOM_PART_INDEX");
    assert("CONDITION_RANDOM_PART_INDEX"@.len() == 27);
    assert("CONDITION_CHILD"@ != "CONDITION_RANDOM_PART_INDEX"@);
    reveal_strlit("CONDITION_HAUL_COUNT_MIN");
    assert("CONDITION_HAUL_COUNT_MIN"@.len() == 24);
    assert("CONDITION_CHILD"@ != "CONDITION_HAUL_COUNT_MIN"@);
    reveal_strlit("CONDITION_HAUL_COUNT_MAX");
    assert("CONDITION_HAUL_COUNT_MAX"@.len() == 24);
    assert("CONDITION_CHILD"@ != "CONDITION_HAUL_COUNT_MAX"@);
    assert(condition_read(l, bl).1 =~= Seq::<DFGHError<Seq<char>>>::empty());
}

/// A line whose token is `CONDITION_NOT_CHILD` reads as that condition.
proof fn lemma_read_not_child(l: Seq<Seq<char>>, bl: usize)
    requires
        l.len() == 1,
        l[0] == "CONDITION_NOT_CHILD"@,
    ensures
        condition_read(l, bl) == (SpecCondition::NotChild, Seq::<DFGHError<Seq<char>>>::empty()),
{
    reveal_strlit("CONDITION_NOT_CHILD");
    assert("CONDITION_NOT_CHILD"@.len() == 19);
    reveal_strlit("(default)");
    assert("(default)"@.len() == 9);
    assert("CONDITION_NOT_CHILD"@ != "(default)"@);
    reveal_strlit("CONDITION_ITEM_WORN");
    assert("CONDITION_ITEM_WORN"@.len() == 19);
    assert("CONDITION_NOT_CHILD"@[10] != "CONDITION_ITEM_WORN"@[10]);
    assert("CONDITION_NOT_CHILD"@ != "CONDITION_ITEM_WORN"@);
    reveal_strlit("SHUT_OFF_IF_ITEM_PRESENT");
    assert("SHUT_OFF_IF_ITEM_PRESENT"@.len() == 24);
    assert("CONDITION_NOT_CHILD"@ != "SHUT_OFF_IF_ITEM_PRESENT"@);
    reveal_strlit("CONDITION_DYE");
    assert("CONDITION_DYE"@.len() == 13);
    assert("CONDITION_NOT_CHILD"@ != "CONDITION_DYE"@);
    reveal_strlit("CONDITION_NOT_DYED");
    assert("CONDITION_NOT_DYED"@.len() == 18);
    assert("CONDITION_NOT_CHILD"@ != "CONDITION_NOT_DYED"@);
    reveal_strlit("CONDITION_MATERIAL_FLAG");
    assert("CONDITION_MATERIAL_FLAG"@.len() == 23);
    assert("CONDITION_NOT_CHILD"@ != "CONDITION_MATERIAL_FLAG"@);
    reveal_strlit("CONDITION_MATERIAL_TYPE");
    assert("CONDITION_MATERIAL_TYPE"@.len() == 23);
    assert("CONDITION_NOT_CHILD"@ != "CONDITION_MATERIAL_TYPE"@);
    reveal_strlit("CONDITION_PROFESSION_CATEGORY");
    assert("CONDITION_PROFESSION_CATEGORY"@.len() == 29);
    assert("CONDITION_NOT_CHILD"@ != "CONDITION_PROFESSION_CATEGORY"@);
    reveal_strlit("CONDITION_RANDOM_PART_INDEX");
    assert("CONDITION_RANDOM_PART_INDEX"@.len() == 27);
    assert("CONDITION_NOT_CHILD"@ != "CONDITION_RANDOM_PART_INDEX"@);
    reveal_strlit("CONDITION_HAUL_COUNT_MIN");
    assert("CONDITION_HAUL_COUNT_MIN"@.len() == 24);
    assert("CONDITION_NOT_CHILD"@ != "CONDITION_HAUL_COUNT_MIN"@);
    reveal_strlit("CONDITION_HAUL_COUNT_MAX");
    assert("CONDITION_HAUL_COUNT_MAX"@.len() == 24);
    assert("CONDITION_NOT_CHILD"@ != "CONDITION_HAUL_COUNT_MAX"@);
    reveal_strlit("CONDITION_CHILD");
    assert("CONDITION_CHILD"@.len() == 15);
    assert("CONDITION_NOT_CHILD"@ != "CONDITION_CHILD"@);
    assert(condition_read(l, bl).1 =~= Seq::<DFGHError<Seq<char>>>::empty());
}

/// A line whose token is `CONDITION_GHOST` reads as that condition.
proof fn lemma_read_is_ghost(l: Seq<Seq<char>>, bl: usize)
    requires
        l.len() == 1,
        l[0] == "CONDITION_GHOST"@,
    ensures
        condition_read(l, bl) == (SpecCondition::IsGhost, Seq::<DFGHError<Seq<char>>>::empty()),
{
    reveal_strlit("CONDITION_GHOST");
    assert("CONDITION_GHOST"@.len() == 15);
    reveal_strlit("(default)");
    assert("(default)"@.len() == 9);
    assert("CONDITION_GHOST"@ != "(default)"@);
    reveal_strlit("CONDITION_ITEM_WORN");
    assert("CONDITION_ITEM_WORN"@.len() == 19);
    assert("CONDITION_GHOST"@ != "CONDITION_ITEM_WORN"@);
    reveal_strlit("SHUT_OFF_IF_ITEM_PRESENT");
    assert("SHUT_OFF_IF_ITEM_PRESENT"@.len() == 24);
    assert("CONDITION_GHOST"@ != "SHUT_OFF_IF_ITEM_PRESENT"@);
    reveal_strlit("CONDITION_DYE");
    assert("CONDITION_DYE"@.len() == 13);
    assert("CONDITION_GHOST"@ != "CONDITION_DYE"@);
    reveal_strlit("CONDITION_NOT_DYED");
    assert("CONDITION_NOT_DYED"@.len() == 18);
    assert("CONDITION_GHOST"@ != "CONDITION_NOT_DYED"@);
    reveal_strlit("CONDITION_MATERIAL_FLAG");
    assert("CONDITION_MATERIAL_FLAG"@.len() == 23);
    assert("CONDITION_GHOST"@ != "CONDITION_MATERIAL_FLAG"@);
    reveal_strlit("CONDITION_MATERIAL_TYPE");
    assert("CONDITION_MATERIAL_TYPE"@.len() == 23);
    assert("CONDITION_GHOST"@ != "CONDITION_MATERIAL_TYPE"@);
    reveal_strlit("CONDITION_PROFESSION_CATEGORY");
    assert("CONDITION_PROFESSION_CATEGORY"@.len() == 29);
    assert("CONDITION_GHOST"@ != "CONDITION_PROFESSION_CATEGORY"@);
    reveal_strlit("CONDITION_RANDOM_PART_INDEX");
    assert("CONDITION_RANDOM_PART_INDEX"@.len() == 27);
    assert("CONDITION_GHOST"@ != "CONDITION_RANDOM_PART_INDEX"@);
    reveal_strlit("CONDITION_HAUL_COUNT_MIN");
    assert("CONDITION_HAUL_COUNT_MIN"@.len() == 24);
    assert("CONDITION_GHOST"@ != "CONDITION_HAUL_COUNT_MIN"@);
    reveal_strlit("CONDITION_HAUL_COUNT_MAX");
    assert("CONDITION_HAUL_COUNT_MAX"@.len() == 24);
    assert("CONDITION_GHOST"@ != "CONDITION_HAUL_COUNT_MAX"@);
    reveal_strlit("CONDITION_CHILD");
    assert("CONDITION_CHILD"@.len() == 15);
    assert("CONDITION_GHOST"@[10] != "CONDITION_CHILD"@[10]);
    assert("CONDITION_GHOST"@ != "CONDITION_CHILD"@);
    reveal_strlit("CONDITION_NOT_CHILD");
    assert("CONDITION_NOT_CHILD"@.len() == 19);
    assert("CONDITION_GHOST"@ != "CONDITION_NOT_CHILD"@);
    reveal_strlit("CONDITION_CASTE");
    assert("CONDITION_CASTE"@.len() == 15);
    assert("CONDITION_GHOST"@[10] != "CONDITION_CASTE"@[10]);
    assert("CONDITION_GHOST"@ != "CONDITION_CASTE"@);
    assert(condition_read(l, bl).1 =~= Seq::<DFGHError<Seq<char>>>::empty());
}

/// A line whose token is `TISSUE_MIN_LENGTH` reads as that condition.
proof fn lemma_read_tissue_min_length(l: Seq<Seq<char>>, bl: usize)
    requires
        l.len() == 2,
        l[0] == "TISSUE_MIN_LENGTH"@,
    ensures
        condition_read(l, bl) == (SpecCondition::TissueMinLength(parse_or_zero(l[1])), field_errors(l, 1, 1, bl)),
{
    reveal_strlit("TISSUE_MIN_LENGTH");
    assert("TISSUE_MIN_LENGTH"@.len() == 17);
    reveal_strlit("(default)");
    assert("(default)"@.len() == 9);
    assert("TISSUE_MIN_LENGTH"@ != "(default)"@);
    reveal_strlit("CONDITION_ITEM_WORN");
    assert("CONDITION_ITEM_WORN"@.len() == 19);
    assert("TISSUE_MIN_LENGTH"@ != "CONDITION_ITEM_WORN"@);
    reveal_strlit("SHUT_OFF_IF_ITEM_PRESENT");
    assert("SHUT_OFF_IF_ITEM_PRESENT"@.len() == 24);
    assert("TISSUE_MIN_LENGTH"@ != "SHUT_OFF_IF_ITEM_PRESENT"@);
    reveal_strlit("CONDITION_DYE");
    assert("CONDITION_DYE"@.len() == 13);
    assert("TISSUE_MIN_LENGTH"@ != "CONDITION_DYE"@);
    reveal_strlit("CONDITION_NOT_DYED");
    assert("CONDITION_NOT_DYED"@.len() == 18);
    assert("TISSUE_MIN_LENGTH"@ != "CONDITION_NOT_DYED"@);
    reveal_strlit("CONDITION_MATERIAL_FLAG");
    assert("CONDITION_MATERIAL_FLAG"@.len() == 23);
    assert("TISSUE_MIN_LENGTH"@ != "CONDITION_MATERIAL_FLAG"@);
    reveal_strlit("CONDITION_MATERIAL_TYPE");
    assert("CONDITION_MATERIAL_TYPE"@.len() == 23);
    assert("TISSUE_MIN_LENGTH"@ != "CONDITION_MATERIAL_TYPE"@);
    reveal_strlit("CONDITION_PROFESSION_CATEGORY");
    assert("CONDITION_PROFESSION_CATEGORY"@.len() == 29);
    assert("TISSUE_MIN_LENGTH"@ != "CONDITION_PROFESSION_CATEGORY"@);
    reveal_strlit("CONDITION_RANDOM_PART_INDEX");
    assert("CONDITION_RANDOM_PART_INDEX"@.len() == 27);
    assert("TISSUE_MIN_LENGTH"@ != "CONDITION_RANDOM_PART_INDEX"@);
    reveal_strlit("CONDITION_HAUL_COUNT_MIN");
    assert("CONDITION_HAUL_COUNT_MIN"@.len() == 24);
    assert("TISSUE_MIN_LENGTH"@ != "CONDITION_HAUL_COUNT_MIN"@);
    reveal_strlit("CONDITION_HAUL_COUNT_MAX");
    assert("CONDITION_HAUL_COUNT_MAX"@.len() == 24);
    assert("TISSUE_MIN_LENGTH"@ != "CONDITION_HAUL_COUNT_MAX"@);
    reveal_strlit("CONDITION_CHILD");
    assert("CONDITION_CHILD"@.len() == 15);
    assert("TISSUE_MIN_LENGTH"@ != "CONDITION_CHILD"@);
    reveal_strlit("CONDITION_NOT_CHILD");
    assert("CONDITION_NOT_CHILD"@.len() == 19);
    assert("TISSUE_MIN_LENGTH"@ != "CONDITION_NOT_CHILD"@);
    reveal_strlit("CONDITION_CASTE");
    assert("CONDITION_CASTE"@.len() == 15);
    assert("TISSUE_MIN_LENGTH"@ != "CONDITION_CASTE"@);
    reveal_strlit("CONDITION_GHOST");
    assert("CONDITION_GHOST"@.len() == 15);
    assert("TISSUE_MIN_LENGTH"@ != "CONDITION_GHOST"@);
    reveal_strlit("CONDITION_SYN_CLASS");
    assert("CONDITION_SYN_CLASS"@.len() == 19);
    assert("TISSUE_MIN_LENGTH"@ != "CONDITION_SYN_CLASS"@);
    reveal_strlit("CONDITION_TISSUE_LAYER");
    assert("CONDITION_TISSUE_LAYER"@.len() == 22);
    assert("TISSUE_MIN_LENGTH"@ != "CONDITION_TISSUE_LAYER"@);
}

/// A line whose token is `TISSUE_MAX_LENGTH` reads as that condition.
proof fn lemma_read_tissue_max_length(l: Seq<Seq<char>>, bl: usize)
    requires
        l.len() == 2,
        l[0] == "TISSUE_MAX_LENGTH"@,
    ensures
        condition_read(l, bl) == (SpecCondition::TissueMaxLength(parse_or_zero(l[1])), field_errors(l, 1, 1, bl)),
{
    reveal_strlit("TISSUE_MAX_LENGTH");
    assert("TISSUE_MAX_LENGTH"@.len() == 17);
    reveal_strlit("(default)");
    assert("(default)"@.len() == 9);
    assert("TISSUE_MAX_LENGTH"@ != "(default)"@);
    reveal_strlit("CONDITION_ITEM_WORN");
    assert("CONDITION_ITEM_WORN"@.len() == 19);
    assert("TISSUE_MAX_LENGTH"@ != "CONDITION_ITEM_WORN"@);
    reveal_strlit("SHUT_OFF_IF_ITEM_PRESENT");
    assert("SHUT_OFF_IF_ITEM_PRESENT"@.len() == 24);
    assert("TISSUE_MAX_LENGTH"@ != "SHUT_OFF_IF_ITEM_PRESENT"@);
    reveal_strlit("CONDITION_DYE");
    assert("CONDITION_DYE"@.len() == 13);
    assert("TISSUE_MAX_LENGTH"@ != "CONDITION_DYE"@);
    reveal_strlit("CONDITION_NOT_DYED");
    assert("CONDITION_NOT_DYED"@.len() == 18);
    assert("TISSUE_MAX_LENGTH"@ != "CONDITION_NOT_DYED"@);
    reveal_strlit("CONDITION_MATERIAL_FLAG");
    assert("CONDITION_MATERIAL_FLAG"@.len() == 23);
    assert("TISSUE_MAX_LENGTH"@ != "CONDITION_MATERIAL_FLAG"@);
    reveal_strlit("CONDITION_MATERIAL_TYPE");
    assert("CONDITION_MATERIAL_TYPE"@.len() == 23);
    assert("TISSUE_MAX_LENGTH"@ != "CONDITION_MATERIAL_TYPE"@);
    reveal_strlit("CONDITION_PROFESSION_CATEGORY");
    assert("CONDITION_PROFESSION_CATEGORY"@.len() == 29);
    assert("TISSUE_MAX_LENGTH"@ != "CONDITION_PROFESSION_CATEGORY"@);
    reveal_strlit("CONDITION_RANDOM_PART_INDEX");
    assert("CONDITION_RANDOM_PART_INDEX"@.len() == 27);
    assert("TISSUE_MAX_LENGTH"@ != "CONDITION_RANDOM_PART_INDEX"@);
    reveal_strlit("CONDITION_HAUL_COUNT_MIN");
    assert("CONDITION_HAUL_COUNT_MIN"@.len() == 24);
    assert("TISSUE_MAX_LENGTH"@ != "CONDITION_HAUL_COUNT_MIN"@);
    reveal_strlit("CONDITION_HAUL_COUNT_MAX");
    assert("CONDITION_HAUL_COUNT_MAX"@.len() == 24);
    assert("TISSUE_MAX_LENGTH"@ != "CONDITION_HAUL_COUNT_MAX"@);
    reveal_strlit("CONDITION_CHILD");
    assert("CONDITION_CHILD"@.len() == 15);
    assert("TISSUE_MAX_LENGTH"@ != "CONDITION_CHILD"@);
    reveal_strlit("CONDITION_NOT_CHILD");
    assert("CONDITION_NOT_CHILD"@.len() == 19);
    assert("TISSUE_MAX_LENGTH"@ != "CONDITION_NOT_CHILD"@);
    reveal_strlit("CONDITION_CASTE");
    assert("CONDITION_CASTE"@.len() == 15);
    assert("TISSUE_MAX_LENGTH"@ != "CONDITION_CASTE"@);
    reveal_strlit("CONDITION_GHOST");
    assert("CONDITION_GHOST"@.len() == 15);
    assert("TISSUE_MAX_LENGTH"@ != "CONDITION_GHOST"@);
    reveal_strlit("CONDITION_SYN_CLASS");
    assert("CONDITION_SYN_CLASS"@.len() == 19);
    assert("TISSUE_MAX_LENGTH"@ != "CONDITION_SYN_CLASS"@);
    reveal_strlit("CONDITION_TISSUE_LAYER");
    assert("CONDITION_TISSUE_LAYER"@.len() == 22);
    assert("TISSUE_MAX_LENGTH"@ != "CONDITION_TISSUE_LAYER"@);
    reveal_strlit("TISSUE_MIN_LENGTH");
    assert("TISSUE_MIN_LENGTH"@.len() == 17);
    assert("TISSUE_MAX_LENGTH"@[8] != "TISSUE_MIN_LENGTH"@[8]);
    assert("TISSUE_MAX_LENGTH"@ != "TISSUE_MIN_LENGTH"@);
}

/// A line whose token is `TISSUE_NOT_SHAPED` reads as that condition.
proof fn lemma_read_tissue_not_shaped(l: Seq<Seq<char>>, bl: usize)
    requires
        l.len() == 1,
        l[0] == "TISSUE_NOT_SHAPED"@,
    ensures
        condition_read(l, bl) == (SpecCondition::TissueNotShaped, Seq::<DFGHError<Seq<char>>>::empty()),
{
    reveal_strlit("TISSUE_NOT_SHAPED");
    assert("TISSUE_NOT_SHAPED"@.len() == 17);
    reveal_strlit("(default)");
    assert("(default)"@.len() == 9);
    assert("TISSUE_NOT_SHAPED"@ != "(default)"@);
    reveal_strlit("CONDITION_ITEM_WORN");
    assert("CONDITION_ITEM_WORN"@.len() == 19);
    assert("TISSUE_NOT_SHAPED"@ != "CONDITION_ITEM_WORN"@);
    reveal_strlit("SHUT_OFF_IF_ITEM_PRESENT");
    assert("SHUT_OFF_IF_ITEM_PRESENT"@.len() == 24);
    assert("TISSUE_NOT_SHAPED"@ != "SHUT_OFF_IF_ITEM_PRESENT"@);
    reveal_strlit("CONDITION_DYE");
    assert("CONDITION_DYE"@.len() == 13);
    assert("TISSUE_NOT_SHAPED"@ != "CONDITION_DYE"@);
    reveal_strlit("CONDITION_NOT_DYED");
    assert("CONDITION_NOT_DYED"@.len() == 18);
    assert("TISSUE_NOT_SHAPED"@ != "CONDITION_NOT_DYED"@);
    reveal_strlit("CONDITION_MATERIAL_FLAG");
    assert("CONDITION_MATERIAL_FLAG"@.len() == 23);
    assert("TISSUE_NOT_SHAPED"@ != "CONDITION_MATERIAL_FLAG"@);
    reveal_strlit("CONDITION_MATERIAL_TYPE");
    assert("CONDITION_MATERIAL_TYPE"@.len() == 23);
    assert("TISSUE_NOT_SHAPED"@ != "CONDITION_MATERIAL_TYPE"@);
    reveal_strlit("CONDITION_PROFESSION_CATEGORY");
    assert("CONDITION_PROFESSION_CATEGORY"@.len() == 29);
    assert("TISSUE_NOT_SHAPED"@ != "CONDITION_PROFESSION_CATEGORY"@);
    reveal_strlit("CONDITION_RANDOM_PART_INDEX");
    assert("CONDITION_RANDOM_PART_INDEX"@.len() == 27);
    assert("TISSUE_NOT_SHAPED"@ != "CONDITION_RANDOM_PART_INDEX"@);
    reveal_strlit("CONDITION_HAUL_COUNT_MIN");
    assert("CONDITION_HAUL_COUNT_MIN"@.len() == 24);
    assert("TISSUE_NOT_SHAPED"@ != "CONDITION_HAUL_COUNT_MIN"@);
    reveal_strlit("CONDITION_HAUL_COUNT_MAX");
    assert("CONDITION_HAUL_COUNT_MAX"@.len() == 24);
    assert("TISSUE_NOT_SHAPED"@ != "CONDITION_HAUL_COUNT_MAX"@);
    reveal_strlit("CONDITION_CHILD");
    assert("CONDITION_CHILD"@.len() == 15);
    assert("TISSUE_NOT_SHAPED"@ != "CONDITION_CHILD"@);
    reveal_strlit("CONDITION_NOT_CHILD");
    assert("CONDITION_NOT_CHILD"@.len() == 19);
    assert("TISSUE_NOT_SHAPED"@ != "CONDITION_NOT_CHILD"@);
    reveal_strlit("CONDITION_CASTE");
    assert("CONDITION_CASTE"@.len() == 15);
    assert("TISSUE_NOT_SHAPED"@ != "CONDITION_CASTE"@);
    reveal_strlit("CONDITION_GHOST");
    assert("CONDITION_GHOST"@.len() == 15);
    assert("TISSUE_NOT_SHAPED"@ != "CONDITION_GHOST"@);
    reveal_strlit("CONDITION_SYN_CLASS");
    assert("CONDITION_SYN_CLASS"@.len() == 19);
    assert("TISSUE_NOT_SHAPED"@ != "CONDITION_SYN_CLASS"@);
    reveal_strlit("CONDITION_TISSUE_LAYER");
    assert("CONDITION_TISSUE_LAYER"@.len() == 22);
    assert("TISSUE_NOT_SHAPED"@ != "CONDITION_TISSUE_LAYER"@);
    reveal_strlit("TISSUE_MIN_LENGTH");
    assert("TISSUE_MIN_LENGTH"@.len() == 17);
    assert("TISSUE_NOT_SHAPED"@[7] != "TISSUE_MIN_LENGTH"@[7]);
    assert("TISSUE_NOT_SHAPED"@ != "TISSUE_MIN_LENGTH"@);
    reveal_strlit("TISSUE_MAX_LENGTH");
    assert("TISSUE_MAX_LENGTH"@.len() == 17);
    assert("TISSUE_NOT_SHAPED"@[7] != "TISSUE_MAX_LENGTH"@[7]);
    assert("TISSUE_NOT_SHAPED"@ != "TISSUE_MAX_LENGTH"@);
    reveal_strlit("TISSUE_MAY_HAVE_COLOR");
    assert("TISSUE_MAY_HAVE_COLOR"@.len() == 21);
    assert("TISSUE_NOT_SHAPED"@ != "TISSUE_MAY_HAVE_COLOR"@);
    reveal_strlit("TISSUE_MAY_HAVE_SHAPING");
    assert("TISSUE_MAY_HAVE_SHAPING"@.len() == 23);
    assert("TISSUE_NOT_SHAPED"@ != "TISSUE_MAY_HAVE_SHAPING"@);
    assert(condition_read(l, bl).1 =~= Seq::<DFGHError<Seq<char>>>::empty());
}

/// A line whose token is `ITEM_QUALITY` reads as that condition.
proof fn lemma_read_item_quality(l: Seq<Seq<char>>, bl: usize)
    requires
        l.len() == 2,
        l[0] == "ITEM_QUALITY"@,
    ensures
        condition_read(l, bl) == (SpecCondition::ItemQuality(parse_or_zero(l[1])), field_errors(l, 1, 1, bl)),
{
    reveal_strlit("ITEM_QUALITY");
    assert("ITEM_QUALITY"@.len() == 12);
    reveal_strlit("(default)");
    assert("(default)"@.len() == 9);
    assert("ITEM_QUALITY"@ != "(default)"@);
    reveal_strlit("CONDITION_ITEM_WORN");
    assert("CONDITION_ITEM_WORN"@.len() == 19);
    assert("ITEM_QUALITY"@ != "CONDITION_ITEM_WORN"@);
    reveal_strlit("SHUT_OFF_IF_ITEM_PRESENT");
    assert("SHUT_OFF_IF_ITEM_PRESENT"@.len() == 24);
    assert("ITEM_QUALITY"@ != "SHUT_OFF_IF_ITEM_PRESENT"@);
    reveal_strlit("CONDITION_DYE");
    assert("CONDITION_DYE"@.len() == 13);
    assert("ITEM_QUALITY"@ != "CONDITION_DYE"@);
    reveal_strlit("CONDITION_NOT_DYED");
    assert("CONDITION_NOT_DYED"@.len() == 18);
    assert("ITEM_QUALITY"@ != "CONDITION_NOT_DYED"@);
    reveal_strlit("CONDITION_MATERIAL_FLAG");
    assert("CONDITION_MATERIAL_FLAG"@.len() == 23);
    assert("ITEM_QUALITY"@ != "CONDITION_MATERIAL_FLAG"@);
    reveal_strlit("CONDITION_MATERIAL_TYPE");
    assert("CONDITION_MATERIAL_TYPE"@.len() == 23);
    assert("ITEM_QUALITY"@ != "CONDITION_MATERIAL_TYPE"@);
    reveal_strlit("CONDITION_PROFESSION_CATEGORY");
    assert("CONDITION_PROFESSION_CATEGORY"@.len() == 29);
    assert("ITEM_QUALITY"@ != "CONDITION_PROFESSION_CATEGORY"@);
    reveal_strlit("CONDITION_RANDOM_PART_INDEX");
    assert("CONDITION_RANDOM_PART_INDEX"@.len() == 27);
    assert("ITEM_QUALITY"@ != "CONDITION_RANDOM_PART_INDEX"@);
    reveal_strlit("CONDITION_HAUL_COUNT_MIN");
    assert("CONDITION_HAUL_COUNT_MIN"@.len() == 24);
    assert("ITEM_QUALITY"@ != "CONDITION_HAUL_COUNT_MIN"@);
    reveal_strlit("CONDITION_HAUL_COUNT_MAX");
    assert("CONDITION_HAUL_COUNT_MAX"@.len() == 24);
    assert("ITEM_QUALITY"@ != "CONDITION_HAUL_COUNT_MAX"@);
    reveal_strlit("CONDITION_CHILD");
    assert("CONDITION_CHILD"@.len() == 15);
    assert("ITEM_QUALITY"@ != "CONDITION_CHILD"@);
    reveal_strlit("CONDITION_NOT_CHILD");
    assert("CONDITION_NOT_CHILD"@.len() == 19);
    assert("ITEM_QUALITY"@ != "CONDITION_NOT_CHILD"@);
    reveal_strlit("CONDITION_CASTE");
    assert("CONDITION_CASTE"@.len() == 15);
    assert("ITEM_QUALITY"@ != "CONDITION_CASTE"@);
    reveal_strlit("CONDITION_GHOST");
    assert("CONDITION_GHOST"@.len() == 15);
    assert("ITEM_QUALITY"@ != "CONDITION_GHOST"@);
    reveal_strlit("CONDITION_SYN_CLASS");
    assert("CONDITION_SYN_CLASS"@.len() == 19);
    assert("ITEM_QUALITY"@ != "CONDITION_SYN_CLASS"@);
    reveal_strlit("CONDITION_TISSUE_LAYER");
    assert("CONDITION_TISSUE_LAYER"@.len() == 22);
    assert("ITEM_QUALITY"@ != "CONDITION_TISSUE_LAYER"@);
    reveal_strlit("TISSUE_MIN_LENGTH");
    assert("TISSUE_MIN_LENGTH"@.len() == 17);
    assert("ITEM_QUALITY"@ != "TISSUE_MIN_LENGTH"@);
    reveal_strlit("TISSUE_MAX_LENGTH");
    assert("TISSUE_MAX_LENGTH"@.len() == 17);
    assert("ITEM_QUALITY"@ != "TISSUE_MAX_LENGTH"@);
    reveal_strlit("TISSUE_MAY_HAVE_COLOR");
    assert("TISSUE_MAY_HAVE_COLOR"@.len() == 21);
    assert("ITEM_QUALITY"@ != "TISSUE_MAY_HAVE_COLOR"@);
    reveal_strlit("TISSUE_MAY_HAVE_SHAPING");
    assert("TISSUE_MAY_HAVE_SHAPING"@.len() == 23);
    assert("ITEM_QUALITY"@ != "TISSUE_MAY_HAVE_SHAPING"@);
    reveal_strlit("TISSUE_NOT_SHAPED");
    assert("TISSUE_NOT_SHAPED"@.len() == 17);
    assert("ITEM_QUALITY"@ != "TISSUE_NOT_SHAPED"@);
    reveal_strlit("TISSUE_SWAP");
    assert("TISSUE_SWAP"@.len() == 11);
    assert("ITEM_QUALITY"@ != "TISSUE_SWAP"@);
}

/// A line whose token is `USE_STANDARD_PALETTE_FROM_ITEM` reads as that condition.
proof fn lemma_read_use_standard_palette(l: Seq<Seq<char>>, bl: usize)
    requires
        l.len() == 1,
        l[0] == "USE_STANDARD_PALETTE_FROM_ITEM"@,
    ensures
        condition_read(l, bl) == (SpecCondition::UseStandardPalette, Seq::<DFGHError<Seq<char>>>::empty()),
{
    reveal_strlit("USE_STANDARD_PALETTE_FROM_ITEM");
    assert("USE_STANDARD_PALETTE_FROM_ITEM"@.len() == 30);
    reveal_strlit("(default)");
    assert("(default)"@.len() == 9);
    assert("USE_STANDARD_PALETTE_FROM_ITEM"@ != "(default)"@);
    reveal_strlit("CONDITION_ITEM_WORN");
    assert("CONDITION_ITEM_WORN"@.len() == 19);
    assert("USE_STANDARD_PALETTE_FROM_ITEM"@ != "CONDITION_ITEM_WORN"@);
    reveal_strlit("SHUT_OFF_IF_ITEM_PRESENT");
    assert("SHUT_OFF_IF_ITEM_PRESENT"@.len() == 24);
    assert("USE_STANDARD_PALETTE_FROM_ITEM"@ != "SHUT_OFF_IF_ITEM_PRESENT"@);
    reveal_strlit("CONDITION_DYE");
    assert("CONDITION_DYE"@.len() == 13);
    assert("USE_STANDARD_PALETTE_FROM_ITEM"@ != "CONDITION_DYE"@);
    reveal_strlit("CONDITION_NOT_DYED");
    assert("CONDITION_NOT_DYED"@.len() == 18);
    assert("USE_STANDARD_PALETTE_FROM_ITEM"@ != "CONDITION_NOT_DYED"@);
    reveal_strlit("CONDITION_MATERIAL_FLAG");
    assert("CONDITION_MATERIAL_FLAG"@.len() == 23);
    assert("USE_STANDARD_PALETTE_FROM_ITEM"@ != "CONDITION_MATERIAL_FLAG"@);
    reveal_strlit("CONDITION_MATERIAL_TYPE");
    assert("CONDITION_MATERIAL_TYPE"@.len() == 23);
    assert("USE_STANDARD_PALETTE_FROM_ITEM"@ != "CONDITION_MATERIAL_TYPE"@);
    reveal_strlit("CONDITION_PROFESSION_CATEGORY");
    assert("CONDITION_PROFESSION_CATEGORY"@.len() == 29);
    assert("USE_STANDARD_PALETTE_FROM_ITEM"@ != "CONDITION_PROFESSION_CATEGORY"@);
    reveal_strlit("CONDITION_RANDOM_PART_INDEX");
    assert("CONDITION_RANDOM_PART_INDEX"@.len() == 27);
    assert("USE_STANDARD_PALETTE_FROM_ITEM"@ != "CONDITION_RANDOM_PART_INDEX"@);
    reveal_strlit("CONDITION_HAUL_COUNT_MIN");
    assert("CONDITION_HAUL_COUNT_MIN"@.len() == 24);
    assert("USE_STANDARD_PALETTE_FROM_ITEM"@ != "CONDITION_HAUL_COUNT_MIN"@);
    reveal_strlit("CONDITION_HAUL_COUNT_MAX");
    assert("CONDITION_HAUL_COUNT_MAX"@.len() == 24);
    assert("USE_STANDARD_PALETTE_FROM_ITEM"@ != "CONDITION_HAUL_COUNT_MAX"@);
    reveal_strlit("CONDITION_CHILD");
    assert("CONDITION_CHILD"@.len() == 15);
    assert("USE_STANDARD_PALETTE_FROM_ITEM"@ != "CONDITION_CHILD"@);
    reveal_strlit("CONDITION_NOT_CHILD");
    assert("CONDITION_NOT_CHILD"@.len() == 19);
    assert("USE_STANDARD_PALETTE_FROM_ITEM"@ != "CONDITION_NOT_CHILD"@);
    reveal_strlit("CONDITION_CASTE");
    assert("CONDITION_CASTE"@.len() == 15);
    assert("USE_STANDARD_PALETTE_FROM_ITEM"@ != "CONDITION_CASTE"@);
    reveal_strlit("CONDITION_GHOST");
    assert("CONDITION_GHOST"@.len() == 15);
    assert("USE_STANDARD_PALETTE_FROM_ITEM"@ != "CONDITION_GHOST"@);
    reveal_strlit("CONDITION_SYN_CLASS");
    assert("CONDITION_SYN_CLASS"@.len() == 19);
    assert("USE_STANDARD_PALETTE_FROM_ITEM"@ != "CONDITION_SYN_CLASS"@);
    reveal_strlit("CONDITION_TISSUE_LAYER");
    assert("CONDITION_TISSUE_LAYER"@.len() == 22);
    assert("USE_STANDARD_PALETTE_FROM_ITEM"@ != "CONDITION_TISSUE_LAYER"@);
    reveal_strlit("TISSUE_MIN_LENGTH");
    assert("TISSUE_MIN_LENGTH"@.len() == 17);
    assert("USE_STANDARD_PALETTE_FROM_ITEM"@ != "TISSUE_MIN_LENGTH"@);
    reveal_strlit("TISSUE_MAX_LENGTH");
    assert("TISSUE_MAX_LENGTH"@.len() == 17);
    assert("USE_STANDARD_PALETTE_FROM_ITEM"@ != "TISSUE_MAX_LENGTH"@);
    reveal_strlit("TISSUE_MAY_HAVE_COLOR");
    assert("TISSUE_MAY_HAVE_COLOR"@.len() == 21);
    assert("USE_STANDARD_PALETTE_FROM_ITEM"@ != "TISSUE_MAY_HAVE_COLOR"@);
    reveal_strlit("TISSUE_MAY_HAVE_SHAPING");
    assert("TISSUE_MAY_HAVE_SHAPING"@.len() == 23);
    assert("USE_STANDARD_PALETTE_FROM_ITEM"@ != "TISSUE_MAY_HAVE_SHAPING"@);
    reveal_strlit("TISSUE_NOT_SHAPED");
    assert("TISSUE_NOT_SHAPED"@.len() == 17);
    assert("USE_STANDARD_PALETTE_FROM_ITEM"@ != "TISSUE_NOT_SHAPED"@);
    reveal_strlit("TISSUE_SWAP");
    assert("TISSUE_SWAP"@.len() == 11);
    assert("USE_STANDARD_PALETTE_FROM_ITEM"@ != "TISSUE_SWAP"@);
    reveal_strlit("ITEM_QUALITY");
    assert("ITEM_QUALITY"@.len() == 12);
    assert("USE_STANDARD_PALETTE_FROM_ITEM"@ != "ITEM_QUALITY"@);
    reveal_strlit("USE_PALETTE");
    assert("USE_PALETTE"@.len() == 11);
    assert("USE_STANDARD_PALETTE_FROM_ITEM"@ != "USE_PALETTE"@);
    assert(condition_read(l, bl).1 =~= Seq::<DFGHError<Seq<char>>>::empty());
}

/// A line whose token is `BP_PRESENT` reads as that condition.
proof fn lemma_read_b_p_present(l: Seq<Seq<char>>, bl: usize)
    requires
        l.len() == 1,
        l[0] == "BP_PRESENT"@,
    ensures
        condition_read(l, bl) == (SpecCondition::BPPresent, Seq::<DFGHError<Seq<char>>>::empty()),
{
    reveal_strlit("BP_PRESENT");
    assert("BP_PRESENT"@.len() == 10);
    reveal_strlit("(default)");
    assert("(default)"@.len() == 9);
    assert("BP_PRESENT"@ != "(default)"@);
    reveal_strlit("CONDITION_ITEM_WORN");
    assert("CONDITION_ITEM_WORN"@.len() == 19);
    assert("BP_PRESENT"@ != "CONDITION_ITEM_WORN"@);
    reveal_strlit("SHUT_OFF_IF_ITEM_PRESENT");
    assert("SHUT_OFF_IF_ITEM_PRESENT"@.len() == 24);
    assert("BP_PRESENT"@ != "SHUT_OFF_IF_ITEM_PRESENT"@);
    reveal_strlit("CONDITION_DYE");
    assert("CONDITION_DYE"@.len() == 13);
    assert("BP_PRESENT"@ != "CONDITION_DYE"@);
    reveal_strlit("CONDITION_NOT_DYED");
    assert("CONDITION_NOT_DYED"@.len() == 18);
    assert("BP_PRESENT"@ != "CONDITION_NOT_DYED"@);
    reveal_strlit("CONDITION_MATERIAL_FLAG");
    assert("CONDITION_MATERIAL_FLAG"@.len() == 23);
    assert("BP_PRESENT"@ != "CONDITION_MATERIAL_FLAG"@);
    reveal_strlit("CONDITION_MATERIAL_TYPE");
    assert("CONDITION_MATERIAL_TYPE"@.len() == 23);
    assert("BP_PRESENT"@ != "CONDITION_MATERIAL_TYPE"@);
    reveal_strlit("CONDITION_PROFESSION_CATEGORY");
    assert("CONDITION_PROFESSION_CATEGORY"@.len() == 29);
    assert("BP_PRESENT"@ != "CONDITION_PROFESSION_CATEGORY"@);
    reveal_strlit("CONDITION_RANDOM_PART_INDEX");
    assert("CONDITION_RANDOM_PART_INDEX"@.len() == 27);
    assert("BP_PRESENT"@ != "CONDITION_RANDOM_PART_INDEX"@);
    reveal_strlit("CONDITION_HAUL_COUNT_MIN");
    assert("CONDITION_HAUL_COUNT_MIN"@.len() == 24);
    assert("BP_PRESENT"@ != "CONDITION_HAUL_COUNT_MIN"@);
    reveal_strlit("CONDITION_HAUL_COUNT_MAX");
    assert("CONDITION_HAUL_COUNT_MAX"@.len() == 24);
    assert("BP_PRESENT"@ != "CONDITION_HAUL_COUNT_MAX"@);
    reveal_strlit("CONDITION_CHILD");
    assert("CONDITION_CHILD"@.len() == 15);
    assert("BP_PRESENT"@ != "CONDITION_CHILD"@);
    reveal_strlit("CONDITION_NOT_CHILD");
    assert("CONDITION_NOT_CHILD"@.len() == 19);
    assert("BP_PRESENT"@ != "CONDITION_NOT_CHILD"@);
    reveal_strlit("CONDITION_CASTE");
    assert("CONDITION_CASTE"@.len() == 15);
    assert("BP_PRESENT"@ != "CONDITION_CASTE"@);
    reveal_strlit("CONDITION_GHOST");
    assert("CONDITION_GHOST"@.len() == 15);
    assert("BP_PRESENT"@ != "CONDITION_GHOST"@);
    reveal_strlit("CONDITION_SYN_CLASS");
    assert("CONDITION_SYN_CLASS"@.len() == 19);
    assert("BP_PRESENT"@ != "CONDITION_SYN_CLASS"@);
    reveal_strlit("CONDITION_TISSUE_LAYER");
    assert("CONDITION_TISSUE_LAYER"@.len() == 22);
    assert("BP_PRESENT"@ != "CONDITION_TISSUE_LAYER"@);
    reveal_strlit("TISSUE_MIN_LENGTH");
    assert("TISSUE_MIN_LENGTH"@.len() == 17);
    assert("BP_PRESENT"@ != "TISSUE_MIN_LENGTH"@);
    reveal_strlit("TISSUE_MAX_LENGTH");
    assert("TISSUE_MAX_LENGTH"@.len() == 17);
    assert("BP_PRESENT"@ != "TISSUE_MAX_LENGTH"@);
    reveal_strlit("TISSUE_MAY_HAVE_COLOR");
    assert("TISSUE_MAY_HAVE_COLOR"@.len() == 21);
    assert("BP_PRESENT"@ != "TISSUE_MAY_HAVE_COLOR"@);
    reveal_strlit("TISSUE_MAY_HAVE_SHAPING");
    assert("TISSUE_MAY_HAVE_SHAPING"@.len() == 23);
    assert("BP_PRESENT"@ != "TISSUE_MAY_HAVE_SHAPING"@);
    reveal_strlit("TISSUE_NOT_SHAPED");
    assert("TISSUE_NOT_SHAPED"@.len() == 17);
    assert("BP_PRESENT"@ != "TISSUE_NOT_SHAPED"@);
    reveal_strlit("TISSUE_SWAP");
    assert("TISSUE_SWAP"@.len() == 11);
    assert("BP_PRESENT"@ != "TISSUE_SWAP"@);
    reveal_strlit("ITEM_QUALITY");
    assert("ITEM_QUALITY"@.len() == 12);
    assert("BP_PRESENT"@ != "ITEM_QUALITY"@);
    reveal_strlit("USE_PALETTE");
    assert("USE_PALETTE"@.len() == 11);
    assert("BP_PRESENT"@ != "USE_PALETTE"@);
    reveal_strlit("USE_STANDARD_PALETTE_FROM_ITEM");
    assert("USE_STANDARD_PALETTE_FROM_ITEM"@.len() == 30);
    assert("BP_PRESENT"@ != "USE_STANDARD_PALETTE_FROM_ITEM"@);
    reveal_strlit("CONDITION_BP");
    assert("CONDITION_BP"@.len() == 12);
    assert("BP_PRESENT"@ != "CONDITION_BP"@);
    reveal_strlit("LG_CONDITION_BP");
    assert("LG_CONDITION_BP"@.len() == 15);
    assert("BP_PRESENT"@ != "LG_CONDITION_BP"@);
    reveal_strlit("BP_APPEARANCE_MODIFIER_RANGE");
    assert("BP_APPEARANCE_MODIFIER_RANGE"@.len() == 28);
    assert("BP_PRESENT"@ != "BP_APPEARANCE_MODIFIER_RANGE"@);
    assert(condition_read(l, bl).1 =~= Seq::<DFGHError<Seq<char>>>::empty());
}

/// A line whose token is `BP_SCARRED` reads as that condition.
proof fn lemma_read_b_p_scarred(l: Seq<Seq<char>>, bl: usize)
    requires
        l.len() == 1,
        l[0] == "BP_SCARRED"@,
    ensures
        condition_read(l, bl) == (SpecCondition::BPScarred, Seq::<DFGHError<Seq<char>>>::empty()),
{
    reveal_strlit("BP_SCARRED");
    assert("BP_SCARRED"@.len() == 10);
    reveal_strlit("(default)");
    assert("(default)"@.len() == 9);
    assert("BP_SCARRED"@ != "(default)"@);
    reveal_strlit("CONDITION_ITEM_WORN");
    assert("CONDITION_ITEM_WORN"@.len() == 19);
    assert("BP_SCARRED"@ != "CONDITION_ITEM_WORN"@);
    reveal_strlit("SHUT_OFF_IF_ITEM_PRESENT");
    assert("SHUT_OFF_IF_ITEM_PRESENT"@.len() == 24);
    assert("BP_SCARRED"@ != "SHUT_OFF_IF_ITEM_PRESENT"@);
    reveal_strlit("CONDITION_DYE");
    assert("CONDITION_DYE"@.len() == 13);
    assert("BP_SCARRED"@ != "CONDITION_DYE"@);
    reveal_strlit("CONDITION_NOT_DYED");
    assert("CONDITION_NOT_DYED"@.len() == 18);
    assert("BP_SCARRED"@ != "CONDITION_NOT_DYED"@);
    reveal_strlit("CONDITION_MATERIAL_FLAG");
    assert("CONDITION_MATERIAL_FLAG"@.len() == 23);
    assert("BP_SCARRED"@ != "CONDITION_MATERIAL_FLAG"@);
    reveal_strlit("CONDITION_MATERIAL_TYPE");
    assert("CONDITION_MATERIAL_TYPE"@.len() == 23);
    assert("BP_SCARRED"@ != "CONDITION_MATERIAL_TYPE"@);
    reveal_strlit("CONDITION_PROFESSION_CATEGORY");
    assert("CONDITION_PROFESSION_CATEGORY"@.len() == 29);
    assert("BP_SCARRED"@ != "CONDITION_PROFESSION_CATEGORY"@);
    reveal_strlit("CONDITION_RANDOM_PART_INDEX");
    assert("CONDITION_RANDOM_PART_INDEX"@.len() == 27);
    assert("BP_SCARRED"@ != "CONDITION_RANDOM_PART_INDEX"@);
    reveal_strlit("CONDITION_HAUL_COUNT_MIN");
    assert("CONDITION_HAUL_COUNT_MIN"@.len() == 24);
    assert("BP_SCARRED"@ != "CONDITION_HAUL_COUNT_MIN"@);
    reveal_strlit("CONDITION_HAUL_COUNT_MAX");
    assert("CONDITION_HAUL_COUNT_MAX"@.len() == 24);
    assert("BP_SCARRED"@ != "CONDITION_HAUL_COUNT_MAX"@);
    reveal_strlit("CONDITION_CHILD");
    assert("CONDITION_CHILD"@.len() == 15);
    assert("BP_SCARRED"@ != "CONDITION_CHILD"@);
    reveal_strlit("CONDITION_NOT_CHILD");
    assert("CONDITION_NOT_CHILD"@.len() == 19);
    assert("BP_SCARRED"@ != "CONDITION_NOT_CHILD"@);
    reveal_strlit("CONDITION_CASTE");
    assert("CONDITION_CASTE"@.len() == 15);
    assert("BP_SCARRED"@ != "CONDITION_CASTE"@);
    reveal_strlit("CONDITION_GHOST");
    assert("CONDITION_GHOST"@.len() == 15);
    assert("BP_SCARRED"@ != "CONDITION_GHOST"@);
    reveal_strlit("CONDITION_SYN_CLASS");
    assert("CONDITION_SYN_CLASS"@.len() == 19);
    assert("BP_SCARRED"@ != "CONDITION_SYN_CLASS"@);
    reveal_strlit("CONDITION_TISSUE_LAYER");
    assert("CONDITION_TISSUE_LAYER"@.len() == 22);
    assert("BP_SCARRED"@ != "CONDITION_TISSUE_LAYER"@);
    reveal_strlit("TISSUE_MIN_LENGTH");
    assert("TISSUE_MIN_LENGTH"@.len() == 17);
    assert("BP_SCARRED"@ != "TISSUE_MIN_LENGTH"@);
    reveal_strlit("TISSUE_MAX_LENGTH");
    assert("TISSUE_MAX_LENGTH"@.len() == 17);
    assert("BP_SCARRED"@ != "TISSUE_MAX_LENGTH"@);
    reveal_strlit("TISSUE_MAY_HAVE_COLOR");
    assert("TISSUE_MAY_HAVE_COLOR"@.len() == 21);
    assert("BP_SCARRED"@ != "TISSUE_MAY_HAVE_COLOR"@);
    reveal_strlit("TISSUE_MAY_HAVE_SHAPING");
    assert("TISSUE_MAY_HAVE_SHAPING"@.len() == 23);
    assert("BP_SCARRED"@ != "TISSUE_MAY_HAVE_SHAPING"@);
    reveal_strlit("TISSUE_NOT_SHAPED");
    assert("TISSUE_NOT_SHAPED"@.len() == 17);
    assert("BP_SCARRED"@ != "TISSUE_NOT_SHAPED"@);
    reveal_strlit("TISSUE_SWAP");
    assert("TISSUE_SWAP"@.len() == 11);
    assert("BP_SCARRED"@ != "TISSUE_SWAP"@);
    reveal_strlit("ITEM_QUALITY");
    assert("ITEM_QUALITY"@.len() == 12);
    assert("BP_SCARRED"@ != "ITEM_QUALITY"@);
    reveal_strlit("USE_PALETTE");
    assert("USE_PALETTE"@.len() == 11);
    assert("BP_SCARRED"@ != "USE_PALETTE"@);
    reveal_strlit("USE_STANDARD_PALETTE_FROM_ITEM");
    assert("USE_STANDARD_PALETTE_FROM_ITEM"@.len() == 30);
    assert("BP_SCARRED"@ != "USE_STANDARD_PALETTE_FROM_ITEM"@);
    reveal_strlit("CONDITION_BP");
    assert("CONDITION_BP"@.len() == 12);
    assert("BP_SCARRED"@ != "CONDITION_BP"@);
    reveal_strlit("LG_CONDITION_BP");
    assert("LG_CONDITION_BP"@.len() == 15);
    assert("BP_SCARRED"@ != "LG_CONDITION_BP"@);
    reveal_strlit("BP_APPEARANCE_MODIFIER_RANGE");
    assert("BP_APPEARANCE_MODIFIER_RANGE"@.len() == 28);
    assert("BP_SCARRED"@ != "BP_APPEARANCE_MODIFIER_RANGE"@);
    reveal_strlit("BP_PRESENT");
    assert("BP_PRESENT"@.len() == 10);
    assert("BP_SCARRED"@[3] != "BP_PRESENT"@[3]);
    assert("BP_SCARRED"@ != "BP_PRESENT"@);
    assert(condition_read(l, bl).1 =~= Seq::<DFGHError<Seq<char>>>::empty());
}

/// The written line of this condition reads back as it.
proof fn lemma_round_trip_not_dyed(bl: usize)
    ensures
        condition_read(bracket_fields(condition_display(SpecCondition::NotDyed)), bl) == (SpecCondition::NotDyed, Seq::<DFGHError<Seq<char>>>::empty()),
{
            let c = SpecCondition::NotDyed;
            reveal_with_fuel(free_of, 32);
            reveal_strlit("\t\t\t\t[CONDITION_NOT_DYED]\n");
            reveal_strlit("CONDITION_NOT_DYED");
            let tok = "CONDITION_NOT_DYED"@;
            let pre = seq!['\t', '\t', '\t', '\t'];
            assert(condition_display(c) =~= pre + seq!['['] + tok + seq![']'] + seq!['\n']);
            lemma_literal_free(pre, tok);
            lemma_bare_line_fields(pre, tok, seq!['\n']);
            lemma_read_not_dyed(seq![tok], bl);
}

/// The written line of this condition reads back as it.
proof fn lemma_round_trip_haul_count_min(h: u32, bl: usize)
    ensures
        condition_read(bracket_fields(condition_display(SpecCondition::HaulCountMin(h))), bl) == (SpecCondition::HaulCountMin(h), Seq::<DFGHError<Seq<char>>>::empty()),
{
            let c = SpecCondition::HaulCountMin(h);
            reveal_with_fuel(free_of, 32);
            reveal_strlit("\t\t\t\t[CONDITION_HAUL_COUNT_MIN:");
            reveal_strlit("CONDITION_HAUL_COUNT_MIN");
            reveal_strlit("]\n");
            let tok = "CONDITION_HAUL_COUNT_MIN"@;
            let pre = seq!['\t', '\t', '\t', '\t'];
            assert(condition_display(c) =~= pre + seq!['['] + tok + seq![':'] + decimal(h as nat) + seq![']'] + seq!['\n']);
            lemma_literal_free(pre, tok);
            lemma_numeric_line_fields(pre, tok, h as nat, seq!['\n']);
            lemma_parse_decimal(h);
            let l = seq![tok, decimal(h as nat)];
            lemma_read_haul_count_min(l, bl);
            assert(field_errors(l, 1, 1, bl) =~= Seq::<DFGHError<Seq<char>>>::empty());
}

/// The written line of this condition reads back as it.
proof fn lemma_round_trip_haul_count_max(h: u32, bl: usize)
    ensures
        condition_read(bracket_fields(condition_display(SpecCondition::HaulCountMax(h))), bl) == (SpecCondition::HaulCountMax(h), Seq::<DFGHError<Seq<char>>>::empty()),
{
            let c = SpecCondition::HaulCountMax(h);
            reveal_with_fuel(free_of, 32);
            reveal_strlit("\t\t\t\t[CONDITION_HAUL_COUNT_MAX:");
            reveal_strlit("CONDITION_HAUL_COUNT_MAX");
            reveal_strlit("]\n");
            let tok = "CONDITION_HAUL_COUNT_MAX"@;
            let pre = seq!['\t', '\t', '\t', '\t'];
            assert(condition_display(c) =~= pre + seq!['['] + tok + seq![':'] + decimal(h as nat) + seq![']'] + seq!['\n']);
            lemma_literal_free(pre, tok);
            lemma_numeric_line_fields(pre, tok, h as nat, seq!['\n']);
            lemma_parse_decimal(h);
            let l = seq![tok, decimal(h as nat)];
            lemma_read_haul_count_max(l, bl);
            assert(field_errors(l, 1, 1, bl) =~= Seq::<DFGHError<Seq<char>>>::empty());
}

/// The written line of this condition reads back as it.
proof fn lemma_round_trip_child(bl: usize)
    ensures
        condition_read(bracket_fields(condition_display(SpecCondition::Child)), bl) == (SpecCondition::Child, Seq::<DFGHError<Seq<char>>>::empty()),
{
            let c = SpecCondition::Child;
            reveal_with_fuel(free_of, 32);
            reveal_strlit("\t\t\t\t[CONDITION_CHILD]\n");
            reveal_strlit("CONDITION_CHILD");
            let tok = "CONDITION_CHILD"@;
            let pre = seq!['\t', '\t', '\t', '\t'];
            assert(condition_display(c) =~= pre + seq!['['] + tok + seq![']'] + seq!['\n']);
            lemma_literal_free(pre, tok);
            lemma_bare_line_fields(pre, tok, seq!['\n']);
            lemma_read_child(seq![tok], bl);
}

/// The written line of this condition reads back as it.
proof fn lemma_round_trip_not_child(bl: usize)
    ensures
        condition_read(bracket_fields(condition_display(SpecCondition::NotChild)), bl) == (SpecCondition::NotChild, Seq::<DFGHError<Seq<char>>>::empty()),
{
            let c = SpecCondition::NotChild;
            reveal_with_fuel(free_of, 32);
            reveal_strlit("\t\t\t\t[CONDITION_NOT_CHILD]\n");
            reveal_strlit("CONDITION_NOT_CHILD");
            let tok = "CONDITION_NOT_CHILD"@;
            let pre = seq!['\t', '\t', '\t', '\t'];
            assert(condition_display(c) =~= pre + seq!['['] + tok + seq![']'] + seq!['\n']);
            lemma_literal_free(pre, tok);
            lemma_bare_line_fields(pre, tok, seq!['\n']);
            lemma_read_not_child(seq![tok], bl);
}

/// The written line of this condition reads back as it.
proof fn lemma_round_trip_is_ghost(bl: usize)
    ensures
        condition_read(bracket_fields(condition_display(SpecCondition::IsGhost)), bl) == (SpecCondition::IsGhost, Seq::<DFGHError<Seq<char>>>::empty()),
{
            let c = SpecCondition::IsGhost;
            reveal_with_fuel(free_of, 32);
            reveal_strlit("\t\t\t\t[CONDITION_GHOST]\n");
            reveal_strlit("CONDITION_GHOST");
            let tok = "CONDITION_GHOST"@;
            let pre = seq!['\t', '\t', '\t', '\t'];
            assert(condition_display(c) =~= pre + seq!['['] + tok + seq![']'] + seq!['\n']);
            lemma_literal_free(pre, tok);
            lemma_bare_line_fields(pre, tok, seq!['\n']);
            lemma_read_is_ghost(seq![tok], bl);
}

/// The written line of this condition reads back as it.
proof fn lemma_round_trip_tissue_min_length(h: u32, bl: usize)
    ensures
        condition_read(bracket_fields(condition_display(SpecCondition::TissueMinLength(h))), bl) == (SpecCondition::TissueMinLength(h), Seq::<DFGHError<Seq<char>>>::empty()),
{
            let c = SpecCondition::TissueMinLength(h);
            reveal_with_fuel(free_of, 32);
            reveal_strlit("\t\t\t\t\t[TISSUE_MIN_LENGTH:");
            reveal_strlit("TISSUE_MIN_LENGTH");
            reveal_strlit("]\n");
            let tok = "TISSUE_MIN_LENGTH"@;
            let pre = seq!['\t', '\t', '\t', '\t', '\t'];
            assert(condition_display(c) =~= pre + seq!['['] + tok + seq![':'] + decimal(h as nat) + seq![']'] + seq!['\n']);
            lemma_literal_free(pre, tok);
            lemma_numeric_line_fields(pre, tok, h as nat, seq!['\n']);
            lemma_parse_decimal(h);
            let l = seq![tok, decimal(h as nat)];
            lemma_read_tissue_min_length(l, bl);
            assert(field_errors(l, 1, 1, bl) =~= Seq::<DFGHError<Seq<char>>>::empty());
}

/// The written line of this condition reads back as it.
proof fn lemma_round_trip_tissue_max_length(h: u32, bl: usize)
    ensures
        condition_read(bracket_fields(condition_display(SpecCondition::TissueMaxLength(h))), bl) == (SpecCondition::TissueMaxLength(h), Seq::<DFGHError<Seq<char>>>::empty()),
{
            let c = SpecCondition::TissueMaxLength(h);
            reveal_with_fuel(free_of, 32);
            reveal_strlit("\t\t\t\t\t[TISSUE_MAX_LENGTH:");
            reveal_strlit("TISSUE_MAX_LENGTH");
            reveal_strlit("]\n");
            let tok = "TISSUE_MAX_LENGTH"@;
            let pre = seq!['\t', '\t', '\t', '\t', '\t'];
            assert(condition_display(c) =~= pre + seq!['['] + tok + seq![':'] + decimal(h as nat) + seq![']'] + seq!['\n']);
            lemma_literal_free(pre, tok);
            lemma_numeric_line_fields(pre, tok, h as nat, seq!['\n']);
            lemma_parse_decimal(h);
            let l = seq![tok, decimal(h as nat)];
            lemma_read_tissue_max_length(l, bl);
            assert(field_errors(l, 1, 1, bl) =~= Seq::<DFGHError<Seq<char>>>::empty());
}

/// The written line of this condition reads back as it.
proof fn lemma_round_trip_tissue_not_shaped(bl: usize)
    ensures
        condition_read(bracket_fields(condition_display(SpecCondition::TissueNotShaped)), bl) == (SpecCondition::TissueNotShaped, Seq::<DFGHError<Seq<char>>>::empty()),
{
            let c = SpecCondition::TissueNotShaped;
            reveal_with_fuel(free_of, 32);
            reveal_strlit("\t\t\t\t\t[TISSUE_NOT_SHAPED]\n");
            reveal_strlit("TISSUE_NOT_SHAPED");
            let tok = "TISSUE_NOT_SHAPED"@;
            let pre = seq!['\t', '\t', '\t', '\t', '\t'];
            assert(condition_display(c) =~= pre + seq!['['] + tok + seq![']'] + seq!['\n']);
            lemma_literal_free(pre, tok);
            lemma_bare_line_fields(pre, tok, seq!['\n']);
            lemma_read_tissue_not_shaped(seq![tok], bl);
}

/// The written line of this condition reads back as it.
proof fn lemma_round_trip_item_quality(h: u32, bl: usize)
    ensures
        condition_read(bracket_fields(condition_display(SpecCondition::ItemQuality(h))), bl) == (SpecCondition::ItemQuality(h), Seq::<DFGHError<Seq<char>>>::empty()),
{
            let c = SpecCondition::ItemQuality(h);
            reveal_with_fuel(free_of, 32);
            reveal_strlit("\t\t\t\t[ITEM_QUALITY:");
            reveal_strlit("ITEM_QUALITY");
            reveal_strlit("]\n");
            let tok = "ITEM_QUALITY"@;
            let pre = seq!['\t', '\t', '\t', '\t'];
            assert(condition_display(c) =~= pre + seq!['['] + tok + seq![':'] + decimal(h as nat) + seq![']'] + seq!['\n']);
            lemma_literal_free(pre, tok);
            lemma_numeric_line_fields(pre, tok, h as nat, seq!['\n']);
            lemma_parse_decimal(h);
            let l = seq![tok, decimal(h as nat)];
            lemma_read_item_quality(l, bl);
            assert(field_errors(l, 1, 1, bl) =~= Seq::<DFGHError<Seq<char>>>::empty());
}

/// The written line of this condition reads back as it.
proof fn lemma_round_trip_use_standard_palette(bl: usize)
    ensures
        condition_read(bracket_fields(condition_display(SpecCondition::UseStandardPalette)), bl) == (SpecCondition::UseStandardPalette, Seq::<DFGHError<Seq<char>>>::empty()),
{
            let c = SpecCondition::UseStandardPalette;
            reveal_with_fuel(free_of, 32);
            reveal_strlit("\t\t\t\t[USE_STANDARD_PALETTE_FROM_ITEM]\n");
            reveal_strlit("USE_STANDARD_PALETTE_FROM_ITEM");
            let tok = "USE_STANDARD_PALETTE_FROM_ITEM"@;
            let pre = seq!['\t', '\t', '\t', '\t'];
            assert(condition_display(c) =~= pre + seq!['['] + tok + seq![']'] + seq!['\n']);
            lemma_literal_free(pre, tok);
            lemma_bare_line_fields(pre, tok, seq!['\n']);
            lemma_read_use_standard_palette(seq![tok], bl);
}

/// The written line of this condition reads back as it.
proof fn lemma_round_trip_b_p_present(bl: usize)
    ensures
        condition_read(bracket_fields(condition_display(SpecCondition::BPPresent)), bl) == (SpecCondition::BPPresent, Seq::<DFGHError<Seq<char>>>::empty()),
{
            let c = SpecCondition::BPPresent;
            reveal_with_fuel(free_of, 32);
            reveal_strlit("\t\t\t\t[BP_PRESENT]\n");
            reveal_strlit("BP_PRESENT");
            let tok = "BP_PRESENT"@;
            let pre = seq!['\t', '\t', '\t', '\t'];
            assert(condition_display(c) =~= pre + seq!['['] + tok + seq![']'] + seq!['\n']);
            lemma_literal_free(pre, tok);
            lemma_bare_line_fields(pre, tok, seq!['\n']);
            lemma_read_b_p_present(seq![tok], bl);
}

/// The written line of this condition reads back as it.
proof fn lemma_round_trip_b_p_scarred(bl: usize)
    ensures
        condition_read(bracket_fields(condition_display(SpecCondition::BPScarred)), bl) == (SpecCondition::BPScarred, Seq::<DFGHError<Seq<char>>>::empty()),
{
            let c = SpecCondition::BPScarred;
            reveal_with_fuel(free_of, 32);
            reveal_strlit("\t\t\t\t[BP_SCARRED]\n");
            reveal_strlit("BP_SCARRED");
            let tok = "BP_SCARRED"@;
            let pre = seq!['\t', '\t', '\t', '\t'];
            assert(condition_display(c) =~= pre + seq!['['] + tok + seq![']'] + seq!['\n']);
            lemma_literal_free(pre, tok);
            lemma_bare_line_fields(pre, tok, seq!['\n']);
            lemma_read_b_p_scarred(seq![tok], bl);
}

/// Whether a condition's line holds only its token and numbers: no name that
/// goes through case conversion.
pub open spec fn literal_condition(c: SpecCondition) -> bool {
    c is NotDyed || c is HaulCountMin || c is HaulCountMax || c is Child || c is NotChild || c is IsGhost || c is TissueMinLength || c is TissueMaxLength || c is TissueNotShaped || c is ItemQuality || c is UseStandardPalette || c is BPPresent || c is BPScarred
}

/// Tabs hold no `[`, and a token of capitals and underscores no `:` or `]`.
proof fn lemma_literal_free(pre: Seq<char>, tok: Seq<char>)
    requires
        free_of(pre, '['),
        free_of(tok, ':'),
        free_of(tok, ']'),
    ensures
        lacks(pre, '['),
        lacks(tok, ':'),
        lacks(tok, ']'),
{
    lemma_free_of(pre, '[');
    lemma_free_of(tok, ':');
    lemma_free_of(tok, ']');
}

/// Writing a condition and reading back the fields of the written line gives
/// the same condition, and no error: the line's token names the condition's
/// kind and its field is the condition's number.
pub proof fn law_condition_read_inverts_display(c: SpecCondition, bl: usize)
    requires
        literal_condition(c),
    ensures
        condition_read(bracket_fields(condition_display(c)), bl) == (c, Seq::<DFGHError<Seq<char>>>::empty()),
{
    match c {
        SpecCondition::NotDyed => lemma_round_trip_not_dyed(bl),
        SpecCondition::HaulCountMin(h) => lemma_round_trip_haul_count_min(h, bl),
        SpecCondition::HaulCountMax(h) => lemma_round_trip_haul_count_max(h, bl),
        SpecCondition::Child => lemma_round_trip_child(bl),
        SpecCondition::NotChild => lemma_round_trip_not_child(bl),
        SpecCondition::IsGhost => lemma_round_trip_is_ghost(bl),
        SpecCondition::TissueMinLength(h) => lemma_round_trip_tissue_min_length(h, bl),
        SpecCondition::TissueMaxLength(h) => lemma_round_trip_tissue_max_length(h, bl),
        SpecCondition::TissueNotShaped => lemma_round_trip_tissue_not_shaped(bl),
        SpecCondition::ItemQuality(h) => lemma_round_trip_item_quality(h, bl),
        SpecCondition::UseStandardPalette => lemma_round_trip_use_standard_palette(bl),
        SpecCondition::BPPresent => lemma_round_trip_b_p_present(bl),
        SpecCondition::BPScarred => lemma_round_trip_b_p_scarred(bl),
        _ => {},
    }
}

/// Whether `t` is a condition token that names the kind of condition it reads as.
pub open spec fn kind_token(t: Seq<char>) -> bool {
    t == "(default)"@ || t == "CONDITION_ITEM_WORN"@ || t == "SHUT_OFF_IF_ITEM_PRESENT"@ || t == "CONDITION_DYE"@ || t == "CONDITION_NOT_DYED"@ || t == "CONDITION_MATERIAL_FLAG"@ || t == "CONDITION_MATERIAL_TYPE"@ || t == "CONDITION_PROFESSION_CATEGORY"@ || t == "CONDITION_RANDOM_PART_INDEX"@ || t == "CONDITION_HAUL_COUNT_MIN"@ || t == "CONDITION_HAUL_COUNT_MAX"@ || t == "CONDITION_CHILD"@ || t == "CONDITION_NOT_CHILD"@ || t == "CONDITION_CASTE"@ || t == "CONDITION_GHOST"@ || t == "CONDITION_SYN_CLASS"@ || t == "CONDITION_TISSUE_LAYER"@ || t == "TISSUE_MIN_LENGTH"@ || t == "TISSUE_MAX_LENGTH"@ || t == "TISSUE_MAY_HAVE_COLOR"@ || t == "TISSUE_MAY_HAVE_SHAPING"@ || t == "TISSUE_NOT_SHAPED"@ || t == "TISSUE_SWAP"@ || t == "ITEM_QUALITY"@ || t == "USE_PALETTE"@ || t == "CONDITION_BP"@ || t == "LG_CONDITION_BP"@ || t == "BP_PRESENT"@ || t == "BP_SCARRED"@
}

/// A line with a condition token and at least nine fields reads as a
/// condition of the kind that the token names.
pub proof fn law_condition_read_kind(l: Seq<Seq<char>>, bl: usize)
    requires
        l.len() >= 9,
        kind_token(l[0]),
    ensures
        condition_name(condition_read(l, bl).0) == l[0],
{
    reveal_strlit("USE_STANDARD_PALETTE_FROM_ITEM");
    assert("USE_STANDARD_PALETTE_FROM_ITEM"@.len() == 30);
    reveal_strlit("CONDITION_BP");
    assert("CONDITION_BP"@.len() == 12);
    reveal_strlit("LG_CONDITION_BP");
    assert("LG_CONDITION_BP"@.len() == 15);
    reveal_strlit("BP_APPEARANCE_MODIFIER_RANGE");
    assert("BP_APPEARANCE_MODIFIER_RANGE"@.len() == 28);
    reveal_strlit("BP_PRESENT");
    assert("BP_PRESENT"@.len() == 10);
    reveal_strlit("BP_SCARRED");
    assert("BP_SCARRED"@.len() == 10);
}

} // verus!
