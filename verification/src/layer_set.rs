//! Layer sets: the layer groups and palettes of a creature in one state.
use vstd::prelude::*;
use crate::condition::{field_errors, palette_display, parse_or_zero, read_u32_field, sat_sub_u32, Palette};
use crate::error::{index_error, spec_index_error, DFGHError};
use crate::group::{group_display, group_displayable, group_read, spec_layer_group_new, LayerGroup, SpecLayerGroup};
use crate::layer::SpecLayer;
use crate::lines::{
    append_wrapped, clone_block, errors_within, errs, find_image, image_lookup, lemma_field_errors_within,
    lemma_index_error_within, lemma_within_append, lemma_within_mono, lemma_within_push, lemma_wrap_all_within,
    max_lines, push_error, wrap_all, ImageSize,
};
use crate::state::{state_from, state_name, State};
use crate::text::{case_converted, convert_case, push_str, str_eq, string_of, CaseBoundaries, TextCase};
use crate::words::{
    contains_text, join_strings, join_with, least_string, least_text, split_char, split_on, str_contains,
};

verus! {

/// A layer set: the state it is drawn in, its layer groups and its palettes.
#[derive(Clone, Debug, PartialEq)]
pub struct LayerSet {
    pub state: State,
    pub layer_groups: Vec<LayerGroup>,
    pub palettes: Vec<Palette>,
}

/// The view of a [`LayerSet`].
pub struct SpecLayerSet {
    pub state: State<Seq<char>>,
    pub layer_groups: Seq<SpecLayerGroup>,
    pub palettes: Seq<Palette<Seq<char>>>,
}

impl View for LayerSet {
    type V = SpecLayerSet;

    open spec fn view(&self) -> SpecLayerSet {
        SpecLayerSet {
            state: self.state@,
            layer_groups: self.layer_groups@.map_values(|g: LayerGroup| g@),
            palettes: self.palettes@.map_values(|p: Palette| p@),
        }
    }
}

/// A fresh layer set.
pub open spec fn spec_layer_set_new() -> SpecLayerSet {
    SpecLayerSet { state: State::Empty, layer_groups: seq![], palettes: seq![] }
}

/// The set reader's state: the set so far, the errors met, and where the
/// pending block of lines starts.
pub type SetReadState = (SpecLayerSet, Seq<DFGHError<Seq<char>>>, int);

/// Reads the pending block as a layer group, keeps it unless it is a fresh one,
/// and adds its errors as met at line `at` of a block of `bl` lines.
pub open spec fn flush_group(
    s: SpecLayerSet,
    es: Seq<DFGHError<Seq<char>>>,
    block: Seq<Seq<Seq<char>>>,
    at: usize,
    bl: usize,
) -> (SpecLayerSet, Seq<DFGHError<Seq<char>>>) {
    let (g, ges) = group_read(block);
    (
        if g == spec_layer_group_new() {
            s
        } else {
            SpecLayerSet { layer_groups: s.layer_groups.push(g), ..s }
        },
        es + wrap_all(ges, at, bl),
    )
}

/// `s` with `f` as the file of its last palette (nothing changes without a
/// palette); the palette's last row follows the image's height where the image
/// is known.
pub open spec fn with_palette_file(s: SpecLayerSet, f: Seq<char>, images: Seq<ImageSize>) -> SpecLayerSet {
    if s.palettes.len() == 0 {
        s
    } else {
        let p = s.palettes.last();
        let max_row = if f.len() > 0 && image_lookup(images, f) is Some {
            sat_sub_u32(image_lookup(images, f).unwrap().1, 1)
        } else {
            p.max_row
        };
        SpecLayerSet {
            palettes: s.palettes.update(s.palettes.len() - 1, Palette { file_name: f, max_row, ..p }),
            ..s
        }
    }
}

/// `s` with `d` as the default row of its last palette (nothing changes without a palette).
pub open spec fn with_palette_default(s: SpecLayerSet, d: u32) -> SpecLayerSet {
    if s.palettes.len() == 0 {
        s
    } else {
        let p = s.palettes.last();
        SpecLayerSet { palettes: s.palettes.update(s.palettes.len() - 1, Palette { default_index: d, ..p }), ..s }
    }
}

/// The set reader's state after line `i` of `buffer`.
#[verifier::opaque]
pub open spec fn set_line(st: SetReadState, buffer: Seq<Seq<Seq<char>>>, i: int, images: Seq<ImageSize>) -> SetReadState {
    let (s, es, start) = st;
    let l = buffer[i];
    let len = l.len();
    let iu = i as usize;
    let bl = buffer.len() as usize;
    if len == 0 {
        st
    } else if l[0] == "LAYER_SET"@ {
        if len >= 2 {
            (SpecLayerSet { state: state_from(l[1]), ..s }, es, start)
        } else {
            (s, es.push(spec_index_error(iu, bl, len as usize, 2)), start)
        }
    } else if l[0] == "END_LAYER_GROUP"@ || l[0] == "LAYER_GROUP"@ {
        if start < i {
            let (s2, es2) = flush_group(s, es, buffer.subrange(start, i), iu, bl);
            (s2, es2, i)
        } else {
            st
        }
    } else if l[0] == "LS_PALETTE"@ {
        if len >= 2 {
            let p = Palette { name: l[1], file_name: Seq::empty(), default_index: 0, max_row: 0 };
            (SpecLayerSet { palettes: s.palettes.push(p), ..s }, es, start)
        } else {
            (s, es.push(spec_index_error(iu, bl, len as usize, 2)), start)
        }
    } else if l[0] == "LS_PALETTE_FILE"@ {
        if len >= 2 {
            (with_palette_file(s, l[1], images), es, start)
        } else {
            (s, es.push(spec_index_error(iu, bl, len as usize, 2)), start)
        }
    } else if l[0] == "LS_PALETTE_DEFAULT"@ {
        if len >= 2 {
            (with_palette_default(s, parse_or_zero(l[1])), es + field_errors(l, 1, iu, bl), start)
        } else {
            (s, es.push(spec_index_error(iu, bl, len as usize, 2)), start)
        }
    } else {
        st
    }
}

/// The set reader's state after the first `n` lines of `buffer`.
pub open spec fn set_read_upto(buffer: Seq<Seq<Seq<char>>>, n: int, images: Seq<ImageSize>) -> SetReadState
    decreases n,
{
    if n <= 0 {
        (spec_layer_set_new(), seq![], 0)
    } else {
        set_line(set_read_upto(buffer, n - 1, images), buffer, n - 1, images)
    }
}

/// `s` in title case, as the case conversion library writes it.
pub open spec fn title_case(s: Seq<char>) -> Seq<char> {
    case_converted(s, CaseBoundaries::Default, TextCase::Title)
}

/// The words of `ws` that occur in every one of `names`.
pub open spec fn shared_words(ws: Seq<Seq<char>>, names: Seq<Seq<char>>) -> Seq<Seq<char>>
    decreases ws.len(),
{
    if ws.len() == 0 {
        seq![]
    } else if forall|k: int| 0 <= k < names.len() ==> contains_text(#[trigger] names[k], ws.last()) {
        shared_words(ws.drop_last(), names).push(ws.last())
    } else {
        shared_words(ws.drop_last(), names)
    }
}

/// The name given to a group still named `(new)` whose layers are named
/// `names`, in a set drawn in the state named `state`: the layers' common name;
/// else the words (split on `_`) of the least name that occur in every name,
/// joined with `_`; else, and for a group without layers, the state's name in
/// title case.
pub open spec fn group_name_for(state: Seq<char>, names: Seq<Seq<char>>) -> Seq<char> {
    if names.len() == 0 {
        title_case(state)
    } else if forall|k: int| 0 <= k < names.len() ==> #[trigger] names[k] == names[0] {
        names[0]
    } else {
        let ws = shared_words(split_on(least_text(names), '_'), names);
        if ws.len() == 0 {
            title_case(state)
        } else {
            join_with(ws, "_"@)
        }
    }
}

/// The names of a group's layers.
pub open spec fn layer_names(g: SpecLayerGroup) -> Seq<Seq<char>> {
    g.layers.map_values(|l: SpecLayer| l.name)
}

/// `g`, named after its layers where it is still named `(new)`.
pub open spec fn renamed_group(g: SpecLayerGroup, state: State<Seq<char>>) -> SpecLayerGroup {
    if g.name == "(new)"@ {
        SpecLayerGroup { name: group_name_for(state_name(state), layer_names(g)), ..g }
    } else {
        g
    }
}

/// `s` with each group still named `(new)` named after its layers.
pub open spec fn renamed_groups(s: SpecLayerSet) -> SpecLayerSet {
    SpecLayerSet { layer_groups: s.layer_groups.map_values(|g: SpecLayerGroup| renamed_group(g, s.state)), ..s }
}

/// The layer set and errors read from a block of lines, given the sizes of the
/// palette images that exist.
pub open spec fn set_read(buffer: Seq<Seq<Seq<char>>>, images: Seq<ImageSize>) -> (SpecLayerSet, Seq<DFGHError<Seq<char>>>) {
    let n = buffer.len() as int;
    let (s, es, start) = set_read_upto(buffer, n, images);
    let (s2, es2) = if start < n {
        flush_group(s, es, buffer.subrange(start, n), n as usize, n as usize)
    } else {
        (s, es)
    };
    (renamed_groups(s2), es2)
}

/// The raw text of each palette, concatenated.
pub open spec fn palettes_display(ps: Seq<Palette<Seq<char>>>) -> Seq<char>
    decreases ps.len(),
{
    if ps.len() == 0 {
        seq![]
    } else {
        palettes_display(ps.drop_last()) + palette_display(ps.last())
    }
}

/// The raw text of each layer group, concatenated.
pub open spec fn groups_display(gs: Seq<SpecLayerGroup>) -> Seq<char>
    decreases gs.len(),
{
    if gs.len() == 0 {
        seq![]
    } else {
        groups_display(gs.drop_last()) + group_display(gs.last())
    }
}

/// The raw text of a layer set.
pub open spec fn layer_set_display(s: SpecLayerSet) -> Seq<char> {
    "\n\t[LAYER_SET:"@ + state_name(s.state) + "]\n"@ + palettes_display(s.palettes) + groups_display(s.layer_groups)
}

/// Whether a layer set can be written without a coordinate sum overflowing.
pub open spec fn layer_set_displayable(s: SpecLayerSet) -> bool {
    forall|k: int| 0 <= k < s.layer_groups.len() ==> group_displayable(#[trigger] s.layer_groups[k])
}

/// The name for a group whose layers are named `names`, in a set drawn in the
/// state named `state`.
pub fn name_for_group(state: &String, names: &Vec<String>) -> (r: String)
    ensures
        r@ == group_name_for(state@, names.deep_view()),
{
    let ghost nv = names.deep_view();
    if names.len() == 0 {
        return convert_case(state.as_str(), CaseBoundaries::Default, TextCase::Title);
    }
    let mut k: usize = 1;
    let mut same = true;
    while k < names.len()
        invariant
            nv == names.deep_view(),
            1 <= k <= nv.len(),
            same == (forall|j: int| 0 <= j < k ==> #[trigger] nv[j] == nv[0]),
        decreases nv.len() - k,
    {
        assert(names@[k as int]@ == nv[k as int] && names@[0]@ == nv[0]);
        if !str_eq(names[k].as_str(), names[0].as_str()) {
            same = false;
        }
        k = k + 1;
    }
    if same {
        assert(names@[0]@ == nv[0]);
        return names[0].clone();
    }
    let least = least_string(names);
    let words = split_char(least.as_str(), '_');
    let ghost wv = words.deep_view();
    let mut kept: Vec<String> = Vec::new();
    let mut w: usize = 0;
    assert(kept.deep_view() =~= shared_words(wv.take(0), nv));
    while w < words.len()
        invariant
            nv == names.deep_view(),
            wv == words.deep_view(),
            w <= wv.len(),
            kept.deep_view() == shared_words(wv.take(w as int), nv),
        decreases wv.len() - w,
    {
        let ghost t = wv.take(w + 1);
        assert(t.drop_last() =~= wv.take(w as int));
        assert(t.last() == words@[w as int]@);
        let mut j: usize = 0;
        let mut all = true;
        while j < names.len()
            invariant
                nv == names.deep_view(),
                wv == words.deep_view(),
                w < wv.len(),
                j <= nv.len(),
                all == (forall|i: int| 0 <= i < j ==> contains_text(#[trigger] nv[i], wv[w as int])),
            decreases nv.len() - j,
        {
            assert(names@[j as int]@ == nv[j as int]);
            if !str_contains(names[j].as_str(), words[w].as_str()) {
                all = false;
            }
            j = j + 1;
        }
        if all {
            let ghost before = kept.deep_view();
            kept.push(words[w].clone());
            assert(kept.deep_view() =~= before.push(wv[w as int]));
        }
        w = w + 1;
    }
    assert(wv.take(wv.len() as int) =~= wv);
    if kept.len() == 0 {
        convert_case(state.as_str(), CaseBoundaries::Default, TextCase::Title)
    } else {
        join_strings(&kept, "_")
    }
}

/// The names of a group's layers.
fn names_of_layers(g: &LayerGroup) -> (r: Vec<String>)
    ensures
        r.deep_view() == layer_names(g@),
{
    let mut r: Vec<String> = Vec::new();
    let mut k: usize = 0;
    while k < g.layers.len()
        invariant
            k <= g.layers@.len(),
            r.deep_view() == layer_names(g@).take(k as int),
        decreases g.layers@.len() - k,
    {
        let ghost before = r.deep_view();
        assert(layer_names(g@)[k as int] == g.layers@[k as int]@.name);
        r.push(g.layers[k].name.clone());
        assert(r.deep_view() =~= before.push(g.layers@[k as int]@.name));
        assert(r.deep_view() =~= layer_names(g@).take(k + 1));
        k = k + 1;
    }
    assert(layer_names(g@).take(g.layers@.len() as int) =~= layer_names(g@));
    r
}

/// Records that line `i` of a block of `bl` lines has `len` fields where two are needed.
fn short_line(errors: &mut Vec<DFGHError>, i: usize, bl: usize, len: usize)
    requires
        i < bl <= max_lines(),
        errors_within(errs(old(errors)@), 2),
    ensures
        errs(final(errors)@) == errs(old(errors)@).push(spec_index_error(i, bl, len, 2)),
        errors_within(errs(final(errors)@), 2),
{
    let ghost es0 = errs(errors@);
    push_error(errors, index_error(i, bl, len, 2));
    proof {
        lemma_index_error_within(i, bl, len, 2);
        lemma_within_mono(seq![spec_index_error(i, bl, len, 2)], 0, 2);
        lemma_within_push(es0, spec_index_error(i, bl, len, 2), 2);
    }
}

impl LayerSet {
    /// A fresh layer set.
    pub fn new() -> (r: Self)
        ensures
            r@ == spec_layer_set_new(),
    {
        let r = LayerSet { state: State::Empty, layer_groups: Vec::new(), palettes: Vec::new() };
        assert(r@.layer_groups =~= Seq::<SpecLayerGroup>::empty());
        assert(r@.palettes =~= Seq::<Palette<Seq<char>>>::empty());
        r
    }

    /// Reads lines `start..at` of `buffer` as a layer group, keeping it unless
    /// it is a fresh one, with its errors as met at line `at`.
    fn flush(&mut self, errors: &mut Vec<DFGHError>, buffer: &Vec<Vec<String>>, start: usize, at: usize)
        requires
            start <= at <= buffer@.len() <= max_lines(),
            errors_within(errs(old(errors)@), 2),
        ensures
            (final(self)@, errs(final(errors)@)) == flush_group(
                old(self)@,
                errs(old(errors)@),
                buffer.deep_view().subrange(start as int, at as int),
                at,
                buffer@.len() as usize,
            ),
            errors_within(errs(final(errors)@), 2),
    {
        let block = clone_block(buffer, start, at);
        let (g, ges) = LayerGroup::read(block);
        proof {
            lemma_wrap_all_within(errs(ges@), 1, at, buffer@.len() as usize);
            lemma_within_append(errs(old(errors)@), wrap_all(errs(ges@), at, buffer@.len() as usize), 2);
        }
        append_wrapped(errors, &ges, at, buffer.len(), Ghost(1));
        if !g.is_new() {
            let ghost before = self@.layer_groups;
            self.layer_groups.push(g);
            assert(self@.layer_groups =~= before.push(g@));
        }
    }

    /// Applies line `i` of `buffer` to the set being read; `start` is where the
    /// pending block of lines starts.
    fn read_line(
        &mut self,
        errors: &mut Vec<DFGHError>,
        buffer: &Vec<Vec<String>>,
        i: usize,
        start: &mut usize,
        images: &Vec<ImageSize>,
    )
        requires
            *old(start) <= i < buffer@.len() <= max_lines(),
            errors_within(errs(old(errors)@), 2),
        ensures
            (final(self)@, errs(final(errors)@), *final(start) as int) == set_line(
                (old(self)@, errs(old(errors)@), *old(start) as int),
                buffer.deep_view(),
                i as int,
                images@,
            ),
            *final(start) <= i,
            errors_within(errs(final(errors)@), 2),
    {
        reveal(set_line);
        let ghost es0 = errs(errors@);
        let line = &buffer[i];
        let ghost l = buffer.deep_view()[i as int];
        assert(line.deep_view() == l);
        let len = line.len();
        let bl = buffer.len();
        if len == 0 {
            return;
        }
        assert(line[0]@ == l[0]);
        if len >= 2 {
            assert(line[1]@ == l[1]);
        }
        let t = line[0].as_str();
        if str_eq(t, "LAYER_SET") {
            if len < 2 {
                short_line(errors, i, bl, len);
            } else {
                self.state = State::from(line[1].clone());
            }
        } else if str_eq(t, "END_LAYER_GROUP") || str_eq(t, "LAYER_GROUP") {
            if *start < i {
                self.flush(errors, buffer, *start, i);
                *start = i;
            }
        } else if str_eq(t, "LS_PALETTE") {
            if len < 2 {
                short_line(errors, i, bl, len);
            } else {
                let p = Palette { name: line[1].clone(), file_name: String::new(), default_index: 0, max_row: 0 };
                let ghost before = self@.palettes;
                self.palettes.push(p);
                assert(self@.palettes =~= before.push(p@));
            }
        } else if str_eq(t, "LS_PALETTE_FILE") {
            if len < 2 {
                short_line(errors, i, bl, len);
            } else {
                let f = line[1].clone();
                if self.palettes.len() > 0 {
                    let ghost before = self@.palettes;
                    let mut p = self.palettes.pop().unwrap();
                    assert(p@ == before.last());
                    if f.unicode_len() > 0 {
                        match find_image(images, &f) {
                            Some((_w, h)) => {
                                p.max_row = if h >= 1 { h - 1 } else { 0 };
                            },
                            None => {},
                        }
                    }
                    p.file_name = f;
                    let ghost pv = p@;
                    self.palettes.push(p);
                    assert(self@.palettes =~= before.update(before.len() - 1, pv));
                }
            }
        } else if str_eq(t, "LS_PALETTE_DEFAULT") {
            if len < 2 {
                short_line(errors, i, bl, len);
            } else {
                let d = read_u32_field(line, 1, i, bl, errors);
                proof {
                    lemma_field_errors_within(l, 1, i, bl);
                    lemma_within_mono(field_errors(l, 1, i, bl), 0, 2);
                    lemma_within_append(es0, field_errors(l, 1, i, bl), 2);
                }
                if self.palettes.len() > 0 {
                    let ghost before = self@.palettes;
                    let mut p = self.palettes.pop().unwrap();
                    assert(p@ == before.last());
                    p.default_index = d;
                    let ghost pv = p@;
                    self.palettes.push(p);
                    assert(self@.palettes =~= before.update(before.len() - 1, pv));
                }
            }
        }
    }

    /// Reads a layer set from its block of lines, with the errors met; `images`
    /// holds the sizes of the palette images that exist.
    pub fn read(buffer: Vec<Vec<String>>, images: &Vec<ImageSize>) -> (r: (LayerSet, Vec<DFGHError>))
        requires
            buffer@.len() <= max_lines(),
        ensures
            (r.0@, errs(r.1@)) == set_read(buffer.deep_view(), images@),
            errors_within(errs(r.1@), 2),
    {
        let mut s = LayerSet::new();
        let mut errors: Vec<DFGHError> = Vec::new();
        let bl = buffer.len();
        let ghost bv = buffer.deep_view();
        assert(errs(errors@) =~= Seq::<DFGHError<Seq<char>>>::empty());
        let mut start: usize = 0;
        let mut i: usize = 0;
        while i < bl
            invariant
                bl == buffer@.len() <= max_lines(),
                bv == buffer.deep_view(),
                start <= i <= bl,
                (s@, errs(errors@), start as int) == set_read_upto(bv, i as int, images@),
                errors_within(errs(errors@), 2),
            decreases bl - i,
        {
            s.read_line(&mut errors, &buffer, i, &mut start, images);
            i = i + 1;
        }
        if start < bl {
            s.flush(&mut errors, &buffer, start, bl);
        }
        s.rename_layer_groups();
        (s, errors)
    }

    /// Whether this layer set can be written without a coordinate sum overflowing.
    pub fn displayable(&self) -> (r: bool)
        ensures
            r == layer_set_displayable(self@),
    {
        let mut k: usize = 0;
        while k < self.layer_groups.len()
            invariant
                k <= self.layer_groups@.len(),
                forall|j: int| 0 <= j < k ==> group_displayable(#[trigger] self@.layer_groups[j]),
            decreases self.layer_groups@.len() - k,
        {
            assert(self@.layer_groups[k as int] == self.layer_groups@[k as int]@);
            if !self.layer_groups[k].displayable() {
                return false;
            }
            k = k + 1;
        }
        true
    }

    /// The raw text of this layer set: its state, palettes and groups.
    pub fn display(&self) -> (r: String)
        requires
            layer_set_displayable(self@),
        ensures
            r@ == layer_set_display(self@),
    {
        let mut out = string_of("\n\t[LAYER_SET:");
        push_str(&mut out, self.state.name().as_str());
        push_str(&mut out, "]\n");
        let ghost mid = out@;
        let ghost ps = self@.palettes;
        let mut k: usize = 0;
        while k < self.palettes.len()
            invariant
                ps == self@.palettes,
                k <= ps.len(),
                out@ == mid + palettes_display(ps.take(k as int)),
            decreases ps.len() - k,
        {
            assert(ps.take(k + 1).drop_last() =~= ps.take(k as int));
            assert(ps.take(k + 1).last() == self.palettes@[k as int]@);
            push_str(&mut out, self.palettes[k].display().as_str());
            k = k + 1;
        }
        assert(ps.take(ps.len() as int) =~= ps);
        let ghost mid2 = out@;
        let ghost gs = self@.layer_groups;
        let mut k: usize = 0;
        while k < self.layer_groups.len()
            invariant
                gs == self@.layer_groups,
                k <= gs.len(),
                layer_set_displayable(self@),
                out@ == mid2 + groups_display(gs.take(k as int)),
            decreases gs.len() - k,
        {
            assert(gs.take(k + 1).drop_last() =~= gs.take(k as int));
            assert(gs.take(k + 1).last() == self.layer_groups@[k as int]@);
            assert(group_displayable(gs[k as int]));
            push_str(&mut out, self.layer_groups[k].display().as_str());
            k = k + 1;
        }
        assert(gs.take(gs.len() as int) =~= gs);
        assert(out@ =~= layer_set_display(self@));
        out
    }

    /// Names each group still named `(new)` after its layers.
    pub fn rename_layer_groups(&mut self)
        ensures
            final(self)@ == renamed_groups(old(self)@),
    {
        let ghost target = renamed_groups(old(self)@).layer_groups;
        let state = self.state.name();
        let mut k: usize = 0;
        while k < self.layer_groups.len()
            invariant
                self.state@ == old(self)@.state,
                self.palettes@ == old(self).palettes@,
                self@.palettes == old(self)@.palettes,
                state@ == state_name(old(self)@.state),
                target == renamed_groups(old(self)@).layer_groups,
                k <= self.layer_groups@.len(),
                self.layer_groups@.len() == old(self).layer_groups@.len(),
                forall|j: int| 0 <= j < k ==> #[trigger] self@.layer_groups[j] == target[j],
                forall|j: int| k <= j < self.layer_groups@.len() ==> #[trigger] self@.layer_groups[j] == old(self)@.layer_groups[j],
            decreases self.layer_groups@.len() - k,
        {
            let ghost v0 = self.layer_groups@;
            let ghost s0 = self@.layer_groups;
            assert(self@.layer_groups[k as int] == v0[k as int]@);
            assert(target[k as int] == renamed_group(v0[k as int]@, old(self)@.state));
            if str_eq(self.layer_groups[k].name.as_str(), "(new)") {
                let names = names_of_layers(&self.layer_groups[k]);
                let name = name_for_group(&state, &names);
                let mut g = self.layer_groups.remove(k);
                g.name = name;
                let ghost gv = g@;
                self.layer_groups.insert(k, g);
                assert(self.layer_groups@ =~= v0.update(k as int, g));
                assert(gv == renamed_group(v0[k as int]@, old(self)@.state));
                assert forall|j: int| 0 <= j < self.layer_groups@.len() && j != k implies #[trigger] self@.layer_groups[j]
                    == v0[j]@ by {
                    assert(self.layer_groups@[j] == v0[j]);
                }
                assert forall|j: int| 0 <= j < s0.len() && j != k implies #[trigger] self@.layer_groups[j] == s0[j] by {
                    assert(self@.layer_groups[j] == v0[j]@);
                    assert(s0[j] == v0[j]@);
                }
            }
            assert(self@.layer_groups[k as int] == target[k as int]);
            k = k + 1;
        }
        assert(self@.layer_groups =~= target);
    }
}

} // verus!
