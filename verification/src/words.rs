//! Words of names: splitting, joining, searching and the least of a list.
use vstd::prelude::*;
use crate::text::{chars_of, push_char, push_str, str_lt, text_lt};

verus! {

/// Whether `w` occurs in `n` as a contiguous run of characters.
pub open spec fn contains_text(n: Seq<char>, w: Seq<char>) -> bool {
    exists|i: int| 0 <= i && i + w.len() <= n.len() && #[trigger] n.subrange(i, i + w.len()) == w
}

/// Whether `w` occurs in `n`, as `str::contains` with a string pattern tests.
pub fn str_contains(n: &str, w: &str) -> (r: bool)
    ensures
        r == contains_text(n@, w@),
{
    let cs = chars_of(n);
    let ws = chars_of(w);
    if ws.len() == 0 {
        let ghost z: int = 0;
        assert(n@.subrange(z, z + w@.len()) =~= w@);
        return true;
    }
    if ws.len() > cs.len() {
        return false;
    }
    let clen = cs.len();
    let last = clen - ws.len();
    let mut i: usize = 0;
    while i <= last
        invariant
            cs@ == n@,
            ws@ == w@,
            1 <= ws@.len() <= cs@.len(),
            clen == cs@.len(),
            last == cs@.len() - ws@.len(),
            i <= last + 1,
            forall|j: int| 0 <= j < i ==> #[trigger] n@.subrange(j, j + w@.len()) != w@,
        decreases last + 1 - i,
    {
        let mut k: usize = 0;
        let mut same = true;
        while k < ws.len()
            invariant
                cs@ == n@,
                ws@ == w@,
                i <= last,
                1 <= ws@.len() <= cs@.len(),
                clen == cs@.len(),
            clen == cs@.len(),
                last == cs@.len() - ws@.len(),
                k <= ws@.len(),
                same == (forall|j: int| 0 <= j < k ==> cs@[i + j] == ws@[j]),
            decreases ws@.len() - k,
        {
            assert(i + k < cs@.len());
            if cs[i + k] != ws[k] {
                same = false;
            }
            k = k + 1;
        }
        if same {
            assert(n@.subrange(i as int, i + w@.len()) =~= w@);
            return true;
        }
        proof {
            let j = choose|j: int| 0 <= j < ws@.len() && cs@[i + j] != ws@[j];
            assert(n@.subrange(i as int, i + w@.len())[j] != w@[j]);
        }
        i = i + 1;
    }
    proof {
        if contains_text(n@, w@) {
            let j = choose|j: int| 0 <= j && j + w@.len() <= n@.len() && #[trigger] n@.subrange(j, j + w@.len()) == w@;
            assert(n@.subrange(j, j + w@.len()) != w@);
        }
    }
    false
}

/// The pieces of `s` between occurrences of `c`, empty ones included, as
/// `str::split` with a character gives them.
pub open spec fn split_on(s: Seq<char>, c: char) -> Seq<Seq<char>>
    decreases s.len(),
{
    if s.len() == 0 {
        seq![seq![]]
    } else {
        let parts = split_on(s.drop_last(), c);
        if s.last() == c {
            parts.push(seq![])
        } else {
            parts.update(parts.len() - 1, parts.last().push(s.last()))
        }
    }
}

/// There is always at least one piece.
pub proof fn lemma_split_on_len(s: Seq<char>, c: char)
    ensures
        split_on(s, c).len() >= 1,
    decreases s.len(),
{
    if s.len() > 0 {
        lemma_split_on_len(s.drop_last(), c);
    }
}

/// Splits `s` at every `c`.
pub fn split_char(s: &str, c: char) -> (r: Vec<String>)
    ensures
        r.deep_view() == split_on(s@, c),
{
    let cs = chars_of(s);
    let mut parts: Vec<String> = Vec::new();
    let mut cur = String::new();
    let mut i: usize = 0;
    assert(s@.take(0) =~= Seq::<char>::empty());
    while i < cs.len()
        invariant
            cs@ == s@,
            i <= cs@.len(),
            parts.deep_view().push(cur@) == split_on(s@.take(i as int), c),
        decreases cs@.len() - i,
    {
        let ghost t = s@.take(i + 1);
        assert(t.drop_last() =~= s@.take(i as int));
        assert(t.last() == cs@[i as int]);
        proof {
            lemma_split_on_len(s@.take(i as int), c);
        }
        let ghost before = parts.deep_view();
        let ghost cur0 = cur@;
        if cs[i] == c {
            let done = cur;
            parts.push(done);
            cur = String::new();
            assert(parts.deep_view() =~= before.push(cur0));
            assert(parts.deep_view().push(cur@) =~= before.push(cur0).push(seq![]));
        } else {
            push_char(&mut cur, cs[i]);
            assert(parts.deep_view().push(cur@) =~= before.push(cur0).update(before.len() as int, cur0.push(cs@[i as int])));
        }
        i = i + 1;
    }
    assert(s@.take(cs@.len() as int) =~= s@);
    let ghost before = parts.deep_view();
    parts.push(cur);
    assert(parts.deep_view() =~= before.push(cur@));
    parts
}

/// `parts` joined with `sep` between neighbours, as `[&str]::join` gives.
pub open spec fn join_with(parts: Seq<Seq<char>>, sep: Seq<char>) -> Seq<char>
    decreases parts.len(),
{
    if parts.len() == 0 {
        seq![]
    } else if parts.len() == 1 {
        parts[0]
    } else {
        join_with(parts.drop_last(), sep) + sep + parts.last()
    }
}

/// Joins `parts` with `sep`.
pub fn join_strings(parts: &Vec<String>, sep: &str) -> (r: String)
    ensures
        r@ == join_with(parts.deep_view(), sep@),
{
    let mut out = String::new();
    let mut k: usize = 0;
    while k < parts.len()
        invariant
            k <= parts@.len(),
            out@ == join_with(parts.deep_view().take(k as int), sep@),
        decreases parts@.len() - k,
    {
        let ghost t = parts.deep_view().take(k + 1);
        assert(t.drop_last() =~= parts.deep_view().take(k as int));
        assert(t.last() == parts@[k as int]@);
        if k > 0 {
            push_str(&mut out, sep);
        } else {
            assert(t =~= seq![parts@[0]@]);
        }
        push_str(&mut out, parts[k].as_str());
        k = k + 1;
    }
    assert(parts.deep_view().take(parts@.len() as int) =~= parts.deep_view());
    out
}

/// The least of a non-empty list of names in `String` order (the first of the
/// list once sorted).
pub open spec fn least_text(ns: Seq<Seq<char>>) -> Seq<char>
    decreases ns.len(),
{
    if ns.len() <= 1 {
        ns[0]
    } else {
        let m = least_text(ns.drop_last());
        if text_lt(ns.last(), m) {
            ns.last()
        } else {
            m
        }
    }
}

/// The least of a non-empty list of names.
pub fn least_string(ns: &Vec<String>) -> (r: String)
    requires
        ns@.len() >= 1,
    ensures
        r@ == least_text(ns.deep_view()),
{
    let mut m = ns[0].clone();
    let mut k: usize = 1;
    assert(ns.deep_view().take(1) =~= seq![ns@[0]@]);
    while k < ns.len()
        invariant
            1 <= k <= ns@.len(),
            m@ == least_text(ns.deep_view().take(k as int)),
        decreases ns@.len() - k,
    {
        let ghost t = ns.deep_view().take(k + 1);
        assert(t.drop_last() =~= ns.deep_view().take(k as int));
        assert(t.last() == ns@[k as int]@);
        if str_lt(ns[k].as_str(), m.as_str()) {
            m = ns[k].clone();
        }
        k = k + 1;
    }
    assert(ns.deep_view().take(ns@.len() as int) =~= ns.deep_view());
    m
}

/// Whether `s` begins with `p`.
pub open spec fn starts_with(s: Seq<char>, p: Seq<char>) -> bool {
    p.len() <= s.len() && s.take(p.len() as int) == p
}

/// Whether `s` begins with `p`, as `str::starts_with` with a string pattern tests.
pub fn str_starts_with(s: &str, p: &str) -> (r: bool)
    ensures
        r == starts_with(s@, p@),
{
    let cs = chars_of(s);
    let ps = chars_of(p);
    if ps.len() > cs.len() {
        return false;
    }
    let mut k: usize = 0;
    while k < ps.len()
        invariant
            cs@ == s@,
            ps@ == p@,
            ps@.len() <= cs@.len(),
            k <= ps@.len(),
            forall|j: int| 0 <= j < k ==> cs@[j] == ps@[j],
        decreases ps@.len() - k,
    {
        if cs[k] != ps[k] {
            assert(s@.take(p@.len() as int)[k as int] != p@[k as int]);
            return false;
        }
        k = k + 1;
    }
    assert(s@.take(p@.len() as int) =~= p@);
    true
}

} // verus!
