//! Stable sorting by a text key, and removal of neighbours that share a key.
use vstd::prelude::*;
use crate::text::{str_eq, str_lt, text_lt};

verus! {

/// Keyed values, by the views of their keys and values.
pub open spec fn keyed_view<T: View>(s: Seq<(String, T)>) -> Seq<(Seq<char>, T::V)> {
    s.map_values(|p: (String, T)| (p.0@, p.1@))
}

/// Where a value keyed `k` goes in `s`: before the first element whose key is
/// greater, after every other.
pub open spec fn insert_pos<V>(s: Seq<(Seq<char>, V)>, k: Seq<char>) -> int
    decreases s.len(),
{
    if s.len() == 0 {
        0
    } else if text_lt(k, s[0].0) {
        0
    } else {
        1 + insert_pos(s.drop_first(), k)
    }
}

/// `s` sorted by key, elements with equal keys keeping their order: each
/// element in turn goes after every earlier one whose key is not greater.
pub open spec fn stable_sort<V>(s: Seq<(Seq<char>, V)>) -> Seq<(Seq<char>, V)>
    decreases s.len(),
{
    if s.len() == 0 {
        s
    } else {
        let r = stable_sort(s.drop_last());
        r.insert(insert_pos(r, s.last().0), s.last())
    }
}

/// `s` without each element whose key equals that of the last element kept
/// before it.
pub open spec fn dedup_keys<V>(s: Seq<(Seq<char>, V)>) -> Seq<(Seq<char>, V)>
    decreases s.len(),
{
    if s.len() == 0 {
        s
    } else {
        let d = dedup_keys(s.drop_last());
        if d.len() > 0 && d.last().0 == s.last().0 {
            d
        } else {
            d.push(s.last())
        }
    }
}

/// `s` without each element equal to the last element kept before it.
pub open spec fn dedup_values<V>(s: Seq<(Seq<char>, V)>) -> Seq<(Seq<char>, V)>
    decreases s.len(),
{
    if s.len() == 0 {
        s
    } else {
        let d = dedup_values(s.drop_last());
        if d.len() > 0 && d.last().1 == s.last().1 {
            d
        } else {
            d.push(s.last())
        }
    }
}

/// The values of keyed values.
pub open spec fn values_of<V>(s: Seq<(Seq<char>, V)>) -> Seq<V> {
    s.map_values(|p: (Seq<char>, V)| p.1)
}

/// `xs` sorted by `key` (stably), keeping only the first of each key.
pub open spec fn sorted_unique<V>(xs: Seq<V>, key: spec_fn(V) -> Seq<char>) -> Seq<V> {
    values_of(dedup_keys(stable_sort(xs.map_values(|x: V| (key(x), x)))))
}

/// Taking the first of some keyed values drops the first of their views.
pub proof fn lemma_keyed_remove_first<T: View>(s: Seq<(String, T)>)
    requires
        s.len() > 0,
    ensures
        keyed_view(s.remove(0)) == keyed_view(s).drop_first(),
{
    assert(keyed_view(s.remove(0)) =~= keyed_view(s).drop_first());
}

/// `pairs` sorted by key, elements with equal keys keeping their order.
pub fn sort_by_key<T: View>(pairs: Vec<(String, T)>) -> (r: Vec<(String, T)>)
    ensures
        keyed_view(r@) == stable_sort(keyed_view(pairs@)),
{
    let ghost orig = keyed_view(pairs@);
    let n = pairs.len();
    let mut rest = pairs;
    let mut r: Vec<(String, T)> = Vec::new();
    let mut i: usize = 0;
    assert(orig.take(0) =~= Seq::<(Seq<char>, T::V)>::empty());
    while i < n
        invariant
            n == orig.len(),
            i <= n,
            rest@.len() == n - i,
            keyed_view(rest@) == orig.skip(i as int),
            keyed_view(r@) == stable_sort(orig.take(i as int)),
        decreases n - i,
    {
        let ghost rv = keyed_view(r@);
        let ghost r0 = rest@;
        let x = rest.remove(0);
        proof {
            lemma_keyed_remove_first(r0);
        }
        assert(keyed_view(rest@) =~= orig.skip(i + 1));
        assert((x.0@, x.1@) == orig[i as int]) by {
            assert(orig.skip(i as int)[0] == orig[i as int]);
        }
        let mut p: usize = 0;
        assert(rv.skip(0) =~= rv);
        while p < r.len() && !str_lt(x.0.as_str(), r[p].0.as_str())
            invariant
                p <= r@.len(),
                rv == keyed_view(r@),
                p + insert_pos(rv.skip(p as int), x.0@) == insert_pos(rv, x.0@),
            decreases r@.len() - p,
        {
            assert(rv.skip(p as int)[0] == rv[p as int]);
            assert(rv.skip(p as int).drop_first() =~= rv.skip(p + 1));
            p = p + 1;
        }
        proof {
            if p < r@.len() {
                assert(rv.skip(p as int)[0] == rv[p as int]);
            } else {
                assert(rv.skip(p as int).len() == 0);
            }
        }
        let ghost xv = (x.0@, x.1@);
        r.insert(p, x);
        assert(keyed_view(r@) =~= rv.insert(p as int, xv));
        assert(orig.take(i + 1).drop_last() =~= orig.take(i as int));
        i = i + 1;
    }
    assert(orig.take(n as int) =~= orig);
    r
}

/// `pairs` without each element whose key equals that of the last element
/// kept before it.
pub fn dedup_by_key<T: View>(pairs: Vec<(String, T)>) -> (r: Vec<(String, T)>)
    ensures
        keyed_view(r@) == dedup_keys(keyed_view(pairs@)),
{
    let ghost orig = keyed_view(pairs@);
    let n = pairs.len();
    let mut rest = pairs;
    let mut r: Vec<(String, T)> = Vec::new();
    let mut i: usize = 0;
    assert(orig.take(0) =~= Seq::<(Seq<char>, T::V)>::empty());
    while i < n
        invariant
            n == orig.len(),
            i <= n,
            rest@.len() == n - i,
            keyed_view(rest@) == orig.skip(i as int),
            keyed_view(r@) == dedup_keys(orig.take(i as int)),
        decreases n - i,
    {
        let ghost rv = keyed_view(r@);
        let ghost r0 = rest@;
        let x = rest.remove(0);
        proof {
            lemma_keyed_remove_first(r0);
        }
        assert(keyed_view(rest@) =~= orig.skip(i + 1));
        assert((x.0@, x.1@) == orig[i as int]) by {
            assert(orig.skip(i as int)[0] == orig[i as int]);
        }
        assert(orig.take(i + 1).drop_last() =~= orig.take(i as int));
        let k = r.len();
        let same = k > 0 && str_eq(r[k - 1].0.as_str(), x.0.as_str());
        proof {
            if k > 0 {
                assert(rv.last() == (r@[k - 1].0@, r@[k - 1].1@));
            }
        }
        if !same {
            let ghost xv = (x.0@, x.1@);
            r.push(x);
            assert(keyed_view(r@) =~= rv.push(xv));
        }
        i = i + 1;
    }
    assert(orig.take(n as int) =~= orig);
    r
}

/// The values of `pairs`, without their keys.
pub fn strip_keys<T: View>(pairs: Vec<(String, T)>) -> (r: Vec<T>)
    ensures
        r@.map_values(|t: T| t@) == values_of(keyed_view(pairs@)),
{
    let ghost orig = keyed_view(pairs@);
    let n = pairs.len();
    let mut rest = pairs;
    let mut r: Vec<T> = Vec::new();
    let mut i: usize = 0;
    while i < n
        invariant
            n == orig.len(),
            i <= n,
            rest@.len() == n - i,
            keyed_view(rest@) == orig.skip(i as int),
            r@.len() == i,
            forall|j: int| 0 <= j < i ==> (#[trigger] r@[j])@ == orig[j].1,
        decreases n - i,
    {
        let ghost r0 = rest@;
        let x = rest.remove(0);
        proof {
            lemma_keyed_remove_first(r0);
        }
        assert(keyed_view(rest@) =~= orig.skip(i + 1));
        assert((x.0@, x.1@) == orig[i as int]) by {
            assert(orig.skip(i as int)[0] == orig[i as int]);
        }
        r.push(x.1);
        i = i + 1;
    }
    assert(r@.map_values(|t: T| t@) =~= values_of(orig));
    r
}

/// No text comes before itself.
pub proof fn lemma_text_lt_irrefl(a: Seq<char>)
    ensures
        !text_lt(a, a),
    decreases a.len(),
{
    if a.len() > 0 {
        lemma_text_lt_irrefl(a.drop_first());
    }
}

/// The order of texts is transitive.
pub proof fn lemma_text_lt_trans(a: Seq<char>, b: Seq<char>, c: Seq<char>)
    requires
        text_lt(a, b),
        text_lt(b, c),
    ensures
        text_lt(a, c),
    decreases a.len(),
{
    if a.len() > 0 && b.len() > 0 && c.len() > 0 && a[0] == b[0] && b[0] == c[0] {
        lemma_text_lt_trans(a.drop_first(), b.drop_first(), c.drop_first());
    }
}

/// Of two different texts, one comes before the other.
pub proof fn lemma_text_lt_total(a: Seq<char>, b: Seq<char>)
    requires
        a != b,
    ensures
        text_lt(a, b) || text_lt(b, a),
    decreases a.len(),
{
    if a.len() > 0 && b.len() > 0 {
        if a[0] == b[0] {
            assert(a =~= seq![a[0]] + a.drop_first());
            assert(b =~= seq![b[0]] + b.drop_first());
            lemma_text_lt_total(a.drop_first(), b.drop_first());
        } else {
            let x = a[0];
            let y = b[0];
            vstd::utf8::char_u32_cast(x, x as u32);
            vstd::utf8::char_u32_cast(y, y as u32);
            assert((x as u32) != (y as u32));
        }
    } else if a.len() == 0 && b.len() == 0 {
        assert(a =~= b);
    }
}

/// Keyed values whose keys never decrease.
#[verifier::opaque]
pub open spec fn keys_sorted<V>(s: Seq<(Seq<char>, V)>) -> bool {
    forall|i: int, j: int| 0 <= i < j < s.len() ==> !text_lt(#[trigger] s[j].0, #[trigger] s[i].0)
}

/// Keyed values whose keys increase strictly.
#[verifier::opaque]
pub open spec fn keys_increasing<V>(s: Seq<(Seq<char>, V)>) -> bool {
    forall|i: int, j: int| 0 <= i < j < s.len() ==> text_lt(#[trigger] s[i].0, #[trigger] s[j].0)
}

/// Where [`insert_pos`] puts a key: after every key it does not come before,
/// before a key it comes before.
pub proof fn lemma_insert_pos<V>(s: Seq<(Seq<char>, V)>, k: Seq<char>)
    ensures
        0 <= insert_pos(s, k) <= s.len(),
        forall|i: int| 0 <= i < insert_pos(s, k) ==> !text_lt(k, #[trigger] s[i].0),
        insert_pos(s, k) < s.len() ==> text_lt(k, s[insert_pos(s, k)].0),
    decreases s.len(),
{
    if s.len() > 0 && !text_lt(k, s[0].0) {
        lemma_insert_pos(s.drop_first(), k);
        assert forall|i: int| 0 <= i < insert_pos(s, k) implies !text_lt(k, #[trigger] s[i].0) by {
            if i > 0 {
                assert(s[i] == s.drop_first()[i - 1]);
            }
        }
        if insert_pos(s, k) < s.len() {
            assert(s[insert_pos(s, k)] == s.drop_first()[insert_pos(s.drop_first(), k)]);
        }
    }
}

/// [`stable_sort`] sorts by key, and keeps exactly the elements it is given.
pub proof fn lemma_stable_sort<V>(s: Seq<(Seq<char>, V)>)
    ensures
        keys_sorted(stable_sort(s)),
        stable_sort(s).len() == s.len(),
        forall|j: int| 0 <= j < s.len() ==> s.contains(#[trigger] stable_sort(s)[j]),
        forall|i: int| 0 <= i < s.len() ==> stable_sort(s).contains(#[trigger] s[i]),
    decreases s.len(),
{
    reveal(keys_sorted);
    if s.len() > 0 {
        let t = s.drop_last();
        let x = s.last();
        lemma_stable_sort(t);
        let r = stable_sort(t);
        let p = insert_pos(r, x.0);
        lemma_insert_pos(r, x.0);
        let q = r.insert(p, x);
        assert forall|i: int, j: int| 0 <= i < j < q.len() implies !text_lt(#[trigger] q[j].0, #[trigger] q[i].0) by {
            if j < p {
                assert(q[i] == r[i] && q[j] == r[j]);
            } else if j == p {
                assert(q[i] == r[i]);
            } else if i == p {
                assert(q[j] == r[j - 1]);
                assert(text_lt(x.0, r[p].0));
                if text_lt(r[j - 1].0, x.0) {
                    if j - 1 == p {
                        lemma_text_lt_trans(r[p].0, x.0, r[p].0);
                        lemma_text_lt_irrefl(r[p].0);
                    } else {
                        lemma_text_lt_trans(r[j - 1].0, x.0, r[p].0);
                        assert(!text_lt(r[j - 1].0, r[p].0));
                    }
                }
            } else if i < p {
                assert(q[i] == r[i] && q[j] == r[j - 1]);
            } else {
                assert(q[i] == r[i - 1] && q[j] == r[j - 1]);
            }
        }
        assert forall|j: int| 0 <= j < s.len() implies s.contains(#[trigger] q[j]) by {
            if j < p {
                assert(q[j] == r[j]);
                let k = choose|k: int| 0 <= k < t.len() && t[k] == r[j];
                assert(s[k] == t[k]);
            } else if j == p {
                assert(s[s.len() - 1] == x);
            } else {
                assert(q[j] == r[j - 1]);
                let k = choose|k: int| 0 <= k < t.len() && t[k] == r[j - 1];
                assert(s[k] == t[k]);
            }
        }
        assert forall|i: int| 0 <= i < s.len() implies q.contains(#[trigger] s[i]) by {
            if i < s.len() - 1 {
                assert(s[i] == t[i]);
                let k = choose|k: int| 0 <= k < r.len() && r[k] == t[i];
                if k < p {
                    assert(q[k] == r[k]);
                } else {
                    assert(q[k + 1] == r[k]);
                }
            } else {
                assert(q[p] == x);
            }
        }
    }
}

/// Each element of `d` is an element of `s`.
#[verifier::opaque]
pub open spec fn drawn_from<V>(d: Seq<(Seq<char>, V)>, s: Seq<(Seq<char>, V)>) -> bool {
    forall|j: int| 0 <= j < d.len() ==> s.contains(#[trigger] d[j])
}

/// Each key of `s` is the key of an element of `d`.
#[verifier::opaque]
pub open spec fn covers_keys<V>(d: Seq<(Seq<char>, V)>, s: Seq<(Seq<char>, V)>) -> bool {
    forall|i: int| 0 <= i < s.len() ==> exists|j: int| 0 <= j < d.len() && #[trigger] d[j].0 == (#[trigger] s[i]).0
}

/// Dropping the last of sorted keys leaves them sorted.
proof fn lemma_sorted_drop_last<V>(s: Seq<(Seq<char>, V)>)
    requires
        keys_sorted(s),
        s.len() > 0,
    ensures
        keys_sorted(s.drop_last()),
{
    reveal(keys_sorted);
    let t = s.drop_last();
    assert forall|i: int, j: int| 0 <= i < j < t.len() implies !text_lt(#[trigger] t[j].0, #[trigger] t[i].0) by {
        assert(t[i] == s[i] && t[j] == s[j]);
    }
}

/// What is drawn from the first elements of `s` is drawn from `s`.
proof fn lemma_drawn_from_prefix<V>(d: Seq<(Seq<char>, V)>, s: Seq<(Seq<char>, V)>)
    requires
        s.len() > 0,
        drawn_from(d, s.drop_last()),
    ensures
        drawn_from(d, s),
        drawn_from(d.push(s.last()), s),
{
    reveal(drawn_from);
    let t = s.drop_last();
    assert forall|j: int| 0 <= j < d.len() implies s.contains(#[trigger] d[j]) by {
        let k = choose|k: int| 0 <= k < t.len() && t[k] == d[j];
        assert(s[k] == t[k]);
    }
    let e = d.push(s.last());
    assert forall|j: int| 0 <= j < e.len() implies s.contains(#[trigger] e[j]) by {
        if j == d.len() {
            assert(s[s.len() - 1] == s.last());
        } else {
            assert(e[j] == d[j]);
        }
    }
}

/// Adding the last element of sorted keys whose key is new keeps the keys increasing.
proof fn lemma_push_increasing<V>(d: Seq<(Seq<char>, V)>, s: Seq<(Seq<char>, V)>)
    requires
        keys_sorted(s),
        s.len() > 0,
        keys_increasing(d),
        drawn_from(d, s),
        d.len() > 0 ==> d.last().0 != s.last().0,
    ensures
        keys_increasing(d.push(s.last())),
{
    reveal(keys_sorted);
    reveal(keys_increasing);
    reveal(drawn_from);
    let x = s.last();
    let e = d.push(x);
    if d.len() > 0 {
        let k = choose|k: int| 0 <= k < s.len() && s[k] == d.last();
        if k < s.len() - 1 {
            assert(!text_lt(s[s.len() - 1].0, s[k].0));
        } else {
            assert(d.last() == x);
        }
        lemma_text_lt_total(d.last().0, x.0);
    }
    assert forall|i: int, j: int| 0 <= i < j < e.len() implies text_lt(#[trigger] e[i].0, #[trigger] e[j].0) by {
        if j == e.len() - 1 {
            if i < d.len() - 1 {
                assert(text_lt(d[i].0, d[d.len() - 1].0));
                lemma_text_lt_trans(d[i].0, d.last().0, x.0);
            }
        } else {
            assert(e[i] == d[i] && e[j] == d[j]);
        }
    }
}

/// Keys covered from the first elements of `s`, with the last key covered too,
/// are the keys of `s` covered.
proof fn lemma_covers_extend<V>(d: Seq<(Seq<char>, V)>, e: Seq<(Seq<char>, V)>, s: Seq<(Seq<char>, V)>)
    requires
        s.len() > 0,
        covers_keys(d, s.drop_last()),
        e.len() >= d.len(),
        forall|j: int| 0 <= j < d.len() ==> e[j] == d[j],
        exists|j: int| 0 <= j < e.len() && e[j].0 == s.last().0,
    ensures
        covers_keys(e, s),
{
    reveal(covers_keys);
    let t = s.drop_last();
    assert forall|i: int| 0 <= i < s.len() implies exists|j: int| 0 <= j < e.len() && #[trigger] e[j].0 == (#[trigger] s[i]).0 by {
        if i < t.len() {
            assert(s[i] == t[i]);
            let j = choose|j: int| 0 <= j < d.len() && #[trigger] d[j].0 == t[i].0;
            assert(e[j] == d[j]);
        } else {
            let j = choose|j: int| 0 <= j < e.len() && e[j].0 == s.last().0;
            assert(e[j].0 == s[i].0);
        }
    }
}

/// On keys that never decrease, [`dedup_keys`] leaves keys that increase
/// strictly, keeps only given elements, and keeps an element for each key.
pub proof fn lemma_dedup_keys<V>(s: Seq<(Seq<char>, V)>)
    requires
        keys_sorted(s),
    ensures
        keys_increasing(dedup_keys(s)),
        drawn_from(dedup_keys(s), s),
        covers_keys(dedup_keys(s), s),
        s.len() > 0 ==> dedup_keys(s).len() > 0 && dedup_keys(s).last().0 == s.last().0,
    decreases s.len(),
{
    if s.len() == 0 {
        reveal(keys_increasing);
        reveal(drawn_from);
        reveal(covers_keys);
    } else {
        let t = s.drop_last();
        let x = s.last();
        lemma_sorted_drop_last(s);
        lemma_dedup_keys(t);
        let d = dedup_keys(t);
        lemma_drawn_from_prefix(d, s);
        if d.len() > 0 && d.last().0 == x.0 {
            lemma_covers_extend(d, d, s);
        } else {
            lemma_push_increasing(d, s);
            let e = d.push(x);
            assert(e[e.len() - 1] == x);
            lemma_covers_extend(d, e, s);
        }
    }
}

/// Each element of `d` holds a value of `xs` keyed by `key`.
pub open spec fn keyed_from<V>(d: Seq<(Seq<char>, V)>, xs: Seq<V>, key: spec_fn(V) -> Seq<char>) -> bool {
    forall|j: int| 0 <= j < d.len() ==> (#[trigger] d[j]).0 == key(d[j].1) && xs.contains(d[j].1)
}

/// Values keyed by `key` are keyed from the values.
proof fn lemma_keyed_pairs<V>(xs: Seq<V>, key: spec_fn(V) -> Seq<char>)
    ensures
        keyed_from(xs.map_values(|x: V| (key(x), x)), xs, key),
{
    let ps = xs.map_values(|x: V| (key(x), x));
    assert forall|j: int| 0 <= j < ps.len() implies (#[trigger] ps[j]).0 == key(ps[j].1) && xs.contains(ps[j].1) by {
        assert(ps[j] == (key(xs[j]), xs[j]));
    }
}

/// Elements drawn from values keyed from `xs` are keyed from `xs`.
proof fn lemma_keyed_drawn<V>(d: Seq<(Seq<char>, V)>, s: Seq<(Seq<char>, V)>, xs: Seq<V>, key: spec_fn(V) -> Seq<char>)
    requires
        keyed_from(s, xs, key),
        forall|j: int| 0 <= j < d.len() ==> s.contains(#[trigger] d[j]),
    ensures
        keyed_from(d, xs, key),
{
    assert forall|j: int| 0 <= j < d.len() implies (#[trigger] d[j]).0 == key(d[j].1) && xs.contains(d[j].1) by {
        let k = choose|k: int| 0 <= k < s.len() && s[k] == d[j];
    }
}

/// What [`sorted_unique`] keeps: keys that increase strictly, only given
/// values, and a value for each key of the given ones.
pub proof fn law_sorted_unique<V>(xs: Seq<V>, key: spec_fn(V) -> Seq<char>)
    ensures
        forall|i: int, j: int|
            0 <= i < j < sorted_unique(xs, key).len() ==> text_lt(
                key(#[trigger] sorted_unique(xs, key)[i]),
                key(#[trigger] sorted_unique(xs, key)[j]),
            ),
        forall|j: int| 0 <= j < sorted_unique(xs, key).len() ==> xs.contains(#[trigger] sorted_unique(xs, key)[j]),
        forall|i: int|
            0 <= i < xs.len() ==> exists|j: int|
                0 <= j < sorted_unique(xs, key).len() && key(#[trigger] sorted_unique(xs, key)[j]) == key(#[trigger] xs[i]),
{
    let ps = xs.map_values(|x: V| (key(x), x));
    lemma_keyed_pairs(xs, key);
    lemma_stable_sort(ps);
    let srt = stable_sort(ps);
    lemma_keyed_drawn(srt, ps, xs, key);
    lemma_dedup_keys(srt);
    let d = dedup_keys(srt);
    reveal(drawn_from);
    lemma_keyed_drawn(d, srt, xs, key);
    let r = sorted_unique(xs, key);
    assert(r == values_of(d));
    assert forall|i: int, j: int| 0 <= i < j < r.len() implies text_lt(key(#[trigger] r[i]), key(#[trigger] r[j])) by {
        reveal(keys_increasing);
        assert(r[i] == d[i].1 && r[j] == d[j].1);
        assert(d[i].0 == key(d[i].1) && d[j].0 == key(d[j].1));
    }
    assert forall|j: int| 0 <= j < r.len() implies xs.contains(#[trigger] r[j]) by {
        assert(r[j] == d[j].1);
        assert(d[j].0 == key(d[j].1) && xs.contains(d[j].1));
    }
    assert forall|i: int| 0 <= i < xs.len() implies exists|j: int| 0 <= j < r.len() && key(#[trigger] r[j]) == key(#[trigger] xs[i]) by {
        reveal(covers_keys);
        assert(ps[i] == (key(xs[i]), xs[i]));
        assert(srt.contains(ps[i]));
        let k = choose|k: int| 0 <= k < srt.len() && srt[k] == ps[i];
        let j = choose|j: int| 0 <= j < d.len() && #[trigger] d[j].0 == (#[trigger] srt[k]).0;
        assert(r[j] == d[j].1);
        assert(d[j].0 == key(d[j].1));
    }
}

/// On keys that never decrease, [`dedup_values`] leaves keys that never
/// decrease, and keeps only given elements.
pub proof fn lemma_dedup_values_sorted<V>(s: Seq<(Seq<char>, V)>)
    requires
        keys_sorted(s),
    ensures
        keys_sorted(dedup_values(s)),
        drawn_from(dedup_values(s), s),
    decreases s.len(),
{
    if s.len() == 0 {
        reveal(keys_sorted);
        reveal(drawn_from);
    } else {
        let t = s.drop_last();
        let x = s.last();
        lemma_sorted_drop_last(s);
        lemma_dedup_values_sorted(t);
        let d = dedup_values(t);
        lemma_drawn_from_prefix(d, s);
        let e = d.push(x);
        if !(d.len() > 0 && d.last().1 == x.1) {
            reveal(keys_sorted);
            reveal(drawn_from);
            assert forall|i: int, j: int| 0 <= i < j < e.len() implies !text_lt(#[trigger] e[j].0, #[trigger] e[i].0) by {
                if j == e.len() - 1 {
                    let k = choose|k: int| 0 <= k < t.len() && t[k] == d[i];
                    assert(s[k] == t[k]);
                    assert(!text_lt(s[s.len() - 1].0, s[k].0));
                } else {
                    assert(e[i] == d[i] && e[j] == d[j]);
                }
            }
        }
    }
}

/// `xs` sorted by `key` (stably), without each value equal to the last one kept before it.
pub open spec fn sorted_distinct<V>(xs: Seq<V>, key: spec_fn(V) -> Seq<char>) -> Seq<V> {
    values_of(dedup_values(stable_sort(xs.map_values(|x: V| (key(x), x)))))
}

/// What [`sorted_distinct`] keeps: keys that never decrease, and only given values.
pub proof fn law_sorted_by_key<V>(xs: Seq<V>, key: spec_fn(V) -> Seq<char>)
    ensures
        forall|i: int, j: int|
            0 <= i < j < sorted_distinct(xs, key).len() ==> !text_lt(
                key(#[trigger] sorted_distinct(xs, key)[j]),
                key(#[trigger] sorted_distinct(xs, key)[i]),
            ),
        forall|j: int| 0 <= j < sorted_distinct(xs, key).len() ==> xs.contains(#[trigger] sorted_distinct(xs, key)[j]),
{
    let ps = xs.map_values(|x: V| (key(x), x));
    lemma_keyed_pairs(xs, key);
    lemma_stable_sort(ps);
    let srt = stable_sort(ps);
    lemma_keyed_drawn(srt, ps, xs, key);
    lemma_dedup_values_sorted(srt);
    let d = dedup_values(srt);
    reveal(drawn_from);
    lemma_keyed_drawn(d, srt, xs, key);
    let r = sorted_distinct(xs, key);
    assert(r == values_of(d));
    assert forall|i: int, j: int| 0 <= i < j < r.len() implies !text_lt(key(#[trigger] r[j]), key(#[trigger] r[i])) by {
        reveal(keys_sorted);
        assert(r[i] == d[i].1 && r[j] == d[j].1);
        assert(d[i].0 == key(d[i].1) && d[j].0 == key(d[j].1));
    }
    assert forall|j: int| 0 <= j < r.len() implies xs.contains(#[trigger] r[j]) by {
        assert(r[j] == d[j].1);
        assert(d[j].0 == key(d[j].1) && xs.contains(d[j].1));
    }
}

} // verus!
