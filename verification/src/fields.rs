//! How the fields of a written line come back when the line is read.
use vstd::prelude::*;
use crate::graphics::{bracket_fields, first_index};
use crate::text::{all_digits, decimal, digit_char, digit_value, digits_value, is_digit, spec_parse_u32};
use crate::words::split_on;

verus! {

/// Whether `c` does not occur in `s`.
pub open spec fn lacks(s: Seq<char>, c: char) -> bool {
    forall|i: int| 0 <= i < s.len() ==> s[i] != c
}

/// A digit character is a digit, of the value it was made from.
pub proof fn lemma_digit_char(d: nat)
    requires
        d < 10,
    ensures
        is_digit(digit_char(d)),
        digit_value(digit_char(d)) == d,
{
    if d == 0 {
        assert(digit_char(0) == '0');
    } else if d == 1 {
        assert(digit_char(1) == '1');
    } else if d == 2 {
        assert(digit_char(2) == '2');
    } else if d == 3 {
        assert(digit_char(3) == '3');
    } else if d == 4 {
        assert(digit_char(4) == '4');
    } else if d == 5 {
        assert(digit_char(5) == '5');
    } else if d == 6 {
        assert(digit_char(6) == '6');
    } else if d == 7 {
        assert(digit_char(7) == '7');
    } else if d == 8 {
        assert(digit_char(8) == '8');
    } else {
        assert(digit_char(9) == '9');
    }
}

/// The decimal text of a number is one or more digits whose value is the number.
pub proof fn lemma_decimal(n: nat)
    ensures
        decimal(n).len() > 0,
        all_digits(decimal(n)),
        digits_value(decimal(n)) == n,
    decreases n,
{
    if n < 10 {
        lemma_digit_char(n);
        let s = decimal(n);
        assert(s.drop_last() =~= Seq::<char>::empty());
        assert(s.last() == digit_char(n));
        assert(digits_value(s) == digits_value(s.drop_last()) * 10 + digit_value(s.last()));
    } else {
        lemma_decimal(n / 10);
        lemma_digit_char(n % 10);
        let s = decimal(n);
        let t = decimal(n / 10);
        assert(s.drop_last() =~= t);
        assert(s.last() == digit_char(n % 10));
        assert(digits_value(s) == digits_value(t) * 10 + digit_value(s.last()));
        assert((n / 10) * 10 + n % 10 == n) by (nonlinear_arith);
        assert forall|i: int| 0 <= i < s.len() implies is_digit(#[trigger] s[i]) by {
            if i < t.len() {
                assert(s[i] == t[i]);
            }
        }
    }
}

/// Reading the decimal text of a number gives the number back.
pub proof fn lemma_parse_decimal(n: u32)
    ensures
        spec_parse_u32(decimal(n as nat)) == Some(n),
{
    lemma_decimal(n as nat);
    let s = decimal(n as nat);
    assert(is_digit(s[0]));
}

/// Decimal text holds no bracket and no colon.
pub proof fn lemma_decimal_lacks(n: nat)
    ensures
        lacks(decimal(n), ':'),
        lacks(decimal(n), '['),
        lacks(decimal(n), ']'),
{
    lemma_decimal(n);
    let s = decimal(n);
    assert forall|i: int| 0 <= i < s.len() implies s[i] != ':' && s[i] != '[' && s[i] != ']' by {
        assert(is_digit(s[i]));
    }
}

/// Text without the separator is one piece.
pub proof fn lemma_split_whole(a: Seq<char>, c: char)
    requires
        lacks(a, c),
    ensures
        split_on(a, c) == seq![a],
    decreases a.len(),
{
    if a.len() == 0 {
        assert(a =~= Seq::<char>::empty());
    } else {
        lemma_split_whole(a.drop_last(), c);
        assert(a.drop_last().push(a.last()) =~= a);
        assert(split_on(a, c) =~= seq![a]);
    }
}

/// Splitting at a separator gives the pieces of each side.
pub proof fn lemma_split_concat(a: Seq<char>, b: Seq<char>, c: char)
    ensures
        split_on(a + seq![c] + b, c) == split_on(a, c) + split_on(b, c),
    decreases b.len(),
{
    crate::words::lemma_split_on_len(a, c);
    if b.len() == 0 {
        let s = a + seq![c] + b;
        assert(s.drop_last() =~= a);
        assert(split_on(b, c) =~= seq![seq![]]);
        assert(split_on(s, c) =~= split_on(a, c) + split_on(b, c));
    } else {
        let bp = b.drop_last();
        lemma_split_concat(a, bp, c);
        crate::words::lemma_split_on_len(bp, c);
        let s = a + seq![c] + b;
        assert(s.drop_last() =~= a + seq![c] + bp);
        assert(s.last() == b.last());
        assert(split_on(s, c) =~= split_on(a, c) + split_on(b, c));
    }
}

/// The first occurrence of `c` past text without it.
pub proof fn lemma_first_index_after(a: Seq<char>, b: Seq<char>, c: char)
    requires
        lacks(a, c),
    ensures
        first_index(a + b, c) == match first_index(b, c) {
            Some(k) => Some(k + a.len()),
            None => None::<int>,
        },
    decreases a.len(),
{
    if a.len() == 0 {
        assert(a + b =~= b);
    } else {
        lemma_first_index_after(a.drop_first(), b, c);
        assert((a + b).drop_first() =~= a.drop_first() + b);
        assert((a + b)[0] == a[0]);
    }
}

/// The fields of a line written as `pre[body]post`, where `pre` holds no `[`
/// and `body` no `]`, are the pieces of `body` between colons.
pub proof fn lemma_line_fields(pre: Seq<char>, body: Seq<char>, post: Seq<char>)
    requires
        lacks(pre, '['),
        lacks(body, ']'),
    ensures
        bracket_fields(pre + seq!['['] + body + seq![']'] + post) == split_on(body, ':'),
{
    let s = pre + seq!['['] + body + seq![']'] + post;
    let tail = seq!['['] + body + seq![']'] + post;
    assert(s =~= pre + tail);
    lemma_first_index_after(pre, tail, '[');
    assert(first_index(tail, '[') == Some(0int));
    let rest = s.skip(pre.len() as int + 1);
    let after = seq![']'] + post;
    assert(rest =~= body + after);
    lemma_first_index_after(body, after, ']');
    assert(first_index(after, ']') == Some(0int));
    assert(rest.take(body.len() as int) =~= body);
}

/// The fields of a written line `pre[token:n]post`.
pub proof fn lemma_numeric_line_fields(pre: Seq<char>, token: Seq<char>, n: nat, post: Seq<char>)
    requires
        lacks(pre, '['),
        lacks(token, ']'),
        lacks(token, ':'),
    ensures
        bracket_fields(pre + seq!['['] + token + seq![':'] + decimal(n) + seq![']'] + post) == seq![token, decimal(n)],
{
    lemma_decimal_lacks(n);
    let body = token + seq![':'] + decimal(n);
    assert(lacks(body, ']')) by {
        assert forall|i: int| 0 <= i < body.len() implies body[i] != ']' by {
            if i < token.len() {
                assert(body[i] == token[i]);
            } else if i > token.len() {
                assert(body[i] == decimal(n)[i - token.len() - 1]);
            }
        }
    }
    assert(pre + seq!['['] + token + seq![':'] + decimal(n) + seq![']'] + post =~= pre + seq!['['] + body + seq![']']
        + post);
    lemma_line_fields(pre, body, post);
    lemma_split_concat(token, decimal(n), ':');
    lemma_split_whole(token, ':');
    lemma_split_whole(decimal(n), ':');
    assert(seq![token] + seq![decimal(n)] =~= seq![token, decimal(n)]);
}

/// The fields of a written line `pre[token]post`.
pub proof fn lemma_bare_line_fields(pre: Seq<char>, token: Seq<char>, post: Seq<char>)
    requires
        lacks(pre, '['),
        lacks(token, ']'),
        lacks(token, ':'),
    ensures
        bracket_fields(pre + seq!['['] + token + seq![']'] + post) == seq![token],
{
    lemma_line_fields(pre, token, post);
    lemma_split_whole(token, ':');
}

/// Whether `c` does not occur in `s`, checked from the front.
pub open spec fn free_of(s: Seq<char>, c: char) -> bool
    decreases s.len(),
{
    s.len() == 0 || (s[0] != c && free_of(s.drop_first(), c))
}

/// Checked from the front or not, `c` does not occur.
pub proof fn lemma_free_of(s: Seq<char>, c: char)
    requires
        free_of(s, c),
    ensures
        lacks(s, c),
    decreases s.len(),
{
    if s.len() > 0 {
        lemma_free_of(s.drop_first(), c);
        assert forall|i: int| 0 <= i < s.len() implies s[i] != c by {
            if i > 0 {
                assert(s[i] == s.drop_first()[i - 1]);
            }
        }
    }
}

} // verus!
