//! Verified helpers over character sequences: conversion between `String`
//! and `Vec<char>`, substring search, splitting, and decimal parsing.

use vstd::prelude::*;
use vstd::string::*;

verus! {

/// Relies on std's String::push: appends exactly one character at the end.
#[verifier::external_body]
fn push_char(s: &mut String, c: char)
    ensures
        final(s)@ == old(s)@.push(c),
{
    s.push(c);
}

/// The characters of a string slice, collected for O(1) indexing.
pub fn chars_of(s: &str) -> (r: Vec<char>)
    ensures
        r@ == s@,
{
    let n = s.unicode_len();
    let mut r: Vec<char> = Vec::new();
    let mut i: usize = 0;
    while i < n
        invariant
            i <= n,
            n == s@.len(),
            r@ == s@.take(i as int),
        decreases n - i,
    {
        r.push(s.get_char(i));
        proof {
            assert(s@.take(i + 1 as int) =~= s@.take(i as int).push(s@[i as int]));
        }
        i += 1;
    }
    proof {
        assert(r@ =~= s@);
    }
    r
}

/// The characters collected back into an owned string.
pub fn string_of(cs: &Vec<char>) -> (r: String)
    ensures
        r@ == cs@,
{
    let mut r = String::new();
    let mut i: usize = 0;
    while i < cs.len()
        invariant
            i <= cs.len(),
            r@ == cs@.take(i as int),
        decreases cs.len() - i,
    {
        push_char(&mut r, cs[i]);
        proof {
            assert(cs@.take(i + 1 as int) =~= cs@.take(i as int).push(cs@[i as int]));
        }
        i += 1;
    }
    proof {
        assert(r@ =~= cs@);
    }
    r
}

/// Whether two string slices hold the same characters.
pub fn str_eq(a: &str, b: &str) -> (r: bool)
    ensures
        r == (a@ == b@),
{
    let av = chars_of(a);
    let bv = chars_of(b);
    chars_eq(&av, &bv)
}

/// Whether two character vectors hold the same characters.
pub fn chars_eq(a: &Vec<char>, b: &Vec<char>) -> (r: bool)
    ensures
        r == (a@ == b@),
{
    if a.len() != b.len() {
        return false;
    }
    let mut i: usize = 0;
    while i < a.len()
        invariant
            i <= a.len(),
            a.len() == b.len(),
            a@.len() == b@.len(),
            forall|j: int| 0 <= j < i ==> a@[j] == b@[j],
        decreases a.len() - i,
    {
        if a[i] != b[i] {
            return false;
        }
        i += 1;
    }
    proof {
        assert(a@ =~= b@);
    }
    true
}

/// A copy of the characters in positions `[from, to)`.
pub fn sub_chars(s: &Vec<char>, from: usize, to: usize) -> (r: Vec<char>)
    requires
        from <= to <= s@.len(),
    ensures
        r@ == s@.subrange(from as int, to as int),
{
    let mut r: Vec<char> = Vec::new();
    let mut i: usize = from;
    while i < to
        invariant
            from <= i <= to <= s@.len(),
            r@ == s@.subrange(from as int, i as int),
        decreases to - i,
    {
        r.push(s[i]);
        proof {
            assert(s@.subrange(from as int, i + 1 as int) =~= s@.subrange(
                from as int,
                i as int,
            ).push(s@[i as int]));
        }
        i += 1;
    }
    r
}

/// Whether `nd` occurs as a contiguous run anywhere inside `hay`.
pub open spec fn contains_sub(hay: Seq<char>, nd: Seq<char>) -> bool {
    exists|i: int|
        0 <= i && i + nd.len() <= hay.len() && #[trigger] hay.subrange(i, i + nd.len() as int)
            == nd
}

fn matches_at(hay: &Vec<char>, nd: &Vec<char>, at: usize) -> (r: bool)
    requires
        at + nd@.len() <= hay@.len(),
    ensures
        r == (hay@.subrange(at as int, at + nd@.len() as int) == nd@),
{
    let hlen = hay.len();
    let mut k: usize = 0;
    while k < nd.len()
        invariant
            k <= nd@.len(),
            at + nd@.len() <= hay@.len(),
            hlen == hay@.len(),
            forall|j: int| 0 <= j < k ==> hay@[at + j] == nd@[j],
        decreases nd.len() - k,
    {
        if hay[at + k] != nd[k] {
            proof {
                assert(hay@.subrange(at as int, at + nd@.len() as int)[k as int] == hay@[at + k]);
            }
            return false;
        }
        k += 1;
    }
    proof {
        assert(hay@.subrange(at as int, at + nd@.len() as int) =~= nd@);
    }
    true
}

/// Substring search against the literal needle `nd`.
pub fn contains_str(hay: &Vec<char>, nd: &str) -> (r: bool)
    ensures
        r == contains_sub(hay@, nd@),
{
    let ndv = chars_of(nd);
    if ndv.len() > hay.len() {
        return false;
    }
    if ndv.len() == 0 {
        proof {
            assert(hay@.subrange(0, 0 + nd@.len() as int) =~= nd@);
            assert(contains_sub(hay@, nd@));
        }
        return true;
    }
    let limit = hay.len() - ndv.len();
    let mut i: usize = 0;
    loop
        invariant
            ndv@ == nd@,
            0 < ndv@.len() <= hay@.len(),
            hay@.len() <= usize::MAX,
            limit == hay@.len() - ndv@.len(),
            i <= limit + 1,
            forall|j: int|
                0 <= j < i ==> #[trigger] hay@.subrange(j, j + nd@.len() as int) != nd@,
        decreases limit + 1 - i,
    {
        if i > limit {
            return false;
        }
        if matches_at(hay, &ndv, i) {
            proof {
                assert(0 <= i as int && i as int + nd@.len() <= hay@.len()
                    && hay@.subrange(i as int, i as int + nd@.len() as int) == nd@);
            }
            return true;
        }
        i += 1;
    }
}

/// The least index of `sep` in `s`, or -1 when `sep` does not occur.
pub open spec fn find_char(s: Seq<char>, sep: char) -> int
    decreases s.len(),
{
    if s.len() == 0 {
        -1
    } else if s[0] == sep {
        0
    } else {
        let r = find_char(s.subrange(1, s.len() as int), sep);
        if r < 0 {
            -1
        } else {
            r + 1
        }
    }
}

pub proof fn lemma_find_char(s: Seq<char>, sep: char)
    ensures
        -1 <= find_char(s, sep) < s.len(),
        find_char(s, sep) >= 0 ==> s[find_char(s, sep)] == sep,
        forall|j: int|
            0 <= j < s.len() && (find_char(s, sep) < 0 || j < find_char(s, sep)) ==> s[j] != sep,
    decreases s.len(),
{
    if s.len() > 0 && s[0] != sep {
        let t = s.subrange(1, s.len() as int);
        lemma_find_char(t, sep);
        assert forall|j: int|
            0 <= j < s.len() && (find_char(s, sep) < 0 || j < find_char(s, sep)) implies s[j]
            != sep by {
            if j > 0 {
                assert(t[j - 1] == s[j]);
            }
        }
    }
}

/// The least index at or after `from` holding `sep`, if any.
pub fn find_from(s: &Vec<char>, from: usize, sep: char) -> (r: Option<usize>)
    requires
        from <= s@.len(),
    ensures
        match r {
            Some(i) => from <= i < s@.len() && s@[i as int] == sep && forall|j: int|
                from <= j < i ==> s@[j] != sep,
            None => forall|j: int| from <= j < s@.len() ==> s@[j] != sep,
        },
{
    let mut i: usize = from;
    while i < s.len()
        invariant
            from <= i <= s@.len(),
            forall|j: int| from <= j < i ==> s@[j] != sep,
        decreases s.len() - i,
    {
        if s[i] == sep {
            return Some(i);
        }
        i += 1;
    }
    None
}

/// `s` split on `sep`; separators are dropped, empty segments kept.
pub open spec fn split_on(s: Seq<char>, sep: char) -> Seq<Seq<char>>
    decreases s.len(),
{
    let i = find_char(s, sep);
    if i < 0 || i >= s.len() {
        seq![s]
    } else {
        seq![s.take(i)] + split_on(s.subrange(i + 1, s.len() as int), sep)
    }
}

/// The views of a vector of character vectors.
pub open spec fn views_of(r: Seq<Vec<char>>) -> Seq<Seq<char>> {
    r.map_values(|v: Vec<char>| v@)
}

/// Splitting a character vector on a separator.
pub fn split_chars(s: &Vec<char>, sep: char) -> (r: Vec<Vec<char>>)
    ensures
        views_of(r@) == split_on(s@, sep),
    decreases s@.len(),
{
    proof {
        lemma_find_char(s@, sep);
    }
    match find_from(s, 0, sep) {
        None => {
            proof {
                if find_char(s@, sep) >= 0 {
                    assert(s@[find_char(s@, sep)] == sep);
                }
                assert(find_char(s@, sep) < 0);
            }
            let first = sub_chars(s, 0, s.len());
            let r: Vec<Vec<char>> = vec![first];
            proof {
                assert(s@.subrange(0, s@.len() as int) =~= s@);
                assert(views_of(r@) =~= split_on(s@, sep));
            }
            r
        },
        Some(i) => {
            let n = s.len();
            proof {
                lemma_find_char_is(s@, sep, i as int);
                assert(i < n);
            }
            let head = sub_chars(s, 0, i);
            let tail = sub_chars(s, i + 1, s.len());
            let mut rest = split_chars(&tail, sep);
            rest.insert(0, head);
            proof {
                assert(head@ =~= s@.take(i as int));
                assert(views_of(rest@) =~= seq![s@.take(i as int)] + split_on(
                    s@.subrange(i + 1, s@.len() as int),
                    sep,
                ));
            }
            rest
        },
    }
}

/// `find_char` returns exactly the least index holding `sep`.
pub proof fn lemma_find_char_is(s: Seq<char>, sep: char, i: int)
    requires
        0 <= i < s.len(),
        s[i] == sep,
        forall|j: int| 0 <= j < i ==> s[j] != sep,
    ensures
        find_char(s, sep) == i,
    decreases s.len(),
{
    if i > 0 {
        let t = s.subrange(1, s.len() as int);
        assert(forall|j: int| 0 <= j < i - 1 ==> t[j] != sep);
        lemma_find_char_is(t, sep, i - 1);
    }
}

/// Filtering a sequence extended by one element keeps the element exactly
/// when the predicate holds of it.
pub proof fn lemma_filter_push<A>(s: Seq<A>, x: A, pred: spec_fn(A) -> bool)
    ensures
        s.push(x).filter(pred) == if pred(x) {
            s.filter(pred).push(x)
        } else {
            s.filter(pred)
        },
{
    reveal(Seq::filter);
    assert(s.push(x).drop_last() =~= s);
    assert(s.push(x).last() == x);
}

/// Whether every character is a decimal digit (and there is at least one).
pub open spec fn is_digits(s: Seq<char>) -> bool {
    s.len() > 0 && forall|i: int| 0 <= i < s.len() ==> '0' <= #[trigger] s[i] <= '9'
}

/// The value of a digit string read in base ten.
pub open spec fn dec_val(s: Seq<char>) -> int
    decreases s.len(),
{
    if s.len() == 0 {
        0
    } else {
        dec_val(s.drop_last()) * 10 + (s.last() as int - '0' as int)
    }
}

proof fn lemma_dec_val_prefix(s: Seq<char>, i: int)
    requires
        0 <= i <= s.len(),
        forall|k: int| 0 <= k < s.len() ==> '0' <= #[trigger] s[k] <= '9',
    ensures
        dec_val(s.take(i)) <= dec_val(s),
        dec_val(s.take(i)) >= 0,
    decreases s.len() - i,
{
    lemma_dec_val_nonneg_prefix(s, i);
    if i < s.len() {
        assert(s.take(i + 1).drop_last() =~= s.take(i));
        assert(s.take(i + 1).last() == s[i]);
        assert(dec_val(s.take(i)) * 10 >= dec_val(s.take(i))) by (nonlinear_arith)
            requires
                dec_val(s.take(i)) >= 0,
        ;
        lemma_dec_val_prefix(s, i + 1);
    } else {
        assert(s.take(i) =~= s);
    }
}

proof fn lemma_dec_val_nonneg_prefix(s: Seq<char>, i: int)
    requires
        0 <= i <= s.len(),
        forall|k: int| 0 <= k < s.len() ==> '0' <= #[trigger] s[k] <= '9',
    ensures
        dec_val(s.take(i)) >= 0,
    decreases i,
{
    if i == 0 {
        assert(s.take(0) =~= Seq::<char>::empty());
    } else {
        assert(s.take(i).drop_last() =~= s.take(i - 1));
        assert(s.take(i).last() == s[i - 1]);
        lemma_dec_val_nonneg_prefix(s, i - 1);
        assert(dec_val(s.take(i - 1)) >= 0 ==> dec_val(s.take(i - 1)) * 10 >= 0)
            by (nonlinear_arith);
    }
}

/// Base-ten parsing: succeeds exactly on digit strings whose value fits.
pub fn parse_u32(s: &Vec<char>) -> (r: Option<u32>)
    ensures
        r is Some <==> is_digits(s@) && dec_val(s@) <= u32::MAX,
        r is Some ==> r.unwrap() as int == dec_val(s@),
{
    if s.len() == 0 {
        return None;
    }
    let mut val: u32 = 0;
    let mut i: usize = 0;
    while i < s.len()
        invariant
            i <= s@.len(),
            s@.len() > 0,
            forall|k: int| 0 <= k < i ==> '0' <= #[trigger] s@[k] <= '9',
            val as int == dec_val(s@.take(i as int)),
        decreases s.len() - i,
    {
        let c = s[i];
        if c < '0' || c > '9' {
            return None;
        }
        let d: u32 = (c as u32) - ('0' as u32);
        proof {
            assert(s@.take(i + 1 as int).drop_last() =~= s@.take(i as int));
            assert(s@.take(i + 1 as int).last() == s@[i as int]);
            assert(d as int == s@[i as int] as int - '0' as int);
        }
        if val > (u32::MAX - d) / 10 {
            proof {
                assert(dec_val(s@.take(i + 1 as int)) == (val as int) * 10 + d);
                assert((val as int) * 10 + d > u32::MAX) by (nonlinear_arith)
                    requires
                        val as int > (u32::MAX as int - d) / 10,
                        0 <= d <= 9,
                ;
                if forall|k: int| 0 <= k < s@.len() ==> '0' <= #[trigger] s@[k] <= '9' {
                    lemma_dec_val_prefix(s@, i + 1);
                }
            }
            return None;
        }
        proof {
            assert((val as int) * 10 + d <= u32::MAX) by (nonlinear_arith)
                requires
                    val as int <= (u32::MAX as int - d) / 10,
                    0 <= d <= 9,
            ;
        }
        val = val * 10 + d;
        i += 1;
    }
    proof {
        assert(s@.take(s@.len() as int) =~= s@);
    }
    Some(val)
}

} // verus!
