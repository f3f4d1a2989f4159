//! Character-sequence utilities: conversion of `&str` to a vector of
//! characters, splitting at a separator, and comparison against a pattern.

use vstd::prelude::*;

verus! {

/// The segments obtained by cutting `s` at every occurrence of `sep`:
/// always one segment more than there are separators, in order, and no
/// segment contains `sep`.
pub open spec fn split_on(s: Seq<char>, sep: char) -> Seq<Seq<char>>
    decreases s.len(),
{
    if s.len() == 0 {
        seq![Seq::<char>::empty()]
    } else if s[0] == sep {
        seq![Seq::<char>::empty()] + split_on(s.drop_first(), sep)
    } else {
        let rest = split_on(s.drop_first(), sep);
        seq![seq![s[0]] + rest[0]] + rest.drop_first()
    }
}

pub proof fn lemma_split_on_len(s: Seq<char>, sep: char)
    ensures
        split_on(s, sep).len() >= 1,
    decreases s.len(),
{
    if s.len() > 0 {
        lemma_split_on_len(s.drop_first(), sep);
    }
}

/// The split of a string that still has an unfinished first segment `cur`
/// in front of it.
pub open spec fn prepend_first(parts: Seq<Seq<char>>, cur: Seq<char>) -> Seq<Seq<char>>
    recommends
        parts.len() >= 1,
{
    seq![cur + parts[0]] + parts.drop_first()
}

/// The characters of `s`, as an indexable vector.
pub fn chars_vec(s: &str) -> (v: Vec<char>)
    ensures
        v@ == s@,
{
    let mut v: Vec<char> = Vec::new();
    for c in it: s.chars()
        invariant
            it.seq() == s@,
            v@ == it.seq().take(it.index() as int),
    {
        v.push(c);
    }
    proof {
        assert(v@ =~= s@);
    }
    v
}

/// Splits `v` at every occurrence of `sep`.
pub fn split_char(v: &Vec<char>, sep: char) -> (parts: Vec<Vec<char>>)
    ensures
        parts@.map_values(|p: Vec<char>| p@) == split_on(v@, sep),
{
    let mut parts: Vec<Vec<char>> = Vec::new();
    let mut cur: Vec<char> = Vec::new();
    let mut i: usize = 0;
    proof {
        lemma_split_on_len(v@, sep);
        let r = split_on(v@, sep);
        assert(v@.skip(0) =~= v@);
        assert(Seq::<char>::empty() + r[0] =~= r[0]);
        assert(prepend_first(r, Seq::<char>::empty()) =~= r);
        assert(parts@.map_values(|p: Vec<char>| p@) + prepend_first(r, cur@) =~= r);
    }
    while i < v.len()
        invariant
            i <= v@.len(),
            split_on(v@, sep) == parts@.map_values(|p: Vec<char>| p@) + prepend_first(
                split_on(v@.skip(i as int), sep),
                cur@,
            ),
        decreases v@.len() - i,
    {
        let c = v[i];
        proof {
            let suf = v@.skip(i as int);
            assert(suf[0] == v@[i as int]);
            assert(suf.drop_first() =~= v@.skip(i as int + 1));
            lemma_split_on_len(v@.skip(i as int + 1), sep);
        }
        if c == sep {
            proof {
                let r = split_on(v@.skip(i as int + 1), sep);
                assert(cur@ + Seq::<char>::empty() =~= cur@);
                assert(Seq::<char>::empty() + r[0] =~= r[0]);
                assert(prepend_first(r, Seq::<char>::empty()) =~= r);
                assert(prepend_first(split_on(v@.skip(i as int), sep), cur@) =~= seq![cur@]
                    + prepend_first(r, Seq::<char>::empty()));
                assert((parts@.push(cur)).map_values(|p: Vec<char>| p@) =~= parts@.map_values(
                    |p: Vec<char>| p@,
                ).push(cur@));
            }
            parts.push(cur);
            cur = Vec::new();
            proof {
                assert(split_on(v@, sep) =~= parts@.map_values(|p: Vec<char>| p@)
                    + prepend_first(split_on(v@.skip(i as int + 1), sep), cur@));
            }
        } else {
            proof {
                let r = split_on(v@.skip(i as int + 1), sep);
                assert(cur@.push(c) =~= cur@ + seq![c]);
                assert(cur@ + (seq![c] + r[0]) =~= cur@.push(c) + r[0]);
                assert(prepend_first(split_on(v@.skip(i as int), sep), cur@) =~= prepend_first(
                    r,
                    cur@.push(c),
                ));
            }
            cur.push(c);
        }
        i += 1;
    }
    proof {
        assert(i == v@.len());
        assert(v@.skip(i as int) =~= Seq::<char>::empty());
        let r = split_on(Seq::<char>::empty(), sep);
        assert(cur@ + r[0] =~= cur@);
        assert(prepend_first(r, cur@) =~= seq![cur@]);
        assert((parts@.push(cur)).map_values(|p: Vec<char>| p@) =~= parts@.map_values(
            |p: Vec<char>| p@,
        ).push(cur@));
        assert(parts@.map_values(|p: Vec<char>| p@).push(cur@) =~= parts@.map_values(
            |p: Vec<char>| p@,
        ) + seq![cur@]);
    }
    parts.push(cur);
    proof {
        assert(parts@.map_values(|p: Vec<char>| p@) =~= split_on(v@, sep));
    }
    parts
}

/// Whether two strings hold the same characters.
pub fn str_eq(a: &str, b: &str) -> (r: bool)
    ensures
        r == (a@ == b@),
{
    let va = chars_vec(a);
    eq_str(&va, b)
}

/// Whether the characters in `v` spell exactly the string `s`.
pub fn eq_str(v: &Vec<char>, s: &str) -> (b: bool)
    ensures
        b == (v@ == s@),
{
    let w = chars_vec(s);
    if v.len() != w.len() {
        return false;
    }
    let mut i: usize = 0;
    while i < v.len()
        invariant
            i <= v@.len(),
            v@.len() == s@.len(),
            w@ == s@,
            forall|j: int| 0 <= j < i ==> v@[j] == s@[j],
        decreases v@.len() - i,
    {
        if v[i] != w[i] {
            assert(v@[i as int] != s@[i as int]);
            return false;
        }
        i += 1;
    }
    proof {
        assert(v@ =~= s@);
    }
    true
}

} // verus!
