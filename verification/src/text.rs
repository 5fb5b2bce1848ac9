//! Text helpers shared by the rest of the crate: conversion between strings
//! and character vectors, searching, splitting and decimal formatting.
//!
//! Every contract here is stated over `Seq<char>`, the view of a string.

use vstd::prelude::*;

verus! {

/// `String::push` of the standard library: appends one character at the end
/// of the string and leaves the rest as it was.
pub assume_specification[ std::string::String::push ](s: &mut String, c: char)
    ensures
        final(s)@ == old(s)@.push(c),
;

/// The characters of `s`, in order.
pub fn to_chars(s: &str) -> (v: Vec<char>)
    ensures
        v@ == s@,
{
    let mut v: Vec<char> = Vec::new();
    for c in it: s.chars()
        invariant
            v@ == it.seq().take(it.index() as int),
            it.seq() == s@,
    {
        v.push(c);
    }
    v
}

/// Appends the characters `v[from..to]` to `out`.
pub fn push_range(out: &mut String, v: &Vec<char>, from: usize, to: usize)
    requires
        from <= to <= v.len(),
    ensures
        final(out)@ == old(out)@ + v@.subrange(from as int, to as int),
{
    let mut i: usize = from;
    while i < to
        invariant
            from <= i <= to <= v.len(),
            out@ == old(out)@ + v@.subrange(from as int, i as int),
        decreases to - i,
    {
        out.push(v[i]);
        i += 1;
    }
}

/// The string made of the characters `v[from..to]`.
pub fn substring(v: &Vec<char>, from: usize, to: usize) -> (s: String)
    requires
        from <= to <= v.len(),
    ensures
        s@ == v@.subrange(from as int, to as int),
{
    let mut s = String::new();
    push_range(&mut s, v, from, to);
    s
}

/// Whether two strings hold the same characters.
pub fn str_eq(a: &str, b: &str) -> (same: bool)
    ensures
        same == (a@ == b@),
{
    let x = to_chars(a);
    let y = to_chars(b);
    if x.len() != y.len() {
        return false;
    }
    let mut i: usize = 0;
    while i < x.len()
        invariant
            i <= x.len(),
            x.len() == y.len(),
            x@ == a@,
            y@ == b@,
            x@.take(i as int) == y@.take(i as int),
        decreases x.len() - i,
    {
        if x[i] != y[i] {
            assert(a@[i as int] != b@[i as int]);
            return false;
        }
        assert(x@.take(i + 1) == x@.take(i as int).push(x@[i as int]));
        assert(y@.take(i + 1) == y@.take(i as int).push(y@[i as int]));
        i += 1;
    }
    assert(x@ == x@.take(x.len() as int));
    assert(y@ == y@.take(y.len() as int));
    true
}

/// `k` is the position of the first `c` in `s` at or after `start`, or the
/// length of `s` when there is none.
pub open spec fn is_first_at(s: Seq<char>, start: int, c: char, k: int) -> bool {
    &&& start <= k <= s.len()
    &&& forall|j: int| start <= j < k ==> s[j] != c
    &&& k < s.len() ==> s[k] == c
}

/// The position of the first `c` in `s`, or the length of `s` when `s` holds
/// no `c`.
pub open spec fn first_index(s: Seq<char>, c: char) -> int
    decreases s.len(),
{
    if s.len() == 0 {
        0
    } else if s[0] == c {
        0
    } else {
        1 + first_index(s.skip(1), c)
    }
}

/// `first_index` is the least position that holds `c`.
pub proof fn lemma_first_index(s: Seq<char>, c: char)
    ensures
        is_first_at(s, 0, c, first_index(s, c)),
    decreases s.len(),
{
    if s.len() != 0 && s[0] != c {
        let rest = s.skip(1);
        lemma_first_index(rest, c);
        let k = first_index(s, c);
        assert forall|j: int| 0 <= j < k implies s[j] != c by {
            if j > 0 {
                assert(rest[j - 1] == s[j]);
            }
        }
        if k < s.len() {
            assert(rest[k - 1] == s[k]);
        }
    }
}

/// Two positions that are both first are the same position.
pub proof fn lemma_first_unique(s: Seq<char>, start: int, c: char, a: int, b: int)
    requires
        0 <= start,
        is_first_at(s, start, c, a),
        is_first_at(s, start, c, b),
    ensures
        a == b,
{
}

/// The position of the first `c` in `v` at or after `start`; the length of
/// `v` when there is none.
pub fn find_char(v: &Vec<char>, start: usize, c: char) -> (k: usize)
    requires
        start <= v.len(),
    ensures
        is_first_at(v@, start as int, c, k as int),
        k == start + first_index(v@.skip(start as int), c),
{
    let mut k: usize = start;
    while k < v.len() && v[k] != c
        invariant
            start <= k <= v.len(),
            forall|j: int| start <= j < k ==> v@[j] != c,
        decreases v.len() - k,
    {
        k += 1;
    }
    proof {
        let rest = v@.skip(start as int);
        lemma_first_index(rest, c);
        let f = first_index(rest, c);
        assert(is_first_at(rest, 0, c, k - start)) by {
            assert forall|j: int| 0 <= j < k - start implies rest[j] != c by {
                assert(rest[j] == v@[start + j]);
            }
        }
        lemma_first_unique(rest, 0, c, f, k - start);
    }
    k
}

/// The pieces of `s` between occurrences of `sep`. There is always at least
/// one piece; a separator at either end gives an empty piece there.
pub open spec fn split(s: Seq<char>, sep: char) -> Seq<Seq<char>>
    decreases s.len(),
{
    let k = first_index(s, sep);
    if 0 <= k < s.len() {
        seq![s.take(k)] + split(s.skip(k + 1), sep)
    } else {
        seq![s]
    }
}

/// The view of each string of a vector, in order.
pub open spec fn views(v: Seq<String>) -> Seq<Seq<char>> {
    v.map_values(|s: String| s@)
}

/// The pieces of `v[start..]` between occurrences of `sep`.
pub fn split_chars(v: &Vec<char>, start: usize, sep: char) -> (pieces: Vec<String>)
    requires
        start <= v.len(),
    ensures
        views(pieces@) == split(v@.skip(start as int), sep),
{
    let mut pieces: Vec<String> = Vec::new();
    let mut from: usize = start;
    loop
        invariant_except_break
            start <= from <= v.len(),
            split(v@.skip(start as int), sep) == views(pieces@) + split(
                v@.skip(from as int),
                sep,
            ),
        ensures
            views(pieces@) == split(v@.skip(start as int), sep),
        decreases v.len() - from,
    {
        let k = find_char(v, from, sep);
        let piece = substring(v, from, k);
        let ghost before = views(pieces@);
        let ghost rest = v@.skip(from as int);
        pieces.push(piece);
        proof {
            assert(views(pieces@) == before.push(piece@));
            assert(rest.take(k - from) == v@.subrange(from as int, k as int));
        }
        if k >= v.len() {
            proof {
                assert(rest.take(k - from) == rest);
            }
            break ;
        }
        proof {
            assert(rest.skip(k - from + 1) == v@.skip(k + 1));
        }
        from = k + 1;
    }
    pieces
}

/// The decimal digit of a number below ten.
pub open spec fn digit_char(d: nat) -> char {
    if d == 0 {
        '0'
    } else if d == 1 {
        '1'
    } else if d == 2 {
        '2'
    } else if d == 3 {
        '3'
    } else if d == 4 {
        '4'
    } else if d == 5 {
        '5'
    } else if d == 6 {
        '6'
    } else if d == 7 {
        '7'
    } else if d == 8 {
        '8'
    } else {
        '9'
    }
}

/// The decimal digits of `n`, most significant first, without leading zeros.
pub open spec fn decimal(n: nat) -> Seq<char>
    decreases n,
{
    if n < 10 {
        seq![digit_char(n)]
    } else {
        decimal(n / 10).push(digit_char(n % 10))
    }
}

/// The decimal text of an integer: a minus sign before the digits of a
/// negative one.
pub open spec fn decimal_int(i: int) -> Seq<char> {
    if i < 0 {
        seq!['-'] + decimal((-i) as nat)
    } else {
        decimal(i as nat)
    }
}

fn digit(d: u64) -> (c: char)
    requires
        d < 10,
    ensures
        c == digit_char(d as nat),
{
    if d == 0 {
        '0'
    } else if d == 1 {
        '1'
    } else if d == 2 {
        '2'
    } else if d == 3 {
        '3'
    } else if d == 4 {
        '4'
    } else if d == 5 {
        '5'
    } else if d == 6 {
        '6'
    } else if d == 7 {
        '7'
    } else if d == 8 {
        '8'
    } else {
        '9'
    }
}

/// Appends the decimal digits of `n` to `out`.
pub fn push_decimal(out: &mut String, n: u64)
    ensures
        final(out)@ == old(out)@ + decimal(n as nat),
    decreases n,
{
    if n < 10 {
        out.push(digit(n));
    } else {
        push_decimal(out, n / 10);
        out.push(digit(n % 10));
    }
}

/// Appends the decimal text of `i` to `out`.
pub fn push_decimal_int(out: &mut String, i: i64)
    ensures
        final(out)@ == old(out)@ + decimal_int(i as int),
{
    if i < 0 {
        out.push('-');
        let magnitude: u64 = if i == i64::MIN {
            9223372036854775808u64
        } else {
            (-i) as u64
        };
        push_decimal(out, magnitude);
    } else {
        push_decimal(out, i as u64);
    }
}

/// The text that bytes hold: their decoding as UTF-8, or `None` where they
/// are not valid UTF-8.
pub open spec fn text_in(bytes: Seq<u8>) -> Option<Seq<char>> {
    if vstd::utf8::valid_utf8(bytes) {
        Some(vstd::utf8::decode_utf8(bytes))
    } else {
        None
    }
}

/// `String::from_utf8` of the standard library on a copy of the bytes: the
/// string that the bytes encode, or nothing where they are not valid UTF-8.
#[verifier::external_body]
pub(crate) fn utf8_text(bytes: &Vec<u8>) -> (text: Option<String>)
    ensures
        match text {
            Some(s) => text_in(bytes@) == Some(s@),
            None => text_in(bytes@) is None,
        },
{
    String::from_utf8(bytes.clone()).ok()
}

} // verus!
