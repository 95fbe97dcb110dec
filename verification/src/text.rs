//! Character-level string handling: conversion between strings and character
//! vectors, Unicode whitespace, trimming, prefix tests and searching.
use vstd::prelude::*;
use vstd::utf8::{decode_utf8, valid_utf8};

verus! {

/// The characters of `s`, in order.
pub fn chars_of(s: &str) -> (r: Vec<char>)
    ensures
        r@ == s@,
{
    broadcast use vstd::string::axiom_spec_iter;
    let mut r: Vec<char> = Vec::new();
    for c in it: s.chars()
        invariant
            r.len() == it.index(),
            it.seq() == s@,
            forall|i: int| 0 <= i < r.len() ==> r@[i] == it.seq()[i],
    {
        r.push(c);
    }
    r
}

/// The string made of the characters of `v`, in order.
#[verifier::external_body]
pub(crate) fn string_from(v: &[char]) -> (r: String)
    ensures
        r@ == v@,
{
    v.iter().collect()
}

/// `std::str::from_utf8`, kept as an owned string: `Some` exactly when the bytes
/// are valid UTF-8, and then the characters they encode (the specification that
/// vstd gives of UTF-8).
#[verifier::external_body]
pub(crate) fn utf8_decode(bytes: &[u8]) -> (r: Option<String>)
    ensures
        r is Some <==> valid_utf8(bytes@),
        r matches Some(s) ==> s@ == decode_utf8(bytes@),
{
    std::str::from_utf8(bytes).ok().map(|s| s.to_string())
}

/// Unicode `White_Space`, the property that `char::is_whitespace` tests.
pub open spec fn is_ws(c: char) -> bool {
    let u = c as u32;
    ||| 0x09 <= u <= 0x0D
    ||| u == 0x20
    ||| u == 0x85
    ||| u == 0xA0
    ||| u == 0x1680
    ||| 0x2000 <= u <= 0x200A
    ||| u == 0x2028
    ||| u == 0x2029
    ||| u == 0x202F
    ||| u == 0x205F
    ||| u == 0x3000
}

pub fn is_whitespace(c: char) -> (b: bool)
    ensures
        b == is_ws(c),
{
    let u = c as u32;
    (0x09 <= u && u <= 0x0D) || u == 0x20 || u == 0x85 || u == 0xA0 || u == 0x1680 || (0x2000
        <= u && u <= 0x200A) || u == 0x2028 || u == 0x2029 || u == 0x202F || u == 0x205F || u
        == 0x3000
}

/// An ASCII hexadecimal digit: `0-9`, `a-f` or `A-F`.
pub open spec fn is_hex(c: char) -> bool {
    ('0' <= c <= '9') || ('a' <= c <= 'f') || ('A' <= c <= 'F')
}

pub fn is_ascii_hexdigit(c: char) -> (b: bool)
    ensures
        b == is_hex(c),
{
    ('0' <= c && c <= '9') || ('a' <= c && c <= 'f') || ('A' <= c && c <= 'F')
}

/// An ASCII letter or digit.
pub open spec fn is_alnum(c: char) -> bool {
    ('0' <= c <= '9') || ('a' <= c <= 'z') || ('A' <= c <= 'Z')
}

/// An ASCII decimal digit.
pub open spec fn is_digit(c: char) -> bool {
    '0' <= c <= '9'
}

/// The index of the first character at or after `i` that is not whitespace,
/// or the length of `s` when there is none.
pub open spec fn ws_skip_from(s: Seq<char>, i: int) -> int
    decreases s.len() - i,
{
    if i < 0 || i >= s.len() {
        s.len() as int
    } else if !is_ws(s[i]) {
        i
    } else {
        ws_skip_from(s, i + 1)
    }
}

/// The end of `s[..j]` once its trailing whitespace is removed.
pub open spec fn ws_end_before(s: Seq<char>, j: int) -> int
    decreases j,
{
    if j <= 0 || j > s.len() {
        0
    } else if !is_ws(s[j - 1]) {
        j
    } else {
        ws_end_before(s, j - 1)
    }
}

/// `str::trim`: `s` without its leading and trailing whitespace.
pub open spec fn trim_ws(s: Seq<char>) -> Seq<char> {
    let a = ws_skip_from(s, 0);
    let b = ws_end_before(s, s.len() as int);
    if a < b {
        s.subrange(a, b)
    } else {
        Seq::empty()
    }
}

/// The index of the first character at or after `i` that differs from `c`.
pub open spec fn char_skip_from(s: Seq<char>, c: char, i: int) -> int
    decreases s.len() - i,
{
    if i < 0 || i >= s.len() {
        s.len() as int
    } else if s[i] != c {
        i
    } else {
        char_skip_from(s, c, i + 1)
    }
}

/// The end of `s[..j]` once the copies of `c` at its end are removed.
pub open spec fn char_end_before(s: Seq<char>, c: char, j: int) -> int
    decreases j,
{
    if j <= 0 || j > s.len() {
        0
    } else if s[j - 1] != c {
        j
    } else {
        char_end_before(s, c, j - 1)
    }
}

/// `str::trim_start_matches(c)`: `s` without the copies of `c` at its start.
pub open spec fn trim_start_char(s: Seq<char>, c: char) -> Seq<char> {
    s.subrange(char_skip_from(s, c, 0), s.len() as int)
}

/// `str::trim_matches(c)`: `s` without the copies of `c` at either end.
pub open spec fn trim_char(s: Seq<char>, c: char) -> Seq<char> {
    let a = char_skip_from(s, c, 0);
    let b = char_end_before(s, c, s.len() as int);
    if a < b {
        s.subrange(a, b)
    } else {
        Seq::empty()
    }
}

proof fn lemma_ws_skip_bounds(s: Seq<char>, i: int)
    requires
        0 <= i <= s.len(),
    ensures
        i <= ws_skip_from(s, i) <= s.len(),
        ws_skip_from(s, i) < s.len() ==> !is_ws(s[ws_skip_from(s, i)]),
    decreases s.len() - i,
{
    if i < s.len() && is_ws(s[i]) {
        lemma_ws_skip_bounds(s, i + 1);
    }
}

proof fn lemma_ws_end_bounds(s: Seq<char>, j: int)
    requires
        0 <= j <= s.len(),
    ensures
        0 <= ws_end_before(s, j) <= j,
    decreases j,
{
    if j > 0 && is_ws(s[j - 1]) {
        lemma_ws_end_bounds(s, j - 1);
    }
}

proof fn lemma_char_skip_bounds(s: Seq<char>, c: char, i: int)
    requires
        0 <= i <= s.len(),
    ensures
        i <= char_skip_from(s, c, i) <= s.len(),
    decreases s.len() - i,
{
    if i < s.len() && s[i] == c {
        lemma_char_skip_bounds(s, c, i + 1);
    }
}

proof fn lemma_char_end_bounds(s: Seq<char>, c: char, j: int)
    requires
        0 <= j <= s.len(),
    ensures
        0 <= char_end_before(s, c, j) <= j,
    decreases j,
{
    if j > 0 && s[j - 1] == c {
        lemma_char_end_bounds(s, c, j - 1);
    }
}

/// The characters `v[lo..hi]`.
pub fn slice_chars(v: &Vec<char>, lo: usize, hi: usize) -> (r: Vec<char>)
    requires
        lo <= hi <= v.len(),
    ensures
        r@ == v@.subrange(lo as int, hi as int),
{
    let mut r: Vec<char> = Vec::new();
    let mut k: usize = lo;
    while k < hi
        invariant
            lo <= k <= hi <= v.len(),
            r@ == v@.subrange(lo as int, k as int),
        decreases hi - k,
    {
        r.push(v[k]);
        k = k + 1;
    }
    r
}

fn ws_skip(v: &Vec<char>) -> (i: usize)
    ensures
        i as int == ws_skip_from(v@, 0),
{
    let mut i: usize = 0;
    while i < v.len() && is_whitespace(v[i])
        invariant
            i <= v.len(),
            ws_skip_from(v@, 0) == ws_skip_from(v@, i as int),
        decreases v.len() - i,
    {
        i = i + 1;
    }
    i
}

fn ws_end(v: &Vec<char>) -> (j: usize)
    ensures
        j as int == ws_end_before(v@, v@.len() as int),
{
    let mut j: usize = v.len();
    while j > 0 && is_whitespace(v[j - 1])
        invariant
            j <= v.len(),
            ws_end_before(v@, v@.len() as int) == ws_end_before(v@, j as int),
        decreases j,
    {
        j = j - 1;
    }
    j
}

/// `str::trim` on a character vector.
pub fn trim(v: &Vec<char>) -> (r: Vec<char>)
    ensures
        r@ == trim_ws(v@),
{
    let a = ws_skip(v);
    let b = ws_end(v);
    proof {
        lemma_ws_skip_bounds(v@, 0);
        lemma_ws_end_bounds(v@, v@.len() as int);
    }
    if a < b {
        slice_chars(v, a, b)
    } else {
        Vec::new()
    }
}

fn char_skip(v: &Vec<char>, c: char) -> (i: usize)
    ensures
        i as int == char_skip_from(v@, c, 0),
{
    let mut i: usize = 0;
    while i < v.len() && v[i] == c
        invariant
            i <= v.len(),
            char_skip_from(v@, c, 0) == char_skip_from(v@, c, i as int),
        decreases v.len() - i,
    {
        i = i + 1;
    }
    i
}

fn char_end(v: &Vec<char>, c: char) -> (j: usize)
    ensures
        j as int == char_end_before(v@, c, v@.len() as int),
{
    let mut j: usize = v.len();
    while j > 0 && v[j - 1] == c
        invariant
            j <= v.len(),
            char_end_before(v@, c, v@.len() as int) == char_end_before(v@, c, j as int),
        decreases j,
    {
        j = j - 1;
    }
    j
}

/// `str::trim_start_matches(c)` on a character vector.
pub fn trim_start_matches(v: &Vec<char>, c: char) -> (r: Vec<char>)
    ensures
        r@ == trim_start_char(v@, c),
{
    let a = char_skip(v, c);
    proof {
        lemma_char_skip_bounds(v@, c, 0);
    }
    slice_chars(v, a, v.len())
}

/// `str::trim_matches(c)` on a character vector.
pub fn trim_matches(v: &Vec<char>, c: char) -> (r: Vec<char>)
    ensures
        r@ == trim_char(v@, c),
{
    let a = char_skip(v, c);
    let b = char_end(v, c);
    proof {
        lemma_char_skip_bounds(v@, c, 0);
        lemma_char_end_bounds(v@, c, v@.len() as int);
    }
    if a < b {
        slice_chars(v, a, b)
    } else {
        Vec::new()
    }
}

/// `p` is a prefix of `s`.
pub open spec fn has_prefix(s: Seq<char>, p: Seq<char>) -> bool {
    p.len() <= s.len() && s.subrange(0, p.len() as int) == p
}

pub fn starts_with(v: &Vec<char>, p: &Vec<char>) -> (b: bool)
    ensures
        b == has_prefix(v@, p@),
{
    if p.len() > v.len() {
        return false;
    }
    let mut k: usize = 0;
    while k < p.len()
        invariant
            k <= p.len() <= v.len(),
            forall|m: int| 0 <= m < k ==> v@[m] == p@[m],
        decreases p.len() - k,
    {
        if v[k] != p[k] {
            assert(v@.subrange(0, p@.len() as int)[k as int] != p@[k as int]);
            return false;
        }
        k = k + 1;
    }
    assert(v@.subrange(0, p@.len() as int) =~= p@);
    true
}

/// Equality of two character vectors.
pub fn chars_eq(a: &Vec<char>, b: &Vec<char>) -> (r: bool)
    ensures
        r == (a@ == b@),
{
    if a.len() != b.len() {
        return false;
    }
    let mut k: usize = 0;
    while k < a.len()
        invariant
            k <= a.len() == b.len(),
            forall|m: int| 0 <= m < k ==> a@[m] == b@[m],
        decreases a.len() - k,
    {
        if a[k] != b[k] {
            return false;
        }
        k = k + 1;
    }
    assert(a@ =~= b@);
    true
}

/// Equality of two strings, by their characters.
pub fn str_eq(a: &str, b: &str) -> (r: bool)
    ensures
        r == (a@ == b@),
{
    chars_eq(&chars_of(a), &chars_of(b))
}

/// The index of the first `c` in `s` at or after `i`, or `s.len()`.
pub open spec fn find_from(s: Seq<char>, c: char, i: int) -> int
    decreases s.len() - i,
{
    if i < 0 || i >= s.len() {
        s.len() as int
    } else if s[i] == c {
        i
    } else {
        find_from(s, c, i + 1)
    }
}

pub proof fn lemma_find_from(s: Seq<char>, c: char, i: int)
    requires
        0 <= i <= s.len(),
    ensures
        i <= find_from(s, c, i) <= s.len(),
        forall|k: int| i <= k < find_from(s, c, i) ==> s[k] != c,
        find_from(s, c, i) < s.len() ==> s[find_from(s, c, i)] == c,
    decreases s.len() - i,
{
    if i < s.len() && s[i] != c {
        lemma_find_from(s, c, i + 1);
    }
}

/// The index of the first `c` in `v` at or after `i`, or `v.len()`.
pub fn find_char_from(v: &Vec<char>, c: char, i: usize) -> (r: usize)
    requires
        i <= v.len(),
    ensures
        r as int == find_from(v@, c, i as int),
{
    let mut k: usize = i;
    while k < v.len() && v[k] != c
        invariant
            i <= k <= v.len(),
            find_from(v@, c, i as int) == find_from(v@, c, k as int),
        decreases v.len() - k,
    {
        k = k + 1;
    }
    k
}

/// `str::split_once(c)`: the text before and after the first `c`.
pub open spec fn split_once_at(s: Seq<char>, c: char) -> Option<(Seq<char>, Seq<char>)> {
    let i = find_from(s, c, 0);
    if 0 <= i < s.len() {
        Some((s.subrange(0, i), s.subrange(i + 1, s.len() as int)))
    } else {
        None
    }
}

/// `str::split_once(c)` on a character vector.
pub fn split_once(v: &Vec<char>, c: char) -> (r: Option<(Vec<char>, Vec<char>)>)
    ensures
        match r {
            Some((a, b)) => split_once_at(v@, c) == Some((a@, b@)),
            None => split_once_at(v@, c) is None,
        },
{
    let i = find_char_from(v, c, 0);
    proof {
        lemma_find_from(v@, c, 0);
    }
    if i == v.len() {
        return None;
    }
    Some((slice_chars(v, 0, i), slice_chars(v, i + 1, v.len())))
}

/// Every character of `s` is an ASCII hexadecimal digit.
pub open spec fn all_hex(s: Seq<char>) -> bool {
    forall|k: int| 0 <= k < s.len() ==> is_hex(#[trigger] s[k])
}

pub fn all_ascii_hexdigits(v: &Vec<char>) -> (b: bool)
    ensures
        b == all_hex(v@),
{
    let mut k: usize = 0;
    while k < v.len()
        invariant
            k <= v.len(),
            forall|m: int| 0 <= m < k ==> is_hex(#[trigger] v@[m]),
        decreases v.len() - k,
    {
        if !is_ascii_hexdigit(v[k]) {
            return false;
        }
        k = k + 1;
    }
    true
}

/// `p` occurs in `s` at position `i`.
pub open spec fn occurs_at(s: Seq<char>, p: Seq<char>, i: int) -> bool {
    0 <= i && i + p.len() <= s.len() && s.subrange(i, i + p.len()) == p
}

/// `str::contains` with a string pattern.
pub open spec fn contains_seq(s: Seq<char>, p: Seq<char>) -> bool {
    exists|i: int| occurs_at(s, p, i)
}

fn occurs_at_exec(s: &Vec<char>, p: &Vec<char>, i: usize) -> (b: bool)
    requires
        i + p.len() <= s.len(),
    ensures
        b == occurs_at(s@, p@, i as int),
{
    let mut k: usize = 0;
    while k < p.len()
        invariant
            k <= p.len(),
            i + p.len() <= s.len(),
            forall|j: int| 0 <= j < k ==> s@[i + j] == p@[j],
        decreases p.len() - k,
    {
        if s[i + k] != p[k] {
            assert(s@.subrange(i as int, i + p.len())[k as int] != p@[k as int]);
            return false;
        }
        k = k + 1;
    }
    assert(s@.subrange(i as int, i + p.len()) =~= p@);
    true
}

/// Whether `p` occurs in `s`.
pub fn contains_chars(s: &Vec<char>, p: &Vec<char>) -> (b: bool)
    ensures
        b == contains_seq(s@, p@),
{
    if p.len() > s.len() {
        return false;
    }
    let last = s.len() - p.len();
    let mut i: usize = 0;
    loop
        invariant
            p.len() <= s.len(),
            last == s.len() - p.len(),
            i <= last,
            forall|j: int| 0 <= j < i ==> !occurs_at(s@, p@, j),
        ensures
            forall|j: int| 0 <= j <= last ==> !occurs_at(s@, p@, j),
        decreases last - i,
    {
        if occurs_at_exec(s, p, i) {
            return true;
        }
        if i == last {
            break;
        }
        i = i + 1;
    }
    false
}

/// The index of the first whitespace character at or after `i`, or the
/// length of `s`.
pub open spec fn ws_find_from(s: Seq<char>, i: int) -> int
    decreases s.len() - i,
{
    if i < 0 || i >= s.len() {
        s.len() as int
    } else if is_ws(s[i]) {
        i
    } else {
        ws_find_from(s, i + 1)
    }
}

pub proof fn lemma_ws_find_bounds(s: Seq<char>, i: int)
    requires
        0 <= i <= s.len(),
    ensures
        i <= ws_find_from(s, i) <= s.len(),
        forall|k: int| i <= k < ws_find_from(s, i) ==> !is_ws(#[trigger] s[k]),
        ws_find_from(s, i) < s.len() ==> is_ws(s[ws_find_from(s, i)]),
    decreases s.len() - i,
{
    if i < s.len() && !is_ws(s[i]) {
        lemma_ws_find_bounds(s, i + 1);
    }
}

pub proof fn lemma_ws_skip_range(s: Seq<char>, i: int)
    requires
        0 <= i <= s.len(),
    ensures
        i <= ws_skip_from(s, i) <= s.len(),
        ws_skip_from(s, i) < s.len() ==> !is_ws(s[ws_skip_from(s, i)]),
    decreases s.len() - i,
{
    if i < s.len() && is_ws(s[i]) {
        lemma_ws_skip_range(s, i + 1);
    }
}

/// `str::split_whitespace`: the maximal runs of non-whitespace characters of
/// `s[i..]`, in order.
pub open spec fn words_from(s: Seq<char>, i: int) -> Seq<Seq<char>>
    decreases s.len() - i,
{
    if i < 0 || i >= s.len() {
        Seq::empty()
    } else {
        let a = ws_skip_from(s, i);
        proof {
            lemma_ws_skip_range(s, i);
        }
        if a >= s.len() {
            Seq::empty()
        } else {
            let b = ws_find_from(s, a);
            proof {
                lemma_ws_find_bounds(s, a);
            }
            seq![s.subrange(a, b)] + words_from(s, b)
        }
    }
}

/// The words of `s` (see `words_from`).
pub open spec fn split_ws(s: Seq<char>) -> Seq<Seq<char>> {
    words_from(s, 0)
}

/// Splits a character vector at whitespace (see `split_ws`).
pub fn split_whitespace(v: &Vec<char>) -> (r: Vec<Vec<char>>)
    ensures
        r@.map_values(|w: Vec<char>| w@) == split_ws(v@),
{
    let mut out: Vec<Vec<char>> = Vec::new();
    let mut i: usize = 0;
    while i < v.len()
        invariant
            i <= v.len(),
            out@.map_values(|w: Vec<char>| w@) + words_from(v@, i as int) == split_ws(v@),
        decreases v.len() - i,
    {
        let ghost i0 = i as int;
        proof {
            lemma_ws_skip_range(v@, i0);
        }
        let mut a: usize = i;
        while a < v.len() && is_whitespace(v[a])
            invariant
                i0 <= a <= v.len(),
                ws_skip_from(v@, i0) == ws_skip_from(v@, a as int),
            decreases v.len() - a,
        {
            a = a + 1;
        }
        if a >= v.len() {
            assert(words_from(v@, i0) =~= Seq::<Seq<char>>::empty());
            i = v.len();
            assert(words_from(v@, i as int) =~= Seq::<Seq<char>>::empty());
        } else {
            proof {
                lemma_ws_find_bounds(v@, a as int);
            }
            let mut b: usize = a;
            while b < v.len() && !is_whitespace(v[b])
                invariant
                    a <= b <= v.len(),
                    ws_find_from(v@, a as int) == ws_find_from(v@, b as int),
                decreases v.len() - b,
            {
                b = b + 1;
            }
            let ghost before = out@;
            out.push(slice_chars(v, a, b));
            assert(out@.map_values(|w: Vec<char>| w@) =~= before.map_values(|w: Vec<char>| w@).push(
                v@.subrange(a as int, b as int),
            ));
            assert(words_from(v@, i0) == seq![v@.subrange(a as int, b as int)] + words_from(v@, b as int));
            assert(before.map_values(|w: Vec<char>| w@).push(v@.subrange(a as int, b as int)) + words_from(
                v@,
                b as int,
            ) =~= before.map_values(|w: Vec<char>| w@) + (seq![v@.subrange(a as int, b as int)]
                + words_from(v@, b as int)));
            i = b;
        }
    }
    assert(words_from(v@, i as int) =~= Seq::<Seq<char>>::empty());
    assert(out@.map_values(|w: Vec<char>| w@) + Seq::<Seq<char>>::empty() =~= out@.map_values(
        |w: Vec<char>| w@,
    ));
    out
}

/// `s` with every `from` replaced by `to`.
pub open spec fn replace_char(s: Seq<char>, from: char, to: char) -> Seq<char> {
    s.map_values(|c: char| if c == from { to } else { c })
}

/// Replaces every `from` by `to` (see `replace_char`).
pub fn replace_chars(v: &Vec<char>, from: char, to: char) -> (r: Vec<char>)
    ensures
        r@ == replace_char(v@, from, to),
{
    let mut out: Vec<char> = Vec::new();
    let mut k: usize = 0;
    while k < v.len()
        invariant
            k <= v.len(),
            out@ == replace_char(v@.take(k as int), from, to),
        decreases v.len() - k,
    {
        out.push(if v[k] == from { to } else { v[k] });
        assert(v@.take(k + 1) =~= v@.take(k as int).push(v@[k as int]));
        assert(out@ =~= replace_char(v@.take(k + 1), from, to));
        k = k + 1;
    }
    assert(v@.take(v@.len() as int) =~= v@);
    out
}

/// What `str::to_lowercase` returns for the text (the Unicode lowercase
/// mapping, which takes pages to state).
pub uninterp spec fn lowercase_of(s: Seq<char>) -> Seq<char>;

/// Calls `str::to_lowercase`.
#[verifier::external_body]
pub(crate) fn to_lowercase(s: &str) -> (r: String)
    ensures
        r@ == lowercase_of(s@),
{
    s.to_lowercase()
}

} // verus!
