//! Release versions and flake revisions: which strings are acceptable, and
//! how two dotted release versions are ordered.
use vstd::prelude::*;
use crate::numparse::{parse_u32_chars, parse_unsigned};
use crate::text::{
    all_ascii_hexdigits, all_hex, chars_of, find_char_from, find_from, is_alnum,
    lemma_find_from, slice_chars, string_from, trim_start_char, trim_start_matches,
};

verus! {

/// `str::split(c)`: the pieces of `s` between the copies of `c`.
pub open spec fn split_char(s: Seq<char>, c: char) -> Seq<Seq<char>>
    decreases s.len(),
{
    let i = find_from(s, c, 0);
    proof {
        lemma_find_from(s, c, 0);
    }
    if i >= s.len() {
        seq![s]
    } else {
        seq![s.subrange(0, i)].add(split_char(s.subrange(i + 1, s.len() as int), c))
    }
}

proof fn lemma_find_shift(s: Seq<char>, c: char, a: int, i: int)
    requires
        0 <= a <= i <= s.len(),
    ensures
        find_from(s.subrange(a, s.len() as int), c, i - a) == find_from(s, c, i) - a,
    decreases s.len() - i,
{
    let t = s.subrange(a, s.len() as int);
    if i < s.len() {
        assert(t[i - a] == s[i]);
        if s[i] != c {
            lemma_find_shift(s, c, a, i + 1);
        }
    }
}

pub open spec fn views(v: Seq<Vec<char>>) -> Seq<Seq<char>> {
    v.map_values(|x: Vec<char>| x@)
}

/// `str::split(c)` on a character vector.
pub fn split_on(v: &Vec<char>, c: char) -> (r: Vec<Vec<char>>)
    ensures
        views(r@) == split_char(v@, c),
{
    let mut pieces: Vec<Vec<char>> = Vec::new();
    let mut start: usize = 0;
    assert(v@.subrange(0, v@.len() as int) =~= v@);
    assert(views(pieces@) + split_char(v@, c) =~= split_char(v@, c));
    loop
        invariant
            start <= v.len(),
            split_char(v@, c) == views(pieces@) + split_char(
                v@.subrange(start as int, v@.len() as int),
                c,
            ),
        decreases v.len() - start,
    {
        let ghost rest = v@.subrange(start as int, v@.len() as int);
        let i = find_char_from(v, c, start);
        proof {
            lemma_find_from(v@, c, start as int);
            lemma_find_shift(v@, c, start as int, start as int);
            assert(rest.subrange(0, 0) =~= rest.subrange(0, 0));
        }
        let piece = slice_chars(v, start, i);
        let ghost old_pieces = pieces@;
        pieces.push(piece);
        assert(views(pieces@) =~= views(old_pieces).push(piece@));
        if i == v.len() {
            assert(rest.subrange(0, (i - start) as int) =~= rest);
            assert(split_char(rest, c) == seq![rest]);
            assert(piece@ =~= rest);
            assert(views(old_pieces) + seq![rest] =~= views(pieces@));
            return pieces;
        }
        proof {
            let j = (i - start) as int;
            assert(find_from(rest, c, 0) == j);
            assert(rest.subrange(0, j) =~= piece@);
            assert(rest.subrange(j + 1, rest.len() as int) =~= v@.subrange(
                i + 1,
                v@.len() as int,
            ));
            assert(split_char(rest, c) == seq![piece@].add(
                split_char(v@.subrange(i + 1, v@.len() as int), c),
            ));
            assert(views(old_pieces) + (seq![piece@] + split_char(
                v@.subrange(i + 1, v@.len() as int),
                c,
            )) =~= views(pieces@) + split_char(v@.subrange(i + 1, v@.len() as int), c));
        }
        start = i + 1;
    }
}

/// The numbers that the pieces spell, skipping those that are not a `u32`:
/// `pieces.filter_map(|p| p.parse::<u32>().ok())`.
pub open spec fn parsed_parts(pieces: Seq<Seq<char>>) -> Seq<int>
    decreases pieces.len(),
{
    if pieces.len() == 0 {
        Seq::empty()
    } else {
        let front = parsed_parts(pieces.drop_last());
        match parse_unsigned(pieces.last(), u32::MAX as int) {
            Some(x) => front.push(x),
            None => front,
        }
    }
}

/// The numeric parts of a dotted version string.
pub open spec fn version_parts(v: Seq<char>) -> Seq<int> {
    parsed_parts(split_char(v, '.'))
}

/// The `i`-th part of a version, zero past its end.
pub open spec fn part_at(p: Seq<int>, i: int) -> int {
    if 0 <= i < p.len() {
        p[i]
    } else {
        0
    }
}

pub open spec fn max_len(a: Seq<int>, b: Seq<int>) -> int {
    if a.len() >= b.len() {
        a.len() as int
    } else {
        b.len() as int
    }
}

/// Whether `b` is newer than `a`, comparing parts from index `i` on.
pub open spec fn newer_from(a: Seq<int>, b: Seq<int>, i: int) -> bool
    decreases max_len(a, b) - i,
{
    if i < 0 || i >= max_len(a, b) {
        false
    } else if part_at(b, i) > part_at(a, i) {
        true
    } else if part_at(b, i) < part_at(a, i) {
        false
    } else {
        newer_from(a, b, i + 1)
    }
}

/// Version `v2` is newer than version `v1`.
pub open spec fn is_newer(v1: Seq<char>, v2: Seq<char>) -> bool {
    newer_from(version_parts(v1), version_parts(v2), 0)
}

/// The values of `s` as mathematical integers.
pub open spec fn as_ints(s: Seq<u32>) -> Seq<int> {
    s.map_values(|x: u32| x as int)
}

fn version_numbers(v: &str) -> (r: Vec<u32>)
    ensures
        as_ints(r@) == version_parts(v@),
{
    let pieces = split_on(&chars_of(v), '.');
    let mut parts: Vec<u32> = Vec::new();
    let mut k: usize = 0;
    while k < pieces.len()
        invariant
            k <= pieces.len(),
            as_ints(parts@) == parsed_parts(
                views(pieces@).subrange(0, k as int),
            ),
        decreases pieces.len() - k,
    {
        let ghost pre = views(pieces@).subrange(0, k as int);
        let ghost next = views(pieces@).subrange(0, k + 1);
        assert(next.drop_last() =~= pre);
        assert(next.last() == pieces@[k as int]@);
        let ghost old_parts = parts@;
        match parse_u32_chars(&pieces[k]) {
            Some(x) => {
                parts.push(x);
                assert(as_ints(parts@) =~= as_ints(old_parts).push(x as int));
            },
            None => {},
        }
        k = k + 1;
    }
    assert(views(pieces@).subrange(0, pieces@.len() as int) =~= views(pieces@));
    parts
}

/// Returns true exactly when release `v2` is newer than release `v1`: the
/// dot-separated parts that are `u32` numbers are compared left to right,
/// a missing part counting as zero.
pub fn version_compare(v1: &str, v2: &str) -> (r: bool)
    ensures
        r == is_newer(v1@, v2@),
{
    let p1 = version_numbers(v1);
    let p2 = version_numbers(v2);
    let ghost a = as_ints(p1@);
    let ghost b = as_ints(p2@);
    let n = if p1.len() >= p2.len() {
        p1.len()
    } else {
        p2.len()
    };
    let mut i: usize = 0;
    while i < n
        invariant
            i <= n,
            a == version_parts(v1@),
            b == version_parts(v2@),
            n == max_len(a, b),
            a.len() == p1.len(),
            b.len() == p2.len(),
            forall|j: int| 0 <= j < p1.len() ==> a[j] == p1@[j] as int,
            forall|j: int| 0 <= j < p2.len() ==> b[j] == p2@[j] as int,
            newer_from(a, b, 0) == newer_from(a, b, i as int),
        decreases n - i,
    {
        let x1: u32 = if i < p1.len() {
            p1[i]
        } else {
            0
        };
        let x2: u32 = if i < p2.len() {
            p2[i]
        } else {
            0
        };
        assert(part_at(a, i as int) == x1 as int);
        assert(part_at(b, i as int) == x2 as int);
        if x2 > x1 {
            return true;
        } else if x2 < x1 {
            return false;
        }
        i = i + 1;
    }
    false
}

/// A version is never newer than itself.
pub proof fn lemma_newer_irreflexive(v: Seq<char>)
    ensures
        !is_newer(v, v),
{
    lemma_newer_from_irreflexive(version_parts(v), 0);
}

proof fn lemma_newer_from_irreflexive(a: Seq<int>, i: int)
    ensures
        !newer_from(a, a, i),
    decreases max_len(a, a) - i,
{
    if 0 <= i < max_len(a, a) {
        lemma_newer_from_irreflexive(a, i + 1);
    }
}

proof fn lemma_newer_from_asymmetric(a: Seq<int>, b: Seq<int>, i: int)
    requires
        newer_from(a, b, i),
    ensures
        !newer_from(b, a, i),
    decreases max_len(a, b) - i,
{
    assert(max_len(a, b) == max_len(b, a));
    if 0 <= i < max_len(a, b) && part_at(b, i) == part_at(a, i) {
        lemma_newer_from_asymmetric(a, b, i + 1);
    }
}

/// If `v2` is newer than `v1`, then `v1` is not newer than `v2`.
pub proof fn lemma_newer_asymmetric(v1: Seq<char>, v2: Seq<char>)
    requires
        is_newer(v1, v2),
    ensures
        !is_newer(v2, v1),
{
    lemma_newer_from_asymmetric(version_parts(v1), version_parts(v2), 0);
}

/// Past the end of both part lists, nothing is newer.
/// The parts of `a`, `b` and `c` agree before index `i`, and `b` is newer than
/// `a` and `c` newer than `b` from `i` on; then `c` is newer than `a` from `i` on.
proof fn lemma_newer_from_transitive(a: Seq<int>, b: Seq<int>, c: Seq<int>, i: int)
    requires
        0 <= i,
        newer_from(a, b, i),
        newer_from(b, c, i),
    ensures
        newer_from(a, c, i),
    decreases max_len(a, b) + max_len(b, c) + max_len(a, c) - 3 * i,
{
    if i >= max_len(a, c) {
        // then a and c are zero from i on, and b cannot rise above a and come back
        assert(i < max_len(a, b));
        assert(i < max_len(b, c));
        lemma_zero_tail_not_both(a, b, c, i);
    } else if part_at(b, i) > part_at(a, i) {
        assert(part_at(c, i) >= part_at(b, i));
        if part_at(c, i) == part_at(b, i) {
            assert(part_at(c, i) > part_at(a, i));
        }
    } else {
        assert(part_at(b, i) == part_at(a, i));
        if part_at(c, i) > part_at(b, i) {
        } else {
            assert(part_at(c, i) == part_at(b, i));
            assert(newer_from(a, b, i + 1));
            assert(newer_from(b, c, i + 1));
            lemma_newer_from_transitive(a, b, c, i + 1);
        }
    }
}

/// When `a` and `c` have no parts left at `i`, `b` cannot be both newer than
/// `a` and older than `c` from `i` on.
proof fn lemma_zero_tail_not_both(a: Seq<int>, b: Seq<int>, c: Seq<int>, i: int)
    requires
        0 <= i,
        i >= a.len(),
        i >= c.len(),
    ensures
        !(newer_from(a, b, i) && newer_from(b, c, i)),
    decreases max_len(a, b) + max_len(b, c) - 2 * i,
{
    if newer_from(a, b, i) && newer_from(b, c, i) {
        assert(part_at(a, i) == 0);
        assert(part_at(c, i) == 0);
        assert(part_at(b, i) == 0);
        lemma_zero_tail_not_both(a, b, c, i + 1);
    }
}

/// The version order is transitive.
pub proof fn lemma_newer_transitive(v1: Seq<char>, v2: Seq<char>, v3: Seq<char>)
    requires
        is_newer(v1, v2),
        is_newer(v2, v3),
    ensures
        is_newer(v1, v3),
{
    lemma_newer_from_transitive(version_parts(v1), version_parts(v2), version_parts(v3), 0);
}

/// A flake revision: exactly forty hexadecimal digits.
pub open spec fn is_sha(s: Seq<char>) -> bool {
    s.len() == 40 && all_hex(s)
}

/// Whether `rev` is a full git commit hash: forty hexadecimal digits. (As the
/// digits are ASCII, the character count and the byte length agree.)
pub fn is_valid_sha(rev: &str) -> (b: bool)
    ensures
        b == is_sha(rev@),
{
    let v = chars_of(rev);
    v.len() == 40 && all_ascii_hexdigits(&v)
}

/// A character allowed in a release version: ASCII letter, digit, `.` or `-`.
pub open spec fn version_char(c: char) -> bool {
    is_alnum(c) || c == '.' || c == '-'
}

/// A release version that an update may target: without its leading `v`s it
/// is non-empty and made of ASCII letters, digits, `.` and `-`.
pub open spec fn valid_version(s: Seq<char>) -> bool {
    let v = trim_start_char(s, 'v');
    v.len() > 0 && forall|k: int| 0 <= k < v.len() ==> version_char(#[trigger] v[k])
}

pub fn is_valid_version(version: &str) -> (b: bool)
    ensures
        b == valid_version(version@),
{
    let v = trim_start_matches(&chars_of(version), 'v');
    if v.len() == 0 {
        return false;
    }
    let mut k: usize = 0;
    while k < v.len()
        invariant
            k <= v.len(),
            v@ == trim_start_char(version@, 'v'),
            forall|m: int| 0 <= m < k ==> version_char(#[trigger] v@[m]),
        decreases v.len() - k,
    {
        let c = v[k];
        let ok = ('0' <= c && c <= '9') || ('a' <= c && c <= 'z') || ('A' <= c && c <= 'Z') || c
            == '.' || c == '-';
        if !ok {
            assert(!version_char(trim_start_char(version@, 'v')[k as int]));
            return false;
        }
        k = k + 1;
    }
    true
}

/// A version without its leading `v`s: `version.trim_start_matches('v')`.
pub fn strip_v(version: &str) -> (r: String)
    ensures
        r@ == trim_start_char(version@, 'v'),
{
    string_from(trim_start_matches(&chars_of(version), 'v').as_slice())
}

/// The git tag of a release: `v` followed by the version without its leading `v`s.
pub fn release_tag(version: &str) -> (r: String)
    ensures
        r@ == seq!['v'] + trim_start_char(version@, 'v'),
{
    let mut t: Vec<char> = Vec::new();
    t.push('v');
    let mut rest = trim_start_matches(&chars_of(version), 'v');
    t.append(&mut rest);
    string_from(t.as_slice())
}

} // verus!
