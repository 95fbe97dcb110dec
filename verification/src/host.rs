//! What the agent reads from its host: `/etc/os-release` fields, the block
//! devices worth reporting, their media type and SMART health.
use vstd::prelude::*;
use crate::text::{
    chars_of, find_char_from, find_from, has_prefix, lemma_find_from, slice_chars, split_once,
    split_once_at, starts_with, string_from, trim, trim_char, trim_matches, trim_ws,
};

verus! {

/// A line without the `\r` of a `\r\n` ending.
pub open spec fn strip_cr(s: Seq<char>) -> Seq<char> {
    if s.len() > 0 && s.last() == '\r' {
        s.drop_last()
    } else {
        s
    }
}

/// `str::lines`: the text split at `\n`, a `\r` before the `\n` dropped, and
/// no empty line after a final `\n`.
pub open spec fn lines_of(s: Seq<char>) -> Seq<Seq<char>>
    decreases s.len(),
{
    if s.len() == 0 {
        Seq::empty()
    } else {
        let i = find_from(s, '\n', 0);
        proof {
            lemma_find_from(s, '\n', 0);
        }
        if i >= s.len() {
            seq![s]
        } else {
            seq![strip_cr(s.subrange(0, i))].add(lines_of(s.subrange(i + 1, s.len() as int)))
        }
    }
}

/// The first of the lines that starts with `p`.
pub open spec fn first_with_prefix(ls: Seq<Seq<char>>, p: Seq<char>) -> Option<Seq<char>>
    decreases ls.len(),
{
    if ls.len() == 0 {
        None
    } else if has_prefix(ls[0], p) {
        Some(ls[0])
    } else {
        first_with_prefix(ls.drop_first(), p)
    }
}

/// The value of an `os-release` field: the first line that starts with the
/// field name, the text after its first `=`, without surrounding `"`.
pub open spec fn os_release_value(content: Seq<char>, field: Seq<char>) -> Option<Seq<char>> {
    match first_with_prefix(lines_of(content), field) {
        None => None,
        Some(line) => match split_once_at(line, '=') {
            None => None,
            Some((_, v)) => Some(trim_char(v, '"')),
        },
    }
}

proof fn lemma_find_shift(s: Seq<char>, c: char, a: int, i: int)
    requires
        0 <= a <= i <= s.len(),
    ensures
        find_from(s.subrange(a, s.len() as int), c, i - a) == find_from(s, c, i) - a,
    decreases s.len() - i,
{
    let t = s.subrange(a, s.len() as int);
    if i < s.len() {
        assert(t[i - a] == s[i]);
        if s[i] != c {
            lemma_find_shift(s, c, a, i + 1);
        }
    }
}

/// Reads an `os-release` field, as the agent does to learn the node's OS:
/// the first line that starts with `field` (so `ID` also matches an `ID_LIKE`
/// line that comes first), the value after its first `=`, quotes trimmed.
pub fn parse_os_release_field(content: &str, field: &str) -> (r: Option<String>)
    ensures
        match r {
            Some(v) => os_release_value(content@, field@) == Some(v@),
            None => os_release_value(content@, field@) is None,
        },
{
    let v = chars_of(content);
    let f = chars_of(field);
    let mut start: usize = 0;
    assert(v@.subrange(0, v@.len() as int) =~= v@);
    loop
        invariant
            start <= v.len(),
            f@ == field@,
            v@ == content@,
            first_with_prefix(lines_of(v@), f@) == first_with_prefix(
                lines_of(v@.subrange(start as int, v@.len() as int)),
                f@,
            ),
        decreases v.len() - start,
    {
        let ghost rest = v@.subrange(start as int, v@.len() as int);
        if start == v.len() {
            assert(rest.len() == 0);
            assert(os_release_value(content@, field@) is None);
            return None;
        }
        let i = find_char_from(&v, '\n', start);
        proof {
            lemma_find_from(v@, '\n', start as int);
            lemma_find_shift(v@, '\n', start as int, start as int);
        }
        let mut line = slice_chars(&v, start, i);
        if i < v.len() && line.len() > 0 && line[line.len() - 1] == '\r' {
            line.pop();
        }
        let ghost ls = lines_of(rest);
        proof {
            let j = (i - start) as int;
            if i < v.len() {
                assert(rest.subrange(0, j) =~= v@.subrange(start as int, i as int));
                assert(rest.subrange(j + 1, rest.len() as int) =~= v@.subrange(
                    i + 1,
                    v@.len() as int,
                ));
                assert(line@ == strip_cr(rest.subrange(0, j)));
                assert(ls[0] == line@);
                assert(ls.drop_first() =~= lines_of(v@.subrange(i + 1, v@.len() as int)));
            } else {
                assert(v@.subrange(start as int, i as int) =~= rest);
                assert(ls == seq![rest]);
                assert(ls.drop_first() =~= Seq::<Seq<char>>::empty());
            }
        }
        if starts_with(&line, &f) {
            return match split_once(&line, '=') {
                Some((_, value)) => Some(string_from(trim_matches(&value, '"').as_slice())),
                None => None,
            };
        }
        if i == v.len() {
            assert(first_with_prefix(ls.drop_first(), f@) is None);
            return None;
        }
        start = i + 1;
    }
}

/// A block device the agent reports: not a loop or RAM device.
pub open spec fn reported_device(name: Seq<char>) -> bool {
    !has_prefix(name, "loop"@) && !has_prefix(name, "ram"@)
}

/// The names in `names` that are reported devices, in order.
pub open spec fn reported_devices(names: Seq<Seq<char>>) -> Seq<Seq<char>>
    decreases names.len(),
{
    if names.len() == 0 {
        Seq::empty()
    } else if reported_device(names.last()) {
        reported_devices(names.drop_last()).push(names.last())
    } else {
        reported_devices(names.drop_last())
    }
}

pub open spec fn string_views(v: Seq<String>) -> Seq<Seq<char>> {
    v.map_values(|s: String| s@)
}

/// Drops loop and RAM devices from the entries of `/sys/block`.
pub fn filter_block_devices(names: Vec<String>) -> (r: Vec<String>)
    ensures
        string_views(r@) == reported_devices(string_views(names@)),
{
    let lp = chars_of("loop");
    let rm = chars_of("ram");
    let mut out: Vec<String> = Vec::new();
    let mut k: usize = 0;
    while k < names.len()
        invariant
            k <= names.len(),
            lp@ == "loop"@,
            rm@ == "ram"@,
            string_views(out@) == reported_devices(string_views(names@).subrange(0, k as int)),
        decreases names.len() - k,
    {
        let ghost pre = string_views(names@).subrange(0, k as int);
        let ghost next = string_views(names@).subrange(0, k + 1);
        assert(next.drop_last() =~= pre);
        assert(next.last() == names@[k as int]@);
        let n = chars_of(names[k].as_str());
        if !starts_with(&n, &lp) && !starts_with(&n, &rm) {
            let ghost before = out@;
            out.push(names[k].clone());
            assert(string_views(out@) =~= string_views(before).push(names@[k as int]@));
        }
        k = k + 1;
    }
    assert(string_views(names@).subrange(0, names@.len() as int) =~= string_views(names@));
    out
}

/// A `/sys/block` attribute as the agent keeps it: trimmed, and absent when
/// unreadable or empty.
pub open spec fn sys_value(raw: Option<Seq<char>>) -> Option<Seq<char>> {
    match raw {
        None => None,
        Some(s) => if trim_ws(s).len() == 0 {
            None
        } else {
            Some(trim_ws(s))
        },
    }
}

pub open spec fn opt_str_view(o: Option<&str>) -> Option<Seq<char>> {
    match o {
        Some(s) => Some(s@),
        None => None,
    }
}

pub fn normalize_sys_value(raw: Option<&str>) -> (r: Option<String>)
    ensures
        match r {
            Some(v) => sys_value(opt_str_view(raw)) == Some(v@),
            None => sys_value(opt_str_view(raw)) is None,
        },
{
    match raw {
        None => None,
        Some(s) => {
            let t = trim(&chars_of(s));
            if t.len() == 0 {
                None
            } else {
                Some(string_from(t.as_slice()))
            }
        },
    }
}

/// The media type of a device: `nvme` for NVMe devices, else from the
/// `queue/rotational` attribute: `ssd` for `0`, `hdd` for `1`, `unknown` otherwise.
pub open spec fn media_type_spec(device: Seq<char>, rotational: Option<Seq<char>>) -> Seq<char> {
    if has_prefix(device, "nvme"@) {
        "nvme"@
    } else {
        match sys_value(rotational) {
            Some(v) => if v == "0"@ {
                "ssd"@
            } else if v == "1"@ {
                "hdd"@
            } else {
                "unknown"@
            },
            None => "unknown"@,
        }
    }
}

/// The media type of `device`, given the raw content of its
/// `queue/rotational` attribute (`None` when unreadable).
pub fn detect_media_type(device: &str, rotational: Option<&str>) -> (r: String)
    ensures
        r@ == media_type_spec(device@, opt_str_view(rotational)),
{
    if starts_with(&chars_of(device), &chars_of("nvme")) {
        return String::from_str("nvme");
    }
    match normalize_sys_value(rotational) {
        Some(v) => {
            let c = chars_of(v.as_str());
            if crate::text::chars_eq(&c, &chars_of("0")) {
                String::from_str("ssd")
            } else if crate::text::chars_eq(&c, &chars_of("1")) {
                String::from_str("hdd")
            } else {
                String::from_str("unknown")
            }
        },
        None => String::from_str("unknown"),
    }
}

/// One row of `smartctl`'s ATA attribute table: its `id` and raw `value`, each
/// absent when missing or not an unsigned integer.
#[derive(Debug, Clone, Copy, PartialEq, Eq, Structural)]
pub struct SmartAttribute {
    pub id: Option<u64>,
    pub raw_value: Option<u64>,
}

/// The integer part of a disk's SMART report (the temperature, a float, is
/// read beside it).
pub struct SmartSummary {
    pub health: String,
    pub power_on_hours: Option<u64>,
    pub reallocated_sectors: Option<u64>,
}

/// The raw value of the first attribute with id 5 (reallocated sectors).
pub open spec fn reallocated_of(attrs: Seq<SmartAttribute>) -> Option<u64>
    decreases attrs.len(),
{
    if attrs.len() == 0 {
        None
    } else if attrs[0].id == Some(5u64) {
        attrs[0].raw_value
    } else {
        reallocated_of(attrs.drop_first())
    }
}

/// Summarizes `smartctl -j -a` output: no summary without the overall
/// `smart_status.passed` verdict; health `healthy` when passed, `failing`
/// otherwise; the power-on hours; and the reallocated sector count from the
/// attribute table (`attributes` is `None` when the table is missing).
pub fn summarize_smart(
    passed: Option<bool>,
    power_on_hours: Option<u64>,
    attributes: Option<Vec<SmartAttribute>>,
) -> (r: Option<SmartSummary>)
    ensures
        passed is None <==> r is None,
        r matches Some(s) ==> {
            &&& s.health@ == (if passed == Some(true) {
                "healthy"@
            } else {
                "failing"@
            })
            &&& s.power_on_hours == power_on_hours
            &&& s.reallocated_sectors == match attributes {
                Some(a) => reallocated_of(a@),
                None => None,
            }
        },
{
    let health = match passed {
        Some(true) => String::from_str("healthy"),
        Some(false) => String::from_str("failing"),
        None => return None,
    };
    let reallocated_sectors = match attributes {
        None => None,
        Some(a) => {
            let mut k: usize = 0;
            let mut found: Option<u64> = None;
            assert(a@.subrange(0, a@.len() as int) =~= a@);
            while k < a.len()
                invariant_except_break
                    k <= a.len(),
                    found is None,
                    reallocated_of(a@) == reallocated_of(a@.subrange(k as int, a@.len() as int)),
                ensures
                    found == reallocated_of(a@),
                decreases a.len() - k,
            {
                let ghost rest = a@.subrange(k as int, a@.len() as int);
                assert(rest.drop_first() =~= a@.subrange(k + 1, a@.len() as int));
                if a[k].id == Some(5u64) {
                    found = a[k].raw_value;
                    break;
                }
                k = k + 1;
            }
            found
        },
    };
    Some(SmartSummary { health, power_on_hours, reallocated_sectors })
}

} // verus!
