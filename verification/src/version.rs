//! FMOD version strings: `product.major.minor`, each part a decimal `u8`.

use vstd::prelude::*;
use vstd::string::StrSliceExecFns;
use vstd::string::StringExecFns;
use crate::text::{decimal, decimal_pad2, push_decimal, push_decimal_pad2, push_str};

verus! {

/// Whether `c` is an ASCII decimal digit.
pub open spec fn is_digit(c: char) -> bool {
    '0' <= c <= '9'
}

/// The number a non-empty run of decimal digits denotes.
pub open spec fn digits_value(s: Seq<char>) -> int
    decreases s.len(),
{
    if s.len() == 0 {
        0
    } else {
        digits_value(s.drop_last()) * 10 + (s.last() as int - '0' as int)
    }
}

/// What `u8::from_str` gives: an optional `+` followed by at least one ASCII
/// digit, denoting a value of at most 255.
pub open spec fn parse_u8(s: Seq<char>) -> Option<u8> {
    let body = unsigned_body(s);
    if body.len() > 0 && all_digits(body) && digits_value(body) <= 255 {
        Some(digits_value(body) as u8)
    } else {
        None
    }
}

/// `s` without its leading `+`, if it has one.
pub open spec fn unsigned_body(s: Seq<char>) -> Seq<char> {
    if s.len() > 0 && s[0] == '+' {
        s.drop_first()
    } else {
        s
    }
}

/// Every character of `s` is an ASCII digit.
pub open spec fn all_digits(s: Seq<char>) -> bool {
    forall|i: int| 0 <= i < s.len() ==> is_digit(#[trigger] s[i])
}

/// The pieces of `s` between `.` separators (`str::split('.')`): one more piece
/// than there are dots, possibly empty ones.
pub open spec fn split_dots(s: Seq<char>) -> Seq<Seq<char>>
    decreases s.len(),
{
    if s.len() == 0 {
        seq![Seq::empty()]
    } else {
        let prev = split_dots(s.drop_last());
        if s.last() == '.' {
            prev.push(Seq::empty())
        } else {
            prev.update(prev.len() - 1, prev.last().push(s.last()))
        }
    }
}

/// The three numbers of an FMOD version.
#[derive(Clone, Copy, Debug, PartialEq, Eq, Structural)]
pub struct FmodVersion {
    pub product: u8,
    pub major: u8,
    pub minor: u8,
}

/// Why a version string is refused.
#[derive(Clone, Copy, Debug, PartialEq, Eq, Structural)]
pub enum VersionError {
    /// The string does not have exactly three dot-separated parts.
    WrongPartCount,
    /// The part at `index` (the first such) is not a `u8`.
    InvalidNumber { index: usize },
    /// The product version is not 2.
    UnsupportedProduct,
}

/// What reading a version string gives.
pub open spec fn spec_parse_version(s: Seq<char>) -> Result<FmodVersion, VersionError> {
    let parts = split_dots(s);
    if parts.len() != 3 {
        Err(VersionError::WrongPartCount)
    } else if parse_u8(parts[0]) is None {
        Err(VersionError::InvalidNumber { index: 0 })
    } else if parse_u8(parts[1]) is None {
        Err(VersionError::InvalidNumber { index: 1 })
    } else if parse_u8(parts[2]) is None {
        Err(VersionError::InvalidNumber { index: 2 })
    } else if parse_u8(parts[0]).unwrap() != 2 {
        Err(VersionError::UnsupportedProduct)
    } else {
        Ok(
            FmodVersion {
                product: parse_u8(parts[0]).unwrap(),
                major: parse_u8(parts[1]).unwrap(),
                minor: parse_u8(parts[2]).unwrap(),
            },
        )
    }
}

/// Reads the characters `s[from..to]` as a `u8` the way `u8::from_str` does.
pub fn parse_u8_range(s: &str, from: usize, to: usize) -> (r: Option<u8>)
    requires
        from <= to <= s@.len(),
    ensures
        r == parse_u8(s@.subrange(from as int, to as int)),
{
    let ghost whole = s@.subrange(from as int, to as int);
    let mut start = from;
    if start < to && s.get_char(start) == '+' {
        start = start + 1;
    }
    let ghost body = s@.subrange(start as int, to as int);
    assert(body == unsigned_body(whole));
    if start == to {
        return None;
    }
    let mut value: u32 = 0;
    let mut i = start;
    while i < to
        invariant
            from <= start <= i <= to <= s@.len(),
            body == s@.subrange(start as int, to as int),
            whole == s@.subrange(from as int, to as int),
            body == unsigned_body(whole),
            body.len() > 0,
            forall|k: int| start <= k < i ==> is_digit(#[trigger] s@[k]),
            value == digits_value(s@.subrange(start as int, i as int)),
            value <= 255,
        decreases to - i,
    {
        let c = s.get_char(i);
        assert(body[i - start] == s@[i as int]);
        if !('0' <= c && c <= '9') {
            assert(!is_digit(body[i - start]));
            assert(!all_digits(body));
            return None;
        }
        let d: u32 = (c as u32) - ('0' as u32);
        assert(s@.subrange(start as int, i + 1).drop_last() == s@.subrange(
            start as int,
            i as int,
        ));
        let next: u32 = value * 10 + d;
        if next > 255 {
            proof {
                if all_digits(body) {
                    lemma_digits_value_prefix_grows(body, (i - start) as int + 1);
                    assert(body.subrange(0, (i - start) as int + 1) == s@.subrange(
                        start as int,
                        i + 1,
                    ));
                }
            }
            return None;
        }
        value = next;
        i = i + 1;
    }
    assert(body == s@.subrange(start as int, i as int));
    Some(value as u8)
}

/// The value of a run of digits is at least the value of any prefix of it.
pub proof fn lemma_digits_value_prefix_grows(s: Seq<char>, k: int)
    requires
        0 <= k <= s.len(),
        forall|i: int| 0 <= i < s.len() ==> is_digit(#[trigger] s[i]),
    ensures
        digits_value(s) >= digits_value(s.subrange(0, k)),
    decreases s.len(),
{
    if k < s.len() {
        lemma_digits_value_prefix_grows(s.drop_last(), k);
        assert(s.drop_last().subrange(0, k) == s.subrange(0, k));
        lemma_digits_value_nonneg(s.drop_last());
    } else {
        assert(s.subrange(0, k) == s);
    }
}

/// A run of digits has a non-negative value.
pub proof fn lemma_digits_value_nonneg(s: Seq<char>)
    requires
        forall|i: int| 0 <= i < s.len() ==> is_digit(#[trigger] s[i]),
    ensures
        digits_value(s) >= 0,
    decreases s.len(),
{
    if s.len() > 0 {
        lemma_digits_value_nonneg(s.drop_last());
        assert(is_digit(s[s.len() - 1]));
    }
}

/// The pieces of `s` cut at the given ranges, followed by `s[last_start..end]`.
pub open spec fn pieces_of(s: Seq<char>, ranges: Seq<(usize, usize)>, last_start: int, end: int) -> Seq<
    Seq<char>,
> {
    ranges.map_values(|r: (usize, usize)| s.subrange(r.0 as int, r.1 as int)).push(
        s.subrange(last_start, end),
    )
}

/// The character ranges of the dot-separated pieces of `s`: all pieces but the
/// last as `(start, end)` pairs, and the start of the last piece.
pub fn split_dot_ranges(s: &str) -> (r: (Vec<(usize, usize)>, usize))
    ensures
        r.1 <= s@.len(),
        forall|k: int| 0 <= k < r.0@.len() ==> (#[trigger] r.0@[k]).0 <= r.0@[k].1 <= s@.len(),
        split_dots(s@) == pieces_of(s@, r.0@, r.1 as int, s@.len() as int),
{
    let n = s.unicode_len();
    let mut ranges: Vec<(usize, usize)> = Vec::new();
    let mut cur: usize = 0;
    let mut i: usize = 0;
    assert(s@.take(0) == Seq::<char>::empty());
    assert(pieces_of(s@, ranges@, 0, 0) =~= seq![Seq::<char>::empty()]);
    while i < n
        invariant
            n == s@.len(),
            cur <= i <= n,
            forall|k: int| 0 <= k < ranges@.len() ==> (#[trigger] ranges@[k]).0 <= ranges@[k].1 <= i,
            split_dots(s@.take(i as int)) == pieces_of(s@, ranges@, cur as int, i as int),
        decreases n - i,
    {
        let c = s.get_char(i);
        let ghost before = s@.take(i as int);
        assert(s@.take(i + 1).drop_last() == before);
        assert(s@.take(i + 1).last() == c);
        if c == '.' {
            let ghost old_ranges = ranges@;
            let ghost old_cur = cur;
            ranges.push((cur, i));
            cur = i + 1;
            assert(s@.subrange(cur as int, i + 1) =~= Seq::<char>::empty());
            assert(ranges@.map_values(|r: (usize, usize)| s@.subrange(r.0 as int, r.1 as int))
                =~= old_ranges.map_values(
                |r: (usize, usize)| s@.subrange(r.0 as int, r.1 as int),
            ).push(s@.subrange(old_cur as int, i as int)));
            assert(pieces_of(s@, ranges@, cur as int, i + 1) =~= pieces_of(
                s@,
                old_ranges,
                old_cur as int,
                i as int,
            ).push(Seq::empty()));
        } else {
            let ghost prev = pieces_of(s@, ranges@, cur as int, i as int);
            assert(s@.subrange(cur as int, i + 1) =~= s@.subrange(cur as int, i as int).push(c));
            assert(pieces_of(s@, ranges@, cur as int, i + 1) =~= prev.update(
                prev.len() - 1,
                prev.last().push(c),
            ));
        }
        i = i + 1;
    }
    assert(s@.take(n as int) == s@);
    (ranges, cur)
}

/// Reads an FMOD version string `product.major.minor`, as the build script
/// does before it publishes the version to the compiler.
pub fn parse_version(s: &str) -> (r: Result<FmodVersion, VersionError>)
    ensures
        r == spec_parse_version(s@),
{
    let (ranges, last) = split_dot_ranges(s);
    let n = s.unicode_len();
    let ghost parts = split_dots(s@);
    if ranges.len() != 2 {
        return Err(VersionError::WrongPartCount);
    }
    let (a0, b0) = ranges[0];
    let (a1, b1) = ranges[1];
    assert(parts[0] == s@.subrange(a0 as int, b0 as int));
    assert(parts[1] == s@.subrange(a1 as int, b1 as int));
    assert(parts[2] == s@.subrange(last as int, n as int));
    let product = match parse_u8_range(s, a0, b0) {
        Some(v) => v,
        None => {
            return Err(VersionError::InvalidNumber { index: 0 });
        },
    };
    let major = match parse_u8_range(s, a1, b1) {
        Some(v) => v,
        None => {
            return Err(VersionError::InvalidNumber { index: 1 });
        },
    };
    let minor = match parse_u8_range(s, last, n) {
        Some(v) => v,
        None => {
            return Err(VersionError::InvalidNumber { index: 2 });
        },
    };
    if product != 2 {
        return Err(VersionError::UnsupportedProduct);
    }
    Ok(FmodVersion { product, major, minor })
}

/// Whether the build accepts this major version without a warning (2 or 3).
pub fn is_supported_major(major: u8) -> (r: bool)
    ensures
        r == (major == 2 || major == 3),
{
    major == 2 || major == 3
}

/// The configuration keys the build publishes to the compiler.
#[derive(Clone, Copy, Debug, PartialEq, Eq, Structural)]
pub enum CfgKey {
    VersionMajor,
    HasVersionMajor,
    VersionMinor,
    HasVersionMinor,
    Version,
    HasVersion,
}

/// The name a configuration key is published under.
pub open spec fn cfg_key_name(k: CfgKey) -> Seq<char> {
    match k {
        CfgKey::VersionMajor => "fmod_version_major"@,
        CfgKey::HasVersionMajor => "fmod_has_version_major"@,
        CfgKey::VersionMinor => "fmod_version_minor"@,
        CfgKey::HasVersionMinor => "fmod_has_version_minor"@,
        CfgKey::Version => "fmod_version"@,
        CfgKey::HasVersion => "fmod_has_version"@,
    }
}

impl CfgKey {
    /// The name this key is published under.
    pub fn cfg_name(self) -> (r: &'static str)
        ensures
            r@ == cfg_key_name(self),
    {
        match self {
            CfgKey::VersionMajor => "fmod_version_major",
            CfgKey::HasVersionMajor => "fmod_has_version_major",
            CfgKey::VersionMinor => "fmod_version_minor",
            CfgKey::HasVersionMinor => "fmod_has_version_minor",
            CfgKey::Version => "fmod_version",
            CfgKey::HasVersion => "fmod_has_version",
        }
    }
}

/// One configuration value: `--cfg key="value"`.
pub struct CfgValue {
    pub key: CfgKey,
    pub value: String,
}

impl View for CfgValue {
    type V = (CfgKey, Seq<char>);

    open spec fn view(&self) -> (CfgKey, Seq<char>) {
        (self.key, self.value@)
    }
}

/// The views of a list of configuration values.
pub open spec fn cfg_views(v: Seq<CfgValue>) -> Seq<(CfgKey, Seq<char>)> {
    v.map_values(|c: CfgValue| c@)
}

/// The label of FMOD version `2.major.minor`: `2.MM.mm`, two digits each.
pub open spec fn version_label(major: nat, minor: nat) -> Seq<char> {
    "2."@ + decimal_pad2(major) + "."@ + decimal_pad2(minor)
}

/// The major versions a build for `major` also counts as having: `2..=major`.
pub open spec fn has_major_entries(major: nat) -> Seq<(CfgKey, Seq<char>)> {
    Seq::new(
        if major >= 2 {
            (major - 1) as nat
        } else {
            0
        },
        |i: int| (CfgKey::HasVersionMajor, decimal((i + 2) as nat)),
    )
}

/// The minor versions a build for `minor` also counts as having: `0..=minor`.
pub open spec fn has_minor_entries(minor: nat) -> Seq<(CfgKey, Seq<char>)> {
    Seq::new(minor + 1, |i: int| (CfgKey::HasVersionMinor, decimal(i as nat)))
}

/// The full versions of this major line up to `minor`: `2.MM.00` to `2.MM.mm`.
pub open spec fn has_version_entries(major: nat, minor: nat) -> Seq<(CfgKey, Seq<char>)> {
    Seq::new(minor + 1, |i: int| (CfgKey::HasVersion, version_label(major, i as nat)))
}

/// For a major version above 2, the 2.02 releases it supersedes: `2.02.03` to
/// `2.02.33`.
pub open spec fn legacy_version_entries(major: nat) -> Seq<(CfgKey, Seq<char>)> {
    if major > 2 {
        Seq::new(31, |i: int| (CfgKey::HasVersion, version_label(2, (i + 3) as nat)))
    } else {
        Seq::empty()
    }
}

/// Every configuration value the build publishes for version `v`, in order.
pub open spec fn spec_cfg_values(v: FmodVersion) -> Seq<(CfgKey, Seq<char>)> {
    seq![(CfgKey::VersionMajor, decimal(v.major as nat))] + has_major_entries(v.major as nat)
        + seq![(CfgKey::VersionMinor, decimal(v.minor as nat))] + has_minor_entries(
        v.minor as nat,
    ) + seq![(CfgKey::Version, version_label(v.major as nat, v.minor as nat))]
        + has_version_entries(v.major as nat, v.minor as nat) + legacy_version_entries(
        v.major as nat,
    )
}

/// The label `2.MM.mm` of a version.
pub fn version_label_string(major: u8, minor: u8) -> (r: String)
    ensures
        r@ == version_label(major as nat, minor as nat),
{
    let mut s = String::new();
    push_str(&mut s, "2.");
    push_decimal_pad2(&mut s, major as u128);
    push_str(&mut s, ".");
    push_decimal_pad2(&mut s, minor as u128);
    assert(s@ =~= version_label(major as nat, minor as nat));
    s
}

fn decimal_string(n: u8) -> (r: String)
    ensures
        r@ == decimal(n as nat),
{
    let mut s = String::new();
    push_decimal(&mut s, n as u128);
    assert(s@ =~= decimal(n as nat));
    s
}

fn push_cfg(out: &mut Vec<CfgValue>, key: CfgKey, value: String)
    ensures
        cfg_views(final(out)@) == cfg_views(old(out)@).push((key, value@)),
{
    let ghost before = cfg_views(out@);
    out.push(CfgValue { key, value });
    assert(cfg_views(out@) =~= before.push((key, value@)));
}

/// The configuration values the build publishes to the compiler for version
/// `v`: the version and every earlier version it counts as having.
pub fn cfg_values(v: FmodVersion) -> (r: Vec<CfgValue>)
    ensures
        cfg_views(r@) == spec_cfg_values(v),
{
    let major = v.major;
    let minor = v.minor;
    let mut out: Vec<CfgValue> = Vec::new();
    assert(cfg_views(out@) =~= Seq::empty());
    push_cfg(&mut out, CfgKey::VersionMajor, decimal_string(major));
    let ghost p1 = seq![(CfgKey::VersionMajor, decimal(major as nat))];
    assert(cfg_views(out@) =~= p1);
    let mut m: u16 = 2;
    while m <= major as u16
        invariant
            2 <= m,
            major >= 2 ==> m <= major + 1,
            major < 2 ==> m == 2,
            cfg_views(out@) == p1 + has_major_entries(major as nat).take(m - 2),
        decreases major + 1 - m,
    {
        push_cfg(&mut out, CfgKey::HasVersionMajor, decimal_string(m as u8));
        assert(has_major_entries(major as nat).take(m - 1) =~= has_major_entries(
            major as nat,
        ).take(m - 2).push((CfgKey::HasVersionMajor, decimal(m as nat))));
        m = m + 1;
    }
    assert(has_major_entries(major as nat).take(m - 2) =~= has_major_entries(major as nat));
    assert(cfg_views(out@) =~= p1 + has_major_entries(major as nat));
    let ghost p2 = p1 + has_major_entries(major as nat) + seq![
        (CfgKey::VersionMinor, decimal(minor as nat)),
    ];
    push_cfg(&mut out, CfgKey::VersionMinor, decimal_string(minor));
    assert(cfg_views(out@) =~= p2);
    let mut k: u16 = 0;
    while k <= minor as u16
        invariant
            k <= minor + 1,
            cfg_views(out@) == p2 + has_minor_entries(minor as nat).take(k as int),
        decreases minor + 1 - k,
    {
        push_cfg(&mut out, CfgKey::HasVersionMinor, decimal_string(k as u8));
        assert(has_minor_entries(minor as nat).take(k + 1) =~= has_minor_entries(
            minor as nat,
        ).take(k as int).push((CfgKey::HasVersionMinor, decimal(k as nat))));
        k = k + 1;
    }
    assert(has_minor_entries(minor as nat).take(minor + 1) =~= has_minor_entries(minor as nat));
    let ghost p3 = p2 + has_minor_entries(minor as nat) + seq![
        (CfgKey::Version, version_label(major as nat, minor as nat)),
    ];
    push_cfg(&mut out, CfgKey::Version, version_label_string(major, minor));
    assert(cfg_views(out@) =~= p3);
    let mut k: u16 = 0;
    while k <= minor as u16
        invariant
            k <= minor + 1,
            cfg_views(out@) == p3 + has_version_entries(major as nat, minor as nat).take(k as int),
        decreases minor + 1 - k,
    {
        push_cfg(&mut out, CfgKey::HasVersion, version_label_string(major, k as u8));
        assert(has_version_entries(major as nat, minor as nat).take(k + 1)
            =~= has_version_entries(major as nat, minor as nat).take(k as int).push(
            (CfgKey::HasVersion, version_label(major as nat, k as nat)),
        ));
        k = k + 1;
    }
    assert(has_version_entries(major as nat, minor as nat).take(minor + 1)
        =~= has_version_entries(major as nat, minor as nat));
    let ghost p4 = p3 + has_version_entries(major as nat, minor as nat);
    assert(cfg_views(out@) =~= p4);
    if major > 2 {
        let mut k: u8 = 3;
        while k <= 33
            invariant
                3 <= k <= 34,
                major > 2,
                cfg_views(out@) == p4 + legacy_version_entries(major as nat).take(k - 3),
            decreases 34 - k,
        {
            push_cfg(&mut out, CfgKey::HasVersion, version_label_string(2, k));
            assert(legacy_version_entries(major as nat).take(k - 2) =~= legacy_version_entries(
                major as nat,
            ).take(k - 3).push((CfgKey::HasVersion, version_label(2, k as nat))));
            k = k + 1;
        }
        assert(legacy_version_entries(major as nat).take(31) =~= legacy_version_entries(
            major as nat,
        ));
    } else {
        assert(legacy_version_entries(major as nat) =~= Seq::empty());
    }
    assert(cfg_views(out@) =~= spec_cfg_values(v));
    out
}

/// Every full version the build counts as having is at most the version being
/// built, and the version being built is among them.
pub proof fn lemma_has_version_entries_are_not_newer(v: FmodVersion)
    ensures
        forall|i: int|
            0 <= i < spec_cfg_values(v).len() && (#[trigger] spec_cfg_values(v)[i]).0
                == CfgKey::HasVersion ==> exists|mj: nat, mn: nat|
                (mj < v.major || (mj == v.major && mn <= v.minor)) && spec_cfg_values(v)[i].1
                    == version_label(mj, mn),
        spec_cfg_values(v).contains(
            (CfgKey::HasVersion, version_label(v.major as nat, v.minor as nat)),
        ),
{
    let all = spec_cfg_values(v);
    let major = v.major as nat;
    let minor = v.minor as nat;
    let a = seq![(CfgKey::VersionMajor, decimal(major))];
    let b = has_major_entries(major);
    let c = seq![(CfgKey::VersionMinor, decimal(minor))];
    let d = has_minor_entries(minor);
    let e = seq![(CfgKey::Version, version_label(major, minor))];
    let f = has_version_entries(major, minor);
    let g = legacy_version_entries(major);
    let pre = a + b + c + d + e;
    assert(all == pre + f + g);
    assert forall|i: int|
        0 <= i < all.len() && (#[trigger] all[i]).0 == CfgKey::HasVersion implies exists|
        mj: nat,
        mn: nat,
    | (mj < v.major || (mj == v.major && mn <= v.minor)) && all[i].1 == version_label(mj, mn) by {
        if i < pre.len() {
            if i < a.len() {
            } else if i < a.len() + b.len() {
                assert(all[i] == b[i - a.len()]);
            } else if i < a.len() + b.len() + c.len() {
            } else if i < a.len() + b.len() + c.len() + d.len() {
                assert(all[i] == d[i - (a.len() + b.len() + c.len())]);
            } else {
            }
            assert(all[i] == pre[i]);
        } else if i < pre.len() + f.len() {
            let j = i - pre.len();
            assert(all[i] == f[j]);
            assert(all[i].1 == version_label(major, j as nat));
        } else {
            let j = i - pre.len() - f.len();
            assert(all[i] == g[j]);
            assert(major > 2);
            assert(all[i].1 == version_label(2, (j + 3) as nat));
        }
    }
    let idx = pre.len() + minor;
    assert(all[idx as int] == f[minor as int]);
}

/// The decimal texts `0` to `99`.
pub open spec fn minor_texts() -> Seq<Seq<char>> {
    Seq::new(100, |i: int| decimal(i as nat))
}

/// The labels `2.MM.00` to `2.MM.99` of one major line.
pub open spec fn version_labels(major: nat) -> Seq<Seq<char>> {
    Seq::new(100, |i: int| version_label(major, i as nat))
}

/// The configuration names the build declares, each with the values it may
/// take, in the order the build declares them.
pub open spec fn spec_cfg_declarations() -> Seq<(Seq<char>, Seq<Seq<char>>)> {
    seq![
        (cfg_key_name(CfgKey::VersionMajor), seq![decimal(2), decimal(3)]),
        (cfg_key_name(CfgKey::HasVersionMajor), seq![decimal(2), decimal(3)]),
        (cfg_key_name(CfgKey::VersionMinor), minor_texts()),
        (cfg_key_name(CfgKey::HasVersionMinor), minor_texts()),
        (cfg_key_name(CfgKey::HasVersion), version_labels(2)),
        (cfg_key_name(CfgKey::Version), version_labels(2)),
        (cfg_key_name(CfgKey::HasVersion), version_labels(3)),
        (cfg_key_name(CfgKey::Version), version_labels(3)),
        ("feature"@, seq!["unstable_extern_type"@]),
    ]
}

/// One declaration of the values a configuration name may take.
pub struct CfgDeclaration {
    pub name: &'static str,
    pub values: Vec<String>,
}

/// The view of a list of declarations.
pub open spec fn declaration_views(d: Seq<CfgDeclaration>) -> Seq<(Seq<char>, Seq<Seq<char>>)> {
    d.map_values(|c: CfgDeclaration| (c.name@, c.values@.map_values(|v: String| v@)))
}

fn minor_text_list() -> (r: Vec<String>)
    ensures
        r@.map_values(|v: String| v@) == minor_texts(),
{
    let mut out: Vec<String> = Vec::new();
    let mut i: u8 = 0;
    while i < 100
        invariant
            i <= 100,
            out@.map_values(|v: String| v@) == minor_texts().take(i as int),
        decreases 100 - i,
    {
        let ghost before = out@;
        out.push(decimal_string(i));
        assert(out@.map_values(|v: String| v@) =~= before.map_values(|v: String| v@).push(
            decimal(i as nat),
        ));
        assert(minor_texts().take(i + 1) =~= minor_texts().take(i as int).push(decimal(i as nat)));
        i = i + 1;
    }
    assert(minor_texts().take(100) =~= minor_texts());
    out
}

fn version_label_list(major: u8) -> (r: Vec<String>)
    ensures
        r@.map_values(|v: String| v@) == version_labels(major as nat),
{
    let mut out: Vec<String> = Vec::new();
    let mut i: u8 = 0;
    while i < 100
        invariant
            i <= 100,
            out@.map_values(|v: String| v@) == version_labels(major as nat).take(i as int),
        decreases 100 - i,
    {
        let ghost before = out@;
        out.push(version_label_string(major, i));
        assert(out@.map_values(|v: String| v@) =~= before.map_values(|v: String| v@).push(
            version_label(major as nat, i as nat),
        ));
        assert(version_labels(major as nat).take(i + 1) =~= version_labels(major as nat).take(
            i as int,
        ).push(version_label(major as nat, i as nat)));
        i = i + 1;
    }
    assert(version_labels(major as nat).take(100) =~= version_labels(major as nat));
    out
}

fn push_declaration(out: &mut Vec<CfgDeclaration>, name: &'static str, values: Vec<String>)
    ensures
        declaration_views(final(out)@) == declaration_views(old(out)@).push(
            (name@, values@.map_values(|v: String| v@)),
        ),
{
    let ghost before = declaration_views(out@);
    out.push(CfgDeclaration { name, values });
    assert(declaration_views(out@) =~= before.push((name@, values@.map_values(|v: String| v@))));
}

/// The configuration names the build declares to the compiler, each with the
/// values it may take.
pub fn cfg_declarations() -> (r: Vec<CfgDeclaration>)
    ensures
        declaration_views(r@) == spec_cfg_declarations(),
{
    let mut out: Vec<CfgDeclaration> = Vec::new();
    let majors = vec![decimal_string(2), decimal_string(3)];
    assert(majors@.map_values(|v: String| v@) =~= seq![decimal(2), decimal(3)]);
    push_declaration(&mut out, CfgKey::VersionMajor.cfg_name(), majors);
    let majors = vec![decimal_string(2), decimal_string(3)];
    assert(majors@.map_values(|v: String| v@) =~= seq![decimal(2), decimal(3)]);
    push_declaration(&mut out, CfgKey::HasVersionMajor.cfg_name(), majors);
    push_declaration(&mut out, CfgKey::VersionMinor.cfg_name(), minor_text_list());
    push_declaration(&mut out, CfgKey::HasVersionMinor.cfg_name(), minor_text_list());
    let mut major: u8 = 2;
    while major <= 3
        invariant
            2 <= major <= 4,
            declaration_views(out@) == spec_cfg_declarations().take(4 + 2 * (major - 2)),
        decreases 4 - major,
    {
        push_declaration(&mut out, CfgKey::HasVersion.cfg_name(), version_label_list(major));
        push_declaration(&mut out, CfgKey::Version.cfg_name(), version_label_list(major));
        assert(spec_cfg_declarations().take(4 + 2 * (major + 1 - 2)) =~= spec_cfg_declarations().take(
            4 + 2 * (major - 2),
        ).push(spec_cfg_declarations()[4 + 2 * (major - 2)]).push(
            spec_cfg_declarations()[4 + 2 * (major - 2) + 1],
        ));
        major = major + 1;
    }
    let features = vec![String::from_str("unstable_extern_type")];
    assert(features@.map_values(|v: String| v@) =~= seq!["unstable_extern_type"@]);
    push_declaration(&mut out, "feature", features);
    assert(declaration_views(out@) =~= spec_cfg_declarations());
    out
}

/// `value` is declared for configuration name `name`.
pub open spec fn is_declared(name: Seq<char>, value: Seq<char>) -> bool {
    exists|j: int|
        0 <= j < spec_cfg_declarations().len() && (#[trigger] spec_cfg_declarations()[j]).0
            == name && spec_cfg_declarations()[j].1.contains(value)
}

/// For the supported FMOD lines (2.02 and 2.03, minor versions up to 99),
/// every configuration value the build publishes is one it declared, so the
/// compiler never sees an unexpected configuration.
pub proof fn lemma_published_cfg_values_are_declared(v: FmodVersion)
    requires
        v.major == 2 || v.major == 3,
        v.minor <= 99,
    ensures
        forall|i: int|
            0 <= i < spec_cfg_values(v).len() ==> is_declared(
                cfg_key_name((#[trigger] spec_cfg_values(v)[i]).0),
                spec_cfg_values(v)[i].1,
            ),
{
    let all = spec_cfg_values(v);
    let major = v.major as nat;
    let minor = v.minor as nat;
    let decl = spec_cfg_declarations();
    let a = seq![(CfgKey::VersionMajor, decimal(major))];
    let b = has_major_entries(major);
    let c = seq![(CfgKey::VersionMinor, decimal(minor))];
    let d = has_minor_entries(minor);
    let e = seq![(CfgKey::Version, version_label(major, minor))];
    let f = has_version_entries(major, minor);
    let g = legacy_version_entries(major);
    assert(all == a + b + c + d + e + f + g);
    let lb = a.len() + b.len();
    let lc = lb + c.len();
    let ld = lc + d.len();
    let le = ld + e.len();
    let lf = le + f.len();
    // Index of the labels of this major line among the declarations.
    let hv = if major == 2 { 4int } else { 6int };
    assert forall|i: int| 0 <= i < all.len() implies is_declared(
        cfg_key_name((#[trigger] all[i]).0),
        all[i].1,
    ) by {
        if i < a.len() {
            assert(all[i] == a[i]);
            assert(decl[0].1[major - 2] == decimal(major));
            assert(decl[0].1.contains(decimal(major)));
            assert(decl[0].0 == cfg_key_name(CfgKey::VersionMajor));
        } else if i < lb {
            let k = i - a.len();
            assert(all[i] == b[k]);
            assert(decl[1].1[k] == decimal((k + 2) as nat));
            assert(decl[1].1.contains(all[i].1));
            assert(decl[1].0 == cfg_key_name(CfgKey::HasVersionMajor));
        } else if i < lc {
            assert(all[i] == c[i - lb]);
            assert(decl[2].1[minor as int] == decimal(minor));
            assert(decl[2].1.contains(all[i].1));
            assert(decl[2].0 == cfg_key_name(CfgKey::VersionMinor));
        } else if i < ld {
            let k = i - lc;
            assert(all[i] == d[k]);
            assert(decl[3].1[k] == decimal(k as nat));
            assert(decl[3].1.contains(all[i].1));
            assert(decl[3].0 == cfg_key_name(CfgKey::HasVersionMinor));
        } else if i < le {
            assert(all[i] == e[i - ld]);
            assert(decl[hv + 1].1[minor as int] == version_label(major, minor));
            assert(decl[hv + 1].1.contains(all[i].1));
            assert(decl[hv + 1].0 == cfg_key_name(CfgKey::Version));
        } else if i < lf {
            let k = i - le;
            assert(all[i] == f[k]);
            assert(decl[hv].1[k] == version_label(major, k as nat));
            assert(decl[hv].1.contains(all[i].1));
            assert(decl[hv].0 == cfg_key_name(CfgKey::HasVersion));
        } else {
            let k = i - lf;
            assert(all[i] == g[k]);
            assert(major > 2);
            assert(decl[4].1[k + 3] == version_label(2, (k + 3) as nat));
            assert(decl[4].1.contains(all[i].1));
            assert(decl[4].0 == cfg_key_name(CfgKey::HasVersion));
        }
    }
}

} // verus!
