//! The FMOD version recorded in `fmod_common.h`: the line
//! `#define FMOD_VERSION 0xaaaabbcc` gives product `aaaa`, major `bb` and
//! minor `cc`, which the core sys crate publishes as `aaaa.bb.cc`.

use vstd::prelude::*;
use crate::text::push_str;
use crate::version::{
    all_digits, digits_value, parse_u8, spec_parse_version, split_dots, unsigned_body,
    FmodVersion, lemma_digits_value_nonneg,
};

verus! {

#[verifier::external_type_specification]
#[verifier::external_body]
pub struct ExRegex(regex::Regex);

#[verifier::external_type_specification]
#[verifier::external_body]
pub struct ExRegexError(regex::Error);

/// Whether `regex::Regex::new` accepts `pattern` (with its default limits).
pub uninterp spec fn regex_accepts(pattern: Seq<char>) -> bool;

/// The groups of the first (leftmost) match of `pattern` in `haystack`, as
/// `regex::Regex::captures` reports them: `None` when nothing matches; else
/// one entry per group, group 0 being the whole match, `None` for a group that
/// took no part in the match.
pub uninterp spec fn regex_first_captures(pattern: Seq<char>, haystack: Seq<char>) -> Option<
    Seq<Option<Seq<char>>>,
>;

/// A compiled regular expression together with the pattern it was built from.
pub struct CompiledPattern {
    source: String,
    re: regex::Regex,
}

impl View for CompiledPattern {
    type V = Seq<char>;

    closed spec fn view(&self) -> Seq<char> {
        self.source@
    }
}

/// Compiles `pattern` with `regex::Regex::new`. Claims: it succeeds exactly
/// when the crate accepts the pattern, and the compiled value remembers the
/// pattern.
#[verifier::external_body]
fn compile_pattern(pattern: &str) -> (r: Result<CompiledPattern, regex::Error>)
    ensures
        r is Ok <==> regex_accepts(pattern@),
        r matches Ok(c) ==> c@ == pattern@,
{
    regex::Regex::new(pattern).map(|re| CompiledPattern { source: pattern.to_string(), re })
}

/// The view of optional capture groups.
pub open spec fn groups_view(g: Option<Vec<Option<String>>>) -> Option<Seq<Option<Seq<char>>>> {
    match g {
        Some(v) => Some(
            v@.map_values(
                |o: Option<String>|
                    match o {
                        Some(s) => Some(s@),
                        None => None,
                    },
            ),
        ),
        None => None,
    }
}

/// Runs `regex::Regex::captures` and copies out every group's text. Claims:
/// the result is the first match's groups for the compiled pattern.
#[verifier::external_body]
fn first_captures(c: &CompiledPattern, haystack: &str) -> (r: Option<Vec<Option<String>>>)
    ensures
        groups_view(r) == regex_first_captures(c@, haystack@),
{
    c.re.captures(haystack).map(
        |caps| caps.iter().map(|m| m.map(|m| m.as_str().to_string())).collect(),
    )
}

/// The pattern of the version line in `fmod_common.h`.
pub open spec fn version_pattern_spec() -> Seq<char> {
    "#define FMOD_VERSION * 0x(\\d{4})(\\d{2})(\\d{2})"@
}

/// The pattern of the version line in `fmod_common.h`.
pub fn version_pattern() -> (r: &'static str)
    ensures
        r@ == version_pattern_spec(),
{
    "#define FMOD_VERSION * 0x(\\d{4})(\\d{2})(\\d{2})"
}

/// Why no version was read from a header.
#[derive(Clone, Copy, Debug, PartialEq, Eq, Structural)]
pub enum HeaderVersionError {
    /// The regex crate refused the version pattern.
    PatternRejected,
    /// The header has no version line, or a version group is missing.
    NotFound,
}

/// The version text `aaaa.bb.cc` made of groups 1 to 3 of a match.
pub open spec fn spec_version_from_groups(groups: Option<Seq<Option<Seq<char>>>>) -> Option<Seq<char>> {
    match groups {
        Some(g) => if g.len() >= 4 && g[1] is Some && g[2] is Some && g[3] is Some {
            Some(g[1].unwrap() + "."@ + g[2].unwrap() + "."@ + g[3].unwrap())
        } else {
            None
        },
        None => None,
    }
}

/// Joins groups 1, 2 and 3 of a version-line match with dots.
pub fn version_from_groups(groups: Option<Vec<Option<String>>>) -> (r: Option<String>)
    ensures
        match r {
            Some(s) => spec_version_from_groups(groups_view(groups)) == Some(s@),
            None => spec_version_from_groups(groups_view(groups)) is None,
        },
{
    let ghost gv = groups_view(groups);
    match groups {
        None => None,
        Some(g) => {
            if g.len() < 4 {
                return None;
            }
            assert(gv.unwrap().len() == g@.len());
            let (a, b, c) = match (&g[1], &g[2], &g[3]) {
                (Some(a), Some(b), Some(c)) => (a, b, c),
                _ => {
                    assert(gv.unwrap()[1] == match g@[1] {
                        Some(s) => Some(s@),
                        None => None::<Seq<char>>,
                    });
                    assert(gv.unwrap()[2] == match g@[2] {
                        Some(s) => Some(s@),
                        None => None::<Seq<char>>,
                    });
                    assert(gv.unwrap()[3] == match g@[3] {
                        Some(s) => Some(s@),
                        None => None::<Seq<char>>,
                    });
                    return None;
                },
            };
            assert(gv.unwrap()[1] == Some(a@));
            assert(gv.unwrap()[2] == Some(b@));
            assert(gv.unwrap()[3] == Some(c@));
            let mut s = a.clone();
            push_str(&mut s, ".");
            push_str(&mut s, b.as_str());
            push_str(&mut s, ".");
            push_str(&mut s, c.as_str());
            assert(s@ =~= a@ + "."@ + b@ + "."@ + c@);
            Some(s)
        },
    }
}

/// What reading the version from a header's text gives.
pub open spec fn spec_header_version(header: Seq<char>) -> Result<Seq<char>, HeaderVersionError> {
    if !regex_accepts(version_pattern_spec()) {
        Err(HeaderVersionError::PatternRejected)
    } else {
        match spec_version_from_groups(regex_first_captures(version_pattern_spec(), header)) {
            Some(v) => Ok(v),
            None => Err(HeaderVersionError::NotFound),
        }
    }
}

/// Reads the FMOD version `aaaa.bb.cc` from the text of `fmod_common.h`.
pub fn header_version(header: &str) -> (r: Result<String, HeaderVersionError>)
    ensures
        match r {
            Ok(v) => spec_header_version(header@) == Ok::<Seq<char>, HeaderVersionError>(v@),
            Err(e) => spec_header_version(header@) == Err::<Seq<char>, HeaderVersionError>(e),
        },
{
    let pattern = match compile_pattern(version_pattern()) {
        Ok(p) => p,
        Err(_) => {
            return Err(HeaderVersionError::PatternRejected);
        },
    };
    match version_from_groups(first_captures(&pattern, header)) {
        Some(v) => Ok(v),
        None => Err(HeaderVersionError::NotFound),
    }
}

/// A piece without dots splits into itself.
proof fn lemma_split_no_dots(s: Seq<char>)
    requires
        !s.contains('.'),
    ensures
        split_dots(s) == seq![s],
    decreases s.len(),
{
    if s.len() == 0 {
        assert(s =~= Seq::<char>::empty());
        assert(split_dots(s) =~= seq![s]);
    } else {
        assert(!s.drop_last().contains('.')) by {
            if s.drop_last().contains('.') {
                let k = choose|k: int| 0 <= k < s.drop_last().len() && s.drop_last()[k] == '.';
                assert(s[k] == '.');
            }
        }
        lemma_split_no_dots(s.drop_last());
        assert(s.last() != '.') by {
            assert(s[s.len() - 1] == s.last());
        }
        assert(s.drop_last().push(s.last()) =~= s);
        assert(split_dots(s) =~= seq![s]);
    }
}

/// Appending a dot and a dot-free piece appends that piece to the split.
proof fn lemma_split_append(a: Seq<char>, b: Seq<char>)
    requires
        !b.contains('.'),
    ensures
        split_dots(a + "."@ + b) == split_dots(a).push(b),
    decreases b.len(),
{
    reveal_strlit(".");
    if b.len() == 0 {
        assert(b =~= Seq::<char>::empty());
        assert((a + "."@ + b).drop_last() =~= a);
        assert((a + "."@ + b).last() == '.');
        assert(split_dots(a).push(b) =~= split_dots(a).push(Seq::empty()));
    } else {
        assert(!b.drop_last().contains('.')) by {
            if b.drop_last().contains('.') {
                let k = choose|k: int| 0 <= k < b.drop_last().len() && b.drop_last()[k] == '.';
                assert(b[k] == '.');
            }
        }
        lemma_split_append(a, b.drop_last());
        assert((a + "."@ + b).drop_last() =~= a + "."@ + b.drop_last());
        assert(b.last() != '.') by {
            assert(b[b.len() - 1] == b.last());
        }
        let prev = split_dots(a + "."@ + b.drop_last());
        assert(prev == split_dots(a).push(b.drop_last()));
        assert(b.drop_last().push(b.last()) =~= b);
        assert(prev.update(prev.len() - 1, prev.last().push(b.last())) =~= split_dots(a).push(b));
    }
}

/// A group of digits holds no dot and reads as its value.
proof fn lemma_digit_group(g: Seq<char>)
    requires
        g.len() > 0,
        all_digits(g),
    ensures
        !g.contains('.'),
        digits_value(g) >= 0,
        digits_value(g) <= 255 ==> parse_u8(g) == Some(digits_value(g) as u8),
{
    assert(!g.contains('.')) by {
        if g.contains('.') {
            let k = choose|k: int| 0 <= k < g.len() && g[k] == '.';
            assert(crate::version::is_digit(g[k]));
        }
    }
    assert(crate::version::is_digit(g[0]));
    assert(unsigned_body(g) == g);
    lemma_digits_value_nonneg(g);
}

/// The version text the core sys crate publishes reads back, through the
/// version parser of the main crate, as the numbers its digit groups denote.
pub proof fn lemma_published_version_reads_back(g1: Seq<char>, g2: Seq<char>, g3: Seq<char>)
    requires
        g1.len() > 0 && g2.len() > 0 && g3.len() > 0,
        all_digits(g1) && all_digits(g2) && all_digits(g3),
        digits_value(g1) == 2,
        digits_value(g2) <= 255,
        digits_value(g3) <= 255,
    ensures
        spec_parse_version(
            spec_version_from_groups(Some(seq![Some(g1 + g2 + g3), Some(g1), Some(g2), Some(g3)])).unwrap(),
        ) == Ok::<FmodVersion, crate::version::VersionError>(
            FmodVersion {
                product: 2,
                major: digits_value(g2) as u8,
                minor: digits_value(g3) as u8,
            },
        ),
{
    lemma_digit_group(g1);
    lemma_digit_group(g2);
    lemma_digit_group(g3);
    let text = g1 + "."@ + g2 + "."@ + g3;
    assert(spec_version_from_groups(Some(seq![Some(g1 + g2 + g3), Some(g1), Some(g2), Some(g3)]))
        == Some(text));
    lemma_split_no_dots(g1);
    lemma_split_append(g1, g2);
    lemma_split_append(g1 + "."@ + g2, g3);
    assert(split_dots(text) =~= seq![g1, g2, g3]);
}

/// A header to turn into bindings, with the fix-ups (regular expression and
/// replacement) applied to the generated bindings.
pub struct HeaderJob {
    pub header: &'static str,
    pub fixups: Vec<(&'static str, &'static str)>,
}

/// The view of a header job: its name and its fix-up pairs.
pub open spec fn job_view(j: HeaderJob) -> (Seq<char>, Seq<(Seq<char>, Seq<char>)>) {
    (j.header@, j.fixups@.map_values(|f: (&'static str, &'static str)| (f.0@, f.1@)))
}

/// The views of a list of header jobs.
pub open spec fn jobs_view(js: Seq<HeaderJob>) -> Seq<(Seq<char>, Seq<(Seq<char>, Seq<char>)>)> {
    js.map_values(|j: HeaderJob| job_view(j))
}

/// The fix-up that drops a `pub type` line of a type the bindings define
/// themselves.
pub open spec fn drop_line(pattern: Seq<char>) -> (Seq<char>, Seq<char>) {
    (pattern, ""@)
}

/// The headers the core sys crate turns into bindings for a target, with
/// their fix-ups: the common ones, then the UWP and iOS ones where the target
/// needs them.
pub open spec fn spec_core_headers(vendor: Seq<char>, os: Seq<char>) -> Seq<(Seq<char>, Seq<(Seq<char>, Seq<char>)>)> {
    seq![
        ("fmod.h"@, Seq::empty()),
        ("fmod_codec.h"@, seq![drop_line("pub type FMOD_CODEC_(STATE|WAVEFORMAT).*?\\n"@)]),
        ("fmod_common.h"@, seq![
            ("FMOD_BUILDNUMBER: ::core::ffi::c_int"@, "FMOD_BUILDNUMBER: ::core::ffi::c_uint"@),
            drop_line("pub type FMOD_ASYNCREADINFO.*?\\n"@),
        ]),
        ("fmod_dsp.h"@, seq![drop_line("pub type FMOD_(DSP_(STATE|BUFFER_ARRAY)|COMPLEX).*?\\n"@)]),
        ("fmod_dsp_effects.h"@, Seq::empty()),
        ("fmod_errors.h"@, Seq::empty()),
        ("fmod_output.h"@, seq![drop_line("pub type FMOD_OUTPUT_(STATE|OBJECT3DINFO).*?\\n"@)]),
    ] + (if vendor == "uwp"@ {
        seq![("fmod_uwp.h"@, Seq::empty())]
    } else {
        Seq::empty()
    }) + (if os == "ios"@ {
        seq![("fmod_ios.h"@, Seq::empty())]
    } else {
        Seq::empty()
    })
}

/// The header names of a list of header jobs.
pub open spec fn header_names(jobs: Seq<(Seq<char>, Seq<(Seq<char>, Seq<char>)>)>) -> Seq<Seq<char>> {
    jobs.map_values(|j: (Seq<char>, Seq<(Seq<char>, Seq<char>)>)| j.0)
}

/// The UWP header is bound exactly on UWP targets and the iOS header exactly
/// on iOS targets; every other target binds only the seven common headers.
pub proof fn lemma_platform_headers(vendor: Seq<char>, os: Seq<char>)
    ensures
        header_names(spec_core_headers(vendor, os)).contains("fmod_ios.h"@) <==> os == "ios"@,
        header_names(spec_core_headers(vendor, os)).contains("fmod_uwp.h"@) <==> vendor == "uwp"@,
        spec_core_headers(vendor, os).len() == 7 + (if vendor == "uwp"@ {
            1int
        } else {
            0
        }) + (if os == "ios"@ {
            1int
        } else {
            0
        }),
{
    reveal_strlit("fmod.h");
    reveal_strlit("fmod_codec.h");
    reveal_strlit("fmod_common.h");
    reveal_strlit("fmod_dsp.h");
    reveal_strlit("fmod_dsp_effects.h");
    reveal_strlit("fmod_errors.h");
    reveal_strlit("fmod_output.h");
    reveal_strlit("fmod_uwp.h");
    reveal_strlit("fmod_ios.h");
    let names = header_names(spec_core_headers(vendor, os));
    let common = seq![
        "fmod.h"@,
        "fmod_codec.h"@,
        "fmod_common.h"@,
        "fmod_dsp.h"@,
        "fmod_dsp_effects.h"@,
        "fmod_errors.h"@,
        "fmod_output.h"@,
    ];
    let uwp: Seq<Seq<char>> = if vendor == "uwp"@ {
        seq!["fmod_uwp.h"@]
    } else {
        Seq::empty()
    };
    let ios: Seq<Seq<char>> = if os == "ios"@ {
        seq!["fmod_ios.h"@]
    } else {
        Seq::empty()
    };
    assert(names =~= common + uwp + ios);
    assert("fmod_dsp.h"@[5] != "fmod_ios.h"@[5]);
    assert("fmod_dsp.h"@[5] != "fmod_uwp.h"@[5]);
    assert("fmod_uwp.h"@[5] != "fmod_ios.h"@[5]);
    assert(!common.contains("fmod_ios.h"@)) by {
        if common.contains("fmod_ios.h"@) {
            let k = choose|k: int| 0 <= k < common.len() && common[k] == "fmod_ios.h"@;
            assert(common[k].len() == 10 ==> common[k][5] != 'i');
        }
    }
    assert(!common.contains("fmod_uwp.h"@)) by {
        if common.contains("fmod_uwp.h"@) {
            let k = choose|k: int| 0 <= k < common.len() && common[k] == "fmod_uwp.h"@;
            assert(common[k].len() == 10 ==> common[k][5] != 'u');
        }
    }
    if os == "ios"@ {
        assert(names[names.len() - 1] == "fmod_ios.h"@);
    } else {
        assert(!names.contains("fmod_ios.h"@)) by {
            if names.contains("fmod_ios.h"@) {
                let k = choose|k: int| 0 <= k < names.len() && names[k] == "fmod_ios.h"@;
                if k >= 7 {
                    assert(names[k] == "fmod_uwp.h"@);
                } else {
                    assert(common[k] == names[k]);
                }
            }
        }
    }
    if vendor == "uwp"@ {
        assert(names[7] == "fmod_uwp.h"@);
    } else {
        assert(!names.contains("fmod_uwp.h"@)) by {
            if names.contains("fmod_uwp.h"@) {
                let k = choose|k: int| 0 <= k < names.len() && names[k] == "fmod_uwp.h"@;
                if k >= 7 {
                    assert(names[k] == "fmod_ios.h"@);
                } else {
                    assert(common[k] == names[k]);
                }
            }
        }
    }
}

fn push_job(out: &mut Vec<HeaderJob>, header: &'static str, fixups: Vec<(&'static str, &'static str)>)
    ensures
        jobs_view(final(out)@) == jobs_view(old(out)@).push(
            (header@, fixups@.map_values(|f: (&'static str, &'static str)| (f.0@, f.1@))),
        ),
{
    let ghost before = jobs_view(out@);
    out.push(HeaderJob { header, fixups });
    assert(jobs_view(out@) =~= before.push(
        (header@, fixups@.map_values(|f: (&'static str, &'static str)| (f.0@, f.1@))),
    ));
}

/// The headers the core sys crate turns into bindings, with their fix-ups, in
/// order: the common ones, then the UWP and iOS ones where the target needs
/// them.
pub fn core_headers(vendor: &str, os: &str) -> (r: Vec<HeaderJob>)
    ensures
        jobs_view(r@) == spec_core_headers(vendor@, os@),
{
    let mut out: Vec<HeaderJob> = Vec::new();
    let none: Vec<(&'static str, &'static str)> = Vec::new();
    assert(none@.map_values(|f: (&'static str, &'static str)| (f.0@, f.1@)) =~= Seq::empty());
    push_job(&mut out, "fmod.h", none);
    let f = vec![("pub type FMOD_CODEC_(STATE|WAVEFORMAT).*?\\n", "")];
    assert(f@.map_values(|f: (&'static str, &'static str)| (f.0@, f.1@)) =~= seq![
        drop_line("pub type FMOD_CODEC_(STATE|WAVEFORMAT).*?\\n"@),
    ]);
    push_job(&mut out, "fmod_codec.h", f);
    let f = vec![
        ("FMOD_BUILDNUMBER: ::core::ffi::c_int", "FMOD_BUILDNUMBER: ::core::ffi::c_uint"),
        ("pub type FMOD_ASYNCREADINFO.*?\\n", ""),
    ];
    assert(f@.map_values(|f: (&'static str, &'static str)| (f.0@, f.1@)) =~= seq![
        ("FMOD_BUILDNUMBER: ::core::ffi::c_int"@, "FMOD_BUILDNUMBER: ::core::ffi::c_uint"@),
        drop_line("pub type FMOD_ASYNCREADINFO.*?\\n"@),
    ]);
    push_job(&mut out, "fmod_common.h", f);
    let f = vec![("pub type FMOD_(DSP_(STATE|BUFFER_ARRAY)|COMPLEX).*?\\n", "")];
    assert(f@.map_values(|f: (&'static str, &'static str)| (f.0@, f.1@)) =~= seq![
        drop_line("pub type FMOD_(DSP_(STATE|BUFFER_ARRAY)|COMPLEX).*?\\n"@),
    ]);
    push_job(&mut out, "fmod_dsp.h", f);
    let none: Vec<(&'static str, &'static str)> = Vec::new();
    assert(none@.map_values(|f: (&'static str, &'static str)| (f.0@, f.1@)) =~= Seq::empty());
    push_job(&mut out, "fmod_dsp_effects.h", none);
    let none: Vec<(&'static str, &'static str)> = Vec::new();
    assert(none@.map_values(|f: (&'static str, &'static str)| (f.0@, f.1@)) =~= Seq::empty());
    push_job(&mut out, "fmod_errors.h", none);
    let f = vec![("pub type FMOD_OUTPUT_(STATE|OBJECT3DINFO).*?\\n", "")];
    assert(f@.map_values(|f: (&'static str, &'static str)| (f.0@, f.1@)) =~= seq![
        drop_line("pub type FMOD_OUTPUT_(STATE|OBJECT3DINFO).*?\\n"@),
    ]);
    push_job(&mut out, "fmod_output.h", f);
    if crate::text::str_eq(vendor, "uwp") {
        let none: Vec<(&'static str, &'static str)> = Vec::new();
        assert(none@.map_values(|f: (&'static str, &'static str)| (f.0@, f.1@)) =~= Seq::empty());
        push_job(&mut out, "fmod_uwp.h", none);
    }
    if crate::text::str_eq(os, "ios") {
        let none: Vec<(&'static str, &'static str)> = Vec::new();
        assert(none@.map_values(|f: (&'static str, &'static str)| (f.0@, f.1@)) =~= Seq::empty());
        push_job(&mut out, "fmod_ios.h", none);
    }
    assert(jobs_view(out@) =~= spec_core_headers(vendor@, os@));
    out
}

/// The headers the studio sys crate turns into bindings, without fix-ups.
pub open spec fn spec_studio_headers() -> Seq<(Seq<char>, Seq<(Seq<char>, Seq<char>)>)> {
    seq![("fmod_studio.h"@, Seq::empty()), ("fmod_studio_common.h"@, Seq::empty())]
}

/// The headers the studio sys crate turns into bindings.
pub fn studio_headers() -> (r: Vec<HeaderJob>)
    ensures
        jobs_view(r@) == spec_studio_headers(),
{
    let mut out: Vec<HeaderJob> = Vec::new();
    let none: Vec<(&'static str, &'static str)> = Vec::new();
    assert(none@.map_values(|f: (&'static str, &'static str)| (f.0@, f.1@)) =~= Seq::empty());
    push_job(&mut out, "fmod_studio.h", none);
    let none: Vec<(&'static str, &'static str)> = Vec::new();
    assert(none@.map_values(|f: (&'static str, &'static str)| (f.0@, f.1@)) =~= Seq::empty());
    push_job(&mut out, "fmod_studio_common.h", none);
    assert(jobs_view(out@) =~= spec_studio_headers());
    out
}

/// The headers the FSBank sys crate turns into bindings, without fix-ups.
pub open spec fn spec_fsbank_headers() -> Seq<(Seq<char>, Seq<(Seq<char>, Seq<char>)>)> {
    seq![("fsbank.h"@, Seq::empty()), ("fsbank_errors.h"@, Seq::empty())]
}

/// The headers the FSBank sys crate turns into bindings.
pub fn fsbank_headers() -> (r: Vec<HeaderJob>)
    ensures
        jobs_view(r@) == spec_fsbank_headers(),
{
    let mut out: Vec<HeaderJob> = Vec::new();
    let none: Vec<(&'static str, &'static str)> = Vec::new();
    assert(none@.map_values(|f: (&'static str, &'static str)| (f.0@, f.1@)) =~= Seq::empty());
    push_job(&mut out, "fsbank.h", none);
    let none: Vec<(&'static str, &'static str)> = Vec::new();
    assert(none@.map_values(|f: (&'static str, &'static str)| (f.0@, f.1@)) =~= Seq::empty());
    push_job(&mut out, "fsbank_errors.h", none);
    assert(jobs_view(out@) =~= spec_fsbank_headers());
    out
}

} // verus!
