//! Link-time decisions of the sys crates: which FMOD library file to link for a
//! target, and which extra system frameworks and headers a target needs.

use vstd::prelude::*;
use crate::text::{push_str, str_eq};

verus! {

/// The FMOD libraries the sys crates link.
#[derive(Clone, Copy, Debug, PartialEq, Eq, Structural)]
pub enum SysLibrary {
    Core,
    Studio,
    FsBank,
}

/// What the build knows of the target it compiles for.
pub struct Target {
    pub vendor: String,
    pub arch: String,
    pub os: String,
    pub abi: Option<String>,
    pub profile: String,
    pub atomics: bool,
}

/// The build profile is neither `debug` nor `release`.
#[derive(Clone, Copy, Debug, PartialEq, Eq, Structural)]
pub enum LinkError {
    UnexpectedProfile,
}

/// The library's base name for an architecture and profile.
pub open spec fn base_name(lib: SysLibrary, arch: Seq<char>, profile: Seq<char>, atomics: bool) -> Option<Seq<char>> {
    match lib {
        SysLibrary::Core => if arch == "wasm32"@ && profile == "debug"@ && atomics {
            Some("fmodPL"@)
        } else if arch == "wasm32"@ && profile == "release"@ && atomics {
            Some("fmodP_reduced"@)
        } else if arch == "wasm32"@ && profile == "release"@ {
            Some("fmod_reduced"@)
        } else if profile == "debug"@ {
            Some("fmodL"@)
        } else if profile == "release"@ {
            Some("fmod"@)
        } else {
            None
        },
        SysLibrary::Studio => if arch == "wasm32"@ && profile == "debug"@ && atomics {
            Some("fmodstudioPL"@)
        } else if arch == "wasm32"@ && profile == "release"@ && atomics {
            Some("fmodstudioP"@)
        } else if profile == "debug"@ {
            Some("fmodstudioL"@)
        } else if profile == "release"@ {
            Some("fmodstudio"@)
        } else {
            None
        },
        SysLibrary::FsBank => Some("fsbank"@),
    }
}

/// `_vc` on Windows x86 and x86-64 (vendor `pc`).
pub open spec fn vc_suffix(vendor: Seq<char>, arch: Seq<char>) -> Seq<char> {
    if vendor == "pc"@ && (arch == "x86"@ || arch == "x86_64"@) {
        "_vc"@
    } else {
        Seq::empty()
    }
}

/// On Apple targets, the platform suffix of the core and studio libraries:
/// device or simulator build for iOS, tvOS and visionOS.
pub open spec fn apple_suffix(lib: SysLibrary, vendor: Seq<char>, os: Seq<char>, abi: Option<Seq<char>>) -> Seq<char> {
    let sim = if abi == Some("sim"@) {
        "simulator"@
    } else {
        "os"@
    };
    if lib == SysLibrary::FsBank || vendor != "apple"@ {
        Seq::empty()
    } else if os == "ios"@ {
        "_iphone"@ + sim
    } else if os == "tvos"@ {
        "_appletv"@ + sim
    } else if os == "visionos"@ {
        "_xr"@ + sim
    } else {
        Seq::empty()
    }
}

/// The view of an optional string.
pub open spec fn opt_view(o: Option<String>) -> Option<Seq<char>> {
    match o {
        Some(s) => Some(s@),
        None => None,
    }
}

/// The name of the library file to link: the name the dependency published if
/// it published one, else the base name with the platform suffixes.
pub open spec fn spec_link_name(lib: SysLibrary, t: Target, published: Option<Seq<char>>) -> Result<Seq<char>, LinkError> {
    match published {
        Some(name) => Ok(name),
        None => match base_name(lib, t.arch@, t.profile@, t.atomics) {
            Some(base) => Ok(
                base + vc_suffix(t.vendor@, t.arch@) + apple_suffix(lib, t.vendor@, t.os@, opt_view(t.abi)),
            ),
            None => Err(LinkError::UnexpectedProfile),
        },
    }
}

fn base_name_exec(lib: SysLibrary, arch: &str, profile: &str, atomics: bool) -> (r: Option<&'static str>)
    ensures
        match r {
            Some(s) => base_name(lib, arch@, profile@, atomics) == Some(s@),
            None => base_name(lib, arch@, profile@, atomics) is None,
        },
{
    let wasm = str_eq(arch, "wasm32");
    let debug = str_eq(profile, "debug");
    let release = str_eq(profile, "release");
    match lib {
        SysLibrary::Core => {
            if wasm && debug && atomics {
                Some("fmodPL")
            } else if wasm && release && atomics {
                Some("fmodP_reduced")
            } else if wasm && release {
                Some("fmod_reduced")
            } else if debug {
                Some("fmodL")
            } else if release {
                Some("fmod")
            } else {
                None
            }
        },
        SysLibrary::Studio => {
            if wasm && debug && atomics {
                Some("fmodstudioPL")
            } else if wasm && release && atomics {
                Some("fmodstudioP")
            } else if debug {
                Some("fmodstudioL")
            } else if release {
                Some("fmodstudio")
            } else {
                None
            }
        },
        SysLibrary::FsBank => Some("fsbank"),
    }
}

/// The name of the FMOD library file to link for `target`. `published` is
/// the name the dependency published (its `obj` metadata), which wins.
pub fn link_name(lib: SysLibrary, target: &Target, published: Option<String>) -> (r: Result<String, LinkError>)
    ensures
        match r {
            Ok(name) => spec_link_name(lib, *target, opt_view(published)) == Ok::<Seq<char>, LinkError>(name@),
            Err(e) => spec_link_name(lib, *target, opt_view(published)) == Err::<Seq<char>, LinkError>(e),
        },
{
    if let Some(name) = published {
        return Ok(name);
    }
    let base = match base_name_exec(lib, target.arch.as_str(), target.profile.as_str(), target.atomics) {
        Some(b) => b,
        None => {
            return Err(LinkError::UnexpectedProfile);
        },
    };
    let mut obj = String::new();
    push_str(&mut obj, base);
    if str_eq(target.vendor.as_str(), "pc") && (str_eq(target.arch.as_str(), "x86") || str_eq(
        target.arch.as_str(),
        "x86_64",
    )) {
        push_str(&mut obj, "_vc");
    }
    let ghost with_vc = obj@;
    assert(with_vc =~= base@ + vc_suffix(target.vendor@, target.arch@));
    if lib != SysLibrary::FsBank && str_eq(target.vendor.as_str(), "apple") {
        let sim = match &target.abi {
            Some(abi) => if str_eq(abi.as_str(), "sim") {
                "simulator"
            } else {
                "os"
            },
            None => "os",
        };
        let os = target.os.as_str();
        if str_eq(os, "ios") {
            push_str(&mut obj, "_iphone");
            push_str(&mut obj, sim);
        } else if str_eq(os, "tvos") {
            push_str(&mut obj, "_appletv");
            push_str(&mut obj, sim);
        } else if str_eq(os, "visionos") {
            push_str(&mut obj, "_xr");
            push_str(&mut obj, sim);
        }
    }
    assert(obj@ =~= base@ + vc_suffix(target.vendor@, target.arch@) + apple_suffix(
        lib,
        target.vendor@,
        target.os@,
        opt_view(target.abi),
    ));
    Ok(obj)
}

/// The system frameworks the core library needs on Apple mobile targets.
pub open spec fn spec_extra_frameworks(vendor: Seq<char>, os: Seq<char>) -> Seq<Seq<char>> {
    if vendor == "apple"@ && (os == "ios"@ || os == "tvos"@ || os == "visionos"@) {
        seq!["AudioToolbox"@, "CoreAudio"@]
    } else {
        Seq::empty()
    }
}

/// The system frameworks to link beside the core library.
pub fn extra_frameworks(target: &Target) -> (r: Vec<&'static str>)
    ensures
        r@.map_values(|s: &'static str| s@) == spec_extra_frameworks(target.vendor@, target.os@),
{
    let mut out: Vec<&'static str> = Vec::new();
    let os = target.os.as_str();
    if str_eq(target.vendor.as_str(), "apple") && (str_eq(os, "ios") || str_eq(os, "tvos")
        || str_eq(os, "visionos")) {
        out.push("AudioToolbox");
        out.push("CoreAudio");
    }
    assert(out@.map_values(|s: &'static str| s@) =~= spec_extra_frameworks(
        target.vendor@,
        target.os@,
    ));
    out
}

/// With no published name and a `debug` or `release` profile, every library
/// (core, studio and FSBank alike) gets a name; on Windows (vendor `pc`) that
/// name is the base name followed by `_vc` exactly when the architecture is
/// `x86` or `x86_64`, and the base name alone otherwise.
pub proof fn lemma_vc_suffix_follows_vendor_and_arch(lib: SysLibrary, t: Target)
    requires
        t.profile@ == "debug"@ || t.profile@ == "release"@,
    ensures
        base_name(lib, t.arch@, t.profile@, t.atomics) is Some,
        spec_link_name(lib, t, None) is Ok,
        t.vendor@ == "pc"@ ==> spec_link_name(lib, t, None) == Ok::<Seq<char>, LinkError>(
            if t.arch@ == "x86"@ || t.arch@ == "x86_64"@ {
                base_name(lib, t.arch@, t.profile@, t.atomics).unwrap() + "_vc"@
            } else {
                base_name(lib, t.arch@, t.profile@, t.atomics).unwrap()
            },
        ),
        t.vendor@ != "pc"@ ==> spec_link_name(lib, t, None) == Ok::<Seq<char>, LinkError>(
            base_name(lib, t.arch@, t.profile@, t.atomics).unwrap() + apple_suffix(
                lib,
                t.vendor@,
                t.os@,
                opt_view(t.abi),
            ),
        ),
{
    reveal_strlit("pc");
    reveal_strlit("apple");
    let base = base_name(lib, t.arch@, t.profile@, t.atomics);
    assert(base is Some);
    if t.vendor@ == "pc"@ {
        assert(t.vendor@ != "apple"@) by {
            assert("pc"@.len() != "apple"@.len());
        }
        let b = base.unwrap();
        assert(b + Seq::<char>::empty() =~= b);
        assert(b + "_vc"@ + Seq::<char>::empty() =~= b + "_vc"@);
    } else {
        let b = base.unwrap();
        assert(b + Seq::<char>::empty() =~= b);
    }
}

} // verus!
