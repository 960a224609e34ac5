//! Where the FMOD SDK is installed on Windows: the registry names the SDK
//! directory, and the headers and libraries sit at fixed places under it.

use vstd::prelude::*;
use crate::text::push_str;

verus! {

/// The registry key (under the current user) of the desktop SDK.
pub fn pc_registry_key() -> (r: &'static str)
    ensures
        r@ == "Software\\FMOD Studio API Windows"@,
{
    "Software\\FMOD Studio API Windows"
}

/// The registry key (under the current user) of the Universal Windows Platform
/// SDK.
pub fn uwp_registry_key() -> (r: &'static str)
    ensures
        r@ == "Software\\FMOD Studio API Universal Windows Platform"@,
{
    "Software\\FMOD Studio API Universal Windows Platform"
}

/// The include and library directories under an SDK directory.
pub open spec fn sdk_paths(dir: Seq<char>, arch: Seq<char>) -> Seq<Seq<char>> {
    seq![dir + "/api/core/inc"@, dir + "/api/core/lib/"@ + arch]
}

fn paths_under(dir: &str, arch: &str) -> (r: [String; 2])
    ensures
        r@.map_values(|s: String| s@) == sdk_paths(dir@, arch@),
{
    let mut inc = String::new();
    push_str(&mut inc, dir);
    push_str(&mut inc, "/api/core/inc");
    let mut lib = String::new();
    push_str(&mut lib, dir);
    push_str(&mut lib, "/api/core/lib/");
    push_str(&mut lib, arch);
    let r = [inc, lib];
    assert(r@.map_values(|s: String| s@) =~= sdk_paths(dir@, arch@));
    r
}

/// The core include and library directories of the desktop SDK, given the
/// directory the registry holds for it (if any) and the SDK's name for the
/// target architecture.
pub fn find_fmod_pc(registry_dir: Option<String>, arch: &str) -> (r: Option<[String; 2]>)
    ensures
        r is Some <==> registry_dir is Some,
        r matches Some(p) ==> p@.map_values(|s: String| s@) == sdk_paths(registry_dir.unwrap()@, arch@),
{
    match registry_dir {
        Some(dir) => Some(paths_under(dir.as_str(), arch)),
        None => None,
    }
}

/// The core include and library directories of the UWP SDK, given the
/// directory the registry holds for it (if any) and the SDK's name for the
/// target architecture.
pub fn find_fmod_uwp(registry_dir: Option<String>, arch: &str) -> (r: Option<[String; 2]>)
    ensures
        r is Some <==> registry_dir is Some,
        r matches Some(p) ==> p@.map_values(|s: String| s@) == sdk_paths(registry_dir.unwrap()@, arch@),
{
    match registry_dir {
        Some(dir) => Some(paths_under(dir.as_str(), arch)),
        None => None,
    }
}

} // verus!
