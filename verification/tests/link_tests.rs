use fmod_rs::link::{extra_frameworks, link_name, LinkError, SysLibrary, Target};

fn target(vendor: &str, arch: &str, os: &str, abi: Option<&str>, profile: &str, atomics: bool) -> Target {
    Target {
        vendor: vendor.to_string(),
        arch: arch.to_string(),
        os: os.to_string(),
        abi: abi.map(|s| s.to_string()),
        profile: profile.to_string(),
        atomics,
    }
}

#[test]
fn core_library_names() {
    let linux = target("unknown", "x86_64", "linux", None, "release", false);
    assert_eq!(link_name(SysLibrary::Core, &linux, None), Ok("fmod".to_string()));
    let win = target("pc", "x86_64", "windows", None, "debug", false);
    assert_eq!(link_name(SysLibrary::Core, &win, None), Ok("fmodL_vc".to_string()));
    let win32 = target("pc", "x86", "windows", None, "release", false);
    assert_eq!(link_name(SysLibrary::Core, &win32, None), Ok("fmod_vc".to_string()));
    let arm_win = target("pc", "aarch64", "windows", None, "release", false);
    assert_eq!(link_name(SysLibrary::Core, &arm_win, None), Ok("fmod".to_string()));
}

#[test]
fn wasm_library_names() {
    let t = target("unknown", "wasm32", "emscripten", None, "release", true);
    assert_eq!(link_name(SysLibrary::Core, &t, None), Ok("fmodP_reduced".to_string()));
    assert_eq!(link_name(SysLibrary::Studio, &t, None), Ok("fmodstudioP".to_string()));
    let t = target("unknown", "wasm32", "emscripten", None, "release", false);
    assert_eq!(link_name(SysLibrary::Core, &t, None), Ok("fmod_reduced".to_string()));
    assert_eq!(link_name(SysLibrary::Studio, &t, None), Ok("fmodstudio".to_string()));
    let t = target("unknown", "wasm32", "emscripten", None, "debug", true);
    assert_eq!(link_name(SysLibrary::Core, &t, None), Ok("fmodPL".to_string()));
    assert_eq!(link_name(SysLibrary::Studio, &t, None), Ok("fmodstudioPL".to_string()));
    let t = target("unknown", "wasm32", "emscripten", None, "debug", false);
    assert_eq!(link_name(SysLibrary::Core, &t, None), Ok("fmodL".to_string()));
}

#[test]
fn apple_library_names() {
    let sim = target("apple", "aarch64", "ios", Some("sim"), "debug", false);
    assert_eq!(link_name(SysLibrary::Core, &sim, None), Ok("fmodL_iphonesimulator".to_string()));
    let tv = target("apple", "aarch64", "tvos", None, "release", false);
    assert_eq!(link_name(SysLibrary::Studio, &tv, None), Ok("fmodstudio_appletvos".to_string()));
    let xr = target("apple", "aarch64", "visionos", Some("macabi"), "release", false);
    assert_eq!(link_name(SysLibrary::Core, &xr, None), Ok("fmod_xros".to_string()));
    let mac = target("apple", "aarch64", "macos", None, "release", false);
    assert_eq!(link_name(SysLibrary::Core, &mac, None), Ok("fmod".to_string()));
    assert_eq!(link_name(SysLibrary::FsBank, &sim, None), Ok("fsbank".to_string()));
}

#[test]
fn fsbank_and_published_names() {
    let win32 = target("pc", "x86", "windows", None, "bench", false);
    assert_eq!(link_name(SysLibrary::FsBank, &win32, None), Ok("fsbank_vc".to_string()));
    assert_eq!(link_name(SysLibrary::Core, &win32, None), Err(LinkError::UnexpectedProfile));
    assert_eq!(link_name(SysLibrary::Studio, &win32, None), Err(LinkError::UnexpectedProfile));
    assert_eq!(
        link_name(SysLibrary::Core, &win32, Some("custom".to_string())),
        Ok("custom".to_string())
    );
}

#[test]
fn frameworks_for_apple_mobile() {
    let ios = target("apple", "aarch64", "ios", None, "release", false);
    assert_eq!(extra_frameworks(&ios), vec!["AudioToolbox", "CoreAudio"]);
    let mac = target("apple", "aarch64", "macos", None, "release", false);
    assert!(extra_frameworks(&mac).is_empty());
}
