use fmod_rs::header::{
    core_headers, fsbank_headers, header_version, studio_headers, version_from_groups,
    HeaderVersionError,
};
use fmod_rs::version::{parse_version, FmodVersion};

const COMMON: &str = "/* fmod_common.h */\n#define FMOD_VERSION    0x00020312                     /* 0xaaaabbcc -> aaaa = product version, bb = major version, cc = minor version.*/\n";

#[test]
fn reads_version_line() {
    assert_eq!(header_version(COMMON), Ok("0002.03.12".to_string()));
    assert_eq!(header_version("#define FMOD_VERSION 0x00020223"), Ok("0002.02.23".to_string()));
}

#[test]
fn missing_version_line() {
    assert_eq!(header_version("#define FMOD_MAX 1"), Err(HeaderVersionError::NotFound));
    assert_eq!(header_version("#define FMOD_VERSION 0x0002031"), Err(HeaderVersionError::NotFound));
}

#[test]
fn published_version_reads_back() {
    let text = header_version(COMMON).unwrap();
    assert_eq!(parse_version(&text), Ok(FmodVersion { product: 2, major: 3, minor: 12 }));
}

#[test]
fn groups_join_with_dots() {
    let g = Some(vec![
        Some("x".to_string()),
        Some("0002".to_string()),
        Some("03".to_string()),
        Some("01".to_string()),
    ]);
    assert_eq!(version_from_groups(g), Some("0002.03.01".to_string()));
    let missing = Some(vec![Some("x".to_string()), None, Some("03".to_string()), Some("01".to_string())]);
    assert_eq!(version_from_groups(missing), None);
    assert_eq!(version_from_groups(Some(vec![Some("x".to_string())])), None);
    assert_eq!(version_from_groups(None), None);
}

#[test]
fn headers_per_target() {
    let names = |v: &str, o: &str| -> Vec<&str> { core_headers(v, o).iter().map(|j| j.header).collect() };
    assert_eq!(
        names("pc", "windows"),
        vec![
            "fmod.h",
            "fmod_codec.h",
            "fmod_common.h",
            "fmod_dsp.h",
            "fmod_dsp_effects.h",
            "fmod_errors.h",
            "fmod_output.h"
        ]
    );
    assert_eq!(names("uwp", "windows").last(), Some(&"fmod_uwp.h"));
    assert_eq!(names("apple", "ios").last(), Some(&"fmod_ios.h"));
    assert_eq!(names("uwp", "ios").len(), 9);
}

#[test]
fn header_fixups() {
    let jobs = core_headers("pc", "windows");
    assert!(jobs[0].fixups.is_empty());
    assert_eq!(jobs[1].fixups, vec![(r"pub type FMOD_CODEC_(STATE|WAVEFORMAT).*?\n", "")]);
    assert_eq!(
        jobs[2].fixups,
        vec![
            (r"FMOD_BUILDNUMBER: ::core::ffi::c_int", "FMOD_BUILDNUMBER: ::core::ffi::c_uint"),
            (r"pub type FMOD_ASYNCREADINFO.*?\n", ""),
        ]
    );
    assert_eq!(jobs[3].fixups, vec![(r"pub type FMOD_(DSP_(STATE|BUFFER_ARRAY)|COMPLEX).*?\n", "")]);
    assert_eq!(jobs[6].fixups, vec![(r"pub type FMOD_OUTPUT_(STATE|OBJECT3DINFO).*?\n", "")]);
    let studio: Vec<&str> = studio_headers().iter().map(|j| j.header).collect();
    assert_eq!(studio, vec!["fmod_studio.h", "fmod_studio_common.h"]);
    let fsbank: Vec<&str> = fsbank_headers().iter().map(|j| j.header).collect();
    assert_eq!(fsbank, vec!["fsbank.h", "fsbank_errors.h"]);
    assert!(fsbank_headers().iter().all(|j| j.fixups.is_empty()));
}
