use fmod_rs::version::{
    cfg_values, is_supported_major, parse_u8_range, parse_version, split_dot_ranges,
    version_label_string, CfgKey, FmodVersion, VersionError,
};

fn v(product: u8, major: u8, minor: u8) -> FmodVersion {
    FmodVersion { product, major, minor }
}

#[test]
fn parses_three_decimal_parts() {
    assert_eq!(parse_version("2.3.12"), Ok(v(2, 3, 12)));
    assert_eq!(parse_version("0002.03.12"), Ok(v(2, 3, 12)));
    assert_eq!(parse_version("+2.2.255"), Ok(v(2, 2, 255)));
}

#[test]
fn version_errors() {
    assert_eq!(parse_version("2.3"), Err(VersionError::WrongPartCount));
    assert_eq!(parse_version("2.3.1.0"), Err(VersionError::WrongPartCount));
    assert_eq!(parse_version(""), Err(VersionError::WrongPartCount));
    assert_eq!(parse_version("2.x.1"), Err(VersionError::InvalidNumber { index: 1 }));
    assert_eq!(parse_version("2..1"), Err(VersionError::InvalidNumber { index: 1 }));
    assert_eq!(parse_version("2.3.256"), Err(VersionError::InvalidNumber { index: 2 }));
    assert_eq!(parse_version("-2.3.1"), Err(VersionError::InvalidNumber { index: 0 }));
    assert_eq!(parse_version("1.3.1"), Err(VersionError::UnsupportedProduct));
}

#[test]
fn u8_parsing_matches_std() {
    for s in ["0", "7", "255", "256", "+", "+12", "-1", "", "1a", "007", "99999"] {
        let n = s.chars().count();
        assert_eq!(parse_u8_range(s, 0, n), s.parse::<u8>().ok(), "{s}");
    }
    assert_eq!(parse_u8_range("ab12cd", 2, 4), Some(12));
}

#[test]
fn split_matches_std() {
    for s in ["", ".", "a.b", "2.03.12", "..x.", "abc"] {
        let (ranges, last) = split_dot_ranges(s);
        let chars: Vec<char> = s.chars().collect();
        let mut pieces: Vec<String> =
            ranges.iter().map(|(a, b)| chars[*a..*b].iter().collect()).collect();
        pieces.push(chars[last..].iter().collect());
        let expected: Vec<String> = s.split('.').map(|p| p.to_string()).collect();
        assert_eq!(pieces, expected, "{s}");
    }
}

#[test]
fn supported_majors() {
    assert!(is_supported_major(2));
    assert!(is_supported_major(3));
    assert!(!is_supported_major(1));
    assert!(!is_supported_major(4));
}

#[test]
fn version_label_is_zero_padded() {
    assert_eq!(version_label_string(3, 9), "2.03.09");
    assert_eq!(version_label_string(2, 33), "2.02.33");
    assert_eq!(version_label_string(12, 100), "2.12.100");
}

fn pairs(ver: FmodVersion) -> Vec<(&'static str, String)> {
    cfg_values(ver).into_iter().map(|c| (c.key.cfg_name(), c.value)).collect()
}

#[test]
fn cfg_values_for_2_02() {
    let got = pairs(v(2, 2, 1));
    let want: Vec<(&str, String)> = vec![
        ("fmod_version_major", "2".into()),
        ("fmod_has_version_major", "2".into()),
        ("fmod_version_minor", "1".into()),
        ("fmod_has_version_minor", "0".into()),
        ("fmod_has_version_minor", "1".into()),
        ("fmod_version", "2.02.01".into()),
        ("fmod_has_version", "2.02.00".into()),
        ("fmod_has_version", "2.02.01".into()),
    ];
    assert_eq!(got, want);
}

#[test]
fn cfg_values_for_2_03_include_legacy_2_02() {
    let got = pairs(v(2, 3, 0));
    assert_eq!(got[0], ("fmod_version_major", "3".to_string()));
    assert_eq!(got[1], ("fmod_has_version_major", "2".to_string()));
    assert_eq!(got[2], ("fmod_has_version_major", "3".to_string()));
    assert_eq!(got[5], ("fmod_version", "2.03.00".to_string()));
    assert_eq!(got[6], ("fmod_has_version", "2.03.00".to_string()));
    assert_eq!(got[7], ("fmod_has_version", "2.02.03".to_string()));
    assert_eq!(got.last().unwrap(), &("fmod_has_version", "2.02.33".to_string()));
    assert_eq!(got.len(), 1 + 2 + 1 + 1 + 1 + 1 + 31);
    assert_eq!(CfgKey::HasVersion.cfg_name(), "fmod_has_version");
}

#[test]
fn has_versions_are_never_newer_than_the_build() {
    let ver = v(2, 3, 4);
    let mut seen_current = false;
    for (key, value) in pairs(ver) {
        if key == "fmod_has_version" {
            let parts: Vec<u32> = value.split('.').map(|p| p.parse().unwrap()).collect();
            assert!((parts[1], parts[2]) <= (3, 4), "{value}");
            seen_current |= value == "2.03.04";
        }
    }
    assert!(seen_current);
}

#[test]
fn major_below_two_has_no_major_entries() {
    let got = pairs(v(2, 1, 0));
    assert_eq!(got[1], ("fmod_version_minor", "0".to_string()));
}

#[test]
fn declarations_list_allowed_values() {
    let d = fmod_rs::version::cfg_declarations();
    assert_eq!(d.len(), 9);
    assert_eq!(d[0].name, "fmod_version_major");
    assert_eq!(d[0].values, vec!["2".to_string(), "3".to_string()]);
    assert_eq!(d[2].name, "fmod_version_minor");
    assert_eq!(d[2].values.len(), 100);
    assert_eq!(d[2].values[99], "99");
    assert_eq!(d[4].name, "fmod_has_version");
    assert_eq!(d[4].values[0], "2.02.00");
    assert_eq!(d[7].name, "fmod_version");
    assert_eq!(d[7].values[99], "2.03.99");
    assert_eq!(d[8].name, "feature");
    assert_eq!(d[8].values, vec!["unstable_extern_type".to_string()]);
}

#[test]
fn published_values_are_declared() {
    let d = fmod_rs::version::cfg_declarations();
    for ver in [v(2, 2, 33), v(2, 3, 9), v(2, 3, 99)] {
        for c in cfg_values(ver) {
            let name = c.key.cfg_name();
            assert!(
                d.iter().any(|decl| decl.name == name && decl.values.contains(&c.value)),
                "{name}={}",
                c.value
            );
        }
    }
}
