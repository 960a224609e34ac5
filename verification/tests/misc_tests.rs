use fmod_rs::build_helper::{find_fmod_pc, find_fmod_uwp, pc_registry_key, uwp_registry_key};
use fmod_rs::class::{calls_release, class_prefix, handle_debug_string, module_name, ClassApi, ReleaseKind};
use fmod_rs::macros::{
    assert_type_eq, doc_callout, index_out_of_bounds, ix, precondition_violation_message,
    whoops_action, WhoopsAction,
};
use fmod_rs::structs::{check_mirror, LayoutMismatch, TypeLayout};
use fmod_rs::text::{push_decimal, push_decimal_pad2, push_hex, push_signed_decimal, str_eq};

#[test]
fn index_conversion() {
    assert_eq!(ix(5), Ok(5));
    assert_eq!(ix(0), Ok(0));
    assert_eq!(ix(-1), Err("index out of bounds: -1 is not a valid index".to_string()));
    assert_eq!(ix(usize::MAX as i128), Ok(usize::MAX));
    assert!(ix(usize::MAX as i128 + 1).is_err());
    assert_eq!(
        index_out_of_bounds(i128::MIN),
        format!("index out of bounds: {} is not a valid index", i128::MIN)
    );
}

#[test]
fn whoops_policy() {
    assert_eq!(whoops_action(false, true, false), WhoopsAction::Panic);
    assert_eq!(whoops_action(false, true, true), WhoopsAction::Log);
    assert_eq!(whoops_action(false, false, false), WhoopsAction::Log);
    assert_eq!(whoops_action(true, true, false), WhoopsAction::Log);
}

#[test]
fn callout_text() {
    assert_eq!(
        doc_callout("Not", &vec!["thread", "safe."]),
        "<div class=\"warning fmod-rs-callout\">\n\nNot thread safe.\n\n</div>"
    );
    assert_eq!(
        doc_callout("Alone", &vec![]),
        "<div class=\"warning fmod-rs-callout\">\n\nAlone\n\n</div>"
    );
}

#[test]
fn precondition_message() {
    assert_eq!(
        precondition_violation_message("x > 0"),
        "unsafe precondition(s) violated: x > 0\n\nThis indicates a bug in the program. This Undefined Behavior check is optional, and cannot be relied on for safety."
    );
}

#[test]
fn type_equality_compiles_for_equal_types() {
    assert_type_eq::<i32, i32>();
}

#[test]
fn class_debug_and_modules() {
    assert_eq!(handle_debug_string(class_prefix(ClassApi::Core), "System", 0x1f20), "fmod::System(0x1f20)");
    assert_eq!(
        handle_debug_string(class_prefix(ClassApi::Studio), "Bank", 0),
        "fmod::studio::Bank(0x0)"
    );
    assert_eq!(handle_debug_string("fmod::", "Sound", 0xdead_beef), "fmod::Sound(0xdeadbeef)");
    assert_eq!(module_name("ChannelGroup"), "channel_group");
    assert_eq!(module_name("System"), "system");
    assert_eq!(module_name("DSP"), "d_s_p");
    assert_eq!(module_name("Event_Description"), "event_description");
    assert_eq!(module_name("ÄpfelBaum"), "äpfel_baum");
    assert!(calls_release(ReleaseKind::Owned));
    assert!(!calls_release(ReleaseKind::Weak));
}

#[test]
fn mirror_layout_checks() {
    let a = TypeLayout { size: 16, align: 8 };
    assert_eq!(check_mirror(a, a, &vec![(0, 0), (8, 8)]), Ok(()));
    assert_eq!(check_mirror(a, TypeLayout { size: 12, align: 8 }, &vec![]), Err(LayoutMismatch::Size));
    assert_eq!(check_mirror(a, TypeLayout { size: 16, align: 4 }, &vec![]), Err(LayoutMismatch::Align));
    assert_eq!(
        check_mirror(a, a, &vec![(0, 0), (4, 8), (8, 4)]),
        Err(LayoutMismatch::FieldOffset { index: 1 })
    );
}

#[test]
fn sdk_paths() {
    assert_eq!(
        find_fmod_pc(Some("C:/FMOD".to_string()), "x64"),
        Some(["C:/FMOD/api/core/inc".to_string(), "C:/FMOD/api/core/lib/x64".to_string()])
    );
    assert_eq!(find_fmod_uwp(None, "arm"), None);
    assert_eq!(
        find_fmod_uwp(Some("D:/sdk".to_string()), "arm"),
        Some(["D:/sdk/api/core/inc".to_string(), "D:/sdk/api/core/lib/arm".to_string()])
    );
    assert_eq!(pc_registry_key(), r"Software\FMOD Studio API Windows");
    assert_eq!(uwp_registry_key(), r"Software\FMOD Studio API Universal Windows Platform");
}

#[test]
fn number_text() {
    let mut s = String::new();
    push_decimal(&mut s, 1234567890123);
    push_char_sep(&mut s);
    push_hex(&mut s, 0xabc0);
    push_char_sep(&mut s);
    push_signed_decimal(&mut s, -42);
    push_char_sep(&mut s);
    push_decimal_pad2(&mut s, 7);
    push_char_sep(&mut s);
    push_decimal_pad2(&mut s, 123);
    assert_eq!(s, "1234567890123,abc0,-42,07,123");
    assert!(str_eq("abc", "abc"));
    assert!(!str_eq("abc", "abd"));
    assert!(!str_eq("ab", "abc"));
}

fn push_char_sep(s: &mut String) {
    fmod_rs::text::push_char(s, ',');
}
