use fmod_rs::constants::{ConstantSet, NamedConstant};
use fmod_rs::typedef_enum::TypedefEnum;

fn port_types() -> ConstantSet {
    ConstantSet::define(
        "PortType".to_string(),
        vec![
            NamedConstant { name: "Music".to_string(), value: 0, is_default: false },
            NamedConstant { name: "CopyrightMusic".to_string(), value: 1, is_default: true },
        ],
    )
    .unwrap()
}

#[test]
fn every_raw_value_is_kept() {
    assert_eq!(TypedefEnum::from_raw(-7).into_raw(), -7);
    assert_eq!(TypedefEnum::zeroed().into_raw(), 0);
    let mut e = TypedefEnum::from_raw(1);
    assert_eq!(*e.as_raw(), 1);
    *e.as_raw_mut() = 42;
    assert_eq!(e.into_raw(), 42);
}

#[test]
fn typedef_debug_and_default() {
    let c = port_types();
    assert_eq!(TypedefEnum::from_raw(1).debug_string(&c), "CopyrightMusic");
    assert_eq!(TypedefEnum::from_raw(-2).debug_string(&c), "PortType { raw: -2 }");
    assert_eq!(TypedefEnum::default_in(&c), Some(TypedefEnum::from_raw(1)));
}
