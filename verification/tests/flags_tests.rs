use fmod_rs::constants::{ConstantSet, ConstantSetError, NamedConstant};
use fmod_rs::flags::Flags;

fn init_flags() -> ConstantSet {
    ConstantSet::define(
        "InitFlags".to_string(),
        vec![
            NamedConstant { name: "Normal".to_string(), value: 0, is_default: true },
            NamedConstant { name: "StreamFromUpdate".to_string(), value: 1, is_default: false },
            NamedConstant { name: "MixFromUpdate".to_string(), value: 2, is_default: false },
            NamedConstant { name: "Alias".to_string(), value: 2, is_default: false },
        ],
    )
    .unwrap()
}

#[test]
fn is_set_means_all_flags_set() {
    let a = Flags::from_raw(0b1011);
    assert!(a.is_set(Flags::from_raw(0b0011)));
    assert!(a.is_set(Flags::from_raw(0b1000)));
    assert!(!a.is_set(Flags::from_raw(0b0110)));
    assert!(a.is_set(Flags::zeroed()));
    assert!(!Flags::zeroed().is_set(a));
    assert!(a.is_set(a));
}

#[test]
fn operators_act_on_the_mask() {
    let a = Flags::from_raw(0b1100);
    let b = Flags::from_raw(0b1010);
    assert_eq!((a & b).into_raw(), 0b1000);
    assert_eq!((a | b).into_raw(), 0b1110);
    assert_eq!((a ^ b).into_raw(), 0b0110);
    assert_eq!((!a).into_raw(), !0b1100u32);
    assert_eq!((&a & b).into_raw(), 0b1000);
    assert_eq!((a | &b).into_raw(), 0b1110);
    assert_eq!((&a ^ &b).into_raw(), 0b0110);
    assert_eq!((!&a).into_raw(), !0b1100u32);
    let mut c = a;
    c |= b;
    assert_eq!(c.into_raw(), 0b1110);
    c &= &b;
    assert_eq!(c.into_raw(), 0b1010);
    c ^= b;
    assert_eq!(c, Flags::zeroed());
}

#[test]
fn union_holds_both_and_intersection_is_held() {
    let a = Flags::from_raw(0x30);
    let b = Flags::from_raw(0x05);
    assert!((a | b).is_set(a) && (a | b).is_set(b));
    assert!(a.is_set(a & b) && b.is_set(a & b));
    assert_eq!((a ^ b) ^ b, a);
    assert_eq!(!!a, a);
    assert_eq!((a & !a).into_raw(), 0);
    assert_eq!((a | !a).into_raw(), u32::MAX);
}

#[test]
fn raw_views() {
    let mut a = Flags::from_raw(7);
    assert_eq!(*a.as_raw(), 7);
    *a.as_raw_mut() = 9;
    assert_eq!(a.into_raw(), 9);
    assert_eq!(Flags::from_raw(a.into_raw()), a);
}

#[test]
fn debug_names_first_matching_constant() {
    let c = init_flags();
    assert_eq!(Flags::from_raw(2).debug_string(&c), "MixFromUpdate");
    assert_eq!(Flags::zeroed().debug_string(&c), "Normal");
    assert_eq!(Flags::from_raw(3).debug_string(&c), "InitFlags { raw: 3 }");
    assert_eq!(Flags::from_raw(u32::MAX).debug_string(&c), "InitFlags { raw: 4294967295 }");
}

#[test]
fn default_is_the_marked_constant() {
    let c = init_flags();
    assert_eq!(Flags::default_in(&c), Some(Flags::zeroed()));
    let none = ConstantSet::define(
        "X".to_string(),
        vec![NamedConstant { name: "A".to_string(), value: 4, is_default: false }],
    )
    .unwrap();
    assert_eq!(Flags::default_in(&none), None);
    let wide = ConstantSet::define(
        "X".to_string(),
        vec![NamedConstant { name: "A".to_string(), value: -1, is_default: true }],
    )
    .unwrap();
    assert_eq!(Flags::default_in(&wide), None);
}

#[test]
fn constant_set_errors() {
    let r = ConstantSet::define(
        "X".to_string(),
        vec![
            NamedConstant { name: "A".to_string(), value: 1, is_default: false },
            NamedConstant { name: "B".to_string(), value: 2, is_default: false },
            NamedConstant { name: "A".to_string(), value: 3, is_default: false },
        ],
    );
    assert_eq!(r.err(), Some(ConstantSetError::DuplicateName { index: 2 }));
    let r = ConstantSet::define(
        "X".to_string(),
        vec![
            NamedConstant { name: "A".to_string(), value: 1, is_default: true },
            NamedConstant { name: "B".to_string(), value: 2, is_default: true },
        ],
    );
    assert_eq!(r.err(), Some(ConstantSetError::MultipleDefaults { index: 1 }));
}

#[test]
fn constant_set_lookups() {
    let c = init_flags();
    assert_eq!(c.type_ident(), "InitFlags");
    assert_eq!(c.first_with_value(2), Some(2));
    assert_eq!(c.first_with_value(9), None);
    assert_eq!(c.default_value(), Some(0));
    assert_eq!(c.debug_string(-5), "InitFlags { raw: -5 }");
}

#[test]
fn is_set_checks_every_bit() {
    for (a, b) in [(0xf0u32, 0x30u32), (0xf0, 0x31), (0, 0), (u32::MAX, 0x8000_0000), (0x8000_0000, 0x4000_0000)] {
        let per_bit = (0..32).all(|i| (b >> i) & 1 == 0 || (a >> i) & 1 == 1);
        assert_eq!(Flags::from_raw(a).is_set(Flags::from_raw(b)), per_bit);
    }
}
