use fmod_rs::strict_enum::{BoundsClause, DefinitionError, EnumVariant, FmodError, StrictEnum};

fn variants(values: &[(&str, i32)]) -> Vec<EnumVariant> {
    values
        .iter()
        .map(|(n, v)| EnumVariant { name: n.to_string(), value: *v })
        .collect()
}

fn speaker_mode() -> StrictEnum {
    StrictEnum::define(
        "SpeakerMode".to_string(),
        BoundsClause::Unbounded { raw_max: 3 },
        variants(&[("Default", 0), ("Raw", 1), ("Mono", 2)]),
    )
    .unwrap()
}

#[test]
fn try_from_raw_accepts_exactly_the_range() {
    let e = speaker_mode();
    assert_eq!(e.min(), 0);
    assert_eq!(e.max(), 3);
    assert_eq!(e.variant_count(), 3);
    assert_eq!(e.try_from_raw(0), Ok(0));
    assert_eq!(e.try_from_raw(2), Ok(2));
    assert_eq!(e.try_from_raw(3), Err(FmodError::InvalidParam));
    assert_eq!(e.try_from_raw(-1), Err(FmodError::InvalidParam));
    assert_eq!(e.try_from_raw(i32::MIN), Err(FmodError::InvalidParam));
}

#[test]
fn raw_round_trip_in_declaration_order_independent_of_values() {
    let e = StrictEnum::define(
        "Order".to_string(),
        BoundsClause::BelowAtLeast { max: 2, min: -1 },
        variants(&[("Two", 1), ("Neg", -1), ("Zero", 0)]),
    )
    .unwrap();
    for i in 0..e.variant_count() {
        let raw = e.into_raw(i);
        assert_eq!(e.try_from_raw(raw), Ok(i));
    }
    assert_eq!(e.from_raw(-1), 1);
    assert_eq!(e.variant_name(e.zeroed()), "Zero");
    assert_eq!(e.name(), "Order");
}

#[test]
fn zeroed_is_the_zero_variant() {
    let e = speaker_mode();
    assert_eq!(e.into_raw(e.zeroed()), 0);
    assert_eq!(e.variant_name(1), "Raw");
}

#[test]
fn inclusive_upper_bound_is_made_exclusive() {
    let e = StrictEnum::define(
        "E".to_string(),
        BoundsClause::AtMostAtLeast { max: 1, min: 0 },
        variants(&[("A", 0), ("B", 1)]),
    )
    .unwrap();
    assert_eq!(e.max(), 2);
    assert_eq!(e.try_from_raw(1), Ok(1));
    let e = StrictEnum::define("F".to_string(), BoundsClause::AtMost { max: 0 }, variants(&[("A", 0)]))
        .unwrap();
    assert_eq!(e.max(), 1);
    let e = StrictEnum::define(
        "G".to_string(),
        BoundsClause::AtLeast { min: -2, raw_max: 1 },
        variants(&[("A", -2), ("B", -1), ("C", 0)]),
    )
    .unwrap();
    assert_eq!(e.min(), -2);
    let e = StrictEnum::define("H".to_string(), BoundsClause::Below { max: 1 }, variants(&[("A", 0)]))
        .unwrap();
    assert_eq!(e.try_from_raw(1), Err(FmodError::InvalidParam));
}

#[test]
fn definition_errors() {
    let r = StrictEnum::define("E".to_string(), BoundsClause::AtMost { max: i32::MAX }, variants(&[("A", 0)]));
    assert_eq!(r.err(), Some(DefinitionError::BoundOverflow));
    let r = StrictEnum::define(
        "E".to_string(),
        BoundsClause::Unbounded { raw_max: 2 },
        variants(&[("A", 0), ("B", 5), ("C", 7)]),
    );
    assert_eq!(r.err(), Some(DefinitionError::VariantOutOfRange { index: 1 }));
    let r = StrictEnum::define(
        "E".to_string(),
        BoundsClause::AtLeast { min: 1, raw_max: 3 },
        variants(&[("A", 1), ("B", 2)]),
    );
    assert_eq!(r.err(), Some(DefinitionError::ZeroOutOfRange));
    let r = StrictEnum::define(
        "E".to_string(),
        BoundsClause::BelowAtLeast { max: i32::MAX, min: -10 },
        variants(&[("A", 0)]),
    );
    assert_eq!(r.err(), Some(DefinitionError::CountOverflow));
    let r = StrictEnum::define(
        "E".to_string(),
        BoundsClause::Unbounded { raw_max: 3 },
        variants(&[("A", 0), ("B", 2)]),
    );
    assert_eq!(r.err(), Some(DefinitionError::MissingVariants));
    let r = StrictEnum::define(
        "E".to_string(),
        BoundsClause::Unbounded { raw_max: 2 },
        variants(&[("A", 0), ("B", 1), ("C", 1)]),
    );
    assert_eq!(r.err(), Some(DefinitionError::ExtraneousVariants));
    let r = StrictEnum::define(
        "E".to_string(),
        BoundsClause::Unbounded { raw_max: 3 },
        variants(&[("A", 0), ("B", 1), ("C", 1)]),
    );
    assert_eq!(r.err(), Some(DefinitionError::DuplicateValue { index: 2 }));
}
