use futures_enum::descriptor::{
    GenericParam, RawBody, RawInput, RawVariant, ValidationError,
};
use futures_enum::resolve::default_crate_name;
use futures_enum::{derive_future, derive_sink, extract};

fn gp(name: &str) -> GenericParam {
    GenericParam { decl: name.to_string(), name: name.to_string() }
}

fn tuple_variant(name: &str, payloads: &[&str]) -> RawVariant {
    RawVariant {
        name: name.to_string(),
        field_types: payloads.iter().map(|p| p.to_string()).collect(),
        fields_named: false,
    }
}

#[test]
fn extract_accepts_single_payload_variants() {
    let input = RawInput {
        name: "Either".to_string(),
        generics: vec![gp("A"), gp("B")],
        body: RawBody::Enum(vec![
            tuple_variant("A", &["A"]),
            tuple_variant("B", &["B"]),
        ]),
    };
    let d = extract(&input).unwrap();
    assert_eq!(d.name, "Either");
    assert_eq!(d.generics.len(), 2);
    assert_eq!(d.variants.len(), 2);
    assert_eq!(d.variants[0].name, "A");
    assert_eq!(d.variants[0].payload, "A");
    assert_eq!(d.variants[1].name, "B");
    assert_eq!(d.variants[1].payload, "B");
}

#[test]
fn zero_field_variant_rejected() {
    let input = RawInput {
        name: "Bad".to_string(),
        generics: vec![],
        body: RawBody::Enum(vec![
            tuple_variant("Ok", &["A"]),
            tuple_variant("Empty", &[]),
        ]),
    };
    match extract(&input) {
        Err(ValidationError::WrongFieldCount { variant, count }) => {
            assert_eq!(variant, "Empty");
            assert_eq!(count, 0);
        },
        _ => panic!("zero-field variant must be rejected by name"),
    }
}

#[test]
fn two_field_variant_rejected() {
    let input = RawInput {
        name: "Bad".to_string(),
        generics: vec![],
        body: RawBody::Enum(vec![tuple_variant("Pair", &["A", "B"])]),
    };
    match extract(&input) {
        Err(ValidationError::WrongFieldCount { variant, count }) => {
            assert_eq!(variant, "Pair");
            assert_eq!(count, 2);
        },
        _ => panic!("two-field variant must be rejected by name"),
    }
}

#[test]
fn unit_enum_rejected() {
    let input = RawInput {
        name: "Empty".to_string(),
        generics: vec![],
        body: RawBody::Enum(vec![]),
    };
    assert!(matches!(extract(&input), Err(ValidationError::NoVariants)));
}

#[test]
fn named_fields_variant_rejected() {
    let input = RawInput {
        name: "Bad".to_string(),
        generics: vec![],
        body: RawBody::Enum(vec![RawVariant {
            name: "Record".to_string(),
            field_types: vec!["A".to_string()],
            fields_named: true,
        }]),
    };
    match extract(&input) {
        Err(ValidationError::NamedFields { variant }) => assert_eq!(variant, "Record"),
        _ => panic!("named-field variant must be rejected by name"),
    }
}

#[test]
fn non_enum_input_rejected() {
    let input = RawInput {
        name: "S".to_string(),
        generics: vec![],
        body: RawBody::Struct,
    };
    assert!(matches!(extract(&input), Err(ValidationError::NotAnEnum)));
    let input = RawInput {
        name: "U".to_string(),
        generics: vec![],
        body: RawBody::Union,
    };
    assert!(matches!(extract(&input), Err(ValidationError::NotAnEnum)));
}

#[test]
fn first_offending_variant_is_reported() {
    let input = RawInput {
        name: "Bad".to_string(),
        generics: vec![],
        body: RawBody::Enum(vec![
            tuple_variant("Fine", &["A"]),
            tuple_variant("FirstBad", &[]),
            tuple_variant("SecondBad", &["A", "B"]),
        ]),
    };
    match extract(&input) {
        Err(ValidationError::WrongFieldCount { variant, count }) => {
            assert_eq!(variant, "FirstBad");
            assert_eq!(count, 0);
        },
        _ => panic!("the first offending variant must be the one reported"),
    }
}

#[test]
fn diagnostics_name_the_variant_and_the_expected_shape() {
    let not_an_enum = ValidationError::NotAnEnum;
    assert_eq!(not_an_enum.message(), "may only be used on enums");
    let no_variants = ValidationError::NoVariants;
    assert_eq!(no_variants.message(), "may not be used on enums without variants");
    let named = ValidationError::NamedFields { variant: "Record".to_string() };
    assert_eq!(
        named.message(),
        "may not be used on enums with variants with named fields: `Record`"
    );
    let wrong = ValidationError::WrongFieldCount { variant: "Pair".to_string(), count: 12 };
    assert_eq!(
        wrong.message(),
        "may only be used on enums whose variants have exactly one field: `Pair` has 12 fields"
    );
    let empty = ValidationError::WrongFieldCount { variant: "Empty".to_string(), count: 0 };
    assert_eq!(
        empty.message(),
        "may only be used on enums whose variants have exactly one field: `Empty` has 0 fields"
    );
}

#[test]
fn derivation_emits_nothing_on_invalid_input() {
    let input = RawInput {
        name: "Bad".to_string(),
        generics: vec![],
        body: RawBody::Enum(vec![tuple_variant("Empty", &[])]),
    };
    let res = default_crate_name();
    let future_result = derive_future(&input);
    match &future_result {
        Err(ValidationError::WrongFieldCount { variant, count }) => {
            assert_eq!(variant, "Empty");
            assert_eq!(*count, 0);
        },
        _ => panic!("derivation must surface the validation error"),
    }
    assert!(derive_sink(&input, &res).is_err());
}
