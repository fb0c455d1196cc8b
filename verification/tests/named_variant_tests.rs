use enum_extract::accessor::AccessorKind;
use enum_extract::declaration::{FieldShape, GenericParameter, NamedField, VariantDeclaration};
use enum_extract::driver::{impl_all_as_fns, Synthesis};
use enum_extract::value::{EnumValue, MismatchError};

/// The data of one field.
#[allow(dead_code)]
#[derive(Debug, Clone, Copy, PartialEq)]
enum Scalar {
    Bool(bool),
    U32(u32),
    I16(i16),
    I32(i32),
    I64(i64),
}

#[allow(dead_code)]
fn unit(name: &str) -> VariantDeclaration {
    VariantDeclaration { name: name.to_string(), shape: FieldShape::Unit }
}

#[allow(dead_code)]
fn positional(name: &str, types: &[&str]) -> VariantDeclaration {
    VariantDeclaration {
        name: name.to_string(),
        shape: FieldShape::Positional(types.iter().map(|ty| ty.to_string()).collect()),
    }
}

#[allow(dead_code)]
fn named(name: &str, fields: &[(&str, &str)]) -> VariantDeclaration {
    VariantDeclaration {
        name: name.to_string(),
        shape: FieldShape::Named(
            fields
                .iter()
                .map(|(name, ty)| NamedField { name: name.to_string(), ty: ty.to_string() })
                .collect(),
        ),
    }
}

#[allow(dead_code)]
fn derive(
    name: &str,
    generics: Vec<GenericParameter>,
    variants: Vec<VariantDeclaration>,
) -> Synthesis {
    impl_all_as_fns(name, &generics, &variants)
}

/// The position of the variant that the accessor of this name is for.
fn position(api: &Synthesis, name: &str, kind: AccessorKind) -> usize {
    let index = api.find(name).expect("no accessor of that name");
    assert_eq!(api.accessors[index].kind, kind);
    api.accessors[index].position
}

#[allow(dead_code)]
fn is<T>(api: &Synthesis, name: &str, value: &EnumValue<T>) -> bool {
    api.dispatcher.is_variant(position(api, name, AccessorKind::Is), value)
}

#[allow(dead_code)]
fn as_ref<'v, T>(
    api: &Synthesis,
    name: &str,
    value: &'v EnumValue<T>,
) -> Result<&'v [T], MismatchError<T>> {
    api.dispatcher.as_variant(position(api, name, AccessorKind::As), value)
}

#[allow(dead_code)]
fn as_mut<'v, T>(
    api: &Synthesis,
    name: &str,
    value: &'v mut EnumValue<T>,
) -> Result<&'v mut [T], MismatchError<T>> {
    api.dispatcher.as_variant_mut(position(api, name, AccessorKind::AsMut), value)
}

#[allow(dead_code)]
fn into<T>(api: &Synthesis, name: &str, value: EnumValue<T>) -> Result<Vec<T>, MismatchError<T>> {
    api.dispatcher.into_variant(position(api, name, AccessorKind::Into), value)
}

#[allow(dead_code)]
fn extract_as<'v, T>(api: &Synthesis, name: &str, value: &'v EnumValue<T>) -> &'v [T] {
    let at = position(api, name, AccessorKind::ExtractAs);
    if !api.dispatcher.is_variant(at, value) {
        panic!("{}", api.dispatcher.extract_failure(at, value));
    }
    api.dispatcher.extract_as_variant(at, value)
}

#[allow(dead_code)]
fn extract_as_mut<'v, T>(api: &Synthesis, name: &str, value: &'v mut EnumValue<T>) -> &'v mut [T] {
    let at = position(api, name, AccessorKind::ExtractAsMut);
    if !api.dispatcher.is_variant(at, value) {
        panic!("{}", api.dispatcher.extract_failure(at, value));
    }
    api.dispatcher.extract_as_variant_mut(at, value)
}

#[allow(dead_code)]
fn extract_into<T>(api: &Synthesis, name: &str, value: EnumValue<T>) -> Vec<T> {
    let at = position(api, name, AccessorKind::ExtractInto);
    if !api.dispatcher.is_variant(at, &value) {
        panic!("{}", api.dispatcher.extract_failure(at, &value));
    }
    api.dispatcher.extract_into_variant(at, value)
}

/// `enum ManyVariants { One { one: u32 }, Two { one: u32, two: i32 },
/// Three { one: bool, two: u32, three: i64 } }`
fn many_variants() -> Synthesis {
    derive(
        "ManyVariants",
        vec![],
        vec![
            named("One", &[("one", "u32")]),
            named("Two", &[("one", "u32"), ("two", "i32")]),
            named("Three", &[("one", "bool"), ("two", "u32"), ("three", "i64")]),
        ],
    )
}

fn one(a: u32) -> EnumValue<Scalar> {
    EnumValue::new(0, vec![Scalar::U32(a)])
}

fn two(a: u32, b: i32) -> EnumValue<Scalar> {
    EnumValue::new(1, vec![Scalar::U32(a), Scalar::I32(b)])
}

fn three(a: bool, b: u32, c: i64) -> EnumValue<Scalar> {
    EnumValue::new(2, vec![Scalar::Bool(a), Scalar::U32(b), Scalar::I64(c)])
}

#[test]
fn named_variant_tests_test_one_named() {
    let api = many_variants();
    let mut many = one(1);

    assert!(is(&api, "is_one", &many));
    assert!(!is(&api, "is_two", &many));
    assert!(!is(&api, "is_three", &many));

    assert!(as_ref(&api, "as_one", &many).is_ok());
    assert!(as_ref(&api, "as_two", &many).is_err());
    assert!(as_ref(&api, "as_three", &many).is_err());

    assert!(as_mut(&api, "as_one_mut", &mut many).is_ok());
    assert!(as_mut(&api, "as_two_mut", &mut many).is_err());
    assert!(as_mut(&api, "as_three_mut", &mut many).is_err());

    assert_eq!(as_ref(&api, "as_one", &many).unwrap(), &[Scalar::U32(1_u32)]);
    assert_eq!(as_mut(&api, "as_one_mut", &mut many).unwrap(), &mut [Scalar::U32(1_u32)]);
}

#[test]
fn named_variant_tests_test_two_named() {
    let api = many_variants();
    let mut many = two(1, 2);

    assert!(!is(&api, "is_one", &many));
    assert!(is(&api, "is_two", &many));
    assert!(!is(&api, "is_three", &many));

    assert!(as_ref(&api, "as_one", &many).is_err());
    assert!(as_ref(&api, "as_two", &many).is_ok());
    assert!(as_ref(&api, "as_three", &many).is_err());

    assert!(as_mut(&api, "as_one_mut", &mut many).is_err());
    assert!(as_mut(&api, "as_two_mut", &mut many).is_ok());
    assert!(as_mut(&api, "as_three_mut", &mut many).is_err());

    assert_eq!(
        as_ref(&api, "as_two", &many).unwrap(),
        &[Scalar::U32(1_u32), Scalar::I32(2_i32)]
    );
    assert_eq!(
        as_mut(&api, "as_two_mut", &mut many).unwrap(),
        &mut [Scalar::U32(1_u32), Scalar::I32(2_i32)]
    );
    assert_eq!(
        into(&api, "into_two", many).unwrap(),
        vec![Scalar::U32(1_u32), Scalar::I32(2_i32)]
    );
}

#[test]
fn named_variant_tests_test_three_named() {
    let api = many_variants();
    let mut many = three(true, 1, 2);

    assert!(!is(&api, "is_one", &many));
    assert!(!is(&api, "is_two", &many));
    assert!(is(&api, "is_three", &many));

    assert!(as_ref(&api, "as_one", &many).is_err());
    assert!(as_ref(&api, "as_two", &many).is_err());
    assert!(as_ref(&api, "as_three", &many).is_ok());

    assert!(as_mut(&api, "as_one_mut", &mut many).is_err());
    assert!(as_mut(&api, "as_two_mut", &mut many).is_err());
    assert!(as_mut(&api, "as_three_mut", &mut many).is_ok());

    assert_eq!(
        as_ref(&api, "as_three", &many).unwrap(),
        &[Scalar::Bool(true), Scalar::U32(1_u32), Scalar::I64(2_i64)]
    );
    assert_eq!(
        as_mut(&api, "as_three_mut", &mut many).unwrap(),
        &mut [Scalar::Bool(true), Scalar::U32(1_u32), Scalar::I64(2_i64)]
    );
    assert_eq!(
        into(&api, "into_three", many).unwrap(),
        vec![Scalar::Bool(true), Scalar::U32(1_u32), Scalar::I64(2_i64)]
    );
}

#[test]
fn named_variant_tests_error_should_contain_expected_and_actual() {
    let api = many_variants();
    let many = three(true, 1, 2);

    let error = into(&api, "into_one", many.clone()).unwrap_err();

    assert_eq!(error.source.expected, "One");
    assert_eq!(error.source.actual, "Three");
    assert_eq!(error.value, ::core::option::Option::Some(many));
    assert_eq!(error.to_string(), "expected One, got Three");
}

#[test]
fn named_variant_tests_extract_as_should_not_panic_when_expected_variant_matches_actual() {
    let api = many_variants();
    let many = three(true, 1, 2);

    assert_eq!(
        extract_as(&api, "extract_as_three", &many),
        &[Scalar::Bool(true), Scalar::U32(1_u32), Scalar::I64(2_i64)]
    );
}

#[test]
#[should_panic(expected = "expected One, got Three")]
fn named_variant_tests_extract_as_should_panic_when_expected_variant_does_not_match_actual() {
    let api = many_variants();
    let many = three(true, 1, 2);

    extract_as(&api, "extract_as_one", &many);
}

#[test]
fn named_variant_tests_extract_as_mut_should_not_panic_when_expected_variant_matches_actual() {
    let api = many_variants();
    let mut many = three(true, 1, 2);

    assert_eq!(
        extract_as_mut(&api, "extract_as_three_mut", &mut many),
        &mut [Scalar::Bool(true), Scalar::U32(1_u32), Scalar::I64(2_i64)]
    );
}

#[test]
#[should_panic(expected = "expected One, got Three")]
fn named_variant_tests_extract_as_mut_should_panic_when_expected_variant_does_not_match_actual() {
    let api = many_variants();
    let mut many = three(true, 1, 2);

    extract_as_mut(&api, "extract_as_one_mut", &mut many);
}

#[test]
fn named_variant_tests_extract_into_should_not_panic_when_expected_variant_matches_actual() {
    let api = many_variants();
    let many = three(true, 1, 2);

    assert_eq!(
        extract_into(&api, "extract_into_three", many),
        vec![Scalar::Bool(true), Scalar::U32(1_u32), Scalar::I64(2_i64)]
    );
}

#[test]
#[should_panic(expected = "expected One, got Three")]
fn named_variant_tests_extract_into_should_panic_when_expected_variant_does_not_match_actual() {
    let api = many_variants();
    let many = three(true, 1, 2);

    extract_into(&api, "extract_into_one", many);
}
