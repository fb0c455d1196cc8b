use enum_extract::accessor::AccessorKind;
use enum_extract::declaration::{FieldShape, GenericParameter, NamedField, VariantDeclaration};
use enum_extract::driver::{impl_all_as_fns, Synthesis};
use enum_extract::value::{EnumValue, MismatchError};

/// The data of one field.
#[allow(dead_code)]
#[derive(Debug, Clone, Copy, PartialEq)]
enum Scalar {
    Bool(bool),
    U32(u32),
    I16(i16),
    I32(i32),
    I64(i64),
}

#[allow(dead_code)]
fn unit(name: &str) -> VariantDeclaration {
    VariantDeclaration { name: name.to_string(), shape: FieldShape::Unit }
}

#[allow(dead_code)]
fn positional(name: &str, types: &[&str]) -> VariantDeclaration {
    VariantDeclaration {
        name: name.to_string(),
        shape: FieldShape::Positional(types.iter().map(|ty| ty.to_string()).collect()),
    }
}

#[allow(dead_code)]
fn named(name: &str, fields: &[(&str, &str)]) -> VariantDeclaration {
    VariantDeclaration {
        name: name.to_string(),
        shape: FieldShape::Named(
            fields
                .iter()
                .map(|(name, ty)| NamedField { name: name.to_string(), ty: ty.to_string() })
                .collect(),
        ),
    }
}

#[allow(dead_code)]
fn derive(
    name: &str,
    generics: Vec<GenericParameter>,
    variants: Vec<VariantDeclaration>,
) -> Synthesis {
    impl_all_as_fns(name, &generics, &variants)
}

/// The position of the variant that the accessor of this name is for.
fn position(api: &Synthesis, name: &str, kind: AccessorKind) -> usize {
    let index = api.find(name).expect("no accessor of that name");
    assert_eq!(api.accessors[index].kind, kind);
    api.accessors[index].position
}

#[allow(dead_code)]
fn is<T>(api: &Synthesis, name: &str, value: &EnumValue<T>) -> bool {
    api.dispatcher.is_variant(position(api, name, AccessorKind::Is), value)
}

#[allow(dead_code)]
fn as_ref<'v, T>(
    api: &Synthesis,
    name: &str,
    value: &'v EnumValue<T>,
) -> Result<&'v [T], MismatchError<T>> {
    api.dispatcher.as_variant(position(api, name, AccessorKind::As), value)
}

#[allow(dead_code)]
fn as_mut<'v, T>(
    api: &Synthesis,
    name: &str,
    value: &'v mut EnumValue<T>,
) -> Result<&'v mut [T], MismatchError<T>> {
    api.dispatcher.as_variant_mut(position(api, name, AccessorKind::AsMut), value)
}

#[allow(dead_code)]
fn into<T>(api: &Synthesis, name: &str, value: EnumValue<T>) -> Result<Vec<T>, MismatchError<T>> {
    api.dispatcher.into_variant(position(api, name, AccessorKind::Into), value)
}

/// `enum UnitVariants { One, Two, Three }`
fn unit_variants() -> Synthesis {
    derive("UnitVariants", vec![], vec![unit("One"), unit("Two"), unit("Three")])
}

#[test]
fn test_one_unit() {
    let api = unit_variants();
    let unit: EnumValue<Scalar> = EnumValue::new(0, vec![]);

    assert!(is(&api, "is_one", &unit));
    assert!(!is(&api, "is_two", &unit));
    assert!(!is(&api, "is_three", &unit));
}

#[test]
fn test_two_unit() {
    let api = unit_variants();
    let unit: EnumValue<Scalar> = EnumValue::new(1, vec![]);

    assert!(!is(&api, "is_one", &unit));
    assert!(is(&api, "is_two", &unit));
    assert!(!is(&api, "is_three", &unit));
}

#[test]
fn test_three_unit() {
    let api = unit_variants();
    let unit: EnumValue<Scalar> = EnumValue::new(2, vec![]);

    assert!(!is(&api, "is_one", &unit));
    assert!(!is(&api, "is_two", &unit));
    assert!(is(&api, "is_three", &unit));
}

#[test]
fn unit_variant_tests_error_should_contain_expected_and_actual() {
    let api = unit_variants();
    let many: EnumValue<Scalar> = EnumValue::new(2, vec![]);

    let error = into(&api, "into_one", many.clone()).unwrap_err();

    assert_eq!(error.source.expected, "One");
    assert_eq!(error.source.actual, "Three");
    assert_eq!(error.value, ::core::option::Option::Some(many));
    assert_eq!(error.to_string(), "expected One, got Three");
}

#[test]
fn unit_variant_borrows_and_gives_no_fields() {
    let api = unit_variants();
    let mut unit: EnumValue<Scalar> = EnumValue::new(1, vec![]);

    assert!(as_ref(&api, "as_two", &unit).unwrap().is_empty());
    assert!(as_mut(&api, "as_two_mut", &mut unit).unwrap().is_empty());
    assert!(into(&api, "into_two", unit).unwrap().is_empty());
}
