use enum_extract::accessor::AccessorKind;
use enum_extract::declaration::{FieldShape, GenericParameter, NamedField, VariantDeclaration};
use enum_extract::driver::{impl_all_as_fns, Synthesis};
use enum_extract::value::{EnumValue, MismatchError};

/// The data of one field.
#[allow(dead_code)]
#[derive(Debug, Clone, Copy, PartialEq)]
enum Scalar {
    Bool(bool),
    U32(u32),
    I16(i16),
    I32(i32),
    I64(i64),
}

#[allow(dead_code)]
fn unit(name: &str) -> VariantDeclaration {
    VariantDeclaration { name: name.to_string(), shape: FieldShape::Unit }
}

#[allow(dead_code)]
fn positional(name: &str, types: &[&str]) -> VariantDeclaration {
    VariantDeclaration {
        name: name.to_string(),
        shape: FieldShape::Positional(types.iter().map(|ty| ty.to_string()).collect()),
    }
}

#[allow(dead_code)]
fn named(name: &str, fields: &[(&str, &str)]) -> VariantDeclaration {
    VariantDeclaration {
        name: name.to_string(),
        shape: FieldShape::Named(
            fields
                .iter()
                .map(|(name, ty)| NamedField { name: name.to_string(), ty: ty.to_string() })
                .collect(),
        ),
    }
}

#[allow(dead_code)]
fn derive(
    name: &str,
    generics: Vec<GenericParameter>,
    variants: Vec<VariantDeclaration>,
) -> Synthesis {
    impl_all_as_fns(name, &generics, &variants)
}

/// The position of the variant that the accessor of this name is for.
fn position(api: &Synthesis, name: &str, kind: AccessorKind) -> usize {
    let index = api.find(name).expect("no accessor of that name");
    assert_eq!(api.accessors[index].kind, kind);
    api.accessors[index].position
}

#[allow(dead_code)]
fn is<T>(api: &Synthesis, name: &str, value: &EnumValue<T>) -> bool {
    api.dispatcher.is_variant(position(api, name, AccessorKind::Is), value)
}

#[allow(dead_code)]
fn as_ref<'v, T>(
    api: &Synthesis,
    name: &str,
    value: &'v EnumValue<T>,
) -> Result<&'v [T], MismatchError<T>> {
    api.dispatcher.as_variant(position(api, name, AccessorKind::As), value)
}

#[allow(dead_code)]
fn as_mut<'v, T>(
    api: &Synthesis,
    name: &str,
    value: &'v mut EnumValue<T>,
) -> Result<&'v mut [T], MismatchError<T>> {
    api.dispatcher.as_variant_mut(position(api, name, AccessorKind::AsMut), value)
}

#[allow(dead_code)]
fn into<T>(api: &Synthesis, name: &str, value: EnumValue<T>) -> Result<Vec<T>, MismatchError<T>> {
    api.dispatcher.into_variant(position(api, name, AccessorKind::Into), value)
}

#[test]
fn test_empty() {
    // `enum EmptyTest {}`
    let api = derive("EmptyTest", vec![], vec![]);
    assert!(api.accessors.is_empty());
    assert!(api.dispatcher.arms.is_empty());

    let empty = std::option::Option::None::<EnumValue<Scalar>>;

    assert!(empty.is_none());
}

#[test]
fn test_empty_parends() {
    // `enum EmptyParendsTest { Empty() }`
    let api = derive("EmptyParendsTest", vec![], vec![positional("Empty", &[])]);
    let mut empty: EnumValue<Scalar> = EnumValue::new(0, vec![]);

    assert!(is(&api, "is_empty", &empty));

    as_ref(&api, "as_empty", &empty).expect("should have been something and a unit");
    as_mut(&api, "as_empty_mut", &mut empty).expect("should have been something and a unit");

    into(&api, "into_empty", empty).expect("should have been something and a unit");
}

#[test]
fn test_one() {
    // `enum OneTest { One(u32) }`
    let api = derive("OneTest", vec![], vec![positional("One", &["u32"])]);
    let mut empty = EnumValue::new(0, vec![1_u32]);

    assert!(is(&api, "is_one", &empty));
    assert_eq!(as_ref(&api, "as_one", &empty).unwrap(), &[1]);
    assert_eq!(as_mut(&api, "as_one_mut", &mut empty).unwrap(), &mut [1]);
    assert_eq!(into(&api, "into_one", empty).unwrap(), vec![1]);
}

#[test]
fn test_multi() {
    // `enum MultiTest { Multi(u32, u32) }`
    let api = derive("MultiTest", vec![], vec![positional("Multi", &["u32", "u32"])]);
    let mut multi = EnumValue::new(0, vec![1_u32, 1_u32]);

    assert!(is(&api, "is_multi", &multi));
    assert_eq!(as_ref(&api, "as_multi", &multi).unwrap(), &[1_u32, 1_u32]);
    assert_eq!(as_mut(&api, "as_multi_mut", &mut multi).unwrap(), &mut [1_u32, 1_u32]);
    assert_eq!(into(&api, "into_multi", multi).unwrap(), vec![1_u32, 1_u32]);
}

#[test]
fn empty_parends_give_unit_on_every_path() {
    let api = derive("EmptyParendsTest", vec![], vec![positional("Empty", &[])]);
    let mut empty: EnumValue<Scalar> = EnumValue::new(0, vec![]);

    assert_eq!(as_ref(&api, "as_empty", &empty).unwrap(), &[]);
    assert_eq!(as_mut(&api, "as_empty_mut", &mut empty).unwrap(), &mut []);
    assert_eq!(into(&api, "into_empty", empty).unwrap(), vec![]);
}

#[test]
fn what_is_written_through_a_mutable_borrow_stays() {
    let api = derive("MultiTest", vec![], vec![positional("Multi", &["u32", "u32"])]);
    let mut multi = EnumValue::new(0, vec![1_u32, 1_u32]);

    as_mut(&api, "as_multi_mut", &mut multi).unwrap()[1] = 7;

    assert_eq!(multi.variant, 0);
    assert_eq!(as_ref(&api, "as_multi", &multi).unwrap(), &[1_u32, 7_u32]);
}

#[test]
fn one_two_three_scenario() {
    // `enum Union { One(u32), Two(u32, i32), Three { a: bool, b: u32, c: i64 } }`
    let api = derive(
        "Union",
        vec![],
        vec![
            positional("One", &["u32"]),
            positional("Two", &["u32", "i32"]),
            named("Three", &[("a", "bool"), ("b", "u32"), ("c", "i64")]),
        ],
    );
    let before = EnumValue::new(2, vec![Scalar::Bool(true), Scalar::U32(1), Scalar::I64(2)]);

    let error = into(&api, "into_one", before.clone()).unwrap_err();
    assert_eq!(error.source.expected, "One");
    assert_eq!(error.source.actual, "Three");
    assert_eq!(error.value, Some(before.clone()));

    let at = position(&api, "extract_as_three", AccessorKind::ExtractAs);
    assert_eq!(
        api.dispatcher.extract_as_variant(at, &before),
        &[Scalar::Bool(true), Scalar::U32(1), Scalar::I64(2)]
    );
    assert_eq!(api.dispatcher.variant_name(&before), "Three");
}

#[test]
fn a_mismatch_on_a_mutable_borrow_leaves_the_value() {
    // `enum MultiTest { Multi(u32, u32), Nothing }`
    let api = derive(
        "MultiTest",
        vec![],
        vec![positional("Multi", &["u32", "u32"]), unit("Nothing")],
    );
    let mut multi = EnumValue::new(0, vec![1_u32, 2_u32]);

    let error = as_mut(&api, "as_nothing_mut", &mut multi).unwrap_err();

    assert_eq!(error.source.expected, "Nothing");
    assert_eq!(error.source.actual, "Multi");
    assert_eq!(error.value, None);
    assert_eq!(error.to_string(), "expected Nothing, got Multi");
    assert_eq!(multi, EnumValue::new(0, vec![1_u32, 2_u32]));
}

#[test]
fn a_value_that_was_taken_comes_back_in_the_mismatch() {
    let api = derive(
        "MultiTest",
        vec![],
        vec![positional("Multi", &["u32", "u32"]), unit("Nothing")],
    );
    let nothing: EnumValue<u32> = EnumValue::new(1, vec![]);

    let error = into(&api, "into_multi", nothing).unwrap_err();

    assert_eq!(error.source.expected, "Multi");
    assert_eq!(error.source.actual, "Nothing");
    assert_eq!(error.value, Some(EnumValue::new(1, vec![])));
}
