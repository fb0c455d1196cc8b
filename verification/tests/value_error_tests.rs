use enum_extract::error::{EnumExtractError, EnumExtractValueError};

#[test]
fn data_error_should_convert_to_plain_error() {
    // arrange
    let plain_error = EnumExtractError::new("One", "Two");
    let data_error = EnumExtractValueError::from_plain_error(plain_error.clone(), Some(1));

    // act
    let converted_error: EnumExtractError = data_error.into();

    // assert
    assert_eq!(converted_error.expected, plain_error.expected);
    assert_eq!(converted_error.actual, plain_error.actual);
}

#[test]
fn data_error_should_convert_to_plain_error_with_question_mark_operator(
) -> Result<(), EnumExtractError> {
    // arrange
    let result: Result<(), EnumExtractValueError<i32>> = Ok(());

    _ = result?;

    Ok(())
}

#[test]
fn plain_error_reads_expected_then_actual() {
    let error = EnumExtractError::new("One", "Three");
    assert_eq!(error.expected, "One");
    assert_eq!(error.actual, "Three");
    assert_eq!(error.to_string(), "expected One, got Three");
}

#[test]
fn value_error_keeps_the_value_and_the_names() {
    let error = EnumExtractValueError::new("One", "Three", 7_u8);
    assert_eq!(error.source.expected, "One");
    assert_eq!(error.source.actual, "Three");
    assert_eq!(error.value, 7);
    assert_eq!(error.to_string(), "expected One, got Three");
}
