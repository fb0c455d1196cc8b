//! The errors that accessors report when a value holds another variant than
//! the one asked for.

use vstd::prelude::*;

verus! {

/// The text of a mismatch report: `expected {expected}, got {actual}`.
pub open spec fn mismatch_message(expected: Seq<char>, actual: Seq<char>) -> Seq<char> {
    "expected "@ + expected + ", got "@ + actual
}

/// What an [`EnumExtractError`] says: the names of the two variants.
pub struct Mismatch {
    pub expected: Seq<char>,
    pub actual: Seq<char>,
}

/// An error that occurs when the actual variant does not match the expected variant.
#[derive(Debug)]
pub struct EnumExtractError {
    /// The name of the expected variant.
    pub expected: String,
    /// The name of the actual variant.
    pub actual: String,
}

impl View for EnumExtractError {
    type V = Mismatch;

    open spec fn view(&self) -> Mismatch {
        Mismatch { expected: self.expected@, actual: self.actual@ }
    }
}

impl Clone for EnumExtractError {
    fn clone(&self) -> (copy: Self)
        ensures
            copy@ == self@,
    {
        EnumExtractError { expected: self.expected.clone(), actual: self.actual.clone() }
    }
}

impl EnumExtractError {
    /// Create a new [`EnumExtractError`].
    pub fn new(expected: &str, actual: &str) -> (error: Self)
        ensures
            error@ == (Mismatch { expected: expected@, actual: actual@ }),
    {
        EnumExtractError { expected: String::from_str(expected), actual: String::from_str(actual) }
    }

    /// The report as text.
    pub fn to_string(&self) -> (text: String)
        ensures
            text@ == mismatch_message(self.expected@, self.actual@),
    {
        let mut text = String::from_str("expected ");
        text.append(self.expected.as_str());
        text.append(", got ");
        text.append(self.actual.as_str());
        text
    }
}

/// An error that occurs when the actual variant does not match the expected variant.
///
/// It holds a value next to the plain error, so that a caller who gave a
/// value away gets it back.
#[derive(Debug)]
pub struct EnumExtractValueError<T> {
    /// The inner extraction error.
    pub source: EnumExtractError,
    /// The value of the actual variant.
    pub value: T,
}

/// What an [`EnumExtractValueError`] says: the names of the two variants, and
/// the value that it holds.
pub struct ValueMismatch<T> {
    pub names: Mismatch,
    pub value: T,
}

impl<T> View for EnumExtractValueError<T> {
    type V = ValueMismatch<T>;

    open spec fn view(&self) -> ValueMismatch<T> {
        ValueMismatch { names: self.source@, value: self.value }
    }
}

impl<T> EnumExtractValueError<T> {
    /// Wrap a plain error and a value.
    pub fn from_plain_error(extract_error: EnumExtractError, value: T) -> (error: Self)
        ensures
            error.source == extract_error,
            error.value == value,
    {
        EnumExtractValueError { source: extract_error, value }
    }

    /// Create a new [`EnumExtractValueError`].
    pub fn new(expected: &str, actual: &str, value: T) -> (error: Self)
        ensures
            error@ == (ValueMismatch {
                names: Mismatch { expected: expected@, actual: actual@ },
                value,
            }),
    {
        EnumExtractValueError { source: EnumExtractError::new(expected, actual), value }
    }

    /// The report as text: that of the plain error.
    pub fn to_string(&self) -> (text: String)
        ensures
            text@ == mismatch_message(self.source.expected@, self.source.actual@),
    {
        self.source.to_string()
    }
}

impl<T> From<EnumExtractValueError<T>> for EnumExtractError {
    fn from(value: EnumExtractValueError<T>) -> (error: Self) {
        value.source
    }
}

impl<T> vstd::std_specs::convert::FromSpecImpl<EnumExtractValueError<T>> for EnumExtractError {
    open spec fn obeys_from_spec() -> bool {
        true
    }

    open spec fn from_spec(value: EnumExtractValueError<T>) -> EnumExtractError {
        value.source
    }
}

} // verus!
