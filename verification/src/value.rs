//! Values of a tagged union, and what the accessors of a declaration do on
//! them.
//!
//! A value is the position of its active variant and the data of that
//! variant's fields in declaration order. The accessors for the variant at a
//! position go by the table of variant names that the synthesis gives.

use crate::accessor::kind_at;
use crate::declaration::EnumDeclarationView;
use crate::driver::{synthesized, DispatchArmView, Dispatcher};
use crate::error::{mismatch_message, EnumExtractValueError, Mismatch, ValueMismatch};
use vstd::prelude::*;

verus! {

/// A value of a tagged union over field data of type `T`.
#[derive(Debug, PartialEq, Eq)]
pub struct EnumValue<T> {
    /// The position of the active variant among the declared variants.
    pub variant: usize,
    /// The data of the fields, in declaration order.
    pub fields: Vec<T>,
}

impl<T: Clone> Clone for EnumValue<T> {
    /// A value of the same variant, with a clone of each field.
    fn clone(&self) -> (copy: Self)
        ensures
            copy.variant == self.variant,
            copy.fields.len() == self.fields.len(),
            forall|i: int|
                #![all_triggers]
                0 <= i < self.fields.len() ==> cloned::<T>(self.fields[i], copy.fields[i]),
    {
        EnumValue { variant: self.variant, fields: self.fields.clone() }
    }
}

impl<T> EnumValue<T> {
    /// Constructs the value of the variant at a position from the data of its
    /// fields.
    pub fn new(variant: usize, fields: Vec<T>) -> (value: Self)
        ensures
            value.variant == variant,
            value.fields == fields,
    {
        EnumValue { variant, fields }
    }
}

/// The error of an accessor that found another variant than its own: with the
/// value where the accessor had taken it, without it where the caller still
/// holds it.
pub type MismatchError<T> = EnumExtractValueError<Option<EnumValue<T>>>;

/// What the accessor for the variant at `expected` reports of a value whose
/// active variant is the one at `actual`.
pub open spec fn mismatch_of(arms: Seq<DispatchArmView>, expected: int, actual: int) -> Mismatch {
    Mismatch { expected: arms[expected].name, actual: arms[actual].name }
}

/// What the accessors that borrow give for the variant at a position: the
/// fields in declaration order, if that is the active variant of the value;
/// else the mismatch, without a value.
pub open spec fn borrowed<T>(
    arms: Seq<DispatchArmView>,
    position: int,
    value: EnumValue<T>,
) -> Result<Seq<T>, ValueMismatch<Option<EnumValue<T>>>> {
    if value.variant == position {
        Ok(value.fields@)
    } else {
        Err(
            ValueMismatch {
                names: mismatch_of(arms, position, value.variant as int),
                value: None,
            },
        )
    }
}

/// What the accessor that consumes gives for the variant at a position: the
/// fields, if that is the active variant of the value; else the mismatch,
/// with the value in it.
pub open spec fn taken<T>(arms: Seq<DispatchArmView>, position: int, value: EnumValue<T>) -> Result<
    Vec<T>,
    ValueMismatch<Option<EnumValue<T>>>,
> {
    if value.variant == position {
        Ok(value.fields)
    } else {
        Err(
            ValueMismatch {
                names: mismatch_of(arms, position, value.variant as int),
                value: Some(value),
            },
        )
    }
}

/// The accessors that a pass over a declaration gives for the variant at a
/// position answer for that variant, on every value whose variant is
/// declared. On a value of that variant, borrowing and consuming give its
/// fields. On a value of another variant, both give a mismatch that names
/// the variant asked for and the active one as declared; borrowing leaves
/// the value out, consuming hands it back.
pub proof fn lemma_accessors_answer_for_their_variant<T>(
    declaration: EnumDeclarationView,
    position: int,
    value: EnumValue<T>,
)
    requires
        0 <= position < declaration.variants.len(),
        value.variant < declaration.variants.len(),
    ensures
        ({
            let synthesis = synthesized(declaration);
            let names = Mismatch {
                expected: declaration.variants[position].name,
                actual: declaration.variants[value.variant as int].name,
            };
            &&& forall|kind: int|
                0 <= kind < 7 ==> {
                    let accessor = #[trigger] synthesis.accessors[7 * position + kind];
                    &&& accessor.kind == kind_at(kind)
                    &&& accessor.position == position
                    &&& accessor.variant_name == declaration.variants[position].name
                }
            &&& value.variant == position ==> {
                &&& borrowed(synthesis.dispatcher, position, value) matches Ok(fields)
                    && fields == value.fields@
                &&& taken(synthesis.dispatcher, position, value) matches Ok(fields)
                    && fields == value.fields
            }
            &&& value.variant != position ==> {
                &&& borrowed(synthesis.dispatcher, position, value) matches Err(report)
                    && report.names == names && report.value is None
                &&& taken(synthesis.dispatcher, position, value) matches Err(report)
                    && report.names == names && report.value == Some(value)
                &&& mismatch_message(names.expected, names.actual) == "expected "@
                    + declaration.variants[position].name + ", got "@
                    + declaration.variants[value.variant as int].name
            }
        }),
{
    let synthesis = synthesized(declaration);
    assert forall|kind: int| 0 <= kind < 7 implies {
        let accessor = #[trigger] synthesis.accessors[7 * position + kind];
        &&& accessor.kind == kind_at(kind)
        &&& accessor.position == position
        &&& accessor.variant_name == declaration.variants[position].name
    } by {
        let index = 7 * position + kind;
        assert(index / 7 == position && index % 7 == kind);
    }
}

impl Dispatcher {
    /// Whether the table names the variant of a value and the variant at a
    /// position.
    pub open spec fn covers<T>(&self, position: usize, value: &EnumValue<T>) -> bool {
        position < self.arms.len() && value.variant < self.arms.len()
    }

    /// The declared name of the active variant of a value.
    pub fn variant_name<T>(&self, value: &EnumValue<T>) -> (name: &str)
        requires
            value.variant < self.arms.len(),
        ensures
            name@ == self@[value.variant as int].name,
    {
        self.arms[value.variant].name.as_str()
    }

    /// Builds the report of a mismatch.
    fn mismatch<T>(
        &self,
        position: usize,
        value: &EnumValue<T>,
        kept: Option<EnumValue<T>>,
    ) -> (error: MismatchError<T>)
        requires
            self.covers(position, value),
        ensures
            error@ == (ValueMismatch {
                names: mismatch_of(self@, position as int, value.variant as int),
                value: kept,
            }),
    {
        EnumExtractValueError::new(
            self.arms[position].name.as_str(),
            self.variant_name(value),
            kept,
        )
    }

    /// `is_v`: whether the active variant of the value is the one at the
    /// position.
    pub fn is_variant<T>(&self, position: usize, value: &EnumValue<T>) -> (active: bool)
        ensures
            active == (value.variant == position),
    {
        value.variant == position
    }

    /// `as_v`: the fields of the value, if its active variant is the one at
    /// the position; else the mismatch, without a value.
    pub fn as_variant<'v, T>(
        &self,
        position: usize,
        value: &'v EnumValue<T>,
    ) -> (outcome: Result<&'v [T], MismatchError<T>>)
        requires
            self.covers(position, value),
        ensures
            match borrowed(self@, position as int, *value) {
                Ok(fields) => outcome is Ok && outcome->Ok_0@ == fields,
                Err(report) => outcome is Err && outcome->Err_0@ == report,
            },
    {
        if value.variant == position {
            Ok(value.fields.as_slice())
        } else {
            Err(self.mismatch(position, value, None))
        }
    }

    /// `as_v_mut`: the fields of the value, open to change, if its active
    /// variant is the one at the position; else the mismatch, without a
    /// value, and the value as it was.
    ///
    /// What the caller writes through the fields is what the value holds
    /// afterwards; the active variant and the number of fields stay.
    pub fn as_variant_mut<'v, T>(
        &self,
        position: usize,
        value: &'v mut EnumValue<T>,
    ) -> (outcome: Result<&'v mut [T], MismatchError<T>>)
        requires
            self.covers(position, old(value)),
        ensures
            match borrowed(self@, position as int, *old(value)) {
                Ok(fields) => {
                    &&& outcome is Ok
                    &&& outcome->Ok_0@ == fields
                    &&& final(value).variant == old(value).variant
                    &&& final(value).fields@ == final(outcome->Ok_0)@
                },
                Err(report) => {
                    &&& outcome is Err
                    &&& outcome->Err_0@ == report
                    &&& *final(value) == *old(value)
                },
            },
    {
        if value.variant == position {
            Ok(value.fields.as_mut_slice())
        } else {
            Err(self.mismatch(position, value, None))
        }
    }

    /// `into_v`: the fields of the value, if its active variant is the one at
    /// the position; else the mismatch, with the value in it.
    pub fn into_variant<T>(&self, position: usize, value: EnumValue<T>) -> (outcome: Result<
        Vec<T>,
        MismatchError<T>,
    >)
        requires
            self.covers(position, &value),
        ensures
            match taken(self@, position as int, value) {
                Ok(fields) => outcome is Ok && outcome->Ok_0 == fields,
                Err(report) => outcome is Err && outcome->Err_0@ == report,
            },
    {
        if value.variant == position {
            Ok(value.fields)
        } else {
            let mut error = self.mismatch(position, &value, None);
            error.value = Some(value);
            Err(error)
        }
    }

    /// The message with which the accessors of the `extract` family fail on
    /// a value of another variant: the text of the mismatch that `as_v`
    /// reports.
    pub fn extract_failure<T>(&self, position: usize, value: &EnumValue<T>) -> (message: String)
        requires
            self.covers(position, value),
            value.variant != position,
        ensures
            message@ == mismatch_message(
                self@[position as int].name,
                self@[value.variant as int].name,
            ),
    {
        match self.as_variant(position, value) {
            Err(error) => error.to_string(),
            Ok(_) => vstd::pervasive::unreached(),
        }
    }

    /// `extract_as_v`: what `as_v` gives on a value whose active variant is
    /// the one at the position.
    pub fn extract_as_variant<'v, T>(
        &self,
        position: usize,
        value: &'v EnumValue<T>,
    ) -> (fields: &'v [T])
        requires
            self.covers(position, value),
            value.variant == position,
        ensures
            borrowed(self@, position as int, *value) matches Ok(given) && given == fields@,
    {
        match self.as_variant(position, value) {
            Ok(fields) => fields,
            Err(_) => vstd::pervasive::unreached(),
        }
    }

    /// `extract_as_v_mut`: what `as_v_mut` gives on a value whose active
    /// variant is the one at the position.
    pub fn extract_as_variant_mut<'v, T>(
        &self,
        position: usize,
        value: &'v mut EnumValue<T>,
    ) -> (fields: &'v mut [T])
        requires
            self.covers(position, old(value)),
            old(value).variant == position,
        ensures
            borrowed(self@, position as int, *old(value)) matches Ok(given) && given == fields@,
            final(value).variant == old(value).variant,
            final(value).fields@ == final(fields)@,
    {
        match self.as_variant_mut(position, value) {
            Ok(fields) => fields,
            Err(_) => vstd::pervasive::unreached(),
        }
    }

    /// `extract_into_v`: what `into_v` gives on a value whose active variant
    /// is the one at the position.
    pub fn extract_into_variant<T>(&self, position: usize, value: EnumValue<T>) -> (fields: Vec<T>)
        requires
            self.covers(position, &value),
            value.variant == position,
        ensures
            taken(self@, position as int, value) matches Ok(given) && given == fields,
    {
        match self.into_variant(position, value) {
            Ok(fields) => fields,
            Err(_) => vstd::pervasive::unreached(),
        }
    }
}

} // verus!
