//! The accessors of one variant: for each of the seven kinds, its name and
//! documentation, the pattern it matches with, the type it returns, and the
//! error type or the alternative it rests on.

use crate::declaration::{FieldShapeView, NamedField};
use crate::error_type::{ErrorTypeExpr, ErrorTypeExprView};
use crate::function_def::{
    as_docs, as_mut_docs, as_mut_name, as_name, extract_as_docs, extract_as_mut_docs,
    extract_as_mut_name, extract_as_name, extract_into_docs, extract_into_name, into_docs,
    into_name, is_docs, is_name, FunctionDef, FunctionDefView,
};
use crate::shape::{
    named_fields_return, resolved_shape, unit_fields_return, unnamed_fields_return, Pattern,
    PatternView, ResolvedVariantShape, ResolvedVariantShapeView, TypeExpr, TypeExprView,
};
use vstd::prelude::*;

verus! {

/// The seven accessors that a variant gets.
#[derive(Clone, Copy, PartialEq, Eq, Structural, Debug)]
pub enum AccessorKind {
    /// `is_v`: tests for the variant.
    Is,
    /// `as_v`: borrows the fields, or reports the mismatch.
    As,
    /// `as_v_mut`: borrows the fields mutably, or reports the mismatch.
    AsMut,
    /// `into_v`: takes the fields out, or reports the mismatch and hands the
    /// value back.
    Into,
    /// `extract_as_v`: borrows the fields, or fails fatally.
    ExtractAs,
    /// `extract_as_v_mut`: borrows the fields mutably, or fails fatally.
    ExtractAsMut,
    /// `extract_into_v`: takes the fields out, or fails fatally.
    ExtractInto,
}

/// The kinds in the order in which the accessors of a variant are emitted.
pub open spec fn kind_at(index: int) -> AccessorKind {
    if index == 0 {
        AccessorKind::Is
    } else if index == 1 {
        AccessorKind::As
    } else if index == 2 {
        AccessorKind::AsMut
    } else if index == 3 {
        AccessorKind::Into
    } else if index == 4 {
        AccessorKind::ExtractAs
    } else if index == 5 {
        AccessorKind::ExtractAsMut
    } else {
        AccessorKind::ExtractInto
    }
}

/// One generated accessor.
#[derive(Debug)]
pub struct Accessor {
    pub kind: AccessorKind,
    /// The position of the variant among the variants of the declaration.
    pub position: usize,
    /// The accessor's name and documentation.
    pub function: FunctionDef,
    /// The name of the variant that the accessor expects.
    pub variant_name: String,
    /// The pattern that matches the variant.
    pub matches: Pattern,
    /// What the accessor returns on a match; `None` stands for `bool`.
    pub returns: Option<TypeExpr>,
    /// The type of the error that reports a mismatch, where one is reported.
    pub error: Option<ErrorTypeExpr>,
    /// The name of the accessor that this one calls, where it fails fatally
    /// on a mismatch.
    pub alternative: Option<String>,
}

/// The mathematical content of an [`Accessor`].
pub struct AccessorView {
    pub kind: AccessorKind,
    pub position: nat,
    pub function: FunctionDefView,
    pub variant_name: Seq<char>,
    pub matches: PatternView,
    pub returns: Option<TypeExprView>,
    pub error: Option<ErrorTypeExprView>,
    pub alternative: Option<Seq<char>>,
}

impl View for Accessor {
    type V = AccessorView;

    open spec fn view(&self) -> AccessorView {
        AccessorView {
            kind: self.kind,
            position: self.position as nat,
            function: self.function@,
            variant_name: self.variant_name@,
            matches: self.matches@,
            returns: match self.returns {
                Some(expr) => Some(expr@),
                None => None,
            },
            error: match self.error {
                Some(expr) => Some(expr@),
                None => None,
            },
            alternative: match self.alternative {
                Some(name) => Some(name@),
                None => None,
            },
        }
    }
}

impl DeepView for Accessor {
    type V = AccessorView;

    open spec fn deep_view(&self) -> AccessorView {
        self@
    }
}

/// The name and documentation of the accessor of a kind.
pub open spec fn function_of(
    kind: AccessorKind,
    enum_name: Seq<char>,
    variant_name: Seq<char>,
) -> FunctionDefView {
    match kind {
        AccessorKind::Is => FunctionDefView {
            declaration: is_name(variant_name),
            docs: is_docs(enum_name, variant_name),
        },
        AccessorKind::As => FunctionDefView {
            declaration: as_name(variant_name),
            docs: as_docs(enum_name, variant_name),
        },
        AccessorKind::AsMut => FunctionDefView {
            declaration: as_mut_name(variant_name),
            docs: as_mut_docs(enum_name, variant_name),
        },
        AccessorKind::Into => FunctionDefView {
            declaration: into_name(variant_name),
            docs: into_docs(enum_name, variant_name),
        },
        AccessorKind::ExtractAs => FunctionDefView {
            declaration: extract_as_name(variant_name),
            docs: extract_as_docs(enum_name, variant_name, as_name(variant_name)),
        },
        AccessorKind::ExtractAsMut => FunctionDefView {
            declaration: extract_as_mut_name(variant_name),
            docs: extract_as_mut_docs(enum_name, variant_name, as_mut_name(variant_name)),
        },
        AccessorKind::ExtractInto => FunctionDefView {
            declaration: extract_into_name(variant_name),
            docs: extract_into_docs(enum_name, variant_name, into_name(variant_name)),
        },
    }
}

/// What the accessor of a kind returns on a match.
pub open spec fn returns_of(kind: AccessorKind, shape: ResolvedVariantShapeView) -> Option<
    TypeExprView,
> {
    match kind {
        AccessorKind::Is => None,
        AccessorKind::As | AccessorKind::ExtractAs => Some(shape.returns_ref),
        AccessorKind::AsMut | AccessorKind::ExtractAsMut => Some(shape.returns_mut_ref),
        AccessorKind::Into | AccessorKind::ExtractInto => Some(shape.returns_val),
    }
}

/// The error type of the accessor of a kind, where it reports a mismatch.
pub open spec fn error_of(kind: AccessorKind, err_type: ErrorTypeExprView) -> Option<
    ErrorTypeExprView,
> {
    match kind {
        AccessorKind::As | AccessorKind::AsMut | AccessorKind::Into => Some(err_type),
        _ => None,
    }
}

/// The accessor that the accessor of a kind calls, where it fails fatally:
/// the one that reports the mismatch for the same borrow.
pub open spec fn alternative_of(kind: AccessorKind, variant_name: Seq<char>) -> Option<Seq<char>> {
    match kind {
        AccessorKind::ExtractAs => Some(as_name(variant_name)),
        AccessorKind::ExtractAsMut => Some(as_mut_name(variant_name)),
        AccessorKind::ExtractInto => Some(into_name(variant_name)),
        _ => None,
    }
}

/// The accessor of a kind for the variant at a position.
pub open spec fn accessor_of(
    kind: AccessorKind,
    enum_name: Seq<char>,
    variant_name: Seq<char>,
    position: nat,
    shape: ResolvedVariantShapeView,
    err_type: ErrorTypeExprView,
) -> AccessorView {
    AccessorView {
        kind,
        position,
        function: function_of(kind, enum_name, variant_name),
        variant_name,
        matches: shape.matches,
        returns: returns_of(kind, shape),
        error: error_of(kind, err_type),
        alternative: alternative_of(kind, variant_name),
    }
}

/// The seven accessors of the variant at a position, in the order of
/// [`kind_at`].
pub open spec fn all_accessors_of(
    enum_name: Seq<char>,
    variant_name: Seq<char>,
    position: nat,
    shape: ResolvedVariantShapeView,
    err_type: ErrorTypeExprView,
) -> Seq<AccessorView> {
    Seq::new(
        7,
        |index: int|
            accessor_of(kind_at(index), enum_name, variant_name, position, shape, err_type),
    )
}

impl Accessor {
    /// Builds the accessor of a kind for a variant of the given shape.
    pub fn for_variant(
        kind: AccessorKind,
        enum_name: &str,
        variant_name: &str,
        position: usize,
        shape: &ResolvedVariantShape,
        err_type: &ErrorTypeExpr,
    ) -> (accessor: Accessor)
        ensures
            accessor@ == accessor_of(
                kind,
                enum_name@,
                variant_name@,
                position as nat,
                shape@,
                err_type@,
            ),
    {
        let function = match kind {
            AccessorKind::Is => FunctionDef::new_is_variant(enum_name, variant_name),
            AccessorKind::As => FunctionDef::new_as_variant(enum_name, variant_name),
            AccessorKind::AsMut => FunctionDef::new_as_variant_mut(enum_name, variant_name),
            AccessorKind::Into => FunctionDef::new_into_variant(enum_name, variant_name),
            AccessorKind::ExtractAs => FunctionDef::new_extract_as_variant(enum_name, variant_name),
            AccessorKind::ExtractAsMut => FunctionDef::new_extract_as_variant_mut(
                enum_name,
                variant_name,
            ),
            AccessorKind::ExtractInto => FunctionDef::new_extract_into_variant(
                enum_name,
                variant_name,
            ),
        };
        let output = match kind {
            AccessorKind::Is => None,
            AccessorKind::As | AccessorKind::ExtractAs => Some(shape.returns_ref.clone()),
            AccessorKind::AsMut | AccessorKind::ExtractAsMut => Some(shape.returns_mut_ref.clone()),
            AccessorKind::Into | AccessorKind::ExtractInto => Some(shape.returns_val.clone()),
        };
        let error = match kind {
            AccessorKind::As | AccessorKind::AsMut | AccessorKind::Into => Some(err_type.clone()),
            _ => None,
        };
        let alternative = match kind {
            AccessorKind::ExtractAs => Some(
                FunctionDef::new_as_variant(enum_name, variant_name).declaration,
            ),
            AccessorKind::ExtractAsMut => Some(
                FunctionDef::new_as_variant_mut(enum_name, variant_name).declaration,
            ),
            AccessorKind::ExtractInto => Some(
                FunctionDef::new_into_variant(enum_name, variant_name).declaration,
            ),
            _ => None,
        };
        Accessor {
            kind,
            position,
            function,
            variant_name: String::from_str(variant_name),
            matches: shape.matches.clone(),
            returns: output,
            error,
            alternative,
        }
    }
}

/// The seven accessors of a variant of the given shape.
pub fn all_functions(
    enum_name: &str,
    variant_name: &str,
    position: usize,
    shape: &ResolvedVariantShape,
    err_type: &ErrorTypeExpr,
) -> (accessors: Vec<Accessor>)
    ensures
        accessors.deep_view() == all_accessors_of(
            enum_name@,
            variant_name@,
            position as nat,
            shape@,
            err_type@,
        ),
{
    let mut accessors: Vec<Accessor> = Vec::new();
    accessors.push(
        Accessor::for_variant(AccessorKind::Is, enum_name, variant_name, position, shape, err_type),
    );
    accessors.push(
        Accessor::for_variant(AccessorKind::As, enum_name, variant_name, position, shape, err_type),
    );
    accessors.push(
        Accessor::for_variant(
            AccessorKind::AsMut,
            enum_name,
            variant_name,
            position,
            shape,
            err_type,
        ),
    );
    accessors.push(
        Accessor::for_variant(
            AccessorKind::Into,
            enum_name,
            variant_name,
            position,
            shape,
            err_type,
        ),
    );
    accessors.push(
        Accessor::for_variant(
            AccessorKind::ExtractAs,
            enum_name,
            variant_name,
            position,
            shape,
            err_type,
        ),
    );
    accessors.push(
        Accessor::for_variant(
            AccessorKind::ExtractAsMut,
            enum_name,
            variant_name,
            position,
            shape,
            err_type,
        ),
    );
    accessors.push(
        Accessor::for_variant(
            AccessorKind::ExtractInto,
            enum_name,
            variant_name,
            position,
            shape,
            err_type,
        ),
    );
    assert(accessors.deep_view() =~= all_accessors_of(
        enum_name@,
        variant_name@,
        position as nat,
        shape@,
        err_type@,
    ));
    accessors
}

/// The accessors of a variant without fields.
pub fn all_unit_functions(
    enum_name: &str,
    variant_name: &str,
    position: usize,
    err_type: &ErrorTypeExpr,
) -> (accessors: Vec<Accessor>)
    ensures
        accessors.deep_view() == all_accessors_of(
            enum_name@,
            variant_name@,
            position as nat,
            resolved_shape(FieldShapeView::Unit),
            err_type@,
        ),
{
    let shape = unit_fields_return();
    all_functions(enum_name, variant_name, position, &shape, err_type)
}

/// What the accessors of a variant with named fields are made from.
pub struct NamedEnumFunctionContext<'a> {
    pub enum_name: &'a str,
    pub variant_name: &'a str,
    /// The position of the variant among the variants of the declaration.
    pub position: usize,
    /// The pattern and the three return types.
    pub shape: ResolvedVariantShape,
    pub err_type: &'a ErrorTypeExpr,
}

impl<'a> NamedEnumFunctionContext<'a> {
    /// The accessor of a kind that this context gives.
    pub open spec fn accessor(&self, kind: AccessorKind) -> AccessorView {
        accessor_of(
            kind,
            self.enum_name@,
            self.variant_name@,
            self.position as nat,
            self.shape@,
            self.err_type@,
        )
    }

    /// Resolves the shape of the named fields and keeps it with the names.
    pub fn new(
        enum_name: &'a str,
        variant_name: &'a str,
        position: usize,
        err_type: &'a ErrorTypeExpr,
        fields: &Vec<NamedField>,
    ) -> (context: Self)
        ensures
            context.enum_name@ == enum_name@,
            context.variant_name@ == variant_name@,
            context.position == position,
            context.shape@ == resolved_shape(FieldShapeView::Named(fields.deep_view())),
            context.err_type@ == err_type@,
    {
        NamedEnumFunctionContext {
            enum_name,
            variant_name,
            position,
            shape: named_fields_return(fields),
            err_type,
        }
    }
}

/// The accessor that tests for the variant.
pub fn named_enum_is_variant(context: &NamedEnumFunctionContext) -> (accessor: Accessor)
    ensures
        accessor@ == context.accessor(AccessorKind::Is),
{
    Accessor::for_variant(
        AccessorKind::Is,
        context.enum_name,
        context.variant_name,
        context.position,
        &context.shape,
        context.err_type,
    )
}

/// The accessor that borrows the fields, or reports the mismatch.
pub fn named_enum_as_variant(context: &NamedEnumFunctionContext) -> (accessor: Accessor)
    ensures
        accessor@ == context.accessor(AccessorKind::As),
{
    Accessor::for_variant(
        AccessorKind::As,
        context.enum_name,
        context.variant_name,
        context.position,
        &context.shape,
        context.err_type,
    )
}

/// The accessor that borrows the fields mutably, or reports the mismatch.
pub fn named_enum_as_variant_mut(context: &NamedEnumFunctionContext) -> (accessor: Accessor)
    ensures
        accessor@ == context.accessor(AccessorKind::AsMut),
{
    Accessor::for_variant(
        AccessorKind::AsMut,
        context.enum_name,
        context.variant_name,
        context.position,
        &context.shape,
        context.err_type,
    )
}

/// The accessor that takes the fields out, or reports the mismatch and hands
/// the value back.
pub fn named_enum_into_variant(context: &NamedEnumFunctionContext) -> (accessor: Accessor)
    ensures
        accessor@ == context.accessor(AccessorKind::Into),
{
    Accessor::for_variant(
        AccessorKind::Into,
        context.enum_name,
        context.variant_name,
        context.position,
        &context.shape,
        context.err_type,
    )
}

/// The accessor that borrows the fields, or fails fatally.
pub fn named_enum_extract_as_variant(context: &NamedEnumFunctionContext) -> (accessor: Accessor)
    ensures
        accessor@ == context.accessor(AccessorKind::ExtractAs),
{
    Accessor::for_variant(
        AccessorKind::ExtractAs,
        context.enum_name,
        context.variant_name,
        context.position,
        &context.shape,
        context.err_type,
    )
}

/// The accessor that borrows the fields mutably, or fails fatally.
pub fn named_enum_extract_as_variant_mut(context: &NamedEnumFunctionContext) -> (accessor:
    Accessor)
    ensures
        accessor@ == context.accessor(AccessorKind::ExtractAsMut),
{
    Accessor::for_variant(
        AccessorKind::ExtractAsMut,
        context.enum_name,
        context.variant_name,
        context.position,
        &context.shape,
        context.err_type,
    )
}

/// The accessor that takes the fields out, or fails fatally.
pub fn named_enum_extract_into_variant(context: &NamedEnumFunctionContext) -> (accessor:
    Accessor)
    ensures
        accessor@ == context.accessor(AccessorKind::ExtractInto),
{
    Accessor::for_variant(
        AccessorKind::ExtractInto,
        context.enum_name,
        context.variant_name,
        context.position,
        &context.shape,
        context.err_type,
    )
}

/// The accessors of a variant whose fields go by name.
pub fn all_named_functions(
    enum_name: &str,
    variant_name: &str,
    position: usize,
    err_type: &ErrorTypeExpr,
    fields: &Vec<NamedField>,
) -> (accessors: Vec<Accessor>)
    ensures
        accessors.deep_view() == all_accessors_of(
            enum_name@,
            variant_name@,
            position as nat,
            resolved_shape(FieldShapeView::Named(fields.deep_view())),
            err_type@,
        ),
{
    let context = NamedEnumFunctionContext::new(
        enum_name,
        variant_name,
        position,
        err_type,
        fields,
    );
    let mut accessors: Vec<Accessor> = Vec::new();
    accessors.push(named_enum_is_variant(&context));
    accessors.push(named_enum_as_variant(&context));
    accessors.push(named_enum_as_variant_mut(&context));
    accessors.push(named_enum_into_variant(&context));
    accessors.push(named_enum_extract_as_variant(&context));
    accessors.push(named_enum_extract_as_variant_mut(&context));
    accessors.push(named_enum_extract_into_variant(&context));
    assert(accessors.deep_view() =~= all_accessors_of(
        enum_name@,
        variant_name@,
        position as nat,
        resolved_shape(FieldShapeView::Named(fields.deep_view())),
        err_type@,
    ));
    accessors
}

/// What the accessors of a variant with positional fields are made from.
pub struct UnnamedEnumFunctionContext<'a> {
    pub enum_name: &'a str,
    pub variant_name: &'a str,
    /// The position of the variant among the variants of the declaration.
    pub position: usize,
    /// The pattern and the three return types.
    pub shape: ResolvedVariantShape,
    pub err_type: &'a ErrorTypeExpr,
}

impl<'a> UnnamedEnumFunctionContext<'a> {
    /// Resolves the shape of the positional fields and keeps it with the
    /// names.
    pub fn new(
        enum_name: &'a str,
        variant_name: &'a str,
        position: usize,
        err_type: &'a ErrorTypeExpr,
        fields: &Vec<String>,
    ) -> (context: Self)
        ensures
            context.enum_name@ == enum_name@,
            context.variant_name@ == variant_name@,
            context.position == position,
            context.shape@ == resolved_shape(FieldShapeView::Positional(fields.deep_view())),
            context.err_type@ == err_type@,
    {
        UnnamedEnumFunctionContext {
            enum_name,
            variant_name,
            position,
            shape: unnamed_fields_return(fields),
            err_type,
        }
    }
}

/// The accessors of a variant whose fields go by position.
pub fn all_unnamed_functions(
    enum_name: &str,
    variant_name: &str,
    position: usize,
    err_type: &ErrorTypeExpr,
    fields: &Vec<String>,
) -> (accessors: Vec<Accessor>)
    ensures
        accessors.deep_view() == all_accessors_of(
            enum_name@,
            variant_name@,
            position as nat,
            resolved_shape(FieldShapeView::Positional(fields.deep_view())),
            err_type@,
        ),
{
    let context = UnnamedEnumFunctionContext::new(
        enum_name,
        variant_name,
        position,
        err_type,
        fields,
    );
    all_functions(
        context.enum_name,
        context.variant_name,
        context.position,
        &context.shape,
        context.err_type,
    )
}

} // verus!
