//! The shape of what the accessors of a variant return, and of the pattern
//! that takes the variant apart.
//!
//! The shape goes by the number of fields alone: no field gives the unit
//! type, one field gives that field's type bare, two or more give a tuple in
//! declaration order.

use crate::declaration::{FieldShape, FieldShapeView, NamedField, NamedFieldView};
use crate::text::{clone_texts, decimal, decimal_text};
use vstd::prelude::*;

verus! {

/// How an accessor hands out a field.
#[derive(Clone, Copy, PartialEq, Eq, Structural, Debug)]
pub enum Borrow {
    /// As `&T`.
    Shared,
    /// As `&mut T`.
    Mutable,
    /// As `T`.
    Owned,
}

/// The type that an accessor returns on success.
#[derive(Debug)]
pub enum TypeExpr {
    /// `()`
    Unit,
    /// The type of the only field, behind the borrow.
    Bare(Borrow, String),
    /// A tuple of the types of the fields, each behind the borrow.
    Tuple(Borrow, Vec<String>),
}

/// The mathematical content of a [`TypeExpr`].
pub enum TypeExprView {
    Unit,
    Bare(Borrow, Seq<char>),
    Tuple(Borrow, Seq<Seq<char>>),
}

impl TypeExprView {
    /// The types of the fields that the expression holds, in order.
    pub open spec fn field_types(self) -> Seq<Seq<char>> {
        match self {
            TypeExprView::Unit => Seq::empty(),
            TypeExprView::Bare(_, ty) => seq![ty],
            TypeExprView::Tuple(_, types) => types,
        }
    }
}

impl View for TypeExpr {
    type V = TypeExprView;

    open spec fn view(&self) -> TypeExprView {
        match self {
            TypeExpr::Unit => TypeExprView::Unit,
            TypeExpr::Bare(borrow, ty) => TypeExprView::Bare(*borrow, ty@),
            TypeExpr::Tuple(borrow, types) => TypeExprView::Tuple(*borrow, types.deep_view()),
        }
    }
}

impl Clone for TypeExpr {
    fn clone(&self) -> (copy: Self)
        ensures
            copy@ == self@,
    {
        match self {
            TypeExpr::Unit => TypeExpr::Unit,
            TypeExpr::Bare(borrow, ty) => TypeExpr::Bare(*borrow, ty.clone()),
            TypeExpr::Tuple(borrow, types) => TypeExpr::Tuple(*borrow, clone_texts(types)),
        }
    }
}

/// The type that hands out fields of the given types behind the given borrow.
pub open spec fn resolved_type(borrow: Borrow, types: Seq<Seq<char>>) -> TypeExprView {
    if types.len() == 0 {
        TypeExprView::Unit
    } else if types.len() == 1 {
        TypeExprView::Bare(borrow, types[0])
    } else {
        TypeExprView::Tuple(borrow, types)
    }
}

/// How a variant writes its fields.
#[derive(Clone, Copy, PartialEq, Eq, Structural, Debug)]
pub enum FieldStyle {
    /// `Variant`
    Unit,
    /// `Variant(..)`
    Positional,
    /// `Variant { .. }`
    Named,
}

/// The pattern that matches a variant and binds each of its fields.
#[derive(Debug)]
pub struct Pattern {
    pub style: FieldStyle,
    /// One binder for each field, in declaration order.
    pub binders: Vec<String>,
}

/// The mathematical content of a [`Pattern`].
pub struct PatternView {
    pub style: FieldStyle,
    pub binders: Seq<Seq<char>>,
}

impl View for Pattern {
    type V = PatternView;

    open spec fn view(&self) -> PatternView {
        PatternView { style: self.style, binders: self.binders.deep_view() }
    }
}

impl Clone for Pattern {
    fn clone(&self) -> (copy: Self)
        ensures
            copy@ == self@,
    {
        Pattern { style: self.style, binders: clone_texts(&self.binders) }
    }
}

/// The binder of the field at a position, among `count` fields without names.
pub open spec fn positional_binder(count: nat, position: nat) -> Seq<char> {
    if count == 1 {
        "inner"@
    } else {
        "match_"@ + decimal(position)
    }
}

/// The binders of `count` fields without names.
pub open spec fn positional_binders(count: nat) -> Seq<Seq<char>> {
    Seq::new(count, |position: int| positional_binder(count, position as nat))
}

/// What the accessors of one variant are made from.
#[derive(Debug)]
pub struct ResolvedVariantShape {
    pub matches: Pattern,
    pub returns_ref: TypeExpr,
    pub returns_mut_ref: TypeExpr,
    pub returns_val: TypeExpr,
}

/// The mathematical content of a [`ResolvedVariantShape`].
pub struct ResolvedVariantShapeView {
    pub matches: PatternView,
    pub returns_ref: TypeExprView,
    pub returns_mut_ref: TypeExprView,
    pub returns_val: TypeExprView,
}

impl View for ResolvedVariantShape {
    type V = ResolvedVariantShapeView;

    open spec fn view(&self) -> ResolvedVariantShapeView {
        ResolvedVariantShapeView {
            matches: self.matches@,
            returns_ref: self.returns_ref@,
            returns_mut_ref: self.returns_mut_ref@,
            returns_val: self.returns_val@,
        }
    }
}

/// The pattern of a variant with the given fields.
pub open spec fn resolved_pattern(shape: FieldShapeView) -> PatternView {
    match shape {
        FieldShapeView::Unit => PatternView { style: FieldStyle::Unit, binders: Seq::empty() },
        FieldShapeView::Positional(types) => PatternView {
            style: FieldStyle::Positional,
            binders: positional_binders(types.len()),
        },
        FieldShapeView::Named(fields) => PatternView {
            style: FieldStyle::Named,
            binders: fields.map_values(|field: NamedFieldView| field.name),
        },
    }
}

/// The shape of a variant with the given fields.
pub open spec fn resolved_shape(shape: FieldShapeView) -> ResolvedVariantShapeView {
    ResolvedVariantShapeView {
        matches: resolved_pattern(shape),
        returns_ref: resolved_type(Borrow::Shared, shape.types()),
        returns_mut_ref: resolved_type(Borrow::Mutable, shape.types()),
        returns_val: resolved_type(Borrow::Owned, shape.types()),
    }
}

/// The three return types keep every field, in declaration order, and the
/// pattern binds each field once.
pub proof fn lemma_shape_keeps_fields(shape: FieldShapeView)
    ensures
        resolved_shape(shape).returns_ref.field_types() == shape.types(),
        resolved_shape(shape).returns_mut_ref.field_types() == shape.types(),
        resolved_shape(shape).returns_val.field_types() == shape.types(),
        resolved_shape(shape).matches.binders.len() == shape.arity(),
{
    let types = shape.types();
    if types.len() == 1 {
        assert(seq![types[0]] =~= types);
    } else if types.len() == 0 {
        assert(Seq::<Seq<char>>::empty() =~= types);
    }
}

/// Builds the return type for fields of the given types.
pub fn resolve_type(borrow: Borrow, types: &Vec<String>) -> (expr: TypeExpr)
    ensures
        expr@ == resolved_type(borrow, types.deep_view()),
{
    if types.len() == 0 {
        TypeExpr::Unit
    } else if types.len() == 1 {
        TypeExpr::Bare(borrow, types[0].clone())
    } else {
        TypeExpr::Tuple(borrow, clone_texts(types))
    }
}

/// Builds the shape from the types of the fields and their binders.
fn shape_of(style: FieldStyle, binders: Vec<String>, types: &Vec<String>) -> (shape:
    ResolvedVariantShape)
    ensures
        shape@ == (ResolvedVariantShapeView {
            matches: PatternView { style, binders: binders.deep_view() },
            returns_ref: resolved_type(Borrow::Shared, types.deep_view()),
            returns_mut_ref: resolved_type(Borrow::Mutable, types.deep_view()),
            returns_val: resolved_type(Borrow::Owned, types.deep_view()),
        }),
{
    ResolvedVariantShape {
        matches: Pattern { style, binders },
        returns_ref: resolve_type(Borrow::Shared, types),
        returns_mut_ref: resolve_type(Borrow::Mutable, types),
        returns_val: resolve_type(Borrow::Owned, types),
    }
}

/// The shape of a variant without fields: the unit type three times, and a
/// pattern that binds nothing.
pub fn unit_fields_return() -> (shape: ResolvedVariantShape)
    ensures
        shape@ == resolved_shape(FieldShapeView::Unit),
{
    let types: Vec<String> = Vec::new();
    assert(types.deep_view() =~= FieldShapeView::Unit.types());
    let binders: Vec<String> = Vec::new();
    assert(binders.deep_view() =~= Seq::<Seq<char>>::empty());
    shape_of(FieldStyle::Unit, binders, &types)
}

/// The shape of a variant whose fields go by position. The only field is
/// bound as `inner`; of several, the field at position `i` as `match_i`.
pub fn unnamed_fields_return(fields: &Vec<String>) -> (shape: ResolvedVariantShape)
    ensures
        shape@ == resolved_shape(FieldShapeView::Positional(fields.deep_view())),
{
    let count = fields.len();
    let mut binders: Vec<String> = Vec::new();
    if count == 1 {
        binders.push(String::from_str("inner"));
    } else {
        let mut i: usize = 0;
        while i < count
            invariant
                i <= count,
                count != 1,
                binders.len() == i,
                forall|j: int|
                    0 <= j < i ==> binders[j]@ == positional_binder(count as nat, j as nat),
            decreases count - i,
        {
            let mut binder = String::from_str("match_");
            binder.append(decimal_text(i).as_str());
            binders.push(binder);
            i += 1;
        }
    }
    assert(binders.deep_view() =~= positional_binders(count as nat));
    shape_of(FieldStyle::Positional, binders, fields)
}

/// The shape of a variant whose fields go by name. Each field is bound
/// under its own name.
pub fn named_fields_return(fields: &Vec<NamedField>) -> (shape: ResolvedVariantShape)
    ensures
        shape@ == resolved_shape(FieldShapeView::Named(fields.deep_view())),
{
    let mut binders: Vec<String> = Vec::new();
    let mut types: Vec<String> = Vec::new();
    let mut i: usize = 0;
    while i < fields.len()
        invariant
            i <= fields.len(),
            binders.len() == i,
            types.len() == i,
            forall|j: int| 0 <= j < i ==> binders[j]@ == fields[j].name@,
            forall|j: int| 0 <= j < i ==> types[j]@ == fields[j].ty@,
        decreases fields.len() - i,
    {
        binders.push(fields[i].name.clone());
        types.push(fields[i].ty.clone());
        i += 1;
    }
    let ghost view = FieldShapeView::Named(fields.deep_view());
    assert(binders.deep_view() =~= resolved_pattern(view).binders);
    assert(types.deep_view() =~= view.types());
    shape_of(FieldStyle::Named, binders, &types)
}

/// The shape of a variant, whatever the form of its fields.
pub fn resolve(shape: &FieldShape) -> (resolved: ResolvedVariantShape)
    ensures
        resolved@ == resolved_shape(shape@),
{
    match shape {
        FieldShape::Unit => unit_fields_return(),
        FieldShape::Positional(types) => unnamed_fields_return(types),
        FieldShape::Named(fields) => named_fields_return(fields),
    }
}

} // verus!
