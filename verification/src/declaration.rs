//! The structural declaration of a tagged union: its name, its generic
//! parameters and its variants, each with the shape of its fields.
//!
//! Types of fields are carried as the text of their expressions and never
//! looked into.

use vstd::prelude::*;

verus! {

/// One generic parameter of a declaration, by its bare name.
///
/// A lifetime is named without its apostrophe.
#[derive(Debug)]
pub enum GenericParameter {
    TypeParam(String),
    LifetimeParam(String),
    ConstParam(String),
}

/// The mathematical content of a [`GenericParameter`].
pub enum GenericParameterView {
    TypeParam(Seq<char>),
    LifetimeParam(Seq<char>),
    ConstParam(Seq<char>),
}

impl View for GenericParameter {
    type V = GenericParameterView;

    open spec fn view(&self) -> GenericParameterView {
        match self {
            GenericParameter::TypeParam(name) => GenericParameterView::TypeParam(name@),
            GenericParameter::LifetimeParam(name) => GenericParameterView::LifetimeParam(name@),
            GenericParameter::ConstParam(name) => GenericParameterView::ConstParam(name@),
        }
    }
}

impl DeepView for GenericParameter {
    type V = GenericParameterView;

    open spec fn deep_view(&self) -> GenericParameterView {
        self@
    }
}

/// A field that has a name of its own.
#[derive(Debug)]
pub struct NamedField {
    pub name: String,
    pub ty: String,
}

/// The mathematical content of a [`NamedField`].
pub struct NamedFieldView {
    pub name: Seq<char>,
    pub ty: Seq<char>,
}

impl View for NamedField {
    type V = NamedFieldView;

    open spec fn view(&self) -> NamedFieldView {
        NamedFieldView { name: self.name@, ty: self.ty@ }
    }
}

impl DeepView for NamedField {
    type V = NamedFieldView;

    open spec fn deep_view(&self) -> NamedFieldView {
        self@
    }
}

/// The fields of a variant: none, some by position, or some by name.
#[derive(Debug)]
pub enum FieldShape {
    Unit,
    Positional(Vec<String>),
    Named(Vec<NamedField>),
}

/// The mathematical content of a [`FieldShape`].
pub enum FieldShapeView {
    Unit,
    Positional(Seq<Seq<char>>),
    Named(Seq<NamedFieldView>),
}

impl FieldShapeView {
    /// The types of the fields, in declaration order.
    pub open spec fn types(self) -> Seq<Seq<char>> {
        match self {
            FieldShapeView::Unit => Seq::empty(),
            FieldShapeView::Positional(types) => types,
            FieldShapeView::Named(fields) => fields.map_values(|field: NamedFieldView| field.ty),
        }
    }

    /// How many fields the variant holds.
    pub open spec fn arity(self) -> nat {
        self.types().len()
    }
}

impl View for FieldShape {
    type V = FieldShapeView;

    open spec fn view(&self) -> FieldShapeView {
        match self {
            FieldShape::Unit => FieldShapeView::Unit,
            FieldShape::Positional(types) => FieldShapeView::Positional(types.deep_view()),
            FieldShape::Named(fields) => FieldShapeView::Named(fields.deep_view()),
        }
    }
}

/// One named alternative of a tagged union.
#[derive(Debug)]
pub struct VariantDeclaration {
    pub name: String,
    pub shape: FieldShape,
}

/// The mathematical content of a [`VariantDeclaration`].
pub struct VariantView {
    pub name: Seq<char>,
    pub shape: FieldShapeView,
}

impl View for VariantDeclaration {
    type V = VariantView;

    open spec fn view(&self) -> VariantView {
        VariantView { name: self.name@, shape: self.shape@ }
    }
}

impl DeepView for VariantDeclaration {
    type V = VariantView;

    open spec fn deep_view(&self) -> VariantView {
        self@
    }
}

/// The declaration of a tagged union.
#[derive(Debug)]
pub struct EnumDeclaration {
    pub name: String,
    pub generics: Vec<GenericParameter>,
    pub variants: Vec<VariantDeclaration>,
}

/// The mathematical content of an [`EnumDeclaration`].
pub struct EnumDeclarationView {
    pub name: Seq<char>,
    pub generics: Seq<GenericParameterView>,
    pub variants: Seq<VariantView>,
}

impl View for EnumDeclaration {
    type V = EnumDeclarationView;

    open spec fn view(&self) -> EnumDeclarationView {
        EnumDeclarationView {
            name: self.name@,
            generics: self.generics.deep_view(),
            variants: self.variants.deep_view(),
        }
    }
}

/// What a derive is asked to work on: a tagged union, or something else.
#[derive(Debug)]
pub enum Declaration {
    TaggedUnion(EnumDeclaration),
    Record { name: String },
}

} // verus!
