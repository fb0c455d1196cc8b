//! The type of the mismatch error of a declaration: the error type applied
//! to the declared type, which is applied to its own generic parameters.

use crate::declaration::{GenericParameter, GenericParameterView};
use crate::text::clone_texts;
use vstd::prelude::*;

verus! {

/// One argument of a generic type, by its bare name.
///
/// A lifetime is named without its apostrophe.
#[derive(Debug)]
pub enum GenericArgument {
    Type(String),
    Lifetime(String),
    Const(String),
}

/// The mathematical content of a [`GenericArgument`].
pub enum GenericArgumentView {
    Type(Seq<char>),
    Lifetime(Seq<char>),
    Const(Seq<char>),
}

impl View for GenericArgument {
    type V = GenericArgumentView;

    open spec fn view(&self) -> GenericArgumentView {
        match self {
            GenericArgument::Type(name) => GenericArgumentView::Type(name@),
            GenericArgument::Lifetime(name) => GenericArgumentView::Lifetime(name@),
            GenericArgument::Const(name) => GenericArgumentView::Const(name@),
        }
    }
}

impl DeepView for GenericArgument {
    type V = GenericArgumentView;

    open spec fn deep_view(&self) -> GenericArgumentView {
        self@
    }
}

impl Clone for GenericArgument {
    fn clone(&self) -> (copy: Self)
        ensures
            copy@ == self@,
    {
        match self {
            GenericArgument::Type(name) => GenericArgument::Type(name.clone()),
            GenericArgument::Lifetime(name) => GenericArgument::Lifetime(name.clone()),
            GenericArgument::Const(name) => GenericArgument::Const(name.clone()),
        }
    }
}

/// The argument that hands a parameter on: the same kind, the same name.
pub open spec fn argument_of(parameter: GenericParameterView) -> GenericArgumentView {
    match parameter {
        GenericParameterView::TypeParam(name) => GenericArgumentView::Type(name),
        GenericParameterView::LifetimeParam(name) => GenericArgumentView::Lifetime(name),
        GenericParameterView::ConstParam(name) => GenericArgumentView::Const(name),
    }
}

/// The error type of a declaration: `path<enclosing<arguments>>`.
#[derive(Debug)]
pub struct ErrorTypeExpr {
    /// The segments of the path of the error type.
    pub path: Vec<String>,
    /// The name of the declared type.
    pub enclosing: String,
    /// The arguments of the declared type.
    pub arguments: Vec<GenericArgument>,
}

/// The mathematical content of an [`ErrorTypeExpr`].
pub struct ErrorTypeExprView {
    pub path: Seq<Seq<char>>,
    pub enclosing: Seq<char>,
    pub arguments: Seq<GenericArgumentView>,
}

impl View for ErrorTypeExpr {
    type V = ErrorTypeExprView;

    open spec fn view(&self) -> ErrorTypeExprView {
        ErrorTypeExprView {
            path: self.path.deep_view(),
            enclosing: self.enclosing@,
            arguments: self.arguments.deep_view(),
        }
    }
}

impl Clone for ErrorTypeExpr {
    fn clone(&self) -> (copy: Self)
        ensures
            copy@ == self@,
    {
        let mut arguments: Vec<GenericArgument> = Vec::new();
        let mut i: usize = 0;
        while i < self.arguments.len()
            invariant
                i <= self.arguments.len(),
                arguments.len() == i,
                forall|j: int| 0 <= j < i ==> arguments[j]@ == self.arguments[j]@,
            decreases self.arguments.len() - i,
        {
            arguments.push(self.arguments[i].clone());
            i += 1;
        }
        assert(arguments.deep_view() =~= self.arguments.deep_view());
        ErrorTypeExpr {
            path: clone_texts(&self.path),
            enclosing: self.enclosing.clone(),
            arguments,
        }
    }
}

/// The path of the error type: `enum_extract_error::EnumExtractError`.
pub open spec fn error_path() -> Seq<Seq<char>> {
    seq!["enum_extract_error"@, "EnumExtractError"@]
}

/// The error type of the declaration with the given name and parameters.
pub open spec fn parameterized(
    enclosing_name: Seq<char>,
    generics: Seq<GenericParameterView>,
) -> ErrorTypeExprView {
    ErrorTypeExprView {
        path: error_path(),
        enclosing: enclosing_name,
        arguments: generics.map_values(|parameter: GenericParameterView| argument_of(parameter)),
    }
}

/// The error type applies the declared type to as many arguments as it has
/// parameters, and the argument at each position hands on the parameter at
/// that position: none is dropped and none changes place.
pub proof fn lemma_parameterize_keeps_order(
    enclosing_name: Seq<char>,
    generics: Seq<GenericParameterView>,
)
    ensures
        parameterized(enclosing_name, generics).enclosing == enclosing_name,
        parameterized(enclosing_name, generics).arguments.len() == generics.len(),
        forall|i: int|
            0 <= i < generics.len() ==> #[trigger] parameterized(
                enclosing_name,
                generics,
            ).arguments[i] == argument_of(generics[i]),
{
}

/// Hands one parameter on as an argument.
fn argument(parameter: &GenericParameter) -> (argument: GenericArgument)
    ensures
        argument@ == argument_of(parameter@),
{
    match parameter {
        GenericParameter::TypeParam(name) => GenericArgument::Type(name.clone()),
        GenericParameter::LifetimeParam(name) => GenericArgument::Lifetime(name.clone()),
        GenericParameter::ConstParam(name) => GenericArgument::Const(name.clone()),
    }
}

/// Builds the error type of a declaration from its name and its generic
/// parameters.
pub fn parameterize(enclosing_name: &str, generics: &Vec<GenericParameter>) -> (expr:
    ErrorTypeExpr)
    ensures
        expr@ == parameterized(enclosing_name@, generics.deep_view()),
{
    let mut arguments: Vec<GenericArgument> = Vec::new();
    let mut i: usize = 0;
    while i < generics.len()
        invariant
            i <= generics.len(),
            arguments.len() == i,
            forall|j: int| 0 <= j < i ==> arguments[j]@ == argument_of(generics[j]@),
        decreases generics.len() - i,
    {
        arguments.push(argument(&generics[i]));
        i += 1;
    }
    let mut path: Vec<String> = Vec::new();
    path.push(String::from_str("enum_extract_error"));
    path.push(String::from_str("EnumExtractError"));
    assert(path.deep_view() =~= error_path());
    assert(arguments.deep_view() =~= parameterized(
        enclosing_name@,
        generics.deep_view(),
    ).arguments);
    ErrorTypeExpr { path, enclosing: String::from_str(enclosing_name), arguments }
}

} // verus!
