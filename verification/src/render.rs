//! The accessors as source text: each accessor as one function item, and the
//! table of variant names as the function `variant_name` that the accessors
//! call. The items belong in an `impl` block of the declared type.

use crate::accessor::{Accessor, AccessorKind, AccessorView};
use crate::declaration::EnumDeclarationView;
use crate::driver::{synthesized, DispatchArm, DispatchArmView, Dispatcher};
use crate::error_type::{ErrorTypeExpr, ErrorTypeExprView, GenericArgument, GenericArgumentView};
use crate::shape::{Borrow, FieldStyle, Pattern, PatternView, TypeExpr, TypeExprView};
use crate::text::{each_followed, follow_each, join, joined};
use vstd::prelude::*;

verus! {

/// What stands before a type that is handed out behind a borrow.
pub open spec fn borrow_text(borrow: Borrow) -> Seq<char> {
    match borrow {
        Borrow::Shared => "&"@,
        Borrow::Mutable => "&mut "@,
        Borrow::Owned => ""@,
    }
}

/// The types of the fields, each behind the borrow.
pub open spec fn borrowed_types(borrow: Borrow, types: Seq<Seq<char>>) -> Seq<Seq<char>> {
    types.map_values(|ty: Seq<char>| borrow_text(borrow) + ty)
}

/// A return type as text: `()`, the bare type, or a tuple with a comma after
/// each of its types.
pub open spec fn type_text(expr: TypeExprView) -> Seq<char> {
    match expr {
        TypeExprView::Unit => "()"@,
        TypeExprView::Bare(borrow, ty) => borrow_text(borrow) + ty,
        TypeExprView::Tuple(borrow, types) => "("@ + each_followed(
            borrowed_types(borrow, types),
            ","@,
        ) + ")"@,
    }
}

/// A generic argument as text; a lifetime gets its apostrophe.
pub open spec fn argument_text(argument: GenericArgumentView) -> Seq<char> {
    match argument {
        GenericArgumentView::Type(name) => name,
        GenericArgumentView::Lifetime(name) => "'"@ + name,
        GenericArgumentView::Const(name) => name,
    }
}

/// The path of the error type as text.
pub open spec fn error_path_text(expr: ErrorTypeExprView) -> Seq<char> {
    joined(expr.path, "::"@)
}

/// The error type as text: `path<enclosing<arguments>>`.
pub open spec fn error_type_text(expr: ErrorTypeExprView) -> Seq<char> {
    error_path_text(expr) + "<"@ + expr.enclosing + "<"@ + joined(
        expr.arguments.map_values(|argument: GenericArgumentView| argument_text(argument)),
        ", "@,
    ) + ">>"@
}

/// The binders of a pattern as text: the only one bare, several with a comma
/// after each. Between parentheses this is also the value that an accessor
/// returns on a match.
pub open spec fn binders_text(binders: Seq<Seq<char>>) -> Seq<char> {
    if binders.len() == 1 {
        binders[0]
    } else {
        each_followed(binders, ","@)
    }
}

/// The pattern that matches a variant, as text.
pub open spec fn pattern_text(variant_name: Seq<char>, pattern: PatternView) -> Seq<char> {
    match pattern.style {
        FieldStyle::Unit => "Self::"@ + variant_name,
        FieldStyle::Positional => "Self::"@ + variant_name + "("@ + binders_text(pattern.binders)
            + ")"@,
        FieldStyle::Named => "Self::"@ + variant_name + "{"@ + binders_text(pattern.binders)
            + "}"@,
    }
}

/// How an accessor of a kind takes the value.
pub open spec fn receiver_text(kind: AccessorKind) -> Seq<char> {
    match kind {
        AccessorKind::Is | AccessorKind::As | AccessorKind::ExtractAs => "&self"@,
        AccessorKind::AsMut | AccessorKind::ExtractAsMut => "&mut self"@,
        AccessorKind::Into | AccessorKind::ExtractInto => "self"@,
    }
}

/// The value that the mismatch error of a kind carries: the value itself
/// where the accessor has taken it, none where the caller still holds it.
pub open spec fn carried_text(kind: AccessorKind) -> Seq<char> {
    match kind {
        AccessorKind::Into => "::core::option::Option::Some(self)"@,
        _ => "::core::option::Option::None"@,
    }
}

/// The accessor that tests for a variant, as text.
pub open spec fn is_text(
    name: Seq<char>,
    variant_name: Seq<char>,
    pattern: PatternView,
) -> Seq<char> {
    "#[inline] #[allow(unused_variables)] pub fn "@ + name
        + "(&self) -> bool { matches!(self, "@ + pattern_text(variant_name, pattern) + ") }"@
}

/// An accessor that reports a mismatch, as text.
pub open spec fn try_text(
    kind: AccessorKind,
    name: Seq<char>,
    variant_name: Seq<char>,
    pattern: PatternView,
    output: TypeExprView,
    error: ErrorTypeExprView,
) -> Seq<char> {
    "#[inline] pub fn "@ + name + "("@ + receiver_text(kind) + ") -> ::core::result::Result<"@
        + type_text(output) + ", "@ + error_type_text(error) + "> { match self { "@ + pattern_text(
        variant_name,
        pattern,
    ) + " => { ::core::result::Result::Ok(("@ + binders_text(pattern.binders)
        + ")) } _ => { ::core::result::Result::Err("@ + error_path_text(error)
        + "::new(stringify!("@ + variant_name + "), self.variant_name(), "@ + carried_text(kind)
        + ")) } } }"@
}

/// An accessor that fails fatally on a mismatch, as text: it calls the
/// alternative and fails with the text of the error that comes back.
pub open spec fn must_text(
    kind: AccessorKind,
    name: Seq<char>,
    output: TypeExprView,
    alternative: Seq<char>,
) -> Seq<char> {
    "#[inline] pub fn "@ + name + "("@ + receiver_text(kind) + ") -> "@ + type_text(output)
        + " { self."@ + alternative
        + "().unwrap_or_else(|err| panic!(\"{}\", err.to_string())) }"@
}

/// An accessor as text, if it holds what its kind needs.
pub open spec fn accessor_text(accessor: AccessorView) -> Option<Seq<char>> {
    match accessor.kind {
        AccessorKind::Is => Some(
            is_text(accessor.function.declaration, accessor.variant_name, accessor.matches),
        ),
        AccessorKind::As | AccessorKind::AsMut | AccessorKind::Into => match (
            accessor.returns,
            accessor.error,
        ) {
            (Some(output), Some(error)) => Some(
                try_text(
                    accessor.kind,
                    accessor.function.declaration,
                    accessor.variant_name,
                    accessor.matches,
                    output,
                    error,
                ),
            ),
            _ => None,
        },
        _ => match (accessor.returns, accessor.alternative) {
            (Some(output), Some(alternative)) => Some(
                must_text(accessor.kind, accessor.function.declaration, output, alternative),
            ),
            _ => None,
        },
    }
}

/// What stands behind the name of a variant in a pattern that ignores its
/// fields.
pub open spec fn rest_text(style: FieldStyle) -> Seq<char> {
    match style {
        FieldStyle::Unit => ""@,
        FieldStyle::Positional => "(..)"@,
        FieldStyle::Named => "{..}"@,
    }
}

/// One arm of `variant_name`, as text.
pub open spec fn arm_text(arm: DispatchArmView) -> Seq<char> {
    "Self::"@ + arm.name + rest_text(arm.style) + " => stringify!("@ + arm.name + "),"@
}

/// The function `variant_name` as text: one arm for each variant, in
/// declaration order.
pub open spec fn dispatcher_text(arms: Seq<DispatchArmView>) -> Seq<char> {
    "fn variant_name(&self) -> &'static str { match self { "@ + each_followed(
        arms.map_values(|arm: DispatchArmView| arm_text(arm)),
        " "@,
    ) + "_ => unreachable!(), } }"@
}

fn render_borrow(borrow: Borrow) -> (text: &'static str)
    ensures
        text@ == borrow_text(borrow),
{
    match borrow {
        Borrow::Shared => "&",
        Borrow::Mutable => "&mut ",
        Borrow::Owned => "",
    }
}

/// Writes a return type.
pub fn render_type(expr: &TypeExpr) -> (text: String)
    ensures
        text@ == type_text(expr@),
{
    match expr {
        TypeExpr::Unit => String::from_str("()"),
        TypeExpr::Bare(borrow, ty) => {
            let mut text = String::from_str(render_borrow(*borrow));
            text.append(ty.as_str());
            text
        },
        TypeExpr::Tuple(borrow, types) => {
            let mut items: Vec<String> = Vec::new();
            let mut i: usize = 0;
            while i < types.len()
                invariant
                    i <= types.len(),
                    items.len() == i,
                    forall|j: int| 0 <= j < i ==> items[j]@ == borrow_text(*borrow) + types[j]@,
                decreases types.len() - i,
            {
                let mut item = String::from_str(render_borrow(*borrow));
                item.append(types[i].as_str());
                items.push(item);
                i += 1;
            }
            assert(items.deep_view() =~= borrowed_types(*borrow, types.deep_view()));
            let mut text = String::from_str("(");
            text.append(follow_each(&items, ",").as_str());
            text.append(")");
            text
        },
    }
}

fn render_argument(argument: &GenericArgument) -> (text: String)
    ensures
        text@ == argument_text(argument@),
{
    match argument {
        GenericArgument::Type(name) => name.clone(),
        GenericArgument::Lifetime(name) => {
            let mut text = String::from_str("'");
            text.append(name.as_str());
            text
        },
        GenericArgument::Const(name) => name.clone(),
    }
}

/// Writes the path of the error type.
pub fn render_error_path(expr: &ErrorTypeExpr) -> (text: String)
    ensures
        text@ == error_path_text(expr@),
{
    join(&expr.path, "::")
}

/// Writes the error type.
pub fn render_error_type(expr: &ErrorTypeExpr) -> (text: String)
    ensures
        text@ == error_type_text(expr@),
{
    let mut items: Vec<String> = Vec::new();
    let mut i: usize = 0;
    while i < expr.arguments.len()
        invariant
            i <= expr.arguments.len(),
            items.len() == i,
            forall|j: int| 0 <= j < i ==> items[j]@ == argument_text(expr.arguments[j]@),
        decreases expr.arguments.len() - i,
    {
        items.push(render_argument(&expr.arguments[i]));
        i += 1;
    }
    assert(items.deep_view() =~= expr@.arguments.map_values(
        |argument: GenericArgumentView| argument_text(argument),
    ));
    let mut text = render_error_path(expr);
    text.append("<");
    text.append(expr.enclosing.as_str());
    text.append("<");
    text.append(join(&items, ", ").as_str());
    text.append(">>");
    text
}

fn render_binders(binders: &Vec<String>) -> (text: String)
    ensures
        text@ == binders_text(binders.deep_view()),
{
    if binders.len() == 1 {
        binders[0].clone()
    } else {
        follow_each(binders, ",")
    }
}

/// Writes the pattern that matches a variant.
pub fn render_pattern(variant_name: &str, pattern: &Pattern) -> (text: String)
    ensures
        text@ == pattern_text(variant_name@, pattern@),
{
    let mut text = String::from_str("Self::");
    text.append(variant_name);
    match pattern.style {
        FieldStyle::Unit => {},
        FieldStyle::Positional => {
            text.append("(");
            text.append(render_binders(&pattern.binders).as_str());
            text.append(")");
        },
        FieldStyle::Named => {
            text.append("{");
            text.append(render_binders(&pattern.binders).as_str());
            text.append("}");
        },
    }
    text
}

fn render_receiver(kind: AccessorKind) -> (text: &'static str)
    ensures
        text@ == receiver_text(kind),
{
    match kind {
        AccessorKind::Is | AccessorKind::As | AccessorKind::ExtractAs => "&self",
        AccessorKind::AsMut | AccessorKind::ExtractAsMut => "&mut self",
        AccessorKind::Into | AccessorKind::ExtractInto => "self",
    }
}

fn render_carried(kind: AccessorKind) -> (text: &'static str)
    ensures
        text@ == carried_text(kind),
{
    match kind {
        AccessorKind::Into => "::core::option::Option::Some(self)",
        _ => "::core::option::Option::None",
    }
}

impl Accessor {
    fn render_is(&self) -> (text: String)
        ensures
            text@ == is_text(self.function.declaration@, self.variant_name@, self.matches@),
    {
        let mut text = String::from_str("#[inline] #[allow(unused_variables)] pub fn ");
        text.append(self.function.declaration.as_str());
        text.append("(&self) -> bool { matches!(self, ");
        text.append(render_pattern(self.variant_name.as_str(), &self.matches).as_str());
        text.append(") }");
        text
    }

    fn render_try(&self, output: &TypeExpr, error: &ErrorTypeExpr) -> (text: String)
        ensures
            text@ == try_text(
                self.kind,
                self.function.declaration@,
                self.variant_name@,
                self.matches@,
                output@,
                error@,
            ),
    {
        let mut text = String::from_str("#[inline] pub fn ");
        text.append(self.function.declaration.as_str());
        text.append("(");
        text.append(render_receiver(self.kind));
        text.append(") -> ::core::result::Result<");
        text.append(render_type(output).as_str());
        text.append(", ");
        text.append(render_error_type(error).as_str());
        text.append("> { match self { ");
        text.append(render_pattern(self.variant_name.as_str(), &self.matches).as_str());
        text.append(" => { ::core::result::Result::Ok((");
        text.append(render_binders(&self.matches.binders).as_str());
        text.append(")) } _ => { ::core::result::Result::Err(");
        text.append(render_error_path(error).as_str());
        text.append("::new(stringify!(");
        text.append(self.variant_name.as_str());
        text.append("), self.variant_name(), ");
        text.append(render_carried(self.kind));
        text.append(")) } } }");
        text
    }

    fn render_must(&self, output: &TypeExpr, alternative: &str) -> (text: String)
        ensures
            text@ == must_text(self.kind, self.function.declaration@, output@, alternative@),
    {
        let mut text = String::from_str("#[inline] pub fn ");
        text.append(self.function.declaration.as_str());
        text.append("(");
        text.append(render_receiver(self.kind));
        text.append(") -> ");
        text.append(render_type(output).as_str());
        text.append(" { self.");
        text.append(alternative);
        text.append("().unwrap_or_else(|err| panic!(\"{}\", err.to_string())) }");
        text
    }

    /// Writes the accessor as a function item. There is no text for an
    /// accessor that lacks what its kind needs: the return type, the error
    /// type where it reports a mismatch, the alternative where it fails
    /// fatally.
    pub fn render(&self) -> (text: Option<String>)
        ensures
            match text {
                Some(text) => accessor_text(self@) == Some(text@),
                None => accessor_text(self@) is None,
            },
    {
        match self.kind {
            AccessorKind::Is => Some(self.render_is()),
            AccessorKind::As | AccessorKind::AsMut | AccessorKind::Into => match (
                &self.returns,
                &self.error,
            ) {
                (Some(output), Some(error)) => Some(self.render_try(output, error)),
                _ => None,
            },
            _ => match (&self.returns, &self.alternative) {
                (Some(output), Some(alternative)) => Some(
                    self.render_must(output, alternative.as_str()),
                ),
                _ => None,
            },
        }
    }
}

/// Every accessor that a pass over a declaration gives has a text: each holds
/// what its kind needs.
pub proof fn lemma_synthesized_accessors_have_text(declaration: EnumDeclarationView, index: int)
    requires
        0 <= index < 7 * declaration.variants.len(),
    ensures
        accessor_text(synthesized(declaration).accessors[index]) is Some,
{
}

fn render_rest(style: FieldStyle) -> (text: &'static str)
    ensures
        text@ == rest_text(style),
{
    match style {
        FieldStyle::Unit => "",
        FieldStyle::Positional => "(..)",
        FieldStyle::Named => "{..}",
    }
}

fn render_arm(arm: &DispatchArm) -> (text: String)
    ensures
        text@ == arm_text(arm@),
{
    let mut text = String::from_str("Self::");
    text.append(arm.name.as_str());
    text.append(render_rest(arm.style));
    text.append(" => stringify!(");
    text.append(arm.name.as_str());
    text.append("),");
    text
}

impl Dispatcher {
    /// Writes the function `variant_name`, which gives the declared name of
    /// the active variant.
    pub fn render(&self) -> (text: String)
        ensures
            text@ == dispatcher_text(self@),
    {
        let mut items: Vec<String> = Vec::new();
        let mut i: usize = 0;
        while i < self.arms.len()
            invariant
                i <= self.arms.len(),
                items.len() == i,
                forall|j: int| 0 <= j < i ==> items[j]@ == arm_text(self.arms[j]@),
            decreases self.arms.len() - i,
        {
            items.push(render_arm(&self.arms[i]));
            i += 1;
        }
        assert(items.deep_view() =~= self@.map_values(|arm: DispatchArmView| arm_text(arm)));
        let mut text = String::from_str("fn variant_name(&self) -> &'static str { match self { ");
        text.append(follow_each(&items, " ").as_str());
        text.append("_ => unreachable!(), } }");
        text
    }
}

} // verus!
