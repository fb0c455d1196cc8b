//! One pass over a declaration: the error type once, the seven accessors of
//! each variant in declaration order, and the table that names the active
//! variant of a value.

use crate::accessor::{
    accessor_of, all_accessors_of, all_named_functions, all_unit_functions,
    all_unnamed_functions, kind_at, Accessor, AccessorView,
};
use crate::declaration::{
    Declaration, EnumDeclaration, EnumDeclarationView, FieldShape, FieldShapeView,
    GenericParameter, VariantDeclaration, VariantView,
};
use crate::error_type::{parameterize, parameterized, ErrorTypeExpr, ErrorTypeExprView};
use crate::shape::{resolved_shape, FieldStyle};
use vstd::prelude::*;

verus! {

/// One arm of the table of variant names.
#[derive(Debug)]
pub struct DispatchArm {
    /// The declared name of the variant.
    pub name: String,
    /// How the variant writes its fields.
    pub style: FieldStyle,
}

/// The mathematical content of a [`DispatchArm`].
pub struct DispatchArmView {
    pub name: Seq<char>,
    pub style: FieldStyle,
}

impl View for DispatchArm {
    type V = DispatchArmView;

    open spec fn view(&self) -> DispatchArmView {
        DispatchArmView { name: self.name@, style: self.style }
    }
}

impl DeepView for DispatchArm {
    type V = DispatchArmView;

    open spec fn deep_view(&self) -> DispatchArmView {
        self@
    }
}

/// The table of variant names: one arm for each variant, in declaration
/// order. All accessors of a declaration share it.
#[derive(Debug)]
pub struct Dispatcher {
    pub arms: Vec<DispatchArm>,
}

impl View for Dispatcher {
    type V = Seq<DispatchArmView>;

    open spec fn view(&self) -> Seq<DispatchArmView> {
        self.arms.deep_view()
    }
}

/// What one pass over a declaration gives.
#[derive(Debug)]
pub struct Synthesis {
    /// The type of the mismatch error.
    pub err_type: ErrorTypeExpr,
    /// Seven accessors for each variant, variant after variant.
    pub accessors: Vec<Accessor>,
    /// The table of variant names.
    pub dispatcher: Dispatcher,
}

/// The mathematical content of a [`Synthesis`].
pub struct SynthesisView {
    pub err_type: ErrorTypeExprView,
    pub accessors: Seq<AccessorView>,
    pub dispatcher: Seq<DispatchArmView>,
}

impl View for Synthesis {
    type V = SynthesisView;

    open spec fn view(&self) -> SynthesisView {
        SynthesisView {
            err_type: self.err_type@,
            accessors: self.accessors.deep_view(),
            dispatcher: self.dispatcher@,
        }
    }
}

impl Synthesis {
    /// Finds an accessor by the name of its function: the index of the first
    /// accessor of that name in the list, if there is one.
    pub fn find(&self, name: &str) -> (found: Option<usize>)
        ensures
            match found {
                Some(index) => index < self.accessors.len()
                    && self.accessors[index as int].function.declaration@ == name@
                    && forall|earlier: int|
                        0 <= earlier < index ==> (#[trigger] self.accessors[earlier]).function
                            .declaration@ != name@,
                None => forall|index: int|
                    0 <= index < self.accessors.len() ==> (#[trigger] self.accessors[index])
                        .function
                        .declaration@ != name@,
            },
    {
        let wanted = String::from_str(name);
        let mut i: usize = 0;
        while i < self.accessors.len()
            invariant
                i <= self.accessors.len(),
                wanted@ == name@,
                forall|earlier: int|
                    0 <= earlier < i ==> (#[trigger] self.accessors[earlier]).function.declaration@
                        != name@,
            decreases self.accessors.len() - i,
        {
            if self.accessors[i].function.declaration == wanted {
                return Some(i);
            }
            i += 1;
        }
        None
    }
}

/// How a variant with the given fields writes them.
pub open spec fn style_of(shape: FieldShapeView) -> FieldStyle {
    match shape {
        FieldShapeView::Unit => FieldStyle::Unit,
        FieldShapeView::Positional(_) => FieldStyle::Positional,
        FieldShapeView::Named(_) => FieldStyle::Named,
    }
}

/// The arm of the table for a variant.
pub open spec fn arm_of(variant: VariantView) -> DispatchArmView {
    DispatchArmView { name: variant.name, style: style_of(variant.shape) }
}

/// The accessor at an index of the flat list: that of kind `index % 7` for
/// the variant at position `index / 7`.
pub open spec fn synthesized_accessor(
    declaration: EnumDeclarationView,
    index: int,
) -> AccessorView {
    let variant = declaration.variants[index / 7];
    accessor_of(
        kind_at(index % 7),
        declaration.name,
        variant.name,
        (index / 7) as nat,
        resolved_shape(variant.shape),
        parameterized(declaration.name, declaration.generics),
    )
}

/// What one pass over a declaration gives.
pub open spec fn synthesized(declaration: EnumDeclarationView) -> SynthesisView {
    SynthesisView {
        err_type: parameterized(declaration.name, declaration.generics),
        accessors: Seq::new(
            7 * declaration.variants.len(),
            |index: int| synthesized_accessor(declaration, index),
        ),
        dispatcher: declaration.variants.map_values(|variant: VariantView| arm_of(variant)),
    }
}

/// Every variant gets its seven accessors, each under its kind, at the
/// variant's own position and for the variant's own name, and the table names
/// the variant at that position.
pub proof fn lemma_synthesis_covers_variants(
    declaration: EnumDeclarationView,
    position: int,
    kind_index: int,
)
    requires
        0 <= position < declaration.variants.len(),
        0 <= kind_index < 7,
    ensures
        synthesized(declaration).accessors.len() == 7 * declaration.variants.len(),
        synthesized(declaration).dispatcher.len() == declaration.variants.len(),
        synthesized(declaration).dispatcher[position].name == declaration.variants[position].name,
        synthesized(declaration).accessors[7 * position + kind_index] == accessor_of(
            kind_at(kind_index),
            declaration.name,
            declaration.variants[position].name,
            position as nat,
            resolved_shape(declaration.variants[position].shape),
            parameterized(declaration.name, declaration.generics),
        ),
{
    let index = 7 * position + kind_index;
    assert(index / 7 == position && index % 7 == kind_index);
    assert(0 <= index < 7 * declaration.variants.len());
}

/// The accessors that fail fatally rest on the ones that report the
/// mismatch: each names as its alternative the accessor of the same variant
/// that hands the fields out behind the same borrow, and returns what that
/// one returns on a match.
pub proof fn lemma_fatal_accessors_rest_on_reporting_ones(
    declaration: EnumDeclarationView,
    position: int,
    kind_index: int,
)
    requires
        0 <= position < declaration.variants.len(),
        4 <= kind_index < 7,
    ensures
        ({
            let accessors = synthesized(declaration).accessors;
            let fatal = accessors[7 * position + kind_index];
            let reporting = accessors[7 * position + kind_index - 3];
            &&& fatal.alternative == Some(reporting.function.declaration)
            &&& fatal.returns == reporting.returns
            &&& fatal.error is None
            &&& reporting.error == Some(synthesized(declaration).err_type)
        }),
{
    lemma_synthesis_covers_variants(declaration, position, kind_index);
    lemma_synthesis_covers_variants(declaration, position, kind_index - 3);
}

/// Synthesizes the accessors of a tagged union from its name, its generic
/// parameters and its variants.
pub fn impl_all_as_fns(
    name: &str,
    generics: &Vec<GenericParameter>,
    data: &Vec<VariantDeclaration>,
) -> (synthesis: Synthesis)
    ensures
        synthesis@ == synthesized(
            EnumDeclarationView {
                name: name@,
                generics: generics.deep_view(),
                variants: data.deep_view(),
            },
        ),
{
    let ghost declaration = EnumDeclarationView {
        name: name@,
        generics: generics.deep_view(),
        variants: data.deep_view(),
    };
    let err_type = parameterize(name, generics);
    let mut accessors: Vec<Accessor> = Vec::new();
    let mut arms: Vec<DispatchArm> = Vec::new();
    let mut i: usize = 0;
    while i < data.len()
        invariant
            i <= data.len(),
            declaration == (EnumDeclarationView {
                name: name@,
                generics: generics.deep_view(),
                variants: data.deep_view(),
            }),
            err_type@ == parameterized(name@, generics.deep_view()),
            accessors.len() == 7 * i,
            arms.len() == i,
            forall|j: int|
                0 <= j < 7 * i ==> (#[trigger] accessors[j])@ == synthesized_accessor(
                    declaration,
                    j,
                ),
            forall|j: int| 0 <= j < i ==> (#[trigger] arms[j])@ == arm_of(data[j]@),
        decreases data.len() - i,
    {
        let variant = &data[i];
        let ghost before = accessors@;
        let (mut functions, style) = match &variant.shape {
            FieldShape::Unit => (
                all_unit_functions(name, variant.name.as_str(), i, &err_type),
                FieldStyle::Unit,
            ),
            FieldShape::Positional(fields) => (
                all_unnamed_functions(name, variant.name.as_str(), i, &err_type, fields),
                FieldStyle::Positional,
            ),
            FieldShape::Named(fields) => (
                all_named_functions(name, variant.name.as_str(), i, &err_type, fields),
                FieldStyle::Named,
            ),
        };
        let ghost added = functions@;
        let ghost added_view = functions.deep_view();
        proof {
            assert(declaration.variants[i as int] == variant@);
            assert(added_view == all_accessors_of(
                name@,
                variant.name@,
                i as nat,
                resolved_shape(variant.shape@),
                err_type@,
            ));
            assert(added.len() == added_view.len());
        }
        accessors.append(&mut functions);
        arms.push(DispatchArm { name: variant.name.clone(), style });
        assert forall|j: int| 0 <= j < 7 * (i + 1) implies (#[trigger] accessors[j])@
            == synthesized_accessor(declaration, j) by {
            if j < 7 * i {
                assert(accessors[j] == before[j]);
            } else {
                let k = j - 7 * i;
                assert(j / 7 == i && j % 7 == k);
                assert(accessors[j] == added[k]);
                assert(added[k]@ == added_view[k]);
            }
        }
        i += 1;
    }
    let synthesis = Synthesis { err_type, accessors, dispatcher: Dispatcher { arms } };
    assert(synthesis@.accessors =~= synthesized(declaration).accessors);
    assert(synthesis@.dispatcher =~= synthesized(declaration).dispatcher);
    synthesis
}

/// Synthesizes the accessors of a declaration, which must be a tagged union.
pub fn enum_extract(input: &Declaration) -> (synthesis: Synthesis)
    requires
        input is TaggedUnion,
    ensures
        synthesis@ == synthesized(input->TaggedUnion_0@),
{
    match input {
        Declaration::TaggedUnion(declaration) => impl_all_as_fns(
            declaration.name.as_str(),
            &declaration.generics,
            &declaration.variants,
        ),
        Declaration::Record { name } => vstd::pervasive::unreached(),
    }
}

/// What to say of a declaration that is no tagged union.
pub open spec fn rejection_message(name: Seq<char>) -> Seq<char> {
    name + " is not an enum"@
}

/// Writes the message that names a declaration as no tagged union.
pub fn not_an_enum_message(name: &str) -> (message: String)
    ensures
        message@ == rejection_message(name@),
{
    let mut message = String::from_str(name);
    message.append(" is not an enum");
    message
}

} // verus!
