//! The names and the documentation of the accessors of one variant.

use crate::case::{snake_case, to_snake_case};
use vstd::prelude::*;

verus! {

/// `Enum::Variant`, as documentation writes a variant.
pub open spec fn qualified(enum_name: Seq<char>, variant_name: Seq<char>) -> Seq<char> {
    enum_name + "::"@ + variant_name
}

/// The name of the accessor that tests for a variant.
pub open spec fn is_name(variant_name: Seq<char>) -> Seq<char> {
    snake_case("is_"@ + variant_name)
}

/// The name of the accessor that borrows the fields of a variant.
pub open spec fn as_name(variant_name: Seq<char>) -> Seq<char> {
    snake_case("as_"@ + variant_name)
}

/// The name of the accessor that borrows the fields of a variant mutably.
pub open spec fn as_mut_name(variant_name: Seq<char>) -> Seq<char> {
    snake_case("as_"@ + variant_name + "_mut"@)
}

/// The name of the accessor that takes the fields out of a variant.
pub open spec fn into_name(variant_name: Seq<char>) -> Seq<char> {
    snake_case("into_"@ + variant_name)
}

/// The name of the accessor that borrows the fields or fails fatally.
pub open spec fn extract_as_name(variant_name: Seq<char>) -> Seq<char> {
    snake_case("extract_as_"@ + variant_name)
}

/// The name of the accessor that borrows the fields mutably or fails fatally.
pub open spec fn extract_as_mut_name(variant_name: Seq<char>) -> Seq<char> {
    snake_case("extract_as_"@ + variant_name + "_mut"@)
}

/// The name of the accessor that takes the fields out or fails fatally.
pub open spec fn extract_into_name(variant_name: Seq<char>) -> Seq<char> {
    snake_case("extract_into_"@ + variant_name)
}

/// The documentation of the accessor that tests for a variant.
pub open spec fn is_docs(enum_name: Seq<char>, variant_name: Seq<char>) -> Seq<char> {
    "Returns true if this is a `"@ + qualified(enum_name, variant_name) + "`, otherwise false"@
}

/// The documentation of the accessor that borrows the fields.
pub open spec fn as_docs(enum_name: Seq<char>, variant_name: Seq<char>) -> Seq<char> {
    "Returns references to the inner fields if this is a `"@ + qualified(enum_name, variant_name)
        + "`, otherwise an [`enum_extract_error::EnumExtractError`]"@
}

/// The documentation of the accessor that borrows the fields mutably.
pub open spec fn as_mut_docs(enum_name: Seq<char>, variant_name: Seq<char>) -> Seq<char> {
    "Returns mutable references to the inner fields if this is a `"@ + qualified(
        enum_name,
        variant_name,
    ) + "`, otherwise an [`enum_extract_error::EnumExtractError`]."@
}

/// The documentation of the accessor that takes the fields out.
pub open spec fn into_docs(enum_name: Seq<char>, variant_name: Seq<char>) -> Seq<char> {
    "Returns the inner fields if this is a `"@ + qualified(enum_name, variant_name)
        + "`, otherwise otherwise an [`enum_extract_error::EnumExtractError`]."@
}

/// The documentation of an accessor that fails fatally on a mismatch. It
/// opens with `lead`, and points to `alternative`, the accessor that reports
/// the mismatch instead.
pub open spec fn panicking_docs(
    lead: Seq<char>,
    gap: Seq<char>,
    enum_name: Seq<char>,
    variant_name: Seq<char>,
    alternative: Seq<char>,
) -> Seq<char> {
    "\n                "@ + lead + " `"@ + qualified(enum_name, variant_name)
        + "`, otherwise panics.\n"@ + gap
        + "\n                # Panics\n    \n                Panics when the value is not a `"@
        + qualified(enum_name, variant_name)
        + "`.\n                Prefer using a `match` or [`"@ + qualified(enum_name, alternative)
        + "`]; only use this if you *know* this is a `"@ + qualified(enum_name, variant_name)
        + "`,\n                or if panicking is ok, such as during testing.\n                "@
}

/// The documentation of the accessor that borrows the fields or fails fatally.
pub open spec fn extract_as_docs(
    enum_name: Seq<char>,
    variant_name: Seq<char>,
    alternative: Seq<char>,
) -> Seq<char> {
    panicking_docs(
        "Returns references to the inner fields if this is a"@,
        "    "@,
        enum_name,
        variant_name,
        alternative,
    )
}

/// The documentation of the accessor that borrows the fields mutably or fails
/// fatally.
pub open spec fn extract_as_mut_docs(
    enum_name: Seq<char>,
    variant_name: Seq<char>,
    alternative: Seq<char>,
) -> Seq<char> {
    panicking_docs(
        "Returns mutable references to the inner fields if this is a"@,
        "    "@,
        enum_name,
        variant_name,
        alternative,
    )
}

/// The documentation of the accessor that takes the fields out or fails
/// fatally.
pub open spec fn extract_into_docs(
    enum_name: Seq<char>,
    variant_name: Seq<char>,
    alternative: Seq<char>,
) -> Seq<char> {
    panicking_docs(
        "Returns the inner fields if this is a"@,
        "                "@,
        enum_name,
        variant_name,
        alternative,
    )
}

/// `Enum::Variant` as text.
fn qualify(enum_name: &str, variant_name: &str) -> (text: String)
    ensures
        text@ == qualified(enum_name@, variant_name@),
{
    let mut text = String::from_str(enum_name);
    text.append("::");
    text.append(variant_name);
    text
}

/// `prefix`, then `Enum::Variant`, then `suffix`.
fn around_qualified(prefix: &str, enum_name: &str, variant_name: &str, suffix: &str) -> (text:
    String)
    ensures
        text@ == prefix@ + qualified(enum_name@, variant_name@) + suffix@,
{
    let mut text = String::from_str(prefix);
    text.append(qualify(enum_name, variant_name).as_str());
    text.append(suffix);
    text
}

/// The snake-case form of `prefix`, the variant's name and `suffix` in a row.
fn accessor_name(prefix: &str, variant_name: &str, suffix: &str) -> (name: String)
    ensures
        name@ == snake_case(prefix@ + variant_name@ + suffix@),
{
    let mut raw = String::from_str(prefix);
    raw.append(variant_name);
    raw.append(suffix);
    to_snake_case(raw.as_str())
}

/// Writes the documentation of an accessor that fails fatally on a mismatch,
/// given the name of the accessor that reports the mismatch instead.
pub fn write_panicking_docs(
    lead: &str,
    gap: &str,
    enum_name: &str,
    variant_name: &str,
    alternative: &str,
) -> (docs: String)
    ensures
        docs@ == panicking_docs(lead@, gap@, enum_name@, variant_name@, alternative@),
{
    let variant = qualify(enum_name, variant_name);
    let mut docs = String::from_str("\n                ");
    docs.append(lead);
    docs.append(" `");
    docs.append(variant.as_str());
    docs.append("`, otherwise panics.\n");
    docs.append(gap);
    docs.append(
        "\n                # Panics\n    \n                Panics when the value is not a `",
    );
    docs.append(variant.as_str());
    docs.append("`.\n                Prefer using a `match` or [`");
    docs.append(qualify(enum_name, alternative).as_str());
    docs.append("`]; only use this if you *know* this is a `");
    docs.append(variant.as_str());
    docs.append(
        "`,\n                or if panicking is ok, such as during testing.\n                ",
    );
    docs
}

/// The name of a generated accessor and its documentation.
#[derive(Debug)]
pub struct FunctionDef {
    pub declaration: String,
    pub docs: String,
}

/// The mathematical content of a [`FunctionDef`].
pub struct FunctionDefView {
    pub declaration: Seq<char>,
    pub docs: Seq<char>,
}

impl View for FunctionDef {
    type V = FunctionDefView;

    open spec fn view(&self) -> FunctionDefView {
        FunctionDefView { declaration: self.declaration@, docs: self.docs@ }
    }
}

impl FunctionDef {
    /// The accessor that tests for the variant.
    pub fn new_is_variant(enum_name: &str, variant_name: &str) -> (def: Self)
        ensures
            def@ == (FunctionDefView {
                declaration: is_name(variant_name@),
                docs: is_docs(enum_name@, variant_name@),
            }),
    {
        assert("is_"@ + variant_name@ + ""@ =~= "is_"@ + variant_name@) by {
            reveal_strlit("");
        }
        FunctionDef {
            docs: around_qualified(
                "Returns true if this is a `",
                enum_name,
                variant_name,
                "`, otherwise false",
            ),
            declaration: accessor_name("is_", variant_name, ""),
        }
    }

    /// The accessor that borrows the fields of the variant.
    pub fn new_as_variant(enum_name: &str, variant_name: &str) -> (def: Self)
        ensures
            def@ == (FunctionDefView {
                declaration: as_name(variant_name@),
                docs: as_docs(enum_name@, variant_name@),
            }),
    {
        assert("as_"@ + variant_name@ + ""@ =~= "as_"@ + variant_name@) by {
            reveal_strlit("");
        }
        FunctionDef {
            docs: around_qualified(
                "Returns references to the inner fields if this is a `",
                enum_name,
                variant_name,
                "`, otherwise an [`enum_extract_error::EnumExtractError`]",
            ),
            declaration: accessor_name("as_", variant_name, ""),
        }
    }

    /// The accessor that borrows the fields of the variant or fails fatally.
    pub fn new_extract_as_variant(enum_name: &str, variant_name: &str) -> (def: Self)
        ensures
            def@ == (FunctionDefView {
                declaration: extract_as_name(variant_name@),
                docs: extract_as_docs(enum_name@, variant_name@, as_name(variant_name@)),
            }),
    {
        let alt_fn = Self::new_as_variant(enum_name, variant_name);
        assert("extract_as_"@ + variant_name@ + ""@ =~= "extract_as_"@ + variant_name@) by {
            reveal_strlit("");
        }
        FunctionDef {
            docs: write_panicking_docs(
                "Returns references to the inner fields if this is a",
                "    ",
                enum_name,
                variant_name,
                alt_fn.declaration.as_str(),
            ),
            declaration: accessor_name("extract_as_", variant_name, ""),
        }
    }

    /// The accessor that borrows the fields of the variant mutably.
    pub fn new_as_variant_mut(enum_name: &str, variant_name: &str) -> (def: Self)
        ensures
            def@ == (FunctionDefView {
                declaration: as_mut_name(variant_name@),
                docs: as_mut_docs(enum_name@, variant_name@),
            }),
    {
        FunctionDef {
            docs: around_qualified(
                "Returns mutable references to the inner fields if this is a `",
                enum_name,
                variant_name,
                "`, otherwise an [`enum_extract_error::EnumExtractError`].",
            ),
            declaration: accessor_name("as_", variant_name, "_mut"),
        }
    }

    /// The accessor that borrows the fields of the variant mutably or fails
    /// fatally.
    pub fn new_extract_as_variant_mut(enum_name: &str, variant_name: &str) -> (def: Self)
        ensures
            def@ == (FunctionDefView {
                declaration: extract_as_mut_name(variant_name@),
                docs: extract_as_mut_docs(enum_name@, variant_name@, as_mut_name(variant_name@)),
            }),
    {
        let alt_fn = Self::new_as_variant_mut(enum_name, variant_name);
        FunctionDef {
            docs: write_panicking_docs(
                "Returns mutable references to the inner fields if this is a",
                "    ",
                enum_name,
                variant_name,
                alt_fn.declaration.as_str(),
            ),
            declaration: accessor_name("extract_as_", variant_name, "_mut"),
        }
    }

    /// The accessor that takes the fields out of the variant.
    pub fn new_into_variant(enum_name: &str, variant_name: &str) -> (def: Self)
        ensures
            def@ == (FunctionDefView {
                declaration: into_name(variant_name@),
                docs: into_docs(enum_name@, variant_name@),
            }),
    {
        assert("into_"@ + variant_name@ + ""@ =~= "into_"@ + variant_name@) by {
            reveal_strlit("");
        }
        FunctionDef {
            docs: around_qualified(
                "Returns the inner fields if this is a `",
                enum_name,
                variant_name,
                "`, otherwise otherwise an [`enum_extract_error::EnumExtractError`].",
            ),
            declaration: accessor_name("into_", variant_name, ""),
        }
    }

    /// The accessor that takes the fields out of the variant or fails fatally.
    pub fn new_extract_into_variant(enum_name: &str, variant_name: &str) -> (def: Self)
        ensures
            def@ == (FunctionDefView {
                declaration: extract_into_name(variant_name@),
                docs: extract_into_docs(enum_name@, variant_name@, into_name(variant_name@)),
            }),
    {
        let alt_fn = Self::new_into_variant(enum_name, variant_name);
        assert("extract_into_"@ + variant_name@ + ""@ =~= "extract_into_"@ + variant_name@) by {
            reveal_strlit("");
        }
        FunctionDef {
            docs: write_panicking_docs(
                "Returns the inner fields if this is a",
                "                ",
                enum_name,
                variant_name,
                alt_fn.declaration.as_str(),
            ),
            declaration: accessor_name("extract_into_", variant_name, ""),
        }
    }
}

} // verus!
