//! Accessor synthesis for tagged unions.
//!
//! Given the structural declaration of a tagged union, the crate derives the
//! family of accessors that test for, borrow or extract each variant, together
//! with the mismatch errors they report. Every function carries a contract
//! that Verus proves.
//!
//! - [`declaration`] holds what is known of a tagged union: its name, its
//!   generic parameters, and the fields of each variant.
//! - [`function_def`] names and documents the seven accessors of a variant;
//!   [`case`] folds the names to snake case.
//! - [`shape`] resolves the fields of a variant to a pattern and three return
//!   types; [`error_type`] builds the type of the mismatch error.
//! - [`accessor`] puts these together for one variant, [`driver`] for a whole
//!   declaration, and [`render`] writes the result as source text.
//! - [`value`] says what the accessors do on a value, and [`error`] holds the
//!   mismatch errors.

pub mod accessor;
pub mod case;
pub mod declaration;
pub mod driver;
pub mod error;
pub mod error_type;
pub mod function_def;
pub mod render;
pub mod shape;
pub mod text;
pub mod value;
