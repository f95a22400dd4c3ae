//! Synthesis of structural trait implementations for user-defined data types.
//!
//! Given a structural description of a type declaration — a struct with unit,
//! positional or named fields, or an enum whose variants have such shapes —
//! the generators in this crate emit the text of `Default`, `Clone`, `Copy`,
//! `PartialEq`, `Eq` and `Hash` implementations for it. The generic parameter
//! list of the declaration, including any bound text, is reproduced verbatim
//! in every generated header: no bound tying a type parameter to the generated
//! capability is ever added, which is what sets these generators apart from
//! the built-in derives.

pub mod behavior;
pub mod cloning;
pub mod decl;
pub mod defaults;
pub mod dispatch;
pub mod emit;
pub mod equality;
pub mod errors;
pub mod hashing;
pub mod markers;
pub mod text;

pub use decl::{
    get_field_identifiers, DeclKind, FieldShape, GenericParam, ParsedItem, TypeDeclaration,
    Variant,
};
pub use dispatch::{
    force_clone, force_copy, force_default, force_eq, force_hash, force_partial_eq, generate,
    Capability,
};
pub use errors::FatalError;
pub use text::decimal_string;
