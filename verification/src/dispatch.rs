//! The dispatcher: one entry point per capability, each routing a parsed item
//! to the matching generator, and `generate`, which routes a (capability,
//! item) request. Shape and kind mismatches become fatal errors before any
//! generator runs; a request either yields one complete implementation or one
//! fatal error, never both and never partial output.

use vstd::prelude::*;

use crate::cloning::{impl_clone_enum, impl_clone_struct, spec_clone_enum_code,
    spec_clone_struct_code};
use crate::decl::{DeclKind, ParsedItem, TypeDeclaration};
use crate::defaults::{impl_default_enum, impl_default_struct, spec_default_enum_code,
    spec_default_struct_code};
use crate::equality::{impl_partial_eq_enum, impl_partial_eq_struct, spec_eq_enum_code,
    spec_eq_struct_code};
use crate::errors::FatalError;
use crate::hashing::{impl_hash, spec_hash_code};
use crate::markers::{impl_copy_enum, impl_copy_struct, impl_eq_enum, impl_eq_struct,
    spec_copy_code, spec_eq_marker_code};

verus! {

/// The six capabilities a generation request can name.
#[derive(Clone, Copy, Debug, PartialEq, Eq, Structural)]
pub enum Capability {
    ForceDefault,
    ForceClone,
    ForceCopy,
    ForcePartialEq,
    ForceEq,
    ForceHash,
}

/// Whether a declaration has a default at all: every struct does, an enum
/// needs a first variant to fall back on.
pub open spec fn decl_has_default(d: TypeDeclaration) -> bool {
    match d.kind {
        DeclKind::Struct(_) => true,
        DeclKind::Enum(variants) => variants@.len() > 0,
    }
}

/// The Default implementation generated for a declaration that has one.
pub open spec fn spec_default_code(d: TypeDeclaration) -> Seq<char> {
    match d.kind {
        DeclKind::Struct(shape) => spec_default_struct_code(d.name@, d.generics@, shape),
        DeclKind::Enum(variants) => spec_default_enum_code(d.name@, d.generics@, variants@),
    }
}

/// What a default-generation request yields: the generated code, or the one
/// fatal error owed to its input.
pub open spec fn default_outcome(item: ParsedItem, r: Result<String, FatalError>) -> bool {
    match item {
        ParsedItem::Unsupported => r == Result::<String, FatalError>::Err(
            FatalError::UnsupportedDeclarationKind,
        ),
        ParsedItem::Declaration(d) => if decl_has_default(d) {
            r matches Ok(code) && code@ == spec_default_code(d)
        } else {
            r == Result::<String, FatalError>::Err(FatalError::EmptyEnumDefault)
        },
    }
}

/// The Clone implementation generated for a declaration.
pub open spec fn spec_clone_code(d: TypeDeclaration) -> Seq<char> {
    match d.kind {
        DeclKind::Struct(shape) => spec_clone_struct_code(d.name@, d.generics@, shape),
        DeclKind::Enum(variants) => spec_clone_enum_code(d.name@, d.generics@, variants@),
    }
}

/// What a clone-generation request yields.
pub open spec fn clone_outcome(item: ParsedItem, r: Result<String, FatalError>) -> bool {
    match item {
        ParsedItem::Unsupported => r == Result::<String, FatalError>::Err(
            FatalError::UnsupportedDeclarationKind,
        ),
        ParsedItem::Declaration(d) => r matches Ok(code) && code@ == spec_clone_code(d),
    }
}

/// What a copy-marker request yields.
pub open spec fn copy_outcome(item: ParsedItem, r: Result<String, FatalError>) -> bool {
    match item {
        ParsedItem::Unsupported => r == Result::<String, FatalError>::Err(
            FatalError::UnsupportedDeclarationKind,
        ),
        ParsedItem::Declaration(d) => r matches Ok(code) && code@ == spec_copy_code(
            d.name@,
            d.generics@,
        ),
    }
}

/// The PartialEq implementation generated for a declaration.
pub open spec fn spec_partial_eq_code(d: TypeDeclaration) -> Seq<char> {
    match d.kind {
        DeclKind::Struct(shape) => spec_eq_struct_code(d.name@, d.generics@, shape),
        DeclKind::Enum(variants) => spec_eq_enum_code(d.name@, d.generics@, variants@),
    }
}

/// What an equality-generation request yields.
pub open spec fn partial_eq_outcome(item: ParsedItem, r: Result<String, FatalError>) -> bool {
    match item {
        ParsedItem::Unsupported => r == Result::<String, FatalError>::Err(
            FatalError::UnsupportedDeclarationKind,
        ),
        ParsedItem::Declaration(d) => r matches Ok(code) && code@ == spec_partial_eq_code(d),
    }
}

/// What an eq-marker request yields.
pub open spec fn eq_outcome(item: ParsedItem, r: Result<String, FatalError>) -> bool {
    match item {
        ParsedItem::Unsupported => r == Result::<String, FatalError>::Err(
            FatalError::UnsupportedDeclarationKind,
        ),
        ParsedItem::Declaration(d) => r matches Ok(code) && code@ == spec_eq_marker_code(
            d.name@,
            d.generics@,
        ),
    }
}

/// What a hash-generation request yields: generated code for a single-shape
/// declaration, and a fatal error for a multi-variant one, whose hashing lies
/// outside the generator's contract.
pub open spec fn hash_outcome(item: ParsedItem, r: Result<String, FatalError>) -> bool {
    match item {
        ParsedItem::Unsupported => r == Result::<String, FatalError>::Err(
            FatalError::UnsupportedDeclarationKind,
        ),
        ParsedItem::Declaration(d) => match d.kind {
            DeclKind::Struct(shape) => r matches Ok(code) && code@ == spec_hash_code(
                d.name@,
                d.generics@,
                shape,
            ),
            DeclKind::Enum(_) => r == Result::<String, FatalError>::Err(
                FatalError::WrongDeclarationKind,
            ),
        },
    }
}

/// Generates the Default implementation for a parsed item.
pub fn force_default(item: &ParsedItem) -> (r: Result<String, FatalError>)
    ensures
        default_outcome(*item, r),
{
    match item {
        ParsedItem::Unsupported => Err(FatalError::UnsupportedDeclarationKind),
        ParsedItem::Declaration(d) => match &d.kind {
            DeclKind::Struct(shape) => Ok(impl_default_struct(&d.name, &d.generics, shape)),
            DeclKind::Enum(variants) => impl_default_enum(&d.name, &d.generics, variants),
        },
    }
}

/// Generates the Clone implementation for a parsed item.
pub fn force_clone(item: &ParsedItem) -> (r: Result<String, FatalError>)
    ensures
        clone_outcome(*item, r),
{
    match item {
        ParsedItem::Unsupported => Err(FatalError::UnsupportedDeclarationKind),
        ParsedItem::Declaration(d) => match &d.kind {
            DeclKind::Struct(shape) => Ok(impl_clone_struct(&d.name, &d.generics, shape)),
            DeclKind::Enum(variants) => Ok(impl_clone_enum(&d.name, &d.generics, variants)),
        },
    }
}

/// Generates the Copy marker for a parsed item.
pub fn force_copy(item: &ParsedItem) -> (r: Result<String, FatalError>)
    ensures
        copy_outcome(*item, r),
{
    match item {
        ParsedItem::Unsupported => Err(FatalError::UnsupportedDeclarationKind),
        ParsedItem::Declaration(d) => match &d.kind {
            DeclKind::Struct(_) => Ok(impl_copy_struct(&d.name, &d.generics)),
            DeclKind::Enum(_) => Ok(impl_copy_enum(&d.name, &d.generics)),
        },
    }
}

/// Generates the PartialEq implementation for a parsed item.
pub fn force_partial_eq(item: &ParsedItem) -> (r: Result<String, FatalError>)
    ensures
        partial_eq_outcome(*item, r),
{
    match item {
        ParsedItem::Unsupported => Err(FatalError::UnsupportedDeclarationKind),
        ParsedItem::Declaration(d) => match &d.kind {
            DeclKind::Struct(shape) => Ok(impl_partial_eq_struct(&d.name, &d.generics, shape)),
            DeclKind::Enum(variants) => Ok(impl_partial_eq_enum(&d.name, &d.generics, variants)),
        },
    }
}

/// Generates the Eq marker for a parsed item.
pub fn force_eq(item: &ParsedItem) -> (r: Result<String, FatalError>)
    ensures
        eq_outcome(*item, r),
{
    match item {
        ParsedItem::Unsupported => Err(FatalError::UnsupportedDeclarationKind),
        ParsedItem::Declaration(d) => match &d.kind {
            DeclKind::Struct(_) => Ok(impl_eq_struct(&d.name, &d.generics)),
            DeclKind::Enum(_) => Ok(impl_eq_enum(&d.name, &d.generics)),
        },
    }
}

/// Generates the Hash implementation for a parsed item; a multi-variant
/// declaration is refused.
pub fn force_hash(item: &ParsedItem) -> (r: Result<String, FatalError>)
    ensures
        hash_outcome(*item, r),
{
    match item {
        ParsedItem::Unsupported => Err(FatalError::UnsupportedDeclarationKind),
        ParsedItem::Declaration(d) => match &d.kind {
            DeclKind::Struct(shape) => Ok(impl_hash(&d.name, &d.generics, shape)),
            DeclKind::Enum(_) => Err(FatalError::WrongDeclarationKind),
        },
    }
}

/// Routes one generation request to the matching generator. The result is
/// either one complete implementation or the first fatal condition found.
pub fn generate(capability: Capability, item: &ParsedItem) -> (r: Result<String, FatalError>)
    ensures
        capability == Capability::ForceDefault ==> default_outcome(*item, r),
        capability == Capability::ForceClone ==> clone_outcome(*item, r),
        capability == Capability::ForceCopy ==> copy_outcome(*item, r),
        capability == Capability::ForcePartialEq ==> partial_eq_outcome(*item, r),
        capability == Capability::ForceEq ==> eq_outcome(*item, r),
        capability == Capability::ForceHash ==> hash_outcome(*item, r),
{
    match capability {
        Capability::ForceDefault => force_default(item),
        Capability::ForceClone => force_clone(item),
        Capability::ForceCopy => force_copy(item),
        Capability::ForcePartialEq => force_partial_eq(item),
        Capability::ForceEq => force_eq(item),
        Capability::ForceHash => force_hash(item),
    }
}

} // verus!
