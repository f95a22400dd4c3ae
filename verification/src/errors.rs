//! The fatal conditions a generation request can run into. All of them are
//! usage errors discovered at generation time: none is retried or recovered
//! from, and no partial output accompanies one.

use vstd::prelude::*;

verus! {

/// Why a generation request was refused before any code was emitted.
#[derive(Clone, Copy, Debug, PartialEq, Eq, Structural)]
pub enum FatalError {
    /// The parsed input is neither a struct nor an enum declaration.
    UnsupportedDeclarationKind,
    /// A default was requested for an enum with no variants, which has no
    /// first variant to fall back on.
    EmptyEnumDefault,
    /// A hash implementation was requested for a declaration kind outside the
    /// hash generator's contract, which covers single-shape declarations
    /// only.
    WrongDeclarationKind,
}

} // verus!
