//! The Copy and Eq marker synthesizers. Each emits a capability declaration
//! with no method body: Copy states the type is bitwise-duplicable, Eq that
//! its equality is a total equivalence. Neither inspects any field — that
//! every slot's own type carries the capability is a trust boundary left to
//! the caller's compiler, exactly as declared.

use vstd::prelude::*;
use vstd::string::StringExecFns;

use crate::decl::GenericParam;
use crate::emit::{impl_header_text, spec_impl_header};

verus! {

/// The Copy marker generated for a declaration, identical for every shape
/// and kind.
pub open spec fn spec_copy_code(name: Seq<char>, params: Seq<GenericParam>) -> Seq<char> {
    spec_impl_header("Copy"@, name, params) + " {}"@
}

/// The Eq marker generated for a declaration, identical for every shape and
/// kind.
pub open spec fn spec_eq_marker_code(name: Seq<char>, params: Seq<GenericParam>) -> Seq<char> {
    spec_impl_header("Eq"@, name, params) + " {}"@
}

/// Emits the Copy marker for a single-shape declaration.
pub fn impl_copy_struct(name: &String, generics: &Vec<GenericParam>) -> (r: String)
    ensures
        r@ == spec_copy_code(name@, generics@),
{
    let mut out = impl_header_text("Copy", name, generics);
    out.append(" {}");
    out
}

/// Emits the Copy marker for a multi-variant declaration.
pub fn impl_copy_enum(name: &String, generics: &Vec<GenericParam>) -> (r: String)
    ensures
        r@ == spec_copy_code(name@, generics@),
{
    let mut out = impl_header_text("Copy", name, generics);
    out.append(" {}");
    out
}

/// Emits the Eq marker for a single-shape declaration.
pub fn impl_eq_struct(name: &String, generics: &Vec<GenericParam>) -> (r: String)
    ensures
        r@ == spec_eq_marker_code(name@, generics@),
{
    let mut out = impl_header_text("Eq", name, generics);
    out.append(" {}");
    out
}

/// Emits the Eq marker for a multi-variant declaration.
pub fn impl_eq_enum(name: &String, generics: &Vec<GenericParam>) -> (r: String)
    ensures
        r@ == spec_eq_marker_code(name@, generics@),
{
    let mut out = impl_header_text("Eq", name, generics);
    out.append(" {}");
    out
}

} // verus!
