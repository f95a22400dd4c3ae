//! The Hash synthesizer: `hash` feeds every slot's own contribution into the
//! caller-supplied hasher, strictly in declared field order; a unit shape
//! contributes nothing, so all its instances hash alike. The generator's
//! contract covers single-shape declarations only. Requests for multi-variant
//! declarations are refused with a fatal error rather than hashed without a
//! variant tag, which would silently collide values of different variants.

use vstd::prelude::*;
use vstd::string::StringExecFns;

use crate::decl::{accessor_names, accessor_texts, FieldShape, GenericParam};
use crate::emit::{impl_header_text, spec_impl_header};
use crate::text::{affix_all, join, spec_affix, spec_join};

verus! {

/// The per-slot hashing statements, in declared field order.
pub open spec fn spec_hash_stmts(shape: FieldShape) -> Seq<Seq<char>> {
    spec_affix(accessor_names(shape), "self."@, ".hash(state);"@)
}

/// The Hash implementation generated for a single-shape declaration.
pub open spec fn spec_hash_code(
    name: Seq<char>,
    params: Seq<GenericParam>,
    shape: FieldShape,
) -> Seq<char> {
    spec_impl_header("std::hash::Hash"@, name, params)
        + " { fn hash<H>(&self, state: &mut H) where H: std::hash::Hasher { "@ + spec_join(
        spec_hash_stmts(shape),
        " "@,
    ) + " } }"@
}

/// Field-order sensitivity of the hash: swapping the declared order of two
/// named slots permutes the generated hash-combination statements at exactly
/// those two positions, so the accumulator is fed the slots in the new
/// order.
pub proof fn lemma_hash_order_sensitivity(a: Vec<String>, b: Vec<String>, i: int, j: int)
    requires
        0 <= i < a@.len(),
        0 <= j < a@.len(),
        b@ == a@.update(i, a@[j]).update(j, a@[i]),
    ensures
        spec_hash_stmts(FieldShape::Named(b)) == spec_hash_stmts(FieldShape::Named(a)).update(
            i,
            "self."@ + a@[j]@ + ".hash(state);"@,
        ).update(j, "self."@ + a@[i]@ + ".hash(state);"@),
{
    crate::decl::lemma_field_order_sensitivity(a, b, i, j);
    assert(spec_hash_stmts(FieldShape::Named(b)) =~= spec_hash_stmts(FieldShape::Named(a)).update(
        i,
        "self."@ + a@[j]@ + ".hash(state);"@,
    ).update(j, "self."@ + a@[i]@ + ".hash(state);"@));
}

/// Emits the Hash implementation for a single-shape declaration: one hashing
/// statement per slot, strictly in declared order.
pub fn impl_hash(name: &String, generics: &Vec<GenericParam>, shape: &FieldShape) -> (r: String)
    ensures
        r@ == spec_hash_code(name@, generics@, *shape),
{
    let accessors = accessor_texts(shape);
    let stmts = affix_all(&accessors, "self.", ".hash(state);");
    let joined = join(&stmts, " ");
    let mut out = impl_header_text("std::hash::Hash", name, generics);
    out.append(" { fn hash<H>(&self, state: &mut H) where H: std::hash::Hasher { ");
    out.append(joined.as_str());
    out.append(" } }");
    out
}

} // verus!
