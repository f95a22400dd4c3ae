//! The Clone synthesizer. It emits two operations: `clone`, which duplicates
//! every slot in declared order and rebuilds the same shape — for an enum,
//! the same variant the value currently holds — and, for struct shapes with
//! slots, `clone_from`, the in-place overwrite that prefers each slot's own
//! in-place path over allocating a fresh duplicate.

use vstd::prelude::*;
use vstd::string::StringExecFns;

use crate::decl::{accessor_names, accessor_texts, get_field_identifiers, reference_names,
    FieldShape, GenericParam, Variant};
use crate::emit::{braced_list, impl_header_text, parens_list, spec_braced, spec_impl_header,
    spec_parens};
use crate::text::{affix_all, join, pair_all, sandwich_all, spec_affix, spec_join, spec_pair,
    spec_sandwich, spec_suffix, suffix_all};

verus! {

/// The constructor expression with which `clone` rebuilds a struct shape,
/// duplicating every slot in declared order.
pub open spec fn spec_clone_ctor(name: Seq<char>, shape: FieldShape) -> Seq<char> {
    match shape {
        FieldShape::Unit => name,
        FieldShape::Positional(_) => spec_parens(
            name,
            spec_affix(accessor_names(shape), "self."@, ".clone()"@),
        ),
        FieldShape::Named(_) => spec_braced(
            name,
            spec_pair(reference_names(shape), ": self."@, ".clone()"@),
        ),
    }
}

/// The `clone_from` statements of a struct shape, one per slot in declared
/// order, each delegating to the slot's own in-place overwrite.
pub open spec fn spec_clone_from_stmts(shape: FieldShape) -> Seq<Seq<char>> {
    spec_sandwich(accessor_names(shape), "self."@, ".clone_from(&other."@, ");"@)
}

/// The Clone implementation generated for a single-shape declaration. A unit
/// shape gets no `clone_from`: with no slots there is nothing to overwrite.
pub open spec fn spec_clone_struct_code(
    name: Seq<char>,
    params: Seq<GenericParam>,
    shape: FieldShape,
) -> Seq<char> {
    if shape is Unit {
        spec_impl_header("Clone"@, name, params) + " { fn clone(&self) -> Self { "@ + name
            + " } }"@
    } else {
        spec_impl_header("Clone"@, name, params) + " { fn clone(&self) -> Self { "@
            + spec_clone_ctor(name, shape) + " } fn clone_from(&mut self, other: &Self) { "@
            + spec_join(spec_clone_from_stmts(shape), " "@) + " } }"@
    }
}

/// One `match` arm of an enum `clone`: the arm binds the variant's slots
/// under their reference names and rebuilds the same variant from their
/// duplicates.
pub open spec fn spec_clone_arm(v: Variant) -> Seq<char> {
    match v.shape {
        FieldShape::Unit => "Self::"@ + v.name@ + " => Self::"@ + v.name@ + ","@,
        FieldShape::Positional(_) => spec_parens("Self::"@ + v.name@, reference_names(v.shape))
            + " => "@ + spec_parens(
            "Self::"@ + v.name@,
            spec_suffix(reference_names(v.shape), ".clone()"@),
        ) + ","@,
        FieldShape::Named(_) => spec_braced("Self::"@ + v.name@, reference_names(v.shape))
            + " => "@ + spec_braced(
            "Self::"@ + v.name@,
            spec_pair(reference_names(v.shape), ": "@, ".clone()"@),
        ) + ","@,
    }
}

/// The arms of an enum `clone`, in declared variant order.
pub open spec fn spec_clone_arms(variants: Seq<Variant>) -> Seq<Seq<char>> {
    Seq::new(variants.len(), |i: int| spec_clone_arm(variants[i]))
}

/// The Clone implementation generated for a multi-variant declaration:
/// cloning never alters which variant the value holds.
pub open spec fn spec_clone_enum_code(
    name: Seq<char>,
    params: Seq<GenericParam>,
    variants: Seq<Variant>,
) -> Seq<char> {
    spec_impl_header("Clone"@, name, params) + " { fn clone(&self) -> Self { match self { "@
        + spec_join(spec_clone_arms(variants), " "@) + " } } }"@
}

/// Emits the Clone implementation for a single-shape declaration: `clone`
/// duplicates every slot in declared order, and shapes with slots also get
/// the in-place `clone_from`.
pub fn impl_clone_struct(name: &String, generics: &Vec<GenericParam>, shape: &FieldShape) -> (r:
    String)
    ensures
        r@ == spec_clone_struct_code(name@, generics@, *shape),
{
    let mut out = impl_header_text("Clone", name, generics);
    out.append(" { fn clone(&self) -> Self { ");
    match shape {
        FieldShape::Unit => {
            out.append(name.as_str());
            out.append(" } }");
        },
        FieldShape::Positional(_) => {
            let accessors = accessor_texts(shape);
            let items = affix_all(&accessors, "self.", ".clone()");
            let ctor = parens_list(name, &items);
            out.append(ctor.as_str());
            out.append(" } fn clone_from(&mut self, other: &Self) { ");
            let stmts = sandwich_all(&accessors, "self.", ".clone_from(&other.", ");");
            let joined = join(&stmts, " ");
            out.append(joined.as_str());
            out.append(" } }");
        },
        FieldShape::Named(_) => {
            let ids = get_field_identifiers(shape);
            let items = pair_all(&ids, ": self.", ".clone()");
            let ctor = braced_list(name, &items);
            out.append(ctor.as_str());
            out.append(" } fn clone_from(&mut self, other: &Self) { ");
            let accessors = accessor_texts(shape);
            let stmts = sandwich_all(&accessors, "self.", ".clone_from(&other.", ");");
            let joined = join(&stmts, " ");
            out.append(joined.as_str());
            out.append(" } }");
        },
    }
    out
}

fn clone_arm(v: &Variant) -> (r: String)
    ensures
        r@ == spec_clone_arm(*v),
{
    let mut path = "Self::".to_owned();
    path.append(v.name.as_str());
    match &v.shape {
        FieldShape::Unit => {
            let mut out = path.clone();
            out.append(" => Self::");
            out.append(v.name.as_str());
            out.append(",");
            out
        },
        FieldShape::Positional(_) => {
            let ids = get_field_identifiers(&v.shape);
            let mut out = parens_list(&path, &ids);
            out.append(" => ");
            let items = suffix_all(&ids, ".clone()");
            let ctor = parens_list(&path, &items);
            out.append(ctor.as_str());
            out.append(",");
            out
        },
        FieldShape::Named(_) => {
            let ids = get_field_identifiers(&v.shape);
            let mut out = braced_list(&path, &ids);
            out.append(" => ");
            let items = pair_all(&ids, ": ", ".clone()");
            let ctor = braced_list(&path, &items);
            out.append(ctor.as_str());
            out.append(",");
            out
        },
    }
}

/// Emits the Clone implementation for a multi-variant declaration: one arm
/// per variant, in declared order, each rebuilding the variant it matched.
pub fn impl_clone_enum(name: &String, generics: &Vec<GenericParam>, variants: &Vec<Variant>) -> (r:
    String)
    ensures
        r@ == spec_clone_enum_code(name@, generics@, variants@),
{
    let ghost target = spec_clone_arms(variants@);
    let mut arms: Vec<String> = Vec::new();
    let mut i: usize = 0;
    while i < variants.len()
        invariant
            i <= variants@.len(),
            target == spec_clone_arms(variants@),
            arms@.len() == i as int,
            forall|k: int| 0 <= k < i ==> #[trigger] arms@[k]@ == target[k],
        decreases variants@.len() - i,
    {
        let ghost pre_out = arms@;
        let t = clone_arm(&variants[i]);
        proof {
            assert(t@ == target[i as int]);
        }
        let ghost tstr = t;
        arms.push(t);
        proof {
            assert(arms@ == pre_out.push(tstr));
            assert forall|k: int| 0 <= k < i + 1 implies #[trigger] arms@[k]@ == target[k] by {
                if k < i {
                    assert(arms@[k] == pre_out[k]);
                } else {
                    assert(arms@[k] == tstr);
                }
            }
        }
        i += 1;
    }
    proof {
        assert(arms.deep_view().len() == arms@.len());
        assert forall|k: int| 0 <= k < arms.deep_view().len() implies arms.deep_view()[k]
            == target[k] by {
            assert(arms.deep_view()[k] == arms@[k]@);
        }
        assert(arms.deep_view() =~= target);
    }
    let joined = join(&arms, " ");
    let mut out = impl_header_text("Clone", name, generics);
    out.append(" { fn clone(&self) -> Self { match self { ");
    out.append(joined.as_str());
    out.append(" } } }");
    out
}

} // verus!
