//! The PartialEq synthesizer: a binary `eq` that compares slots pairwise in
//! declared order, combined with `&&`. A struct with no slots compares
//! unconditionally equal. An enum compares only within matching variant
//! pairs, binding both operands' slots under the two-sided `_lhs` / `_rhs`
//! suffix scheme; every pairing across different variants falls to a default
//! arm evaluating to `false`.

use vstd::prelude::*;
use vstd::string::StringExecFns;

use crate::decl::{accessor_names, accessor_texts, get_field_identifiers, reference_names,
    shape_arity, FieldShape, GenericParam, Variant};
use crate::emit::{braced_list, impl_header_text, parens_list, spec_braced, spec_impl_header,
    spec_parens};
use crate::text::{join, pair_all, sandwich_all, spec_join, spec_pair, spec_sandwich, spec_suffix,
    suffix_all};

verus! {

/// The body of a struct `eq`: the pairwise slot comparisons joined with
/// `&&`, or `true` when the shape has no slots.
pub open spec fn spec_eq_struct_body(shape: FieldShape) -> Seq<char> {
    if shape_arity(shape) == 0 {
        "true"@
    } else {
        spec_join(spec_sandwich(accessor_names(shape), "self."@, " == rhs."@, ""@), " && "@)
    }
}

/// The PartialEq implementation generated for a single-shape declaration.
pub open spec fn spec_eq_struct_code(
    name: Seq<char>,
    params: Seq<GenericParam>,
    shape: FieldShape,
) -> Seq<char> {
    spec_impl_header("PartialEq"@, name, params) + " { fn eq(&self, rhs: &Self) -> bool { "@
        + spec_eq_struct_body(shape) + " } }"@
}

/// The pattern binding one operand's slots under the given suffix.
pub open spec fn spec_eq_pattern(v: Variant, suffix: Seq<char>) -> Seq<char> {
    match v.shape {
        FieldShape::Unit => "Self::"@ + v.name@,
        FieldShape::Positional(_) => spec_parens(
            "Self::"@ + v.name@,
            spec_suffix(reference_names(v.shape), suffix),
        ),
        FieldShape::Named(_) => spec_braced(
            "Self::"@ + v.name@,
            spec_pair(reference_names(v.shape), ": "@, suffix),
        ),
    }
}

/// One `match` arm of an enum `eq`: both operands bound under the same
/// variant, their slots compared pairwise; a variant with no slots compares
/// unconditionally equal.
pub open spec fn spec_eq_arm(v: Variant) -> Seq<char> {
    "("@ + spec_eq_pattern(v, "_lhs"@) + ", "@ + spec_eq_pattern(v, "_rhs"@) + ") => "@ + (
    if shape_arity(v.shape) == 0 {
        "true"@
    } else {
        spec_join(spec_pair(reference_names(v.shape), "_lhs == "@, "_rhs"@), " && "@)
    }) + ","@
}

/// The matching-variant arms of an enum `eq`, in declared variant order.
pub open spec fn spec_eq_arms(variants: Seq<Variant>) -> Seq<Seq<char>> {
    Seq::new(variants.len(), |i: int| spec_eq_arm(variants[i]))
}

/// The PartialEq implementation generated for a multi-variant declaration:
/// after the matching-variant arms, the default arm makes every cross-variant
/// pairing unequal.
pub open spec fn spec_eq_enum_code(
    name: Seq<char>,
    params: Seq<GenericParam>,
    variants: Seq<Variant>,
) -> Seq<char> {
    spec_impl_header("PartialEq"@, name, params)
        + " { fn eq(&self, rhs: &Self) -> bool { match (self, rhs) { "@ + spec_join(
        spec_eq_arms(variants),
        " "@,
    ) + " (_, _) => false, } } }"@
}

/// Emits the PartialEq implementation for a single-shape declaration.
pub fn impl_partial_eq_struct(
    name: &String,
    generics: &Vec<GenericParam>,
    shape: &FieldShape,
) -> (r: String)
    ensures
        r@ == spec_eq_struct_code(name@, generics@, *shape),
{
    let mut out = impl_header_text("PartialEq", name, generics);
    out.append(" { fn eq(&self, rhs: &Self) -> bool { ");
    let accessors = accessor_texts(shape);
    if accessors.len() == 0 {
        out.append("true");
    } else {
        let conds = sandwich_all(&accessors, "self.", " == rhs.", "");
        let joined = join(&conds, " && ");
        out.append(joined.as_str());
    }
    out.append(" } }");
    proof {
        assert(accessors.deep_view().len() == shape_arity(*shape));
    }
    out
}

fn eq_pattern(v: &Variant, suffix: &str) -> (r: String)
    ensures
        r@ == spec_eq_pattern(*v, suffix@),
{
    let mut path = "Self::".to_owned();
    path.append(v.name.as_str());
    match &v.shape {
        FieldShape::Unit => path,
        FieldShape::Positional(_) => {
            let ids = get_field_identifiers(&v.shape);
            let items = suffix_all(&ids, suffix);
            parens_list(&path, &items)
        },
        FieldShape::Named(_) => {
            let ids = get_field_identifiers(&v.shape);
            let items = pair_all(&ids, ": ", suffix);
            braced_list(&path, &items)
        },
    }
}

fn eq_arm(v: &Variant) -> (r: String)
    ensures
        r@ == spec_eq_arm(*v),
{
    let lhs = eq_pattern(v, "_lhs");
    let rhs = eq_pattern(v, "_rhs");
    let mut out = "(".to_owned();
    out.append(lhs.as_str());
    out.append(", ");
    out.append(rhs.as_str());
    out.append(") => ");
    let ids = get_field_identifiers(&v.shape);
    if ids.len() == 0 {
        out.append("true");
    } else {
        let conds = pair_all(&ids, "_lhs == ", "_rhs");
        let joined = join(&conds, " && ");
        out.append(joined.as_str());
    }
    out.append(",");
    proof {
        assert(ids.deep_view().len() == shape_arity(v.shape));
    }
    out
}

/// Emits the PartialEq implementation for a multi-variant declaration.
pub fn impl_partial_eq_enum(
    name: &String,
    generics: &Vec<GenericParam>,
    variants: &Vec<Variant>,
) -> (r: String)
    ensures
        r@ == spec_eq_enum_code(name@, generics@, variants@),
{
    let ghost target = spec_eq_arms(variants@);
    let mut arms: Vec<String> = Vec::new();
    let mut i: usize = 0;
    while i < variants.len()
        invariant
            i <= variants@.len(),
            target == spec_eq_arms(variants@),
            arms@.len() == i as int,
            forall|k: int| 0 <= k < i ==> #[trigger] arms@[k]@ == target[k],
        decreases variants@.len() - i,
    {
        let ghost pre_out = arms@;
        let t = eq_arm(&variants[i]);
        proof {
            assert(t@ == target[i as int]);
        }
        let ghost tstr = t;
        arms.push(t);
        proof {
            assert(arms@ == pre_out.push(tstr));
            assert forall|k: int| 0 <= k < i + 1 implies #[trigger] arms@[k]@ == target[k] by {
                if k < i {
                    assert(arms@[k] == pre_out[k]);
                } else {
                    assert(arms@[k] == tstr);
                }
            }
        }
        i += 1;
    }
    proof {
        assert(arms.deep_view().len() == arms@.len());
        assert forall|k: int| 0 <= k < arms.deep_view().len() implies arms.deep_view()[k]
            == target[k] by {
            assert(arms.deep_view()[k] == arms@[k]@);
        }
        assert(arms.deep_view() =~= target);
    }
    let joined = join(&arms, " ");
    let mut out = impl_header_text("PartialEq", name, generics);
    out.append(" { fn eq(&self, rhs: &Self) -> bool { match (self, rhs) { ");
    out.append(joined.as_str());
    out.append(" (_, _) => false, } } }");
    out
}

} // verus!
