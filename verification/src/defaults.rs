//! The Default synthesizer: rebuild the declaration's shape with every slot
//! default-constructed, in declared order. A multi-variant declaration
//! defaults to its first declared variant; one with no variants is refused.

use vstd::prelude::*;
use vstd::string::StringExecFns;

use crate::decl::{get_field_identifiers, reference_names, shape_arity, FieldShape, GenericParam,
    Variant};
use crate::emit::{braced_list, impl_header_text, parens_list, spec_braced, spec_impl_header,
    spec_parens};
use crate::errors::FatalError;
use crate::text::{repeat_text, spec_repeat, spec_suffix, suffix_all};

verus! {

/// The constructor expression rebuilding a shape at `path`, every slot
/// default-constructed in declared order.
pub open spec fn spec_default_ctor(path: Seq<char>, shape: FieldShape) -> Seq<char> {
    match shape {
        FieldShape::Unit => path,
        FieldShape::Positional(_) => spec_parens(
            path,
            spec_repeat("Default::default()"@, shape_arity(shape)),
        ),
        FieldShape::Named(_) => spec_braced(
            path,
            spec_suffix(reference_names(shape), ": Default::default()"@),
        ),
    }
}

/// The Default implementation generated for a single-shape declaration.
pub open spec fn spec_default_struct_code(
    name: Seq<char>,
    params: Seq<GenericParam>,
    shape: FieldShape,
) -> Seq<char> {
    spec_impl_header("Default"@, name, params) + " { fn default() -> Self { "@
        + spec_default_ctor(name, shape) + " } }"@
}

/// The Default implementation generated for a multi-variant declaration with
/// at least one variant: the variant at index zero is constructed.
pub open spec fn spec_default_enum_code(
    name: Seq<char>,
    params: Seq<GenericParam>,
    variants: Seq<Variant>,
) -> Seq<char> {
    spec_impl_header("Default"@, name, params) + " { fn default() -> Self { "@
        + spec_default_ctor(name + "::"@ + variants[0].name@, variants[0].shape) + " } }"@
}

/// Field-order sensitivity of construction: swapping the declared order of
/// two named slots permutes the default constructor's items at exactly those
/// two positions, so the shape is rebuilt in the new order.
pub proof fn lemma_construction_order_sensitivity(a: Vec<String>, b: Vec<String>, i: int, j: int)
    requires
        0 <= i < a@.len(),
        0 <= j < a@.len(),
        b@ == a@.update(i, a@[j]).update(j, a@[i]),
    ensures
        spec_suffix(reference_names(FieldShape::Named(b)), ": Default::default()"@) == spec_suffix(
            reference_names(FieldShape::Named(a)),
            ": Default::default()"@,
        ).update(i, a@[j]@ + ": Default::default()"@).update(j, a@[i]@ + ": Default::default()"@),
{
    crate::decl::lemma_field_order_sensitivity(a, b, i, j);
    assert(spec_suffix(reference_names(FieldShape::Named(b)), ": Default::default()"@)
        =~= spec_suffix(reference_names(FieldShape::Named(a)), ": Default::default()"@).update(
        i,
        a@[j]@ + ": Default::default()"@,
    ).update(j, a@[i]@ + ": Default::default()"@));
}

fn default_ctor_at(path: String, shape: &FieldShape) -> (r: String)
    ensures
        r@ == spec_default_ctor(path@, *shape),
{
    match shape {
        FieldShape::Unit => path,
        FieldShape::Positional(n) => {
            let items = repeat_text("Default::default()", *n);
            parens_list(&path, &items)
        },
        FieldShape::Named(_) => {
            let ids = get_field_identifiers(shape);
            let items = suffix_all(&ids, ": Default::default()");
            braced_list(&path, &items)
        },
    }
}

/// Emits the Default implementation for a single-shape declaration: the shape
/// is rebuilt with every slot default-constructed, in declared order.
pub fn impl_default_struct(name: &String, generics: &Vec<GenericParam>, shape: &FieldShape) -> (r:
    String)
    ensures
        r@ == spec_default_struct_code(name@, generics@, *shape),
{
    let ctor = default_ctor_at(name.clone(), shape);
    let mut out = impl_header_text("Default", name, generics);
    out.append(" { fn default() -> Self { ");
    out.append(ctor.as_str());
    out.append(" } }");
    out
}

/// Emits the Default implementation for a multi-variant declaration: the
/// first declared variant wins, its slots default-constructed as in the
/// struct case. An enum with no variants has no default and is refused.
pub fn impl_default_enum(name: &String, generics: &Vec<GenericParam>, variants: &Vec<Variant>) -> (
    r: Result<String, FatalError>)
    ensures
        variants@.len() == 0 ==> r == Result::<String, FatalError>::Err(
            FatalError::EmptyEnumDefault,
        ),
        variants@.len() > 0 ==> (r matches Ok(code) && code@ == spec_default_enum_code(
            name@,
            generics@,
            variants@,
        )),
{
    if variants.len() == 0 {
        Err(FatalError::EmptyEnumDefault)
    } else {
        let first = &variants[0];
        let mut path = name.clone();
        path.append("::");
        path.append(first.name.as_str());
        let ctor = default_ctor_at(path, &first.shape);
        let mut out = impl_header_text("Default", name, generics);
        out.append(" { fn default() -> Self { ");
        out.append(ctor.as_str());
        out.append(" } }");
        Ok(out)
    }
}

} // verus!
