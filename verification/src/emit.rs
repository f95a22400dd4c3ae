//! Emission pieces shared by the six generators: the implementation header —
//! in which the declaration's generic parameter list, bound text included, is
//! reproduced verbatim — and the braced and parenthesized listing forms.

use vstd::prelude::*;
use vstd::string::StringExecFns;

use crate::decl::GenericParam;
use crate::text::{join, spec_join};

verus! {

/// The text under which one generic parameter is declared in an impl header:
/// its name, followed by `: bounds` when it carries bound text.
pub open spec fn param_decl_text(p: GenericParam) -> Seq<char> {
    if p.bounds@.len() == 0 {
        p.name@
    } else {
        p.name@ + ": "@ + p.bounds@
    }
}

/// The declared texts of all generic parameters, in order.
pub open spec fn param_decl_texts(params: Seq<GenericParam>) -> Seq<Seq<char>> {
    Seq::new(params.len(), |i: int| param_decl_text(params[i]))
}

/// `<...>` declaring every parameter with its bounds kept verbatim; empty
/// when the declaration has no generic parameters.
pub open spec fn spec_generics_decl(params: Seq<GenericParam>) -> Seq<char> {
    if params.len() == 0 {
        Seq::empty()
    } else {
        "<"@ + spec_join(param_decl_texts(params), ", "@) + ">"@
    }
}

/// The names of all generic parameters, in order.
pub open spec fn param_name_texts(params: Seq<GenericParam>) -> Seq<Seq<char>> {
    Seq::new(params.len(), |i: int| params[i].name@)
}

/// `<...>` naming every parameter, as it follows the type's name; empty when
/// the declaration has no generic parameters.
pub open spec fn spec_generics_args(params: Seq<GenericParam>) -> Seq<char> {
    if params.len() == 0 {
        Seq::empty()
    } else {
        "<"@ + spec_join(param_name_texts(params), ", "@) + ">"@
    }
}

/// The header `impl<decls> Trait for Name<args>` of one generated
/// implementation.
pub open spec fn spec_impl_header(
    trait_path: Seq<char>,
    name: Seq<char>,
    params: Seq<GenericParam>,
) -> Seq<char> {
    "impl"@ + spec_generics_decl(params) + " "@ + trait_path + " for "@ + name
        + spec_generics_args(params)
}

/// A braced listing `path { item, item }`.
pub open spec fn spec_braced(path: Seq<char>, items: Seq<Seq<char>>) -> Seq<char> {
    path + " { "@ + spec_join(items, ", "@) + " }"@
}

/// A parenthesized listing `path(item, item)`.
pub open spec fn spec_parens(path: Seq<char>, items: Seq<Seq<char>>) -> Seq<char> {
    path + "("@ + spec_join(items, ", "@) + ")"@
}

/// Renders the generic parameter declarations of an impl header.
pub fn generics_decl_text(params: &Vec<GenericParam>) -> (r: String)
    ensures
        r@ == spec_generics_decl(params@),
{
    if params.len() == 0 {
        String::new()
    } else {
        let ghost target = param_decl_texts(params@);
        let mut parts: Vec<String> = Vec::new();
        let mut i: usize = 0;
        while i < params.len()
            invariant
                i <= params@.len(),
                target == param_decl_texts(params@),
                parts@.len() == i as int,
                forall|k: int| 0 <= k < i ==> #[trigger] parts@[k]@ == target[k],
            decreases params@.len() - i,
        {
            let ghost pre_out = parts@;
            let mut t = params[i].name.clone();
            if !params[i].bounds.as_str().is_empty() {
                t.append(": ");
                t.append(params[i].bounds.as_str());
            }
            proof {
                assert(t@ == target[i as int]);
            }
            let ghost tstr = t;
            parts.push(t);
            proof {
                assert(parts@ == pre_out.push(tstr));
                assert forall|k: int| 0 <= k < i + 1 implies #[trigger] parts@[k]@
                    == target[k] by {
                    if k < i {
                        assert(parts@[k] == pre_out[k]);
                    } else {
                        assert(parts@[k] == tstr);
                    }
                }
            }
            i += 1;
        }
        proof {
            assert(parts.deep_view().len() == parts@.len());
            assert forall|k: int| 0 <= k < parts.deep_view().len() implies parts.deep_view()[k]
                == target[k] by {
                assert(parts.deep_view()[k] == parts@[k]@);
            }
            assert(parts.deep_view() =~= target);
        }
        let joined = join(&parts, ", ");
        let mut out = "<".to_owned();
        out.append(joined.as_str());
        out.append(">");
        out
    }
}

/// Renders the generic arguments that follow the type's name.
pub fn generics_args_text(params: &Vec<GenericParam>) -> (r: String)
    ensures
        r@ == spec_generics_args(params@),
{
    if params.len() == 0 {
        String::new()
    } else {
        let ghost target = param_name_texts(params@);
        let mut parts: Vec<String> = Vec::new();
        let mut i: usize = 0;
        while i < params.len()
            invariant
                i <= params@.len(),
                target == param_name_texts(params@),
                parts@.len() == i as int,
                forall|k: int| 0 <= k < i ==> #[trigger] parts@[k]@ == target[k],
            decreases params@.len() - i,
        {
            let ghost pre_out = parts@;
            let t = params[i].name.clone();
            proof {
                assert(t@ == target[i as int]);
            }
            let ghost tstr = t;
            parts.push(t);
            proof {
                assert(parts@ == pre_out.push(tstr));
                assert forall|k: int| 0 <= k < i + 1 implies #[trigger] parts@[k]@
                    == target[k] by {
                    if k < i {
                        assert(parts@[k] == pre_out[k]);
                    } else {
                        assert(parts@[k] == tstr);
                    }
                }
            }
            i += 1;
        }
        proof {
            assert(parts.deep_view().len() == parts@.len());
            assert forall|k: int| 0 <= k < parts.deep_view().len() implies parts.deep_view()[k]
                == target[k] by {
                assert(parts.deep_view()[k] == parts@[k]@);
            }
            assert(parts.deep_view() =~= target);
        }
        let joined = join(&parts, ", ");
        let mut out = "<".to_owned();
        out.append(joined.as_str());
        out.append(">");
        out
    }
}

/// Renders one impl header, reproducing the generic parameter list verbatim.
pub fn impl_header_text(trait_path: &str, name: &String, generics: &Vec<GenericParam>) -> (r:
    String)
    ensures
        r@ == spec_impl_header(trait_path@, name@, generics@),
{
    let decls = generics_decl_text(generics);
    let args = generics_args_text(generics);
    let mut out = "impl".to_owned();
    out.append(decls.as_str());
    out.append(" ");
    out.append(trait_path);
    out.append(" for ");
    out.append(name.as_str());
    out.append(args.as_str());
    out
}

/// Renders a braced listing `path { item, item }`.
pub fn braced_list(path: &String, items: &Vec<String>) -> (r: String)
    ensures
        r@ == spec_braced(path@, items.deep_view()),
{
    let joined = join(items, ", ");
    let mut out = path.clone();
    out.append(" { ");
    out.append(joined.as_str());
    out.append(" }");
    out
}

/// Renders a parenthesized listing `path(item, item)`.
pub fn parens_list(path: &String, items: &Vec<String>) -> (r: String)
    ensures
        r@ == spec_parens(path@, items.deep_view()),
{
    let joined = join(items, ", ");
    let mut out = path.clone();
    out.append("(");
    out.append(joined.as_str());
    out.append(")");
    out
}

} // verus!
