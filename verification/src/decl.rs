//! The structural model of a type declaration, as the external front-end
//! parser hands it over, and the normalizer that derives one ordered list of
//! addressable slot names from any of the three field shapes.

use vstd::prelude::*;
use vstd::string::StringExecFns;

use crate::text::{dec_digits, decimal_string, lemma_dec_digits_injective};

verus! {

/// One generic parameter of the declared type: its name and the raw text of
/// its bounds, empty when the parameter is unbounded. Both are reproduced
/// verbatim in every generated implementation header; no generator adds a
/// bound tying the parameter to the capability being generated.
pub struct GenericParam {
    pub name: String,
    pub bounds: String,
}

/// The fields of one shape: none, ordered positional slots, or ordered named
/// slots. A slot is an opaque handle to one field — generation needs nothing
/// from it beyond its existence — so a positional shape records only how many
/// slots it has, each addressed by its zero-based index, and a named shape
/// records the field identifiers in declared order.
pub enum FieldShape {
    Unit,
    Positional(usize),
    Named(Vec<String>),
}

/// One named alternative of a multi-variant declaration, with its own shape.
pub struct Variant {
    pub name: String,
    pub shape: FieldShape,
}

/// Whether the declaration is a single-shape record or a sum of variants.
pub enum DeclKind {
    Struct(FieldShape),
    Enum(Vec<Variant>),
}

/// The immutable structural description of the type under generation,
/// produced once per generation request by the external parser.
pub struct TypeDeclaration {
    pub name: String,
    pub generics: Vec<GenericParam>,
    pub kind: DeclKind,
}

/// What the external parser produced: a supported declaration, or some other
/// item kind that no generator accepts.
pub enum ParsedItem {
    Declaration(TypeDeclaration),
    Unsupported,
}

/// The number of slots in a shape.
pub open spec fn shape_arity(shape: FieldShape) -> nat {
    match shape {
        FieldShape::Unit => 0,
        FieldShape::Positional(n) => n as nat,
        FieldShape::Named(names) => names@.len(),
    }
}

/// The name under which slot `i` of a shape is bound in generated code: a
/// named slot keeps its own identifier, a positional slot gets the
/// synthesized, collision-free name `f{i}` from its zero-based index.
pub open spec fn reference_name(shape: FieldShape, i: int) -> Seq<char> {
    match shape {
        FieldShape::Unit => Seq::empty(),
        FieldShape::Positional(_) => "f"@ + dec_digits(i as nat),
        FieldShape::Named(names) => names@[i]@,
    }
}

/// All reference names of a shape, in declared slot order.
pub open spec fn reference_names(shape: FieldShape) -> Seq<Seq<char>> {
    Seq::new(shape_arity(shape), |i: int| reference_name(shape, i))
}

/// The text with which slot `i` is accessed on a value of the declared type:
/// the field identifier for a named slot, the bare index for a positional
/// one.
pub open spec fn accessor_name(shape: FieldShape, i: int) -> Seq<char> {
    match shape {
        FieldShape::Unit => Seq::empty(),
        FieldShape::Positional(_) => dec_digits(i as nat),
        FieldShape::Named(names) => names@[i]@,
    }
}

/// All accessor texts of a shape, in declared slot order.
pub open spec fn accessor_names(shape: FieldShape) -> Seq<Seq<char>> {
    Seq::new(shape_arity(shape), |i: int| accessor_name(shape, i))
}

/// The synthesized positional names are collision-free: two distinct slot
/// indices never share an `f{i}` reference name, however many slots the
/// shape has.
pub proof fn lemma_positional_names_distinct(count: usize, i: int, j: int)
    requires
        0 <= i,
        0 <= j,
        i != j,
    ensures
        reference_name(FieldShape::Positional(count), i) != reference_name(
            FieldShape::Positional(count),
            j,
        ),
{
    reveal_strlit("f");
    let a = reference_name(FieldShape::Positional(count), i);
    let b = reference_name(FieldShape::Positional(count), j);
    if a == b {
        assert(dec_digits(i as nat) =~= a.skip(1));
        assert(dec_digits(j as nat) =~= b.skip(1));
        lemma_dec_digits_injective(i as nat, j as nat);
    }
}

/// Field-order sensitivity: swapping the declared order of two named slots
/// permutes the normalized name lists — off which every generator reads its
/// visit order — at exactly those two positions.
pub proof fn lemma_field_order_sensitivity(a: Vec<String>, b: Vec<String>, i: int, j: int)
    requires
        0 <= i < a@.len(),
        0 <= j < a@.len(),
        b@ == a@.update(i, a@[j]).update(j, a@[i]),
    ensures
        reference_names(FieldShape::Named(b)) == reference_names(FieldShape::Named(a)).update(
            i,
            a@[j]@,
        ).update(j, a@[i]@),
        accessor_names(FieldShape::Named(b)) == accessor_names(FieldShape::Named(a)).update(
            i,
            a@[j]@,
        ).update(j, a@[i]@),
{
    assert(reference_names(FieldShape::Named(b)) =~= reference_names(FieldShape::Named(a)).update(
        i,
        a@[j]@,
    ).update(j, a@[i]@));
    assert(accessor_names(FieldShape::Named(b)) =~= accessor_names(FieldShape::Named(a)).update(
        i,
        a@[j]@,
    ).update(j, a@[i]@));
}

/// The number of slots in a shape.
pub fn arity(shape: &FieldShape) -> (n: usize)
    ensures
        n as nat == shape_arity(*shape),
{
    match shape {
        FieldShape::Unit => 0,
        FieldShape::Positional(n) => *n,
        FieldShape::Named(names) => names.len(),
    }
}

/// Derives the ordered list of addressable slot names shared by all six
/// generators: named slots keep their identifiers, positional slots are
/// named `f0`, `f1`, ... in declaration order, a unit shape yields none.
pub fn get_field_identifiers(shape: &FieldShape) -> (r: Vec<String>)
    ensures
        r.deep_view() == reference_names(*shape),
{
    match shape {
        FieldShape::Unit => {
            let r: Vec<String> = Vec::new();
            proof {
                assert(r.deep_view() =~= reference_names(*shape));
            }
            r
        },
        FieldShape::Positional(n) => {
            let count: usize = *n;
            let ghost target = reference_names(*shape);
            let mut out: Vec<String> = Vec::new();
            let mut i: usize = 0;
            while i < count
                invariant
                    i <= count,
                    target == reference_names(FieldShape::Positional(count)),
                    shape_arity(FieldShape::Positional(count)) == count as nat,
                    out@.len() == i as int,
                    forall|k: int| 0 <= k < i ==> #[trigger] out@[k]@ == target[k],
                decreases count - i,
            {
                let ghost pre_out = out@;
                let digits = decimal_string(i);
                let mut t = "f".to_owned();
                t.append(digits.as_str());
                proof {
                    assert(t@ == target[i as int]);
                }
                let ghost tstr = t;
                out.push(t);
                proof {
                    assert(out@ == pre_out.push(tstr));
                    assert forall|k: int| 0 <= k < i + 1 implies #[trigger] out@[k]@
                        == target[k] by {
                        if k < i {
                            assert(out@[k] == pre_out[k]);
                        } else {
                            assert(out@[k] == tstr);
                        }
                    }
                }
                i += 1;
            }
            proof {
                assert(out.deep_view().len() == out@.len());
                assert forall|k: int| 0 <= k < out.deep_view().len() implies out.deep_view()[k]
                    == target[k] by {
                    assert(out.deep_view()[k] == out@[k]@);
                }
                assert(out.deep_view() =~= target);
            }
            out
        },
        FieldShape::Named(names) => {
            let ghost target = reference_names(*shape);
            let mut out: Vec<String> = Vec::new();
            let mut i: usize = 0;
            while i < names.len()
                invariant
                    i <= names@.len(),
                    target == reference_names(FieldShape::Named(*names)),
                    shape_arity(FieldShape::Named(*names)) == names@.len(),
                    out@.len() == i as int,
                    forall|k: int| 0 <= k < i ==> #[trigger] out@[k]@ == target[k],
                decreases names@.len() - i,
            {
                let ghost pre_out = out@;
                let t = names[i].clone();
                proof {
                    assert(t@ == target[i as int]);
                }
                let ghost tstr = t;
                out.push(t);
                proof {
                    assert(out@ == pre_out.push(tstr));
                    assert forall|k: int| 0 <= k < i + 1 implies #[trigger] out@[k]@
                        == target[k] by {
                        if k < i {
                            assert(out@[k] == pre_out[k]);
                        } else {
                            assert(out@[k] == tstr);
                        }
                    }
                }
                i += 1;
            }
            proof {
                assert(out.deep_view().len() == out@.len());
                assert forall|k: int| 0 <= k < out.deep_view().len() implies out.deep_view()[k]
                    == target[k] by {
                    assert(out.deep_view()[k] == out@[k]@);
                }
                assert(out.deep_view() =~= target);
            }
            out
        },
    }
}

/// As `get_field_identifiers`, but yielding the accessor texts with which the
/// slots are read off a struct value: identifiers for named slots, bare
/// indices for positional ones.
pub fn accessor_texts(shape: &FieldShape) -> (r: Vec<String>)
    ensures
        r.deep_view() == accessor_names(*shape),
{
    match shape {
        FieldShape::Unit => {
            let r: Vec<String> = Vec::new();
            proof {
                assert(r.deep_view() =~= accessor_names(*shape));
            }
            r
        },
        FieldShape::Positional(n) => {
            let count: usize = *n;
            let ghost target = accessor_names(*shape);
            let mut out: Vec<String> = Vec::new();
            let mut i: usize = 0;
            while i < count
                invariant
                    i <= count,
                    target == accessor_names(FieldShape::Positional(count)),
                    shape_arity(FieldShape::Positional(count)) == count as nat,
                    out@.len() == i as int,
                    forall|k: int| 0 <= k < i ==> #[trigger] out@[k]@ == target[k],
                decreases count - i,
            {
                let ghost pre_out = out@;
                let t = decimal_string(i);
                proof {
                    assert(t@ == target[i as int]);
                }
                let ghost tstr = t;
                out.push(t);
                proof {
                    assert(out@ == pre_out.push(tstr));
                    assert forall|k: int| 0 <= k < i + 1 implies #[trigger] out@[k]@
                        == target[k] by {
                        if k < i {
                            assert(out@[k] == pre_out[k]);
                        } else {
                            assert(out@[k] == tstr);
                        }
                    }
                }
                i += 1;
            }
            proof {
                assert(out.deep_view().len() == out@.len());
                assert forall|k: int| 0 <= k < out.deep_view().len() implies out.deep_view()[k]
                    == target[k] by {
                    assert(out.deep_view()[k] == out@[k]@);
                }
                assert(out.deep_view() =~= target);
            }
            out
        },
        FieldShape::Named(_) => {
            let r = get_field_identifiers(shape);
            proof {
                assert(r.deep_view() =~= accessor_names(*shape));
            }
            r
        },
    }
}

} // verus!
