//! The run-time behavior that the generated implementations follow, stated
//! over a value model: an instance of a declared type is the index of the
//! variant it holds — always zero for a single-shape declaration — and one
//! machine word per slot, field contents abstracted to scalars whose own
//! default is zero and whose own duplicate is themselves. The functions here
//! are that behavior, slot by slot in declared order, exactly as the emitted
//! code performs it; the lemmas are the laws it obeys.

use vstd::prelude::*;

use crate::decl::{arity, shape_arity, DeclKind, TypeDeclaration};
use crate::dispatch::decl_has_default;
use crate::errors::FatalError;

verus! {

/// A run-time instance of a declared type: which variant it holds and its
/// slot contents, in declared order.
pub struct Value {
    pub variant: usize,
    pub slots: Vec<u64>,
}

/// How many variants a declaration offers an instance: one for a struct, the
/// declared count for an enum.
pub open spec fn variant_count(d: TypeDeclaration) -> nat {
    match d.kind {
        DeclKind::Struct(_) => 1,
        DeclKind::Enum(variants) => variants@.len(),
    }
}

/// The slot count of the shape an instance holding variant `v` carries.
pub open spec fn variant_arity(d: TypeDeclaration, v: int) -> nat {
    match d.kind {
        DeclKind::Struct(shape) => shape_arity(shape),
        DeclKind::Enum(variants) => shape_arity(variants@[v].shape),
    }
}

/// Whether `v` is an instance of declaration `d`: its variant exists and it
/// carries exactly one scalar per slot of that variant's shape.
pub open spec fn value_fits(v: Value, d: TypeDeclaration) -> bool {
    (v.variant as int) < variant_count(d) && v.slots@.len() == variant_arity(
        d,
        v.variant as int,
    )
}

/// Structural equality as the generated `eq` computes it: the same variant
/// and pairwise-equal slots; every cross-variant pairing is unequal.
pub open spec fn values_equal(a: Value, b: Value) -> bool {
    a.variant == b.variant && a.slots@ == b.slots@
}

/// Constructs the default instance of a declaration, as the generated
/// `default` does: a struct rebuilds its single shape, an enum its first
/// declared variant, and every slot is its own default — the scalar zero in
/// this model. An enum with no variants is refused.
pub fn default_value(d: &TypeDeclaration) -> (r: Result<Value, FatalError>)
    ensures
        decl_has_default(*d) ==> (r matches Ok(v) && v.variant == 0 && v.slots@ == Seq::new(
            variant_arity(*d, 0),
            |i: int| 0u64,
        ) && value_fits(v, *d)),
        !decl_has_default(*d) ==> r == Result::<Value, FatalError>::Err(
            FatalError::EmptyEnumDefault,
        ),
{
    let n: usize = match &d.kind {
        DeclKind::Struct(shape) => arity(shape),
        DeclKind::Enum(variants) => {
            if variants.len() == 0 {
                return Err(FatalError::EmptyEnumDefault);
            }
            arity(&variants[0].shape)
        },
    };
    let mut slots: Vec<u64> = Vec::new();
    let mut i: usize = 0;
    while i < n
        invariant
            i <= n,
            slots@.len() == i as int,
            forall|k: int| 0 <= k < i ==> slots@[k] == 0u64,
        decreases n - i,
    {
        slots.push(0);
        i += 1;
    }
    proof {
        assert(slots@ =~= Seq::new(variant_arity(*d, 0), |k: int| 0u64));
    }
    Ok(Value { variant: 0, slots })
}

/// Duplicates an instance as the generated `clone` does: slot by slot in
/// declared order, never altering which variant the value holds.
pub fn construct_independent_copy(x: &Value) -> (r: Value)
    ensures
        r.variant == x.variant,
        r.slots@ == x.slots@,
        values_equal(r, *x),
{
    let mut slots: Vec<u64> = Vec::new();
    let mut i: usize = 0;
    while i < x.slots.len()
        invariant
            i <= x.slots@.len(),
            slots@ == x.slots@.take(i as int),
        decreases x.slots@.len() - i,
    {
        slots.push(x.slots[i]);
        proof {
            assert(x.slots@.take(i + 1) =~= x.slots@.take(i as int).push(x.slots@[i as int]));
        }
        i += 1;
    }
    proof {
        assert(x.slots@.take(x.slots@.len() as int) =~= x.slots@);
    }
    Value { variant: x.variant, slots }
}

/// Overwrites the live value `y` with the contents of `x`, as the generated
/// `clone_from` does: when the slot lists line up, each slot is overwritten
/// in place in declared order; otherwise the slots are rebuilt as a fresh
/// duplicate.
pub fn overwrite_in_place(y: &mut Value, x: &Value)
    ensures
        final(y).variant == x.variant,
        final(y).slots@ == x.slots@,
        values_equal(*final(y), *x),
{
    y.variant = x.variant;
    if y.slots.len() == x.slots.len() {
        let mut i: usize = 0;
        while i < x.slots.len()
            invariant
                i <= x.slots@.len(),
                y.variant == x.variant,
                y.slots@.len() == x.slots@.len(),
                forall|k: int| 0 <= k < i ==> y.slots@[k] == x.slots@[k],
            decreases x.slots@.len() - i,
        {
            let v = x.slots[i];
            y.slots[i] = v;
            i += 1;
        }
        proof {
            assert(y.slots@ =~= x.slots@);
        }
    } else {
        y.slots.clear();
        let mut i: usize = 0;
        while i < x.slots.len()
            invariant
                i <= x.slots@.len(),
                y.variant == x.variant,
                y.slots@ == x.slots@.take(i as int),
            decreases x.slots@.len() - i,
        {
            y.slots.push(x.slots[i]);
            proof {
                assert(x.slots@.take(i + 1) =~= x.slots@.take(i as int).push(
                    x.slots@[i as int],
                ));
            }
            i += 1;
        }
        proof {
            assert(x.slots@.take(x.slots@.len() as int) =~= x.slots@);
        }
    }
}

/// Tests two instances for equality as the generated `eq` does: values of
/// different variants are unequal; within one variant the slots are compared
/// pairwise in declared order, stopping at the first mismatch.
pub fn equals(a: &Value, b: &Value) -> (r: bool)
    ensures
        r == values_equal(*a, *b),
{
    if a.variant != b.variant {
        return false;
    }
    if a.slots.len() != b.slots.len() {
        return false;
    }
    let mut i: usize = 0;
    while i < a.slots.len()
        invariant
            i <= a.slots@.len(),
            a.slots@.len() == b.slots@.len(),
            forall|k: int| 0 <= k < i ==> a.slots@[k] == b.slots@[k],
        decreases a.slots@.len() - i,
    {
        if a.slots[i] != b.slots[i] {
            return false;
        }
        i += 1;
    }
    proof {
        assert(a.slots@ =~= b.slots@);
    }
    true
}

/// Feeds an instance's hash contributions into the accumulator as the
/// generated `hash` does: one contribution per slot, strictly in declared
/// field order, so a shape with no slots contributes nothing.
pub fn combine_into(v: &Value, acc: &mut Vec<u64>)
    ensures
        final(acc)@ == old(acc)@ + v.slots@,
{
    let mut i: usize = 0;
    while i < v.slots.len()
        invariant
            i <= v.slots@.len(),
            acc@ == old(acc)@ + v.slots@.take(i as int),
        decreases v.slots@.len() - i,
    {
        acc.push(v.slots[i]);
        proof {
            assert(old(acc)@ + v.slots@.take(i + 1) =~= (old(acc)@ + v.slots@.take(
                i as int,
            )).push(v.slots@[i as int]));
        }
        i += 1;
    }
    proof {
        assert(old(acc)@ + v.slots@.take(v.slots@.len() as int) =~= old(acc)@ + v.slots@);
    }
}

/// Clone identity law: a duplicate carrying the same variant and the same
/// slot contents — what `construct_independent_copy` returns for any
/// constructed instance — is accepted as equal to its source by the
/// generated equality.
pub proof fn lemma_clone_identity(x: Value, duplicate: Value)
    requires
        duplicate.variant == x.variant,
        duplicate.slots@ == x.slots@,
    ensures
        values_equal(duplicate, x),
{
}

/// In-place/copy equivalence law: overwriting a live value with `x` and
/// constructing a fresh duplicate of `x` yield equal results, whatever the
/// overwritten value held before.
pub proof fn lemma_overwrite_matches_copy(x: Value, overwritten: Value, duplicate: Value)
    requires
        overwritten.variant == x.variant,
        overwritten.slots@ == x.slots@,
        duplicate.variant == x.variant,
        duplicate.slots@ == x.slots@,
    ensures
        values_equal(overwritten, duplicate),
{
}

/// Cross-variant inequality law: instances holding different variants are
/// never equal, whatever their slots hold.
pub proof fn lemma_cross_variant_inequality(a: Value, b: Value)
    requires
        a.variant != b.variant,
    ensures
        !values_equal(a, b),
{
}

/// Unit-shape equality law: two instances of the same zero-slot shape — a
/// fieldless struct, or a fieldless variant of an enum — are always equal.
pub proof fn lemma_unit_shape_equality(d: TypeDeclaration, a: Value, b: Value)
    requires
        value_fits(a, d),
        value_fits(b, d),
        a.variant == b.variant,
        variant_arity(d, a.variant as int) == 0,
    ensures
        values_equal(a, b),
{
    assert(a.slots@ =~= b.slots@);
}

/// Hash–equality law: values the generated equality accepts as equal feed
/// identical contribution sequences into the accumulator, from any shared
/// starting state.
pub proof fn lemma_hash_equality_contract(a: Value, b: Value, acc: Seq<u64>)
    requires
        values_equal(a, b),
    ensures
        acc + a.slots@ == acc + b.slots@,
{
}

/// The generated equality is a total equivalence — reflexive, symmetric and
/// transitive — which is what the generated Eq marker asserts of it.
pub proof fn lemma_equality_is_equivalence(a: Value, b: Value, c: Value)
    ensures
        values_equal(a, a),
        values_equal(a, b) ==> values_equal(b, a),
        values_equal(a, b) && values_equal(b, c) ==> values_equal(a, c),
{
}

} // verus!
