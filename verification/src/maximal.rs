//! Construction of maximal instances: worst-case values built bottom-up,
//! with choices settled by measuring candidates.

use vstd::prelude::*;
use crate::shape::{
    Shape, Fields, Variants, size_of, sum_of, max_of, num_variants, variant_fields,
    lemma_variant_sum_le_max, lemma_some_variant_is_max,
};
use crate::value::{
    Value, Items, encoded_len, items_len, items_count, conforms, items_conform,
    items_conform_all, lemma_case_conforms, byte_len,
};

verus! {

/// `r` stands at position `i` of `s`, no candidate in `s` measures larger,
/// and every candidate before position `i` measures strictly smaller: `r` is
/// the first candidate of largest encoded length.
pub open spec fn first_largest_at(s: Seq<Value>, i: int, r: Value) -> bool {
    &&& 0 <= i < s.len()
    &&& r == s[i]
    &&& forall|j: int| 0 <= j < s.len() ==> encoded_len(s[j]) <= encoded_len(s[i])
    &&& forall|j: int| 0 <= j < i ==> encoded_len(s[j]) < encoded_len(s[i])
}

/// Picks, from a non-empty list of candidate values, one whose measured
/// encoded length is largest; when several tie, the earliest wins.
pub fn maximum(xs: Vec<Value>) -> (r: Value)
    requires
        xs@.len() > 0,
        forall|j: int| 0 <= j < xs@.len() ==> encoded_len(xs@[j]) <= usize::MAX,
    ensures
        exists|i: int| first_largest_at(xs@, i, r),
{
    let mut best: usize = 0;
    let mut best_len: usize = byte_len(&xs[0]);
    let mut k: usize = 1;
    while k < xs.len()
        invariant
            1 <= k <= xs@.len(),
            0 <= best < k,
            forall|j: int| 0 <= j < xs@.len() ==> encoded_len(xs@[j]) <= usize::MAX,
            best_len == encoded_len(xs@[best as int]),
            forall|j: int| 0 <= j < k ==> encoded_len(xs@[j]) <= best_len,
            forall|j: int| 0 <= j < best ==> encoded_len(xs@[j]) < best_len,
        decreases xs@.len() - k,
    {
        let l = byte_len(&xs[k]);
        if l > best_len {
            best = k;
            best_len = l;
        }
        k += 1;
    }
    let ghost all = xs@;
    let mut rest = xs;
    let r = rest.remove(best);
    proof {
        assert(first_largest_at(all, best as int, r));
    }
    r
}

/// `c` is the maximal candidate for the variant at position `j` of `vs`,
/// carrying the absolute tag `base + j`: its field values are maximal for
/// that variant's field list, so its payload length is that variant's
/// field-size sum.
pub open spec fn candidate_for(c: Value, base: int, vs: Variants, j: int) -> bool {
    match c {
        Value::Case(i, items) => {
            &&& i == base + j
            &&& items_conform(items, variant_fields(vs, j))
            &&& items_len(items) == sum_of(variant_fields(vs, j))
        },
        _ => false,
    }
}

/// Builds the maximal field values of one field list, in declared order.
pub fn fill_fields(fs: &Fields) -> (items: Items)
    requires
        sum_of(*fs) <= usize::MAX,
    ensures
        items_conform(items, *fs),
        items_len(items) == sum_of(*fs),
    decreases *fs,
{
    match fs {
        Fields::Nil => Items::Nil,
        Fields::Cons(f, rest) => Items::Cons(
            Box::new(maximized(&**f)),
            Box::new(fill_fields(&**rest)),
        ),
    }
}

/// Appends to `out` one maximal candidate per variant of `vs`, in declaration
/// order, tagging each with its position among the variants already pushed.
fn push_candidates(vs: &Variants, out: &mut Vec<Value>)
    requires
        max_of(*vs) <= usize::MAX - 1,
    ensures
        final(out)@.len() == old(out)@.len() + num_variants(*vs),
        forall|j: int| 0 <= j < old(out)@.len() ==> final(out)@[j] == old(out)@[j],
        forall|j: int|
            0 <= j < num_variants(*vs) ==> candidate_for(
                #[trigger] final(out)@[old(out)@.len() + j],
                old(out)@.len() as int,
                *vs,
                j,
            ),
    decreases *vs,
{
    match vs {
        Variants::Last(fs) => {
            let items = fill_fields(fs);
            let tag = out.len();
            out.push(Value::Case(tag, items));
            proof {
                let base = old(out)@.len() as int;
                assert(candidate_for(out@[base + 0], base, *vs, 0));
            }
        },
        Variants::More(fs, rest) => {
            let items = fill_fields(fs);
            let tag = out.len();
            out.push(Value::Case(tag, items));
            let ghost mid = out@;
            push_candidates(&**rest, out);
            proof {
                let base = old(out)@.len() as int;
                assert(out@[base + 0] == mid[base]);
                assert(candidate_for(out@[base + 0], base, *vs, 0));
                assert forall|j: int|
                    1 <= j < num_variants(*vs) implies candidate_for(
                    #[trigger] out@[base + j],
                    base,
                    *vs,
                    j,
                ) by {
                    assert(candidate_for(out@[mid.len() + (j - 1)], mid.len() as int, **rest, j - 1));
                    assert(base + j == mid.len() + (j - 1));
                    assert(variant_fields(*vs, j) == variant_fields(**rest, j - 1));
                }
            }
        },
    }
}

/// Builds a maximal instance of the type that `s` describes: a concrete
/// value of that type whose encoded length is the declared size, which no
/// other value of the type exceeds. Fixed-width primitives yield their zero
/// value; an optional is always present; a choice is settled empirically, by
/// measuring one maximal candidate per case and keeping the first largest.
pub fn maximized(s: &Shape) -> (v: Value)
    requires
        size_of(*s) <= usize::MAX,
    ensures
        conforms(v, *s),
        encoded_len(v) == size_of(*s),
    decreases *s,
{
    match s {
        Shape::Bool => Value::Bool(false),
        Shape::U8 => Value::U8(0),
        Shape::U16 => Value::U16(0),
        Shape::U32 => Value::U32(0),
        Shape::U64 => Value::U64(0),
        Shape::U128 => Value::U128(0),
        Shape::I8 => Value::I8(0),
        Shape::I16 => Value::I16(0),
        Shape::I32 => Value::I32(0),
        Shape::I64 => Value::I64(0),
        Shape::I128 => Value::I128(0),
        Shape::Usize => Value::Usize(0),
        Shape::F32 => Value::F32Bits(0),
        Shape::F64 => Value::F64Bits(0),
        Shape::Address => Value::Address,
        Shape::Unit => Value::Unit,
        Shape::Optional(t) => Value::Present(Box::new(maximized(&**t))),
        Shape::Alternative(a, b) => {
            let va = Value::First(Box::new(maximized(&**a)));
            let vb = Value::Second(Box::new(maximized(&**b)));
            let mut cs: Vec<Value> = Vec::new();
            cs.push(va);
            cs.push(vb);
            let ghost csv = cs@;
            let r = maximum(cs);
            proof {
                let i = choose|i: int| first_largest_at(csv, i, r);
                assert(csv[0] == va && csv[1] == vb);
                assert(encoded_len(csv[0]) <= encoded_len(csv[i]));
                assert(encoded_len(csv[1]) <= encoded_len(csv[i]));
                assert(i == 0 || i == 1);
            }
            r
        },
        Shape::Array(n, t) => {
            let mut items = Items::Nil;
            let mut k: usize = 0;
            proof {
                assert((0 as nat) * size_of(**t) == 0) by (nonlinear_arith);
            }
            #[verifier::loop_isolation(false)]
            while k < *n
                invariant
                    k <= *n,
                    (*n as nat) * size_of(**t) <= usize::MAX,
                    items_conform_all(items, **t),
                    items_count(items) == k,
                    items_len(items) == (k as nat) * size_of(**t),
                decreases *n - k,
            {
                proof {
                    assert(size_of(**t) <= (*n as nat) * size_of(**t)) by (nonlinear_arith)
                        requires
                            *n >= 1,
                    ;
                    assert(((k + 1) as nat) * size_of(**t) == (k as nat) * size_of(**t) + size_of(
                        **t,
                    )) by (nonlinear_arith);
                }
                items = Items::Cons(Box::new(maximized(&**t)), Box::new(items));
                k = k + 1;
            }
            Value::Tuple(items)
        },
        Shape::Product(fs) => Value::Tuple(fill_fields(fs)),
        Shape::Sum(vs) => {
            let mut cs: Vec<Value> = Vec::new();
            push_candidates(vs, &mut cs);
            let ghost csv = cs@;
            proof {
                assert forall|j: int| 0 <= j < csv.len() implies encoded_len(csv[j])
                    <= usize::MAX by {
                    assert(candidate_for(csv[0 + j], 0, *vs, j));
                    lemma_variant_sum_le_max(*vs, j);
                }
            }
            let r = maximum(cs);
            proof {
                let i = choose|i: int| first_largest_at(csv, i, r);
                assert(candidate_for(csv[0 + i], 0, *vs, i));
                lemma_variant_sum_le_max(*vs, i);
                lemma_case_conforms(i, r->Case_1, *vs);
                lemma_some_variant_is_max(*vs);
                let w = choose|w: int|
                    0 <= w < num_variants(*vs) && sum_of(#[trigger] variant_fields(*vs, w))
                        == max_of(*vs);
                assert(candidate_for(csv[0 + w], 0, *vs, w));
                assert(encoded_len(csv[w]) <= encoded_len(csv[i]));
            }
            r
        },
    }
}

} // verus!
