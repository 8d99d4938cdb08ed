//! The laws of the size model: no conforming value outgrows its type's
//! declared size, and each combinator's size follows its composition rule.

use vstd::prelude::*;
use crate::shape::{
    Shape, Fields, Variants, size_of, sum_of, max_of, nat_max, num_variants, variant_fields,
    lemma_variant_sum_le_max, lemma_some_variant_is_max,
};
use crate::value::{
    Value, Items, encoded_len, items_len, items_count, conforms, items_conform, items_conform_all,
    case_conforms,
};

verus! {

/// Maximality: no value of a described type encodes longer than the type's
/// declared size. Together with the contract of `maximized`, which builds a
/// conforming value that attains the declared size exactly, this pins the
/// declared size down as the worst case.
pub proof fn lemma_maximality(v: Value, s: Shape)
    requires
        conforms(v, s),
    ensures
        encoded_len(v) <= size_of(s),
    decreases s, v,
{
    match s {
        Shape::Optional(t) => {
            match v {
                Value::Present(x) => {
                    lemma_maximality(*x, *t);
                },
                _ => {},
            }
        },
        Shape::Alternative(a, b) => {
            match v {
                Value::First(x) => {
                    lemma_maximality(*x, *a);
                },
                Value::Second(y) => {
                    lemma_maximality(*y, *b);
                },
                _ => {},
            }
        },
        Shape::Array(n, t) => {
            match v {
                Value::Tuple(items) => {
                    lemma_items_all_bounded(items, *t);
                },
                _ => {},
            }
        },
        Shape::Product(fs) => {
            match v {
                Value::Tuple(items) => {
                    lemma_items_bounded(items, fs);
                },
                _ => {},
            }
        },
        Shape::Sum(vs) => {
            match v {
                Value::Case(i, items) => {
                    lemma_case_bounded(i as int, items, vs);
                },
                _ => {},
            }
        },
        _ => {},
    }
}

/// Field values that conform to some variant of `vs` encode, in total, no
/// longer than the largest variant's field-size sum.
pub proof fn lemma_case_bounded(i: int, items: Items, vs: Variants)
    requires
        case_conforms(i, items, vs),
    ensures
        items_len(items) <= max_of(vs),
    decreases vs, items,
{
    match vs {
        Variants::Last(fs) => {
            lemma_items_bounded(items, fs);
        },
        Variants::More(fs, rest) => {
            if i == 0 {
                lemma_items_bounded(items, fs);
            } else {
                lemma_case_bounded(i - 1, items, *rest);
            }
        },
    }
}

/// Member values that conform to a field list encode, in total, no longer
/// than that list's field-size sum.
pub proof fn lemma_items_bounded(items: Items, fs: Fields)
    requires
        items_conform(items, fs),
    ensures
        items_len(items) <= sum_of(fs),
    decreases fs, items,
{
    match fs {
        Fields::Nil => {},
        Fields::Cons(f, frest) => {
            match items {
                Items::Nil => {},
                Items::Cons(x, xrest) => {
                    lemma_maximality(*x, *f);
                    lemma_items_bounded(*xrest, *frest);
                },
            }
        },
    }
}

/// Member values that all conform to one element shape encode, in total, no
/// longer than their count times that element's declared size.
pub proof fn lemma_items_all_bounded(items: Items, t: Shape)
    requires
        items_conform_all(items, t),
    ensures
        items_len(items) <= items_count(items) * size_of(t),
    decreases t, items,
{
    match items {
        Items::Nil => {},
        Items::Cons(x, rest) => {
            lemma_maximality(*x, t);
            lemma_items_all_bounded(*rest, t);
            assert((items_count(*rest) + 1) * size_of(t) == items_count(*rest) * size_of(t)
                + size_of(t)) by (nonlinear_arith);
        },
    }
}

/// An optional type always adds exactly one presence byte to its payload.
pub proof fn lemma_optional_size(t: Box<Shape>)
    ensures
        size_of(Shape::Optional(t)) == 1 + size_of(*t),
{
}

/// A binary alternative costs one tag byte plus the larger of its two sides.
pub proof fn lemma_alternative_size(a: Box<Shape>, b: Box<Shape>)
    ensures
        size_of(Shape::Alternative(a, b)) == 1 + nat_max(size_of(*a), size_of(*b)),
{
}

/// A product costs the sum of its members, and the empty product costs 0.
pub proof fn lemma_product_size(fs: Fields)
    ensures
        size_of(Shape::Product(fs)) == sum_of(fs),
        size_of(Shape::Product(Fields::Nil)) == 0,
{
    assert(sum_of(Fields::Nil) == 0);
}

/// A fixed array costs its length times its element's declared size.
pub proof fn lemma_array_size(n: usize, t: Box<Shape>)
    ensures
        size_of(Shape::Array(n, t)) == n * size_of(*t),
{
}

/// A sum costs one tag byte plus the largest variant: its size dominates
/// `1 +` every variant's field-size sum, and some variant attains it.
pub proof fn lemma_sum_size(vs: Variants)
    ensures
        size_of(Shape::Sum(vs)) == 1 + max_of(vs),
        forall|j: int|
            0 <= j < num_variants(vs) ==> 1 + sum_of(#[trigger] variant_fields(vs, j)) <= size_of(
                Shape::Sum(vs),
            ),
        exists|j: int|
            0 <= j < num_variants(vs) && 1 + sum_of(#[trigger] variant_fields(vs, j)) == size_of(
                Shape::Sum(vs),
            ),
{
    assert forall|j: int| 0 <= j < num_variants(vs) implies 1 + sum_of(
        #[trigger] variant_fields(vs, j),
    ) <= size_of(Shape::Sum(vs)) by {
        lemma_variant_sum_le_max(vs, j);
    }
    lemma_some_variant_is_max(vs);
}

} // verus!
