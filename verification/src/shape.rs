//! Structural descriptions of sizable types and their declared worst-case
//! encoded sizes.

use vstd::prelude::*;

verus! {

/// Structural description of a sizable type: a fixed-width primitive, or a
/// combinator built from other sizable types. Every shape describes a type
/// whose encoded length under the fixed binary format is bounded, and the
/// bound is a closed-form function of the shape alone.
///
/// A sum is carried by `Variants`, which is non-empty by construction: a
/// tagged choice with no case at all has no sound size, so such a description
/// simply cannot be formed.
pub enum Shape {
    /// One-byte boolean.
    Bool,
    /// Unsigned integer, one byte.
    U8,
    /// Unsigned integer, two bytes.
    U16,
    /// Unsigned integer, four bytes.
    U32,
    /// Unsigned integer, eight bytes.
    U64,
    /// Unsigned integer, sixteen bytes.
    U128,
    /// Signed integer, one byte.
    I8,
    /// Signed integer, two bytes.
    I16,
    /// Signed integer, four bytes.
    I32,
    /// Signed integer, eight bytes.
    I64,
    /// Signed integer, sixteen bytes.
    I128,
    /// Pointer-width integer, encoded in eight bytes.
    Usize,
    /// Four-byte floating-point scalar (the model never reads its value).
    F32,
    /// Eight-byte floating-point scalar (the model never reads its value).
    F64,
    /// Opaque 32-byte identifier.
    Address,
    /// Zero-width marker type.
    Unit,
    /// Optional wrapper: one presence byte, then the payload when present.
    Optional(Box<Shape>),
    /// Binary tagged choice: one tag byte, then one of the two payloads.
    Alternative(Box<Shape>, Box<Shape>),
    /// Fixed-length repetition of one element shape.
    Array(usize, Box<Shape>),
    /// Ordered fixed-arity composition (tuple, struct); no tag is written.
    Product(Fields),
    /// Tagged choice over one or more variants: one tag byte, then the
    /// fields of the chosen variant.
    Sum(Variants),
}

/// Ordered list of field shapes of a product or of one sum variant.
pub enum Fields {
    Nil,
    Cons(Box<Shape>, Box<Fields>),
}

/// Non-empty ordered list of sum variants, each a list of field shapes.
pub enum Variants {
    Last(Fields),
    More(Fields, Box<Variants>),
}

/// The larger of two naturals.
pub open spec fn nat_max(a: nat, b: nat) -> nat {
    if a >= b {
        a
    } else {
        b
    }
}

/// Declared worst-case encoded byte length of a value of the described type:
/// a fixed constant for primitives, a sum over product members, one tag byte
/// plus the larger payload for a choice, the repeat count times the element
/// size for an array.
pub open spec fn size_of(s: Shape) -> nat
    decreases s,
{
    match s {
        Shape::Bool => 1,
        Shape::U8 => 1,
        Shape::U16 => 2,
        Shape::U32 => 4,
        Shape::U64 => 8,
        Shape::U128 => 16,
        Shape::I8 => 1,
        Shape::I16 => 2,
        Shape::I32 => 4,
        Shape::I64 => 8,
        Shape::I128 => 16,
        Shape::Usize => 8,
        Shape::F32 => 4,
        Shape::F64 => 8,
        Shape::Address => 32,
        Shape::Unit => 0,
        Shape::Optional(t) => 1 + size_of(*t),
        Shape::Alternative(a, b) => 1 + nat_max(size_of(*a), size_of(*b)),
        Shape::Array(n, t) => (n as nat) * size_of(*t),
        Shape::Product(fs) => sum_of(fs),
        Shape::Sum(vs) => 1 + max_of(vs),
    }
}

/// Sum of the declared sizes of a list of fields; the empty list sums to 0.
pub open spec fn sum_of(fs: Fields) -> nat
    decreases fs,
{
    match fs {
        Fields::Nil => 0,
        Fields::Cons(f, rest) => size_of(*f) + sum_of(*rest),
    }
}

/// Largest field-size sum over a non-empty list of variants.
pub open spec fn max_of(vs: Variants) -> nat
    decreases vs,
{
    match vs {
        Variants::Last(fs) => sum_of(fs),
        Variants::More(fs, rest) => nat_max(sum_of(fs), max_of(*rest)),
    }
}

/// Number of variants in the list (always at least 1).
pub open spec fn num_variants(vs: Variants) -> nat
    decreases vs,
{
    match vs {
        Variants::Last(_) => 1,
        Variants::More(_, rest) => 1 + num_variants(*rest),
    }
}

/// Field list of the variant at position `i`, counted from the front.
pub open spec fn variant_fields(vs: Variants, i: int) -> Fields
    decreases vs,
{
    match vs {
        Variants::Last(fs) => fs,
        Variants::More(fs, rest) => if i == 0 {
            fs
        } else {
            variant_fields(*rest, i - 1)
        },
    }
}

/// No variant's field-size sum exceeds the maximum over the variants.
pub proof fn lemma_variant_sum_le_max(vs: Variants, j: int)
    requires
        0 <= j < num_variants(vs),
    ensures
        sum_of(variant_fields(vs, j)) <= max_of(vs),
    decreases vs,
{
    match vs {
        Variants::Last(_) => {},
        Variants::More(_, rest) => {
            if j > 0 {
                lemma_variant_sum_le_max(*rest, j - 1);
            }
        },
    }
}

/// Some variant attains the maximum field-size sum.
pub proof fn lemma_some_variant_is_max(vs: Variants)
    ensures
        exists|j: int|
            0 <= j < num_variants(vs) && sum_of(#[trigger] variant_fields(vs, j)) == max_of(vs),
    decreases vs,
{
    match vs {
        Variants::Last(fs) => {
            assert(variant_fields(vs, 0) == fs);
        },
        Variants::More(fs, rest) => {
            lemma_some_variant_is_max(*rest);
            if sum_of(fs) >= max_of(*rest) {
                assert(variant_fields(vs, 0) == fs);
            } else {
                let j = choose|j: int|
                    0 <= j < num_variants(*rest) && sum_of(#[trigger] variant_fields(*rest, j))
                        == max_of(*rest);
                assert(variant_fields(vs, j + 1) == variant_fields(*rest, j));
            }
        },
    }
}

/// Computes the declared size of a shape, exactly `size_of`.
pub fn declared_size(s: &Shape) -> (n: usize)
    requires
        size_of(*s) <= usize::MAX,
    ensures
        n == size_of(*s),
    decreases *s,
{
    match s {
        Shape::Bool => 1,
        Shape::U8 => 1,
        Shape::U16 => 2,
        Shape::U32 => 4,
        Shape::U64 => 8,
        Shape::U128 => 16,
        Shape::I8 => 1,
        Shape::I16 => 2,
        Shape::I32 => 4,
        Shape::I64 => 8,
        Shape::I128 => 16,
        Shape::Usize => 8,
        Shape::F32 => 4,
        Shape::F64 => 8,
        Shape::Address => 32,
        Shape::Unit => 0,
        Shape::Optional(t) => 1 + declared_size(&**t),
        Shape::Alternative(a, b) => {
            let x = declared_size(&**a);
            let y = declared_size(&**b);
            1 + (if x >= y {
                x
            } else {
                y
            })
        },
        Shape::Array(n, t) => {
            if *n == 0 {
                proof {
                    assert((*n as nat) * size_of(**t) == 0) by (nonlinear_arith)
                        requires
                            *n == 0,
                    ;
                }
                0
            } else {
                proof {
                    assert(size_of(**t) <= (*n as nat) * size_of(**t)) by (nonlinear_arith)
                        requires
                            *n >= 1,
                    ;
                }
                *n * declared_size(&**t)
            }
        },
        Shape::Product(fs) => sum_fields(fs),
        Shape::Sum(vs) => 1 + max_variant_size(vs),
    }
}

/// Computes the declared size of a shape whenever it fits in `usize`, and
/// returns `None` exactly when it does not.
pub fn try_declared_size(s: &Shape) -> (r: Option<usize>)
    ensures
        match r {
            Some(n) => n == size_of(*s),
            None => size_of(*s) > usize::MAX,
        },
    decreases *s,
{
    match s {
        Shape::Bool => Some(1),
        Shape::U8 => Some(1),
        Shape::U16 => Some(2),
        Shape::U32 => Some(4),
        Shape::U64 => Some(8),
        Shape::U128 => Some(16),
        Shape::I8 => Some(1),
        Shape::I16 => Some(2),
        Shape::I32 => Some(4),
        Shape::I64 => Some(8),
        Shape::I128 => Some(16),
        Shape::Usize => Some(8),
        Shape::F32 => Some(4),
        Shape::F64 => Some(8),
        Shape::Address => Some(32),
        Shape::Unit => Some(0),
        Shape::Optional(t) => match try_declared_size(&**t) {
            Some(m) => m.checked_add(1),
            None => None,
        },
        Shape::Alternative(a, b) => match (try_declared_size(&**a), try_declared_size(&**b)) {
            (Some(x), Some(y)) => (if x >= y {
                x
            } else {
                y
            }).checked_add(1),
            _ => None,
        },
        Shape::Array(n, t) => {
            if *n == 0 {
                proof {
                    assert((*n as nat) * size_of(**t) == 0) by (nonlinear_arith)
                        requires
                            *n == 0,
                    ;
                }
                Some(0)
            } else {
                match try_declared_size(&**t) {
                    Some(m) => {
                        let r = n.checked_mul(m);
                        proof {
                            assert((*n as nat) * size_of(**t) == (*n as nat) * (m as nat));
                        }
                        r
                    },
                    None => {
                        proof {
                            assert(size_of(**t) <= (*n as nat) * size_of(**t)) by (nonlinear_arith)
                                requires
                                    *n >= 1,
                            ;
                        }
                        None
                    },
                }
            }
        },
        Shape::Product(fs) => try_sum_fields(fs),
        Shape::Sum(vs) => match try_max_variant_size(vs) {
            Some(m) => m.checked_add(1),
            None => None,
        },
    }
}

/// Sums the declared sizes of a list of fields whenever the sum fits in
/// `usize`, and returns `None` exactly when it does not.
pub fn try_sum_fields(fs: &Fields) -> (r: Option<usize>)
    ensures
        match r {
            Some(n) => n == sum_of(*fs),
            None => sum_of(*fs) > usize::MAX,
        },
    decreases *fs,
{
    match fs {
        Fields::Nil => Some(0),
        Fields::Cons(f, rest) => match (try_declared_size(&**f), try_sum_fields(&**rest)) {
            (Some(x), Some(y)) => x.checked_add(y),
            _ => None,
        },
    }
}

/// Computes the largest field-size sum over a list of variants whenever it
/// fits in `usize`, and returns `None` exactly when it does not.
pub fn try_max_variant_size(vs: &Variants) -> (r: Option<usize>)
    ensures
        match r {
            Some(n) => n == max_of(*vs),
            None => max_of(*vs) > usize::MAX,
        },
    decreases *vs,
{
    match vs {
        Variants::Last(fs) => try_sum_fields(fs),
        Variants::More(fs, rest) => match (try_sum_fields(fs), try_max_variant_size(&**rest)) {
            (Some(x), Some(y)) => if x >= y {
                Some(x)
            } else {
                Some(y)
            },
            _ => None,
        },
    }
}

/// Sums the declared sizes of a list of fields, exactly `sum_of`.
pub fn sum_fields(fs: &Fields) -> (n: usize)
    requires
        sum_of(*fs) <= usize::MAX,
    ensures
        n == sum_of(*fs),
    decreases *fs,
{
    match fs {
        Fields::Nil => 0,
        Fields::Cons(f, rest) => declared_size(&**f) + sum_fields(&**rest),
    }
}

/// Largest field-size sum over a list of variants, exactly `max_of`.
pub fn max_variant_size(vs: &Variants) -> (n: usize)
    requires
        max_of(*vs) <= usize::MAX,
    ensures
        n == max_of(*vs),
    decreases *vs,
{
    match vs {
        Variants::Last(fs) => sum_fields(fs),
        Variants::More(fs, rest) => {
            let x = sum_fields(fs);
            let y = max_variant_size(&**rest);
            if x >= y {
                x
            } else {
                y
            }
        },
    }
}

} // verus!
