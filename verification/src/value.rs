//! Concrete values of described types, their encoded lengths, and what it
//! means for a value to belong to a described type.

use vstd::prelude::*;
use crate::shape::{Shape, Fields, Variants, num_variants, variant_fields};

verus! {

/// A concrete value of a type described by a `Shape`. Scalars carry their
/// payload; the two floating-point scalars carry their raw bit pattern, which
/// the model never interprets; the opaque identifier carries nothing, since
/// its content never changes its encoded width.
pub enum Value {
    Bool(bool),
    U8(u8),
    U16(u16),
    U32(u32),
    U64(u64),
    U128(u128),
    I8(i8),
    I16(i16),
    I32(i32),
    I64(i64),
    I128(i128),
    Usize(usize),
    F32Bits(u32),
    F64Bits(u64),
    Address,
    Unit,
    /// An optional value that is absent: one presence byte, no payload.
    Absent,
    /// An optional value that is present: one presence byte, then the payload.
    Present(Box<Value>),
    /// The first case of a binary alternative.
    First(Box<Value>),
    /// The second case of a binary alternative.
    Second(Box<Value>),
    /// A product or fixed-array value: its members in order, no tag.
    Tuple(Items),
    /// A sum value: the index of the chosen variant, then its field values.
    Case(usize, Items),
}

/// Ordered list of member values.
pub enum Items {
    Nil,
    Cons(Box<Value>, Box<Items>),
}

/// Encoded byte length of a concrete value under the fixed binary format:
/// fixed widths for scalars, one presence or tag byte before a wrapped
/// payload, plain concatenation for products and arrays.
pub open spec fn encoded_len(v: Value) -> nat
    decreases v,
{
    match v {
        Value::Bool(_) => 1,
        Value::U8(_) => 1,
        Value::U16(_) => 2,
        Value::U32(_) => 4,
        Value::U64(_) => 8,
        Value::U128(_) => 16,
        Value::I8(_) => 1,
        Value::I16(_) => 2,
        Value::I32(_) => 4,
        Value::I64(_) => 8,
        Value::I128(_) => 16,
        Value::Usize(_) => 8,
        Value::F32Bits(_) => 4,
        Value::F64Bits(_) => 8,
        Value::Address => 32,
        Value::Unit => 0,
        Value::Absent => 1,
        Value::Present(x) => 1 + encoded_len(*x),
        Value::First(x) => 1 + encoded_len(*x),
        Value::Second(x) => 1 + encoded_len(*x),
        Value::Tuple(items) => items_len(items),
        Value::Case(_, items) => 1 + items_len(items),
    }
}

/// Total encoded length of a list of member values.
pub open spec fn items_len(items: Items) -> nat
    decreases items,
{
    match items {
        Items::Nil => 0,
        Items::Cons(x, rest) => encoded_len(*x) + items_len(*rest),
    }
}

/// Number of members in a list of values.
pub open spec fn items_count(items: Items) -> nat
    decreases items,
{
    match items {
        Items::Nil => 0,
        Items::Cons(_, rest) => 1 + items_count(*rest),
    }
}

/// The value `v` is one of the values of the type that `s` describes.
pub open spec fn conforms(v: Value, s: Shape) -> bool
    decreases s, v,
{
    match s {
        Shape::Bool => v is Bool,
        Shape::U8 => v is U8,
        Shape::U16 => v is U16,
        Shape::U32 => v is U32,
        Shape::U64 => v is U64,
        Shape::U128 => v is U128,
        Shape::I8 => v is I8,
        Shape::I16 => v is I16,
        Shape::I32 => v is I32,
        Shape::I64 => v is I64,
        Shape::I128 => v is I128,
        Shape::Usize => v is Usize,
        Shape::F32 => v is F32Bits,
        Shape::F64 => v is F64Bits,
        Shape::Address => v is Address,
        Shape::Unit => v is Unit,
        Shape::Optional(t) => match v {
            Value::Absent => true,
            Value::Present(x) => conforms(*x, *t),
            _ => false,
        },
        Shape::Alternative(a, b) => match v {
            Value::First(x) => conforms(*x, *a),
            Value::Second(y) => conforms(*y, *b),
            _ => false,
        },
        Shape::Array(n, t) => match v {
            Value::Tuple(items) => items_count(items) == n && items_conform_all(items, *t),
            _ => false,
        },
        Shape::Product(fs) => match v {
            Value::Tuple(items) => items_conform(items, fs),
            _ => false,
        },
        Shape::Sum(vs) => match v {
            Value::Case(i, items) => case_conforms(i as int, items, vs),
            _ => false,
        },
    }
}

/// The field values `items` conform to the variant at position `i` of `vs`.
pub open spec fn case_conforms(i: int, items: Items, vs: Variants) -> bool
    decreases vs, items,
{
    match vs {
        Variants::Last(fs) => i == 0 && items_conform(items, fs),
        Variants::More(fs, rest) => if i == 0 {
            items_conform(items, fs)
        } else {
            case_conforms(i - 1, items, *rest)
        },
    }
}

/// `case_conforms` says exactly that the index is in range and the field
/// values conform to that variant's field list.
pub proof fn lemma_case_conforms(i: int, items: Items, vs: Variants)
    ensures
        case_conforms(i, items, vs) <==> (0 <= i < num_variants(vs) && items_conform(
            items,
            variant_fields(vs, i),
        )),
    decreases vs,
{
    match vs {
        Variants::Last(_) => {},
        Variants::More(_, rest) => {
            lemma_case_conforms(i - 1, items, *rest);
        },
    }
}

/// Each member value conforms to the field shape at its position, and the
/// arities agree.
pub open spec fn items_conform(items: Items, fs: Fields) -> bool
    decreases fs, items,
{
    match fs {
        Fields::Nil => items is Nil,
        Fields::Cons(f, frest) => match items {
            Items::Nil => false,
            Items::Cons(x, xrest) => conforms(*x, *f) && items_conform(*xrest, *frest),
        },
    }
}

/// Every member value conforms to the one element shape `t`.
pub open spec fn items_conform_all(items: Items, t: Shape) -> bool
    decreases t, items,
{
    match items {
        Items::Nil => true,
        Items::Cons(x, rest) => conforms(*x, t) && items_conform_all(*rest, t),
    }
}

/// Measures the encoded byte length of a concrete value, exactly
/// `encoded_len`, without materialising the encoding.
pub fn byte_len(v: &Value) -> (n: usize)
    requires
        encoded_len(*v) <= usize::MAX,
    ensures
        n == encoded_len(*v),
    decreases *v,
{
    match v {
        Value::Bool(_) => 1,
        Value::U8(_) => 1,
        Value::U16(_) => 2,
        Value::U32(_) => 4,
        Value::U64(_) => 8,
        Value::U128(_) => 16,
        Value::I8(_) => 1,
        Value::I16(_) => 2,
        Value::I32(_) => 4,
        Value::I64(_) => 8,
        Value::I128(_) => 16,
        Value::Usize(_) => 8,
        Value::F32Bits(_) => 4,
        Value::F64Bits(_) => 8,
        Value::Address => 32,
        Value::Unit => 0,
        Value::Absent => 1,
        Value::Present(x) => 1 + byte_len(x),
        Value::First(x) => 1 + byte_len(x),
        Value::Second(x) => 1 + byte_len(x),
        Value::Tuple(items) => members_len(items),
        Value::Case(_, items) => 1 + members_len(items),
    }
}

/// Total encoded byte length of a list of member values, exactly `items_len`.
pub fn members_len(items: &Items) -> (n: usize)
    requires
        items_len(*items) <= usize::MAX,
    ensures
        n == items_len(*items),
    decreases *items,
{
    match items {
        Items::Nil => 0,
        Items::Cons(x, rest) => byte_len(x) + members_len(rest),
    }
}

} // verus!
