use maximized::{
    byte_len, declared_size, maximized, maximum, try_declared_size, Fields, Items, Maximized,
    Shape, Value, Variants,
};

fn fields_of(shapes: Vec<Shape>) -> Fields {
    let mut fs = Fields::Nil;
    for s in shapes.into_iter().rev() {
        fs = Fields::Cons(Box::new(s), Box::new(fs));
    }
    fs
}

fn product(shapes: Vec<Shape>) -> Shape {
    Shape::Product(fields_of(shapes))
}

/// Builds a sum shape; panics when no variant is given, as a tagged choice
/// without a case has no size.
fn sum(variants: Vec<Vec<Shape>>) -> Shape {
    let mut it = variants.into_iter().rev();
    let mut vs = Variants::Last(fields_of(it.next().expect("a sum needs at least one variant")));
    for fs in it {
        vs = Variants::More(fields_of(fs), Box::new(vs));
    }
    Shape::Sum(vs)
}

fn unit_struct() -> Shape {
    product(vec![])
}

fn single_unnamed_field() -> Shape {
    product(vec![Shape::U64])
}

fn multiple_unnamed_fields() -> Shape {
    product(vec![Shape::U64, Shape::Bool, Shape::U8])
}

fn unit_enum() -> Shape {
    sum(vec![vec![]])
}

fn multi_enum() -> Shape {
    sum(vec![vec![], vec![], vec![]])
}

fn enum_with_params() -> Shape {
    sum(vec![
        vec![],
        vec![Shape::U64, Shape::Bool],
        vec![Shape::U64, Shape::U64, multi_enum()],
    ])
}

fn check_agreement(shape: &Shape) {
    assert_eq!(declared_size(shape), byte_len(&maximized(shape)));
}

#[test]
fn correct_sizes() {
    check_agreement(&unit_struct());
    check_agreement(&unit_struct());
    check_agreement(&single_unnamed_field());
    check_agreement(&multiple_unnamed_fields());
    check_agreement(&unit_struct());
    check_agreement(&single_unnamed_field());
    check_agreement(&multiple_unnamed_fields());
    check_agreement(&unit_enum());
    check_agreement(&multi_enum());
    check_agreement(&enum_with_params());
}

#[test]
fn primitive_sizes() {
    assert_eq!(declared_size(&Shape::Bool), 1);
    assert_eq!(declared_size(&Shape::U8), 1);
    assert_eq!(declared_size(&Shape::U16), 2);
    assert_eq!(declared_size(&Shape::U32), 4);
    assert_eq!(declared_size(&Shape::U64), 8);
    assert_eq!(declared_size(&Shape::U128), 16);
    assert_eq!(declared_size(&Shape::I8), 1);
    assert_eq!(declared_size(&Shape::I16), 2);
    assert_eq!(declared_size(&Shape::I32), 4);
    assert_eq!(declared_size(&Shape::I64), 8);
    assert_eq!(declared_size(&Shape::I128), 16);
    assert_eq!(declared_size(&Shape::Usize), 8);
    assert_eq!(declared_size(&Shape::F32), 4);
    assert_eq!(declared_size(&Shape::F64), 8);
    assert_eq!(declared_size(&Shape::Address), 32);
    assert_eq!(declared_size(&Shape::Unit), 0);
}

#[test]
fn product_scenarios() {
    assert_eq!(declared_size(&multiple_unnamed_fields()), 10);
    assert_eq!(declared_size(&unit_struct()), 0);
}

#[test]
fn sum_scenarios() {
    assert_eq!(declared_size(&multi_enum()), 1);
    assert_eq!(declared_size(&unit_enum()), 1);
    assert_eq!(declared_size(&enum_with_params()), 18);
}

#[test]
fn optional_scenarios() {
    let opt_u64 = Shape::Optional(Box::new(Shape::U64));
    assert_eq!(declared_size(&opt_u64), 9);
    assert!(matches!(maximized(&opt_u64), Value::Present(_)));
    check_agreement(&opt_u64);
}

#[test]
fn optional_adds_one_byte() {
    let shapes = vec![
        Shape::Bool,
        Shape::U64,
        Shape::Unit,
        multiple_unnamed_fields(),
        enum_with_params(),
    ];
    for s in shapes {
        let inner = declared_size(&s);
        assert_eq!(declared_size(&Shape::Optional(Box::new(s))), 1 + inner);
    }
}

#[test]
fn alternative_scenarios() {
    let alt = Shape::Alternative(Box::new(Shape::U64), Box::new(Shape::Bool));
    assert_eq!(declared_size(&alt), 9);
    assert!(matches!(maximized(&alt), Value::First(_)));
    let alt_rev = Shape::Alternative(Box::new(Shape::Bool), Box::new(Shape::U64));
    assert_eq!(declared_size(&alt_rev), 9);
    assert!(matches!(maximized(&alt_rev), Value::Second(_)));
    // A tie keeps the first case.
    let alt_tie = Shape::Alternative(Box::new(Shape::U8), Box::new(Shape::I8));
    assert_eq!(declared_size(&alt_tie), 2);
    assert!(matches!(maximized(&alt_tie), Value::First(_)));
    check_agreement(&alt);
    check_agreement(&alt_rev);
    check_agreement(&alt_tie);
}

#[test]
fn array_scenarios() {
    let bytes = Shape::Array(256, Box::new(Shape::U8));
    assert_eq!(declared_size(&bytes), 256);
    check_agreement(&bytes);
    let empty = Shape::Array(0, Box::new(Shape::U64));
    assert_eq!(declared_size(&empty), 0);
    check_agreement(&empty);
    let nested = Shape::Array(3, Box::new(multiple_unnamed_fields()));
    assert_eq!(declared_size(&nested), 30);
    check_agreement(&nested);
}

#[test]
fn sum_maximal_picks_largest_variant() {
    let v = maximized(&enum_with_params());
    assert!(matches!(v, Value::Case(2, _)));
}

#[test]
fn sum_maximal_tie_keeps_first_variant() {
    let v = maximized(&multi_enum());
    assert!(matches!(v, Value::Case(0, Items::Nil)));
}

#[test]
fn maximum_picks_largest() {
    let r = maximum(vec![Value::U8(1), Value::U16(2), Value::Bool(true)]);
    assert!(matches!(r, Value::U16(2)));
}

#[test]
fn maximum_tie_keeps_first() {
    let r = maximum(vec![Value::U8(7), Value::I8(8), Value::Bool(false)]);
    assert!(matches!(r, Value::U8(7)));
}

#[test]
fn try_declared_size_agrees() {
    assert_eq!(try_declared_size(&enum_with_params()), Some(18));
    assert_eq!(try_declared_size(&multiple_unnamed_fields()), Some(10));
    assert_eq!(try_declared_size(&unit_struct()), Some(0));
}

#[test]
fn try_declared_size_rejects_overflow() {
    let huge = Shape::Array(usize::MAX, Box::new(Shape::U64));
    assert_eq!(try_declared_size(&huge), None);
    let nested = Shape::Optional(Box::new(huge));
    assert_eq!(try_declared_size(&nested), None);
    // A zero-length array costs nothing, whatever its element would cost.
    let empty = Shape::Array(0, Box::new(Shape::Array(usize::MAX, Box::new(Shape::U64))));
    assert_eq!(try_declared_size(&empty), Some(0));
}

#[test]
fn borsh_oracle_agrees_on_primitives() {
    assert_eq!(declared_size(&Shape::Bool), borsh::to_vec(&false).unwrap().len());
    assert_eq!(declared_size(&Shape::U8), borsh::to_vec(&0u8).unwrap().len());
    assert_eq!(declared_size(&Shape::U16), borsh::to_vec(&0u16).unwrap().len());
    assert_eq!(declared_size(&Shape::U32), borsh::to_vec(&0u32).unwrap().len());
    assert_eq!(declared_size(&Shape::U64), borsh::to_vec(&0u64).unwrap().len());
    assert_eq!(declared_size(&Shape::U128), borsh::to_vec(&0u128).unwrap().len());
    assert_eq!(declared_size(&Shape::I8), borsh::to_vec(&0i8).unwrap().len());
    assert_eq!(declared_size(&Shape::I16), borsh::to_vec(&0i16).unwrap().len());
    assert_eq!(declared_size(&Shape::I32), borsh::to_vec(&0i32).unwrap().len());
    assert_eq!(declared_size(&Shape::I64), borsh::to_vec(&0i64).unwrap().len());
    assert_eq!(declared_size(&Shape::I128), borsh::to_vec(&0i128).unwrap().len());
    assert_eq!(declared_size(&Shape::Usize), borsh::to_vec(&0usize).unwrap().len());
    assert_eq!(declared_size(&Shape::F32), borsh::to_vec(&0f32).unwrap().len());
    assert_eq!(declared_size(&Shape::F64), borsh::to_vec(&0f64).unwrap().len());
    assert_eq!(declared_size(&Shape::Address), borsh::to_vec(&[0u8; 32]).unwrap().len());
    assert_eq!(declared_size(&Shape::Unit), borsh::to_vec(&()).unwrap().len());
}

#[test]
fn borsh_oracle_agrees_on_compounds() {
    let opt_u64 = Shape::Optional(Box::new(Shape::U64));
    assert_eq!(declared_size(&opt_u64), borsh::to_vec(&Some(0u64)).unwrap().len());

    let alt = Shape::Alternative(Box::new(Shape::U64), Box::new(Shape::Bool));
    let ok: Result<u64, bool> = Ok(0);
    assert_eq!(declared_size(&alt), borsh::to_vec(&ok).unwrap().len());

    assert_eq!(
        declared_size(&multiple_unnamed_fields()),
        borsh::to_vec(&(0u64, false, 0u8)).unwrap().len(),
    );

    let bytes = Shape::Array(256, Box::new(Shape::U8));
    assert_eq!(declared_size(&bytes), borsh::to_vec(&[0u8; 256]).unwrap().len());
}

#[test]
fn trait_compute_size() {
    assert_eq!(bool::compute_size(), 1);
    assert_eq!(u8::compute_size(), 1);
    assert_eq!(u16::compute_size(), 2);
    assert_eq!(u32::compute_size(), 4);
    assert_eq!(u64::compute_size(), 8);
    assert_eq!(u128::compute_size(), 16);
    assert_eq!(i8::compute_size(), 1);
    assert_eq!(i16::compute_size(), 2);
    assert_eq!(i32::compute_size(), 4);
    assert_eq!(i64::compute_size(), 8);
    assert_eq!(i128::compute_size(), 16);
    assert_eq!(usize::compute_size(), 8);
    assert_eq!(<()>::compute_size(), 0);
    assert_eq!(<std::marker::PhantomData<u64>>::compute_size(), 0);
    assert_eq!(<Option<u64>>::compute_size(), 9);
    assert_eq!(<Result<u64, bool>>::compute_size(), 9);
    assert_eq!(<(u64, bool)>::compute_size(), 9);
    assert_eq!(<(u64, bool, u8)>::compute_size(), 10);
}

#[test]
fn trait_compute_size_matches_borsh() {
    assert_eq!(u64::compute_size(), borsh::to_vec(&u64::maximized()).unwrap().len());
    assert_eq!(
        <Option<u16>>::compute_size(),
        borsh::to_vec(&<Option<u16>>::maximized()).unwrap().len(),
    );
    assert_eq!(
        <Result<u64, bool>>::compute_size(),
        borsh::to_vec(&<Result<u64, bool>>::maximized()).unwrap().len(),
    );
    assert_eq!(
        <(u32, u8)>::compute_size(),
        borsh::to_vec(&<(u32, u8)>::maximized()).unwrap().len(),
    );
}

#[test]
fn trait_maximized_values() {
    assert_eq!(<Option<u64>>::maximized(), Some(0));
    assert_eq!(<Result<u64, bool>>::maximized(), Ok(0));
    assert_eq!(<Result<bool, u64>>::maximized(), Err(0));
    // A tie keeps the first case.
    assert_eq!(<Result<u8, i8>>::maximized(), Ok(0));
    assert_eq!(<(u16, bool)>::maximized(), (0, false));
}
