use tarantool::iproto::convert::IntoTuple;
use tarantool::iproto::value::Value;

#[test]
fn scalars_turn_into_values() {
    assert_eq!(Value::from(7u64), Value::UInt(7));
    assert_eq!(Value::from(7usize), Value::UInt(7));
    assert_eq!(Value::from(7u32), Value::UInt(7));
    assert_eq!(Value::from(7u16), Value::UInt(7));
    assert_eq!(Value::from(-7i64), Value::Int(-7));
    assert_eq!(Value::from(-7isize), Value::Int(-7));
    assert_eq!(Value::from(-7i32), Value::Int(-7));
    assert_eq!(Value::from(-7i16), Value::Int(-7));
    assert_eq!(Value::from(-7i8), Value::Int(-7));
    assert_eq!(Value::from(true), Value::Bool(true));
    assert_eq!(Value::from(String::from("s")), Value::Str("s".into()));
    assert_eq!(Value::from("s"), Value::Str("s".into()));
    assert_eq!(Value::from(vec![1u8, 2]), Value::Bin(vec![1, 2]));
    assert_eq!(Value::from(&[1u8, 2][..]), Value::Bin(vec![1, 2]));
}

#[test]
fn options_and_collections_turn_into_values() {
    assert_eq!(Value::from(Some(5u32)), Value::UInt(5));
    assert_eq!(Value::from(None::<u32>), Value::Null);
    assert_eq!(
        Value::from(vec![1u32, 2, 3]),
        Value::Array(vec![Value::UInt(1), Value::UInt(2), Value::UInt(3)])
    );
    assert_eq!(Value::from(Vec::<i64>::new()), Value::Array(vec![]));
    assert_eq!(
        Value::from(&["a", "b"][..]),
        Value::Array(vec![Value::Str("a".into()), Value::Str("b".into())])
    );
    assert_eq!(
        Value::from(vec![vec![1i8], vec![]]),
        Value::Array(vec![Value::Array(vec![Value::Int(1)]), Value::Array(vec![])])
    );
}

#[test]
fn tuples_turn_into_tuples() {
    assert_eq!(().into_tuple(), Vec::<Value>::new());
    assert_eq!((1,).into_tuple(), vec![Value::Int(1)]);
    assert_eq!((1, "test").into_tuple(), vec![Value::Int(1), Value::Str("test".into())]);
    assert_eq!(
        (1u64, "two", Some(3i8), None::<bool>, vec![5u8], true).into_tuple(),
        vec![
            Value::UInt(1),
            Value::Str("two".into()),
            Value::Int(3),
            Value::Null,
            Value::Bin(vec![5]),
            Value::Bool(true),
        ]
    );
    assert_eq!(
        vec!["x", "y", "z"].into_tuple(),
        vec![Value::Str("x".into()), Value::Str("y".into()), Value::Str("z".into())]
    );
    assert_eq!((&[1u16, 2][..]).into_tuple(), vec![Value::UInt(1), Value::UInt(2)]);
}

#[test]
fn the_widest_tuple_keeps_its_order() {
    let made = (
        1u64, 2u64, 3u64, 4u64, 5u64, 6u64, 7u64, 8u64, 9u64, 10u64, 11u64, 12u64, 13u64, 14u64,
        15u64, 16u64, 17u64, 18u64, 19u64, 20u64, 21u64, 22u64, 23u64, 24u64,
    )
        .into_tuple();
    let expected: Vec<Value> = (1..=24).map(Value::UInt).collect();
    assert_eq!(made, expected);
    let made = (1u16, 2u32, 3u64, 4i8, 5i16, 6i32, 7i64, 8usize, 9isize, "ten", true, 12u64, ())
        .0
        .into();
    assert_eq!(Value::UInt(1), made);
}
