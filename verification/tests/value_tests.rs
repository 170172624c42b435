use bee::value::parse_value;
use bee::{Bytes, DataType, Value};

#[test]
fn from_value() {
    let val = parse_value("10");
    assert_eq!(Value::Integer(10), val);

    let val = parse_value("false");
    assert_eq!(Value::Boolean(false), val);

    let val = parse_value("true");
    assert_eq!(Value::Boolean(true), val);

    let val = parse_value("10.01");
    assert_eq!(Value::Number((10.01_f64).to_string()), val);

    let val = parse_value("10._");
    assert_eq!(Value::String("10._".to_string()), val);

    let val = parse_value("'10'");
    assert_eq!(Value::String("10".to_string()), val);

    let val = parse_value("Name");
    assert_eq!(Value::String("Name".to_string()), val);

    let val = parse_value("Nil");
    assert_eq!(Value::Nil, val);

    let val = parse_value("nil");
    assert_eq!(Value::Nil, val);

    let val = parse_value("Null");
    assert_eq!(Value::Nil, val);

    let val = parse_value("NULL");
    assert_eq!(Value::Nil, val);

    let val = parse_value("null");
    assert_eq!(Value::Nil, val);

    let array = vec![01_i32, 02_i32, 03_i32];
    assert_eq!(
        Value::Array(vec![
            Value::from_i32(01_i32),
            Value::from_i32(02_i32),
            Value::from_i32(03_i32)
        ]),
        Value::from_i32_values(array)
    );
}

#[test]
fn into_value() {
    let val: Value = Value::from_i64(10);
    assert_eq!(Value::Integer(10), val);

    let val: Value = Value::Number((10.0_f64).to_string());
    assert_eq!(Value::Number("10".to_string()), val);

    let val: Value = Value::from_bool(false);
    assert_eq!(Value::Boolean(false), val);

    let val: Value = Value::from_text("Name");
    assert_eq!(Value::String("Name".to_owned()), val);

    let val: Value = Value::nil();
    assert_eq!(Value::Nil, val);

    let val: Value = Value::from_bytes(Bytes(vec![0x09_u8, 0x12]));
    assert_eq!(Value::Bytes(Bytes(vec![0x09_u8, 0x12])), val);

    let val: Value = Value::from_i32_values(vec![0x09_i32, 0x12]);
    assert_eq!(
        Value::Array(vec![Value::from_i32(0x09_i32), Value::from_i32(0x12)]),
        val
    );
}

#[test]
fn try_from_value() {
    assert_eq!(
        Value::Number((10.0_f64).to_string()),
        Value::Number((10.0_f64).to_string())
    );
    assert_eq!(Value::Boolean(false), Value::from_bool(false));
    assert_eq!(Value::Integer(10), Value::from_i64(10));
    assert_eq!(
        Value::String("He".to_owned()),
        Value::from_string("He".to_owned())
    );
    assert_eq!(Value::Nil, Value::nil());
}

#[test]
#[should_panic(expected = "failed to parse")]
fn try_from_value_failed() {
    let _: u8 = Value::Number((10.02_f64).to_string()).try_into_u8().unwrap();
}

#[test]
fn get_type() {
    assert_eq!(
        DataType::Number,
        Value::Number((10.0_f64).to_string()).get_type()
    );
    assert_eq!(DataType::Boolean, Value::from_bool(false).get_type());
    assert_eq!(DataType::Integer, Value::from_i64(10).get_type());
    assert_eq!(
        DataType::String,
        Value::from_string("He".to_owned()).get_type()
    );
    assert_eq!(
        DataType::Array,
        Value::from_u8_values(b"\x00\x01".to_vec()).get_type()
    );
    assert_eq!(DataType::Nil, Value::Nil.get_type());
    assert!(Value::Nil.is_nil());
    assert!(!Value::Number((10.0_f64).to_string()).is_nil());
}

#[test]
fn to_string() {
    assert_eq!(
        "10.02".to_string(),
        Value::Number((10.02_f64).to_string()).to_text()
    );
    assert_eq!("10".to_string(), Value::from_i64(10).to_text());
    assert_eq!("false".to_string(), Value::from_bool(false).to_text());
    assert_eq!("He".to_string(), Value::from_string("He".to_owned()).to_text());
    assert_eq!(
        "[Integer(0), Integer(1)]".to_string(),
        Value::from_u8_values(b"\x00\x01".to_vec()).to_text()
    );
    assert_eq!("Nil", Value::Nil.to_text());
}

#[test]
fn narrow_coercion_rejects_out_of_range() {
    assert_eq!(7_u8, Value::from_i64(7).try_into_u8().unwrap());
    let err = Value::from_i64(300).try_into_u8().unwrap_err();
    assert_eq!(bee::error::INVALID_TYPE, err.get_code());
    assert_eq!("failed to parse u8 for Integer(300)", err.get_msg());
    let err = Value::from_i64(-1).try_into_u8().unwrap_err();
    assert_eq!(bee::error::INVALID_TYPE, err.get_code());
    assert_eq!(-5_i8, Value::from_i64(-5).try_into_i8().unwrap());
    assert!(Value::from_i64(128).try_into_i8().is_err());
    assert_eq!(70000_u32, Value::from_i64(70000).try_into_u32().unwrap());
    assert!(Value::from_i64(-1).try_into_u32().is_err());
    assert!(Value::from_i64(0x1_0000_0000).try_into_i32().is_err());
}

#[test]
fn scalar_round_trips() {
    assert_eq!(10_i64, Value::from_i64(10).try_into_i64().unwrap());
    assert_eq!(-7_i32, Value::from_i32(-7).try_into_i32().unwrap());
    assert_eq!(-3_i16, Value::from_i16(-3).try_into_i16().unwrap());
    assert_eq!(-2_i8, Value::from_i8(-2).try_into_i8().unwrap());
    assert_eq!(9_u32, Value::from_u32(9).try_into_u32().unwrap());
    assert_eq!(8_u16, Value::from_u16(8).try_into_u16().unwrap());
    assert_eq!(255_u8, Value::from_u8(255).try_into_u8().unwrap());
    assert_eq!(true, Value::from_bool(true).try_into_bool().unwrap());
    assert_eq!(
        "hey".to_owned(),
        Value::from_text("hey").try_into_string().unwrap()
    );
    assert_eq!(
        Bytes(vec![1, 2, 3]),
        Value::from_bytes(Bytes(vec![1, 2, 3])).try_into_bytes().unwrap()
    );
    let v = 10.25_f64;
    let round = Value::Number(v.to_string());
    assert_eq!(Value::Number("10.25".to_string()), round);
    let back: f64 = match round {
        Value::Number(t) => t.parse().unwrap(),
        _ => panic!("not a number"),
    };
    assert_eq!(v, back);
}

#[test]
fn string_sink_is_total() {
    assert!(Value::Nil.try_into_string().is_ok());
    assert_eq!("Nil", Value::Nil.try_into_string().unwrap());
    assert!(Value::from_bool(true).try_into_string().is_ok());
    assert_eq!(
        "Bytes([9, 18])",
        Value::from_bytes(Bytes(vec![9, 18])).try_into_string().unwrap()
    );
    assert_eq!(
        "[String(\"a\"), Nil]",
        Value::from_values(vec![Value::from_text("a"), Value::nil()])
            .try_into_string()
            .unwrap()
    );
}

#[test]
fn array_coercions() {
    let arr = Value::from_i32_values(vec![1, 2, 3]);
    assert_eq!(
        vec![1_i64, 2, 3],
        arr.try_into_i64_values().unwrap()
    );
    let mixed = Value::from_values(vec![Value::from_i64(1), Value::from_bool(true)]);
    let err = mixed.try_into_i64_values().unwrap_err();
    assert_eq!(bee::error::INVALID_TYPE, err.get_code());
    assert_eq!("failed to parse i64 for Boolean(true)", err.get_msg());
    let err = Value::from_i64(5).try_into_values().unwrap_err();
    assert_eq!("failed to parse array for Integer(5)", err.get_msg());
    let vals = Value::from_values(vec![Value::nil()]).try_into_values().unwrap();
    assert_eq!(vec![Value::Nil], vals);
}

#[test]
fn parse_value_precedence() {
    // The dot stage runs before the integer stage.
    assert_eq!(Value::Number("10".to_string()), parse_value("10.0"));
    // A quote wins over everything and strips every quote character.
    assert_eq!(Value::String("truefalse".to_string()), parse_value("'true'false'"));
    // A text merely containing the boolean words falls back to a string.
    assert_eq!(Value::String("untrue".to_string()), parse_value("untrue"));
    // The null spellings are exact, not case-insensitive.
    assert_eq!(Value::String("NIL".to_string()), parse_value("NIL"));
    // Signed integers parse exactly; overflow falls back to a string.
    assert_eq!(Value::Integer(-45), parse_value("-45"));
    assert_eq!(
        Value::Integer(i64::MAX),
        parse_value("9223372036854775807")
    );
    assert_eq!(
        Value::String("9223372036854775808".to_string()),
        parse_value("9223372036854775808")
    );
    assert_eq!(Value::Integer(i64::MIN), parse_value("-9223372036854775808"));
    assert_eq!(Value::String("".to_string()), parse_value(""));
    assert_eq!(Value::Number("-2.5".to_string()), parse_value("-2.5"));
}

#[test]
fn debug_rendering() {
    assert_eq!("Integer(-8)", Value::from_i64(-8).debug_text());
    assert_eq!("String(\"a\\\"b\")", Value::from_text("a\"b").debug_text());
    assert_eq!("Nil", Value::Nil.debug_text());
    assert_eq!(
        "Array([Integer(1), Boolean(false)])",
        Value::from_values(vec![Value::from_i64(1), Value::from_bool(false)]).debug_text()
    );
}
