use bee::{DataType, ToType, Value};

#[test]
fn datatype_test() {
    let t: DataType = DataType::from_str("String").unwrap();
    assert_eq!("String".to_owned(), t.as_text());

    let t: DataType = DataType::from_str("Integer").unwrap();
    assert_eq!("Integer".to_owned(), t.as_text());
    let t: DataType = DataType::from_str("i64").unwrap();
    assert_eq!("Integer".to_owned(), t.as_text());
    let t: DataType = DataType::from_str("i32").unwrap();
    assert_eq!("Integer".to_owned(), t.as_text());
    let t: DataType = DataType::from_str("i16").unwrap();
    assert_eq!("Integer".to_owned(), t.as_text());
    let t: DataType = DataType::from_str("i8").unwrap();
    assert_eq!("Integer".to_owned(), t.as_text());
    let t: DataType = DataType::from_str("u32").unwrap();
    assert_eq!("Integer".to_owned(), t.as_text());
    let t: DataType = DataType::from_str("u16").unwrap();
    assert_eq!("Integer".to_owned(), t.as_text());
    let t: DataType = DataType::from_str("u8").unwrap();
    assert_eq!("Integer".to_owned(), t.as_text());

    let t: DataType = DataType::from_str("Number").unwrap();
    assert_eq!("Number".to_owned(), t.as_text());
    let t: DataType = DataType::from_str("f64").unwrap();
    assert_eq!("Number".to_owned(), t.as_text());
    let t: DataType = DataType::from_str("f32").unwrap();
    assert_eq!("Number".to_owned(), t.as_text());

    let t: DataType = DataType::from_str("Boolean").unwrap();
    assert_eq!("Boolean".to_owned(), t.as_text());

    let t: DataType = DataType::from_str("Bytes").unwrap();
    assert_eq!("Bytes".to_owned(), t.as_text());
    let t: DataType = DataType::from_str("vec<u8>").unwrap();
    assert_eq!("Bytes".to_owned(), t.as_text());

    let t: DataType = DataType::from_str("()").unwrap();
    assert_eq!("Nil".to_owned(), t.as_text());
    let t: DataType = DataType::from_str("Nil").unwrap();
    assert_eq!("Nil".to_owned(), t.as_text());

    let t: bee::error::Result<DataType> = DataType::from_str("test");
    assert!(t.is_err());

    assert_eq!(DataType::Boolean, DataType::from(Value::from_bool(false)));
    assert_eq!(
        DataType::Number,
        DataType::from(Value::Number((10.02_f64).to_string()))
    );
    assert_eq!(DataType::Integer, DataType::from(Value::from_i64(10)));
    assert_eq!(
        DataType::String,
        DataType::from(Value::from_string("name".to_owned()))
    );
    assert_eq!(
        DataType::Array,
        DataType::from(Value::from_u8_values(b"\x01\x02".to_vec()))
    );
    assert_eq!(DataType::Nil, DataType::from(Value::Nil));
}

#[test]
fn to_type_of_native_shapes() {
    assert_eq!(DataType::Integer, <i64 as ToType>::get_type());
    assert_eq!(DataType::Integer, <i8 as ToType>::get_type());
    assert_eq!(DataType::Integer, <u32 as ToType>::get_type());
    assert_eq!(DataType::Boolean, <bool as ToType>::get_type());
    assert_eq!(DataType::String, <String as ToType>::get_type());
    assert_eq!(DataType::Bytes, <bee::Bytes as ToType>::get_type());
    assert_eq!(DataType::Nil, <() as ToType>::get_type());
}

#[test]
fn from_str_folds_case_and_names_unknowns() {
    assert_eq!(DataType::String, DataType::from_str("STRING").unwrap());
    assert_eq!(DataType::Integer, DataType::from_str("InTeGeR").unwrap());
    let err = DataType::from_str("widget").unwrap_err();
    assert_eq!(bee::error::INVALID_TYPE, err.get_code());
    assert_eq!("failed to parse str widget for DataType", err.get_msg());
}
