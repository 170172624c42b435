use bee::config::get_value;
use bee::error::{INVALID_INDEX, INVALID_TYPE};
use bee::{ConfigTable, Value};

fn sample_table() -> ConfigTable {
    // { a: { b: 5 }, host: "riemann", flag: true }
    let mut inner = ConfigTable::new();
    inner.insert_value("b", Value::from_i64(5));
    let mut table = ConfigTable::new();
    table.insert_table("a", inner);
    table.insert_value("host", Value::from_text("riemann"));
    table.insert_value("flag", Value::from_bool(true));
    table
}

#[test]
fn dotted_lookup_finds_nested_leaf() {
    let table = sample_table();
    assert_eq!(5, table.get_i64("a.b").unwrap());
    assert_eq!(5, table.get_i32("a.b").unwrap());
    assert_eq!("riemann".to_owned(), table.get_string("host").unwrap());
    assert_eq!(true, table.get_bool("flag").unwrap());
}

#[test]
fn table_leaf_fails_type_coercion_not_lookup() {
    let table = sample_table();
    // "a" names a nested table: it coerces to the empty value, so a typed
    // read fails on the type, not on the lookup.
    let err = table.get_i64("a").unwrap_err();
    assert_eq!(INVALID_TYPE, err.get_code());
    assert_eq!("failed to parse i64 for Nil", err.get_msg());
    // The string sink is total, so the same leaf reads as text.
    assert_eq!("Nil".to_owned(), table.get_string("a").unwrap());
}

#[test]
fn empty_key_is_a_lookup_failure() {
    let table = sample_table();
    let err = table.get_i64("").unwrap_err();
    assert_eq!(INVALID_INDEX, err.get_code());
    assert_eq!("can't get config[]", err.get_msg());
}

#[test]
fn missing_leaf_names_the_full_key() {
    let table = sample_table();
    let err = table.get_i64("a.c").unwrap_err();
    assert_eq!(INVALID_INDEX, err.get_code());
    assert_eq!("can't get config[a.c]", err.get_msg());
}

#[test]
fn scalar_segment_falls_back_to_whole_key() {
    let mut table = sample_table();
    // When the left segment names a scalar, the whole remaining key is
    // looked up as one literal leaf name in the current table.
    table.insert_value("host.port", Value::from_i64(5555));
    assert_eq!(5555, table.get_i64("host.port").unwrap());
    assert_eq!(Some(Value::Integer(5555)), get_value(&table, "host.port"));
    assert_eq!(None, get_value(&table, "absent"));
    assert_eq!(Some(Value::Integer(5)), get_value(&table, "a.b"));
    assert_eq!(Some(Value::Nil), get_value(&table, "a"));
}
