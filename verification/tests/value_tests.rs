use querylayer::BackendKind;
use querylayer::Error;
use querylayer::JsonValue;
use querylayer::Value;
use querylayer::ValueKind;
use querylayer::WireValue;
use querylayer::decode;
use querylayer::encode;

fn sample_document(label: &str) -> JsonValue {
    JsonValue::Object(vec![
        (String::from("value"), JsonValue::Str(String::from(label))),
        (String::from("valid"), JsonValue::Bool(true)),
        (String::from("messages"), JsonValue::Object(Vec::new())),
    ])
}

#[test]
fn roundtrip_integer_sqlite() {
    let wire = encode(BackendKind::Sqlite, Value::Integer(42)).unwrap();
    assert_eq!(wire, WireValue::Int(42));
    let back = decode(BackendKind::Sqlite, wire, ValueKind::Integer).unwrap();
    assert_eq!(back, Value::Integer(42));
}

#[test]
fn roundtrip_text_sqlite() {
    let wire = encode(BackendKind::Sqlite, Value::Text(String::from("hello"))).unwrap();
    assert_eq!(wire, WireValue::Text(String::from("hello")));
    let back = decode(BackendKind::Sqlite, wire, ValueKind::Text).unwrap();
    assert_eq!(back, Value::Text(String::from("hello")));
}

#[test]
fn roundtrip_boolean_sqlite_goes_through_integers() {
    let wire_true = encode(BackendKind::Sqlite, Value::Boolean(true)).unwrap();
    assert_eq!(wire_true, WireValue::Int(1));
    let back_true = decode(BackendKind::Sqlite, wire_true, ValueKind::Boolean).unwrap();
    assert_eq!(back_true, Value::Boolean(true));

    let wire_false = encode(BackendKind::Sqlite, Value::Boolean(false)).unwrap();
    assert_eq!(wire_false, WireValue::Int(0));
    let back_false = decode(BackendKind::Sqlite, wire_false, ValueKind::Boolean).unwrap();
    assert_eq!(back_false, Value::Boolean(false));
}

#[test]
fn roundtrip_boolean_postgres_is_native() {
    let wire = encode(BackendKind::Postgres, Value::Boolean(true)).unwrap();
    assert_eq!(wire, WireValue::Bool(true));
    let back = decode(BackendKind::Postgres, wire, ValueKind::Boolean).unwrap();
    assert_eq!(back, Value::Boolean(true));
}

#[test]
fn roundtrip_json_postgres_structural() {
    let doc = sample_document("shugginses");
    let wire = encode(BackendKind::Postgres, Value::Json(sample_document("shugginses"))).unwrap();
    assert_eq!(wire, WireValue::Json(sample_document("shugginses")));
    let back = decode(BackendKind::Postgres, wire, ValueKind::Json).unwrap();
    assert_eq!(back, Value::Json(doc));
}

#[test]
fn roundtrip_null() {
    let wire = encode(BackendKind::Sqlite, Value::Null).unwrap();
    assert_eq!(wire, WireValue::Null);
    let back = decode(BackendKind::Sqlite, wire, ValueKind::Null).unwrap();
    assert_eq!(back, Value::Null);
}

#[test]
fn json_is_out_of_scope_for_sqlite() {
    let r = encode(BackendKind::Sqlite, Value::Json(sample_document("pugginses")));
    assert_eq!(r, Err(Error::TypeMismatch));
}

#[test]
fn decode_refuses_wrong_kind() {
    let r = decode(
        BackendKind::Sqlite,
        WireValue::Text(String::from("five")),
        ValueKind::Integer,
    );
    assert_eq!(r, Err(Error::TypeMismatch));
}

#[test]
fn postgres_does_not_coerce_integers_to_booleans() {
    let r = decode(BackendKind::Postgres, WireValue::Int(1), ValueKind::Boolean);
    assert_eq!(r, Err(Error::TypeMismatch));
}

#[test]
fn sqlite_coerces_any_nonzero_integer_to_true() {
    let t = decode(BackendKind::Sqlite, WireValue::Int(7), ValueKind::Boolean).unwrap();
    assert_eq!(t, Value::Boolean(true));
    let f = decode(BackendKind::Sqlite, WireValue::Int(0), ValueKind::Boolean).unwrap();
    assert_eq!(f, Value::Boolean(false));
}

#[test]
fn null_does_not_decode_as_text() {
    let r = decode(BackendKind::Postgres, WireValue::Null, ValueKind::Text);
    assert_eq!(r, Err(Error::TypeMismatch));
}

#[test]
fn value_accessors_report_kind_mismatch() {
    let v = Value::Integer(9);
    assert_eq!(v.as_integer(), Ok(9));
    assert_eq!(v.as_boolean(), Err(Error::TypeMismatch));
    let t = Value::Text(String::from("abc"));
    assert_eq!(t.as_text(), Ok("abc"));
    assert_eq!(t.as_integer(), Err(Error::TypeMismatch));
    assert!(Value::Null.is_null());
    assert!(!t.is_null());
    assert_eq!(v.kind(), ValueKind::Integer);
}
