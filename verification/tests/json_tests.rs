use powerelk::json::Json;

fn obj(entries: Vec<(&str, Json)>) -> Json {
    Json::Object(entries.into_iter().map(|(k, v)| (k.to_string(), v)).collect())
}

#[test]
fn set_field_on_null_makes_an_object() {
    let mut v = Json::Null;
    v.set_field("error".to_string(), Json::text("no key field!"));
    assert_eq!(v, obj(vec![("error", Json::Str("no key field!".to_string()))]));
}

#[test]
fn set_field_reads_back() {
    let mut v = obj(vec![("a", Json::Bool(true))]);
    v.set_field("b".to_string(), Json::PosInt(7));
    assert_eq!(v.get(&"b".to_string()), Some(&Json::PosInt(7)));
    assert_eq!(v.get(&"a".to_string()), Some(&Json::Bool(true)));
}

#[test]
fn set_field_replaces_an_existing_member_in_place() {
    let mut v = obj(vec![("a", Json::Bool(true)), ("b", Json::Null)]);
    v.set_field("a".to_string(), Json::NegInt(-3));
    assert_eq!(v, obj(vec![("a", Json::NegInt(-3)), ("b", Json::Null)]));
}

#[test]
fn field_is_null_for_missing_null_and_non_objects() {
    let v = obj(vec![("a", Json::Null), ("b", Json::Bool(false))]);
    assert!(v.field_is_null(&"a".to_string()));
    assert!(v.field_is_null(&"missing".to_string()));
    assert!(!v.field_is_null(&"b".to_string()));
    assert!(Json::Array(vec![Json::Null]).field_is_null(&"a".to_string()));
    assert!(Json::Str("a".to_string()).field_is_null(&"a".to_string()));
}

#[test]
fn get_reads_the_first_entry_of_a_key() {
    let v = obj(vec![("k", Json::PosInt(1)), ("k", Json::PosInt(2))]);
    assert_eq!(v.get(&"k".to_string()), Some(&Json::PosInt(1)));
    assert_eq!(Json::Null.get(&"k".to_string()), None);
}

#[test]
fn get_i64_reads_signed_integers_only() {
    let v = obj(vec![
        ("small", Json::PosInt(42)),
        ("big", Json::PosInt(9223372036854775808)),
        ("max", Json::PosInt(9223372036854775807)),
        ("neg", Json::NegInt(-5)),
        ("float", Json::Float(serde_json::Number::from_f64(1.5).unwrap())),
        ("text", Json::text("3")),
    ]);
    assert_eq!(v.get_i64(&"small".to_string()), Some(42));
    assert_eq!(v.get_i64(&"big".to_string()), None);
    assert_eq!(v.get_i64(&"max".to_string()), Some(i64::MAX));
    assert_eq!(v.get_i64(&"neg".to_string()), Some(-5));
    assert_eq!(v.get_i64(&"float".to_string()), None);
    assert_eq!(v.get_i64(&"text".to_string()), None);
    assert_eq!(v.get_i64(&"none".to_string()), None);
}

#[test]
fn from_i64_classifies_the_sign() {
    assert_eq!(Json::from_i64(3), Json::PosInt(3));
    assert_eq!(Json::from_i64(0), Json::PosInt(0));
    assert_eq!(Json::from_i64(-1), Json::NegInt(-1));
}

#[test]
fn builders_keep_entry_order() {
    let v = Json::object2("x", Json::Null, "y", Json::Bool(true));
    assert_eq!(v, obj(vec![("x", Json::Null), ("y", Json::Bool(true))]));
    assert_eq!(Json::empty_object(), obj(vec![]));
    assert_eq!(Json::array2(Json::Null, Json::PosInt(1)), Json::Array(vec![Json::Null, Json::PosInt(1)]));
}
