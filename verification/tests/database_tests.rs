use powerelk::database::{find_outcome, Database, DatabaseError};
use powerelk::json::Json;

fn db(name: &str) -> Database {
    Database { filelocation: format!("/tmp/powerelk-tests/{}", name) }
}

#[test]
fn default_database_file() {
    assert_eq!(Database::default().filelocation, "/tmp/database.db");
}

#[test]
fn stored_text_is_found() {
    let doc = Json::object2("hits", Json::PosInt(1), "title", Json::text("Dune \"I\""));
    assert_eq!(db("store_find").store("\"dune\"".to_string(), doc), Ok(true));
    let mut d = db("store_find");
    assert_eq!(d.find("\"dune\"".to_string()), Ok("{\"hits\":1,\"title\":\"Dune \\\"I\\\"\"}".to_string()));
    assert_eq!(d.filelocation, "/tmp/powerelk-tests/store_find");
}

#[test]
fn removed_key_reads_nope() {
    assert_eq!(db("remove_find").store("k".to_string(), Json::text("v")), Ok(true));
    assert_eq!(db("remove_find").remove("k".to_string()), Ok(true));
    assert_eq!(db("remove_find").find("k".to_string()), Ok("nope".to_string()));
    assert_eq!(db("remove_find").remove("k".to_string()), Ok(true));
}

#[test]
fn get_gives_the_stored_bytes() {
    assert_eq!(db("get_bytes").store("a".to_string(), Json::text("héllo")), Ok(true));
    assert_eq!(db("get_bytes").get("a".to_string()), Ok(Some("\"héllo\"".as_bytes().to_vec())));
    assert_eq!(db("get_bytes").remove("b".to_string()), Ok(true));
    assert_eq!(db("get_bytes").get("b".to_string()), Ok(None));
}

#[test]
fn unopenable_database_is_refused() {
    let mut d = Database { filelocation: "/proc/powerelk/cannot/exist".to_string() };
    assert_eq!(d.find("a".to_string()), Err(DatabaseError::Open));
    let d = Database { filelocation: "/proc/powerelk/cannot/exist".to_string() };
    assert_eq!(d.store("a".to_string(), Json::Null), Err(DatabaseError::Open));
}

#[test]
fn find_outcome_for_each_lookup() {
    assert_eq!(find_outcome(Ok(Some(b"text".to_vec()))), Ok("text".to_string()));
    assert_eq!(find_outcome(Ok(Some(vec![0xff, 0xfe]))), Err(DatabaseError::InvalidUtf8));
    assert_eq!(find_outcome(Ok(None)), Ok("nope".to_string()));
    assert_eq!(find_outcome(Err(sled::Error::Unsupported("x".to_string()))), Ok("nope".to_string()));
}

#[test]
fn ivec2string_decodes_utf8() {
    let s = Database::default().ivec2string("añb".as_bytes().to_vec()).unwrap();
    assert_eq!(s, "añb");
}

#[test]
fn ivvectou8_gives_the_first_byte() {
    assert_eq!(Database::default().ivvectou8(vec![7, 8, 9]).unwrap(), 7);
}

#[test]
fn storing_one_key_leaves_another() {
    assert_eq!(db("two_keys").store("a".to_string(), Json::PosInt(1)), Ok(true));
    assert_eq!(db("two_keys").store("b".to_string(), Json::NegInt(-2)), Ok(true));
    assert_eq!(db("two_keys").store("a".to_string(), Json::Bool(true)), Ok(true));
    assert_eq!(db("two_keys").find("b".to_string()), Ok("-2".to_string()));
    assert_eq!(db("two_keys").find("a".to_string()), Ok("true".to_string()));
}

#[test]
fn stored_documents_are_written_as_compact_json_with_sorted_keys() {
    let doc = Json::object3(
        "size",
        Json::PosInt(3),
        "a",
        Json::Array(vec![Json::Null, Json::Float(serde_json::Number::from_f64(1.5).unwrap())]),
        "b",
        Json::empty_object(),
    );
    assert_eq!(db("compact").store("k".to_string(), doc), Ok(true));
    assert_eq!(db("compact").find("k".to_string()), Ok("{\"a\":[null,1.5],\"b\":{},\"size\":3}".to_string()));
}
