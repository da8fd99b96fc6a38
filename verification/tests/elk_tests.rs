use powerelk::elk::{amount_from_reply, Elk, ElkRequest, UtcTime, Verb};
use powerelk::json::Json;

fn obj(entries: Vec<(&str, Json)>) -> Json {
    Json::Object(entries.into_iter().map(|(k, v)| (k.to_string(), v)).collect())
}

fn elk() -> Elk {
    Elk { instance: "http://es:9200".to_string(), index: "books".to_string() }
}

fn title_search(find: &str, limit: i64, sort_column: &str) -> Json {
    obj(vec![
        ("query", obj(vec![("match", obj(vec![("title", Json::text(find))]))])),
        ("size", Json::from_i64(limit)),
        ("sort", Json::Array(vec![obj(vec![(sort_column, obj(vec![("order", Json::text("desc"))]))])])),
    ])
}

#[test]
fn default_elk_is_the_local_index() {
    let e = Elk::default();
    assert_eq!(e.instance, "http://127.0.0.1:9200");
    assert_eq!(e.index, "myindex");
    assert_eq!(e.getendpoint(), "http://127.0.0.1:9200/myindex");
}

#[test]
fn getendpoint_joins_instance_and_index() {
    assert_eq!(elk().getendpoint(), "http://es:9200/books");
    let e = Elk { instance: String::new(), index: String::new() };
    assert_eq!(e.getendpoint(), "/");
}

#[test]
fn query_elk_searches_titles_newest_first() {
    let r = elk().query_elk("\"dune\"".to_string(), 3);
    assert_eq!(
        r,
        ElkRequest {
            verb: Verb::Get,
            url: "http://es:9200/books".to_string(),
            body: Some(title_search("\"dune\"", 3, "indexed_at")),
        }
    );
}

#[test]
fn query_elk_keeps_a_negative_limit_negative() {
    let r = elk().query_elk("x".to_string(), -2);
    assert_eq!(r.body, Some(title_search("x", -2, "indexed_at")));
}

#[test]
fn time_search_formats_both_instants() {
    let from = UtcTime { secs: 1431648000, nanos: 0 };
    let to = UtcTime { secs: 1431734400, nanos: 0 };
    let r = elk().time_search("dune".to_string(), "published".to_string(), from, to).unwrap();
    let bounds = obj(vec![
        ("gte", Json::text("2015-05-15 00:00:00 UTC")),
        ("lt", Json::text("2015-05-16 00:00:00 UTC")),
    ]);
    let filter = Json::Array(vec![
        obj(vec![("match", obj(vec![("title", Json::text("dune"))]))]),
        obj(vec![("range", obj(vec![("published", bounds)]))]),
    ]);
    let body = obj(vec![
        ("size", Json::PosInt(1000)),
        ("query", obj(vec![("bool", obj(vec![("filter", filter)]))])),
    ]);
    assert_eq!(r, ElkRequest { verb: Verb::Post, url: "http://es:9200/books".to_string(), body: Some(body) });
}

#[test]
fn time_search_refuses_an_invalid_nanosecond_part() {
    let ok = UtcTime { secs: 0, nanos: 0 };
    let bad = UtcTime { secs: 0, nanos: 2_000_000_000 };
    assert_eq!(elk().time_search("a".to_string(), "d".to_string(), bad, ok), None);
    assert_eq!(elk().time_search("a".to_string(), "d".to_string(), ok, bad), None);
}

#[test]
fn other_index_search_uses_the_other_index_and_sort_column() {
    let r = elk().other_index_search("papers".to_string(), "year".to_string(), "ai".to_string(), 10);
    assert_eq!(
        r,
        ElkRequest {
            verb: Verb::Post,
            url: "http://es:9200/papers".to_string(),
            body: Some(title_search("ai", 10, "year")),
        }
    );
}

#[test]
fn get_lib_matches_the_library_field() {
    let r = elk().get_lib("serde".to_string());
    let body = obj(vec![(
        "query",
        obj(vec![("bool", obj(vec![("must", obj(vec![("match", obj(vec![("library", Json::text("serde"))]))]))]))]),
    )]);
    assert_eq!(r, ElkRequest { verb: Verb::Post, url: "http://es:9200/books".to_string(), body: Some(body) });
}

#[test]
fn random_asks_for_random_scoring() {
    let r = elk().random(1);
    let score = obj(vec![
        ("functions", Json::Array(vec![obj(vec![("random_score", obj(vec![]))])])),
        ("score_mode", Json::text("sum")),
    ]);
    let body = obj(vec![("size", Json::PosInt(1)), ("query", obj(vec![("function_score", score)]))]);
    assert_eq!(r, ElkRequest { verb: Verb::Get, url: "http://es:9200/books".to_string(), body: Some(body) });
}

#[test]
fn amount_and_info_are_plain_fetches() {
    let expected = ElkRequest { verb: Verb::Get, url: "http://es:9200/books".to_string(), body: None };
    assert_eq!(elk().amount_in_index(), expected);
    assert_eq!(elk().get_index_info(), expected);
}

#[test]
fn amount_from_reply_reads_count() {
    assert_eq!(amount_from_reply(&obj(vec![("count", Json::PosInt(12))])), 12);
    assert_eq!(amount_from_reply(&obj(vec![("shards", Json::Null), ("count", Json::NegInt(-1))])), -1);
    assert_eq!(amount_from_reply(&obj(vec![("count", Json::PosInt(9223372036854775807))])), i64::MAX);
}

#[test]
fn time_search_accepts_exactly_the_instants_chrono_represents() {
    let ok = UtcTime { secs: 0, nanos: 0 };
    let cases = [
        (UtcTime { secs: -8_334_601_228_800, nanos: 0 }, true),
        (UtcTime { secs: -8_334_601_228_801, nanos: 999_999_999 }, false),
        (UtcTime { secs: 8_210_266_876_799, nanos: 999_999_999 }, true),
        (UtcTime { secs: 8_210_266_876_800, nanos: 0 }, false),
        (UtcTime { secs: 59, nanos: 1_500_000_000 }, true),
        (UtcTime { secs: 58, nanos: 1_500_000_000 }, false),
        (UtcTime { secs: -1, nanos: 1_999_999_999 }, true),
        (UtcTime { secs: 59, nanos: 2_000_000_000 }, false),
        (UtcTime { secs: i64::MAX, nanos: 0 }, false),
        (UtcTime { secs: i64::MIN, nanos: 0 }, false),
    ];
    for (t, accepted) in cases {
        assert_eq!(elk().time_search("a".to_string(), "d".to_string(), t, ok).is_some(), accepted, "{:?}", t);
        assert_eq!(elk().time_search("a".to_string(), "d".to_string(), ok, t).is_some(), accepted, "{:?}", t);
    }
}

#[test]
fn time_search_writes_a_leap_second() {
    let leap = UtcTime { secs: 1483228799, nanos: 1_000_000_000 };
    let r = elk().time_search("a".to_string(), "d".to_string(), leap, leap).unwrap();
    let body = r.body.unwrap();
    let expected = Json::object1("range", Json::object1("d", Json::object2(
        "gte", Json::text("2016-12-31 23:59:60 UTC"),
        "lt", Json::text("2016-12-31 23:59:60 UTC"),
    )));
    match body {
        Json::Object(entries) => match &entries[1].1 {
            Json::Object(q) => match &q[0].1 {
                Json::Object(b) => match &b[0].1 {
                    Json::Array(items) => assert_eq!(items[1], expected),
                    other => panic!("{:?}", other),
                },
                other => panic!("{:?}", other),
            },
            other => panic!("{:?}", other),
        },
        other => panic!("{:?}", other),
    }
}
