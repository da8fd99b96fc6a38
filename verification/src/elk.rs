//! The search engine side: where its index lives and the search requests sent to it.
use vstd::prelude::*;

use crate::json::{Json, JsonView, as_i64_spec, int_view, member};

verus! {

/// An index of the search engine: the base address of the instance and the index's name.
pub struct Elk {
    pub instance: String,
    pub index: String,
}

/// How a request is sent to the search engine.
#[derive(Debug, PartialEq, Eq, Clone, Copy, Structural)]
pub enum Verb {
    Get,
    Post,
}

/// A request for the search engine: how it is sent, where, and the JSON body it carries.
#[derive(Debug, PartialEq)]
pub struct ElkRequest {
    pub verb: Verb,
    pub url: String,
    pub body: Option<Json>,
}

pub struct ElkRequestView {
    pub verb: Verb,
    pub url: Seq<char>,
    pub body: Option<JsonView>,
}

impl View for ElkRequest {
    type V = ElkRequestView;

    open spec fn view(&self) -> ElkRequestView {
        ElkRequestView {
            verb: self.verb,
            url: self.url@,
            body: match self.body {
                Some(b) => Some(b@),
                None => None,
            },
        }
    }
}

/// An instant, as seconds and nanoseconds since the UNIX epoch in UTC.
#[derive(Debug, PartialEq, Eq, Clone, Copy, Structural)]
pub struct UtcTime {
    pub secs: i64,
    pub nanos: u32,
}

/// The first second chrono can represent: January 1 of the year -262143, in seconds from
/// the epoch.
pub open spec fn utc_min_secs() -> int {
    -8_334_601_228_800
}

/// The last second chrono can represent: the end of December 31 of the year 262142.
pub open spec fn utc_max_secs() -> int {
    8_210_266_876_799
}

/// The instants chrono's `DateTime::<Utc>::from_timestamp` accepts: seconds within the
/// years it represents, and a nanosecond part below one second, or below two seconds for
/// a leap second, which only the last second of a minute may carry.
pub open spec fn utc_time_valid(t: UtcTime) -> bool {
    &&& utc_min_secs() <= t.secs <= utc_max_secs()
    &&& (t.nanos < 1_000_000_000 || (t.nanos < 2_000_000_000 && t.secs % 60 == 59))
}

/// The text that chrono's `Display` writes for the `DateTime<Utc>` made from `secs` and
/// `nanos` by `DateTime::from_timestamp`, such as `2015-05-15 00:00:00 UTC`.
pub uninterp spec fn utc_display(secs: i64, nanos: u32) -> Seq<char>;

/// Calls chrono's `DateTime::<Utc>::from_timestamp(secs, nanos)` and, when it gives an
/// instant, its `Display`. Claimed: an instant comes back exactly for the inputs of
/// `utc_time_valid` (the day must fall within years -262143 to 262142, the time of day
/// takes a nanosecond part below 1e9, or below 2e9 in the 59th second of a minute), and
/// its text is the one named by `utc_display`.
#[verifier::external_body]
fn format_utc(secs: i64, nanos: u32) -> (r: Option<String>)
    ensures
        r is Some <==> utc_time_valid(UtcTime { secs, nanos }),
        r matches Some(s) ==> s@ == utc_display(secs, nanos),
{
    match chrono::DateTime::<chrono::Utc>::from_timestamp(secs, nanos) {
        Some(t) => Some(t.to_string()),
        None => None,
    }
}

/// `{"k": v}`
pub open spec fn obj1(k: Seq<char>, v: JsonView) -> JsonView {
    JsonView::Object(seq![(k, v)])
}

/// The body of a title search that returns the newest `limit` hits first, newest by `sort_column`.
pub open spec fn title_search_body(find: Seq<char>, limit: i64, sort_column: Seq<char>) -> JsonView {
    JsonView::Object(
        seq![
            ("query"@, obj1("match"@, obj1("title"@, JsonView::Str(find)))),
            ("size"@, int_view(limit)),
            ("sort"@, JsonView::Array(seq![obj1(sort_column, obj1("order"@, JsonView::Str("desc"@)))])),
        ],
    )
}

/// The body of a title search restricted to the documents whose `datecolumn` lies from
/// `from` (included) to `to` (excluded), returning at most 1000 hits.
pub open spec fn time_search_body(
    find: Seq<char>,
    datecolumn: Seq<char>,
    from: Seq<char>,
    to: Seq<char>,
) -> JsonView {
    JsonView::Object(
        seq![
            ("size"@, JsonView::PosInt(1000)),
            ("query"@, obj1("bool"@, obj1("filter"@, JsonView::Array(seq![
                obj1("match"@, obj1("title"@, JsonView::Str(find))),
                obj1("range"@, obj1(datecolumn, JsonView::Object(seq![
                    ("gte"@, JsonView::Str(from)),
                    ("lt"@, JsonView::Str(to)),
                ]))),
            ])))),
        ],
    )
}

/// The body of a search for the documents whose `library` matches `findme`.
pub open spec fn library_search_body(findme: Seq<char>) -> JsonView {
    obj1("query"@, obj1("bool"@, obj1("must"@, obj1("match"@, obj1("library"@, JsonView::Str(findme))))))
}

/// The body of a request for `limit` documents picked by the engine's random scoring.
pub open spec fn random_body(limit: i64) -> JsonView {
    JsonView::Object(
        seq![
            ("size"@, int_view(limit)),
            ("query"@, obj1("function_score"@, JsonView::Object(seq![
                ("functions"@, JsonView::Array(seq![obj1("random_score"@, JsonView::Object(Seq::empty()))])),
                ("score_mode"@, JsonView::Str("sum"@)),
            ]))),
        ],
    )
}

/// The address of the index `index` of the instance at `instance`.
pub open spec fn endpoint(instance: Seq<char>, index: Seq<char>) -> Seq<char> {
    instance + "/"@ + index
}

/// The count that a counting reply reports: its member `count` read as a signed 64-bit
/// integer.
pub open spec fn reply_count(reply: JsonView) -> Option<i64> {
    match member(reply, "count"@) {
        Some(c) => as_i64_spec(c),
        None => None,
    }
}

fn join_path(instance: &String, index: &String) -> (r: String)
    ensures
        r@ == endpoint(instance@, index@),
{
    let mut s = instance.clone();
    s.append("/");
    s.append(index.as_str());
    s
}

fn title_search(find: String, limit: i64, sort_column: &str) -> (r: Json)
    ensures
        r@ == title_search_body(find@, limit, sort_column@),
{
    let query = Json::object1("match", Json::object1("title", Json::Str(find)));
    let sort = Json::array1(Json::object1(sort_column, Json::object1("order", Json::text("desc"))));
    Json::object3("query", query, "size", Json::from_i64(limit), "sort", sort)
}

/// The body of a time-bounded title search, from the texts of its two instants.
pub fn time_search_query(find: String, datecolumn: &String, from: String, to: String) -> (r: Json)
    ensures
        r@ == time_search_body(find@, datecolumn@, from@, to@),
{
    let matcher = Json::object1("match", Json::object1("title", Json::Str(find)));
    let bounds = Json::object2("gte", Json::Str(from), "lt", Json::Str(to));
    let range = Json::object1("range", Json::object1(datecolumn.as_str(), bounds));
    let query = Json::object1("bool", Json::object1("filter", Json::array2(matcher, range)));
    Json::object2("size", Json::PosInt(1000), "query", query)
}

impl Default for Elk {
    /// The local engine's default index.
    fn default() -> (r: Elk)
        ensures
            r.instance@ == "http://127.0.0.1:9200"@,
            r.index@ == "myindex"@,
    {
        Elk { instance: "http://127.0.0.1:9200".to_string(), index: "myindex".to_string() }
    }
}

impl Elk {
    /// The address of this index: the instance, a slash, and the index's name.
    pub fn getendpoint(self) -> (r: String)
        ensures
            r@ == endpoint(self.instance@, self.index@),
    {
        join_path(&self.instance, &self.index)
    }

    /// The title search for `findme` in this index: at most `limit` hits, the newest by
    /// `indexed_at` first.
    pub fn query_elk(self, findme: String, limit: i64) -> (r: ElkRequest)
        ensures
            r@ == (ElkRequestView {
                verb: Verb::Get,
                url: endpoint(self.instance@, self.index@),
                body: Some(title_search_body(findme@, limit, "indexed_at"@)),
            }),
    {
        let url = self.getendpoint();
        ElkRequest { verb: Verb::Get, url, body: Some(title_search(findme, limit, "indexed_at")) }
    }

    /// The search for `find` in this index among the documents whose `datecolumn` lies
    /// from `fromtime` to `totime`. There is none when one of the instants is not one that
    /// chrono represents; every `DateTime<Utc>` is.
    pub fn time_search(self, find: String, datecolumn: String, fromtime: UtcTime, totime: UtcTime) -> (r:
        Option<ElkRequest>)
        ensures
            r matches Some(req) ==> req@ == (ElkRequestView {
                verb: Verb::Post,
                url: endpoint(self.instance@, self.index@),
                body: Some(
                    time_search_body(
                        find@,
                        datecolumn@,
                        utc_display(fromtime.secs, fromtime.nanos),
                        utc_display(totime.secs, totime.nanos),
                    ),
                ),
            }),
            r is Some <==> utc_time_valid(fromtime) && utc_time_valid(totime),
    {
        let to = format_utc(totime.secs, totime.nanos);
        let from = format_utc(fromtime.secs, fromtime.nanos);
        match (from, to) {
            (Some(from), Some(to)) => {
                let url = self.getendpoint();
                Some(ElkRequest { verb: Verb::Post, url, body: Some(time_search_query(find, &datecolumn, from, to)) })
            },
            _ => None,
        }
    }

    /// The title search for `find` in the index `newindex` of this instance: at most
    /// `limit` hits, the newest by `sortcolumn` first.
    pub fn other_index_search(self, newindex: String, sortcolumn: String, find: String, limit: i64) -> (r:
        ElkRequest)
        ensures
            r@ == (ElkRequestView {
                verb: Verb::Post,
                url: endpoint(self.instance@, newindex@),
                body: Some(title_search_body(find@, limit, sortcolumn@)),
            }),
    {
        let url = join_path(&self.instance, &newindex);
        ElkRequest { verb: Verb::Post, url, body: Some(title_search(find, limit, sortcolumn.as_str())) }
    }

    /// The search for the documents of this index whose `library` matches `findme`.
    pub fn get_lib(self, findme: String) -> (r: ElkRequest)
        ensures
            r@ == (ElkRequestView {
                verb: Verb::Post,
                url: endpoint(self.instance@, self.index@),
                body: Some(library_search_body(findme@)),
            }),
    {
        let url = self.getendpoint();
        let body = Json::object1(
            "query",
            Json::object1("bool", Json::object1("must", Json::object1("match", Json::object1("library", Json::Str(findme))))),
        );
        ElkRequest { verb: Verb::Post, url, body: Some(body) }
    }

    /// The request for `limit` documents of this index picked by the engine's random scoring.
    pub fn random(self, limit: i64) -> (r: ElkRequest)
        ensures
            r@ == (ElkRequestView {
                verb: Verb::Get,
                url: endpoint(self.instance@, self.index@),
                body: Some(random_body(limit)),
            }),
    {
        let url = self.getendpoint();
        let functions = Json::array1(Json::object1("random_score", Json::empty_object()));
        let score = Json::object2("functions", functions, "score_mode", Json::text("sum"));
        let body = Json::object2("size", Json::from_i64(limit), "query", Json::object1("function_score", score));
        ElkRequest { verb: Verb::Get, url, body: Some(body) }
    }

    /// The request for the number of documents in this index: a plain fetch of its address.
    pub fn amount_in_index(self) -> (r: ElkRequest)
        ensures
            r@ == (ElkRequestView { verb: Verb::Get, url: endpoint(self.instance@, self.index@), body: None }),
    {
        ElkRequest { verb: Verb::Get, url: self.getendpoint(), body: None }
    }

    /// The request for what the engine tells of this index: a plain fetch of its address.
    pub fn get_index_info(self) -> (r: ElkRequest)
        ensures
            r@ == (ElkRequestView { verb: Verb::Get, url: endpoint(self.instance@, self.index@), body: None }),
    {
        ElkRequest { verb: Verb::Get, url: self.getendpoint(), body: None }
    }
}

/// The number of documents a counting reply reports. The reply must carry a `count` that
/// reads as a signed 64-bit integer.
pub fn amount_from_reply(reply: &Json) -> (r: i64)
    requires
        reply_count(reply@) is Some,
    ensures
        Some(r) == reply_count(reply@),
{
    let key = "count".to_string();
    match reply.get_i64(&key) {
        Some(n) => n,
        None => {
            assert(false);
            0
        },
    }
}

} // verus!
