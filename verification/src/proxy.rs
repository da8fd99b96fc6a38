//! The HTTP front end: which handler answers a request, and what each handler decides
//! and answers. Receiving requests, calling the search engine and writing JSON text
//! happen around these functions.
use vstd::prelude::*;

use crate::database::{
    CacheDb, Database, DatabaseError, bytes_view, db_contents, db_path, stored_bytes, find_spec, get_in, key_bytes, lemma_find_after_remove,
    lemma_find_after_store, nope_text, remove_spec, store_spec, string_from_utf8, text_result,
};
use crate::elk::{Elk, ElkRequest, ElkRequestView, Verb, endpoint, title_search_body};
use crate::json::{Json, JsonView, field, json_text, json_to_text, takes_fields, with_field};
use vstd::utf8::{decode_utf8, valid_utf8};

verus! {

#[verifier::external_type_specification]
#[verifier::external_body]
pub struct ExJsonError(serde_json::Error);

/// The lower-case hexadecimal digit for `n`, below 16.
pub open spec fn hex_digit(n: u32) -> char {
    if n < 10 {
        (48 + n) as char
    } else {
        (87 + n) as char
    }
}

/// How serde_json writes the character `c` inside a JSON string: the quote, the backslash
/// and the control characters below 0x20 are escaped (`\b`, `\t`, `\n`, `\f`, `\r`, and
/// `\u00XX` for the others); every other character stands for itself.
pub open spec fn escape_char(c: char) -> Seq<char> {
    if c == '"' {
        seq!['\\', '"']
    } else if c == '\\' {
        seq!['\\', '\\']
    } else if c == '\u{8}' {
        seq!['\\', 'b']
    } else if c == '\t' {
        seq!['\\', 't']
    } else if c == '\n' {
        seq!['\\', 'n']
    } else if c == '\u{c}' {
        seq!['\\', 'f']
    } else if c == '\r' {
        seq!['\\', 'r']
    } else if (c as u32) < 0x20 {
        seq!['\\', 'u', '0', '0', hex_digit((c as u32) / 16), hex_digit((c as u32) % 16)]
    } else {
        seq![c]
    }
}

/// The characters of `s`, each written as serde_json writes it inside a JSON string.
pub open spec fn escaped(s: Seq<char>) -> Seq<char>
    decreases s.len(),
{
    if s.len() == 0 {
        Seq::empty()
    } else {
        escape_char(s[0]) + escaped(s.subrange(1, s.len() as int))
    }
}

/// The JSON text serde_json writes for the string `s`: `s` escaped, between quotes.
pub open spec fn json_str_text(s: Seq<char>) -> Seq<char> {
    seq!['"'] + escaped(s) + seq!['"']
}

/// The JSON texts of the strings `items`, separated by commas.
pub open spec fn json_str_items(items: Seq<Seq<char>>) -> Seq<char>
    decreases items.len(),
{
    if items.len() == 0 {
        Seq::empty()
    } else if items.len() == 1 {
        json_str_text(items[0])
    } else {
        json_str_items(items.subrange(0, items.len() - 1)) + seq![','] + json_str_text(items[items.len() - 1])
    }
}

/// The compact JSON text serde_json writes for a list of strings: the items between
/// brackets, separated by commas.
pub open spec fn json_str_list_text(items: Seq<Seq<char>>) -> Seq<char> {
    seq!['['] + json_str_items(items) + seq![']']
}

/// Calls `serde_json::to_string` on a string. Claimed: it succeeds (a string always
/// serializes, and the writer is an in-memory buffer), with the text `json_str_text`.
#[verifier::external_body]
fn str_to_json(s: &str) -> (r: Result<String, serde_json::Error>)
    ensures
        r is Ok,
        r matches Ok(t) ==> t@ == json_str_text(s@),
{
    serde_json::to_string(s)
}

/// Calls `serde_json::to_string` on a list of strings. Claimed: it succeeds, with the text
/// `json_str_list_text`.
#[verifier::external_body]
fn str_list_to_json(items: &Vec<&str>) -> (r: Result<String, serde_json::Error>)
    ensures
        r is Ok,
        r matches Ok(t) ==> t@ == json_str_list_text(items@.map_values(|s: &str| s@)),
{
    serde_json::to_string(items)
}

/// The method of an incoming HTTP request, as far as routing tells them apart.
#[derive(Debug, PartialEq, Eq, Clone, Copy, Structural)]
pub enum Method {
    Get,
    Post,
    Other,
}

/// The handler that answers a request.
#[derive(Debug, PartialEq, Eq, Clone, Copy, Structural)]
pub enum Route {
    Index,
    Random,
    Search,
    RemoveKey,
    CacheCheck,
    NotFound,
}

/// Which handler answers `method` on `path`.
pub open spec fn route_spec(method: Method, path: Seq<char>) -> Route {
    if method == Method::Get && (path == "/"@ || path == "/index.html"@ || path == "/info"@) {
        Route::Index
    } else if method == Method::Get && path == "/random"@ {
        Route::Random
    } else if method == Method::Post && path == "/search"@ {
        Route::Search
    } else if method == Method::Post && path == "/removekey"@ {
        Route::RemoveKey
    } else if method == Method::Post && path == "/cachecheck"@ {
        Route::CacheCheck
    } else {
        Route::NotFound
    }
}

/// The body of a reply: a JSON document, written out when the reply is sent, or text.
#[derive(Debug, PartialEq)]
pub enum ReplyBody {
    Json(Json),
    Text(String),
}

/// A reply: its status code, whether it is marked as JSON, and its body.
#[derive(Debug, PartialEq)]
pub struct Reply {
    pub status: u16,
    pub json: bool,
    pub body: ReplyBody,
}

pub enum ReplyBodyView {
    Json(JsonView),
    Text(Seq<char>),
}

pub struct ReplyView {
    pub status: u16,
    pub json: bool,
    pub body: ReplyBodyView,
}

impl View for Reply {
    type V = ReplyView;

    open spec fn view(&self) -> ReplyView {
        ReplyView {
            status: self.status,
            json: self.json,
            body: match self.body {
                ReplyBody::Json(j) => ReplyBodyView::Json(j@),
                ReplyBody::Text(t) => ReplyBodyView::Text(t@),
            },
        }
    }
}

/// A successful JSON reply carrying the document `data`.
pub open spec fn json_reply(data: JsonView) -> ReplyView {
    ReplyView { status: 200, json: true, body: ReplyBodyView::Json(data) }
}

/// A successful JSON reply carrying the JSON text `text`.
pub open spec fn json_text_reply(text: Seq<char>) -> ReplyView {
    ReplyView { status: 200, json: true, body: ReplyBodyView::Text(text) }
}

/// The reply when the body could not be written as JSON.
pub open spec fn server_error_reply() -> ReplyView {
    ReplyView { status: 500, json: false, body: ReplyBodyView::Text("Internal Server Error"@) }
}

/// The reply for a request no handler answers.
pub open spec fn not_found_reply() -> ReplyView {
    ReplyView { status: 404, json: false, body: ReplyBodyView::Text("Not Found"@) }
}

/// The text the index page describes the endpoints with.
pub open spec fn index_listing() -> Seq<char> {
    " {\n        endpoints: [\"/search\", \"/removekey\", \"/random\"]\n    }"@
}

/// The reply to a request whose body lacks `field`: the body, with `error` set to `message`.
pub open spec fn missing_field_reply(data: JsonView, message: Seq<char>) -> ReplyView {
    json_reply(with_field(data, "error"@, JsonView::Str(message)))
}

/// The reply once a request's work is done: its body, with `Result` set to the outcome.
pub open spec fn result_reply(data: JsonView, out: JsonView) -> ReplyView {
    json_reply(with_field(data, "Result"@, out))
}

fn is_path(path: &String, lit: &str) -> (r: bool)
    ensures
        r == (path@ == lit@),
{
    let l = lit.to_string();
    *path == l
}

/// Which handler answers `method` on `path`: the index on GET `/`, `/index.html` or
/// `/info`; a random document on GET `/random`; a search on POST `/search`; the removal of
/// a cached search on POST `/removekey`; a cache lookup on POST `/cachecheck`; and a
/// "Not Found" reply otherwise.
pub fn route(method: Method, path: &String) -> (r: Route)
    ensures
        r == route_spec(method, path@),
{
    match method {
        Method::Get => {
            if is_path(path, "/") || is_path(path, "/index.html") || is_path(path, "/info") {
                Route::Index
            } else if is_path(path, "/random") {
                Route::Random
            } else {
                Route::NotFound
            }
        },
        Method::Post => {
            if is_path(path, "/search") {
                Route::Search
            } else if is_path(path, "/removekey") {
                Route::RemoveKey
            } else if is_path(path, "/cachecheck") {
                Route::CacheCheck
            } else {
                Route::NotFound
            }
        },
        Method::Other => Route::NotFound,
    }
}

/// The reply for a request that no handler answers.
pub fn not_found() -> (r: Reply)
    ensures
        r@ == not_found_reply(),
{
    Reply { status: 404, json: false, body: ReplyBody::Text("Not Found".to_string()) }
}

/// The reply carrying a body written as JSON text, or the server error when writing it failed.
pub fn serialized_reply(serialized: Option<String>) -> (r: Reply)
    ensures
        r@ == match serialized {
            Some(t) => json_text_reply(t@),
            None => server_error_reply(),
        },
{
    match serialized {
        Some(text) => Reply { status: 200, json: true, body: ReplyBody::Text(text) },
        None => Reply { status: 500, json: false, body: ReplyBody::Text("Internal Server Error".to_string()) },
    }
}

/// The index page: the listing of the endpoints, written as a JSON string.
pub fn api_index() -> (r: Reply)
    ensures
        r@ == json_text_reply(json_str_text(index_listing())),
{
    let output = " {\n        endpoints: [\"/search\", \"/removekey\", \"/random\"]\n    }";
    match str_to_json(output) {
        Ok(json) => serialized_reply(Some(json)),
        Err(_) => serialized_reply(None),
    }
}

/// A fixed reply: the list `["foo", "bar"]` written as JSON.
pub fn api_get_response() -> (r: Reply)
    ensures
        r@ == json_text_reply(json_str_list_text(seq!["foo"@, "bar"@])),
{
    let data: Vec<&str> = vec!["foo", "bar"];
    proof {
        assert(data@.map_values(|s: &str| s@) =~= seq!["foo"@, "bar"@]);
    }
    match str_list_to_json(&data) {
        Ok(json) => serialized_reply(Some(json)),
        Err(_) => serialized_reply(None),
    }
}

/// The request behind the random endpoint: one document of the index picked by the
/// engine's random scoring. Its answer, written as JSON text, is replied by
/// `serialized_reply`.
pub fn api_get_random(elkinstance: String, elkindex: String) -> (r: ElkRequest)
    ensures
        r@ == (ElkRequestView {
            verb: Verb::Get,
            url: endpoint(elkinstance@, elkindex@),
            body: Some(crate::elk::random_body(1)),
        }),
{
    let elkman = Elk { instance: elkinstance, index: elkindex };
    elkman.random(1)
}

/// How a handler goes on after looking at the request body.
#[derive(Debug, PartialEq)]
pub enum Step {
    /// The request is answered at once.
    Answer(Reply),
    /// The body carries the field the handler needs; the handler goes on with the body and
    /// the field's value written as JSON text, the key under which the cache keeps it.
    Proceed { data: Json, key: String },
}

/// How a handler that needs the field `name` goes on with the body `data`: a body without
/// it is answered with `message` under `error`; otherwise the handler goes on with the body
/// and the field's JSON text.
pub open spec fn field_step(step: Step, data: JsonView, name: Seq<char>, message: Seq<char>) -> bool {
    match step {
        Step::Answer(reply) => field(data, name) is Null && reply@ == missing_field_reply(data, message),
        Step::Proceed { data: d, key } => {
            &&& !(field(data, name) is Null)
            &&& d@ == data
            &&& d@ is Object
            &&& key@ == json_text(field(data, name))
        },
    }
}

fn require_field(data: Json, name: &str, message: &str) -> (r: Step)
    requires
        takes_fields(data@),
    ensures
        field_step(r, data@, name@, message@),
{
    let key = name.to_string();
    match data.get(&key) {
        Some(value) => match value {
            Json::Null => {},
            _ => {
                let text = json_to_text(value);
                return Step::Proceed { data, key: text };
            },
        },
        None => {},
    }
    let mut data = data;
    data.set_field("error".to_string(), Json::text(message));
    Step::Answer(Reply { status: 200, json: true, body: ReplyBody::Json(data) })
}

/// The first step of a key removal: a body without `key` is answered with the error
/// "no key field!"; otherwise the removal goes on with the JSON text of `key`.
pub fn api_remove_key(data: Json) -> (r: Step)
    requires
        takes_fields(data@),
    ensures
        field_step(r, data@, "key"@, "no key field!"@),
{
    require_field(data, "key", "no key field!")
}

/// The first step of a cache lookup: a body without `search` is answered with the error
/// "no search field!"; otherwise the lookup goes on with the JSON text of `search`.
pub fn api_cache_check(data: Json) -> (r: Step)
    requires
        takes_fields(data@),
    ensures
        field_step(r, data@, "search"@, "no search field!"@),
{
    require_field(data, "search", "no search field!")
}

/// The first step of a search: a body without `search` is answered with the error
/// "no search field!"; otherwise the search goes on with the JSON text of `search`.
pub fn api_search_response(data: Json) -> (r: Step)
    requires
        takes_fields(data@),
    ensures
        field_step(r, data@, "search"@, "no search field!"@),
{
    require_field(data, "search", "no search field!")
}

/// Law: a removal whose `key` holds the same value as a search's `search` removes the key
/// under which that search is cached, and a cache check whose `search` holds that value
/// reads it.
pub proof fn lemma_handlers_share_keys(
    search: Step,
    check: Step,
    removal: Step,
    search_body: JsonView,
    check_body: JsonView,
    removal_body: JsonView,
)
    requires
        field_step(search, search_body, "search"@, "no search field!"@),
        field_step(check, check_body, "search"@, "no search field!"@),
        field_step(removal, removal_body, "key"@, "no key field!"@),
        search is Proceed,
        check is Proceed,
        removal is Proceed,
        field(check_body, "search"@) == field(search_body, "search"@),
        field(removal_body, "key"@) == field(search_body, "search"@),
    ensures
        check->Proceed_key@ == search->Proceed_key@,
        removal->Proceed_key@ == search->Proceed_key@,
{
}

/// The reply once a request's work is done: its body, with `Result` set to `out`.
pub fn with_result(data: Json, out: Json) -> (r: Reply)
    requires
        takes_fields(data@),
    ensures
        r@ == result_reply(data@, out@),
{
    let mut data = data;
    data.set_field("Result".to_string(), out);
    Reply { status: 200, json: true, body: ReplyBody::Json(data) }
}

/// The rest of a key removal, once the key has been written as JSON text: the key is
/// removed from the cache at `dblocation`, and the body is replied with `Result` set to
/// `true`. Refused when the database cannot be opened.
pub fn remove_key_finish(data: Json, dblocation: String, key: String) -> (r: Result<Reply, DatabaseError>)
    requires
        takes_fields(data@),
    ensures
        match r {
            Ok(reply) => reply@ == result_reply(data@, JsonView::Bool(true)),
            Err(e) => e == DatabaseError::Open,
        },
        r is Ok ==> exists|d: CacheDb| db_path(d) == dblocation@,
{
    let dbin = Database { filelocation: dblocation };
    match dbin.remove(key) {
        Ok(out) => Ok(with_result(data, Json::Bool(out))),
        Err(e) => Err(e),
    }
}

/// An echo of the body with `test` set to "test_value".
pub fn api_post_response(data: Json) -> (r: Reply)
    requires
        takes_fields(data@),
    ensures
        r@ == json_reply(with_field(data@, "test"@, JsonView::Str("test_value"@))),
{
    let mut data = data;
    data.set_field("test".to_string(), Json::text("test_value"));
    Reply { status: 200, json: true, body: ReplyBody::Json(data) }
}

/// How a search goes on after the cache has been consulted.
#[derive(Debug, PartialEq)]
pub enum AskStep {
    /// The cache holds an answer: the JSON text of the document the engine gave.
    Cached(String),
    /// The cache holds none: the search engine is asked with this request, and its answer
    /// is stored in the cache.
    Query(ElkRequest),
}

/// The request a search for `title` sends to the search engine when the cache holds no
/// answer: the three newest hits for the title.
pub open spec fn search_request(title: Seq<char>, elkinstance: Seq<char>, elkindex: Seq<char>) -> ElkRequestView {
    ElkRequestView {
        verb: Verb::Get,
        url: endpoint(elkinstance, elkindex),
        body: Some(title_search_body(title, 3, "indexed_at"@)),
    }
}

pub enum AskStepView {
    Cached(Seq<char>),
    Query(ElkRequestView),
}

impl View for AskStep {
    type V = AskStepView;

    open spec fn view(&self) -> AskStepView {
        match self {
            AskStep::Cached(t) => AskStepView::Cached(t@),
            AskStep::Query(req) => AskStepView::Query(req@),
        }
    }
}

/// How a search for `title` goes on when the cache answered `found`: any text but "nope"
/// is the cached answer's JSON text; "nope" sends the search to the engine.
pub open spec fn ask_step(found: Seq<char>, title: Seq<char>, elkinstance: Seq<char>, elkindex: Seq<char>) -> AskStepView {
    if found != nope_text() {
        AskStepView::Cached(found)
    } else {
        AskStepView::Query(search_request(title, elkinstance, elkindex))
    }
}

/// What the cache holds under `title` once the engine's answer `answer` is stored there.
pub open spec fn cached_answer(m: Map<Seq<u8>, Seq<u8>>, title: Seq<char>, answer: JsonView) -> Map<
    Seq<u8>,
    Seq<u8>,
> {
    store_spec(m, title, json_text(answer))
}

/// Law: once the engine's answer for `title` is stored in the cache, the next search for
/// `title` is answered from the cache with that answer's JSON text (unless that text is
/// "nope", which reads as a miss), and a cache check for `title` reads the same text.
pub proof fn lemma_stored_answer_is_cached(
    m: Map<Seq<u8>, Seq<u8>>,
    title: Seq<char>,
    answer: JsonView,
    elkinstance: Seq<char>,
    elkindex: Seq<char>,
)
    ensures
        find_spec(cached_answer(m, title, answer), title) == Ok::<Seq<char>, DatabaseError>(json_text(answer)),
        json_text(answer) != nope_text() ==> ask_step(json_text(answer), title, elkinstance, elkindex)
            == AskStepView::Cached(json_text(answer)),
        cache_spec(cached_answer(m, title, answer), title) == Ok::<Seq<char>, DatabaseError>(json_text(answer)),
{
    lemma_find_after_store(m, title, json_text(answer));
}

/// Law: once a title is removed from the cache, the next search for it goes to the engine,
/// and a cache check for it finds nothing.
pub proof fn lemma_removed_search_is_queried(
    m: Map<Seq<u8>, Seq<u8>>,
    title: Seq<char>,
    elkinstance: Seq<char>,
    elkindex: Seq<char>,
)
    ensures
        find_spec(remove_spec(m, title), title) == Ok::<Seq<char>, DatabaseError>(nope_text()),
        ask_step(nope_text(), title, elkinstance, elkindex) == AskStepView::Query(
            search_request(title, elkinstance, elkindex),
        ),
        cache_spec(remove_spec(m, title), title) == Err::<Seq<char>, DatabaseError>(DatabaseError::Missing),
{
    lemma_find_after_remove(m, title);
}

/// The decision of a search given what the cache answered for its title.
pub fn ask_decision(found: String, title: String, elkinstance: String, elkindex: String) -> (r: AskStep)
    ensures
        r@ == ask_step(found@, title@, elkinstance@, elkindex@),
{
    let nope = "nope".to_string();
    if found != nope {
        AskStep::Cached(found)
    } else {
        let elkhuman = Elk { instance: elkinstance, index: elkindex };
        AskStep::Query(elkhuman.query_elk(title, 3))
    }
}

/// A search for `titl`: the cache at `dblocation` is consulted first. Refused when the
/// database cannot be opened or holds a value that is not UTF-8 text.
pub fn ask(titl: String, dblocation: String, elkinstance: String, elkindex: String) -> (r: Result<AskStep, DatabaseError>)
    ensures
        r matches Ok(step) ==> exists|found: Seq<char>| step@ == ask_step(found, titl@, elkinstance@, elkindex@),
        r matches Ok(AskStep::Cached(t)) ==> t@ != nope_text() && exists|d: CacheDb|
            db_path(d) == dblocation@ && find_spec(db_contents(d), titl@) == Ok::<Seq<char>, DatabaseError>(t@),
        r matches Err(DatabaseError::InvalidUtf8) ==> exists|d: CacheDb|
            db_path(d) == dblocation@ && find_spec(db_contents(d), titl@) == Err::<Seq<char>, DatabaseError>(
                DatabaseError::InvalidUtf8,
            ),
        r matches Ok(AskStep::Query(req)) ==> req@ == search_request(titl@, elkinstance@, elkindex@),
        r matches Err(e) ==> e == DatabaseError::Open || e == DatabaseError::InvalidUtf8,
{
    let mut dbin = Database { filelocation: dblocation };
    let title = titl.clone();
    match dbin.find(title) {
        Ok(firsttry) => Ok(ask_decision(firsttry, titl, elkinstance, elkindex)),
        Err(e) => Err(e),
    }
}

/// The last step of a search the engine answered: the answer, written as compact JSON
/// text, is stored in the cache under the title. Refused when the database cannot be opened.
pub fn ask_store(titl: String, dblocation: String, answer: &Json) -> (r: Result<bool, DatabaseError>)
    ensures
        r == Ok::<bool, DatabaseError>(true) || r == Err::<bool, DatabaseError>(DatabaseError::Open),
        r is Ok ==> exists|d: CacheDb| db_path(d) == dblocation@,
{
    let dbin = Database { filelocation: dblocation };
    dbin.store_text(titl, json_to_text(answer))
}

/// What a cache check of `key` answers for a database holding `m`: the stored text, an
/// error when it is not UTF-8, and an error when nothing is stored.
pub open spec fn cache_spec(m: Map<Seq<u8>, Seq<u8>>, key: Seq<char>) -> Result<Seq<char>, DatabaseError> {
    if m.contains_key(key_bytes(key)) {
        let b = m[key_bytes(key)];
        if valid_utf8(b) {
            Ok(decode_utf8(b))
        } else {
            Err(DatabaseError::InvalidUtf8)
        }
    } else {
        Err(DatabaseError::Missing)
    }
}

/// What a cache lookup answers for each outcome of reading the key: the stored text when
/// it is UTF-8; the error when nothing is stored, the text is not UTF-8, or the read was
/// refused.
pub fn cache_text(lookup: Result<Option<Vec<u8>>, DatabaseError>) -> (r: Result<String, DatabaseError>)
    ensures
        text_result(r) == match lookup {
            Ok(Some(b)) => if valid_utf8(b@) {
                Ok(decode_utf8(b@))
            } else {
                Err(DatabaseError::InvalidUtf8)
            },
            Ok(None) => Err(DatabaseError::Missing),
            Err(e) => Err(e),
        },
{
    match lookup {
        Ok(Some(bytes)) => match string_from_utf8(bytes) {
            Some(text) => Ok(text),
            None => Err(DatabaseError::InvalidUtf8),
        },
        Ok(None) => Err(DatabaseError::Missing),
        Err(e) => Err(e),
    }
}

/// The cache check of `find` in an opened database: what `cache_spec` gives for what the
/// database holds, unless reading fails.
pub fn cacheask_in(db: &CacheDb, find: &String) -> (r: Result<String, DatabaseError>)
    ensures
        text_result(r) == cache_spec(db_contents(*db), find@) || r == Err::<String, DatabaseError>(DatabaseError::Read),
{
    cache_text(get_in(db, find))
}

/// The cached answer for `find`, as the JSON text stored in the cache at `dblocation`.
/// Refused when the database cannot be opened or read, when nothing is cached under
/// `find`, or when the cached value is not UTF-8 text.
pub fn cacheask(find: String, dblocation: String) -> (r: Result<String, DatabaseError>)
    ensures
        r matches Err(e) ==> e == DatabaseError::Open || e == DatabaseError::Read || e == DatabaseError::Missing
            || e == DatabaseError::InvalidUtf8,
        r matches Ok(t) ==> exists|b: Seq<u8>| valid_utf8(b) && t@ == decode_utf8(b),
        !(r matches Err(DatabaseError::Open)) && !(r matches Err(DatabaseError::Read)) ==> exists|d: CacheDb|
            db_path(d) == dblocation@ && text_result(r) == cache_spec(db_contents(d), find@),
{
    let ghost path = dblocation@;
    let ghost key = find@;
    let dbin = Database { filelocation: dblocation };
    let lookup = dbin.get(find);
    let r = cache_text(lookup);
    proof {
        if lookup is Ok {
            let o = lookup->Ok_0;
            let d = choose|d: CacheDb| db_path(d) == path && stored_bytes(db_contents(d), key) == bytes_view(o);
            assert(db_path(d) == path && text_result(r) == cache_spec(db_contents(d), key));
        }
    }
    r
}

} // verus!
