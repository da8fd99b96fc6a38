//! The cache: an embedded key/value database, keyed by the search text, holding the
//! JSON text of each answer.
use vstd::prelude::*;
use crate::json::{Json, json_to_text};
use vstd::utf8::{decode_utf8, encode_utf8, encode_utf8_decode_utf8, encode_utf8_valid_utf8, valid_utf8};

verus! {

#[verifier::external_type_specification]
#[verifier::external_body]
pub struct ExSledError(sled::Error);

#[verifier::external_type_specification]
#[verifier::external_body]
pub struct ExIoError(std::io::Error);

/// An opened cache database. The sled handle is kept private and never cloned, so every
/// change to the database goes through this one handle.
#[verifier::external_body]
pub struct CacheDb {
    db: sled::Db,
}

/// What an opened cache database holds: the bytes of each key mapped to the bytes of its
/// value.
pub uninterp spec fn db_contents(db: CacheDb) -> Map<Seq<u8>, Seq<u8>>;

/// The path an opened cache database was opened at.
pub uninterp spec fn db_path(db: CacheDb) -> Seq<char>;

/// Calls `sled::open(path)`. Claimed: a database that comes back was opened at `path`.
/// What it holds depends on the disk, so nothing is claimed of that.
#[verifier::external_body]
fn open_db(path: &str) -> (r: Result<CacheDb, sled::Error>)
    ensures
        r matches Ok(d) ==> db_path(d) == path@,
{
    match sled::open(path) {
        Ok(db) => Ok(CacheDb { db }),
        Err(e) => Err(e),
    }
}

/// Calls `Tree::get` on the database's default tree. Claimed: a value that comes back is
/// the one the database holds under the key, and none comes back when it holds none. The
/// call may also fail.
#[verifier::external_body]
fn db_get(db: &CacheDb, key: &[u8]) -> (r: Result<Option<Vec<u8>>, sled::Error>)
    ensures
        r matches Ok(Some(v)) ==> db_contents(*db).contains_key(key@) && db_contents(*db)[key@] == v@,
        r matches Ok(None) ==> !db_contents(*db).contains_key(key@),
{
    match db.db.get(key) {
        Ok(Some(v)) => Ok(Some(v.to_vec())),
        Ok(None) => Ok(None),
        Err(e) => Err(e),
    }
}

/// Calls `Tree::insert` on the database's default tree. Claimed: the database stays the one
/// at its path; when the call succeeds, the key now maps to the value, every other key is
/// untouched, and the previous value under the key comes back. What a failed call leaves
/// in the database is left unsaid.
#[verifier::external_body]
fn db_insert(db: &mut CacheDb, key: &[u8], value: &[u8]) -> (r: Result<Option<Vec<u8>>, sled::Error>)
    ensures
        db_path(*final(db)) == db_path(*old(db)),
        r is Ok ==> db_contents(*final(db)) == db_contents(*old(db)).insert(key@, value@),
        r matches Ok(Some(p)) ==> db_contents(*old(db)).contains_key(key@) && db_contents(*old(db))[key@] == p@,
        r matches Ok(None) ==> !db_contents(*old(db)).contains_key(key@),
{
    match db.db.insert(key, value) {
        Ok(Some(p)) => Ok(Some(p.to_vec())),
        Ok(None) => Ok(None),
        Err(e) => Err(e),
    }
}

/// Calls `Tree::remove` on the database's default tree. Claimed: the database stays the one
/// at its path; when the call succeeds, the key maps to nothing any more, every other key is
/// untouched, and the removed value comes back. What a failed call leaves in the database is
/// left unsaid.
#[verifier::external_body]
fn db_remove(db: &mut CacheDb, key: &[u8]) -> (r: Result<Option<Vec<u8>>, sled::Error>)
    ensures
        db_path(*final(db)) == db_path(*old(db)),
        r is Ok ==> db_contents(*final(db)) == db_contents(*old(db)).remove(key@),
        r matches Ok(Some(p)) ==> db_contents(*old(db)).contains_key(key@) && db_contents(*old(db))[key@] == p@,
        r matches Ok(None) ==> !db_contents(*old(db)).contains_key(key@),
{
    match db.db.remove(key) {
        Ok(Some(p)) => Ok(Some(p.to_vec())),
        Ok(None) => Ok(None),
        Err(e) => Err(e),
    }
}

/// Calls `Tree::flush`, which writes the buffered changes to disk; through a shared handle
/// it leaves what the database holds as it was. Nothing is claimed of its result.
#[verifier::external_body]
fn db_flush(db: &CacheDb) -> (r: Result<usize, sled::Error>) {
    db.db.flush()
}

/// Calls std's `String::from_utf8`: the bytes come back as text exactly when they are
/// valid UTF-8, decoded as UTF-8.
#[verifier::external_body]
pub(crate) fn string_from_utf8(bytes: Vec<u8>) -> (r: Option<String>)
    ensures
        r is Some <==> valid_utf8(bytes@),
        r matches Some(s) ==> s@ == decode_utf8(bytes@),
{
    String::from_utf8(bytes).ok()
}

/// Why a database operation could not be carried out.
#[derive(Debug, PartialEq, Eq, Clone, Copy, Structural)]
pub enum DatabaseError {
    /// The database file could not be opened.
    Open,
    /// Reading from the database failed.
    Read,
    /// Nothing is stored under the key.
    Missing,
    /// The stored value is not UTF-8 text.
    InvalidUtf8,
}

/// The text a lookup reports when nothing usable is stored under a key.
pub open spec fn nope_text() -> Seq<char> {
    "nope"@
}

/// A text result, by the view of its text.
pub open spec fn text_result(r: Result<String, DatabaseError>) -> Result<Seq<char>, DatabaseError> {
    match r {
        Ok(s) => Ok(s@),
        Err(e) => Err(e),
    }
}

/// The bytes under which a key is stored: its UTF-8 encoding.
pub open spec fn key_bytes(key: Seq<char>) -> Seq<u8> {
    encode_utf8(key)
}

/// What a lookup of `key` in a database holding `m` answers: the stored text, an error when
/// the stored bytes are not UTF-8, and "nope" when nothing is stored.
pub open spec fn find_spec(m: Map<Seq<u8>, Seq<u8>>, key: Seq<char>) -> Result<Seq<char>, DatabaseError> {
    if m.contains_key(key_bytes(key)) {
        let b = m[key_bytes(key)];
        if valid_utf8(b) {
            Ok(decode_utf8(b))
        } else {
            Err(DatabaseError::InvalidUtf8)
        }
    } else {
        Ok(nope_text())
    }
}

/// What a database holding `m` holds after `text` is stored under `key`.
pub open spec fn store_spec(m: Map<Seq<u8>, Seq<u8>>, key: Seq<char>, text: Seq<char>) -> Map<Seq<u8>, Seq<u8>> {
    m.insert(key_bytes(key), encode_utf8(text))
}

/// What a database holding `m` holds after `key` is removed.
pub open spec fn remove_spec(m: Map<Seq<u8>, Seq<u8>>, key: Seq<char>) -> Map<Seq<u8>, Seq<u8>> {
    m.remove(key_bytes(key))
}

/// What a lookup answers for each outcome of reading the key: the stored text when it is
/// UTF-8, an error when it is not, and "nope" when nothing was stored or the read failed.
pub fn find_outcome(lookup: Result<Option<Vec<u8>>, sled::Error>) -> (r: Result<String, DatabaseError>)
    ensures
        text_result(r) == match lookup {
            Ok(Some(b)) => if valid_utf8(b@) {
                Ok(decode_utf8(b@))
            } else {
                Err(DatabaseError::InvalidUtf8)
            },
            _ => Ok(nope_text()),
        },
{
    match lookup {
        Ok(Some(bytes)) => match string_from_utf8(bytes) {
            Some(text) => Ok(text),
            None => Err(DatabaseError::InvalidUtf8),
        },
        _ => Ok("nope".to_string()),
    }
}

/// Looks `findme` up in an opened database. The answer is the one `find_spec` gives for
/// what the database holds, unless reading fails, which answers "nope".
pub fn find_in(db: &CacheDb, findme: &String) -> (r: Result<String, DatabaseError>)
    ensures
        text_result(r) == find_spec(db_contents(*db), findme@) || text_result(r) == Ok::<Seq<char>, DatabaseError>(nope_text()),
{
    let lookup = db_get(db, findme.as_str().as_bytes());
    find_outcome(lookup)
}

/// Reads the bytes stored under `entryid` in an opened database.
pub fn get_in(db: &CacheDb, entryid: &String) -> (r: Result<Option<Vec<u8>>, DatabaseError>)
    ensures
        r matches Ok(Some(v)) ==> db_contents(*db).contains_key(key_bytes(entryid@))
            && db_contents(*db)[key_bytes(entryid@)] == v@,
        r matches Ok(None) ==> !db_contents(*db).contains_key(key_bytes(entryid@)),
        r matches Err(e) ==> e == DatabaseError::Read,
{
    match db_get(db, entryid.as_str().as_bytes()) {
        Ok(found) => Ok(found),
        Err(_) => Err(DatabaseError::Read),
    }
}

/// Stores the text `data` under `entryid` in an opened database and flushes it to disk.
/// Tells whether the value was stored; when it was, the database holds what `store_spec`
/// says.
pub fn store_in(db: &mut CacheDb, entryid: &String, data: &String) -> (stored: bool)
    ensures
        db_path(*final(db)) == db_path(*old(db)),
        stored ==> db_contents(*final(db)) == store_spec(db_contents(*old(db)), entryid@, data@),
{
    let inserted = db_insert(db, entryid.as_str().as_bytes(), data.as_str().as_bytes());
    let _ = db_flush(db);
    inserted.is_ok()
}

/// Removes `key` from an opened database. Tells whether the removal went through; when it
/// did, the database holds what `remove_spec` says.
pub fn remove_in(db: &mut CacheDb, key: &String) -> (removed: bool)
    ensures
        db_path(*final(db)) == db_path(*old(db)),
        removed ==> db_contents(*final(db)) == remove_spec(db_contents(*old(db)), key@),
{
    let r = db_remove(db, key.as_str().as_bytes());
    r.is_ok()
}

/// Law: text stored under a key is what a later lookup of that key answers.
pub proof fn lemma_find_after_store(m: Map<Seq<u8>, Seq<u8>>, key: Seq<char>, text: Seq<char>)
    ensures
        find_spec(store_spec(m, key, text), key) == Ok::<Seq<char>, DatabaseError>(text),
{
    encode_utf8_valid_utf8(text);
    encode_utf8_decode_utf8(text);
}

/// Law: after a key is removed, a lookup of it answers "nope".
pub proof fn lemma_find_after_remove(m: Map<Seq<u8>, Seq<u8>>, key: Seq<char>)
    ensures
        find_spec(remove_spec(m, key), key) == Ok::<Seq<char>, DatabaseError>(nope_text()),
{
}

/// Law: storing under one key leaves the lookups of every other key as they were.
pub proof fn lemma_store_keeps_other_keys(
    m: Map<Seq<u8>, Seq<u8>>,
    key: Seq<char>,
    other: Seq<char>,
    text: Seq<char>,
)
    requires
        key != other,
    ensures
        find_spec(store_spec(m, key, text), other) == find_spec(m, other),
{
    encode_utf8_decode_utf8(key);
    encode_utf8_decode_utf8(other);
    assert(key_bytes(key) != key_bytes(other));
}

/// Law: removing one key leaves the lookups of every other key as they were.
pub proof fn lemma_remove_keeps_other_keys(m: Map<Seq<u8>, Seq<u8>>, key: Seq<char>, other: Seq<char>)
    requires
        key != other,
    ensures
        find_spec(remove_spec(m, key), other) == find_spec(m, other),
{
    encode_utf8_decode_utf8(key);
    encode_utf8_decode_utf8(other);
    assert(key_bytes(key) != key_bytes(other));
}

/// Where the cache lives: the path of its database.
pub struct Database {
    pub filelocation: String,
}

impl Default for Database {
    /// The cache kept in the default database file.
    fn default() -> (r: Database)
        ensures
            r.filelocation@ == "/tmp/database.db"@,
    {
        Database { filelocation: "/tmp/database.db".to_string() }
    }
}

/// What a database holding `m` holds under `key`, as bytes.
pub open spec fn stored_bytes(m: Map<Seq<u8>, Seq<u8>>, key: Seq<char>) -> Option<Seq<u8>> {
    if m.contains_key(key_bytes(key)) {
        Some(m[key_bytes(key)])
    } else {
        None
    }
}

/// Some bytes, by their view.
pub open spec fn bytes_view(o: Option<Vec<u8>>) -> Option<Seq<u8>> {
    match o {
        Some(v) => Some(v@),
        None => None,
    }
}

impl Database {
    /// Opens the cache database at `filelocation`. Refused when it cannot be opened.
    pub fn open(&self) -> (r: Result<CacheDb, DatabaseError>)
        ensures
            r matches Ok(d) ==> db_path(d) == self.filelocation@,
            r matches Err(e) ==> e == DatabaseError::Open,
    {
        match open_db(self.filelocation.as_str()) {
            Ok(db) => Ok(db),
            Err(_) => Err(DatabaseError::Open),
        }
    }

    /// Looks `findme` up in the cache: the stored text, or "nope" when nothing is stored
    /// (or reading fails). Refused when the database cannot be opened, or when the stored
    /// value is not UTF-8 text. Whenever the database opened, the answer is the one
    /// `find_spec` gives for what the database at `filelocation` holds under `findme`, or
    /// "nope" after a failed read.
    pub fn find(&mut self, findme: String) -> (r: Result<String, DatabaseError>)
        ensures
            *final(self) == *old(self),
            r matches Err(e) ==> e == DatabaseError::Open || e == DatabaseError::InvalidUtf8,
            !(r matches Err(DatabaseError::Open)) ==> exists|d: CacheDb|
                db_path(d) == old(self).filelocation@ && (text_result(r) == find_spec(db_contents(d), findme@)
                    || text_result(r) == Ok::<Seq<char>, DatabaseError>(nope_text())),
    {
        match self.open() {
            Ok(db) => {
                let r = find_in(&db, &findme);
                assert(db_path(db) == self.filelocation@);
                r
            },
            Err(e) => Err(e),
        }
    }

    /// The bytes stored under `entryid`, if any. Refused when the database cannot be opened
    /// or read. An answer is what the database at `filelocation` holds under `entryid`.
    pub fn get(self, entryid: String) -> (r: Result<Option<Vec<u8>>, DatabaseError>)
        ensures
            r matches Err(e) ==> e == DatabaseError::Open || e == DatabaseError::Read,
            r matches Ok(o) ==> exists|d: CacheDb|
                db_path(d) == self.filelocation@ && stored_bytes(db_contents(d), entryid@) == bytes_view(o),
    {
        match self.open() {
            Ok(db) => {
                let r = get_in(&db, &entryid);
                assert(db_path(db) == self.filelocation@);
                r
            },
            Err(e) => Err(e),
        }
    }

    /// Stores `text` under `entryid` in the database at `filelocation` and flushes it to
    /// disk. Answers `true` whether or not the write went through; refused only when the
    /// database cannot be opened.
    pub(crate) fn store_text(self, entryid: String, text: String) -> (r: Result<bool, DatabaseError>)
        ensures
            r == Ok::<bool, DatabaseError>(true) || r == Err::<bool, DatabaseError>(DatabaseError::Open),
            r is Ok ==> exists|d: CacheDb| db_path(d) == self.filelocation@,
    {
        match self.open() {
            Ok(db) => {
                let mut db = db;
                let _ = store_in(&mut db, &entryid, &text);
                Ok(true)
            },
            Err(e) => Err(e),
        }
    }

    /// Stores the document `data`, written as compact JSON text, under `entryid` in the
    /// database at `filelocation` and flushes it to disk. Answers `true` whether or not the
    /// write went through; refused only when the database cannot be opened.
    pub fn store(self, entryid: String, data: Json) -> (r: Result<bool, DatabaseError>)
        ensures
            r == Ok::<bool, DatabaseError>(true) || r == Err::<bool, DatabaseError>(DatabaseError::Open),
            r is Ok ==> exists|d: CacheDb| db_path(d) == self.filelocation@,
    {
        let text = json_to_text(&data);
        self.store_text(entryid, text)
    }

    /// Removes `fluff` from the database at `filelocation`. Answers `true` whether or not
    /// the removal went through; refused only when the database cannot be opened.
    pub fn remove(self, fluff: String) -> (r: Result<bool, DatabaseError>)
        ensures
            r == Ok::<bool, DatabaseError>(true) || r == Err::<bool, DatabaseError>(DatabaseError::Open),
            r is Ok ==> exists|d: CacheDb| db_path(d) == self.filelocation@,
    {
        match self.open() {
            Ok(db) => {
                let mut db = db;
                let _ = remove_in(&mut db, &fluff);
                Ok(true)
            },
            Err(e) => Err(e),
        }
    }

    /// The stored bytes `original` as text.
    pub fn ivec2string(self, original: Vec<u8>) -> (r: Result<String, std::io::Error>)
        requires
            valid_utf8(original@),
        ensures
            r matches Ok(s) && s@ == decode_utf8(original@),
    {
        match string_from_utf8(original) {
            Some(s) => Ok(s),
            None => {
                assert(false);
                Ok(String::new())
            },
        }
    }

    /// The first byte of the stored bytes `original`.
    pub fn ivvectou8(self, original: Vec<u8>) -> (r: Result<u8, std::io::Error>)
        requires
            original.len() > 0,
        ensures
            r matches Ok(b) && b == original@[0],
    {
        Ok(original[0])
    }
}

} // verus!
