//! A caching search proxy: the decisions of the HTTP front end, the cache kept in an
//! embedded key/value database, and the search requests sent to the search engine.
pub mod database;
pub mod elk;
pub mod json;
pub mod proxy;
