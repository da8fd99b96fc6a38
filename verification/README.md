# powerelk

A caching proxy in front of an Elasticsearch index. Searches posted to `/search` are
answered from a cache kept in an embedded sled database when it holds the search, and
otherwise sent to the search engine, whose answer is stored in the cache.

- `src/` is the verified library: the JSON documents the proxy handles (`json`), the
  search requests (`elk`), the cache (`database`) and the decisions of the HTTP handlers
  (`proxy`).
- `app/` is the server: configuration, HTTP, the calls to the search engine, and the
  reading of JSON text into documents.
