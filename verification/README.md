# edgequake

The verified core of a document-ingestion and retrieval service: how
documents are split into chunks, how the extraction of entities is retried,
how model answers are read, what the graph queries say, and which status,
keys and messages a processed document gets.

Layout:

- `src/` — the library, written in Verus; every function carries its
  contract. All are proved except six small `external_body` wrappers
  around std, `regex` and `uuid` calls, whose contracts are trusted.
  - `modal`, `chunker`: splitting documents (modal regions, record
    separators, the adaptive chunking service's results) and placing chunks.
  - `extraction`: the retry state of one chunk's extraction.
  - `keywords`: the keyword prompt, locating and repairing JSON answers.
  - `sql`: the SQL of the graph scans, with escaping.
  - `ingest`, `ingest_run`, `upload`, `upload_run`, `document`, `graph`:
    the decisions and step sequences of the ingestion task and the upload,
    and of the document and graph endpoints.
  - `pipeline`, `workspace`, `state`, `documents`, `ids`: configuration,
    pipeline resolution, request types and identifiers.
- `tests/` — tests of the library on concrete values.
- `app/` — ordinary Rust around the library: JSON types, HTTP calls,
  settings from the environment, and the asynchronous loops.
