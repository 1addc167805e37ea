//! Relevance core for a sharded full-text search deployment.
//!
//! The library computes globally correct BM25 bookkeeping for a document
//! collection split across independently built index partitions, and adapts
//! pre-segmented text into the incremental token representation a search
//! engine's analyzer pipeline expects.  Ranking itself is delegated to the
//! `tantivy` engine; every decision around it — merging shard statistics,
//! scanning the schema for the single indexed text field, deduplicating
//! query terms, applying the row-liveness filter and the result cap — is
//! verified here.

pub mod errors;
pub mod stats;
pub mod stream;
pub mod rank;
pub mod engine;
pub mod search;
