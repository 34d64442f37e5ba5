//! An in-memory ledger indexer core: normalized entities for blocks,
//! transactions and accounts, a serialized-access query store with
//! tolerant (retrying) reads, and the decision logic of the ingestion
//! pipeline that classifies fetch failures and extracts entities from
//! raw feed data.

pub mod account;
pub mod api;
pub mod block;
pub mod ingest;
pub mod store;
pub mod transaction;
