//! Selective replication of ledger-state events to a wide-column store.
//!
//! The library holds the event filters, the batching and ordering decisions of
//! the replication client, and the dispatcher that ties them together. The
//! backend connection itself is driven by the caller, which performs the
//! writes that the library hands out and reports how each one went.
pub mod accounts_selector;
pub mod accountsdb_plugin_bigtable;
pub mod client;
pub mod json;
pub mod text;
pub mod transaction_selector;
