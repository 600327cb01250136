//! Verified core of a cloud-storage client: error taxonomy and
//! classification, call-registry state machine, token-refresh
//! coordination, retry policy, folder-listing pagination, download
//! byte accounting, and the OAuth callback protocol.
//!
//! All network and file I/O lives outside this crate; the functions
//! here turn plain values (status codes, body bytes, parsed pages,
//! events) into decisions and state transitions, with contracts.

pub mod clouds;
pub mod error;
pub mod storage_models;
pub mod strutil;
pub mod dropbox;
pub mod call_messages;
pub mod call_states;
pub mod storage_instance;
pub mod storages;
pub mod http_server;
pub mod retry;
pub mod body_aggregator;
pub mod common_types;
pub mod config;
pub mod init;
