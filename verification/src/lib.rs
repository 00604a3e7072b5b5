//! Verified core of a sharded record store: URL construction for shard calls,
//! the HTTP API's request checks and replies, the shard's query plans and its
//! startup sequence, and the process configuration.
pub mod text;
pub mod client;
pub mod data;
pub mod shard;
pub mod api;
pub mod startup;
pub mod config;
pub mod crud;
