//! An authenticating read-through / write-through caching gateway in front
//! of remote blob stores: the verified core.

pub mod auth;
pub mod cache;
pub mod config;
pub mod handler;
pub mod inflight;
pub mod metrics;
pub mod store;
pub mod text;
