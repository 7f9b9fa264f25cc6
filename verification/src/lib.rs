//! Core of a live presence/event ingestion pipeline: a self-reconnecting
//! push-stream client that decodes typed friend-presence events from text
//! frames and merges them idempotently into a local user table.
//!
//! The crate is organised along the data path: `json` parses raw frame
//! bytes, `envelope` splits a frame into its `(type, content)` wrapper,
//! `events` maps the content onto typed events, `store` merges user
//! snapshots, `worker` drives one connection's frame loop, and
//! `supervisor` owns the reconnect/backoff state machine. `api_auth`,
//! `auth_flow`, `models`, `response` and `error` cover the
//! session-bootstrap decisions around the pipeline.

pub mod api_auth;
pub mod auth_flow;
pub mod envelope;
pub mod error;
pub mod events;
pub mod json;
pub mod models;
pub mod response;
pub mod store;
pub mod supervisor;
pub mod worker;
