//! Verified core of a live-statistics server.
//!
//! The crate models the logic of a service that follows a set of live
//! counters in a document database, smooths bursts of out-of-order
//! notifications, mirrors the smoothed values into a shared cache, and
//! broadcasts JSON snapshots of the cached values to websocket clients.
//! Everything that computes or decides lives here, verified; the
//! surrounding I/O (database sessions, cache commands, sockets) is left
//! to the embedding binary, which feeds plain values in and carries the
//! requested actions out.

pub mod cache;
pub mod config;
pub mod database;
pub mod decimal;
pub mod statistics;
pub mod stream;
pub mod updater;
pub mod websocket;
