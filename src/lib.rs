//! Client-side core of a studio for a state-machine database.
//!
//! At its centre is resilient connection management: failures are
//! classified, each remote operation runs under a policy of at most one
//! reconnect and one retry, the current connection sits behind a handle that
//! only ever exposes a fully established session, and every failure reaches
//! the caller as a typed error. Around it stand the studio's own rules: the
//! validation of machine definitions, and the shaping of the remote service's
//! answers (WAL pages, instance histories, machine listings) read through a
//! JSON document model of the library's own.

pub mod classify;
pub mod error;
pub mod retry;
pub mod operations;
pub mod handle;
pub mod constants;
pub mod config;
pub mod assets;
pub mod wal;
pub mod instances;
pub mod machines;
pub mod server;
pub mod connect;
pub mod json;
pub mod validation;
