//! What a connect or reconnect presents to the remote service, and the
//! errors by which it fails. A failed connect is never retried here.

use vstd::prelude::*;
use crate::config::RstmdbConfig;
use crate::constants::CLIENT_NAME;
use crate::error::{ApiError, is_error};

verus! {

/// The identity and credential presented during the handshake.
#[derive(Debug)]
pub struct HandshakeSettings {
    pub client_name: String,
    pub token: Option<String>,
}

/// The handshake settings for a configured endpoint: this client's fixed
/// identity, and the configured bearer credential if there is one.
pub fn handshake_settings(cfg: &RstmdbConfig) -> (r: HandshakeSettings)
    ensures
        r.client_name@ == "rstmdb-studio"@,
        r.token == cfg.token,
{
    let token = match &cfg.token {
        Some(t) => Some(t.clone()),
        None => None,
    };
    HandshakeSettings { client_name: String::from_str(CLIENT_NAME), token }
}

/// The endpoint's address could not be read; `detail` says why.
pub fn invalid_address(detail: &str) -> (r: ApiError)
    ensures
        is_error(r, "BAD_REQUEST"@, "Invalid rstmdb address: "@ + detail@),
{
    let mut m = String::from_str("Invalid rstmdb address: ");
    m.append(detail);
    ApiError::bad_request(m.as_str())
}

/// The endpoint could not be reached or rejected the handshake; `detail` says
/// why.
pub fn connect_failure(detail: &str) -> (r: ApiError)
    ensures
        is_error(r, "RSTMDB_ERROR"@, "Failed to connect to rstmdb: "@ + detail@),
{
    let mut m = String::from_str("Failed to connect to rstmdb: ");
    m.append(detail);
    ApiError::rstmdb_error(m.as_str())
}

} // verus!
