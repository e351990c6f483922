//! The server's identity, health and readiness.

use vstd::prelude::*;
use crate::json::{Json, ValueExt, array_of, index_of, str_of, strs_of, u64_of};

verus! {

#[derive(Debug)]
pub struct ServerInfoResponse {
    pub studio_version: String,
    pub rstmdb: RstmdbInfo,
}

#[derive(Debug)]
pub struct RstmdbInfo {
    pub connected: bool,
    pub server_name: String,
    pub server_version: String,
    pub protocol_version: u32,
    pub features: Vec<String>,
}

impl RstmdbInfo {
    /// The server identity as reported, with `"rstmdb"`, `"unknown"` and
    /// protocol 1 standing in for what the answer leaves out.
    pub fn from_info(info: &Json) -> (r: RstmdbInfo)
        ensures
            r.connected,
            r.server_name@ == match str_of(index_of(*info, "server_name"@)) {
                Some(t) => t,
                None => "rstmdb"@,
            },
            r.server_version@ == match str_of(index_of(*info, "server_version"@)) {
                Some(t) => t,
                None => "unknown"@,
            },
            r.protocol_version == match u64_of(index_of(*info, "protocol_version"@)) {
                Some(n) => n as u32,
                None => 1u32,
            },
            r.features@.map_values(|t: String| t@) == match array_of(index_of(*info, "features"@)) {
                Some(items) => strs_of(items),
                None => Seq::<Seq<char>>::empty(),
            },
    {
        let server_name = match info.str_opt("server_name") {
            Some(t) => t,
            None => String::from_str("rstmdb"),
        };
        let server_version = match info.str_opt("server_version") {
            Some(t) => t,
            None => String::from_str("unknown"),
        };
        RstmdbInfo {
            connected: true,
            server_name,
            server_version,
            protocol_version: info.u32_or("protocol_version", 1),
            features: info.string_array("features"),
        }
    }
}

#[derive(Debug)]
pub struct HealthResponse {
    pub status: String,
    pub rstmdb_connected: bool,
    pub latency_ms: u64,
}

impl HealthResponse {
    /// The health report after a liveness ping that did or did not succeed.
    pub fn from_ping(connected: bool, latency_ms: u64) -> (r: HealthResponse)
        ensures
            r.status@ == (if connected { "healthy"@ } else { "unhealthy"@ }),
            r.rstmdb_connected == connected,
            r.latency_ms == latency_ms,
    {
        let status = if connected {
            String::from_str("healthy")
        } else {
            String::from_str("unhealthy")
        };
        HealthResponse { status, rstmdb_connected: connected, latency_ms }
    }
}

/// The readiness probe's status: ready only while the remote service answers.
pub fn readiness_status(connected: bool) -> (r: u16)
    ensures
        r == (if connected { 200u16 } else { 503u16 }),
{
    if connected {
        200
    } else {
        503
    }
}

} // verus!
