//! Configuration: the remote endpoint, credentials and server settings, with
//! their defaults.

use vstd::prelude::*;
use crate::constants::{
    DEFAULT_ADDRESS, DEFAULT_DATA_DIR, DEFAULT_HOST, DEFAULT_LOCKOUT_ATTEMPTS,
    DEFAULT_LOCKOUT_DURATION, DEFAULT_PORT, DEFAULT_SESSION_IDLE_TIMEOUT,
    DEFAULT_SESSION_MAX_LIFETIME,
};

verus! {

#[derive(Debug, Clone)]
pub struct Config {
    pub server: ServerConfig,
    pub rstmdb: RstmdbConfig,
    pub auth: AuthConfig,
    pub data_dir: String,
}

#[derive(Debug, Clone)]
pub struct ServerConfig {
    pub host: String,
    pub port: u16,
    pub tls: TlsConfig,
}

#[derive(Debug, Clone)]
pub struct TlsConfig {
    pub enabled: bool,
    pub cert_path: Option<String>,
    pub key_path: Option<String>,
}

/// Where and as whom the remote service is reached.
#[derive(Debug, Clone)]
pub struct RstmdbConfig {
    /// `host:port` of the remote service.
    pub address: String,
    /// Bearer credential presented during the handshake, if any.
    pub token: Option<String>,
    pub tls: RstmdbTlsConfig,
}

#[derive(Debug, Clone)]
pub struct RstmdbTlsConfig {
    pub enabled: bool,
    pub ca_cert_path: Option<String>,
    pub insecure: bool,
}

#[derive(Debug, Clone)]
pub struct AuthConfig {
    pub session_idle_timeout: String,
    pub session_max_lifetime: String,
    pub lockout_attempts: u32,
    pub lockout_duration: String,
}

impl Default for TlsConfig {
    fn default() -> (r: TlsConfig)
        ensures
            !r.enabled,
            r.cert_path is None,
            r.key_path is None,
    {
        TlsConfig { enabled: false, cert_path: None, key_path: None }
    }
}

impl Default for RstmdbTlsConfig {
    fn default() -> (r: RstmdbTlsConfig)
        ensures
            !r.enabled,
            r.ca_cert_path is None,
            !r.insecure,
    {
        RstmdbTlsConfig { enabled: false, ca_cert_path: None, insecure: false }
    }
}

pub fn default_session_idle_timeout() -> (r: String)
    ensures
        r@ == "2h"@,
{
    String::from_str(DEFAULT_SESSION_IDLE_TIMEOUT)
}

pub fn default_session_max_lifetime() -> (r: String)
    ensures
        r@ == "24h"@,
{
    String::from_str(DEFAULT_SESSION_MAX_LIFETIME)
}

pub fn default_lockout_attempts() -> (r: u32)
    ensures
        r == 10,
{
    DEFAULT_LOCKOUT_ATTEMPTS
}

pub fn default_lockout_duration() -> (r: String)
    ensures
        r@ == "5m"@,
{
    String::from_str(DEFAULT_LOCKOUT_DURATION)
}

impl AuthConfig {
    /// The settings that stand where a source gives none.
    pub fn with_defaults() -> (r: AuthConfig)
        ensures
            r.session_idle_timeout@ == "2h"@,
            r.session_max_lifetime@ == "24h"@,
            r.lockout_attempts == 10,
            r.lockout_duration@ == "5m"@,
    {
        AuthConfig {
            session_idle_timeout: default_session_idle_timeout(),
            session_max_lifetime: default_session_max_lifetime(),
            lockout_attempts: default_lockout_attempts(),
            lockout_duration: default_lockout_duration(),
        }
    }
}

/// `c` holds the built-in defaults.
pub open spec fn is_default_config(c: Config) -> bool {
    &&& c.server.host@ == "0.0.0.0"@
    &&& c.server.port == 8080
    &&& !c.server.tls.enabled && c.server.tls.cert_path is None && c.server.tls.key_path is None
    &&& c.rstmdb.address@ == "127.0.0.1:7401"@
    &&& c.rstmdb.token is None
    &&& !c.rstmdb.tls.enabled && c.rstmdb.tls.ca_cert_path is None && !c.rstmdb.tls.insecure
    &&& c.auth.session_idle_timeout@ == "2h"@
    &&& c.auth.session_max_lifetime@ == "24h"@
    &&& c.auth.lockout_attempts == 10
    &&& c.auth.lockout_duration@ == "5m"@
    &&& c.data_dir@ == "~/.rstmdb-studio"@
}

impl Default for Config {
    fn default() -> (r: Config)
        ensures
            is_default_config(r),
    {
        Config {
            server: ServerConfig {
                host: String::from_str(DEFAULT_HOST),
                port: DEFAULT_PORT,
                tls: TlsConfig::default(),
            },
            rstmdb: RstmdbConfig {
                address: String::from_str(DEFAULT_ADDRESS),
                token: None,
                tls: RstmdbTlsConfig::default(),
            },
            auth: AuthConfig::with_defaults(),
            data_dir: String::from_str(DEFAULT_DATA_DIR),
        }
    }
}

impl Config {
    /// The defaults with the command line's settings laid over them: its
    /// host, port, address and credential replace the defaults.
    pub fn with_overrides(host: &str, port: u16, rstmdb_addr: &str, rstmdb_token: Option<String>) -> (r: Config)
        ensures
            r.server.host@ == host@,
            r.server.port == port,
            !r.server.tls.enabled && r.server.tls.cert_path is None && r.server.tls.key_path is None,
            r.rstmdb.address@ == rstmdb_addr@,
            r.rstmdb.token == rstmdb_token,
            !r.rstmdb.tls.enabled && r.rstmdb.tls.ca_cert_path is None && !r.rstmdb.tls.insecure,
            r.auth.session_idle_timeout@ == "2h"@,
            r.auth.session_max_lifetime@ == "24h"@,
            r.auth.lockout_attempts == 10,
            r.auth.lockout_duration@ == "5m"@,
            r.data_dir@ == "~/.rstmdb-studio"@,
    {
        let d = Config::default();
        Config {
            server: ServerConfig {
                host: String::from_str(host),
                port,
                tls: TlsConfig::default(),
            },
            rstmdb: RstmdbConfig {
                address: String::from_str(rstmdb_addr),
                token: rstmdb_token,
                tls: RstmdbTlsConfig::default(),
            },
            auth: d.auth,
            data_dir: d.data_dir,
        }
    }
}

} // verus!
