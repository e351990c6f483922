//! Default values and fixed names.

use vstd::prelude::*;

verus! {

/// Default number of WAL entries per page.
pub const WAL_DEFAULT_PAGE_SIZE: u64 = 50;

/// Largest number of WAL entries read in one request.
pub const WAL_MAX_PAGE_SIZE: u64 = 1000;

/// Most WAL entries scanned for one instance's history.
pub const HISTORY_MAX_WAL_SCAN: u64 = 10000;

pub const DEFAULT_HOST: &'static str = "0.0.0.0";

pub const DEFAULT_PORT: u16 = 8080;

/// Where the remote service is reached by default.
pub const DEFAULT_ADDRESS: &'static str = "127.0.0.1:7401";

/// The identity presented during the handshake.
pub const CLIENT_NAME: &'static str = "rstmdb-studio";

pub const DEFAULT_SESSION_IDLE_TIMEOUT: &'static str = "2h";

pub const DEFAULT_SESSION_MAX_LIFETIME: &'static str = "24h";

pub const DEFAULT_LOCKOUT_ATTEMPTS: u32 = 10;

pub const DEFAULT_LOCKOUT_DURATION: &'static str = "5m";

pub const DEFAULT_DATA_DIR: &'static str = "~/.rstmdb-studio";

} // verus!
