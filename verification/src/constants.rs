//! Names and defaults that the rest of the crate refers to.

use vstd::prelude::*;

verus! {

/// Name of the configuration file.
pub const CONFIG_FILE: &'static str = "config.toml";

pub const SETTINGS_DEBUG: bool = false;

pub const SETTINGS_EXTERN_PORT: u16 = 8080;

pub const SETTINGS_DB_PROTOCOL: &'static str = "mongodb";

pub const SETTINGS_DB_URL: &'static str = "127.0.0.1";

pub const SETTINGS_DB_PORT: &'static str = "12701";

pub const SETTINGS_DB_USER: &'static str = "root";

pub const SETTINGS_DB_PASSWORD: &'static str = "example";

pub const SETTINGS_CACHE_URL: &'static str = "redis://127.0.0.1";

pub const SETTINGS_CACHE_PORT: &'static str = "6379";

pub const SETTINGS_CACHE_PASSWORD: &'static str = "password";

/// Largest body of a write, in bytes.
pub const SETTINGS_BODY_LIMIT: u64 = 4096;

/// Seconds that the cache keeps an address after a write.
pub const SETTINGS_CACHE_TTL: u64 = 600;

/// The characters that a unique identifier is drawn from.
pub const DRUID_CHARSET: &'static str =
    "ABCDEFGHIJKLMNOPQRSTUVWXYZabcdefghijklmnopqrstuvwxyz0123456789";

/// Number of characters in [`DRUID_CHARSET`].
pub const DRUID_CHARSET_LENGTH: usize = 62;

/// Number of characters of a unique identifier.
pub const DRUID_LENGTH: usize = 16;

/// Name of the database and of the collection that are used where none is
/// given, and the sub-id that is used where a write names none.
pub const DB_KEY: &'static str = "default";

/// The address under which the snapshot of the existence filter is kept.
pub const CUCKOO_FILTER_KEY: &'static str = "cuckoo_filter";

/// The sub-id under which the snapshot of the existence filter is kept.
pub const CUCKOO_FILTER_VALUE_ID: &'static str = "cuckoo_filter_id";

} // verus!
