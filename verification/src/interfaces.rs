//! The bodies of requests and the settings of a node.

use vstd::prelude::*;
use vstd::string::*;

use crate::constants::{
    DB_KEY, SETTINGS_BODY_LIMIT, SETTINGS_CACHE_PASSWORD, SETTINGS_CACHE_PORT, SETTINGS_CACHE_TTL,
    SETTINGS_CACHE_URL, SETTINGS_DB_PASSWORD, SETTINGS_DB_PORT, SETTINGS_DB_PROTOCOL,
    SETTINGS_DB_URL, SETTINGS_DEBUG, SETTINGS_EXTERN_PORT,
};

verus! {

/// The body of a read.
#[derive(Debug, Clone, PartialEq, Eq)]
pub struct GetRequestData {
    pub address: String,
}

/// The body of a write. `data` is the text of a JSON document.
#[derive(Debug, Clone, PartialEq, Eq)]
pub struct SetRequestData {
    pub address: String,
    pub data: String,
    pub data_id: Option<String>,
}

impl SetRequestData {
    /// The sub-id that the write files its record under: the one it names,
    /// or the default.
    pub open spec fn sub_id_spec(&self) -> Seq<char> {
        match self.data_id {
            Some(sub_id) => sub_id@,
            None => DB_KEY@,
        }
    }

    /// The sub-id that the write files its record under.
    pub fn sub_id(&self) -> (sub_id: String)
        ensures
            sub_id@ == self.sub_id_spec(),
    {
        match &self.data_id {
            Some(sub_id) => sub_id.clone(),
            None => String::from_str(DB_KEY),
        }
    }

    /// The record as it is stored.
    pub fn to_save(&self) -> (saved: SetSaveData)
        ensures
            saved.address@ == self.address@,
            saved.data@ == self.data@,
    {
        SetSaveData { address: self.address.clone(), data: self.data.clone() }
    }
}

/// A record with the address that it belongs to.
#[derive(Debug, Clone, PartialEq, Eq)]
pub struct SetSaveData {
    pub address: String,
    pub data: String,
}

/// An asset that is listed for trade.
#[derive(Debug, Clone, PartialEq, Eq)]
pub struct Asset {
    pub address: String,
    pub name: String,
    pub symbol: Option<String>,
    pub total_supply: u64,
    pub highest_bid: Option<String>,
    pub lowest_ask: Option<String>,
}

/// The options as the configuration file holds them: each is there or not.
#[derive(Debug, Clone, PartialEq, Eq)]
pub struct Settings {
    pub debug: Option<bool>,
    pub extern_port: Option<i64>,
    pub db_protocol: Option<String>,
    pub db_user: Option<String>,
    pub db_url: Option<String>,
    pub db_port: Option<String>,
    pub db_password: Option<String>,
    pub cache_url: Option<String>,
    pub cache_port: Option<String>,
    pub cache_password: Option<String>,
    pub body_limit: Option<i64>,
    pub cache_ttl: Option<i64>,
    pub market: Option<bool>,
}

/// The settings of a node.
#[derive(Debug, Clone, PartialEq, Eq)]
pub struct EnvConfig {
    /// Verbose tracing.
    pub debug: bool,
    /// The port that the node listens on.
    pub extern_port: u16,
    pub db_protocol: String,
    pub db_user: String,
    pub db_url: String,
    pub db_port: String,
    pub db_password: String,
    pub cache_url: String,
    pub cache_port: String,
    pub cache_password: String,
    /// Largest body of a write, in bytes.
    pub body_limit: u64,
    /// Seconds that the cache keeps an address after a write.
    pub cache_ttl: usize,
    pub market: bool,
}

/// The text of an option, or its default.
pub open spec fn text_or(given: Option<String>, default: Seq<char>) -> Seq<char> {
    match given {
        Some(text) => text@,
        None => default,
    }
}

/// The number of an option, or its default.
pub open spec fn number_or(given: Option<i64>, default: i64) -> i64 {
    match given {
        Some(number) => number,
        None => default,
    }
}

/// The text of an option, or its default.
fn take_text(given: &Option<String>, default: &str) -> (text: String)
    ensures
        text@ == text_or(*given, default@),
{
    match given {
        Some(text) => text.clone(),
        None => String::from_str(default),
    }
}

/// The number of an option, or its default.
fn take_number(given: Option<i64>, default: i64) -> (number: i64)
    ensures
        number == number_or(given, default),
{
    match given {
        Some(number) => number,
        None => default,
    }
}

impl EnvConfig {
    /// Settles every option: what the file holds, or the default. A number
    /// that does not fit its option keeps its low bits, as a cast does. A
    /// missing user falls back to the default of the database's host.
    pub fn from_settings(settings: &Settings) -> (config: Self)
        ensures
            config.debug == match settings.debug {
                Some(flag) => flag,
                None => SETTINGS_DEBUG,
            },
            config.extern_port == number_or(settings.extern_port, SETTINGS_EXTERN_PORT as i64) as u16,
            config.db_url@ == text_or(settings.db_url, SETTINGS_DB_URL@),
            config.db_user@ == text_or(settings.db_user, SETTINGS_DB_URL@),
            config.db_protocol@ == text_or(settings.db_protocol, SETTINGS_DB_PROTOCOL@),
            config.db_port@ == text_or(settings.db_port, SETTINGS_DB_PORT@),
            config.db_password@ == text_or(settings.db_password, SETTINGS_DB_PASSWORD@),
            config.cache_url@ == text_or(settings.cache_url, SETTINGS_CACHE_URL@),
            config.cache_port@ == text_or(settings.cache_port, SETTINGS_CACHE_PORT@),
            config.cache_password@ == text_or(settings.cache_password, SETTINGS_CACHE_PASSWORD@),
            config.body_limit == number_or(settings.body_limit, SETTINGS_BODY_LIMIT as i64) as u64,
            config.cache_ttl == number_or(settings.cache_ttl, SETTINGS_CACHE_TTL as i64) as usize,
            config.market == match settings.market {
                Some(flag) => flag,
                None => false,
            },
    {
        EnvConfig {
            debug: match settings.debug {
                Some(flag) => flag,
                None => SETTINGS_DEBUG,
            },
            extern_port: #[verifier::truncate]
            (take_number(settings.extern_port, SETTINGS_EXTERN_PORT as i64) as u16),
            db_url: take_text(&settings.db_url, SETTINGS_DB_URL),
            db_user: take_text(&settings.db_user, SETTINGS_DB_URL),
            db_protocol: take_text(&settings.db_protocol, SETTINGS_DB_PROTOCOL),
            db_port: take_text(&settings.db_port, SETTINGS_DB_PORT),
            db_password: take_text(&settings.db_password, SETTINGS_DB_PASSWORD),
            cache_url: take_text(&settings.cache_url, SETTINGS_CACHE_URL),
            cache_port: take_text(&settings.cache_port, SETTINGS_CACHE_PORT),
            cache_password: take_text(&settings.cache_password, SETTINGS_CACHE_PASSWORD),
            body_limit: #[verifier::truncate]
            (take_number(settings.body_limit, SETTINGS_BODY_LIMIT as i64) as u64),
            cache_ttl: #[verifier::truncate]
            (take_number(settings.cache_ttl, SETTINGS_CACHE_TTL as i64) as usize),
            market: match settings.market {
                Some(flag) => flag,
                None => false,
            },
        }
    }

    /// The endpoint of the cache: its URL, a colon and its port.
    pub fn cache_addr(&self) -> (addr: String)
        ensures
            addr@ == self.cache_url@ + ":"@ + self.cache_port@,
    {
        let mut addr = self.cache_url.clone();
        addr.append(":");
        addr.append(self.cache_port.as_str());
        addr
    }

    /// The endpoint of the durable tier: the protocol, the host, a colon
    /// and the port.
    pub fn db_addr(&self) -> (addr: String)
        ensures
            addr@ == self.db_protocol@ + self.db_url@ + ":"@ + self.db_port@,
    {
        let mut addr = self.db_protocol.clone();
        addr.append(self.db_url.as_str());
        addr.append(":");
        addr.append(self.db_port.as_str());
        addr
    }
}

} // verus!
