use tiered_kv::constants::{
    CONFIG_FILE, CUCKOO_FILTER_KEY, CUCKOO_FILTER_VALUE_ID, DB_KEY, DRUID_CHARSET,
    DRUID_CHARSET_LENGTH, DRUID_LENGTH, SETTINGS_BODY_LIMIT, SETTINGS_CACHE_TTL,
    SETTINGS_DB_USER, SETTINGS_EXTERN_PORT,
};
use tiered_kv::interfaces::{Asset, EnvConfig, GetRequestData, SetRequestData, Settings};

fn nothing() -> Settings {
    Settings {
        debug: None,
        extern_port: None,
        db_protocol: None,
        db_user: None,
        db_url: None,
        db_port: None,
        db_password: None,
        cache_url: None,
        cache_port: None,
        cache_password: None,
        body_limit: None,
        cache_ttl: None,
        market: None,
    }
}

#[test]
fn missing_options_take_their_defaults() {
    let config = EnvConfig::from_settings(&nothing());
    assert_eq!(
        config,
        EnvConfig {
            debug: false,
            extern_port: 8080,
            db_protocol: "mongodb".to_string(),
            db_user: "127.0.0.1".to_string(),
            db_url: "127.0.0.1".to_string(),
            db_port: "12701".to_string(),
            db_password: "example".to_string(),
            cache_url: "redis://127.0.0.1".to_string(),
            cache_port: "6379".to_string(),
            cache_password: "password".to_string(),
            body_limit: 4096,
            cache_ttl: 600,
            market: false,
        }
    );
}

#[test]
fn given_options_are_taken_as_they_are() {
    let settings = Settings {
        debug: Some(true),
        extern_port: Some(3000),
        db_protocol: Some("mongodb://".to_string()),
        db_user: Some("user".to_string()),
        db_url: Some("db.example".to_string()),
        db_port: Some("27017".to_string()),
        db_password: Some("secret".to_string()),
        cache_url: Some("redis://cache.example".to_string()),
        cache_port: Some("6380".to_string()),
        cache_password: Some("other".to_string()),
        body_limit: Some(1_000_000),
        cache_ttl: Some(30),
        market: Some(true),
    };
    let config = EnvConfig::from_settings(&settings);
    assert_eq!(
        config,
        EnvConfig {
            debug: true,
            extern_port: 3000,
            db_protocol: "mongodb://".to_string(),
            db_user: "user".to_string(),
            db_url: "db.example".to_string(),
            db_port: "27017".to_string(),
            db_password: "secret".to_string(),
            cache_url: "redis://cache.example".to_string(),
            cache_port: "6380".to_string(),
            cache_password: "other".to_string(),
            body_limit: 1_000_000,
            cache_ttl: 30,
            market: true,
        }
    );
}

#[test]
fn numbers_that_do_not_fit_keep_their_low_bits() {
    let mut settings = nothing();
    settings.extern_port = Some(70_000);
    settings.body_limit = Some(-1);
    settings.cache_ttl = Some(-1);
    let config = EnvConfig::from_settings(&settings);
    assert_eq!(config.extern_port, 4464);
    assert_eq!(config.body_limit, u64::MAX);
    assert_eq!(config.cache_ttl, usize::MAX);
    settings.extern_port = Some(-1);
    assert_eq!(EnvConfig::from_settings(&settings).extern_port, 65535);
    settings.extern_port = Some(65536);
    assert_eq!(EnvConfig::from_settings(&settings).extern_port, 0);
}

#[test]
fn the_endpoints_are_put_together() {
    let config = EnvConfig::from_settings(&nothing());
    assert_eq!(config.cache_addr(), "redis://127.0.0.1:6379");
    assert_eq!(config.db_addr(), "mongodb127.0.0.1:12701");
    let mut settings = nothing();
    settings.db_protocol = Some("mongodb://".to_string());
    settings.db_url = Some("db.example".to_string());
    settings.db_port = Some("27017".to_string());
    assert_eq!(EnvConfig::from_settings(&settings).db_addr(), "mongodb://db.example:27017");
}

#[test]
fn the_constants_have_their_values() {
    assert_eq!(CONFIG_FILE, "config.toml");
    assert_eq!(SETTINGS_EXTERN_PORT, 8080);
    assert_eq!(SETTINGS_DB_USER, "root");
    assert_eq!(SETTINGS_BODY_LIMIT, 4096);
    assert_eq!(SETTINGS_CACHE_TTL, 600);
    assert_eq!(DRUID_LENGTH, 16);
    assert_eq!(DRUID_CHARSET.len(), DRUID_CHARSET_LENGTH);
    assert_eq!(DB_KEY, "default");
    assert_eq!(CUCKOO_FILTER_KEY, "cuckoo_filter");
    assert_eq!(CUCKOO_FILTER_VALUE_ID, "cuckoo_filter_id");
}

#[test]
fn a_write_names_its_sub_id_or_takes_the_default() {
    let named = SetRequestData {
        address: "0x123".to_string(),
        data: "{\"Hello\":20}".to_string(),
        data_id: Some("id".to_string()),
    };
    assert_eq!(named.sub_id(), "id");
    let unnamed = SetRequestData { data_id: None, ..named.clone() };
    assert_eq!(unnamed.sub_id(), "default");
    let saved = named.to_save();
    assert_eq!(saved.address, "0x123");
    assert_eq!(saved.data, "{\"Hello\":20}");
}

#[test]
fn bodies_and_assets_are_plain_data() {
    let body = GetRequestData { address: "0x123".to_string() };
    assert_eq!(body.clone(), body);
    let asset = Asset {
        address: "0xabc".to_string(),
        name: "Token".to_string(),
        symbol: Some("TKN".to_string()),
        total_supply: 1_000,
        highest_bid: None,
        lowest_ask: Some("order".to_string()),
    };
    assert_eq!(asset.clone(), asset);
    assert_eq!(asset.total_supply, 1_000);
}
