//! Configuration validation and settings-utility tests.

use cross_exchange_arbitrage::config::settings::{ConfigValidator, EnvExpander};
use cross_exchange_arbitrage::config::ArbitrageConfig;
use cross_exchange_arbitrage::amounts::SCALE;

#[test]
fn test_default_config_validation() {
    let config = ArbitrageConfig::default();
    assert!(config.validate().is_ok());
}

#[test]
fn test_invalid_config_validation() {
    let mut config = ArbitrageConfig::default();
    config.strategy.min_spread_bps = 0;

    assert!(config.validate().is_err());
}

#[test]
fn test_env_expansion() {
    let vars: Vec<(String, String)> = vec![("TEST_VAR".to_string(), "test_value".to_string())];

    let input = "prefix_${TEST_VAR}_suffix";
    let result = EnvExpander::expand(input, &vars).unwrap();
    assert_eq!(result, "prefix_test_value_suffix");
}

#[test]
fn test_env_expansion_missing_var() {
    let vars: Vec<(String, String)> = Vec::new();
    let input = "prefix_${MISSING_VAR}_suffix";
    let result = EnvExpander::expand(input, &vars);
    assert!(result.is_err());
}

#[test]
fn test_env_expansion_unclosed() {
    let vars: Vec<(String, String)> = vec![("A".to_string(), "x".to_string())];
    let result = EnvExpander::expand("broken_${A", &vars);
    assert!(result.is_err());
}

#[test]
fn test_env_expansion_map() {
    let vars: Vec<(String, String)> = vec![("HOST".to_string(), "example.com".to_string())];
    let mut map: Vec<(String, String)> = vec![
        ("url".to_string(), "wss://${HOST}/stream".to_string()),
        ("plain".to_string(), "unchanged".to_string()),
    ];
    EnvExpander::expand_map(&mut map, &vars).unwrap();
    assert_eq!(map[0].1, "wss://example.com/stream");
    assert_eq!(map[1].1, "unchanged");
}

#[test]
fn test_symbol_validation() {
    assert!(ConfigValidator::validate_symbol("BTCUSDT").is_ok());
    assert!(ConfigValidator::validate_symbol("").is_err());
    assert!(ConfigValidator::validate_symbol("BTC-USDT").is_err());
}

#[test]
fn test_percentage_validation() {
    assert!(ConfigValidator::validate_percentage(SCALE / 2, "test").is_ok());
    assert!(ConfigValidator::validate_percentage(0, "test").is_ok());
    assert!(ConfigValidator::validate_percentage(SCALE, "test").is_ok());
    assert!(ConfigValidator::validate_percentage(SCALE + SCALE / 10, "test").is_err());
}

#[test]
fn test_positive_validation() {
    assert!(ConfigValidator::validate_positive(SCALE, "test").is_ok());
    assert!(ConfigValidator::validate_positive(SCALE / 10, "test").is_ok());
    assert!(ConfigValidator::validate_positive(0, "test").is_err());
}

#[test]
fn test_url_validation() {
    assert!(ConfigValidator::validate_url("https://api.example.com", "test").is_ok());
    assert!(ConfigValidator::validate_url("wss://stream.example.com", "test").is_ok());
    assert!(ConfigValidator::validate_url("", "test").is_err());
    assert!(ConfigValidator::validate_url("invalid-url", "test").is_err());
}

#[test]
fn test_config_error_variant() {
    let mut config = ArbitrageConfig::default();
    config.strategy.symbol = String::new();
    match config.validate() {
        Err(e) => assert!(e.is_config()),
        Ok(()) => panic!("empty symbol must be rejected"),
    }
}
