use craftpath::config::{economy_sources, effective_league, item_data_source, league_cache_dir, ConfigError, NumericSetting};

#[test]
fn test_config_error_message() {
    assert_eq!(ConfigError::Invalid(NumericSetting::JobTtlSecs).message(), "invalid JOB_TTL_SECS");
    assert_eq!(ConfigError::Invalid(NumericSetting::MaxRamLimitBytes).message(), "invalid MAX_RAM_LIMIT_BYTES");
}

#[test]
fn test_league_sources() {
    let dir = league_cache_dir("./cache", "Rise of/the Abyssal\\x");
    assert_eq!(dir, "./cache/Rise_of_the_Abyssal_x");
    assert_eq!(
        item_data_source("./cache"),
        (
            "./cache/coe2.json".to_string(),
            "https://www.craftofexile.com/json/poe2/main/poec_data.json".to_string()
        )
    );
    let s = economy_sources(&dir, "Standard");
    assert_eq!(s.len(), 4);
    assert_eq!(s[1].0, "./cache/Rise_of_the_Abyssal_x/pn_currency.json");
    assert_eq!(s[1].1, "https://poe.ninja/poe2/api/economy/exchange/current/overview?league=Standard&type=Currency");
    assert_eq!(s[3].0, "./cache/Rise_of_the_Abyssal_x/pn_ritual.json");
}

#[test]
fn test_effective_league() {
    assert_eq!(effective_league(None, "Standard"), "Standard");
    assert_eq!(effective_league(Some("  "), "Standard"), "Standard");
    assert_eq!(effective_league(Some("Dawn"), "Standard"), "Dawn");
}
