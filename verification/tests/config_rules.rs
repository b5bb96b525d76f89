use algotrader::config::{
    default_ema_timeframe, default_partial_exit_multipliers, default_partial_exit_percentages, AppConfig,
    ApiConfig, ApiCredentials, BotConfig, ConfigError, DatabaseConfig, DynaGridConfig, EntryConfig, EntryMode,
    ExitConfig, RiskConfig, StrategyConfig,
};
use algotrader::fixed::SCALE;

fn dec(x: f64) -> i64 {
    (x * SCALE as f64).round() as i64
}

fn valid_dynagrid() -> DynaGridConfig {
    DynaGridConfig {
        enabled: true,
        symbol: Some("ETHUSDT".to_string()),
        position_risk_percentage: Some(dec(0.02)),
        grid_range_pct: dec(2.0),
        position_sizing_factor: dec(1.5),
        max_grid_levels: 4,
        min_entry_interval_minutes: 60,
        max_hold_time_hours: 168,
        leverage: 5,
        exit: ExitConfig {
            partial_exit_enabled: true,
            partial_exit_levels: 3,
            partial_exit_percentages: vec![30, 30, 40],
            partial_exit_multipliers: vec![dec(1.0), dec(2.0), dec(3.5)],
        },
        entry: EntryConfig::default(),
    }
}

#[test]
fn test_exit_config_validation() {
    let valid_config = ExitConfig {
        partial_exit_enabled: true,
        partial_exit_levels: 3,
        partial_exit_percentages: vec![30, 30, 40],
        partial_exit_multipliers: vec![dec(1.0), dec(2.0), dec(3.5)],
    };
    assert!(valid_config.validate().is_ok());

    let invalid_sum = ExitConfig {
        partial_exit_enabled: true,
        partial_exit_levels: 3,
        partial_exit_percentages: vec![30, 30, 30], // Sum = 90
        partial_exit_multipliers: vec![dec(1.0), dec(2.0), dec(3.5)],
    };
    assert!(invalid_sum.validate().is_err());

    let mismatched_levels = ExitConfig {
        partial_exit_enabled: true,
        partial_exit_levels: 3,
        partial_exit_percentages: vec![30, 30, 40],
        partial_exit_multipliers: vec![dec(1.0), dec(2.0)], // Only 2 multipliers
    };
    assert!(mismatched_levels.validate().is_err());
}

#[test]
fn test_dynagrid_symbol_required() {
    let config = DynaGridConfig {
        enabled: true,
        symbol: None,
        position_risk_percentage: Some(dec(0.02)),
        grid_range_pct: dec(2.0),
        position_sizing_factor: dec(1.5),
        max_grid_levels: 4,
        min_entry_interval_minutes: 60,
        max_hold_time_hours: 168,
        leverage: 5,
        exit: ExitConfig::default(),
        entry: EntryConfig::default(),
    };
    assert!(config.validate().is_err());
}

#[test]
fn test_dynagrid_risk_percentage_required() {
    let config = DynaGridConfig {
        enabled: true,
        symbol: Some("ETHUSDT".to_string()),
        position_risk_percentage: None,
        grid_range_pct: dec(2.0),
        position_sizing_factor: dec(1.5),
        max_grid_levels: 4,
        min_entry_interval_minutes: 60,
        max_hold_time_hours: 168,
        leverage: 5,
        exit: ExitConfig::default(),
        entry: EntryConfig::default(),
    };
    assert!(config.validate().is_err());
}

#[test]
fn exit_config_errors_in_order() {
    let mut c = ExitConfig {
        partial_exit_enabled: true,
        partial_exit_levels: 6,
        partial_exit_percentages: vec![30, 30, 40],
        partial_exit_multipliers: vec![dec(1.0)],
    };
    assert_eq!(c.validate(), Err(ConfigError::PartialExitLevelsOutOfRange { levels: 6 }));
    c.partial_exit_levels = 1;
    assert_eq!(c.validate(), Err(ConfigError::PartialExitLevelsOutOfRange { levels: 1 }));
    c.partial_exit_levels = 2;
    assert_eq!(c.validate(), Err(ConfigError::PercentagesLengthMismatch { expected: 2, got: 3 }));
    c.partial_exit_levels = 3;
    assert_eq!(c.validate(), Err(ConfigError::MultipliersLengthMismatch { expected: 3, got: 1 }));
    c.partial_exit_multipliers = vec![dec(1.0), dec(2.0), dec(3.0)];
    c.partial_exit_percentages = vec![30, 30, 30];
    assert_eq!(c.validate(), Err(ConfigError::PercentagesDoNotSumTo100 { sum: 90 }));
    // No wrap-around: the sum is taken in full.
    c.partial_exit_percentages = vec![u32::MAX, 101, 0];
    assert_eq!(c.validate(), Err(ConfigError::PercentagesDoNotSumTo100 { sum: u32::MAX as u64 + 101 }));
}

#[test]
fn dynagrid_validation_each_rule() {
    assert!(valid_dynagrid().validate().is_ok());

    let mut c = valid_dynagrid();
    c.symbol = Some(String::new());
    assert_eq!(c.validate(), Err(ConfigError::EmptySymbol));

    let mut c = valid_dynagrid();
    c.position_risk_percentage = Some(dec(0.6));
    assert_eq!(c.validate(), Err(ConfigError::RiskPercentageOutOfRange { value: dec(0.6) }));
    c.position_risk_percentage = Some(dec(0.5));
    assert!(c.validate().is_ok());
    c.position_risk_percentage = Some(0);
    assert_eq!(c.validate(), Err(ConfigError::RiskPercentageOutOfRange { value: 0 }));

    let mut c = valid_dynagrid();
    c.grid_range_pct = dec(10.5);
    assert_eq!(c.validate(), Err(ConfigError::GridRangeOutOfRange { value: dec(10.5) }));

    let mut c = valid_dynagrid();
    c.position_sizing_factor = dec(1.05);
    assert_eq!(c.validate(), Err(ConfigError::SizingFactorOutOfRange { value: dec(1.05) }));
    c.position_sizing_factor = dec(1.1);
    assert!(c.validate().is_ok());

    let mut c = valid_dynagrid();
    c.max_grid_levels = 11;
    assert_eq!(c.validate(), Err(ConfigError::MaxGridLevelsOutOfRange { value: 11 }));

    let mut c = valid_dynagrid();
    c.leverage = 0;
    assert_eq!(c.validate(), Err(ConfigError::LeverageOutOfRange { value: 0 }));

    let mut c = valid_dynagrid();
    c.entry.ema_candles = 4;
    assert_eq!(c.validate(), Err(ConfigError::EmaCandlesOutOfRange { value: 4 }));

    let mut c = valid_dynagrid();
    c.entry.ema_timeframe = "30".to_string();
    assert_eq!(c.validate(), Err(ConfigError::InvalidEmaTimeframe { value: "30".to_string() }));
    c.entry.ema_timeframe = "240".to_string();
    assert!(c.validate().is_ok());
}

#[test]
fn defaults_match_documentation() {
    let e = EntryConfig::default();
    assert_eq!(e.mode, EntryMode::Immediate);
    assert_eq!(e.ema_candles, 20);
    assert_eq!(e.ema_timeframe, "15");
    assert!(e.ema_fallback);
    assert_eq!(default_ema_timeframe(), "15");
    assert_eq!(default_partial_exit_percentages(), vec![30, 30, 40]);
    assert_eq!(default_partial_exit_multipliers(), vec![dec(1.0), dec(2.0), dec(3.5)]);
    let r = RiskConfig::default();
    assert_eq!(r.max_daily_loss_pct, 0);
    let d = DynaGridConfig::default();
    assert!(!d.enabled);
    assert!(d.symbol.is_none());
    assert_eq!(valid_dynagrid().symbol(), "ETHUSDT");
    assert_eq!(valid_dynagrid().risk_percentage(), dec(0.02));
}

fn creds(key: &str, secret: &str) -> ApiCredentials {
    ApiCredentials {
        key: key.to_string(),
        secret: secret.to_string(),
        base_url: "https://api-test.bybit.com".to_string(),
        ws_url: None,
        rate_limit_requests: 50,
        rate_limit_window_ms: 1000,
    }
}

fn app(production: ApiCredentials, demo: ApiCredentials, dynagrid: DynaGridConfig) -> AppConfig {
    AppConfig {
        bot: BotConfig {
            name: "bot".to_string(),
            version: "1".to_string(),
            log_level: "info".to_string(),
            data_dir: "data".to_string(),
        },
        api: ApiConfig { production, demo },
        database: DatabaseConfig {
            path: "bot.db".to_string(),
            backup_enabled: true,
            backup_interval_hours: 24,
            backup_retention_days: 30,
        },
        risk: RiskConfig::default(),
        strategy: StrategyConfig { dynagrid },
    }
}

#[test]
fn app_config_requires_credentials() {
    let ok = app(creds("k", "s"), creds("k", "s"), valid_dynagrid());
    assert!(ok.validate().is_ok());
    let no_prod = app(creds("", "s"), creds("k", "s"), valid_dynagrid());
    assert_eq!(no_prod.validate(), Err(ConfigError::MissingProductionCredentials));
    let no_demo = app(creds("k", "s"), creds("k", ""), valid_dynagrid());
    assert_eq!(no_demo.validate(), Err(ConfigError::MissingDemoCredentials));
    let mut disabled = valid_dynagrid();
    disabled.enabled = false;
    disabled.grid_range_pct = 0;
    assert!(app(creds("k", "s"), creds("k", "s"), disabled.clone()).validate().is_ok());
    disabled.symbol = Some(String::new());
    assert_eq!(app(creds("k", "s"), creds("k", "s"), disabled.clone()).validate(), Err(ConfigError::EmptySymbol));
    disabled.symbol = None;
    assert_eq!(app(creds("k", "s"), creds("k", "s"), disabled).validate(), Err(ConfigError::MissingSymbol));
}
