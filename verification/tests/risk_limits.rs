use algotrader::config::RiskConfig;
use algotrader::db::models::StrategyState;
use algotrader::error::BotError;
use algotrader::fixed::SCALE;
use algotrader::risk::manager::{DailyStats, RiskManager, RiskMetrics, RiskStatus};

fn dec(x: f64) -> i64 {
    (x * SCALE as f64).round() as i64
}

fn create_test_config() -> RiskConfig {
    RiskConfig { max_daily_loss_pct: dec(2.0), max_total_exposure_pct: dec(50.0), emergency_stop_loss_pct: dec(5.0) }
}

#[test]
fn test_daily_loss_limit() {
    let mut manager = RiskManager::new(create_test_config(), 0);
    manager.initialize(dec(10000.0), 0).unwrap();

    // Simulate losses
    let result = manager.check_trade_allowed(0, dec(9800.0), dec(1000.0), dec(0.0));

    // Should still be allowed (2% loss == limit, not exceeding)
    assert!(result.is_ok());

    // Exceed the limit
    let result = manager.check_trade_allowed(0, dec(9700.0), dec(1000.0), dec(0.0));

    assert!(result.is_err());
}

#[test]
fn test_max_exposure() {
    let mut manager = RiskManager::new(create_test_config(), 0);
    manager.initialize(dec(10000.0), 0).unwrap();

    // 60% exposure should fail (limit is 50%)
    let result = manager.check_trade_allowed(0, dec(10000.0), dec(6000.0), dec(0.0));

    assert!(result.is_err());

    // 40% exposure should pass
    let result = manager.check_trade_allowed(0, dec(10000.0), dec(4000.0), dec(0.0));

    assert!(result.is_ok());
}

#[test]
fn trade_check_on_a_fixed_day() {
    let mut manager = RiskManager::new(create_test_config(), 0);
    manager.daily_stats = DailyStats::new(dec(10000.0), 100);
    // Allowed: counted, exposure recorded.
    assert!(manager.check_trade_allowed(100, dec(10000.0), dec(1000.0), dec(2000.0)).is_ok());
    assert_eq!(manager.daily_stats.trade_count, 1);
    assert_eq!(manager.daily_stats.total_exposure, dec(2000.0));
    // Refused for exposure: not counted, a non-retryable API error.
    let r = manager.check_trade_allowed(100, dec(10000.0), dec(4000.0), dec(2000.0));
    match r {
        Err(BotError::ApiError { retryable, .. }) => assert!(!retryable),
        _ => panic!("expected an API error"),
    }
    assert_eq!(manager.daily_stats.trade_count, 1);
    // Refused for the daily loss (3% > 2%): the loss streak counts the losing observation.
    assert!(manager.check_trade_allowed(100, dec(9700.0), dec(10.0), 0).is_err());
    assert_eq!(manager.daily_stats.total_pnl, dec(-300.0));
    assert_eq!(manager.daily_stats.loss_streak, 1);
    assert_eq!(manager.daily_stats.trade_count, 1);
}

#[test]
fn new_day_resets_statistics() {
    let mut manager = RiskManager::new(create_test_config(), 0);
    manager.daily_stats = DailyStats::new(dec(10000.0), 100);
    manager.record_trade(dec(-50.0));
    assert_eq!(manager.daily_stats.loss_streak, 1);
    // The next day starts from the observed balance, even after a large loss.
    assert!(manager.check_trade_allowed(101, dec(5000.0), dec(100.0), 0).is_ok());
    assert_eq!(manager.daily_stats.date, 101);
    assert_eq!(manager.daily_stats.starting_balance, dec(5000.0));
    assert_eq!(manager.daily_stats.total_pnl, 0);
    assert_eq!(manager.daily_stats.trade_count, 1);
    assert_eq!(manager.daily_stats.loss_streak, 0);
}

#[test]
fn zero_starting_balance_follows_ieee_reading() {
    // A loss against a zero starting balance is an infinite percentage: refused.
    let mut manager = RiskManager::new(create_test_config(), 0);
    manager.daily_stats = DailyStats::new(0, 7);
    assert!(manager.check_trade_allowed(7, dec(-1.0), 0, 0).is_err());
    // No P&L against zero is NaN, which exceeds nothing; the exposure of zero
    // against a zero balance is NaN too.
    let mut manager = RiskManager::new(create_test_config(), 0);
    manager.daily_stats = DailyStats::new(0, 7);
    assert!(manager.check_trade_allowed(7, 0, 0, 0).is_ok());
}

#[test]
fn record_trade_and_streaks() {
    let mut manager = RiskManager::new(create_test_config(), 0);
    manager.record_trade(dec(-1.0));
    manager.record_trade(dec(-1.0));
    assert_eq!(manager.daily_stats.loss_streak, 2);
    assert_eq!(manager.daily_stats.trade_count, 2);
    assert_eq!(manager.daily_stats.total_pnl, dec(-2.0));
    manager.record_trade(0);
    assert_eq!(manager.daily_stats.loss_streak, 0);
    manager.update_exposure(dec(123.0));
    assert_eq!(manager.daily_stats.total_exposure, dec(123.0));
}

#[test]
fn risk_metrics_figures() {
    let mut manager = RiskManager::new(create_test_config(), 0);
    manager.daily_stats = DailyStats::new(dec(10000.0), 3);
    manager.update_exposure(dec(10.0));
    let m = manager.get_risk_metrics(3, dec(9900.0));
    assert_eq!(m.daily_pnl, dec(-100.0));
    assert_eq!(m.daily_pnl_pct, dec(-1.0));
    assert_eq!(m.daily_loss_limit_pct, dec(2.0));
    assert_eq!(m.current_exposure, dec(10.0));
    // The exposure is compared with the limit figure as it stands (10 < 50).
    assert!(m.is_within_limits());
    manager.update_exposure(dec(1000.0));
    assert!(!manager.get_risk_metrics(3, dec(9900.0)).is_within_limits());
    let m = manager.get_risk_metrics(3, dec(9700.0));
    assert_eq!(m.daily_pnl_pct, dec(-3.0));
    assert!(!m.is_within_limits());
}

#[test]
fn metrics_limits_with_zero_exposure_limit() {
    let m = RiskMetrics {
        daily_pnl: 0,
        daily_pnl_pct: 0,
        daily_loss_limit_pct: dec(2.0),
        current_exposure: 0,
        max_exposure_pct: 0,
        trade_count: 0,
        loss_streak: 0,
    };
    // 0 / 0 is NaN, which is not below one.
    assert!(!m.is_within_limits());
    let m = RiskMetrics { current_exposure: dec(10.0), max_exposure_pct: dec(50.0), ..m };
    assert!(m.is_within_limits());
}

fn state_with(long: f64, long_avg: f64, realized: f64) -> StrategyState {
    let mut s = StrategyState::new("ETHUSDT".to_string());
    s.long_size = dec(long);
    s.long_avg_price = dec(long_avg);
    s.realized_pnl = dec(realized);
    s
}

#[test]
fn strategy_risk_statuses() {
    let manager = RiskManager::new(create_test_config(), 0);
    // Timed out.
    let mut s = state_with(1.0, 3000.0, 0.0);
    s.max_hold_until = Some(1_000);
    let st = manager.check_strategy_risk(2_000, &s, dec(3000.0), dec(1000.0)).unwrap();
    assert!(matches!(st, RiskStatus::ExitRequired { .. }));
    assert!(st.requires_exit() && !st.is_critical());
    // Loss of 50 on 1000 allocated = 5%: emergency exit.
    let s = state_with(1.0, 3000.0, 0.0);
    let st = manager.check_strategy_risk(0, &s, dec(2950.0), dec(1000.0)).unwrap();
    assert!(st.is_critical() && st.requires_exit());
    // Loss of 49: fine.
    let st = manager.check_strategy_risk(0, &s, dec(2951.0), dec(1000.0)).unwrap();
    assert!(matches!(st, RiskStatus::Normal));
    // Nothing allocated: no stop loss.
    let st = manager.check_strategy_risk(0, &s, dec(1.0), 0).unwrap();
    assert!(!st.requires_exit());
}

#[test]
fn hold_deadline_against_the_clock() {
    let mut s = StrategyState::new("ETHUSDT".to_string());
    assert!(!s.is_timed_out(0));
    s.max_hold_until = Some(1_000);
    assert!(s.is_timed_out(1_001));
    assert!(!s.is_timed_out(1_000));
}
