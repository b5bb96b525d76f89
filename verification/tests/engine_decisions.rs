use algotrader::config::{DynaGridConfig, EntryConfig, EntryMode, ExitConfig, RiskConfig};
use algotrader::api::rest::close_order_for;
use algotrader::db::models::{Position, StrategyState};
use algotrader::error::BotError;
use algotrader::fixed::SCALE;
use algotrader::strategy::bounds::{entry_update_fits_at, exit_update_fits_at};
use algotrader::strategy::dynagrid::{exit_orders, DynaGridEngine, InitialEntry, IterationPlan, LoopStep};
use algotrader::strategy::types::{ExitAction, ExitReason, Side, StrategyResult, Zone};

fn dec(x: f64) -> i64 {
    (x * SCALE as f64).round() as i64
}

fn config() -> DynaGridConfig {
    DynaGridConfig {
        enabled: true,
        symbol: Some("ETHUSDT".to_string()),
        position_risk_percentage: Some(dec(0.02)),
        grid_range_pct: dec(2.0),
        position_sizing_factor: dec(1.5),
        max_grid_levels: 4,
        min_entry_interval_minutes: 60,
        max_hold_time_hours: 168,
        leverage: 5,
        exit: ExitConfig {
            partial_exit_enabled: true,
            partial_exit_levels: 3,
            partial_exit_percentages: vec![30, 30, 40],
            partial_exit_multipliers: vec![dec(1.0), dec(2.0), dec(3.5)],
        },
        entry: EntryConfig::default(),
    }
}

fn risk() -> RiskConfig {
    RiskConfig { max_daily_loss_pct: dec(2.0), max_total_exposure_pct: dec(50.0), emergency_stop_loss_pct: dec(5.0) }
}

fn started_engine() -> DynaGridEngine {
    let mut e = DynaGridEngine::new(None, config(), risk(), 0).unwrap();
    e.begin_strategy(dec(3000.0), dec(0.01), 0);
    e
}

#[test]
fn test_exit_config_building() {
    let config = ExitConfig {
        partial_exit_enabled: true,
        partial_exit_levels: 3,
        partial_exit_percentages: vec![30, 30, 40],
        partial_exit_multipliers: vec![dec(1.0), dec(2.0), dec(3.5)],
    };

    let exit_config = DynaGridEngine::build_exit_config(&config);

    assert_eq!(exit_config.levels.len(), 3);
    assert_eq!(exit_config.levels[0].percentage, dec(30.0));
    assert_eq!(exit_config.levels[0].distance_multiplier, dec(1.0));
}

#[test]
fn exit_config_building_pairs_shorter_list() {
    let config = ExitConfig {
        partial_exit_enabled: false,
        partial_exit_levels: 3,
        partial_exit_percentages: vec![30, 30, 40],
        partial_exit_multipliers: vec![dec(1.0)],
    };
    let exit_config = DynaGridEngine::build_exit_config(&config);
    assert_eq!(exit_config.levels.len(), 1);
    assert!(!exit_config.enabled);
}

#[test]
fn new_engine_fresh_and_resumed() {
    let e = DynaGridEngine::new(None, config(), risk(), 0).unwrap();
    assert!(!e.state.is_active);
    assert_eq!(e.state.symbol, "ETHUSDT");
    assert!(e.grid_config.is_none());

    let mut saved = StrategyState::new("ETHUSDT".to_string());
    saved.is_active = true;
    saved.grid_upper_price = Some(dec(3030.0));
    saved.grid_lower_price = Some(dec(2970.0));
    saved.initial_position_value_usdt = dec(90.0);
    saved.grid_level = 3;
    let e = DynaGridEngine::new(Some(saved), config(), risk(), 0).unwrap();
    let g = e.grid_config.unwrap();
    assert_eq!(g.upper_price, dec(3030.0));
    assert_eq!(g.range_pct, dec(2.0));
    assert_eq!(e.initial_position_size, dec(30.0));

    let mut bad = config();
    bad.exit.partial_exit_percentages = vec![30, 30, 30];
    match DynaGridEngine::new(None, bad, risk(), 0) {
        Err(BotError::ConfigError(m)) => assert_eq!(m, "Invalid exit config: Exit percentages must sum to 100, got 90.00"),
        _ => panic!("an uneven ladder is refused"),
    }

    let mut empty = config();
    empty.exit.partial_exit_percentages = vec![];
    match DynaGridEngine::new(None, empty, risk(), 0) {
        Err(BotError::ConfigError(m)) => {
            assert_eq!(m, "Invalid exit config: Partial exit enabled but no levels configured")
        }
        _ => panic!("an empty ladder is refused"),
    }
}

#[test]
fn begin_strategy_sets_grid_and_state() {
    let e = started_engine();
    let g = e.grid_config.unwrap();
    assert_eq!(g.upper_price, dec(3030.0));
    assert_eq!(g.lower_price, dec(2970.0));
    assert!(e.state.is_active);
    assert_eq!(e.state.initial_position_value_usdt, dec(30.0));
    assert_eq!(e.state.max_hold_until, Some(168 * 3_600_000));
    assert_eq!(e.state.initial_risk_percentage, dec(0.02));
}

#[test]
fn initial_entry_by_mode() {
    let mut e = started_engine();
    assert_eq!(e.initial_entry_side(dec(3000.0)), InitialEntry::Enter(Side::Buy));
    e.config.entry.mode = EntryMode::WaitForZone;
    assert_eq!(e.initial_entry_side(dec(3031.0)), InitialEntry::Enter(Side::Buy));
    assert_eq!(e.initial_entry_side(dec(2960.0)), InitialEntry::Enter(Side::Sell));
    assert_eq!(e.initial_entry_side(dec(3000.0)), InitialEntry::Wait);
    assert!(!e.state.is_active);
    e.config.entry.mode = EntryMode::EmaTrend;
    assert_eq!(e.initial_entry_side(dec(3000.0)), InitialEntry::FollowTrend);
    let a = e.initial_entry_action(Side::Sell);
    assert_eq!(a.zone, Zone::Lower);
    assert_eq!(a.qty, dec(0.01));
}

#[test]
fn entry_and_its_record() {
    let mut e = started_engine();
    let first = e.initial_entry_action(Side::Buy);
    e.record_entry(&first, dec(3000.0), 1);
    assert_eq!(e.state.long_size, dec(0.01));
    assert_eq!(e.state.long_avg_price, dec(3000.0));
    assert_eq!(e.state.grid_level, 1);
    // Inside the grid: nothing.
    assert!(e.check_entry_conditions(0, dec(3000.0)).unwrap().is_none());
    // Upper zone while long-heavy: nothing.
    assert!(e.check_entry_conditions(0, dec(3100.0)).unwrap().is_none());
    // Lower zone: a short worth 1.5x the long.
    let b = e.check_entry_conditions(0, dec(2900.0)).unwrap().unwrap();
    assert_eq!(b.side, Side::Sell);
    assert_eq!(b.zone, Zone::Lower);
    assert_eq!(b.qty, dec(0.015));
    e.record_entry(&b, dec(2900.0), 6);
    assert_eq!(e.state.short_size, dec(0.015));
    assert_eq!(e.state.short_avg_price, dec(2900.0));
    assert_eq!(e.state.grid_level, 2);
    assert_eq!(e.state.last_action_time, Some(6));
    // Past the hold deadline: nothing.
    assert!(e.check_entry_conditions(168 * 3_600_000 + 1, dec(3100.0)).unwrap().is_none());
    // At the level limit: nothing.
    e.state.grid_level = 4;
    assert!(e.check_entry_conditions(0, dec(3200.0)).unwrap().is_none());
}

#[test]
fn weighted_average_on_second_entry() {
    let mut e = started_engine();
    let first = e.initial_entry_action(Side::Buy);
    e.record_entry(&first, dec(3000.0), 1);
    let second = e.initial_entry_action(Side::Buy);
    e.record_entry(&second, dec(3100.0), 2);
    assert_eq!(e.state.long_size, dec(0.02));
    assert_eq!(e.state.long_avg_price, dec(3050.0));
}

#[test]
fn entries_never_lift_average_above_higher_price() {
    let mut e = started_engine();
    for (i, price) in [2999.99, 3100.37, 3012.5, 3333.33].iter().enumerate() {
        let p = dec(*price);
        let a = e.initial_entry_action(Side::Sell);
        let before = e.state.short_avg_price;
        e.record_entry(&a, p, i as i64);
        let high = if before >= p { before } else { p };
        assert!(e.state.short_avg_price <= high);
    }
}

#[test]
fn entry_below_minimum_order_value_is_skipped() {
    let mut e = DynaGridEngine::new(None, config(), risk(), 0).unwrap();
    e.begin_strategy(dec(3000.0), dec(0.001), 0); // initial value 3 USDT
    let first = e.initial_entry_action(Side::Buy);
    e.record_entry(&first, dec(3000.0), 1);
    assert!(e.check_entry_conditions(0, dec(2900.0)).unwrap().is_none());
}

#[test]
fn entry_and_exit_need_a_grid() {
    let e = DynaGridEngine::new(None, config(), risk(), 0).unwrap();
    assert!(matches!(e.check_entry_conditions(0, dec(1.0)), Err(BotError::Unknown(_))));
    assert!(matches!(e.check_exit_conditions(dec(1.0)), Err(BotError::Unknown(_))));
}

#[test]
fn exit_rungs_trigger_in_order() {
    let mut e = started_engine();
    e.state.long_size = dec(1.0);
    e.state.long_avg_price = dec(3000.0);
    e.state.short_size = dec(0.5);
    e.state.short_avg_price = dec(3000.0);
    // Grid width 60: rungs at 3060, 3120, 3210.
    assert!(e.check_exit_conditions(dec(3059.0)).unwrap().is_none());
    let a = e.check_exit_conditions(dec(3060.0)).unwrap().unwrap();
    assert_eq!(a.level, 1);
    assert_eq!(a.reason, ExitReason::PartialTakeProfit { level: 1 });
    assert_eq!(a.close_long_qty, dec(0.3));
    assert_eq!(a.close_short_qty, dec(0.15));
    let a = e.check_exit_conditions(dec(3300.0)).unwrap().unwrap();
    assert_eq!(a.level, 1);
    // Equal sizes: no direction.
    e.state.short_size = dec(1.0);
    assert!(e.check_exit_conditions(dec(3300.0)).unwrap().is_none());
}

#[test]
fn partial_exits_never_close_more_than_held() {
    let mut e = started_engine();
    e.state.long_size = dec(0.7);
    e.state.long_avg_price = dec(3000.0);
    e.state.short_size = dec(0.3);
    e.state.short_avg_price = dec(3000.0);
    for price in [3060.0, 3120.0, 3210.0, 5000.0] {
        let a = e.check_exit_conditions(dec(price)).unwrap().unwrap();
        assert!(0 <= a.close_long_qty && a.close_long_qty <= e.state.long_size);
        assert!(0 <= a.close_short_qty && a.close_short_qty <= e.state.short_size);
    }
    // The last rung alone: 40 percent of each leg.
    e.partial_exit_config.levels.remove(0);
    e.partial_exit_config.levels.remove(0);
    let a = e.check_exit_conditions(dec(3210.0)).unwrap().unwrap();
    assert_eq!(a.reason, ExitReason::FinalTakeProfit);
    assert_eq!(a.close_long_qty, dec(0.28));
    assert_eq!(a.close_short_qty, dec(0.12));
}

#[test]
fn exit_legs_and_record() {
    let mut e = started_engine();
    e.state.long_size = dec(1.0);
    e.state.long_avg_price = dec(3000.0);
    e.state.short_size = dec(0.5);
    e.state.short_avg_price = dec(3100.0);
    let all = e.exit_all_action();
    assert_eq!(all.level, 0);
    assert_eq!(all.reason, ExitReason::Manual);
    let p1 = e.close_long_leg(all.close_long_qty, dec(3050.0));
    let p2 = e.close_short_leg(all.close_short_qty, dec(3050.0));
    assert_eq!(p1, dec(50.0));
    assert_eq!(p2, dec(25.0));
    let record = e.finish_exit(&all, dec(3050.0), p1 + p2);
    assert_eq!(record.realized_pnl, dec(75.0));
    assert_eq!(record.long_closed_qty, Some(dec(1.0)));
    assert_eq!(record.short_avg_close_price, Some(dec(3050.0)));
    assert_eq!(e.state.realized_pnl, dec(75.0));
    assert!(!e.state.has_positions());
    assert!(e.emergency_close_sides().is_empty());
    e.finalize_strategy();
    assert!(!e.state.is_active);
}

#[test]
fn emergency_close_sides_follow_holdings() {
    let mut e = started_engine();
    e.state.long_size = dec(1.0);
    e.state.short_size = dec(2.0);
    assert_eq!(e.emergency_close_sides(), vec![Side::Sell, Side::Buy]);
    e.state.short_size = 0;
    assert_eq!(e.emergency_close_sides(), vec![Side::Sell]);
}

#[test]
fn ema_values() {
    let prices = vec![dec(1.0), dec(2.0), dec(3.0), dec(4.0)];
    let ema = DynaGridEngine::calculate_ema(&prices, 3);
    // SMA of 1, 2, 3 is 2; then 2 + (4 - 2) * 2 / 4 = 3.
    assert_eq!(ema, vec![dec(2.0), dec(3.0)]);
    assert!(DynaGridEngine::calculate_ema(&prices, 5).is_empty());
}

#[test]
fn ema_trend_decides_first_side() {
    let mut e = started_engine();
    e.config.entry.ema_candles = 2;
    // Rising closes: EMA over 2 rises.
    let rising: Vec<i64> = (0..10).map(|i| dec(100.0 + i as f64)).collect();
    assert_eq!(e.determine_entry_by_ema(&rising).unwrap(), Side::Buy);
    let falling: Vec<i64> = (0..10).map(|i| dec(100.0 - i as f64)).collect();
    assert_eq!(e.determine_entry_by_ema(&falling).unwrap(), Side::Sell);
    let flat: Vec<i64> = vec![dec(100.0); 10];
    assert!(matches!(e.determine_entry_by_ema(&flat), Err(BotError::ApiError { retryable: true, .. })));
    e.config.entry.ema_fallback = false;
    assert_eq!(e.determine_entry_by_ema(&flat).unwrap(), Side::Buy);
    // Too few closes: retryable error.
    match e.determine_entry_by_ema(&vec![dec(1.0)]) {
        Err(BotError::ApiError { message, retryable }) => {
            assert!(retryable);
            assert_eq!(message, "Not enough klines data: got 1, need 2");
        }
        _ => panic!("too few closes are refused"),
    }
}

#[test]
fn iteration_plans() {
    let mut e = started_engine();
    let first = e.initial_entry_action(Side::Buy);
    e.record_entry(&first, dec(3000.0), 1);
    // Inside the grid: hold, and the last action time moves.
    assert!(matches!(e.plan_iteration(10, 1, dec(3000.0), dec(10000.0)), Ok(IterationPlan::Hold)));
    assert_eq!(e.state.last_action_time, Some(10));
    // Long winning past the first rung (3060): take the first exit.
    match e.plan_iteration(11, 1, dec(3070.0), dec(10000.0)) {
        Ok(IterationPlan::TakeExit(a)) => assert_eq!(a.level, 1),
        _ => panic!("expected an exit"),
    }
    // Lower zone: a short entry, allowed and counted.
    match e.plan_iteration(12, 1, dec(2900.0), dec(10000.0)) {
        Ok(IterationPlan::TakeEntry(a)) => assert_eq!(a.side, Side::Sell),
        _ => panic!("expected an entry"),
    }
    assert_eq!(e.risk_manager.daily_stats.trade_count, 1);
    // With a tiny balance the exposure limit blocks it.
    assert!(matches!(e.plan_iteration(13, 1, dec(2900.0), dec(50.0)), Ok(IterationPlan::EntryBlocked)));
    // Past the hold deadline: exit everything.
    match e.plan_iteration(168 * 3_600_000 + 1, 1, dec(3000.0), dec(10000.0)) {
        Ok(IterationPlan::ExitAll(a)) => assert_eq!(a.close_long_qty, dec(0.01)),
        _ => panic!("expected an exit of everything"),
    }
    // A loss of 5% of the allocated 30 USDT (1.5 USDT): emergency exit.
    assert!(matches!(e.plan_iteration(20, 1, dec(2850.0), dec(10000.0)), Ok(IterationPlan::EmergencyExit)));
    assert!(e.should_log_metrics() == (e.state.grid_level % 2 == 0));
    e.after_entry(dec(3000.0));
    assert_eq!(e.risk_manager.daily_stats.total_exposure, dec(30.0));
    let done = e.after_exit();
    assert!(!done);
}

#[test]
fn iteration_figures_within_bounds() {
    let mut e = started_engine();
    let first = e.initial_entry_action(Side::Buy);
    e.record_entry(&first, dec(3000.0), 0);
    e.state.long_size = dec(1000.0);
    assert!(e.iteration_fits(0, 0, dec(3050.0), dec(10000.0)));
    assert!(!e.iteration_fits(0, 0, i64::MAX, dec(10000.0)));
    let plan = e.plan_iteration(0, 0, dec(3050.0), dec(10000.0)).unwrap();
    assert!(matches!(plan, IterationPlan::Hold | IterationPlan::TakeEntry(_) | IterationPlan::EntryBlocked));
}

#[test]
fn entry_update_bounds() {
    let e = started_engine();
    assert!(entry_update_fits_at(&e.state, Side::Buy, dec(0.5), dec(3000.0)));
    assert!(!entry_update_fits_at(&e.state, Side::Sell, i64::MAX, i64::MAX));
}

#[test]
fn emergency_close_of_a_long_sells_it() {
    let mut e = started_engine();
    e.state.long_size = dec(0.7);
    let held = vec![Position {
        symbol: "ETHUSDT".to_string(),
        side: "Buy".to_string(),
        size: dec(0.7),
        avg_price: dec(3000.0),
        leverage: SCALE,
        unrealized_pnl: 0,
        realized_pnl: 0,
    }];
    let sides = e.emergency_close_sides();
    assert_eq!(sides, vec![Side::Sell]);
    let order = close_order_for(&held, "ETHUSDT", sides[0].as_str()).unwrap();
    assert_eq!(order.side, "Sell");
    assert_eq!(order.qty, dec(0.7));
    assert!(order.reduce_only);
    assert_eq!(order.order_type, "Market");
}

#[test]
fn steady_uptrend_over_exactly_the_candles_enters_long() {
    let mut e = started_engine();
    e.config.entry.ema_candles = 20;
    e.config.entry.ema_fallback = true;
    let closes: Vec<i64> = (0..20).map(|i| dec(100.0 + i as f64)).collect();
    assert_eq!(e.determine_entry_by_ema(&closes).unwrap(), Side::Buy);
    let falling: Vec<i64> = closes.iter().rev().cloned().collect();
    assert_eq!(e.determine_entry_by_ema(&falling).unwrap(), Side::Sell);
    // With no candles configured no trend is clear.
    e.config.entry.ema_candles = 0;
    assert!(matches!(e.determine_entry_by_ema(&closes), Err(BotError::ApiError { retryable: true, .. })));
}

#[test]
fn no_trend_falls_back_to_waiting_for_a_zone() {
    let mut e = started_engine();
    e.config.entry.ema_candles = 3;
    e.config.entry.ema_fallback = true;
    let flat = vec![dec(3000.0); 5];
    // Inside the grid (2970..3030): wait, inactive.
    assert_eq!(e.entry_from_trend(&flat, dec(3000.0)).unwrap(), InitialEntry::Wait);
    assert!(!e.state.is_active);
    let mut e = started_engine();
    e.config.entry.ema_candles = 3;
    assert_eq!(e.entry_from_trend(&flat, dec(3030.0)).unwrap(), InitialEntry::Enter(Side::Buy));
    assert_eq!(e.entry_from_trend(&flat, dec(2970.0)).unwrap(), InitialEntry::Enter(Side::Sell));
    assert!(e.state.is_active);
    e.config.entry.ema_fallback = false;
    assert_eq!(e.entry_from_trend(&flat, dec(3000.0)).unwrap(), InitialEntry::Enter(Side::Buy));
    assert!(e.entry_from_trend(&vec![dec(1.0)], dec(3000.0)).is_err());
}

#[test]
fn whole_exit_sums_both_legs() {
    let mut e = started_engine();
    e.state.long_size = dec(1.0);
    e.state.long_avg_price = dec(3000.0);
    e.state.short_size = dec(0.5);
    e.state.short_avg_price = dec(3100.0);
    e.state.realized_pnl = dec(5.0);
    let a = ExitAction { level: 1, close_long_qty: dec(0.3), close_short_qty: dec(0.15), reason: ExitReason::Manual };
    assert!(exit_update_fits_at(&e.state, &a, dec(3050.0)));
    let record = e.apply_exit(&a, dec(3050.0));
    assert_eq!(e.state.long_size, dec(0.7));
    assert_eq!(e.state.short_size, dec(0.35));
    assert_eq!(record.realized_pnl, dec(15.0) + dec(7.5));
    assert_eq!(e.state.realized_pnl, dec(5.0) + dec(22.5));
    let only_long = ExitAction { level: 2, close_long_qty: dec(0.7), close_short_qty: 0, reason: ExitReason::Manual };
    let record = e.apply_exit(&only_long, dec(3000.0));
    assert_eq!(record.short_closed_qty, None);
    assert_eq!(e.state.short_size, dec(0.35));
    assert_eq!(e.state.long_size, 0);
}

#[test]
fn loop_steps_after_iterations() {
    let mut e = started_engine();
    e.state.realized_pnl = dec(12.0);
    assert!(matches!(e.after_iteration(&Ok(true)), LoopStep::Finish(StrategyResult::Completed { final_pnl }) if final_pnl == dec(12.0)));
    assert!(matches!(e.after_iteration(&Ok(false)), LoopStep::Continue));
    let critical = BotError::StateDesync { details: "x".to_string() };
    assert!(matches!(e.after_iteration(&Err(critical)), LoopStep::EmergencyStop));
    let minor = BotError::NetworkError("x".to_string());
    assert!(matches!(e.after_iteration(&Err(minor)), LoopStep::LogAndContinue));
}

#[test]
fn exit_orders_close_each_leg() {
    let a = ExitAction { level: 1, close_long_qty: dec(0.3), close_short_qty: dec(0.15), reason: ExitReason::Manual };
    let orders = exit_orders("ETHUSDT", &a);
    assert_eq!(orders.len(), 2);
    assert_eq!(orders[0].side, "Sell");
    assert_eq!(orders[0].qty, dec(0.3));
    assert_eq!(orders[1].side, "Buy");
    assert_eq!(orders[1].qty, dec(0.15));
    for o in &orders {
        assert!(o.reduce_only && !o.close_on_trigger);
        assert_eq!(o.order_type, "Market");
        assert_eq!(o.symbol, "ETHUSDT");
        assert_eq!(o.price, None);
    }
    let short_only = ExitAction { close_long_qty: 0, ..a };
    let orders = exit_orders("ETHUSDT", &short_only);
    assert_eq!(orders.len(), 1);
    assert_eq!(orders[0].side, "Buy");
}

#[test]
fn completed_iterations_leave_the_strategy_inactive() {
    let mut e = started_engine();
    assert!(e.after_plan(&IterationPlan::EmergencyExit, dec(3000.0)));
    assert!(!e.state.is_active);

    let mut e = started_engine();
    e.state.long_size = dec(1.0);
    let a = e.exit_all_action();
    e.apply_exit(&a, dec(3000.0));
    assert!(e.after_plan(&IterationPlan::TakeExit(a), dec(3000.0)));
    assert!(!e.state.is_active);
    assert_eq!(e.risk_manager.daily_stats.trade_count, 1);

    let mut e = started_engine();
    e.state.long_size = dec(1.0);
    let part = ExitAction { level: 1, close_long_qty: dec(0.3), close_short_qty: 0, reason: ExitReason::Manual };
    e.apply_exit(&part, dec(3000.0));
    assert!(!e.after_plan(&IterationPlan::TakeExit(part), dec(3000.0)));
    assert!(e.state.is_active);
    assert!(!e.after_plan(&IterationPlan::Hold, dec(3000.0)));
    assert!(e.state.is_active);
}
