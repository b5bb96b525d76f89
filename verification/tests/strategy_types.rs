use algotrader::fixed::SCALE;
use algotrader::strategy::types::{
    EnterAction, ExitLadderError, ExitLevel, GridConfig, PartialExitConfig, PositionSizing, Side, Zone,
};

fn dec(x: f64) -> i64 {
    (x * SCALE as f64).round() as i64
}

fn as_float(x: i64) -> f64 {
    x as f64 / SCALE as f64
}

#[test]
fn test_grid_config() {
    let grid = GridConfig::new(dec(3000.0), dec(2.0));

    // With 2% range, half is 1%
    assert_eq!(grid.upper_price, dec(3030.0)); // 3000 + 1%
    assert_eq!(grid.lower_price, dec(2970.0)); // 3000 - 1%

    assert!(grid.is_in_range(dec(3000.0)));
    assert!(grid.get_zone(dec(3100.0)) == Some(Zone::Upper));
    assert!(grid.get_zone(dec(2900.0)) == Some(Zone::Lower));
}

#[test]
fn test_partial_exit_config() {
    let config = PartialExitConfig {
        enabled: true,
        levels: vec![
            ExitLevel { percentage: dec(30.0), distance_multiplier: dec(1.0) },
            ExitLevel { percentage: dec(30.0), distance_multiplier: dec(2.0) },
            ExitLevel { percentage: dec(40.0), distance_multiplier: dec(3.5) },
        ],
    };

    assert!(config.validate().is_ok());

    let price = config.get_exit_price(0, Zone::Upper, dec(60.0), dec(3000.0));
    assert_eq!(price, dec(3060.0)); // 3000 + (60 * 1.0)

    let price = config.get_exit_price(2, Zone::Upper, dec(60.0), dec(3000.0));
    assert_eq!(price, dec(3210.0)); // 3000 + (60 * 3.5)
}

#[test]
fn test_position_sizing() {
    let sizing = PositionSizing {
        initial_value_usdt: dec(50.0),
        risk_percentage: dec(0.02),
        sizing_factor: dec(1.5),
    };

    // Start with no positions
    let size = sizing.calculate_next_size(dec(0.0), dec(0.0), Zone::Upper, dec(3000.0));
    assert!((as_float(size) - 0.01667).abs() < 0.0001); // $50 / $3000

    // Current: Long 0.0, Short 0.025 (worth $75); want Long = 1.5 x $75 = $112.5
    let size = sizing.calculate_next_size(dec(0.0), dec(0.025), Zone::Upper, dec(3000.0));
    assert!((as_float(size) - 0.0375).abs() < 0.0001); // $112.5 / $3000
}

#[test]
fn position_sizing_exact_values() {
    let sizing = PositionSizing { initial_value_usdt: dec(50.0), risk_percentage: dec(0.02), sizing_factor: dec(1.5) };
    // 50 / 3000 = 0.016666666..., rounded toward zero at eight digits.
    assert_eq!(sizing.calculate_next_size(0, 0, Zone::Upper, dec(3000.0)), 1_666_666);
    assert_eq!(sizing.calculate_next_size(0, dec(0.025), Zone::Upper, dec(3000.0)), 3_750_000);
    // Lower zone: short should reach 1.5x the long value.
    assert_eq!(sizing.calculate_next_size(dec(0.1), 0, Zone::Lower, dec(1000.0)), dec(0.15));
}

#[test]
fn grid_zones_at_bounds() {
    let grid = GridConfig::new(dec(100.0), dec(10.0));
    assert_eq!(grid.upper_price, dec(105.0));
    assert_eq!(grid.lower_price, dec(95.0));
    assert_eq!(grid.get_zone(dec(105.0)), Some(Zone::Upper));
    assert_eq!(grid.get_zone(dec(95.0)), Some(Zone::Lower));
    assert_eq!(grid.get_zone(dec(104.99)), None);
    assert_eq!(grid.distance_from_zone(dec(110.0), Zone::Upper), dec(5.0));
    assert_eq!(grid.distance_from_zone(dec(90.0), Zone::Lower), dec(5.0));
    assert_eq!(grid.distance_from_zone(dec(100.0), Zone::Upper), dec(-5.0));
}

#[test]
fn zone_opposite_and_side() {
    assert_eq!(Zone::Upper.opposite(), Zone::Lower);
    assert_eq!(Zone::Lower.opposite().opposite(), Zone::Lower);
    assert_eq!(Zone::Upper.to_side(), Side::Buy);
    assert_eq!(Zone::Lower.to_side(), Side::Sell);
}

#[test]
fn side_names_and_parsing() {
    assert_eq!(Side::Buy.as_str(), "Buy");
    assert_eq!(Side::Sell.as_str(), "Sell");
    assert_eq!(Side::from("BUY"), Side::Buy);
    assert_eq!(Side::from("sell"), Side::Sell);
    assert_eq!(Side::parse("SeLl"), Some(Side::Sell));
    assert_eq!(Side::parse("hold"), None);
}

#[test]
fn side_names_read_back() {
    for side in [Side::Buy, Side::Sell] {
        assert_eq!(Side::parse(side.as_str()), Some(side));
    }
}

#[test]
fn exit_ladder_refusals() {
    let empty = PartialExitConfig { enabled: true, levels: vec![] };
    assert_eq!(empty.validate(), Err(ExitLadderError::NoLevels));
    let disabled = PartialExitConfig { enabled: false, levels: vec![] };
    assert!(disabled.validate().is_ok());
    let short = PartialExitConfig {
        enabled: true,
        levels: vec![ExitLevel { percentage: dec(50.0), distance_multiplier: dec(1.0) }],
    };
    assert_eq!(short.validate(), Err(ExitLadderError::PercentagesDoNotSumTo100 { total: dec(50.0) as i128 }));
    // Within the 0.01 tolerance.
    let close = PartialExitConfig {
        enabled: true,
        levels: vec![
            ExitLevel { percentage: dec(50.0), distance_multiplier: dec(1.0) },
            ExitLevel { percentage: dec(50.005), distance_multiplier: dec(2.0) },
        ],
    };
    assert!(close.validate().is_ok());
}

#[test]
fn exit_price_lower_zone() {
    let config = PartialExitConfig {
        enabled: true,
        levels: vec![ExitLevel { percentage: dec(100.0), distance_multiplier: dec(2.0) }],
    };
    assert_eq!(config.get_exit_price(0, Zone::Lower, dec(60.0), dec(3000.0)), dec(2880.0));
}

#[test]
fn enter_action_holds_its_fields() {
    let a = EnterAction { side: Side::Buy, qty: dec(1.0), zone: Zone::Upper, price: None };
    assert_eq!(a.qty, SCALE);
}
