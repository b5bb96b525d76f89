//! The bot's configuration, its defaults and its validation rules.
//! Decimal fields are fixed-point (see `fixed`).

use vstd::prelude::*;
use crate::fixed::SCALE;
use crate::text::str_equal;

verus! {

/// General settings of the bot.
#[derive(Clone, Debug)]
pub struct BotConfig {
    pub name: String,
    pub version: String,
    pub log_level: String,
    pub data_dir: String,
}

/// Credentials and endpoints of one exchange account.
#[derive(Clone, Debug)]
pub struct ApiCredentials {
    pub key: String,
    pub secret: String,
    pub base_url: String,
    pub ws_url: Option<String>,
    pub rate_limit_requests: u32,
    pub rate_limit_window_ms: u64,
}

/// Default request budget per rate-limit window: 50.
pub fn default_rate_limit() -> (r: u32)
    ensures
        r == 50,
{
    50
}

/// Default rate-limit window: 1000 ms.
pub fn default_rate_window() -> (r: u64)
    ensures
        r == 1000,
{
    1000
}

/// The production account (market data) and the demo account (trading).
#[derive(Clone, Debug)]
pub struct ApiConfig {
    pub production: ApiCredentials,
    pub demo: ApiCredentials,
}

/// Database settings.
#[derive(Clone, Debug)]
pub struct DatabaseConfig {
    pub path: String,
    pub backup_enabled: bool,
    pub backup_interval_hours: u32,
    pub backup_retention_days: u32,
}

/// Backups are enabled by default.
pub fn default_backup_enabled() -> (r: bool)
    ensures
        r,
{
    true
}

/// Default backup interval: 24 hours.
pub fn default_backup_interval() -> (r: u32)
    ensures
        r == 24,
{
    24
}

/// Default backup retention: 30 days.
pub fn default_backup_retention() -> (r: u32)
    ensures
        r == 30,
{
    30
}

/// Global risk limits, in percent (decimal).
#[derive(Clone, Copy, Debug)]
pub struct RiskConfig {
    pub max_daily_loss_pct: i64,
    pub max_total_exposure_pct: i64,
    pub emergency_stop_loss_pct: i64,
}

impl Default for RiskConfig {
    /// All limits zero, as when the section is absent.
    fn default() -> (r: RiskConfig)
        ensures
            r.max_daily_loss_pct == 0,
            r.max_total_exposure_pct == 0,
            r.emergency_stop_loss_pct == 0,
    {
        RiskConfig { max_daily_loss_pct: 0, max_total_exposure_pct: 0, emergency_stop_loss_pct: 0 }
    }
}

/// Default daily loss limit for a listed field: 2 percent.
pub fn default_max_daily_loss() -> (r: i64)
    ensures
        r == 2 * SCALE,
{
    2 * SCALE
}

/// Default exposure limit for a listed field: 50 percent.
pub fn default_max_exposure() -> (r: i64)
    ensures
        r == 50 * SCALE,
{
    50 * SCALE
}

/// Default emergency stop loss for a listed field: 5 percent.
pub fn default_emergency_sl() -> (r: i64)
    ensures
        r == 5 * SCALE,
{
    5 * SCALE
}

/// The partial-exit ladder as configured.
#[derive(Clone, Debug)]
pub struct ExitConfig {
    pub partial_exit_enabled: bool,
    pub partial_exit_levels: usize,
    /// Percent of the position closed at each rung.
    pub partial_exit_percentages: Vec<u32>,
    /// Multiple of the grid width at which each rung triggers (decimal).
    pub partial_exit_multipliers: Vec<i64>,
}

impl Default for ExitConfig {
    /// Disabled, no rungs.
    fn default() -> (r: ExitConfig)
        ensures
            !r.partial_exit_enabled,
            r.partial_exit_levels == 0,
            r.partial_exit_percentages@.len() == 0,
            r.partial_exit_multipliers@.len() == 0,
    {
        ExitConfig {
            partial_exit_enabled: false,
            partial_exit_levels: 0,
            partial_exit_percentages: Vec::new(),
            partial_exit_multipliers: Vec::new(),
        }
    }
}

/// Partial exits are enabled by default.
pub fn default_partial_exit_enabled() -> (r: bool)
    ensures
        r,
{
    true
}

/// Three rungs by default.
pub fn default_partial_exit_levels() -> (r: usize)
    ensures
        r == 3,
{
    3
}

/// Default rung percentages: 30, 30, 40.
pub fn default_partial_exit_percentages() -> (r: Vec<u32>)
    ensures
        r@ == seq![30u32, 30u32, 40u32],
{
    vec![30, 30, 40]
}

/// Default rung multipliers: 1.0, 2.0, 3.5.
pub fn default_partial_exit_multipliers() -> (r: Vec<i64>)
    ensures
        r@ == seq![100_000_000i64, 200_000_000i64, 350_000_000i64],
{
    vec![SCALE, 2 * SCALE, 7 * SCALE / 2]
}

/// How the first position is chosen.
#[derive(Clone, Copy, Debug, PartialEq, Eq, Structural)]
pub enum EntryMode {
    /// Follow the trend of an exponential moving average.
    EmaTrend,
    /// Enter long at once.
    Immediate,
    /// Wait until the price leaves the grid.
    WaitForZone,
}

impl Default for EntryMode {
    /// Immediate entry.
    fn default() -> (r: EntryMode)
        ensures
            r == EntryMode::Immediate,
    {
        EntryMode::Immediate
    }
}

/// Entry settings.
#[derive(Clone, Debug)]
pub struct EntryConfig {
    pub mode: EntryMode,
    pub ema_candles: usize,
    /// Candle interval in minutes, as text.
    pub ema_timeframe: String,
    pub ema_fallback: bool,
}

impl Default for EntryConfig {
    /// Each field at its default.
    fn default() -> (r: EntryConfig)
        ensures
            r.mode == EntryMode::Immediate,
            r.ema_candles == 20,
            r.ema_timeframe@ == "15"@,
            r.ema_fallback,
    {
        EntryConfig {
            mode: default_entry_mode(),
            ema_candles: default_ema_candles(),
            ema_timeframe: default_ema_timeframe(),
            ema_fallback: default_ema_fallback(),
        }
    }
}

/// Immediate entry by default.
pub fn default_entry_mode() -> (r: EntryMode)
    ensures
        r == EntryMode::Immediate,
{
    EntryMode::Immediate
}

/// Twenty candles by default.
pub fn default_ema_candles() -> (r: usize)
    ensures
        r == 20,
{
    20
}

/// Fifteen-minute candles by default.
pub fn default_ema_timeframe() -> (r: String)
    ensures
        r@ == "15"@,
{
    "15".to_owned()
}

/// Fall back to zone entry by default.
pub fn default_ema_fallback() -> (r: bool)
    ensures
        r,
{
    true
}

/// Why a configuration is refused.
#[derive(Clone, Debug, PartialEq, Eq)]
pub enum ConfigError {
    PartialExitLevelsOutOfRange { levels: usize },
    PercentagesLengthMismatch { expected: usize, got: usize },
    MultipliersLengthMismatch { expected: usize, got: usize },
    PercentagesDoNotSumTo100 { sum: u64 },
    MissingSymbol,
    EmptySymbol,
    MissingRiskPercentage,
    RiskPercentageOutOfRange { value: i64 },
    GridRangeOutOfRange { value: i64 },
    SizingFactorOutOfRange { value: i64 },
    MaxGridLevelsOutOfRange { value: u8 },
    LeverageOutOfRange { value: u8 },
    EmaCandlesOutOfRange { value: usize },
    InvalidEmaTimeframe { value: String },
    MissingProductionCredentials,
    MissingDemoCredentials,
}

/// The sum of a list of percentages.
pub open spec fn percent_sum(s: Seq<u32>) -> int
    decreases s.len(),
{
    if s.len() == 0 {
        0
    } else {
        percent_sum(s.drop_last()) + s.last()
    }
}

/// The verdict on an exit configuration: two to five rungs, one percentage
/// and one multiplier per rung, percentages adding up to 100.
pub open spec fn exit_check(c: ExitConfig) -> Result<(), ConfigError> {
    let n = c.partial_exit_levels;
    if n < 2 || n > 5 {
        Err(ConfigError::PartialExitLevelsOutOfRange { levels: n })
    } else if c.partial_exit_percentages@.len() != n {
        Err(ConfigError::PercentagesLengthMismatch { expected: n, got: c.partial_exit_percentages@.len() as usize })
    } else if c.partial_exit_multipliers@.len() != n {
        Err(ConfigError::MultipliersLengthMismatch { expected: n, got: c.partial_exit_multipliers@.len() as usize })
    } else if percent_sum(c.partial_exit_percentages@) != 100 {
        Err(ConfigError::PercentagesDoNotSumTo100 { sum: percent_sum(c.partial_exit_percentages@) as u64 })
    } else {
        Ok(())
    }
}

impl ExitConfig {
    /// Accepts two to five rungs, with exactly one percentage and one
    /// multiplier per rung and percentages adding up to 100; the first rule
    /// broken is reported.
    pub fn validate(&self) -> (r: Result<(), ConfigError>)
        ensures
            r == exit_check(*self),
    {
        let n = self.partial_exit_levels;
        if n < 2 || n > 5 {
            return Err(ConfigError::PartialExitLevelsOutOfRange { levels: n });
        }
        if self.partial_exit_percentages.len() != n {
            return Err(ConfigError::PercentagesLengthMismatch { expected: n, got: self.partial_exit_percentages.len() });
        }
        if self.partial_exit_multipliers.len() != n {
            return Err(ConfigError::MultipliersLengthMismatch { expected: n, got: self.partial_exit_multipliers.len() });
        }
        let mut sum: u64 = 0;
        let mut i: usize = 0;
        while i < n
            invariant
                n == self.partial_exit_percentages@.len(),
                n <= 5,
                i <= n,
                sum == percent_sum(self.partial_exit_percentages@.take(i as int)),
                sum <= i * 0x1_0000_0000,
            decreases n - i,
        {
            proof {
                assert(self.partial_exit_percentages@.take(i as int + 1).drop_last()
                    =~= self.partial_exit_percentages@.take(i as int));
            }
            sum = sum + self.partial_exit_percentages[i] as u64;
            i = i + 1;
        }
        proof {
            assert(self.partial_exit_percentages@.take(n as int) =~= self.partial_exit_percentages@);
        }
        if sum != 100 {
            return Err(ConfigError::PercentagesDoNotSumTo100 { sum });
        }
        Ok(())
    }
}

/// The DynaGrid strategy's settings.
#[derive(Clone, Debug)]
pub struct DynaGridConfig {
    pub enabled: bool,
    pub symbol: Option<String>,
    /// Fraction of the free balance risked on the first entry (decimal).
    pub position_risk_percentage: Option<i64>,
    /// Width of the grid in percent (decimal).
    pub grid_range_pct: i64,
    /// Ratio of the winning side to the other (decimal).
    pub position_sizing_factor: i64,
    pub max_grid_levels: u8,
    pub min_entry_interval_minutes: u64,
    pub max_hold_time_hours: u32,
    pub leverage: u8,
    pub exit: ExitConfig,
    pub entry: EntryConfig,
}

impl Default for DynaGridConfig {
    /// Disabled, nothing set, default entry settings.
    fn default() -> (r: DynaGridConfig)
        ensures
            !r.enabled,
            r.symbol is None,
            r.position_risk_percentage is None,
            r.grid_range_pct == 0,
            r.position_sizing_factor == 0,
            r.max_grid_levels == 0,
            r.min_entry_interval_minutes == 0,
            r.max_hold_time_hours == 0,
            r.leverage == 0,
            !r.exit.partial_exit_enabled,
            r.exit.partial_exit_levels == 0,
            r.exit.partial_exit_percentages@.len() == 0,
            r.exit.partial_exit_multipliers@.len() == 0,
            r.entry.mode == EntryMode::Immediate,
            r.entry.ema_candles == 20,
            r.entry.ema_timeframe@ == "15"@,
            r.entry.ema_fallback,
    {
        DynaGridConfig {
            enabled: false,
            symbol: None,
            position_risk_percentage: None,
            grid_range_pct: 0,
            position_sizing_factor: 0,
            max_grid_levels: 0,
            min_entry_interval_minutes: 0,
            max_hold_time_hours: 0,
            leverage: 0,
            exit: ExitConfig::default(),
            entry: EntryConfig::default(),
        }
    }
}

/// The strategy is enabled by default.
pub fn default_enabled() -> (r: bool)
    ensures
        r,
{
    true
}

/// Default grid width: 2 percent.
pub fn default_grid_range() -> (r: i64)
    ensures
        r == 2 * SCALE,
{
    2 * SCALE
}

/// Default sizing factor: 1.5.
pub fn default_sizing_factor() -> (r: i64)
    ensures
        r == 3 * SCALE / 2,
{
    3 * SCALE / 2
}

/// Default number of grid levels: 4.
pub fn default_max_grid_levels() -> (r: u8)
    ensures
        r == 4,
{
    4
}

/// Default minimum interval between entries: 60 minutes.
pub fn default_min_entry_interval() -> (r: u64)
    ensures
        r == 60,
{
    60
}

/// Default maximum hold time: 168 hours.
pub fn default_max_hold_time() -> (r: u32)
    ensures
        r == 168,
{
    168
}

/// Default leverage: 5.
pub fn default_leverage() -> (r: u8)
    ensures
        r == 5,
{
    5
}

/// The candle intervals that the EMA entry accepts: 5, 15, 60 or 240 minutes.
pub open spec fn valid_timeframe(t: Seq<char>) -> bool {
    t == "5"@ || t == "15"@ || t == "60"@ || t == "240"@
}

/// The verdict on the entry settings.
pub open spec fn entry_check(e: EntryConfig) -> Result<(), ConfigError> {
    if e.ema_candles < 5 || e.ema_candles > 100 {
        Err(ConfigError::EmaCandlesOutOfRange { value: e.ema_candles })
    } else if !valid_timeframe(e.ema_timeframe@) {
        Err(ConfigError::InvalidEmaTimeframe { value: e.ema_timeframe })
    } else {
        Ok(())
    }
}

/// The verdict on the strategy settings, rules checked in this order.
pub open spec fn dynagrid_check(c: DynaGridConfig) -> Result<(), ConfigError> {
    if c.symbol is None {
        Err(ConfigError::MissingSymbol)
    } else if c.symbol->0@.len() == 0 {
        Err(ConfigError::EmptySymbol)
    } else if c.position_risk_percentage is None {
        Err(ConfigError::MissingRiskPercentage)
    } else if c.position_risk_percentage->0 <= 0 || c.position_risk_percentage->0 > SCALE / 2 {
        Err(ConfigError::RiskPercentageOutOfRange { value: c.position_risk_percentage->0 })
    } else if c.grid_range_pct <= 0 || c.grid_range_pct > 10 * SCALE {
        Err(ConfigError::GridRangeOutOfRange { value: c.grid_range_pct })
    } else if c.position_sizing_factor < 11 * SCALE / 10 || c.position_sizing_factor > 2 * SCALE {
        Err(ConfigError::SizingFactorOutOfRange { value: c.position_sizing_factor })
    } else if c.max_grid_levels == 0 || c.max_grid_levels > 10 {
        Err(ConfigError::MaxGridLevelsOutOfRange { value: c.max_grid_levels })
    } else if c.leverage == 0 || c.leverage > 100 {
        Err(ConfigError::LeverageOutOfRange { value: c.leverage })
    } else if exit_check(c.exit) is Err {
        exit_check(c.exit)
    } else {
        entry_check(c.entry)
    }
}

impl DynaGridConfig {
    /// Requires a non-empty symbol and a risk fraction in (0, 0.5]; a grid
    /// width in (0, 10] percent; a sizing factor in [1.1, 2.0]; one to ten grid
    /// levels; leverage from 1 to 100; a valid exit ladder and valid entry
    /// settings. The first rule broken is reported.
    pub fn validate(&self) -> (r: Result<(), ConfigError>)
        ensures
            r == dynagrid_check(*self),
    {
        match &self.symbol {
            None => return Err(ConfigError::MissingSymbol),
            Some(symbol) => {
                if symbol.as_str().unicode_len() == 0 {
                    return Err(ConfigError::EmptySymbol);
                }
            },
        }
        let risk_pct = match self.position_risk_percentage {
            None => return Err(ConfigError::MissingRiskPercentage),
            Some(p) => p,
        };
        if risk_pct <= 0 || risk_pct > SCALE / 2 {
            return Err(ConfigError::RiskPercentageOutOfRange { value: risk_pct });
        }
        if self.grid_range_pct <= 0 || self.grid_range_pct > 10 * SCALE {
            return Err(ConfigError::GridRangeOutOfRange { value: self.grid_range_pct });
        }
        if self.position_sizing_factor < 11 * SCALE / 10 || self.position_sizing_factor > 2 * SCALE {
            return Err(ConfigError::SizingFactorOutOfRange { value: self.position_sizing_factor });
        }
        if self.max_grid_levels == 0 || self.max_grid_levels > 10 {
            return Err(ConfigError::MaxGridLevelsOutOfRange { value: self.max_grid_levels });
        }
        if self.leverage == 0 || self.leverage > 100 {
            return Err(ConfigError::LeverageOutOfRange { value: self.leverage });
        }
        match self.exit.validate() {
            Err(e) => return Err(e),
            Ok(()) => {},
        }
        self.validate_entry()
    }

    /// Requires 5 to 100 EMA candles and a timeframe of 5, 15, 60 or 240
    /// minutes.
    fn validate_entry(&self) -> (r: Result<(), ConfigError>)
        ensures
            r == entry_check(self.entry),
    {
        if self.entry.ema_candles < 5 || self.entry.ema_candles > 100 {
            return Err(ConfigError::EmaCandlesOutOfRange { value: self.entry.ema_candles });
        }
        let t = self.entry.ema_timeframe.as_str();
        if !(str_equal(t, "5") || str_equal(t, "15") || str_equal(t, "60") || str_equal(t, "240")) {
            return Err(ConfigError::InvalidEmaTimeframe { value: self.entry.ema_timeframe.clone() });
        }
        Ok(())
    }

    /// The trading symbol; it must be set.
    pub fn symbol(&self) -> (r: &str)
        requires
            self.symbol is Some,
        ensures
            r@ == self.symbol->0@,
    {
        self.symbol.as_ref().unwrap().as_str()
    }

    /// The risk fraction; it must be set.
    pub fn risk_percentage(&self) -> (r: i64)
        requires
            self.position_risk_percentage is Some,
        ensures
            r == self.position_risk_percentage->0,
    {
        self.position_risk_percentage.unwrap()
    }
}

/// Strategy settings.
#[derive(Clone, Debug)]
pub struct StrategyConfig {
    pub dynagrid: DynaGridConfig,
}

impl Default for StrategyConfig {
    /// The default strategy settings (disabled).
    fn default() -> (r: StrategyConfig)
        ensures
            !r.dynagrid.enabled,
            r.dynagrid.symbol is None,
            r.dynagrid.position_risk_percentage is None,
    {
        StrategyConfig { dynagrid: DynaGridConfig::default() }
    }
}

/// The whole configuration.
#[derive(Clone, Debug)]
pub struct AppConfig {
    pub bot: BotConfig,
    pub api: ApiConfig,
    pub database: DatabaseConfig,
    pub risk: RiskConfig,
    pub strategy: StrategyConfig,
}

/// The verdict on a whole configuration: credentials first, then the
/// strategy settings, or, for a disabled strategy, its trading symbol.
pub open spec fn app_check(c: AppConfig) -> Result<(), ConfigError> {
    if c.api.production.key@.len() == 0 || c.api.production.secret@.len() == 0 {
        Err(ConfigError::MissingProductionCredentials)
    } else if c.api.demo.key@.len() == 0 || c.api.demo.secret@.len() == 0 {
        Err(ConfigError::MissingDemoCredentials)
    } else if c.strategy.dynagrid.enabled {
        dynagrid_check(c.strategy.dynagrid)
    } else if c.strategy.dynagrid.symbol is None {
        Err(ConfigError::MissingSymbol)
    } else if c.strategy.dynagrid.symbol->0@.len() == 0 {
        Err(ConfigError::EmptySymbol)
    } else {
        Ok(())
    }
}

impl AppConfig {
    /// Requires both accounts' key and secret, and valid strategy settings
    /// when the strategy is enabled; a disabled strategy still needs a
    /// non-empty trading symbol. (Creating the data directory is left to the
    /// caller.)
    pub fn validate(&self) -> (r: Result<(), ConfigError>)
        ensures
            r == app_check(*self),
    {
        if self.api.production.key.as_str().unicode_len() == 0
            || self.api.production.secret.as_str().unicode_len() == 0 {
            return Err(ConfigError::MissingProductionCredentials);
        }
        if self.api.demo.key.as_str().unicode_len() == 0 || self.api.demo.secret.as_str().unicode_len() == 0 {
            return Err(ConfigError::MissingDemoCredentials);
        }
        if self.strategy.dynagrid.enabled {
            return self.strategy.dynagrid.validate();
        }
        match &self.strategy.dynagrid.symbol {
            None => Err(ConfigError::MissingSymbol),
            Some(symbol) => if symbol.as_str().unicode_len() == 0 {
                Err(ConfigError::EmptySymbol)
            } else {
                Ok(())
            },
        }
    }
}

/// Settings at the documented defaults, with a symbol and a risk fraction in
/// (0, 0.5] set, pass validation.
pub proof fn lemma_default_settings_are_valid(c: DynaGridConfig)
    requires
        c.symbol matches Some(s) && s@.len() > 0,
        c.position_risk_percentage matches Some(r) && 0 < r <= SCALE / 2,
        c.grid_range_pct == 2 * SCALE,
        c.position_sizing_factor == 3 * SCALE / 2,
        c.max_grid_levels == 4,
        c.leverage == 5,
        c.exit.partial_exit_levels == 3,
        c.exit.partial_exit_percentages@ == seq![30u32, 30u32, 40u32],
        c.exit.partial_exit_multipliers@.len() == 3,
        c.entry.ema_candles == 20,
        c.entry.ema_timeframe@ == "15"@,
    ensures
        dynagrid_check(c) is Ok,
{
    let p = c.exit.partial_exit_percentages@;
    assert(p.drop_last() =~= seq![30u32, 30u32]);
    assert(p.drop_last().drop_last() =~= seq![30u32]);
    assert(p.drop_last().drop_last().drop_last() =~= Seq::<u32>::empty());
    assert(percent_sum(Seq::<u32>::empty()) == 0);
    assert(percent_sum(seq![30u32]) == 30);
    assert(percent_sum(seq![30u32, 30u32]) == 60);
    assert(percent_sum(p) == 100);
}

/// Entry settings with 5 to 100 candles are accepted on each of the
/// timeframes "5", "15", "60" and "240" minutes, and refused, naming the
/// timeframe, on any other.
pub proof fn lemma_entry_timeframes(e: EntryConfig)
    requires
        5 <= e.ema_candles <= 100,
    ensures
        e.ema_timeframe@ == "5"@ ==> entry_check(e) is Ok,
        e.ema_timeframe@ == "15"@ ==> entry_check(e) is Ok,
        e.ema_timeframe@ == "60"@ ==> entry_check(e) is Ok,
        e.ema_timeframe@ == "240"@ ==> entry_check(e) is Ok,
        !(e.ema_timeframe@ == "5"@ || e.ema_timeframe@ == "15"@ || e.ema_timeframe@ == "60"@ || e.ema_timeframe@
            == "240"@) ==> entry_check(e) == Err::<(), ConfigError>(
            ConfigError::InvalidEmaTimeframe { value: e.ema_timeframe },
        ),
{
}

} // verus!
