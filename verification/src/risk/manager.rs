//! The risk manager: daily loss and exposure limits on new trades, and the
//! strategy-level exit conditions (timeout, emergency stop loss).

use vstd::prelude::*;
use crate::config::RiskConfig;
use crate::db::models::{pnl_fits, timed_out_at, unrealized, StrategyState};
use crate::decimal::format_two_decimals;
use crate::error::{BotError, BotResult};
use crate::text::describe;
use crate::fixed::{
    dec_mul, exceeds_ratio, fits_i64, percent, percent_numerator, percent_of, ratio_below_one, ratio_exceeds,
    ratio_reaches, reaches_ratio, SCALE,
};

verus! {

/// The loss `-pnl` in percent of `base` (see `percent_of`), negated within
/// `i64`: `i64::MIN` (-infinity or NaN) becomes `i64::MAX`.
pub open spec fn loss_percent_of(pnl: int, base: int) -> int {
    if percent_of(pnl, base) == i64::MIN {
        i64::MAX as int
    } else {
        -percent_of(pnl, base)
    }
}

/// The loss `-pnl` in percent of `base`, for messages (see `loss_percent_of`).
fn loss_percent(pnl: i64, base: i64) -> (r: i64)
    ensures
        r == loss_percent_of(pnl as int, base as int),
{
    let p = percent(pnl, base);
    if p == i64::MIN {
        i64::MAX
    } else {
        -p
    }
}

/// Statistics of the current trading day. Decimal fields are fixed-point.
#[derive(Clone, Copy, Debug)]
pub struct DailyStats {
    /// The UTC date, as a day number of the common era.
    pub date: i32,
    pub starting_balance: i64,
    pub current_balance: i64,
    pub total_pnl: i64,
    pub total_exposure: i64,
    pub trade_count: u32,
    pub loss_streak: u32,
}

/// The statistics of a day that starts with `balance`.
pub open spec fn fresh_stats(balance: i64, date: i32) -> DailyStats {
    DailyStats {
        date,
        starting_balance: balance,
        current_balance: balance,
        total_pnl: 0,
        total_exposure: 0,
        trade_count: 0,
        loss_streak: 0,
    }
}

/// The statistics after a date check: a new day starts afresh from `balance`.
pub open spec fn rolled_over(s: DailyStats, today: i32, balance: i64) -> DailyStats {
    if s.date != today {
        fresh_stats(balance, today)
    } else {
        s
    }
}

/// The statistics after the balance `balance` is observed: the day's P&L is
/// measured from the starting balance, and each observation with a loss
/// lengthens the loss streak while any other resets it.
pub open spec fn with_balance(s: DailyStats, balance: i64) -> DailyStats {
    let pnl = balance - s.starting_balance;
    DailyStats {
        total_pnl: pnl as i64,
        current_balance: balance,
        loss_streak: if pnl < 0 { (s.loss_streak + 1) as u32 } else { 0 },
        ..s
    }
}

/// Observing `balance` can be recorded without overflow.
pub open spec fn can_observe(s: DailyStats, balance: i64) -> bool {
    &&& fits_i64(balance - s.starting_balance)
    &&& balance - s.starting_balance < 0 ==> s.loss_streak < u32::MAX
}

/// The statistics after a date check and a balance observation.
pub open spec fn observed(s: DailyStats, today: i32, balance: i64) -> DailyStats {
    with_balance(rolled_over(s, today, balance), balance)
}

impl DailyStats {
    /// A day starting with `starting_balance`.
    pub fn new(starting_balance: i64, date: i32) -> (r: DailyStats)
        ensures
            r == fresh_stats(starting_balance, date),
    {
        DailyStats {
            date,
            starting_balance,
            current_balance: starting_balance,
            total_pnl: 0,
            total_exposure: 0,
            trade_count: 0,
            loss_streak: 0,
        }
    }

    /// Starts afresh from `current_balance` when `today` is another day.
    pub fn reset_if_new_day(&mut self, today: i32, current_balance: i64)
        ensures
            *final(self) == rolled_over(*old(self), today, current_balance),
    {
        if self.date != today {
            *self = DailyStats::new(current_balance, today);
        }
    }

    /// Records the balance `new_balance`.
    pub fn update_balance(&mut self, new_balance: i64)
        requires
            can_observe(*old(self), new_balance),
        ensures
            *final(self) == with_balance(*old(self), new_balance),
    {
        self.total_pnl = new_balance - self.starting_balance;
        self.current_balance = new_balance;
        if self.total_pnl < 0 {
            self.loss_streak = self.loss_streak + 1;
        } else {
            self.loss_streak = 0;
        }
    }
}

/// The outcome of a trade check.
#[derive(Clone, Copy, Debug, PartialEq, Eq, Structural)]
pub enum TradeVerdict {
    Allowed,
    /// The day's loss, in percent of the starting balance, exceeds the limit.
    DailyLossLimit,
    /// The exposure after the trade, in percent of the balance, would exceed
    /// the limit.
    ExposureLimit,
}

/// The verdict on a trade of `new_value` on top of `exposure`, given the
/// day's statistics `s` after observing `balance`. The daily loss is checked
/// first: its percentage `-pnl / starting_balance * 100` must not exceed the
/// limit (reaching it is allowed); then `(exposure + new_value) / balance * 100`
/// must not exceed the exposure limit.
pub open spec fn trade_verdict(cfg: RiskConfig, s: DailyStats, balance: i64, new_value: i64, exposure: i64) -> TradeVerdict {
    if ratio_exceeds(-s.total_pnl * 100 * SCALE, s.starting_balance as int, cfg.max_daily_loss_pct as int) {
        TradeVerdict::DailyLossLimit
    } else if ratio_exceeds((exposure + new_value) * 100 * SCALE, balance as int, cfg.max_total_exposure_pct as int) {
        TradeVerdict::ExposureLimit
    } else {
        TradeVerdict::Allowed
    }
}

/// What a trade check on day `today` leaves behind: the statistics after the
/// observation, and, for an allowed trade, the exposure recorded and one more
/// trade counted; a refused trade is a non-retryable API error and counts
/// nothing.
pub open spec fn trade_check_post(
    old_rm: RiskManager,
    new_rm: RiskManager,
    today: i32,
    balance: i64,
    new_value: i64,
    exposure: i64,
    r: BotResult<()>,
) -> bool {
    let s = observed(old_rm.daily_stats, today, balance);
    let v = trade_verdict(old_rm.config, s, balance, new_value, exposure);
    &&& new_rm.config == old_rm.config
    &&& v == TradeVerdict::Allowed ==> {
        &&& r is Ok
        &&& new_rm.daily_stats == DailyStats {
            total_exposure: exposure,
            trade_count: (s.trade_count + 1) as u32,
            ..s
        }
    }
    &&& v != TradeVerdict::Allowed ==> {
        &&& r matches Err(BotError::ApiError { retryable, .. }) && !retryable
        &&& new_rm.daily_stats == s
    }
}

/// The day's statistics after a trade check: the balance observed, and for
/// an allowed trade, its exposure recorded and one more trade counted.
pub open spec fn stats_after_trade_check(rm: RiskManager, today: i32, balance: i64, new_value: i64, exposure: i64) -> DailyStats {
    let s = observed(rm.daily_stats, today, balance);
    if trade_verdict(rm.config, s, balance, new_value, exposure) == TradeVerdict::Allowed {
        DailyStats { total_exposure: exposure, trade_count: (s.trade_count + 1) as u32, ..s }
    } else {
        s
    }
}

/// A trade check on day `today` can proceed without overflow.
pub open spec fn trade_check_ready(rm: RiskManager, today: i32, balance: i64, new_value: i64, exposure: i64) -> bool {
    let s0 = rolled_over(rm.daily_stats, today, balance);
    let s = with_balance(s0, balance);
    &&& can_observe(s0, balance)
    &&& trade_verdict(rm.config, s, balance, new_value, exposure) == TradeVerdict::Allowed
        ==> s.trade_count < u32::MAX
}

/// Enforces the risk limits. Decimal fields are fixed-point.
#[derive(Clone, Copy, Debug)]
pub struct RiskManager {
    pub config: RiskConfig,
    pub daily_stats: DailyStats,
}

/// The status of the strategy with respect to its risk limits.
#[derive(Clone, Debug)]
pub enum RiskStatus {
    Normal,
    Warning { message: String },
    ExitRequired { reason: String },
    EmergencyExit { reason: String },
}

/// The strategy's risk status at time `now`: past the hold deadline an exit
/// is required; otherwise, with capital allocated, a loss of at least the
/// emergency stop-loss percentage of that capital calls for an emergency exit.
pub open spec fn strategy_status_kind(
    cfg: RiskConfig,
    now: int,
    state: StrategyState,
    price: int,
    allocated: int,
) -> RiskStatusKind {
    if timed_out_at(state.max_hold_until, now) {
        RiskStatusKind::ExitRequired
    } else if allocated > 0 && ratio_reaches(
        -(state.realized_pnl + unrealized(state, price)) * 100 * SCALE,
        allocated,
        cfg.emergency_stop_loss_pct as int,
    ) {
        RiskStatusKind::EmergencyExit
    } else {
        RiskStatusKind::Normal
    }
}

/// The variant of a `RiskStatus`.
#[derive(Clone, Copy, Debug, PartialEq, Eq, Structural)]
pub enum RiskStatusKind {
    Normal,
    Warning,
    ExitRequired,
    EmergencyExit,
}

impl RiskStatus {
    /// The variant of the status.
    pub open spec fn kind(self) -> RiskStatusKind {
        match self {
            RiskStatus::Normal => RiskStatusKind::Normal,
            RiskStatus::Warning { .. } => RiskStatusKind::Warning,
            RiskStatus::ExitRequired { .. } => RiskStatusKind::ExitRequired,
            RiskStatus::EmergencyExit { .. } => RiskStatusKind::EmergencyExit,
        }
    }

    /// Whether the status calls for an emergency exit.
    pub fn is_critical(&self) -> (r: bool)
        ensures
            r == (self.kind() == RiskStatusKind::EmergencyExit),
    {
        match self {
            RiskStatus::EmergencyExit { .. } => true,
            _ => false,
        }
    }

    /// Whether the status calls for closing the positions.
    pub fn requires_exit(&self) -> (r: bool)
        ensures
            r == (self.kind() == RiskStatusKind::ExitRequired || self.kind() == RiskStatusKind::EmergencyExit),
    {
        match self {
            RiskStatus::ExitRequired { .. } | RiskStatus::EmergencyExit { .. } => true,
            _ => false,
        }
    }
}

/// Every critical status requires an exit.
pub proof fn lemma_critical_status_requires_exit(s: RiskStatus)
    ensures
        s.kind() == RiskStatusKind::EmergencyExit ==> (s.kind() == RiskStatusKind::ExitRequired || s.kind()
            == RiskStatusKind::EmergencyExit),
{
}

/// A snapshot of the risk figures. Decimal fields are fixed-point.
#[derive(Clone, Copy, Debug)]
pub struct RiskMetrics {
    pub daily_pnl: i64,
    /// The day's P&L in percent of the starting balance (see `percent_of`).
    pub daily_pnl_pct: i64,
    pub daily_loss_limit_pct: i64,
    pub current_exposure: i64,
    pub max_exposure_pct: i64,
    pub trade_count: u32,
    pub loss_streak: u32,
}

/// The risk figures of the day's statistics `s`.
pub open spec fn metrics_of(cfg: RiskConfig, s: DailyStats) -> RiskMetrics {
    RiskMetrics {
        daily_pnl: s.total_pnl,
        daily_pnl_pct: percent_of(s.total_pnl as int, s.starting_balance as int) as i64,
        daily_loss_limit_pct: cfg.max_daily_loss_pct,
        current_exposure: s.total_exposure,
        max_exposure_pct: cfg.max_total_exposure_pct,
        trade_count: s.trade_count,
        loss_streak: s.loss_streak,
    }
}

impl RiskMetrics {
    /// Within limits: the day's P&L percentage is above minus the loss limit,
    /// and the exposure is below the exposure limit (their quotient, as a
    /// real number, below one).
    pub fn is_within_limits(&self) -> (r: bool)
        ensures
            r == (self.daily_pnl_pct > -(self.daily_loss_limit_pct as int) && ratio_below_one(
                self.current_exposure as int,
                self.max_exposure_pct as int,
            )),
    {
        let limit: i128 = -(self.daily_loss_limit_pct as i128);
        let below = if self.max_exposure_pct > 0 {
            self.current_exposure < self.max_exposure_pct
        } else if self.max_exposure_pct < 0 {
            self.current_exposure > self.max_exposure_pct
        } else {
            self.current_exposure < 0
        };
        (self.daily_pnl_pct as i128) > limit && below
    }
}

impl RiskManager {
    /// A manager with `config`, its day `today` started at zero balance.
    pub fn new(config: RiskConfig, today: i32) -> (r: RiskManager)
        ensures
            r.config == config,
            r.daily_stats == fresh_stats(0, today),
    {
        RiskManager { config, daily_stats: DailyStats::new(0, today) }
    }

    /// Starts the statistics of day `today` from `current_balance`.
    pub fn initialize(&mut self, current_balance: i64, today: i32) -> (r: BotResult<()>)
        ensures
            r is Ok,
            final(self).config == old(self).config,
            final(self).daily_stats == fresh_stats(current_balance, today),
    {
        self.daily_stats = DailyStats::new(current_balance, today);
        Ok(())
    }

    /// Whether a trade worth `new_position_value` may be opened on day
    /// `today`, with `current_exposure` already open and the balance at
    /// `current_balance`. The day's statistics are rolled over to `today` and
    /// the balance observed; the trade is refused when the day's loss exceeds
    /// the daily limit or the resulting exposure would exceed the exposure
    /// limit.
    pub fn check_trade_allowed(
        &mut self,
        today: i32,
        current_balance: i64,
        new_position_value: i64,
        current_exposure: i64,
    ) -> (r: BotResult<()>)
        requires
            trade_check_ready(*old(self), today, current_balance, new_position_value, current_exposure),
        ensures
            trade_check_post(*old(self), *final(self), today, current_balance, new_position_value, current_exposure, r),
    {
        self.daily_stats.reset_if_new_day(today, current_balance);
        self.daily_stats.update_balance(current_balance);
        let loss: i128 = percent_numerator(-(self.daily_stats.total_pnl as i128));
        if exceeds_ratio(loss, self.daily_stats.starting_balance, self.config.max_daily_loss_pct) {
            let shown = loss_percent(self.daily_stats.total_pnl, self.daily_stats.starting_balance);
            let message = describe("Daily loss limit reached: ", format_two_decimals(shown).as_str(), "%");
            return Err(BotError::ApiError { message, retryable: false });
        }
        let new_total: i128 = (current_exposure as i128) + (new_position_value as i128);
        let scaled: i128 = percent_numerator(new_total);
        if exceeds_ratio(scaled, current_balance, self.config.max_total_exposure_pct) {
            let shown = if new_total > i64::MAX as i128 {
                i64::MAX
            } else if new_total < i64::MIN as i128 {
                i64::MIN
            } else {
                percent(new_total as i64, current_balance)
            };
            let message = describe("Max exposure limit would be exceeded: ", format_two_decimals(shown).as_str(), "%");
            return Err(BotError::ApiError { message, retryable: false });
        }
        self.daily_stats.total_exposure = current_exposure;
        self.daily_stats.trade_count = self.daily_stats.trade_count + 1;
        Ok(())
    }

    /// The strategy's risk status at time `now` (milliseconds), with
    /// `allocated_capital` committed: an exit is required past the hold
    /// deadline, and an emergency exit when the total P&L at `current_price`
    /// is a loss of at least the emergency stop-loss percentage of the
    /// capital. Never an error.
    pub fn check_strategy_risk(
        &self,
        now: i64,
        state: &StrategyState,
        current_price: i64,
        allocated_capital: i64,
    ) -> (r: BotResult<RiskStatus>)
        requires
            allocated_capital > 0 ==> pnl_fits(*state, current_price as int),
        ensures
            r matches Ok(status) && status.kind() == strategy_status_kind(
                self.config,
                now as int,
                *state,
                current_price as int,
                allocated_capital as int,
            ),
    {
        if state.is_timed_out(now) {
            return Ok(RiskStatus::ExitRequired { reason: "Strategy timeout".to_owned() });
        }
        if allocated_capital > 0 {
            let total_pnl = state.total_pnl(current_price);
            let loss: i128 = percent_numerator(-(total_pnl as i128));
            if reaches_ratio(loss, allocated_capital, self.config.emergency_stop_loss_pct) {
                let shown = loss_percent(total_pnl, allocated_capital);
                let reason = describe("Stop loss: ", format_two_decimals(shown).as_str(), "%");
                return Ok(RiskStatus::EmergencyExit { reason });
            }
        }
        Ok(RiskStatus::Normal)
    }

    /// The risk figures on day `today` with the balance at `current_balance`,
    /// after rolling the statistics over and observing the balance.
    pub fn get_risk_metrics(&mut self, today: i32, current_balance: i64) -> (r: RiskMetrics)
        requires
            can_observe(rolled_over(old(self).daily_stats, today, current_balance), current_balance),
        ensures
            final(self).config == old(self).config,
            final(self).daily_stats == observed(old(self).daily_stats, today, current_balance),
            r == metrics_of(old(self).config, final(self).daily_stats),
    {
        self.daily_stats.reset_if_new_day(today, current_balance);
        self.daily_stats.update_balance(current_balance);
        let stats = self.daily_stats;
        RiskMetrics {
            daily_pnl: stats.total_pnl,
            daily_pnl_pct: percent(stats.total_pnl, stats.starting_balance),
            daily_loss_limit_pct: self.config.max_daily_loss_pct,
            current_exposure: stats.total_exposure,
            max_exposure_pct: self.config.max_total_exposure_pct,
            trade_count: stats.trade_count,
            loss_streak: stats.loss_streak,
        }
    }

    /// Records the current exposure.
    pub fn update_exposure(&mut self, exposure: i64)
        ensures
            *final(self) == (RiskManager {
                daily_stats: DailyStats { total_exposure: exposure, ..old(self).daily_stats },
                ..*old(self)
            }),
    {
        self.daily_stats.total_exposure = exposure;
    }

    /// Records a completed trade with P&L `pnl`: added to the day's P&L, one
    /// more trade counted, the loss streak lengthened by a loss and reset
    /// otherwise.
    pub fn record_trade(&mut self, pnl: i64)
        requires
            fits_i64(old(self).daily_stats.total_pnl + pnl),
            old(self).daily_stats.trade_count < u32::MAX,
            pnl < 0 ==> old(self).daily_stats.loss_streak < u32::MAX,
        ensures
            *final(self) == (RiskManager {
                daily_stats: DailyStats {
                    total_pnl: (old(self).daily_stats.total_pnl + pnl) as i64,
                    trade_count: (old(self).daily_stats.trade_count + 1) as u32,
                    loss_streak: if pnl < 0 {
                        (old(self).daily_stats.loss_streak + 1) as u32
                    } else {
                        0
                    },
                    ..old(self).daily_stats
                },
                ..*old(self)
            }),
    {
        self.daily_stats.total_pnl = self.daily_stats.total_pnl + pnl;
        self.daily_stats.trade_count = self.daily_stats.trade_count + 1;
        if pnl < 0 {
            self.daily_stats.loss_streak = self.daily_stats.loss_streak + 1;
        } else {
            self.daily_stats.loss_streak = 0;
        }
    }
}

/// A day's loss that reaches the daily limit exactly does not block a trade:
/// only a loss beyond the limit does.
pub proof fn lemma_loss_at_limit_is_allowed(cfg: RiskConfig, s: DailyStats, balance: i64, new_value: i64, exposure: i64)
    requires
        s.starting_balance > 0,
        -s.total_pnl * 100 * SCALE == cfg.max_daily_loss_pct * s.starting_balance,
    ensures
        trade_verdict(cfg, s, balance, new_value, exposure) != TradeVerdict::DailyLossLimit,
{
}

/// A day's loss beyond the daily limit blocks every trade, whatever its size.
pub proof fn lemma_loss_beyond_limit_is_refused(cfg: RiskConfig, s: DailyStats, balance: i64, new_value: i64, exposure: i64)
    requires
        s.starting_balance > 0,
        -s.total_pnl * 100 * SCALE > cfg.max_daily_loss_pct * s.starting_balance,
    ensures
        trade_verdict(cfg, s, balance, new_value, exposure) == TradeVerdict::DailyLossLimit,
{
}

/// A refused trade is not counted and records no exposure: the statistics
/// are those of the balance observation alone.
pub proof fn lemma_refused_trade_counts_nothing(
    old_rm: RiskManager,
    new_rm: RiskManager,
    today: i32,
    balance: i64,
    new_value: i64,
    exposure: i64,
    r: BotResult<()>,
)
    requires
        trade_check_post(old_rm, new_rm, today, balance, new_value, exposure, r),
        r is Err,
    ensures
        new_rm.daily_stats.trade_count == rolled_over(old_rm.daily_stats, today, balance).trade_count,
        new_rm.daily_stats.total_exposure == rolled_over(old_rm.daily_stats, today, balance).total_exposure,
{
}

/// An allowed trade is counted once and its exposure recorded.
pub proof fn lemma_allowed_trade_counted_once(
    old_rm: RiskManager,
    new_rm: RiskManager,
    today: i32,
    balance: i64,
    new_value: i64,
    exposure: i64,
    r: BotResult<()>,
)
    requires
        trade_check_post(old_rm, new_rm, today, balance, new_value, exposure, r),
        r is Ok,
        rolled_over(old_rm.daily_stats, today, balance).trade_count < u32::MAX,
    ensures
        new_rm.daily_stats.trade_count == rolled_over(old_rm.daily_stats, today, balance).trade_count + 1,
        new_rm.daily_stats.total_exposure == exposure,
{
    let s = observed(old_rm.daily_stats, today, balance);
    if trade_verdict(old_rm.config, s, balance, new_value, exposure) != TradeVerdict::Allowed {
        assert(r is Err);
    }
}

/// On a new day the statistics start again from the balance observed: no
/// P&L, no exposure, no trades, no losses in a row.
pub proof fn lemma_new_day_starts_afresh(s: DailyStats, today: i32, balance: i64)
    requires
        s.date != today,
    ensures
        observed(s, today, balance).date == today,
        observed(s, today, balance).starting_balance == balance,
        observed(s, today, balance).current_balance == balance,
        observed(s, today, balance).total_pnl == 0,
        observed(s, today, balance).total_exposure == 0,
        observed(s, today, balance).trade_count == 0,
        observed(s, today, balance).loss_streak == 0,
{
}

/// Within the daily loss limit, a trade that would take the exposure beyond
/// its limit (in percent of a positive balance) is refused for exposure.
pub proof fn lemma_exposure_beyond_limit_is_refused(
    cfg: RiskConfig,
    s: DailyStats,
    balance: i64,
    new_value: i64,
    exposure: i64,
)
    requires
        s.starting_balance > 0,
        balance > 0,
        -s.total_pnl * 100 * SCALE <= cfg.max_daily_loss_pct * s.starting_balance,
        (exposure + new_value) * 100 * SCALE > cfg.max_total_exposure_pct * balance,
    ensures
        trade_verdict(cfg, s, balance, new_value, exposure) == TradeVerdict::ExposureLimit,
{
}

/// A trade within both limits (daily loss and exposure, in percent of
/// positive balances) is allowed.
pub proof fn lemma_trade_within_limits_is_allowed(
    cfg: RiskConfig,
    s: DailyStats,
    balance: i64,
    new_value: i64,
    exposure: i64,
)
    requires
        s.starting_balance > 0,
        balance > 0,
        -s.total_pnl * 100 * SCALE <= cfg.max_daily_loss_pct * s.starting_balance,
        (exposure + new_value) * 100 * SCALE <= cfg.max_total_exposure_pct * balance,
    ensures
        trade_verdict(cfg, s, balance, new_value, exposure) == TradeVerdict::Allowed,
{
}

/// Before the deadline, with capital allocated, the emergency exit is called
/// exactly when the total loss, realized plus each held leg's loss at the
/// price, is at least the emergency stop-loss percentage of the allocated
/// capital; otherwise the status is normal. The realized P&L counts: of two
/// states that differ only in it, the one with the larger realized loss is
/// stopped whenever the other is.
pub proof fn lemma_emergency_exit_counts_total_loss(
    cfg: RiskConfig,
    now: int,
    s: StrategyState,
    price: int,
    allocated: int,
    more_loss: int,
)
    requires
        allocated > 0,
        !timed_out_at(s.max_hold_until, now),
        more_loss >= 0,
    ensures
        ({
            let long_leg = if s.long_size > 0 { dec_mul(s.long_size as int, price - s.long_avg_price) } else { 0 };
            let short_leg = if s.short_size > 0 { dec_mul(s.short_size as int, s.short_avg_price - price) } else { 0 };
            let loss = -(s.realized_pnl + long_leg + short_leg);
            &&& strategy_status_kind(cfg, now, s, price, allocated) == RiskStatusKind::EmergencyExit <==> loss * 100
                * SCALE >= cfg.emergency_stop_loss_pct * allocated
            &&& strategy_status_kind(cfg, now, s, price, allocated) != RiskStatusKind::EmergencyExit
                ==> strategy_status_kind(cfg, now, s, price, allocated) == RiskStatusKind::Normal
        }),
        fits_i64(s.realized_pnl - more_loss) && strategy_status_kind(cfg, now, s, price, allocated)
            == RiskStatusKind::EmergencyExit ==> strategy_status_kind(
            cfg,
            now,
            StrategyState { realized_pnl: (s.realized_pnl - more_loss) as i64, ..s },
            price,
            allocated,
        ) == RiskStatusKind::EmergencyExit,
{
}

} // verus!
