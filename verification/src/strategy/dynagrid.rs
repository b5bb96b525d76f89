//! The DynaGrid strategy's decisions. The engine keeps the strategy's state;
//! the caller performs the exchange and database work that the decisions
//! call for and reports back (an entry filled, a leg closed).

use vstd::prelude::*;
use crate::clock::MILLIS_PER_HOUR;
use crate::config::{DynaGridConfig, EntryMode, ExitConfig, RiskConfig};
use crate::db::models::{pnl_fits, timed_out_at, OrderRequest, PartialExitRecord, StrategyState};
use crate::decimal::{format_two_decimals, format_u64, nat_digits, two_decimal_text};
use crate::error::{spec_is_critical, BotError, BotResult};
use crate::text::describe;
use crate::api::rest::{ascii_lower, close_target, equal_ignoring_ascii_case};
use crate::fixed::{
    clamp_i64, dec_div, dec_mul, ddiv, div_toward_zero, dmul, exceeds_ratio, fits_i64, percent_numerator, ratio_exceeds,
    SCALE,
};
use vstd::arithmetic::div_mod::{
    lemma_div_is_ordered, lemma_div_is_ordered_by_denominator, lemma_div_multiples_vanish, lemma_div_pos_is_pos,
};
use crate::risk::manager::{
    fresh_stats, observed, stats_after_trade_check, strategy_status_kind, trade_check_ready, trade_verdict, DailyStats,
    RiskManager, RiskStatus, RiskStatusKind, TradeVerdict,
};
use crate::strategy::types::{
    grid_half_range, ladder_check, next_size, ExitLadderError, next_size_fits, zone_of, EnterAction, ExitAction, ExitLevel,
    ExitReason, GridConfig, PartialExitConfig, PositionSizing, Side, StrategyResult, Zone,
};

verus! {

/// The rungs built from an exit configuration: percentages and multipliers
/// paired in order, as many as the shorter list holds.
pub open spec fn exit_levels_of(exit: ExitConfig) -> Seq<ExitLevel> {
    let p = exit.partial_exit_percentages@;
    let m = exit.partial_exit_multipliers@;
    let n = if p.len() <= m.len() { p.len() } else { m.len() };
    Seq::new(n, |i: int| ExitLevel { percentage: (p[i] * SCALE) as i64, distance_multiplier: m[i] })
}

/// Whether a saved state is resumed: it exists and is active.
pub open spec fn resumes(saved: Option<StrategyState>) -> bool {
    saved matches Some(s) && s.is_active
}

/// The grid restored from a saved state: present when both bounds were saved.
pub open spec fn restored_grid(s: StrategyState, range_pct: i64) -> Option<GridConfig> {
    if s.grid_upper_price is Some && s.grid_lower_price is Some {
        Some(GridConfig {
            upper_price: s.grid_upper_price->0,
            lower_price: s.grid_lower_price->0,
            range_pct,
        })
    } else {
        None
    }
}

/// The size of one level restored from a saved state: the initial value
/// spread over the levels entered, or zero when there is none.
pub open spec fn restored_size(s: StrategyState) -> int {
    if s.initial_position_value_usdt > 0 && s.grid_level > 0 {
        (s.initial_position_value_usdt as int) / (s.grid_level as int)
    } else {
        0
    }
}

/// Entries are refused below this order value: 10 USDT.
pub open spec fn min_order_value() -> int {
    10 * SCALE
}

/// Whether the winning side already outweighs the other by the sizing
/// factor in `zone`, with long and short valued at `lv` and `sv`.
pub open spec fn already_balanced(zone: Zone, lv: int, sv: int, factor: int) -> bool {
    match zone {
        Zone::Upper => lv >= dec_mul(sv, factor),
        Zone::Lower => sv >= dec_mul(lv, factor),
    }
}

/// The winning side and its figures: the zone toward which it points, its
/// average entry, its size and the other side's size. No side wins when the
/// sizes are equal.
pub open spec fn winner(s: StrategyState) -> Option<(Zone, int, int, int)> {
    if s.long_size > s.short_size {
        Some((Zone::Upper, s.long_avg_price as int, s.long_size as int, s.short_size as int))
    } else if s.short_size > s.long_size {
        Some((Zone::Lower, s.short_avg_price as int, s.short_size as int, s.long_size as int))
    } else {
        None
    }
}

/// The part of `size` that a rung of `pct` percent closes.
pub open spec fn portion(size: int, pct: int) -> int {
    div_toward_zero(size * pct, 100 * SCALE)
}

/// Whether rung `i` triggers at `price`: the price has reached the rung's
/// exit price in the winning direction.
pub open spec fn rung_triggers(
    cfg: PartialExitConfig,
    i: int,
    zone: Zone,
    grid_range: int,
    entry: int,
    price: int,
) -> bool {
    let p = cfg.exit_price(i, zone, grid_range, entry);
    match zone {
        Zone::Upper => price >= p,
        Zone::Lower => price <= p,
    }
}

/// The exit that rung `i` calls for: its percentage of each side, the last
/// rung taking the final profit.
pub open spec fn rung_exit(cfg: PartialExitConfig, i: int, zone: Zone, win: int, lose: int) -> ExitAction {
    let pct = cfg.levels@[i].percentage as int;
    let close_win = portion(win, pct);
    let close_lose = portion(lose, pct);
    ExitAction {
        level: (i + 1) as usize,
        close_long_qty: (if zone == Zone::Upper { close_win } else { close_lose }) as i64,
        close_short_qty: (if zone == Zone::Upper { close_lose } else { close_win }) as i64,
        reason: if i == cfg.levels@.len() - 1 {
            ExitReason::FinalTakeProfit
        } else {
            ExitReason::PartialTakeProfit { level: (i + 1) as usize }
        },
    }
}

/// The state after an entry of `qty` on `side` at `price`, at time `now`:
/// the side's size grows, its average price becomes the value-weighted
/// average, one more grid level is entered.
pub open spec fn entered(s: StrategyState, side: Side, qty: int, price: int, now: i64) -> StrategyState {
    match side {
        Side::Buy => {
            let total = dec_mul(s.long_size as int, s.long_avg_price as int) + dec_mul(qty, price);
            let size = s.long_size + qty;
            StrategyState {
                long_size: size as i64,
                long_avg_price: (if size > 0 { dec_div(total, size) } else { s.long_avg_price as int }) as i64,
                grid_level: (s.grid_level + 1) as u8,
                last_action_time: Some(now),
                ..s
            }
        },
        Side::Sell => {
            let total = dec_mul(s.short_size as int, s.short_avg_price as int) + dec_mul(qty, price);
            let size = s.short_size + qty;
            StrategyState {
                short_size: size as i64,
                short_avg_price: (if size > 0 { dec_div(total, size) } else { s.short_avg_price as int }) as i64,
                grid_level: (s.grid_level + 1) as u8,
                last_action_time: Some(now),
                ..s
            }
        },
    }
}

/// The entry computation fits in `i64`.
pub open spec fn entry_update_fits(s: StrategyState, side: Side, qty: int, price: int) -> bool {
    let (size, avg) = match side {
        Side::Buy => (s.long_size as int, s.long_avg_price as int),
        Side::Sell => (s.short_size as int, s.short_avg_price as int),
    };
    let total = dec_mul(size, avg) + dec_mul(qty, price);
    &&& fits_i64(dec_mul(size, avg))
    &&& fits_i64(dec_mul(qty, price))
    &&& fits_i64(total)
    &&& fits_i64(size + qty)
    &&& size + qty > 0 ==> fits_i64(dec_div(total, size + qty))
}


/// The entry that the strategy takes at `price` at time `now`, given that a
/// grid is set: none once the level limit is reached, past the hold
/// deadline, inside the grid, or when the winning side already outweighs the
/// other by the sizing factor; otherwise the sized order toward the zone,
/// unless it is worth less than the minimum order value.
pub open spec fn entry_decision(e: DynaGridEngine, now: int, price: int) -> Option<EnterAction> {
    let grid = e.grid_config->0;
    let s = e.state;
    let f = e.config.position_sizing_factor as int;
    if s.grid_level >= e.config.max_grid_levels {
        None
    } else if timed_out_at(s.max_hold_until, now) {
        None
    } else {
        match zone_of(grid.upper_price as int, grid.lower_price as int, price) {
            None => None,
            Some(zone) => {
                let lv = dec_mul(s.long_size as int, price);
                let sv = dec_mul(s.short_size as int, price);
                if already_balanced(zone, lv, sv, f) {
                    None
                } else {
                    let qty = next_size(
                        s.initial_position_value_usdt as int,
                        f,
                        s.long_size as int,
                        s.short_size as int,
                        zone,
                        price,
                    );
                    if dec_mul(qty, price) < min_order_value() {
                        None
                    } else {
                        Some(EnterAction { side: zone.spec_side(), qty: qty as i64, zone, price: None })
                    }
                }
            },
        }
    }
}

/// The entry check at `price` can be computed: the values it compares fit in
/// `i64`, and when an order is sized the risk fraction is set and the price
/// positive.
pub open spec fn entry_ready(e: DynaGridEngine, price: int) -> bool {
    let grid = e.grid_config->0;
    let s = e.state;
    let f = e.config.position_sizing_factor as int;
    let lv = dec_mul(s.long_size as int, price);
    let sv = dec_mul(s.short_size as int, price);
    s.grid_level < e.config.max_grid_levels && zone_of(grid.upper_price as int, grid.lower_price as int, price) is Some
        ==> {
        let zone = zone_of(grid.upper_price as int, grid.lower_price as int, price)->0;
        &&& fits_i64(lv)
        &&& fits_i64(sv)
        &&& fits_i64(dec_mul(sv, f))
        &&& fits_i64(dec_mul(lv, f))
        &&& !already_balanced(zone, lv, sv, f) ==> {
            let qty = next_size(s.initial_position_value_usdt as int, f, s.long_size as int, s.short_size as int, zone, price);
            &&& e.config.position_risk_percentage is Some
            &&& price > 0
            &&& next_size_fits(s.initial_position_value_usdt as int, f, s.long_size as int, s.short_size as int, zone, price)
            &&& fits_i64(dec_mul(qty, price))
        }
    }
}

/// The exit check at `price` can be computed: the grid width, every rung's
/// exit price and the portions it closes fit in `i64`.
pub open spec fn exit_ready(e: DynaGridEngine, price: int) -> bool {
    let grid = e.grid_config->0;
    let range = grid.upper_price - grid.lower_price;
    let cfg = e.partial_exit_config;
    &&& fits_i64(range)
    &&& winner(e.state) matches Some(w) ==> forall|i: int|
        0 <= i < cfg.levels@.len() ==> {
            &&& fits_i64(#[trigger] cfg.exit_distance(i, range))
            &&& fits_i64(cfg.exit_price(i, w.0, range, w.1))
            &&& fits_i64(portion(w.2, cfg.levels@[i].percentage as int))
            &&& fits_i64(portion(w.3, cfg.levels@[i].percentage as int))
        }
}


/// The record of an exit `a` at `price` with realized P&L `pnl`: each leg's
/// quantity and close price, given only when that leg is closed.
pub open spec fn exit_record(a: ExitAction, symbol: String, price: i64, pnl: int) -> PartialExitRecord {
    PartialExitRecord {
        level: a.level as i32,
        symbol,
        long_closed_qty: if a.close_long_qty > 0 { Some(a.close_long_qty) } else { None },
        long_avg_close_price: if a.close_long_qty > 0 { Some(price) } else { None },
        short_closed_qty: if a.close_short_qty > 0 { Some(a.close_short_qty) } else { None },
        short_avg_close_price: if a.close_short_qty > 0 { Some(price) } else { None },
        realized_pnl: pnl as i64,
    }
}

/// The P&L of the long leg that exit `a` closes at `price`: nothing when it
/// closes no long.
pub open spec fn long_leg_pnl(s: StrategyState, a: ExitAction, price: int) -> int {
    if a.close_long_qty > 0 {
        dec_mul(a.close_long_qty as int, price - s.long_avg_price)
    } else {
        0
    }
}

/// The P&L of the short leg that exit `a` closes at `price`: nothing when it
/// closes no short.
pub open spec fn short_leg_pnl(s: StrategyState, a: ExitAction, price: int) -> int {
    if a.close_short_qty > 0 {
        dec_mul(a.close_short_qty as int, s.short_avg_price - price)
    } else {
        0
    }
}

/// The state after exit `a` at `price`: each closed leg reduced by its
/// quantity and the realized P&L grown by both legs' P&L; nothing else
/// changes.
pub open spec fn exited(s: StrategyState, a: ExitAction, price: int) -> StrategyState {
    StrategyState {
        long_size: (if a.close_long_qty > 0 { s.long_size - a.close_long_qty } else { s.long_size as int }) as i64,
        short_size: (if a.close_short_qty > 0 { s.short_size - a.close_short_qty } else { s.short_size as int }) as i64,
        realized_pnl: (s.realized_pnl + long_leg_pnl(s, a, price) + short_leg_pnl(s, a, price)) as i64,
        ..s
    }
}

/// Applying exit `a` at `price` stays within `i64`.
pub open spec fn exit_update_fits(s: StrategyState, a: ExitAction, price: int) -> bool {
    &&& a.close_long_qty > 0 ==> {
        &&& fits_i64(price - s.long_avg_price)
        &&& fits_i64(long_leg_pnl(s, a, price))
        &&& fits_i64(s.long_size - a.close_long_qty)
    }
    &&& a.close_short_qty > 0 ==> {
        &&& fits_i64(s.short_avg_price - price)
        &&& fits_i64(short_leg_pnl(s, a, price))
        &&& fits_i64(s.short_size - a.close_short_qty)
    }
    &&& fits_i64(long_leg_pnl(s, a, price) + short_leg_pnl(s, a, price))
    &&& fits_i64(s.realized_pnl + long_leg_pnl(s, a, price) + short_leg_pnl(s, a, price))
}

/// The sum of a list of decimals.
pub open spec fn seq_sum(s: Seq<i64>) -> int
    decreases s.len(),
{
    if s.len() == 0 {
        0
    } else {
        seq_sum(s.drop_last()) + s.last()
    }
}

/// The `j`-th value of the exponential moving average of `prices` over
/// `period`: the first is the simple average of the first `period` prices;
/// each next one moves from the previous toward the next price by
/// `2 / (period + 1)` of the gap. Divisions round toward zero.
pub open spec fn ema_value(prices: Seq<i64>, period: int, j: nat) -> int
    decreases j,
{
    if j == 0 {
        div_toward_zero(seq_sum(prices.take(period)), period)
    } else {
        let last = ema_value(prices, period, (j - 1) as nat);
        last + div_toward_zero((prices[period - 1 + j] - last) * 2, period + 1)
    }
}

/// The slope threshold of a trend: 0.05 percent (decimal).
pub open spec fn min_slope_pct() -> int {
    SCALE / 20
}

/// An uptrend: the EMA rose from `prev` to `cur` by more than 0.05 percent
/// of `prev`.
pub open spec fn trend_up(cur: int, prev: int) -> bool {
    ratio_exceeds((cur - prev) * 100 * SCALE, prev, min_slope_pct())
}

/// A downtrend: the EMA fell from `prev` to `cur` by more than 0.05 percent
/// of `prev`.
pub open spec fn trend_down(cur: int, prev: int) -> bool {
    ratio_exceeds((prev - cur) * 100 * SCALE, prev, min_slope_pct())
}

proof fn lemma_seq_sum_between(s: Seq<i64>, lo: int, hi: int)
    requires
        forall|i: int| 0 <= i < s.len() ==> lo <= #[trigger] s[i] <= hi,
    ensures
        s.len() * lo <= seq_sum(s) <= s.len() * hi,
    decreases s.len(),
{
    if s.len() > 0 {
        lemma_seq_sum_between(s.drop_last(), lo, hi);
        let n = s.len() as int;
        assert(n * lo == (n - 1) * lo + lo) by (nonlinear_arith);
        assert(n * hi == (n - 1) * hi + hi) by (nonlinear_arith);
        assert(lo <= s[n - 1] <= hi);
    }
}

proof fn lemma_average_between(sum: int, n: int, lo: int, hi: int)
    requires
        n >= 1,
        n * lo <= sum <= n * hi,
    ensures
        lo <= div_toward_zero(sum, n) <= hi,
{
    if sum >= 0 {
        lemma_div_is_ordered(sum, n * hi, n);
        lemma_div_multiples_vanish(hi, n);
        lemma_div_pos_is_pos(sum, n);
        if lo > 0 {
            lemma_div_is_ordered(n * lo, sum, n);
            lemma_div_multiples_vanish(lo, n);
        }
    } else {
        let m = -sum;
        assert(n * (-lo) == -(n * lo)) by (nonlinear_arith);
        assert(n * (-hi) == -(n * hi)) by (nonlinear_arith);
        lemma_div_is_ordered(m, n * (-lo), n);
        lemma_div_multiples_vanish(-lo, n);
        lemma_div_pos_is_pos(m, n);
        if hi < 0 {
            lemma_div_is_ordered(n * (-hi), m, n);
            lemma_div_multiples_vanish(-hi, n);
        }
    }
}

proof fn lemma_step_within_gap(d: int, q: int)
    requires
        q >= 2,
    ensures
        d >= 0 ==> 0 <= div_toward_zero(d * 2, q) <= d,
        d < 0 ==> d <= div_toward_zero(d * 2, q) <= 0,
{
    if d >= 0 {
        lemma_div_is_ordered_by_denominator(d * 2, 2, q);
        lemma_div_pos_is_pos(d * 2, q);
    } else {
        lemma_div_is_ordered_by_denominator(-(d * 2), 2, q);
        lemma_div_pos_is_pos(-(d * 2), q);
    }
}

/// Every value of the exponential moving average lies within the range of
/// the prices it averages.
pub proof fn lemma_ema_within_price_range(prices: Seq<i64>, period: int, j: nat, lo: int, hi: int)
    requires
        period >= 1,
        period - 1 + j < prices.len(),
        forall|i: int| 0 <= i < prices.len() ==> lo <= #[trigger] prices[i] <= hi,
    ensures
        lo <= ema_value(prices, period, j) <= hi,
    decreases j,
{
    if j == 0 {
        let t = prices.take(period);
        assert forall|i: int| 0 <= i < t.len() implies lo <= #[trigger] t[i] <= hi by {
            assert(t[i] == prices[i]);
        }
        lemma_seq_sum_between(t, lo, hi);
        lemma_average_between(seq_sum(t), period, lo, hi);
    } else {
        lemma_ema_within_price_range(prices, period, (j - 1) as nat, lo, hi);
        let last = ema_value(prices, period, (j - 1) as nat);
        let p = prices[period - 1 + j];
        lemma_step_within_gap(p - last, period + 1);
    }
}

proof fn lemma_ema_in_range(prices: Seq<i64>, period: int, j: nat)
    requires
        period >= 1,
        period - 1 + j < prices.len(),
    ensures
        i64::MIN <= ema_value(prices, period, j) <= i64::MAX,
{
    lemma_ema_within_price_range(prices, period, j, i64::MIN as int, i64::MAX as int);
}


/// The `j`-th value of the exponential moving average of `prices` with
/// smoothing period `period`, taken over the whole series: it starts at the
/// first price, and each next value moves from the previous toward the next
/// price by `2 / (period + 1)` of the gap (rounded toward zero).
pub open spec fn trend_ema(prices: Seq<i64>, period: int, j: nat) -> int
    decreases j,
{
    if j == 0 {
        prices[0] as int
    } else {
        let last = trend_ema(prices, period, (j - 1) as nat);
        last + div_toward_zero((prices[j as int] - last) * 2, period + 1)
    }
}

/// Every value of the whole-series EMA lies within the range of the prices.
pub proof fn lemma_trend_ema_within_price_range(prices: Seq<i64>, period: int, j: nat, lo: int, hi: int)
    requires
        period >= 1,
        j < prices.len(),
        forall|i: int| 0 <= i < prices.len() ==> lo <= #[trigger] prices[i] <= hi,
    ensures
        lo <= trend_ema(prices, period, j) <= hi,
    decreases j,
{
    if j == 0 {
        assert(lo <= prices[0] <= hi);
    } else {
        lemma_trend_ema_within_price_range(prices, period, (j - 1) as nat, lo, hi);
        let last = trend_ema(prices, period, (j - 1) as nat);
        lemma_step_within_gap(prices[j as int] - last, period + 1);
        assert(lo <= prices[j as int] <= hi);
    }
}

/// The first rung from `i` on that triggers at `price`.
pub open spec fn first_rung(cfg: PartialExitConfig, zone: Zone, grid_range: int, entry: int, price: int, i: int) -> Option<int>
    decreases cfg.levels@.len() - i,
{
    if i >= cfg.levels@.len() {
        None
    } else if rung_triggers(cfg, i, zone, grid_range, entry, price) {
        Some(i)
    } else {
        first_rung(cfg, zone, grid_range, entry, price, i + 1)
    }
}

/// The exit that the strategy takes at `price`, given that a grid is set:
/// with partial exits enabled and one side larger than the other, the first
/// rung whose exit price the price has reached in the winning direction;
/// none otherwise.
pub open spec fn exit_decision(e: DynaGridEngine, price: int) -> Option<ExitAction> {
    let cfg = e.partial_exit_config;
    let grid = e.grid_config->0;
    let range = grid.upper_price - grid.lower_price;
    if !cfg.enabled || cfg.levels@.len() == 0 {
        None
    } else {
        match winner(e.state) {
            None => None,
            Some(w) => match first_rung(cfg, w.0, range, w.1, price, 0) {
                None => None,
                Some(i) => Some(rung_exit(cfg, i, w.0, w.2, w.3)),
            },
        }
    }
}

proof fn lemma_first_rung_from(cfg: PartialExitConfig, zone: Zone, grid_range: int, entry: int, price: int, k: int)
    requires
        0 <= k,
    ensures
        first_rung(cfg, zone, grid_range, entry, price, k) matches Some(i) ==> {
            &&& k <= i < cfg.levels@.len()
            &&& rung_triggers(cfg, i, zone, grid_range, entry, price)
            &&& forall|j: int| k <= j < i ==> !rung_triggers(cfg, j, zone, grid_range, entry, price)
        },
        first_rung(cfg, zone, grid_range, entry, price, k) is None ==> forall|j: int|
            k <= j < cfg.levels@.len() ==> !rung_triggers(cfg, j, zone, grid_range, entry, price),
    decreases cfg.levels@.len() - k,
{
    if k < cfg.levels@.len() && !rung_triggers(cfg, k, zone, grid_range, entry, price) {
        lemma_first_rung_from(cfg, zone, grid_range, entry, price, k + 1);
    }
}

/// The exit taken is the first rung that has triggered: it triggered, and
/// none before it did; when no exit is taken, no rung has triggered.
pub proof fn lemma_exit_is_first_triggered_rung(cfg: PartialExitConfig, zone: Zone, grid_range: int, entry: int, price: int)
    ensures
        first_rung(cfg, zone, grid_range, entry, price, 0) matches Some(i) ==> {
            &&& 0 <= i < cfg.levels@.len()
            &&& rung_triggers(cfg, i, zone, grid_range, entry, price)
            &&& forall|j: int| 0 <= j < i ==> !rung_triggers(cfg, j, zone, grid_range, entry, price)
        },
        first_rung(cfg, zone, grid_range, entry, price, 0) is None ==> forall|j: int|
            0 <= j < cfg.levels@.len() ==> !rung_triggers(cfg, j, zone, grid_range, entry, price),
{
    lemma_first_rung_from(cfg, zone, grid_range, entry, price, 0);
}


/// What one iteration of the strategy does, decided before any order is
/// placed.
#[derive(Clone, Debug)]
pub enum IterationPlan {
    /// The risk manager calls for an emergency exit: close every position
    /// and finish.
    EmergencyExit,
    /// The risk manager requires an exit: close everything at market with
    /// this action and finish.
    ExitAll(ExitAction),
    /// Take this exit.
    TakeExit(ExitAction),
    /// Take this entry; the risk manager has counted it.
    TakeEntry(EnterAction),
    /// An entry was due but the risk manager refused it.
    EntryBlocked,
    /// Nothing to do.
    Hold,
}

/// The engine at the start of an iteration at time `now`.
pub open spec fn touched(e: DynaGridEngine, now: i64) -> DynaGridEngine {
    DynaGridEngine { state: StrategyState { last_action_time: Some(now), ..e.state }, ..e }
}

/// The value (decimal USDT) of both legs at `price`.
pub open spec fn exposure_value(s: StrategyState, price: int) -> int {
    dec_mul(s.long_size + s.short_size, price)
}

/// The risk status of an iteration.
pub open spec fn iteration_status(e: DynaGridEngine, now: int, price: int) -> RiskStatusKind {
    strategy_status_kind(e.risk_manager.config, now, e.state, price, e.state.initial_position_value_usdt as int)
}

/// One iteration at `price`, time `now`, date `today` and balance `balance`
/// can be computed without overflow.
pub open spec fn iteration_ready(e: DynaGridEngine, now: i64, today: i32, price: int, balance: i64) -> bool {
    let e1 = touched(e, now);
    &&& e.state.initial_position_value_usdt > 0 ==> pnl_fits(e.state, price)
    &&& e.grid_config is Some ==> exit_ready(e1, price) && entry_ready(e1, price)
    &&& fits_i64(e.state.long_size + e.state.short_size)
    &&& fits_i64(exposure_value(e.state, price))
    &&& e.grid_config is Some && entry_decision(e1, now as int, price) is Some ==> {
        let a = entry_decision(e1, now as int, price)->0;
        &&& fits_i64(dec_mul(a.qty as int, price))
        &&& trade_check_ready(
            e.risk_manager,
            today,
            balance,
            dec_mul(a.qty as int, price) as i64,
            exposure_value(e.state, price) as i64,
        )
    }
}

/// The strategy engine: its configuration, risk manager and state.
#[derive(Clone, Debug)]
pub struct DynaGridEngine {
    pub risk_manager: RiskManager,
    pub config: DynaGridConfig,
    pub state: StrategyState,
    /// Size of one grid level (decimal quantity).
    pub initial_position_size: i64,
    pub grid_config: Option<GridConfig>,
    pub partial_exit_config: PartialExitConfig,
}

/// The main loop's next move after an iteration.
#[derive(Clone, Debug)]
pub enum LoopStep {
    /// Stop with this result.
    Finish(StrategyResult),
    /// Go on with the next iteration.
    Continue,
    /// Log the error and go on.
    LogAndContinue,
    /// Close every position at market and stop with the error.
    EmergencyStop,
}

/// Why the first position waits or needs more information.
#[derive(Clone, Copy, Debug, PartialEq, Eq, Structural)]
pub enum InitialEntry {
    /// Enter on this side now.
    Enter(Side),
    /// The side follows the EMA trend, which the caller computes from candles.
    FollowTrend,
    /// The price lies inside the grid: wait, the strategy stays inactive.
    Wait,
}

impl DynaGridEngine {
    /// The engine for `config`, resuming `saved` when it is an active state:
    /// its grid is restored from the saved bounds, and the level size is the
    /// initial value spread over the levels entered. Otherwise a new, inactive
    /// state starts for the configured symbol. An invalid exit ladder is a
    /// configuration error. The risk manager's day is `today`.
    pub fn new(saved: Option<StrategyState>, config: DynaGridConfig, risk_config: RiskConfig, today: i32) -> (r: BotResult<
        DynaGridEngine,
    >)
        requires
            !resumes(saved) ==> config.symbol is Some,
        ensures
            ladder_check(config.exit.partial_exit_enabled, exit_levels_of(config.exit)) == Err::<(), ExitLadderError>(
                ExitLadderError::NoLevels,
            ) ==> (r matches Err(BotError::ConfigError(m)) && m@
                == "Invalid exit config: Partial exit enabled but no levels configured"@),
            ladder_check(config.exit.partial_exit_enabled, exit_levels_of(config.exit)) matches Err(
                ExitLadderError::PercentagesDoNotSumTo100 { total },
            ) ==> (r matches Err(BotError::ConfigError(m)) && m@ == "Invalid exit config: Exit percentages must sum to 100, got "@
                + two_decimal_text(clamp_i64(total as int))),
            ladder_check(config.exit.partial_exit_enabled, exit_levels_of(config.exit)) is Ok ==> (r matches Ok(e) && {
                &&& e.config == config
                &&& e.partial_exit_config.enabled == config.exit.partial_exit_enabled
                &&& e.partial_exit_config.levels@ == exit_levels_of(config.exit)
                &&& e.risk_manager.config == risk_config
                &&& e.risk_manager.daily_stats == fresh_stats(0, today)
                &&& resumes(saved) ==> {
                    &&& e.state == saved->0
                    &&& e.grid_config == restored_grid(saved->0, config.grid_range_pct)
                    &&& e.initial_position_size == restored_size(saved->0)
                }
                &&& !resumes(saved) ==> {
                    &&& e.state == StrategyState { symbol: config.symbol->0, ..e.state }
                    &&& !e.state.is_active
                    &&& e.state.grid_upper_price is None
                    &&& e.state.grid_lower_price is None
                    &&& e.state.grid_level == 0
                    &&& e.state.max_grid_levels == 4
                    &&& e.state.long_size == 0 && e.state.short_size == 0
                    &&& e.state.long_avg_price == 0 && e.state.short_avg_price == 0
                    &&& e.state.initial_position_value_usdt == 0
                    &&& e.state.initial_risk_percentage == 0
                    &&& e.state.entry_time is None && e.state.last_action_time is None
                    &&& e.state.max_hold_until is None
                    &&& e.state.realized_pnl == 0 && e.state.funding_fees_paid == 0
                    &&& e.grid_config is None
                    &&& e.initial_position_size == 0
                }
            }),
    {
        let partial_exit_config = Self::build_exit_config(&config.exit);
        match partial_exit_config.validate() {
            Err(ExitLadderError::NoLevels) => {
                return Err(
                    BotError::ConfigError(
                        "Invalid exit config: Partial exit enabled but no levels configured".to_owned(),
                    ),
                );
            },
            Err(ExitLadderError::PercentagesDoNotSumTo100 { total }) => {
                let shown: i64 = if total > i64::MAX as i128 {
                    i64::MAX
                } else if total < i64::MIN as i128 {
                    i64::MIN
                } else {
                    total as i64
                };
                proof {
                    reveal_strlit("");
                }
                assert(shown == clamp_i64(total as int));
                let message = describe(
                    "Invalid exit config: Exit percentages must sum to 100, got ",
                    format_two_decimals(shown).as_str(),
                    "",
                );
                return Err(BotError::ConfigError(message));
            },
            Ok(()) => {},
        }
        let resume = match &saved {
            Some(s) => s.is_active,
            None => false,
        };
        let (state, grid_config, initial_position_size) = if resume {
            let s = saved.unwrap();
            let grid = match (s.grid_upper_price, s.grid_lower_price) {
                (Some(upper), Some(lower)) => Some(
                    GridConfig { upper_price: upper, lower_price: lower, range_pct: config.grid_range_pct },
                ),
                _ => None,
            };
            let size: i64 = if s.initial_position_value_usdt > 0 && s.grid_level > 0 {
                s.initial_position_value_usdt / (s.grid_level as i64)
            } else {
                0
            };
            (s, grid, size)
        } else {
            let symbol = match &config.symbol {
                Some(sym) => sym.clone(),
                None => String::new(),
            };
            (StrategyState::new(symbol), None, 0)
        };
        let risk_manager = RiskManager::new(risk_config, today);
        Ok(DynaGridEngine {
            risk_manager,
            config,
            state,
            initial_position_size,
            grid_config,
            partial_exit_config,
        })
    }

    /// The partial-exit ladder of an exit configuration: each percentage
    /// paired with the multiplier at the same position.
    pub fn build_exit_config(exit: &ExitConfig) -> (r: PartialExitConfig)
        ensures
            r.enabled == exit.partial_exit_enabled,
            r.levels@ == exit_levels_of(*exit),
    {
        let p = &exit.partial_exit_percentages;
        let m = &exit.partial_exit_multipliers;
        let n = if p.len() <= m.len() {
            p.len()
        } else {
            m.len()
        };
        let mut levels: Vec<ExitLevel> = Vec::new();
        let mut i: usize = 0;
        while i < n
            invariant
                p@ == exit.partial_exit_percentages@,
                m@ == exit.partial_exit_multipliers@,
                n <= p@.len(),
                n <= m@.len(),
                n == (if p@.len() <= m@.len() { p@.len() } else { m@.len() }),
                i <= n,
                levels@.len() == i,
                forall|j: int|
                    0 <= j < i ==> #[trigger] levels@[j] == exit_levels_of(*exit)[j],
            decreases n - i,
        {
            let pct: i64 = p[i] as i64;
            levels.push(ExitLevel { percentage: pct * SCALE, distance_multiplier: m[i] });
            assert(exit_levels_of(*exit).len() == n);
            assert(levels@[i as int] == exit_levels_of(*exit)[i as int]);
            i = i + 1;
        }
        assert(levels@ =~= exit_levels_of(*exit));
        PartialExitConfig { enabled: exit.partial_exit_enabled, levels }
    }

    /// The entry to take at `current_price` at time `now` (see
    /// `entry_decision`); an error when no grid is set.
    pub fn check_entry_conditions(&self, now: i64, current_price: i64) -> (r: BotResult<Option<EnterAction>>)
        requires
            self.grid_config is Some ==> entry_ready(*self, current_price as int),
        ensures
            self.grid_config is None ==> (r matches Err(BotError::Unknown(m)) && m@ == "Grid not initialized"@),
            self.grid_config is Some ==> r == Ok::<Option<EnterAction>, BotError>(
                entry_decision(*self, now as int, current_price as int),
            ),
    {
        let grid = match &self.grid_config {
            Some(g) => g,
            None => return Err(BotError::Unknown("Grid not initialized".to_owned())),
        };
        if self.state.grid_level >= self.config.max_grid_levels {
            return Ok(None);
        }
        if self.state.is_timed_out(now) {
            return Ok(None);
        }
        let current_zone = match grid.get_zone(current_price) {
            Some(zone) => zone,
            None => return Ok(None),
        };
        let long_value = dmul(self.state.long_size, current_price);
        let short_value = dmul(self.state.short_size, current_price);
        let factor = self.config.position_sizing_factor;
        let target_zone = match current_zone {
            Zone::Upper => {
                if long_value >= dmul(short_value, factor) {
                    return Ok(None);
                }
                Zone::Upper
            },
            Zone::Lower => {
                if short_value >= dmul(long_value, factor) {
                    return Ok(None);
                }
                Zone::Lower
            },
        };
        let sizing = PositionSizing {
            initial_value_usdt: self.state.initial_position_value_usdt,
            risk_percentage: self.config.risk_percentage(),
            sizing_factor: factor,
        };
        let qty = sizing.calculate_next_size(self.state.long_size, self.state.short_size, target_zone, current_price);
        if dmul(qty, current_price) < 10 * SCALE {
            return Ok(None);
        }
        Ok(Some(EnterAction { side: target_zone.to_side(), qty, zone: target_zone, price: None }))
    }

    /// Records a filled entry of `action` at `current_price` at time `now`.
    pub fn record_entry(&mut self, action: &EnterAction, current_price: i64, now: i64)
        requires
            old(self).state.grid_level < 255,
            entry_update_fits(old(self).state, action.side, action.qty as int, current_price as int),
        ensures
            *final(self) == (DynaGridEngine {
                state: entered(old(self).state, action.side, action.qty as int, current_price as int, now),
                ..*old(self)
            }),
    {
        match action.side {
            Side::Buy => {
                let total_value = dmul(self.state.long_size, self.state.long_avg_price) + dmul(action.qty, current_price);
                self.state.long_size = self.state.long_size + action.qty;
                if self.state.long_size > 0 {
                    self.state.long_avg_price = ddiv(total_value, self.state.long_size);
                }
            },
            Side::Sell => {
                let total_value = dmul(self.state.short_size, self.state.short_avg_price) + dmul(action.qty, current_price);
                self.state.short_size = self.state.short_size + action.qty;
                if self.state.short_size > 0 {
                    self.state.short_avg_price = ddiv(total_value, self.state.short_size);
                }
            },
        }
        self.state.grid_level = self.state.grid_level + 1;
        self.state.last_action_time = Some(now);
    }

    /// The exit to take at `current_price`: with partial exits enabled and one
    /// side larger than the other, the first rung whose exit price the price
    /// has reached in the winning direction, closing the rung's percentage of
    /// each side; none when no rung has triggered. An error when no grid is
    /// set.
    pub fn check_exit_conditions(&self, current_price: i64) -> (r: BotResult<Option<ExitAction>>)
        requires
            self.grid_config is Some ==> exit_ready(*self, current_price as int),
        ensures
            self.grid_config is None ==> (r matches Err(BotError::Unknown(m)) && m@ == "Grid not initialized"@),
            self.grid_config is Some ==> r == Ok::<Option<ExitAction>, BotError>(
                exit_decision(*self, current_price as int),
            ),
    {
        let grid = match &self.grid_config {
            Some(g) => g,
            None => return Err(BotError::Unknown("Grid not initialized".to_owned())),
        };
        let cfg = &self.partial_exit_config;
        if !cfg.enabled || cfg.levels.len() == 0 {
            return Ok(None);
        }
        let (winning_side, entry_price, winning_size, losing_size) = if self.state.long_size > self.state.short_size {
            (Zone::Upper, self.state.long_avg_price, self.state.long_size, self.state.short_size)
        } else if self.state.short_size > self.state.long_size {
            (Zone::Lower, self.state.short_avg_price, self.state.short_size, self.state.long_size)
        } else {
            return Ok(None);
        };
        let ghost w = winner(self.state)->0;
        assert(w == (winning_side, entry_price as int, winning_size as int, losing_size as int));
        let grid_range = grid.upper_price - grid.lower_price;
        let n = cfg.levels.len();
        let mut idx: usize = 0;
        while idx < n
            invariant
                n == cfg.levels@.len(),
                n > 0,
                cfg.enabled,
                *cfg == self.partial_exit_config,
                exit_ready(*self, current_price as int),
                self.grid_config == Some(*grid),
                grid_range == grid.upper_price - grid.lower_price,
                winner(self.state) == Some((winning_side, entry_price as int, winning_size as int, losing_size as int)),
                w == (winning_side, entry_price as int, winning_size as int, losing_size as int),
                idx <= n,
                first_rung(*cfg, winning_side, grid_range as int, entry_price as int, current_price as int, 0)
                    == first_rung(*cfg, winning_side, grid_range as int, entry_price as int, current_price as int, idx as int),
            decreases n - idx,
        {
            proof {
                assert(fits_i64(cfg.exit_distance(idx as int, grid_range as int)));
            }
            let exit_price = cfg.get_exit_price(idx, winning_side, grid_range, entry_price);
            let should_trigger = match winning_side {
                Zone::Upper => current_price >= exit_price,
                Zone::Lower => current_price <= exit_price,
            };
            if should_trigger {
                let pct = cfg.levels[idx].percentage;
                let close_winning = portion_of(winning_size, pct);
                let close_losing = portion_of(losing_size, pct);
                let reason = if idx == n - 1 {
                    ExitReason::FinalTakeProfit
                } else {
                    ExitReason::PartialTakeProfit { level: idx + 1 }
                };
                let action = ExitAction {
                    level: idx + 1,
                    close_long_qty: if winning_side == Zone::Upper {
                        close_winning
                    } else {
                        close_losing
                    },
                    close_short_qty: if winning_side == Zone::Upper {
                        close_losing
                    } else {
                        close_winning
                    },
                    reason,
                };
                assert(rung_triggers(*cfg, idx as int, winning_side, grid_range as int, entry_price as int, current_price as int));
                assert(action == rung_exit(*cfg, idx as int, winning_side, winning_size as int, losing_size as int));
                return Ok(Some(action));
            }
            idx = idx + 1;
        }
        Ok(None)
    }

    /// Records a closed long leg of `qty` at `current_price`; its P&L.
    pub fn close_long_leg(&mut self, qty: i64, current_price: i64) -> (pnl: i64)
        requires
            fits_i64(current_price - old(self).state.long_avg_price),
            fits_i64(dec_mul(qty as int, current_price - old(self).state.long_avg_price)),
            fits_i64(old(self).state.long_size - qty),
        ensures
            pnl == dec_mul(qty as int, current_price - old(self).state.long_avg_price),
            *final(self) == (DynaGridEngine {
                state: StrategyState { long_size: (old(self).state.long_size - qty) as i64, ..old(self).state },
                ..*old(self)
            }),
    {
        let pnl = dmul(qty, current_price - self.state.long_avg_price);
        self.state.long_size = self.state.long_size - qty;
        pnl
    }

    /// Records a closed short leg of `qty` at `current_price`; its P&L.
    pub fn close_short_leg(&mut self, qty: i64, current_price: i64) -> (pnl: i64)
        requires
            fits_i64(old(self).state.short_avg_price - current_price),
            fits_i64(dec_mul(qty as int, old(self).state.short_avg_price - current_price)),
            fits_i64(old(self).state.short_size - qty),
        ensures
            pnl == dec_mul(qty as int, old(self).state.short_avg_price - current_price),
            *final(self) == (DynaGridEngine {
                state: StrategyState { short_size: (old(self).state.short_size - qty) as i64, ..old(self).state },
                ..*old(self)
            }),
    {
        let pnl = dmul(qty, self.state.short_avg_price - current_price);
        self.state.short_size = self.state.short_size - qty;
        pnl
    }

    /// Adds the exit's realized P&L and returns the record of the exit.
    pub fn finish_exit(&mut self, action: &ExitAction, current_price: i64, realized_pnl: i64) -> (r: PartialExitRecord)
        requires
            fits_i64(old(self).state.realized_pnl + realized_pnl),
        ensures
            *final(self) == (DynaGridEngine {
                state: StrategyState {
                    realized_pnl: (old(self).state.realized_pnl + realized_pnl) as i64,
                    ..old(self).state
                },
                ..*old(self)
            }),
            r == exit_record(*action, old(self).state.symbol, current_price, realized_pnl as int),
    {
        self.state.realized_pnl = self.state.realized_pnl + realized_pnl;
        PartialExitRecord {
            level: action.level as i32,
            symbol: self.state.symbol.clone(),
            long_closed_qty: if action.close_long_qty > 0 {
                Some(action.close_long_qty)
            } else {
                None
            },
            long_avg_close_price: if action.close_long_qty > 0 {
                Some(current_price)
            } else {
                None
            },
            short_closed_qty: if action.close_short_qty > 0 {
                Some(action.close_short_qty)
            } else {
                None
            },
            short_avg_close_price: if action.close_short_qty > 0 {
                Some(current_price)
            } else {
                None
            },
            realized_pnl,
        }
    }

    /// Applies a whole exit `action` at `current_price` once its orders have
    /// been placed: each leg with a positive quantity is reduced by it and its
    /// P&L taken, the realized P&L grows by the sum of both legs' P&L, and
    /// the exit's record is returned.
    pub fn apply_exit(&mut self, action: &ExitAction, current_price: i64) -> (r: PartialExitRecord)
        requires
            exit_update_fits(old(self).state, *action, current_price as int),
        ensures
            *final(self) == (DynaGridEngine { state: exited(old(self).state, *action, current_price as int), ..*old(self) }),
            final(self).state.realized_pnl == old(self).state.realized_pnl + long_leg_pnl(
                old(self).state,
                *action,
                current_price as int,
            ) + short_leg_pnl(old(self).state, *action, current_price as int),
            r == exit_record(
                *action,
                old(self).state.symbol,
                current_price,
                long_leg_pnl(old(self).state, *action, current_price as int) + short_leg_pnl(
                    old(self).state,
                    *action,
                    current_price as int,
                ),
            ),
    {
        let mut realized: i64 = 0;
        if action.close_long_qty > 0 {
            realized = self.close_long_leg(action.close_long_qty, current_price);
        }
        if action.close_short_qty > 0 {
            let pnl = self.close_short_leg(action.close_short_qty, current_price);
            realized = realized + pnl;
        }
        self.finish_exit(action, current_price, realized)
    }

    /// The exit that closes everything held.
    pub fn exit_all_action(&self) -> (r: ExitAction)
        ensures
            r == exit_all_of(self.state),
    {
        ExitAction {
            level: 0,
            close_long_qty: self.state.long_size,
            close_short_qty: self.state.short_size,
            reason: ExitReason::Manual,
        }
    }

    /// The order sides of the emergency close requests, in order: "Sell"
    /// (closing the long) when a long is held, then "Buy" (closing the
    /// short) when a short is held.
    pub fn emergency_close_sides(&self) -> (r: Vec<Side>)
        ensures
            r@ == (if self.state.long_size > 0 { seq![Side::Sell] } else { Seq::<Side>::empty() }) + (if self.state.short_size
                > 0 {
                seq![Side::Buy]
            } else {
                Seq::<Side>::empty()
            }),
    {
        let mut sides: Vec<Side> = Vec::new();
        if self.state.long_size > 0 {
            sides.push(Side::Sell);
        }
        if self.state.short_size > 0 {
            sides.push(Side::Buy);
        }
        assert(sides@ =~= (if self.state.long_size > 0 { seq![Side::Sell] } else { Seq::<Side>::empty() }) + (
        if self.state.short_size > 0 {
            seq![Side::Buy]
        } else {
            Seq::<Side>::empty()
        }));
        sides
    }

    /// The exponential moving average of `prices` over `period`: one value
    /// per price from the `period`-th on (see `ema_value`); none when there
    /// are fewer prices than the period.
    pub fn calculate_ema(prices: &Vec<i64>, period: usize) -> (r: Vec<i64>)
        requires
            period > 0,
        ensures
            prices@.len() < period ==> r@.len() == 0,
            prices@.len() >= period ==> r@.len() == prices@.len() - period + 1,
            forall|j: int| 0 <= j < r@.len() ==> #[trigger] r@[j] == ema_value(prices@, period as int, j as nat),
    {
        let n = prices.len();
        if n < period {
            return Vec::new();
        }
        let mut sum: i128 = 0;
        let mut i: usize = 0;
        while i < period
            invariant
                n == prices@.len(),
                period <= n,
                i <= period,
                sum == seq_sum(prices@.take(i as int)),
                (i as int) * (i64::MIN as int) <= sum <= (i as int) * (i64::MAX as int),
            decreases period - i,
        {
            proof {
                assert(prices@.take(i as int + 1).drop_last() =~= prices@.take(i as int));
                assert((i as int + 1) * (i64::MIN as int) == (i as int) * (i64::MIN as int) + (i64::MIN as int))
                    by (nonlinear_arith);
                assert((i as int + 1) * (i64::MAX as int) == (i as int) * (i64::MAX as int) + (i64::MAX as int))
                    by (nonlinear_arith);
                assert((i as int) * (i64::MAX as int) < 0x8000_0000_0000_0000_0000_0000_0000_0000int)
                    by (nonlinear_arith)
                    requires
                        0 <= i <= 0xffff_ffff_ffff_ffffint,
                ;
                assert((i as int) * (i64::MIN as int) >= -0x7fff_ffff_ffff_ffff_8000_0000_0000_0000int)
                    by (nonlinear_arith)
                    requires
                        0 <= i <= 0xffff_ffff_ffff_ffffint,
                ;
            }
            sum = sum + prices[i] as i128;
            i = i + 1;
        }
        proof {
            lemma_ema_in_range(prices@, period as int, 0);
        }
        let sma: i128 = sum / (period as i128);
        let mut ema: Vec<i64> = Vec::new();
        ema.push(sma as i64);
        let mut k: usize = period;
        while k < n
            invariant
                n == prices@.len(),
                1 <= period <= k <= n,
                ema@.len() == k - period + 1,
                forall|j: int| 0 <= j < ema@.len() ==> #[trigger] ema@[j] == ema_value(prices@, period as int, j as nat),
            decreases n - k,
        {
            let last: i64 = ema[ema.len() - 1];
            let d: i128 = (prices[k] as i128) - (last as i128);
            let step: i128 = (d * 2) / ((period as i128) + 1);
            proof {
                let j = (k - period + 1) as nat;
                assert(period as int - 1 + j == k);
                lemma_ema_in_range(prices@, period as int, j);
                assert(ema_value(prices@, period as int, j) == last + div_toward_zero(
                    (prices@[k as int] - last) * 2,
                    period + 1,
                ));
            }
            let next: i128 = (last as i128) + step;
            ema.push(next as i64);
            k = k + 1;
        }
        ema
    }

    /// The whole-series EMA of `prices` with smoothing period `period` (see
    /// `trend_ema`): one value per price.
    fn trend_ema_values(prices: &Vec<i64>, period: usize) -> (r: Vec<i64>)
        requires
            period >= 1,
            prices@.len() >= 1,
        ensures
            r@.len() == prices@.len(),
            forall|j: int| 0 <= j < r@.len() ==> #[trigger] r@[j] == trend_ema(prices@, period as int, j as nat),
    {
        let n = prices.len();
        let mut ema: Vec<i64> = Vec::new();
        ema.push(prices[0]);
        let mut k: usize = 1;
        while k < n
            invariant
                n == prices@.len(),
                period >= 1,
                1 <= k <= n,
                ema@.len() == k,
                forall|j: int| 0 <= j < ema@.len() ==> #[trigger] ema@[j] == trend_ema(prices@, period as int, j as nat),
            decreases n - k,
        {
            let last: i64 = ema[k - 1];
            let d: i128 = (prices[k] as i128) - (last as i128);
            let step: i128 = (d * 2) / ((period as i128) + 1);
            proof {
                lemma_trend_ema_within_price_range(prices@, period as int, k as nat, i64::MIN as int, i64::MAX as int);
                assert(trend_ema(prices@, period as int, k as nat) == last + div_toward_zero(
                    (prices@[k as int] - last) * 2,
                    period + 1,
                ));
            }
            let next: i128 = (last as i128) + step;
            ema.push(next as i64);
            k = k + 1;
        }
        ema
    }

    /// The side of the first entry from the trend of the closing prices
    /// `closes`: their EMA with the configured number of candles as smoothing
    /// period, taken over the whole series, its last value compared with the
    /// value four places earlier (or the first). An uptrend enters long, a
    /// downtrend short; without a clear trend the entry falls back to waiting
    /// for a zone (a retryable error) when so configured, and enters long
    /// otherwise. Fewer closes than candles is a retryable error. With zero
    /// candles no average exists, so no trend is clear.
    pub fn determine_entry_by_ema(&self, closes: &Vec<i64>) -> (r: BotResult<Side>)
        requires
            self.config.entry.ema_candles > 0 || closes@.len() > 0,
        ensures
            ({
                let c = self.config.entry.ema_candles as int;
                let n = closes@.len() as int;
                let cur = trend_ema(closes@, c, (n - 1) as nat);
                let prev = trend_ema(closes@, c, (if n >= 5 { n - 5 } else { 0 }) as nat);
                let clear_up = c > 0 && trend_up(cur, prev);
                let clear_down = c > 0 && !trend_up(cur, prev) && trend_down(cur, prev);
                if n < c {
                    r matches Err(BotError::ApiError { message, retryable }) && retryable && message@
                        == "Not enough klines data: got "@ + nat_digits(n as nat) + ", need "@ + nat_digits(c as nat)
                } else if clear_up {
                    r == Ok::<Side, BotError>(Side::Buy)
                } else if clear_down {
                    r == Ok::<Side, BotError>(Side::Sell)
                } else if self.config.entry.ema_fallback {
                    r matches Err(BotError::ApiError { message, retryable }) && retryable && message@
                        == "No clear EMA trend, fallback to zone entry"@
                } else {
                    r == Ok::<Side, BotError>(Side::Buy)
                }
            }),
    {
        let candles = self.config.entry.ema_candles;
        if closes.len() < candles {
            let got = format_u64(closes.len() as u64);
            let need = format_u64(candles as u64);
            let head = describe("Not enough klines data: got ", got.as_str(), ", need ");
            let message = describe(head.as_str(), need.as_str(), "");
            proof {
                reveal_strlit("");
            }
            return Err(BotError::ApiError { message, retryable: true });
        }
        let mut up = false;
        let mut down = false;
        if candles > 0 {
            let ema = Self::trend_ema_values(closes, candles);
            let n = ema.len();
            let start = if n >= 5 {
                n - 5
            } else {
                0
            };
            let current_ema = ema[n - 1];
            let previous_ema = ema[start];
            let rise: i128 = (current_ema as i128) - (previous_ema as i128);
            up = exceeds_ratio(percent_numerator(rise), previous_ema, SCALE / 20);
            down = exceeds_ratio(percent_numerator(-rise), previous_ema, SCALE / 20);
        }
        if up {
            Ok(Side::Buy)
        } else if down {
            Ok(Side::Sell)
        } else if self.config.entry.ema_fallback {
            Err(BotError::ApiError {
                message: "No clear EMA trend, fallback to zone entry".to_owned(),
                retryable: true,
            })
        } else {
            Ok(Side::Buy)
        }
    }

    /// Sets up a new strategy at `current_price` with levels of
    /// `position_size`, at time `now`: the grid is centred on the price, the
    /// state becomes active with the grid's bounds, the configured level
    /// limit, the initial value (size times price), the risk fraction, the
    /// entry time and the hold deadline `max_hold_time_hours` later.
    pub fn begin_strategy(&mut self, current_price: i64, position_size: i64, now: i64)
        requires
            old(self).config.position_risk_percentage is Some,
            fits_i64(current_price + grid_half_range(current_price as int, old(self).config.grid_range_pct as int)),
            fits_i64(current_price - grid_half_range(current_price as int, old(self).config.grid_range_pct as int)),
            fits_i64(dec_mul(position_size as int, current_price as int)),
            fits_i64(now + old(self).config.max_hold_time_hours * MILLIS_PER_HOUR),
        ensures
            ({
                let cfg = old(self).config;
                let half = grid_half_range(current_price as int, cfg.grid_range_pct as int);
                let upper = (current_price + half) as i64;
                let lower = (current_price - half) as i64;
                *final(self) == DynaGridEngine {
                    grid_config: Some(GridConfig { upper_price: upper, lower_price: lower, range_pct: cfg.grid_range_pct }),
                    initial_position_size: position_size,
                    state: StrategyState {
                        is_active: true,
                        grid_upper_price: Some(upper),
                        grid_lower_price: Some(lower),
                        max_grid_levels: cfg.max_grid_levels,
                        initial_position_value_usdt: dec_mul(position_size as int, current_price as int) as i64,
                        initial_risk_percentage: cfg.position_risk_percentage->0,
                        entry_time: Some(now),
                        max_hold_until: Some((now + cfg.max_hold_time_hours * MILLIS_PER_HOUR) as i64),
                        ..old(self).state
                    },
                    ..*old(self)
                }
            }),
    {
        self.initial_position_size = position_size;
        let grid = GridConfig::new(current_price, self.config.grid_range_pct);
        self.state.is_active = true;
        self.state.grid_upper_price = Some(grid.upper_price);
        self.state.grid_lower_price = Some(grid.lower_price);
        self.state.max_grid_levels = self.config.max_grid_levels;
        self.state.initial_position_value_usdt = dmul(position_size, current_price);
        self.state.initial_risk_percentage = self.config.risk_percentage();
        self.state.entry_time = Some(now);
        let hold: i64 = (self.config.max_hold_time_hours as i64) * MILLIS_PER_HOUR;
        self.state.max_hold_until = Some(now + hold);
        self.grid_config = Some(grid);
    }

    /// How the first position is taken at `current_price`: long at once in
    /// immediate mode; by the EMA trend in trend mode; in wait-for-zone mode
    /// long in the upper zone, short in the lower, and otherwise the strategy
    /// is set inactive to wait.
    pub fn initial_entry_side(&mut self, current_price: i64) -> (r: InitialEntry)
        requires
            old(self).grid_config is Some,
        ensures
            ({
                let grid = old(self).grid_config->0;
                match old(self).config.entry.mode {
                    EntryMode::EmaTrend => r == InitialEntry::FollowTrend && *final(self) == *old(self),
                    EntryMode::Immediate => r == InitialEntry::Enter(Side::Buy) && *final(self) == *old(self),
                    EntryMode::WaitForZone => if current_price >= grid.upper_price {
                        r == InitialEntry::Enter(Side::Buy) && *final(self) == *old(self)
                    } else if current_price <= grid.lower_price {
                        r == InitialEntry::Enter(Side::Sell) && *final(self) == *old(self)
                    } else {
                        r == InitialEntry::Wait && *final(self) == (DynaGridEngine {
                            state: StrategyState { is_active: false, ..old(self).state },
                            ..*old(self)
                        })
                    },
                }
            }),
    {
        let grid = match &self.grid_config {
            Some(g) => *g,
            None => return InitialEntry::Wait,
        };
        match self.config.entry.mode {
            EntryMode::EmaTrend => InitialEntry::FollowTrend,
            EntryMode::Immediate => InitialEntry::Enter(Side::Buy),
            EntryMode::WaitForZone => {
                if current_price >= grid.upper_price {
                    InitialEntry::Enter(Side::Buy)
                } else if current_price <= grid.lower_price {
                    InitialEntry::Enter(Side::Sell)
                } else {
                    self.state.is_active = false;
                    InitialEntry::Wait
                }
            },
        }
    }

    /// Waiting for a zone: long at or above the grid's upper price, short at
    /// or below its lower price, and otherwise no entry yet, the strategy
    /// left inactive.
    pub fn zone_entry(&mut self, current_price: i64) -> (r: InitialEntry)
        requires
            old(self).grid_config is Some,
        ensures
            ({
                let grid = old(self).grid_config->0;
                if current_price >= grid.upper_price {
                    r == InitialEntry::Enter(Side::Buy) && *final(self) == *old(self)
                } else if current_price <= grid.lower_price {
                    r == InitialEntry::Enter(Side::Sell) && *final(self) == *old(self)
                } else {
                    r == InitialEntry::Wait && *final(self) == (DynaGridEngine {
                        state: StrategyState { is_active: false, ..old(self).state },
                        ..*old(self)
                    })
                }
            }),
    {
        let grid = match &self.grid_config {
            Some(g) => *g,
            None => return InitialEntry::Wait,
        };
        if current_price >= grid.upper_price {
            InitialEntry::Enter(Side::Buy)
        } else if current_price <= grid.lower_price {
            InitialEntry::Enter(Side::Sell)
        } else {
            self.state.is_active = false;
            InitialEntry::Wait
        }
    }

    /// The first entry by the EMA trend of `closes` (see
    /// `determine_entry_by_ema`): a clear trend enters its way; without one,
    /// when the configuration falls back, the entry waits for a zone (see
    /// `zone_entry`), and otherwise it enters long. Fewer closes than candles
    /// is the retryable error of `determine_entry_by_ema`, the engine left
    /// unchanged.
    pub fn entry_from_trend(&mut self, closes: &Vec<i64>, current_price: i64) -> (r: BotResult<InitialEntry>)
        requires
            old(self).grid_config is Some,
            old(self).config.entry.ema_candles > 0 || closes@.len() > 0,
        ensures
            ({
                let c = old(self).config.entry.ema_candles as int;
                let n = closes@.len() as int;
                let cur = trend_ema(closes@, c, (n - 1) as nat);
                let prev = trend_ema(closes@, c, (if n >= 5 { n - 5 } else { 0 }) as nat);
                let clear_up = c > 0 && trend_up(cur, prev);
                let clear_down = c > 0 && !trend_up(cur, prev) && trend_down(cur, prev);
                let grid = old(self).grid_config->0;
                if n < c {
                    r matches Err(BotError::ApiError { message, retryable }) && retryable && message@
                        == "Not enough klines data: got "@ + nat_digits(n as nat) + ", need "@ + nat_digits(c as nat)
                        && *final(self) == *old(self)
                } else if clear_up || (!clear_down && !old(self).config.entry.ema_fallback) {
                    r == Ok::<InitialEntry, BotError>(InitialEntry::Enter(Side::Buy)) && *final(self) == *old(self)
                } else if clear_down {
                    r == Ok::<InitialEntry, BotError>(InitialEntry::Enter(Side::Sell)) && *final(self) == *old(self)
                } else if current_price >= grid.upper_price {
                    r == Ok::<InitialEntry, BotError>(InitialEntry::Enter(Side::Buy)) && *final(self) == *old(self)
                } else if current_price <= grid.lower_price {
                    r == Ok::<InitialEntry, BotError>(InitialEntry::Enter(Side::Sell)) && *final(self) == *old(self)
                } else {
                    r == Ok::<InitialEntry, BotError>(InitialEntry::Wait) && *final(self) == (DynaGridEngine {
                        state: StrategyState { is_active: false, ..old(self).state },
                        ..*old(self)
                    })
                }
            }),
    {
        match self.determine_entry_by_ema(closes) {
            Ok(side) => Ok(InitialEntry::Enter(side)),
            Err(e) => {
                if closes.len() < self.config.entry.ema_candles {
                    Err(e)
                } else {
                    Ok(self.zone_entry(current_price))
                }
            },
        }
    }

    /// The first entry on `side`: one level's size at market, toward the
    /// upper zone for a long and the lower for a short.
    pub fn initial_entry_action(&self, side: Side) -> (r: EnterAction)
        ensures
            r == (EnterAction {
                side,
                qty: self.initial_position_size,
                zone: if side == Side::Buy { Zone::Upper } else { Zone::Lower },
                price: None,
            }),
    {
        EnterAction {
            side,
            qty: self.initial_position_size,
            zone: if side == Side::Buy {
                Zone::Upper
            } else {
                Zone::Lower
            },
            price: None,
        }
    }

    /// Decides one iteration of an active strategy at `current_price`, at
    /// time `now` on date `today`, with the account balance at
    /// `current_balance`. The last action time becomes `now`. The risk
    /// manager's status comes first: an emergency exit, or an exit of
    /// everything when one is required. Then an exit rung that has triggered;
    /// then an entry, which the risk manager may refuse (valuing the entry
    /// and the current exposure at the price). Otherwise nothing.
    pub fn plan_iteration(&mut self, now: i64, today: i32, current_price: i64, current_balance: i64) -> (r: BotResult<
        IterationPlan,
    >)
        requires
            old(self).state.is_active,
            iteration_ready(*old(self), now, today, current_price as int, current_balance),
        ensures
            ({
                let e1 = touched(*old(self), now);
                let kind = iteration_status(e1, now as int, current_price as int);
                if kind == RiskStatusKind::EmergencyExit {
                    r matches Ok(IterationPlan::EmergencyExit) && *final(self) == e1
                } else if kind == RiskStatusKind::ExitRequired {
                    r matches Ok(IterationPlan::ExitAll(a)) && a == exit_all_of(e1.state) && *final(self) == e1
                } else if e1.grid_config is None {
                    r matches Err(BotError::Unknown(m)) && m@ == "Grid not initialized"@ && *final(self) == e1
                } else if exit_decision(e1, current_price as int) is Some {
                    r matches Ok(IterationPlan::TakeExit(a)) && a == exit_decision(e1, current_price as int)->0
                        && *final(self) == e1
                } else if entry_decision(e1, now as int, current_price as int) is None {
                    r matches Ok(IterationPlan::Hold) && *final(self) == e1
                } else {
                    let a = entry_decision(e1, now as int, current_price as int)->0;
                    let value = dec_mul(a.qty as int, current_price as int) as i64;
                    let exposure = exposure_value(e1.state, current_price as int) as i64;
                    let rm = e1.risk_manager;
                    let allowed = trade_verdict(
                        rm.config,
                        observed(rm.daily_stats, today, current_balance),
                        current_balance,
                        value,
                        exposure,
                    ) == TradeVerdict::Allowed;
                    &&& allowed ==> (r matches Ok(IterationPlan::TakeEntry(b)) && b == a)
                    &&& !allowed ==> (r matches Ok(IterationPlan::EntryBlocked))
                    &&& *final(self) == DynaGridEngine {
                        risk_manager: RiskManager {
                            daily_stats: stats_after_trade_check(rm, today, current_balance, value, exposure),
                            ..rm
                        },
                        ..e1
                    }
                }
            }),
    {
        self.state.last_action_time = Some(now);
        let allocated_capital = self.state.initial_position_value_usdt;
        let total = self.state.total_exposure();
        let current_exposure = dmul(total, current_price);
        let status = self.risk_manager.check_strategy_risk(now, &self.state, current_price, allocated_capital)?;
        match status {
            RiskStatus::EmergencyExit { .. } => return Ok(IterationPlan::EmergencyExit),
            RiskStatus::ExitRequired { .. } => return Ok(IterationPlan::ExitAll(self.exit_all_action())),
            _ => {},
        }
        if let Some(exit_action) = self.check_exit_conditions(current_price)? {
            return Ok(IterationPlan::TakeExit(exit_action));
        }
        match self.check_entry_conditions(now, current_price)? {
            None => Ok(IterationPlan::Hold),
            Some(enter_action) => {
                let new_position_value = dmul(enter_action.qty, current_price);
                match self.risk_manager.check_trade_allowed(
                    today,
                    current_balance,
                    new_position_value,
                    current_exposure,
                ) {
                    Err(_) => Ok(IterationPlan::EntryBlocked),
                    Ok(()) => Ok(IterationPlan::TakeEntry(enter_action)),
                }
            },
        }
    }

    /// After an exit: the realized P&L so far is recorded as a trade with the
    /// risk manager (added to the day's P&L, one more trade, the loss streak
    /// lengthened by a loss and reset otherwise); nothing else changes.
    /// Returns whether no position is left (the strategy is complete).
    pub fn after_exit(&mut self) -> (done: bool)
        requires
            fits_i64(old(self).risk_manager.daily_stats.total_pnl + old(self).state.realized_pnl),
            old(self).risk_manager.daily_stats.trade_count < u32::MAX,
            old(self).state.realized_pnl < 0 ==> old(self).risk_manager.daily_stats.loss_streak < u32::MAX,
        ensures
            done == !(old(self).state.long_size > 0 || old(self).state.short_size > 0),
            ({
                let rm = old(self).risk_manager;
                let pnl = old(self).state.realized_pnl;
                *final(self) == DynaGridEngine {
                    risk_manager: RiskManager {
                        daily_stats: DailyStats {
                            total_pnl: (rm.daily_stats.total_pnl + pnl) as i64,
                            trade_count: (rm.daily_stats.trade_count + 1) as u32,
                            loss_streak: if pnl < 0 { (rm.daily_stats.loss_streak + 1) as u32 } else { 0 },
                            ..rm.daily_stats
                        },
                        ..rm
                    },
                    ..*old(self)
                }
            }),
    {
        let pnl = self.state.realized_pnl;
        self.risk_manager.record_trade(pnl);
        !self.state.has_positions()
    }

    /// After an entry at `current_price`: the exposure (both legs valued at
    /// the price) is recorded with the risk manager; nothing else changes.
    pub fn after_entry(&mut self, current_price: i64)
        requires
            fits_i64(old(self).state.long_size + old(self).state.short_size),
            fits_i64(exposure_value(old(self).state, current_price as int)),
        ensures
            *final(self) == (DynaGridEngine {
                risk_manager: RiskManager {
                    daily_stats: DailyStats {
                        total_exposure: exposure_value(old(self).state, current_price as int) as i64,
                        ..old(self).risk_manager.daily_stats
                    },
                    ..old(self).risk_manager
                },
                ..*old(self)
            }),
    {
        let total = self.state.total_exposure();
        let exposure = dmul(total, current_price);
        self.risk_manager.update_exposure(exposure);
    }

    /// What the main loop does after an iteration that ended with
    /// `outcome`: a completed strategy finishes with its realized P&L, an
    /// iteration that goes on continues, a critical error closes every
    /// position and stops, and any other error is logged and the loop goes on.
    pub fn after_iteration(&self, outcome: &BotResult<bool>) -> (r: LoopStep)
        ensures
            *outcome == Ok::<bool, BotError>(true) ==> r == LoopStep::Finish(
                StrategyResult::Completed { final_pnl: self.state.realized_pnl },
            ),
            *outcome == Ok::<bool, BotError>(false) ==> r == LoopStep::Continue,
            *outcome matches Err(e) && spec_is_critical(e) ==> r == LoopStep::EmergencyStop,
            *outcome matches Err(e) && !spec_is_critical(e) ==> r == LoopStep::LogAndContinue,
    {
        match outcome {
            Ok(true) => LoopStep::Finish(StrategyResult::Completed { final_pnl: self.state.realized_pnl }),
            Ok(false) => LoopStep::Continue,
            Err(e) => if e.is_critical() {
                LoopStep::EmergencyStop
            } else {
                LoopStep::LogAndContinue
            },
        }
    }

    /// Ends an iteration whose `plan` has been carried out (its orders placed
    /// and its entry or exit applied): an emergency exit or a required exit
    /// finishes the strategy; a taken exit is recorded as a trade and
    /// finishes the strategy when no position is left; a taken entry records
    /// the exposure at `current_price`; otherwise nothing changes. Returns
    /// whether the strategy is complete, and a complete strategy is inactive.
    pub fn after_plan(&mut self, plan: &IterationPlan, current_price: i64) -> (done: bool)
        requires
            plan is TakeExit ==> trade_record_fits(*old(self)),
            plan is TakeEntry ==> fits_i64(old(self).state.long_size + old(self).state.short_size) && fits_i64(
                exposure_value(old(self).state, current_price as int),
            ),
        ensures
            done ==> !final(self).state.is_active,
            (plan is EmergencyExit || plan is ExitAll) ==> done && *final(self) == finished(*old(self)),
            plan is TakeExit ==> {
                let e1 = trade_recorded(*old(self));
                &&& done == !(old(self).state.long_size > 0 || old(self).state.short_size > 0)
                &&& *final(self) == (if done { finished(e1) } else { e1 })
            },
            plan is TakeEntry ==> !done && *final(self) == exposure_recorded(*old(self), current_price as int),
            (plan is EntryBlocked || plan is Hold) ==> !done && *final(self) == *old(self),
    {
        match plan {
            IterationPlan::EmergencyExit => {
                self.finalize_strategy();
                true
            },
            IterationPlan::ExitAll(_) => {
                self.finalize_strategy();
                true
            },
            IterationPlan::TakeExit(_) => {
                let done = self.after_exit();
                if done {
                    self.finalize_strategy();
                }
                done
            },
            IterationPlan::TakeEntry(_) => {
                self.after_entry(current_price);
                false
            },
            IterationPlan::EntryBlocked => false,
            IterationPlan::Hold => false,
        }
    }

    /// Whether the risk figures are logged this iteration: at an even grid
    /// level.
    pub fn should_log_metrics(&self) -> (r: bool)
        ensures
            r == (self.state.grid_level % 2 == 0),
    {
        self.state.grid_level % 2 == 0
    }

    /// Marks the strategy finished.
    pub fn finalize_strategy(&mut self)
        ensures
            *final(self) == (DynaGridEngine { state: StrategyState { is_active: false, ..old(self).state }, ..*old(self) }),
    {
        self.state.is_active = false;
    }
}

/// The engine with the strategy marked finished.
pub open spec fn finished(e: DynaGridEngine) -> DynaGridEngine {
    DynaGridEngine { state: StrategyState { is_active: false, ..e.state }, ..e }
}

/// The engine after the realized P&L so far is recorded as a trade with the
/// risk manager (see `after_exit`).
pub open spec fn trade_recorded(e: DynaGridEngine) -> DynaGridEngine {
    let rm = e.risk_manager;
    let pnl = e.state.realized_pnl;
    DynaGridEngine {
        risk_manager: RiskManager {
            daily_stats: DailyStats {
                total_pnl: (rm.daily_stats.total_pnl + pnl) as i64,
                trade_count: (rm.daily_stats.trade_count + 1) as u32,
                loss_streak: if pnl < 0 { (rm.daily_stats.loss_streak + 1) as u32 } else { 0 },
                ..rm.daily_stats
            },
            ..rm
        },
        ..e
    }
}

/// Recording the realized P&L as a trade stays within the counters' types.
pub open spec fn trade_record_fits(e: DynaGridEngine) -> bool {
    &&& fits_i64(e.risk_manager.daily_stats.total_pnl + e.state.realized_pnl)
    &&& e.risk_manager.daily_stats.trade_count < u32::MAX
    &&& e.state.realized_pnl < 0 ==> e.risk_manager.daily_stats.loss_streak < u32::MAX
}

/// The engine after the exposure at `price` is recorded with the risk
/// manager (see `after_entry`).
pub open spec fn exposure_recorded(e: DynaGridEngine, price: int) -> DynaGridEngine {
    DynaGridEngine {
        risk_manager: RiskManager {
            daily_stats: DailyStats { total_exposure: exposure_value(e.state, price) as i64, ..e.risk_manager.daily_stats },
            ..e.risk_manager
        },
        ..e
    }
}

/// Whether `o` is the reduce-only market order on `side` for `qty` of
/// `symbol` that closes a leg.
pub open spec fn is_closing_order(o: OrderRequest, symbol: Seq<char>, side: Seq<char>, qty: i64) -> bool {
    &&& o.symbol@ == symbol
    &&& o.side@ == side
    &&& o.order_type@ == "Market"@
    &&& o.qty == qty
    &&& o.price is None
    &&& o.time_in_force is None
    &&& o.reduce_only
    &&& !o.close_on_trigger
}

/// The orders that carry out exit `a` on `symbol`, in order: a reduce-only
/// market Sell of the long quantity when a long is closed, then a
/// reduce-only market Buy of the short quantity when a short is closed.
pub fn exit_orders(symbol: &str, a: &ExitAction) -> (r: Vec<OrderRequest>)
    ensures
        r@.len() == (if a.close_long_qty > 0 { 1int } else { 0 }) + (if a.close_short_qty > 0 { 1int } else { 0 }),
        a.close_long_qty > 0 ==> is_closing_order(r@[0], symbol@, "Sell"@, a.close_long_qty),
        a.close_short_qty > 0 ==> is_closing_order(r@[r@.len() - 1], symbol@, "Buy"@, a.close_short_qty),
{
    let mut orders: Vec<OrderRequest> = Vec::new();
    if a.close_long_qty > 0 {
        orders.push(OrderRequest::market(symbol.to_owned(), "Sell".to_owned(), a.close_long_qty).reduce_only());
    }
    if a.close_short_qty > 0 {
        orders.push(OrderRequest::market(symbol.to_owned(), "Buy".to_owned(), a.close_short_qty).reduce_only());
    }
    orders
}

/// The part of `size` that a rung of `pct` percent closes, computed.
pub fn portion_of(size: i64, pct: i64) -> (r: i64)
    requires
        fits_i64(portion(size as int, pct as int)),
    ensures
        r == portion(size as int, pct as int),
{
    proof {
        assert(-0x4000_0000_0000_0000_0000_0000_0000_0000int <= (size as int) * (pct as int)
            <= 0x4000_0000_0000_0000_0000_0000_0000_0000int) by (nonlinear_arith)
            requires
                -0x8000_0000_0000_0000int <= size <= 0x7fff_ffff_ffff_ffffint,
                -0x8000_0000_0000_0000int <= pct <= 0x7fff_ffff_ffff_ffffint,
        ;
    }
    let p: i128 = (size as i128) * (pct as i128);
    let q: i128 = p / (100 * SCALE as i128);
    q as i64
}

/// The state after closing `a.close_long_qty` of the long and
/// `a.close_short_qty` of the short.
pub open spec fn after_closing(s: StrategyState, a: ExitAction) -> StrategyState {
    StrategyState {
        long_size: (s.long_size - a.close_long_qty) as i64,
        short_size: (s.short_size - a.close_short_qty) as i64,
        ..s
    }
}

/// The exit that closes everything held.
pub open spec fn exit_all_of(s: StrategyState) -> ExitAction {
    ExitAction { level: 0, close_long_qty: s.long_size, close_short_qty: s.short_size, reason: ExitReason::Manual }
}

/// Closing both legs of the exit-all action leaves no position.
pub proof fn lemma_exit_all_leaves_nothing(s: StrategyState)
    ensures
        after_closing(s, exit_all_of(s)).long_size == 0,
        after_closing(s, exit_all_of(s)).short_size == 0,
        !(after_closing(s, exit_all_of(s)).long_size > 0 || after_closing(s, exit_all_of(s)).short_size > 0),
{
}

proof fn lemma_portion_within(size: int, pct: int)
    requires
        size >= 0,
        0 <= pct <= 100 * SCALE,
    ensures
        0 <= portion(size, pct) <= size,
{
    let d = 100 * SCALE as int;
    assert(0 <= size * pct <= size * d) by (nonlinear_arith)
        requires
            size >= 0,
            0 <= pct <= d,
    ;
    lemma_div_pos_is_pos(size * pct, d);
    lemma_div_is_ordered(size * pct, size * d, d);
    lemma_div_multiples_vanish(size, d);
}

/// A partial exit never closes more than is held: with both legs
/// non-negative and every rung's percentage between 0 and 100, the exit
/// taken closes between nothing and all of each leg, so no leg goes
/// negative.
pub proof fn lemma_exit_closes_within_position(e: DynaGridEngine, price: int)
    requires
        e.state.long_size >= 0,
        e.state.short_size >= 0,
        forall|i: int|
            0 <= i < e.partial_exit_config.levels@.len() ==> 0 <= #[trigger] e.partial_exit_config.levels@[i].percentage
                <= 100 * SCALE,
    ensures
        exit_decision(e, price) matches Some(a) ==> {
            &&& 0 <= a.close_long_qty <= e.state.long_size
            &&& 0 <= a.close_short_qty <= e.state.short_size
            &&& after_closing(e.state, a).long_size >= 0
            &&& after_closing(e.state, a).short_size >= 0
        },
{
    let cfg = e.partial_exit_config;
    let grid = e.grid_config->0;
    let range = grid.upper_price - grid.lower_price;
    if cfg.enabled && cfg.levels@.len() > 0 {
        if let Some(w) = winner(e.state) {
            lemma_first_rung_from(cfg, w.0, range, w.1, price, 0);
            if let Some(i) = first_rung(cfg, w.0, range, w.1, price, 0) {
                let pct = cfg.levels@[i].percentage as int;
                lemma_portion_within(w.2, pct);
                lemma_portion_within(w.3, pct);
            }
        }
    }
}

proof fn lemma_weighted_average_bound(size: int, avg: int, qty: int, price: int, high: int)
    requires
        size >= 0,
        avg >= 0,
        qty > 0,
        price >= 0,
        avg <= high,
        price <= high,
    ensures
        dec_div(dec_mul(size, avg) + dec_mul(qty, price), size + qty) <= high,
{
    let s = SCALE as int;
    let a = size * avg;
    let b = qty * price;
    let n = size + qty;
    assert(a >= 0 && b >= 0) by (nonlinear_arith)
        requires
            a == size * avg,
            b == qty * price,
            size >= 0,
            avg >= 0,
            qty > 0,
            price >= 0,
    ;
    vstd::arithmetic::div_mod::lemma_fundamental_div_mod(a, s);
    vstd::arithmetic::div_mod::lemma_fundamental_div_mod(b, s);
    assert(a % s >= 0 && b % s >= 0);
    lemma_div_pos_is_pos(a, s);
    lemma_div_pos_is_pos(b, s);
    let total = a / s + b / s;
    assert(dec_mul(size, avg) == a / s);
    assert(dec_mul(qty, price) == b / s);
    assert(total * s <= a + b) by (nonlinear_arith)
        requires
            a == s * (a / s) + a % s,
            b == s * (b / s) + b % s,
            a % s >= 0,
            b % s >= 0,
            total == a / s + b / s,
    ;
    assert(a + b <= n * high) by (nonlinear_arith)
        requires
            a == size * avg,
            b == qty * price,
            n == size + qty,
            size >= 0,
            qty > 0,
            avg <= high,
            price <= high,
    ;
    assert(total >= 0);
    assert(total * s >= 0) by (nonlinear_arith)
        requires
            total >= 0,
            s > 0,
    ;
    lemma_div_is_ordered(total * s, n * high, n);
    lemma_div_multiples_vanish(high, n);
}

/// An entry never lifts a leg's average price above the higher of its old
/// average and the entry price (sizes and prices non-negative).
pub proof fn lemma_entry_average_at_most_higher_price(s: StrategyState, side: Side, qty: int, price: int, now: i64)
    requires
        s.long_size >= 0,
        s.short_size >= 0,
        s.long_avg_price >= 0,
        s.short_avg_price >= 0,
        qty > 0,
        price >= 0,
        entry_update_fits(s, side, qty, price),
    ensures
        side == Side::Buy ==> entered(s, side, qty, price, now).long_avg_price <= (if s.long_avg_price >= price {
            s.long_avg_price as int
        } else {
            price
        }),
        side == Side::Sell ==> entered(s, side, qty, price, now).short_avg_price <= (if s.short_avg_price >= price {
            s.short_avg_price as int
        } else {
            price
        }),
{
    match side {
        Side::Buy => {
            let high = if s.long_avg_price >= price { s.long_avg_price as int } else { price };
            lemma_weighted_average_bound(s.long_size as int, s.long_avg_price as int, qty, price, high);
        },
        Side::Sell => {
            let high = if s.short_avg_price >= price { s.short_avg_price as int } else { price };
            lemma_weighted_average_bound(s.short_size as int, s.short_avg_price as int, qty, price, high);
        },
    }
}

/// An emergency close request targets the leg it is meant to close: the
/// "Sell" named for a long closes a "Buy" position, the "Buy" named for a
/// short closes a "Sell" position.
pub proof fn lemma_emergency_sides_target_held_legs()
    ensures
        close_target(Side::Sell.spec_name()) == "Buy"@,
        close_target(Side::Buy.spec_name()) == "Sell"@,
{
    reveal_strlit("Sell");
    reveal_strlit("Buy");
    reveal_strlit("buy");
    assert(ascii_lower("Buy"@[0]) == ascii_lower("buy"@[0]));
    assert(ascii_lower("Buy"@[1]) == ascii_lower("buy"@[1]));
    assert(ascii_lower("Buy"@[2]) == ascii_lower("buy"@[2]));
    assert(equal_ignoring_ascii_case("Buy"@, "buy"@));
    assert(!equal_ignoring_ascii_case("Sell"@, "buy"@));
}

/// With the short side winning, an exit is taken only once the price has
/// fallen to the exit price of the rung it reports: at or below the short's
/// average entry less that rung's multiple of the grid's width. A price above
/// every rung's exit price takes no exit.
pub proof fn lemma_short_exit_needs_price_at_or_below_rung(e: DynaGridEngine, price: int)
    requires
        e.grid_config is Some,
        e.state.short_size > e.state.long_size,
    ensures
        ({
            let g = e.grid_config->0;
            let range = g.upper_price - g.lower_price;
            let levels = e.partial_exit_config.levels@;
            &&& exit_decision(e, price) matches Some(a) ==> exists|i: int|
                0 <= i < levels.len() && a.level == (i + 1) as usize && price <= e.state.short_avg_price - dec_mul(
                    range,
                    #[trigger] levels[i].distance_multiplier as int,
                )
            &&& (forall|i: int|
                0 <= i < levels.len() ==> price > e.state.short_avg_price - dec_mul(
                    range,
                    #[trigger] levels[i].distance_multiplier as int,
                )) ==> exit_decision(e, price) is None
        }),
{
    let cfg = e.partial_exit_config;
    let g = e.grid_config->0;
    let range = g.upper_price - g.lower_price;
    let w = winner(e.state)->0;
    assert(w.0 == Zone::Lower && w.1 == e.state.short_avg_price);
    lemma_first_rung_from(cfg, w.0, range, w.1, price, 0);
    if let Some(i) = first_rung(cfg, w.0, range, w.1, price, 0) {
        assert(rung_triggers(cfg, i, w.0, range, w.1, price));
    }
    if forall|i: int|
        0 <= i < cfg.levels@.len() ==> price > e.state.short_avg_price - dec_mul(
            range,
            #[trigger] cfg.levels@[i].distance_multiplier as int,
        ) {
        if let Some(i) = first_rung(cfg, w.0, range, w.1, price, 0) {
            assert(price > e.state.short_avg_price - dec_mul(range, cfg.levels@[i].distance_multiplier as int));
        }
    }
}

/// With the long side winning, an exit is taken only once the price has
/// risen to the exit price of the rung it reports: at or above the long's
/// average entry plus that rung's multiple of the grid's width. A price below
/// every rung's exit price takes no exit.
pub proof fn lemma_long_exit_needs_price_at_or_above_rung(e: DynaGridEngine, price: int)
    requires
        e.grid_config is Some,
        e.state.long_size > e.state.short_size,
    ensures
        ({
            let g = e.grid_config->0;
            let range = g.upper_price - g.lower_price;
            let levels = e.partial_exit_config.levels@;
            &&& exit_decision(e, price) matches Some(a) ==> exists|i: int|
                0 <= i < levels.len() && a.level == (i + 1) as usize && price >= e.state.long_avg_price + dec_mul(
                    range,
                    #[trigger] levels[i].distance_multiplier as int,
                )
            &&& (forall|i: int|
                0 <= i < levels.len() ==> price < e.state.long_avg_price + dec_mul(
                    range,
                    #[trigger] levels[i].distance_multiplier as int,
                )) ==> exit_decision(e, price) is None
        }),
{
    let cfg = e.partial_exit_config;
    let g = e.grid_config->0;
    let range = g.upper_price - g.lower_price;
    let w = winner(e.state)->0;
    assert(w.0 == Zone::Upper && w.1 == e.state.long_avg_price);
    lemma_first_rung_from(cfg, w.0, range, w.1, price, 0);
    if let Some(i) = first_rung(cfg, w.0, range, w.1, price, 0) {
        assert(rung_triggers(cfg, i, w.0, range, w.1, price));
    }
    if forall|i: int|
        0 <= i < cfg.levels@.len() ==> price < e.state.long_avg_price + dec_mul(
            range,
            #[trigger] cfg.levels@[i].distance_multiplier as int,
        ) {
        if let Some(i) = first_rung(cfg, w.0, range, w.1, price, 0) {
            assert(price < e.state.long_avg_price + dec_mul(range, cfg.levels@[i].distance_multiplier as int));
        }
    }
}

/// In the lower zone (within the level limit and before the deadline) an
/// entry is skipped as balanced exactly when the short's value has reached
/// the sizing factor times the long's value. Below that, a short entry of the
/// sized quantity is made whenever the order is worth the minimum.
pub proof fn lemma_lower_zone_tops_up_short(e: DynaGridEngine, now: int, price: int)
    requires
        e.grid_config is Some,
        e.state.grid_level < e.config.max_grid_levels,
        !timed_out_at(e.state.max_hold_until, now),
        price <= e.grid_config->0.lower_price,
        price < e.grid_config->0.upper_price,
    ensures
        ({
            let s = e.state;
            let f = e.config.position_sizing_factor as int;
            let lv = dec_mul(s.long_size as int, price);
            let sv = dec_mul(s.short_size as int, price);
            let qty = next_size(s.initial_position_value_usdt as int, f, s.long_size as int, s.short_size as int, Zone::Lower, price);
            &&& sv >= dec_mul(lv, f) ==> entry_decision(e, now, price) is None
            &&& sv < dec_mul(lv, f) && dec_mul(qty, price) >= 10 * SCALE ==> (entry_decision(e, now, price) matches Some(a)
                && a.side == Side::Sell && a.zone == Zone::Lower && a.qty == qty as i64 && a.price is None)
        }),
{
}

/// In the upper zone (within the level limit and before the deadline) an
/// entry is skipped as balanced exactly when the long's value has reached the
/// sizing factor times the short's value. Below that, a long entry of the
/// sized quantity is made whenever the order is worth the minimum.
pub proof fn lemma_upper_zone_tops_up_long(e: DynaGridEngine, now: int, price: int)
    requires
        e.grid_config is Some,
        e.state.grid_level < e.config.max_grid_levels,
        !timed_out_at(e.state.max_hold_until, now),
        price >= e.grid_config->0.upper_price,
    ensures
        ({
            let s = e.state;
            let f = e.config.position_sizing_factor as int;
            let lv = dec_mul(s.long_size as int, price);
            let sv = dec_mul(s.short_size as int, price);
            let qty = next_size(s.initial_position_value_usdt as int, f, s.long_size as int, s.short_size as int, Zone::Upper, price);
            &&& lv >= dec_mul(sv, f) ==> entry_decision(e, now, price) is None
            &&& lv < dec_mul(sv, f) && dec_mul(qty, price) >= 10 * SCALE ==> (entry_decision(e, now, price) matches Some(a)
                && a.side == Side::Buy && a.zone == Zone::Upper && a.qty == qty as i64 && a.price is None)
        }),
{
}

proof fn lemma_trend_ema_flat(prices: Seq<i64>, period: int, j: nat, c: int)
    requires
        period >= 1,
        j < prices.len(),
        forall|i: int| 0 <= i <= j ==> #[trigger] prices[i] == c,
    ensures
        trend_ema(prices, period, j) == c,
    decreases j,
{
    if j > 0 {
        lemma_trend_ema_flat(prices, period, (j - 1) as nat, c);
        assert(prices[j as int] == c);
        assert(div_toward_zero(0, period + 1) == 0);
    }
}

/// The whole-series EMA takes in the close at its own index: after closes
/// that all equal `c`, a close `d` at index `j` moves the EMA from `c`
/// toward `d` by `2 / (period + 1)` of the gap, so the last value depends on
/// the last close.
pub proof fn lemma_trend_ema_follows_latest_close(prices: Seq<i64>, period: int, j: nat, c: int)
    requires
        period >= 1,
        1 <= j < prices.len(),
        forall|i: int| 0 <= i < j ==> #[trigger] prices[i] == c,
    ensures
        trend_ema(prices, period, j) == c + div_toward_zero((prices[j as int] - c) * 2, period + 1),
        prices[j as int] > c && (prices[j as int] - c) * 2 >= period + 1 ==> trend_ema(prices, period, j) > c,
        prices[j as int] < c && (c - prices[j as int]) * 2 >= period + 1 ==> trend_ema(prices, period, j) < c,
{
    lemma_trend_ema_flat(prices, period, (j - 1) as nat, c);
    let d = prices[j as int] - c;
    if d > 0 && d * 2 >= period + 1 {
        lemma_div_is_ordered(period + 1, d * 2, period + 1);
        lemma_div_multiples_vanish(1, period + 1);
    }
    if d < 0 && -d * 2 >= period + 1 {
        lemma_div_is_ordered(period + 1, -(d * 2), period + 1);
        lemma_div_multiples_vanish(1, period + 1);
    }
}

} // verus!
