//! Checks that the figures of a strategy step keep the engine's fixed-point
//! arithmetic within `i64`, for callers that cannot know it in advance.

use vstd::prelude::*;
use crate::db::models::{long_pnl, pnl_fits, short_pnl, unrealized, StrategyState};
use crate::fixed::{dec_div, dec_mul, exceeds_ratio, fits_i64, percent_numerator, SCALE};
use crate::risk::manager::{
    can_observe, rolled_over, trade_check_ready, trade_verdict, with_balance, RiskManager, TradeVerdict,
};
use crate::strategy::dynagrid::{
    already_balanced, entry_decision, entry_ready, entry_update_fits, exit_ready, exit_update_fits, exposure_value,
    iteration_ready, long_leg_pnl, portion, short_leg_pnl, touched, winner, DynaGridEngine,
};
use crate::strategy::types::{next_size, next_size_fits, zone_of, ExitAction, PartialExitConfig, Side, Zone};

verus! {

/// Whether `x` fits in an `i64`.
fn fits(x: i128) -> (r: bool)
    ensures
        r == fits_i64(x as int),
{
    i64::MIN as i128 <= x && x <= i64::MAX as i128
}

proof fn lemma_product_bound(a: int, b: int)
    requires
        fits_i64(a),
        fits_i64(b),
    ensures
        -0x4000_0000_0000_0000_0000_0000_0000_0000int <= a * b <= 0x4000_0000_0000_0000_0000_0000_0000_0000int,
{
    assert(-0x4000_0000_0000_0000_0000_0000_0000_0000int <= a * b <= 0x4000_0000_0000_0000_0000_0000_0000_0000int)
        by (nonlinear_arith)
        requires
            -0x8000_0000_0000_0000int <= a <= 0x7fff_ffff_ffff_ffffint,
            -0x8000_0000_0000_0000int <= b <= 0x7fff_ffff_ffff_ffffint,
    ;
}

/// `dec_mul` of two values that fit in `i64`, computed without overflow.
fn wide_mul(a: i128, b: i128) -> (r: i128)
    requires
        fits_i64(a as int),
        fits_i64(b as int),
    ensures
        r == dec_mul(a as int, b as int),
        -0x4000_0000_0000_0000_0000_0000_0000_0000int <= r <= 0x4000_0000_0000_0000_0000_0000_0000_0000int,
{
    proof {
        lemma_product_bound(a as int, b as int);
    }
    let p: i128 = a * b;
    let q: i128 = p / (SCALE as i128);
    proof {
        vstd::arithmetic::div_mod::lemma_div_is_ordered(p as int, 0x4000_0000_0000_0000_0000_0000_0000_0000int, SCALE as int);
        if p < 0 {
            vstd::arithmetic::div_mod::lemma_div_is_ordered((-p) as int, 0x4000_0000_0000_0000_0000_0000_0000_0000int, SCALE as int);
        }
        vstd::arithmetic::div_mod::lemma_div_pos_is_pos(0x4000_0000_0000_0000_0000_0000_0000_0000int, SCALE as int);
    }
    q
}

/// `dec_div` of a value that fits in `i64` by a positive one, computed
/// without overflow.
fn wide_div(a: i128, b: i128) -> (r: i128)
    requires
        fits_i64(a as int),
        fits_i64(b as int),
        b > 0,
    ensures
        r == dec_div(a as int, b as int),
        -0x4000_0000_0000_0000_0000_0000_0000_0000int <= r <= 0x4000_0000_0000_0000_0000_0000_0000_0000int,
{
    proof {
        lemma_product_bound(a as int, SCALE as int);
    }
    let p: i128 = a * (SCALE as i128);
    let q: i128 = p / b;
    proof {
        if p >= 0 {
            vstd::arithmetic::div_mod::lemma_div_is_ordered_by_denominator(p as int, 1, b as int);
            vstd::arithmetic::div_mod::lemma_div_pos_is_pos(p as int, b as int);
        } else {
            vstd::arithmetic::div_mod::lemma_div_is_ordered_by_denominator((-p) as int, 1, b as int);
            vstd::arithmetic::div_mod::lemma_div_pos_is_pos((-p) as int, b as int);
        }
    }
    q
}

/// Whether the unrealized P&L of `s` at `price` can be computed in `i64`.
pub fn pnl_fits_at(s: &StrategyState, price: i64) -> (r: bool)
    ensures
        r == pnl_fits(*s, price as int),
{
    let mut lp: i128 = 0;
    if s.long_size > 0 {
        let d: i128 = price as i128 - s.long_avg_price as i128;
        if !fits(d) {
            return false;
        }
        lp = wide_mul(s.long_size as i128, d);
        if !fits(lp) {
            return false;
        }
    }
    let mut sp: i128 = 0;
    if s.short_size > 0 {
        let d: i128 = s.short_avg_price as i128 - price as i128;
        if !fits(d) {
            return false;
        }
        sp = wide_mul(s.short_size as i128, d);
        if !fits(sp) {
            return false;
        }
    }
    assert(lp == long_pnl(*s, price as int));
    assert(sp == short_pnl(*s, price as int));
    let u: i128 = lp + sp;
    assert(u == unrealized(*s, price as int));
    if !fits(u) {
        return false;
    }
    fits(s.realized_pnl as i128 + u)
}

/// The figures of rung `j` fit in `i64`.
spec fn rung_fits(cfg: PartialExitConfig, j: int, zone: Zone, range: int, entry: int, win: int, lose: int) -> bool {
    &&& fits_i64(cfg.exit_distance(j, range))
    &&& fits_i64(cfg.exit_price(j, zone, range, entry))
    &&& fits_i64(portion(win, cfg.levels@[j].percentage as int))
    &&& fits_i64(portion(lose, cfg.levels@[j].percentage as int))
}

/// Whether the exit check of `e` at `price` can be computed in `i64` (see
/// `exit_ready`).
pub fn exit_fits_at(e: &DynaGridEngine, price: i64) -> (r: bool)
    requires
        e.grid_config is Some,
    ensures
        r == exit_ready(*e, price as int),
{
    let grid = match &e.grid_config {
        Some(g) => g,
        None => return false,
    };
    let range: i128 = grid.upper_price as i128 - grid.lower_price as i128;
    if !fits(range) {
        return false;
    }
    let s = &e.state;
    let (zone, entry, win, lose) = if s.long_size > s.short_size {
        (Zone::Upper, s.long_avg_price, s.long_size, s.short_size)
    } else if s.short_size > s.long_size {
        (Zone::Lower, s.short_avg_price, s.short_size, s.long_size)
    } else {
        return true;
    };
    let ghost w = winner(e.state)->0;
    assert(w == (zone, entry as int, win as int, lose as int));
    let cfg = &e.partial_exit_config;
    let n = cfg.levels.len();
    let mut i: usize = 0;
    while i < n
        invariant
            n == cfg.levels@.len(),
            *cfg == e.partial_exit_config,
            fits_i64(range as int),
            range == grid.upper_price - grid.lower_price,
            e.grid_config == Some(*grid),
            winner(e.state) == Some((zone, entry as int, win as int, lose as int)),
            i <= n,
            forall|j: int| 0 <= j < i ==> #[trigger] rung_fits(*cfg, j, zone, range as int, entry as int, win as int, lose as int),
        decreases n - i,
    {
        let level = cfg.levels[i];
        let dist = wide_mul(range, level.distance_multiplier as i128);
        assert(dist == cfg.exit_distance(i as int, range as int));
        if !fits(dist) {
            return false;
        }
        let exit_price: i128 = match zone {
            Zone::Upper => entry as i128 + dist,
            Zone::Lower => entry as i128 - dist,
        };
        if !fits(exit_price) {
            return false;
        }
        proof {
            lemma_product_bound(win as int, level.percentage as int);
            lemma_product_bound(lose as int, level.percentage as int);
        }
        let pw: i128 = (win as i128) * (level.percentage as i128) / (100 * SCALE as i128);
        let pl: i128 = (lose as i128) * (level.percentage as i128) / (100 * SCALE as i128);
        assert(pw == portion(win as int, level.percentage as int));
        assert(pl == portion(lose as int, level.percentage as int));
        if !fits(pw) || !fits(pl) {
            return false;
        }
        assert(exit_price == cfg.exit_price(i as int, zone, range as int, entry as int));
        assert(level == cfg.levels@[i as int]);
        assert(rung_fits(*cfg, i as int, zone, range as int, entry as int, win as int, lose as int));
        i = i + 1;
    }
    proof {
        let ec = e.partial_exit_config;
        let grange = e.grid_config->0.upper_price - e.grid_config->0.lower_price;
        let w = winner(e.state)->0;
        assert(grange == range as int);
        assert forall|j: int| 0 <= j < ec.levels@.len() implies {
            &&& fits_i64(#[trigger] ec.exit_distance(j, grange))
            &&& fits_i64(ec.exit_price(j, w.0, grange, w.1))
            &&& fits_i64(portion(w.2, ec.levels@[j].percentage as int))
            &&& fits_i64(portion(w.3, ec.levels@[j].percentage as int))
        } by {
            assert(rung_fits(*cfg, j, zone, range as int, entry as int, win as int, lose as int));
        }
        assert(exit_ready(*e, price as int));
    }
    true
}

/// Whether the entry check of `e` at `price` can be computed in `i64` (see
/// `entry_ready`).
pub fn entry_fits_at(e: &DynaGridEngine, price: i64) -> (r: bool)
    requires
        e.grid_config is Some,
    ensures
        r == entry_ready(*e, price as int),
{
    let grid = match &e.grid_config {
        Some(g) => g,
        None => return false,
    };
    let s = &e.state;
    let zone = if price >= grid.upper_price {
        Zone::Upper
    } else if price <= grid.lower_price {
        Zone::Lower
    } else {
        return true;
    };
    if s.grid_level >= e.config.max_grid_levels {
        return true;
    }
    assert(zone_of(grid.upper_price as int, grid.lower_price as int, price as int) == Some(zone));
    let f = e.config.position_sizing_factor;
    let lv = wide_mul(s.long_size as i128, price as i128);
    let sv = wide_mul(s.short_size as i128, price as i128);
    if !fits(lv) || !fits(sv) {
        return false;
    }
    let fsv = wide_mul(sv, f as i128);
    let flv = wide_mul(lv, f as i128);
    if !fits(fsv) || !fits(flv) {
        return false;
    }
    let balanced = match zone {
        Zone::Upper => lv >= fsv,
        Zone::Lower => sv >= flv,
    };
    assert(balanced == already_balanced(zone, lv as int, sv as int, f as int));
    if balanced {
        return true;
    }
    if e.config.position_risk_percentage.is_none() || price <= 0 {
        return false;
    }
    let target: i128 = match zone {
        Zone::Upper => fsv - lv,
        Zone::Lower => flv - sv,
    };
    if !fits(target) {
        return false;
    }
    let q = wide_div(target, price as i128);
    let m = wide_div(s.initial_position_value_usdt as i128, price as i128);
    if !fits(q) || !fits(m) {
        return false;
    }
    let qty: i128 = if q >= m {
        q
    } else {
        m
    };
    assert(qty == next_size(
        s.initial_position_value_usdt as int,
        f as int,
        s.long_size as int,
        s.short_size as int,
        zone,
        price as int,
    ));
    assert(next_size_fits(
        s.initial_position_value_usdt as int,
        f as int,
        s.long_size as int,
        s.short_size as int,
        zone,
        price as int,
    ));
    let v = wide_mul(qty, price as i128);
    fits(v)
}

/// Whether an entry of `qty` on `side` at `price` can be recorded in `i64`
/// (see `entry_update_fits`).
pub fn entry_update_fits_at(s: &StrategyState, side: Side, qty: i64, price: i64) -> (r: bool)
    ensures
        r == entry_update_fits(*s, side, qty as int, price as int),
{
    let (size, avg) = match side {
        Side::Buy => (s.long_size, s.long_avg_price),
        Side::Sell => (s.short_size, s.short_avg_price),
    };
    let held = wide_mul(size as i128, avg as i128);
    let added = wide_mul(qty as i128, price as i128);
    if !fits(held) || !fits(added) {
        return false;
    }
    let total: i128 = held + added;
    let new_size: i128 = size as i128 + qty as i128;
    if !fits(total) || !fits(new_size) {
        return false;
    }
    if new_size > 0 {
        let avg_new = wide_div(total, new_size);
        fits(avg_new)
    } else {
        true
    }
}

/// Whether applying exit `a` to `s` at `price` stays within `i64` (see
/// `exit_update_fits`).
pub fn exit_update_fits_at(s: &StrategyState, a: &ExitAction, price: i64) -> (r: bool)
    ensures
        r == exit_update_fits(*s, *a, price as int),
{
    let mut lp: i128 = 0;
    if a.close_long_qty > 0 {
        let d: i128 = price as i128 - s.long_avg_price as i128;
        if !fits(d) {
            return false;
        }
        lp = wide_mul(a.close_long_qty as i128, d);
        if !fits(lp) || !fits(s.long_size as i128 - a.close_long_qty as i128) {
            return false;
        }
    }
    let mut sp: i128 = 0;
    if a.close_short_qty > 0 {
        let d: i128 = s.short_avg_price as i128 - price as i128;
        if !fits(d) {
            return false;
        }
        sp = wide_mul(a.close_short_qty as i128, d);
        if !fits(sp) || !fits(s.short_size as i128 - a.close_short_qty as i128) {
            return false;
        }
    }
    assert(lp == long_leg_pnl(*s, *a, price as int));
    assert(sp == short_leg_pnl(*s, *a, price as int));
    fits(lp + sp) && fits(s.realized_pnl as i128 + lp + sp)
}

/// Whether a trade check on day `today` with `balance`, for a trade of
/// `new_value` on top of `exposure`, can be recorded without overflow (see
/// `trade_check_ready`).
fn trade_check_fits(rm: &RiskManager, today: i32, balance: i64, new_value: i64, exposure: i64) -> (r: bool)
    ensures
        r == trade_check_ready(*rm, today, balance, new_value, exposure),
{
    let mut s0 = rm.daily_stats;
    s0.reset_if_new_day(today, balance);
    assert(s0 == rolled_over(rm.daily_stats, today, balance));
    let pnl: i128 = balance as i128 - s0.starting_balance as i128;
    if !fits(pnl) {
        return false;
    }
    if pnl < 0 && s0.loss_streak == u32::MAX {
        return false;
    }
    assert(can_observe(s0, balance));
    let ghost s = with_balance(s0, balance);
    assert(s.trade_count == s0.trade_count);
    assert(s.total_pnl == pnl);
    let loss = percent_numerator(-pnl);
    if exceeds_ratio(loss, s0.starting_balance, rm.config.max_daily_loss_pct) {
        assert(trade_verdict(rm.config, s, balance, new_value, exposure) == TradeVerdict::DailyLossLimit);
        return true;
    }
    let new_total: i128 = exposure as i128 + new_value as i128;
    let scaled = percent_numerator(new_total);
    if exceeds_ratio(scaled, balance, rm.config.max_total_exposure_pct) {
        assert(trade_verdict(rm.config, s, balance, new_value, exposure) == TradeVerdict::ExposureLimit);
        return true;
    }
    assert(trade_verdict(rm.config, s, balance, new_value, exposure) == TradeVerdict::Allowed);
    s0.trade_count < u32::MAX
}

proof fn lemma_checks_ignore_time(e: DynaGridEngine, now: i64, price: int)
    requires
        e.grid_config is Some,
    ensures
        exit_ready(touched(e, now), price) == exit_ready(e, price),
        entry_ready(touched(e, now), price) == entry_ready(e, price),
{
    let e1 = touched(e, now);
    let cfg = e.partial_exit_config;
    let grid = e.grid_config->0;
    let range = grid.upper_price - grid.lower_price;
    assert(winner(e1.state) == winner(e.state));
    assert(e1.partial_exit_config == cfg);
    assert(e1.grid_config == e.grid_config);
    if let Some(w) = winner(e.state) {
        if exit_ready(e, price) {
            assert forall|i: int| 0 <= i < cfg.levels@.len() implies {
                &&& fits_i64(#[trigger] cfg.exit_distance(i, range))
                &&& fits_i64(cfg.exit_price(i, w.0, range, w.1))
                &&& fits_i64(portion(w.2, cfg.levels@[i].percentage as int))
                &&& fits_i64(portion(w.3, cfg.levels@[i].percentage as int))
            } by {}
            assert(exit_ready(e1, price));
        }
        if exit_ready(e1, price) {
            assert forall|i: int| 0 <= i < cfg.levels@.len() implies {
                &&& fits_i64(#[trigger] cfg.exit_distance(i, range))
                &&& fits_i64(cfg.exit_price(i, w.0, range, w.1))
                &&& fits_i64(portion(w.2, cfg.levels@[i].percentage as int))
                &&& fits_i64(portion(w.3, cfg.levels@[i].percentage as int))
            } by {}
            assert(exit_ready(e, price));
        }
    }
}

impl DynaGridEngine {
    /// Whether one iteration at `current_price`, time `now`, date `today`
    /// and balance `current_balance` stays within `i64` (see
    /// `iteration_ready`) exactly; when it does, `plan_iteration` may be called
    /// with these figures.
    pub fn iteration_fits(&self, now: i64, today: i32, current_price: i64, current_balance: i64) -> (r: bool)
        ensures
            r == iteration_ready(*self, now, today, current_price as int, current_balance),
    {
        let ghost e1 = touched(*self, now);
        if self.state.initial_position_value_usdt > 0 && !pnl_fits_at(&self.state, current_price) {
            return false;
        }
        if self.grid_config.is_some() {
            proof {
                lemma_checks_ignore_time(*self, now, current_price as int);
            }
            let exit_ok = exit_fits_at(self, current_price);
            let entry_ok = entry_fits_at(self, current_price);
            if !exit_ok || !entry_ok {
                return false;
            }
        }
        let total: i128 = self.state.long_size as i128 + self.state.short_size as i128;
        if !fits(total) {
            return false;
        }
        let exposure = wide_mul(total, current_price as i128);
        assert(exposure == exposure_value(self.state, current_price as int));
        if !fits(exposure) {
            return false;
        }
        if self.grid_config.is_some() {
            assert(entry_decision(e1, now as int, current_price as int) == entry_decision(
                *self,
                now as int,
                current_price as int,
            ));
            match self.check_entry_conditions(now, current_price) {
                Ok(Some(a)) => {
                    let v = wide_mul(a.qty as i128, current_price as i128);
                    if !fits(v) {
                        return false;
                    }
                    return trade_check_fits(&self.risk_manager, today, current_balance, v as i64, exposure as i64);
                },
                _ => {},
            }
        }
        true
    }
}

} // verus!
