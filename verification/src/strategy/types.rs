//! Value types of the DynaGrid strategy: sides, zones, the price grid, the
//! partial-exit ladder and the position sizing rule.

use vstd::prelude::*;
use crate::fixed::{dec_div, dec_mul, ddiv, div_toward_zero, dmul, fits_i64, SCALE};
use crate::text::{ascii_lowercase, is_ascii_text, lowercase, spec_lowercase, str_equal};

verus! {

/// How a run of the strategy ended.
#[derive(Clone, Debug)]
pub enum StrategyResult {
    /// All positions were closed; the realized P&L (decimal USDT).
    Completed { final_pnl: i64 },
    /// Stopped manually or by the system.
    Stopped { reason: String },
    /// Stopped by an error.
    Error { reason: String },
}

/// What the strategy decided to do.
#[derive(Clone, Debug)]
pub enum StrategyAction {
    /// Open or add to a position.
    Enter(EnterAction),
    /// Close positions, partly or fully.
    Exit(ExitAction),
    /// Do nothing.
    Hold,
}

/// An entry order to place.
#[derive(Clone, Debug)]
pub struct EnterAction {
    pub side: Side,
    /// Quantity (decimal).
    pub qty: i64,
    pub zone: Zone,
    /// Limit price (decimal); `None` for a market order.
    pub price: Option<i64>,
}

/// Quantities to close on both sides.
#[derive(Clone, Debug)]
pub struct ExitAction {
    /// Partial exit level, counted from 1 (0 closes everything).
    pub level: usize,
    /// Long quantity to close (decimal).
    pub close_long_qty: i64,
    /// Short quantity to close (decimal).
    pub close_short_qty: i64,
    pub reason: ExitReason,
}

/// Why positions are closed.
#[derive(Clone, Debug, PartialEq, Eq, Structural)]
pub enum ExitReason {
    PartialTakeProfit { level: usize },
    FinalTakeProfit,
    StopLoss,
    Timeout,
    MaxGridLevels,
    Manual,
}

/// Order side.
#[derive(Clone, Copy, Debug, PartialEq, Eq, Structural)]
pub enum Side {
    /// Long.
    Buy,
    /// Short.
    Sell,
}

/// The side that a lower-case text names: `buy` or `sell`.
pub open spec fn side_named(t: Seq<char>) -> Option<Side> {
    if t == "buy"@ {
        Some(Side::Buy)
    } else if t == "sell"@ {
        Some(Side::Sell)
    } else {
        None
    }
}

/// The exchange's name of a side reads back as that side.
pub proof fn lemma_side_name_reads_back(side: Side)
    ensures
        is_ascii_text(side.spec_name()),
        side_named(ascii_lowercase(side.spec_name())) == Some(side),
{
    reveal_strlit("Buy");
    reveal_strlit("Sell");
    reveal_strlit("buy");
    reveal_strlit("sell");
    match side {
        Side::Buy => {
            assert(ascii_lowercase("Buy"@) =~= "buy"@);
        },
        Side::Sell => {
            assert(ascii_lowercase("Sell"@) =~= "sell"@);
            assert("sell"@ != "buy"@);
        },
    }
}

impl Side {
    /// The exchange's name of the side.
    pub open spec fn spec_name(self) -> Seq<char> {
        match self {
            Side::Buy => "Buy"@,
            Side::Sell => "Sell"@,
        }
    }

    /// The exchange's name of the side: `"Buy"` or `"Sell"`.
    pub fn as_str(&self) -> (r: &'static str)
        ensures
            r@ == self.spec_name(),
    {
        match self {
            Side::Buy => "Buy",
            Side::Sell => "Sell",
        }
    }

    /// The side that `s` names, case ignored as `str::to_lowercase` ignores it.
    /// Any other text is refused.
    pub fn from(s: &str) -> (r: Side)
        requires
            spec_lowercase(s@) == "buy"@ || spec_lowercase(s@) == "sell"@,
        ensures
            spec_lowercase(s@) == "buy"@ ==> r == Side::Buy,
            spec_lowercase(s@) == "sell"@ ==> r == Side::Sell,
    {
        proof {
            reveal_strlit("buy");
            reveal_strlit("sell");
            assert("buy"@.len() != "sell"@.len());
        }
        let lower = lowercase(s);
        if str_equal(lower.as_str(), "buy") {
            Side::Buy
        } else {
            Side::Sell
        }
    }

    /// The side that `s` names, case ignored; `None` for any other text.
    /// On ASCII text the case is folded the ASCII way.
    pub fn parse(s: &str) -> (r: Option<Side>)
        ensures
            r == side_named(spec_lowercase(s@)),
            is_ascii_text(s@) ==> r == side_named(ascii_lowercase(s@)),
    {
        let lower = lowercase(s);
        if str_equal(lower.as_str(), "buy") || str_equal(lower.as_str(), "sell") {
            Some(Side::from(s))
        } else {
            None
        }
    }
}

/// Price zone of the grid.
#[derive(Clone, Copy, Debug, PartialEq, Eq, Structural)]
pub enum Zone {
    /// At or above the upper price: the buy zone.
    Upper,
    /// At or below the lower price: the sell zone.
    Lower,
}

impl Zone {
    /// The other zone.
    pub fn opposite(&self) -> (r: Zone)
        ensures
            r == (match *self {
                Zone::Upper => Zone::Lower,
                Zone::Lower => Zone::Upper,
            }),
    {
        match self {
            Zone::Upper => Zone::Lower,
            Zone::Lower => Zone::Upper,
        }
    }

    /// The side that the zone trades: buy in the upper zone, sell in the lower.
    pub open spec fn spec_side(self) -> Side {
        match self {
            Zone::Upper => Side::Buy,
            Zone::Lower => Side::Sell,
        }
    }

    /// The side that the zone trades.
    pub fn to_side(&self) -> (r: Side)
        ensures
            r == self.spec_side(),
    {
        match self {
            Zone::Upper => Side::Buy,
            Zone::Lower => Side::Sell,
        }
    }
}

/// Half the width of a grid centred at `center` spanning `range_pct` percent.
pub open spec fn grid_half_range(center: int, range_pct: int) -> int {
    div_toward_zero(center * range_pct, 200 * SCALE)
}

/// The zone in which `price` lies, given the grid's bounds.
pub open spec fn zone_of(upper: int, lower: int, price: int) -> Option<Zone> {
    if price >= upper {
        Some(Zone::Upper)
    } else if price <= lower {
        Some(Zone::Lower)
    } else {
        None
    }
}

/// The price grid: an upper and a lower price around a centre.
#[derive(Clone, Copy, Debug)]
pub struct GridConfig {
    /// Upper bound (decimal price).
    pub upper_price: i64,
    /// Lower bound (decimal price).
    pub lower_price: i64,
    /// Width of the grid in percent of the centre (decimal).
    pub range_pct: i64,
}

impl GridConfig {
    /// The grid centred at `center_price` whose width is `range_pct` percent
    /// of the centre, split evenly above and below.
    pub fn new(center_price: i64, range_pct: i64) -> (r: GridConfig)
        requires
            fits_i64(center_price + grid_half_range(center_price as int, range_pct as int)),
            fits_i64(center_price - grid_half_range(center_price as int, range_pct as int)),
        ensures
            r.upper_price == center_price + grid_half_range(center_price as int, range_pct as int),
            r.lower_price == center_price - grid_half_range(center_price as int, range_pct as int),
            r.range_pct == range_pct,
    {
        proof {
            assert(-0x4000_0000_0000_0000_0000_0000_0000_0000int <= (center_price as int) * (range_pct as int)
                <= 0x4000_0000_0000_0000_0000_0000_0000_0000int) by (nonlinear_arith)
                requires
                    -0x8000_0000_0000_0000int <= center_price <= 0x7fff_ffff_ffff_ffffint,
                    -0x8000_0000_0000_0000int <= range_pct <= 0x7fff_ffff_ffff_ffffint,
            ;
        }
        let p: i128 = (center_price as i128) * (range_pct as i128);
        let half: i128 = p / (200 * SCALE as i128);
        let half: i64 = half as i64;
        GridConfig {
            upper_price: center_price + half,
            lower_price: center_price - half,
            range_pct,
        }
    }

    /// The zone in which `price` lies: upper at or above the upper price,
    /// lower at or below the lower price, none in between.
    pub fn get_zone(&self, price: i64) -> (r: Option<Zone>)
        ensures
            r == zone_of(self.upper_price as int, self.lower_price as int, price as int),
    {
        if price >= self.upper_price {
            Some(Zone::Upper)
        } else if price <= self.lower_price {
            Some(Zone::Lower)
        } else {
            None
        }
    }

    /// Whether `price` lies in no zone.
    pub fn is_in_range(&self, price: i64) -> (r: bool)
        ensures
            r == (zone_of(self.upper_price as int, self.lower_price as int, price as int) is None),
    {
        self.get_zone(price).is_none()
    }

    /// How far `price` lies beyond the zone's bound (negative when it has not
    /// reached it).
    pub fn distance_from_zone(&self, price: i64, zone: Zone) -> (r: i64)
        requires
            zone == Zone::Upper ==> fits_i64(price - self.upper_price),
            zone == Zone::Lower ==> fits_i64(self.lower_price - price),
        ensures
            zone == Zone::Upper ==> r == price - self.upper_price,
            zone == Zone::Lower ==> r == self.lower_price - price,
    {
        match zone {
            Zone::Upper => price - self.upper_price,
            Zone::Lower => self.lower_price - price,
        }
    }
}

/// One rung of the partial-exit ladder.
#[derive(Clone, Copy, Debug)]
pub struct ExitLevel {
    /// Percent of the position to close (decimal).
    pub percentage: i64,
    /// Multiple of the grid's width at which the rung triggers (decimal).
    pub distance_multiplier: i64,
}

/// Why a partial-exit ladder is refused.
#[derive(Clone, Copy, Debug, PartialEq, Eq, Structural)]
pub enum ExitLadderError {
    /// Partial exits are enabled but no rung is configured.
    NoLevels,
    /// The rungs' percentages do not add up to 100 (within 0.01); their sum (decimal).
    PercentagesDoNotSumTo100 { total: i128 },
}

/// The sum of the rungs' percentages.
pub open spec fn percentage_total(levels: Seq<ExitLevel>) -> int
    decreases levels.len(),
{
    if levels.len() == 0 {
        0
    } else {
        percentage_total(levels.drop_last()) + levels.last().percentage
    }
}

/// The tolerance on the sum of the percentages: 0.01 percent.
pub open spec fn percentage_tolerance() -> int {
    SCALE / 100
}

/// The verdict on a ladder: a disabled ladder is always accepted; an
/// enabled one needs a rung, and percentages adding up to 100 within 0.01.
pub open spec fn ladder_check(enabled: bool, levels: Seq<ExitLevel>) -> Result<(), ExitLadderError> {
    if !enabled {
        Ok(())
    } else if levels.len() == 0 {
        Err(ExitLadderError::NoLevels)
    } else {
        let total = percentage_total(levels);
        if total - 100 * SCALE > percentage_tolerance() || 100 * SCALE - total > percentage_tolerance() {
            Err(ExitLadderError::PercentagesDoNotSumTo100 { total: total as i128 })
        } else {
            Ok(())
        }
    }
}

/// The ladder of partial exits.
#[derive(Clone, Debug)]
pub struct PartialExitConfig {
    pub enabled: bool,
    pub levels: Vec<ExitLevel>,
}

impl PartialExitConfig {
    /// The distance from the entry at which rung `level_idx` triggers.
    pub open spec fn exit_distance(self, level_idx: int, grid_range: int) -> int {
        dec_mul(grid_range, self.levels@[level_idx].distance_multiplier as int)
    }

    /// The exit price of rung `level_idx`: above the entry for the upper zone,
    /// below it for the lower.
    pub open spec fn exit_price(self, level_idx: int, zone: Zone, grid_range: int, entry_price: int) -> int {
        match zone {
            Zone::Upper => entry_price + self.exit_distance(level_idx, grid_range),
            Zone::Lower => entry_price - self.exit_distance(level_idx, grid_range),
        }
    }

    /// A disabled ladder is always accepted. An enabled one needs at least one
    /// rung, and its percentages must add up to 100 within 0.01.
    pub fn validate(&self) -> (r: Result<(), ExitLadderError>)
        ensures
            r == ladder_check(self.enabled, self.levels@),
    {
        if !self.enabled {
            return Ok(());
        }
        if self.levels.len() == 0 {
            return Err(ExitLadderError::NoLevels);
        }
        let n = self.levels.len();
        let mut total: i128 = 0;
        let mut i: usize = 0;
        while i < n
            invariant
                n == self.levels@.len(),
                i <= n,
                total == percentage_total(self.levels@.take(i as int)),
                -(i as int) * 0x8000_0000_0000_0000int <= total <= (i as int) * 0x8000_0000_0000_0000int,
            decreases n - i,
        {
            proof {
                assert(self.levels@.take(i as int + 1).drop_last() =~= self.levels@.take(i as int));
            }
            total = total + self.levels[i].percentage as i128;
            i = i + 1;
        }
        proof {
            assert(self.levels@.take(n as int) =~= self.levels@);
        }
        let hundred: i128 = 100 * SCALE as i128;
        let tolerance: i128 = (SCALE / 100) as i128;
        if total - hundred > tolerance || hundred - total > tolerance {
            return Err(ExitLadderError::PercentagesDoNotSumTo100 { total });
        }
        Ok(())
    }

    /// The exit price of rung `level_idx` for a position entered at
    /// `entry_price`: the entry moved by the rung's multiple of `grid_range`,
    /// upward in the upper zone and downward in the lower.
    pub fn get_exit_price(&self, level_idx: usize, zone: Zone, grid_range: i64, entry_price: i64) -> (r: i64)
        requires
            level_idx < self.levels@.len(),
            fits_i64(self.exit_distance(level_idx as int, grid_range as int)),
            fits_i64(self.exit_price(level_idx as int, zone, grid_range as int, entry_price as int)),
        ensures
            r == self.exit_price(level_idx as int, zone, grid_range as int, entry_price as int),
    {
        let distance = dmul(grid_range, self.levels[level_idx].distance_multiplier);
        match zone {
            Zone::Upper => entry_price + distance,
            Zone::Lower => entry_price - distance,
        }
    }
}

/// The quantity to add so that the winning side reaches `sizing_factor`
/// times the other, and at least the initial value's worth.
pub open spec fn next_size(
    initial_value: int,
    sizing_factor: int,
    long: int,
    short: int,
    zone: Zone,
    price: int,
) -> int {
    let long_value = dec_mul(long, price);
    let short_value = dec_mul(short, price);
    let target_value = match zone {
        Zone::Upper => dec_mul(short_value, sizing_factor) - long_value,
        Zone::Lower => dec_mul(long_value, sizing_factor) - short_value,
    };
    let qty = dec_div(target_value, price);
    let minimum = dec_div(initial_value, price);
    if qty >= minimum { qty } else { minimum }
}

/// The intermediate values of `next_size` all fit in an `i64`.
pub open spec fn next_size_fits(
    initial_value: int,
    sizing_factor: int,
    long: int,
    short: int,
    zone: Zone,
    price: int,
) -> bool {
    let long_value = dec_mul(long, price);
    let short_value = dec_mul(short, price);
    let target_value = match zone {
        Zone::Upper => dec_mul(short_value, sizing_factor) - long_value,
        Zone::Lower => dec_mul(long_value, sizing_factor) - short_value,
    };
    &&& fits_i64(long_value)
    &&& fits_i64(short_value)
    &&& fits_i64(dec_mul(short_value, sizing_factor))
    &&& fits_i64(dec_mul(long_value, sizing_factor))
    &&& fits_i64(target_value)
    &&& fits_i64(dec_div(target_value, price))
    &&& fits_i64(dec_div(initial_value, price))
}

/// Position sizing parameters.
#[derive(Clone, Copy, Debug)]
pub struct PositionSizing {
    /// Value of the first entry (decimal USDT).
    pub initial_value_usdt: i64,
    /// Fraction of the free balance risked (decimal).
    pub risk_percentage: i64,
    /// Ratio of the winning side to the other that an entry aims at (decimal).
    pub sizing_factor: i64,
}

impl PositionSizing {
    /// The next quantity to trade toward `target_zone`: in the upper zone
    /// enough to bring the long value to `sizing_factor` times the short
    /// value, in the lower zone the reverse; never less than the initial
    /// value's worth at `current_price`.
    pub fn calculate_next_size(
        &self,
        current_long: i64,
        current_short: i64,
        target_zone: Zone,
        current_price: i64,
    ) -> (r: i64)
        requires
            current_price > 0,
            next_size_fits(
                self.initial_value_usdt as int,
                self.sizing_factor as int,
                current_long as int,
                current_short as int,
                target_zone,
                current_price as int,
            ),
        ensures
            r == next_size(
                self.initial_value_usdt as int,
                self.sizing_factor as int,
                current_long as int,
                current_short as int,
                target_zone,
                current_price as int,
            ),
    {
        let current_long_value = dmul(current_long, current_price);
        let current_short_value = dmul(current_short, current_price);
        let target_value = match target_zone {
            Zone::Upper => {
                let target_long_value = dmul(current_short_value, self.sizing_factor);
                target_long_value - current_long_value
            },
            Zone::Lower => {
                let target_short_value = dmul(current_long_value, self.sizing_factor);
                target_short_value - current_short_value
            },
        };
        let qty = ddiv(target_value, current_price);
        let minimum = ddiv(self.initial_value_usdt, current_price);
        if qty >= minimum {
            qty
        } else {
            minimum
        }
    }
}

/// The other zone.
pub open spec fn spec_opposite(z: Zone) -> Zone {
    match z {
        Zone::Upper => Zone::Lower,
        Zone::Lower => Zone::Upper,
    }
}

/// Taking the opposite zone twice gives the zone back, and the opposite
/// zone trades the other side.
pub proof fn lemma_opposite_zone(z: Zone)
    ensures
        spec_opposite(spec_opposite(z)) == z,
        spec_opposite(z).spec_side() != z.spec_side(),
{
}

/// A grid is centred on its price: the upper bound lies as far above the
/// centre as the lower bound lies below it; with a positive half-width the
/// centre lies in neither zone, and each bound lies in its own zone.
pub proof fn lemma_grid_centred(center: int, range_pct: int)
    requires
        grid_half_range(center, range_pct) > 0,
    ensures
        ({
            let half = grid_half_range(center, range_pct);
            let upper = center + half;
            let lower = center - half;
            &&& upper - center == center - lower
            &&& zone_of(upper, lower, center) is None
            &&& zone_of(upper, lower, upper) == Some(Zone::Upper)
            &&& zone_of(upper, lower, lower) == Some(Zone::Lower)
        }),
{
}

/// A sized entry is never smaller than the initial value's worth at the
/// price.
pub proof fn lemma_next_size_at_least_minimum(
    initial_value: int,
    sizing_factor: int,
    long: int,
    short: int,
    zone: Zone,
    price: int,
)
    ensures
        next_size(initial_value, sizing_factor, long, short, zone, price) >= dec_div(initial_value, price),
{
}

} // verus!
