//! The strategy's persistent state and the records it exchanges with the
//! exchange and the database. Decimal fields are fixed-point (see `fixed`);
//! times are milliseconds since the Unix epoch.

use vstd::prelude::*;
use crate::fixed::{dec_mul, dmul, fits_i64};
use crate::strategy::types::Zone;
use crate::text::str_equal;

verus! {

/// The state of a strategy instance.
#[derive(Clone, Debug)]
pub struct StrategyState {
    pub symbol: String,
    pub is_active: bool,
    pub grid_upper_price: Option<i64>,
    pub grid_lower_price: Option<i64>,
    pub grid_level: u8,
    pub max_grid_levels: u8,
    pub long_size: i64,
    pub short_size: i64,
    pub long_avg_price: i64,
    pub short_avg_price: i64,
    pub initial_position_value_usdt: i64,
    pub initial_risk_percentage: i64,
    pub entry_time: Option<i64>,
    pub last_action_time: Option<i64>,
    pub max_hold_until: Option<i64>,
    pub realized_pnl: i64,
    pub funding_fees_paid: i64,
}

/// The P&L of the long leg at `price`: nothing when no long is held.
pub open spec fn long_pnl(s: StrategyState, price: int) -> int {
    if s.long_size > 0 {
        dec_mul(s.long_size as int, price - s.long_avg_price)
    } else {
        0
    }
}

/// The P&L of the short leg at `price`: nothing when no short is held.
pub open spec fn short_pnl(s: StrategyState, price: int) -> int {
    if s.short_size > 0 {
        dec_mul(s.short_size as int, s.short_avg_price - price)
    } else {
        0
    }
}

/// The unrealized P&L of both legs at `price`.
pub open spec fn unrealized(s: StrategyState, price: int) -> int {
    long_pnl(s, price) + short_pnl(s, price)
}

/// The unrealized P&L at `price` can be computed in `i64`.
pub open spec fn pnl_fits(s: StrategyState, price: int) -> bool {
    &&& s.long_size > 0 ==> fits_i64(price - s.long_avg_price) && fits_i64(long_pnl(s, price))
    &&& s.short_size > 0 ==> fits_i64(s.short_avg_price - price) && fits_i64(short_pnl(s, price))
    &&& fits_i64(unrealized(s, price))
    &&& fits_i64(s.realized_pnl + unrealized(s, price))
}

/// The zone in which `price` lies by the stored grid bounds.
pub open spec fn state_zone(s: StrategyState, price: int) -> Option<Zone> {
    if s.grid_upper_price is Some && price >= s.grid_upper_price->0 {
        Some(Zone::Upper)
    } else if s.grid_lower_price is Some && price <= s.grid_lower_price->0 {
        Some(Zone::Lower)
    } else {
        None
    }
}

/// Whether a hold deadline has passed at time `now`.
pub open spec fn timed_out_at(max_hold_until: Option<i64>, now: int) -> bool {
    match max_hold_until {
        Some(deadline) => now > deadline,
        None => false,
    }
}

impl StrategyState {
    /// A new, inactive state for `symbol`: no grid, no positions, at most four
    /// grid levels.
    pub fn new(symbol: String) -> (r: StrategyState)
        ensures
            r.symbol == symbol,
            !r.is_active,
            r.grid_upper_price is None,
            r.grid_lower_price is None,
            r.grid_level == 0,
            r.max_grid_levels == 4,
            r.long_size == 0,
            r.short_size == 0,
            r.long_avg_price == 0,
            r.short_avg_price == 0,
            r.initial_position_value_usdt == 0,
            r.initial_risk_percentage == 0,
            r.entry_time is None,
            r.last_action_time is None,
            r.max_hold_until is None,
            r.realized_pnl == 0,
            r.funding_fees_paid == 0,
    {
        StrategyState {
            symbol,
            is_active: false,
            grid_upper_price: None,
            grid_lower_price: None,
            grid_level: 0,
            max_grid_levels: 4,
            long_size: 0,
            short_size: 0,
            long_avg_price: 0,
            short_avg_price: 0,
            initial_position_value_usdt: 0,
            initial_risk_percentage: 0,
            entry_time: None,
            last_action_time: None,
            max_hold_until: None,
            realized_pnl: 0,
            funding_fees_paid: 0,
        }
    }

    /// Whether any long or short is held.
    pub fn has_positions(&self) -> (r: bool)
        ensures
            r == (self.long_size > 0 || self.short_size > 0),
    {
        self.long_size > 0 || self.short_size > 0
    }

    /// Long minus short quantity.
    pub fn net_exposure(&self) -> (r: i64)
        requires
            fits_i64(self.long_size - self.short_size),
        ensures
            r == self.long_size - self.short_size,
    {
        self.long_size - self.short_size
    }

    /// Long plus short quantity.
    pub fn total_exposure(&self) -> (r: i64)
        requires
            fits_i64(self.long_size + self.short_size),
        ensures
            r == self.long_size + self.short_size,
    {
        self.long_size + self.short_size
    }

    /// Whether the hold deadline has passed at time `now` (milliseconds).
    pub fn is_timed_out(&self, now: i64) -> (r: bool)
        ensures
            r == timed_out_at(self.max_hold_until, now as int),
    {
        match self.max_hold_until {
            Some(timeout) => now > timeout,
            None => false,
        }
    }

    /// The unrealized P&L at `current_price`: each held leg valued at the
    /// price against its average entry.
    pub fn unrealized_pnl(&self, current_price: i64) -> (r: i64)
        requires
            pnl_fits(*self, current_price as int),
        ensures
            r == unrealized(*self, current_price as int),
    {
        let long_pnl = if self.long_size > 0 {
            dmul(self.long_size, current_price - self.long_avg_price)
        } else {
            0
        };
        let short_pnl = if self.short_size > 0 {
            dmul(self.short_size, self.short_avg_price - current_price)
        } else {
            0
        };
        long_pnl + short_pnl
    }

    /// Realized plus unrealized P&L at `current_price`.
    pub fn total_pnl(&self, current_price: i64) -> (r: i64)
        requires
            pnl_fits(*self, current_price as int),
        ensures
            r == self.realized_pnl + unrealized(*self, current_price as int),
    {
        self.realized_pnl + self.unrealized_pnl(current_price)
    }

    /// The zone in which `price` lies by the stored grid bounds.
    pub fn current_zone(&self, price: i64) -> (r: Option<Zone>)
        ensures
            r == state_zone(*self, price as int),
    {
        match (self.grid_upper_price, self.grid_lower_price) {
            (Some(upper), _) if price >= upper => Some(Zone::Upper),
            (_, Some(lower)) if price <= lower => Some(Zone::Lower),
            _ => None,
        }
    }

    /// Whether `price` lies in no zone.
    pub fn is_in_range(&self, price: i64) -> (r: bool)
        ensures
            r == (state_zone(*self, price as int) is None),
    {
        self.current_zone(price).is_none()
    }
}

/// A trade execution.
#[derive(Clone, Debug)]
pub struct TradeRecord {
    pub order_id: String,
    pub symbol: String,
    /// "Buy" or "Sell".
    pub side: String,
    pub order_type: String,
    pub qty: i64,
    pub price: Option<i64>,
    pub avg_filled_price: Option<i64>,
    pub filled_qty: Option<i64>,
    pub order_status: String,
    pub closed_pnl: Option<i64>,
    pub exec_fee: i64,
}

impl TradeRecord {
    /// A newly created trade: status "Created", nothing filled, no fee.
    pub fn new(order_id: String, symbol: String, side: String, order_type: String, qty: i64) -> (r: TradeRecord)
        ensures
            r.order_id == order_id,
            r.symbol == symbol,
            r.side == side,
            r.order_type == order_type,
            r.qty == qty,
            r.price is None,
            r.avg_filled_price is None,
            r.filled_qty is None,
            r.order_status@ == "Created"@,
            r.closed_pnl is None,
            r.exec_fee == 0,
    {
        TradeRecord {
            order_id,
            symbol,
            side,
            order_type,
            qty,
            price: None,
            avg_filled_price: None,
            filled_qty: None,
            order_status: "Created".to_owned(),
            closed_pnl: None,
            exec_fee: 0,
        }
    }
}

/// A funding fee payment.
#[derive(Clone, Debug)]
pub struct FundingRecord {
    pub symbol: String,
    pub funding_rate: i64,
    pub fee_paid: i64,
    pub position_size: i64,
    pub side: String,
    pub exec_time: i64,
}

/// A partial exit.
#[derive(Clone, Debug)]
pub struct PartialExitRecord {
    pub level: i32,
    pub symbol: String,
    pub long_closed_qty: Option<i64>,
    pub long_avg_close_price: Option<i64>,
    pub short_closed_qty: Option<i64>,
    pub short_avg_close_price: Option<i64>,
    pub realized_pnl: i64,
}

/// An entry of the event log.
#[derive(Clone, Debug)]
pub struct EventLog {
    pub timestamp: i64,
    pub level: String,
    pub message: String,
    pub data: Option<String>,
}

/// A position held at the exchange.
#[derive(Clone, Debug)]
pub struct Position {
    pub symbol: String,
    /// "Buy" or "Sell".
    pub side: String,
    pub size: i64,
    pub avg_price: i64,
    pub leverage: i64,
    pub unrealized_pnl: i64,
    pub realized_pnl: i64,
}

impl Position {
    /// Whether the position is long: its side is exactly "Buy".
    pub fn is_long(&self) -> (r: bool)
        ensures
            r == (self.side@ == "Buy"@),
    {
        str_equal(self.side.as_str(), "Buy")
    }

    /// Whether the position is short: its side is exactly "Sell".
    pub fn is_short(&self) -> (r: bool)
        ensures
            r == (self.side@ == "Sell"@),
    {
        str_equal(self.side.as_str(), "Sell")
    }
}

/// An account balance.
#[derive(Clone, Debug)]
pub struct AccountBalance {
    pub coin: String,
    pub wallet_balance: i64,
    pub available_balance: i64,
    pub unrealized_pnl: i64,
}

/// An order to send to the exchange.
#[derive(Clone, Debug)]
pub struct OrderRequest {
    pub symbol: String,
    pub side: String,
    pub order_type: String,
    pub qty: i64,
    pub price: Option<i64>,
    pub time_in_force: Option<String>,
    pub reduce_only: bool,
    pub close_on_trigger: bool,
}

impl OrderRequest {
    /// A market order.
    pub fn market(symbol: String, side: String, qty: i64) -> (r: OrderRequest)
        ensures
            r.symbol == symbol,
            r.side == side,
            r.order_type@ == "Market"@,
            r.qty == qty,
            r.price is None,
            r.time_in_force is None,
            !r.reduce_only,
            !r.close_on_trigger,
    {
        OrderRequest {
            symbol,
            side,
            order_type: "Market".to_owned(),
            qty,
            price: None,
            time_in_force: None,
            reduce_only: false,
            close_on_trigger: false,
        }
    }

    /// A good-till-cancelled limit order.
    pub fn limit(symbol: String, side: String, qty: i64, price: i64) -> (r: OrderRequest)
        ensures
            r.symbol == symbol,
            r.side == side,
            r.order_type@ == "Limit"@,
            r.qty == qty,
            r.price == Some(price),
            r.time_in_force matches Some(t) && t@ == "GTC"@,
            !r.reduce_only,
            !r.close_on_trigger,
    {
        OrderRequest {
            symbol,
            side,
            order_type: "Limit".to_owned(),
            qty,
            price: Some(price),
            time_in_force: Some("GTC".to_owned()),
            reduce_only: false,
            close_on_trigger: false,
        }
    }

    /// The same order, marked reduce-only.
    pub fn reduce_only(self) -> (r: OrderRequest)
        ensures
            r == (OrderRequest { reduce_only: true, ..self }),
    {
        let mut s = self;
        s.reduce_only = true;
        s
    }
}

/// The exchange's answer to an order.
#[derive(Clone, Debug)]
pub struct OrderResponse {
    pub order_id: String,
    pub order_link_id: Option<String>,
}

/// A ticker snapshot.
#[derive(Clone, Debug)]
pub struct Ticker {
    pub symbol: String,
    pub last_price: i64,
    pub bid_price: i64,
    pub ask_price: i64,
    pub volume_24h: i64,
    pub funding_rate: Option<i64>,
    pub next_funding_time: Option<i64>,
}

/// A candle.
#[derive(Clone, Debug)]
pub struct Kline {
    pub start_time: i64,
    pub open: i64,
    pub high: i64,
    pub low: i64,
    pub close: i64,
    pub volume: i64,
}

/// An order book: (price, quantity) pairs.
#[derive(Clone, Debug)]
pub struct Orderbook {
    pub symbol: String,
    pub bids: Vec<(i64, i64)>,
    pub asks: Vec<(i64, i64)>,
    pub timestamp: i64,
}

/// A market data update.
#[derive(Clone, Debug)]
pub enum MarketDataUpdate {
    Ticker(Ticker),
    Trade { symbol: String, price: i64, qty: i64, side: String },
    Orderbook(Orderbook),
}

} // verus!
