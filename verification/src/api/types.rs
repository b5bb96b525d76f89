//! Messages of the exchange's REST and WebSocket interfaces, with their
//! numeric fields still as text. The readers of those fields give
//! fixed-point decimals (see `decimal::parse_decimal`), zero for text that is
//! not a decimal.

use vstd::prelude::*;
use vstd::std_specs::convert::FromSpecImpl;
use crate::db::models::Ticker;
use crate::decimal::{parse_decimal, parse_i64, spec_parse_decimal, spec_parse_i64};
use crate::error::{BotError, BotResult};
use crate::text::str_equal;

verus! {

/// The decimal that `s` spells, or zero.
pub open spec fn decimal_or_zero(s: Seq<char>) -> i64 {
    match spec_parse_decimal(s) {
        Some(v) => v,
        None => 0,
    }
}

/// The decimal that `s` spells, when it spells one.
pub open spec fn decimal_opt(s: Option<String>) -> Option<i64> {
    match s {
        Some(t) => spec_parse_decimal(t@),
        None => None,
    }
}

/// Reads a decimal field, zero when it is not a decimal.
pub fn decimal_field(s: &String) -> (r: i64)
    ensures
        r == decimal_or_zero(s@),
{
    match parse_decimal(s.as_str()) {
        Some(v) => v,
        None => 0,
    }
}

/// Reads an optional decimal field.
pub fn decimal_field_opt(s: &Option<String>) -> (r: Option<i64>)
    ensures
        r == decimal_opt(*s),
{
    match s {
        Some(t) => parse_decimal(t.as_str()),
        None => None,
    }
}

/// The exchange's response envelope.
#[derive(Clone, Debug)]
pub struct BybitResponse<T> {
    pub ret_code: i32,
    pub ret_msg: String,
    pub result: T,
    pub time: u64,
}

/// Rate-limit return codes: 10001 to 10004.
pub open spec fn rate_limit_code(code: i32) -> bool {
    10001 <= code <= 10004
}

impl<T> BybitResponse<T> {
    /// Whether the exchange reports success (return code zero).
    pub fn is_success(&self) -> (r: bool)
        ensures
            r == (self.ret_code == 0),
    {
        self.ret_code == 0
    }

    /// The result on success; otherwise an API error with the exchange's
    /// message, retryable for the rate-limit codes 10001 to 10004.
    pub fn into_result(self) -> (r: BotResult<T>)
        ensures
            self.ret_code == 0 ==> r == Ok::<T, BotError>(self.result),
            self.ret_code != 0 ==> r == Err::<T, BotError>(
                BotError::ApiError { message: self.ret_msg, retryable: rate_limit_code(self.ret_code) },
            ),
    {
        if self.is_success() {
            Ok(self.result)
        } else {
            let retryable = 10001 <= self.ret_code && self.ret_code <= 10004;
            Err(BotError::ApiError { message: self.ret_msg, retryable })
        }
    }
}

/// Wallet balances.
#[derive(Clone, Debug)]
pub struct WalletBalanceResponse {
    pub list: Vec<WalletBalanceItem>,
}

/// The balances of one account.
#[derive(Clone, Debug)]
pub struct WalletBalanceItem {
    pub coin: Vec<CoinBalance>,
}

/// The balance of one coin.
#[derive(Clone, Debug)]
pub struct CoinBalance {
    pub coin: String,
    pub wallet_balance: String,
    pub available_to_withdraw: Option<String>,
    pub available_balance: Option<String>,
    pub equity: Option<String>,
    pub unrealised_pnl: Option<String>,
}

impl CoinBalance {
    /// The wallet balance (decimal), zero when unreadable.
    pub fn wallet_balance_f64(&self) -> (r: i64)
        ensures
            r == decimal_or_zero(self.wallet_balance@),
    {
        decimal_field(&self.wallet_balance)
    }

    /// The available balance (decimal), the wallet balance when it is absent
    /// or unreadable.
    pub fn available_balance_f64(&self) -> (r: i64)
        ensures
            r == (match decimal_opt(self.available_balance) {
                Some(v) => v,
                None => decimal_or_zero(self.wallet_balance@),
            }),
    {
        match decimal_field_opt(&self.available_balance) {
            Some(v) => v,
            None => self.wallet_balance_f64(),
        }
    }

    /// The equity (decimal), the wallet balance when it is absent or
    /// unreadable.
    pub fn equity_f64(&self) -> (r: i64)
        ensures
            r == (match decimal_opt(self.equity) {
                Some(v) => v,
                None => decimal_or_zero(self.wallet_balance@),
            }),
    {
        match decimal_field_opt(&self.equity) {
            Some(v) => v,
            None => self.wallet_balance_f64(),
        }
    }
}

/// Positions.
#[derive(Clone, Debug)]
pub struct PositionResponse {
    pub list: Vec<PositionItem>,
}

/// One position.
#[derive(Clone, Debug)]
pub struct PositionItem {
    pub symbol: String,
    pub side: String,
    pub size: String,
    pub avg_price: String,
    pub leverage: String,
    pub position_value: String,
    pub unrealised_pnl: String,
    pub cum_realised_pnl: String,
}

impl PositionItem {
    /// The size (decimal), zero when unreadable.
    pub fn size_f64(&self) -> (r: i64)
        ensures
            r == decimal_or_zero(self.size@),
    {
        decimal_field(&self.size)
    }

    /// The average price (decimal), zero when unreadable.
    pub fn avg_price_f64(&self) -> (r: i64)
        ensures
            r == decimal_or_zero(self.avg_price@),
    {
        decimal_field(&self.avg_price)
    }

    /// The unrealised P&L (decimal), zero when unreadable.
    pub fn unrealised_pnl_f64(&self) -> (r: i64)
        ensures
            r == decimal_or_zero(self.unrealised_pnl@),
    {
        decimal_field(&self.unrealised_pnl)
    }
}

/// Tickers.
#[derive(Clone, Debug)]
pub struct TickerResponse {
    pub list: Vec<TickerItem>,
}

/// One ticker.
#[derive(Clone, Debug)]
pub struct TickerItem {
    pub symbol: String,
    pub last_price: String,
    pub bid1_price: String,
    pub ask1_price: String,
    pub volume24h: String,
    pub funding_rate: Option<String>,
    pub next_funding_time: Option<String>,
}

impl TickerItem {
    /// The last price (decimal), zero when unreadable.
    pub fn last_price_f64(&self) -> (r: i64)
        ensures
            r == decimal_or_zero(self.last_price@),
    {
        decimal_field(&self.last_price)
    }

    /// The best bid (decimal), zero when unreadable.
    pub fn bid_price_f64(&self) -> (r: i64)
        ensures
            r == decimal_or_zero(self.bid1_price@),
    {
        decimal_field(&self.bid1_price)
    }

    /// The best ask (decimal), zero when unreadable.
    pub fn ask_price_f64(&self) -> (r: i64)
        ensures
            r == decimal_or_zero(self.ask1_price@),
    {
        decimal_field(&self.ask1_price)
    }

    /// The funding rate (decimal), when present and readable.
    pub fn funding_rate_f64(&self) -> (r: Option<i64>)
        ensures
            r == decimal_opt(self.funding_rate),
    {
        decimal_field_opt(&self.funding_rate)
    }
}

/// An order book snapshot.
#[derive(Clone, Debug)]
pub struct OrderbookResponse {
    pub s: String,
    pub a: Option<Vec<OrderbookLevel>>,
    pub b: Option<Vec<OrderbookLevel>>,
    pub ts: u64,
}

/// One level of the order book.
#[derive(Clone, Debug)]
pub struct OrderbookLevel {
    pub price: String,
    pub qty: String,
}

/// The body of an order placement.
#[derive(Clone, Debug)]
pub struct PlaceOrderRequest {
    pub category: String,
    pub symbol: String,
    pub side: String,
    pub order_type: String,
    pub qty: String,
    pub price: Option<String>,
    pub time_in_force: Option<String>,
    pub reduce_only: Option<bool>,
    pub close_on_trigger: Option<bool>,
    /// 0: one-way mode, 1: hedge buy, 2: hedge sell.
    pub position_idx: Option<i32>,
    /// "baseCoin" or "quoteCoin" for market orders.
    pub market_unit: Option<String>,
}

/// The answer to an order placement.
#[derive(Clone, Debug)]
pub struct PlaceOrderResult {
    pub order_id: Option<String>,
    pub order_link_id: Option<String>,
}

/// Order statuses.
#[derive(Clone, Debug)]
pub struct OrderStatusResponse {
    pub list: Vec<OrderStatusItem>,
}

/// The status of one order.
#[derive(Clone, Debug)]
pub struct OrderStatusItem {
    pub order_id: String,
    pub symbol: String,
    pub side: String,
    pub order_type: String,
    pub price: String,
    pub qty: String,
    pub cum_exec_qty: String,
    pub cum_exec_value: String,
    pub cum_exec_fee: String,
    pub order_status: String,
    pub avg_price: String,
    pub created_time: String,
    pub updated_time: String,
}

impl OrderStatusItem {
    /// Whether the order is filled: its status is "Filled".
    pub fn is_filled(&self) -> (r: bool)
        ensures
            r == (self.order_status@ == "Filled"@),
    {
        str_equal(self.order_status.as_str(), "Filled")
    }

    /// Whether the order is open: its status is "Created", "New" or
    /// "PartiallyFilled".
    pub fn is_open(&self) -> (r: bool)
        ensures
            r == (self.order_status@ == "Created"@ || self.order_status@ == "New"@ || self.order_status@
                == "PartiallyFilled"@),
    {
        let s = self.order_status.as_str();
        str_equal(s, "Created") || str_equal(s, "New") || str_equal(s, "PartiallyFilled")
    }

    /// The ordered quantity (decimal), zero when unreadable.
    pub fn qty_f64(&self) -> (r: i64)
        ensures
            r == decimal_or_zero(self.qty@),
    {
        decimal_field(&self.qty)
    }

    /// The executed quantity (decimal), zero when unreadable.
    pub fn cum_exec_qty_f64(&self) -> (r: i64)
        ensures
            r == decimal_or_zero(self.cum_exec_qty@),
    {
        decimal_field(&self.cum_exec_qty)
    }

    /// The average fill price (decimal), zero when unreadable.
    pub fn avg_price_f64(&self) -> (r: i64)
        ensures
            r == decimal_or_zero(self.avg_price@),
    {
        decimal_field(&self.avg_price)
    }

    /// The fees paid (decimal), zero when unreadable.
    pub fn cum_exec_fee_f64(&self) -> (r: i64)
        ensures
            r == decimal_or_zero(self.cum_exec_fee@),
    {
        decimal_field(&self.cum_exec_fee)
    }
}

/// The answer to a cancellation.
#[derive(Clone, Debug)]
pub struct CancelOrderResult {
    pub order_id: String,
    pub order_link_id: String,
}

/// Funding rate history.
#[derive(Clone, Debug)]
pub struct FundingRateResponse {
    pub list: Vec<FundingRateItem>,
}

/// One funding rate.
#[derive(Clone, Debug)]
pub struct FundingRateItem {
    pub symbol: String,
    pub funding_rate: String,
    pub funding_rate_timestamp: String,
}

impl FundingRateItem {
    /// The funding rate (decimal), zero when unreadable.
    pub fn funding_rate_f64(&self) -> (r: i64)
        ensures
            r == decimal_or_zero(self.funding_rate@),
    {
        decimal_field(&self.funding_rate)
    }
}

/// Candles.
#[derive(Clone, Debug)]
pub struct KlineResponse {
    pub list: Vec<KlineItem>,
}

/// One candle.
#[derive(Clone, Debug)]
pub struct KlineItem {
    pub start_time: String,
    pub open: String,
    pub high: String,
    pub low: String,
    pub close: String,
    pub volume: String,
}

impl KlineItem {
    /// The start time in milliseconds, zero when it is not an integer.
    pub fn start_time_ms(&self) -> (r: i64)
        ensures
            r == (match spec_parse_i64(self.start_time@) {
                Some(v) => v,
                None => 0,
            }),
    {
        match parse_i64(self.start_time.as_str()) {
            Some(v) => v,
            None => 0,
        }
    }

    /// The close (decimal), zero when unreadable.
    pub fn close_f64(&self) -> (r: i64)
        ensures
            r == decimal_or_zero(self.close@),
    {
        decimal_field(&self.close)
    }

    /// The high (decimal), zero when unreadable.
    pub fn high_f64(&self) -> (r: i64)
        ensures
            r == decimal_or_zero(self.high@),
    {
        decimal_field(&self.high)
    }

    /// The low (decimal), zero when unreadable.
    pub fn low_f64(&self) -> (r: i64)
        ensures
            r == decimal_or_zero(self.low@),
    {
        decimal_field(&self.low)
    }
}

/// A WebSocket message, by topic.
#[derive(Clone, Debug)]
pub enum WsMessage {
    Ticker { data: WsTickerData },
    Orderbook { data: WsOrderbookData },
    Trade { data: Vec<WsTradeData> },
}

/// A ticker update.
#[derive(Clone, Debug)]
pub struct WsTickerData {
    pub symbol: String,
    pub last_price: Option<String>,
    pub bid1_price: Option<String>,
    pub ask1_price: Option<String>,
}

impl Default for WsTickerData {
    /// Empty symbol, no prices.
    fn default() -> (r: WsTickerData)
        ensures
            r.symbol@.len() == 0,
            r.last_price is None,
            r.bid1_price is None,
            r.ask1_price is None,
    {
        WsTickerData { symbol: String::new(), last_price: None, bid1_price: None, ask1_price: None }
    }
}

/// An order book update.
#[derive(Clone, Debug)]
pub struct WsOrderbookData {
    pub s: String,
    /// Asks: [price, qty] pairs.
    pub a: Option<Vec<Vec<String>>>,
    /// Bids: [price, qty] pairs.
    pub b: Option<Vec<Vec<String>>>,
    /// Update id.
    pub u: u64,
}

/// A public trade.
#[allow(non_snake_case)]
#[derive(Clone, Debug)]
pub struct WsTradeData {
    /// Timestamp.
    pub T: i64,
    /// Symbol.
    pub s: String,
    /// Side.
    pub S: String,
    /// Size.
    pub v: String,
    /// Price.
    pub p: String,
}

/// The decimal that an optional text spells, or zero.
pub open spec fn decimal_opt_or_zero(s: Option<String>) -> i64 {
    match decimal_opt(s) {
        Some(v) => v,
        None => 0,
    }
}

impl From<WsTickerData> for Ticker {
    /// The ticker of an update: its symbol and prices, zero for a price
    /// that is absent or unreadable; no volume, funding rate or funding time.
    fn from(data: WsTickerData) -> (r: Ticker) {
        let last_price = match decimal_field_opt(&data.last_price) {
            Some(v) => v,
            None => 0,
        };
        let bid_price = match decimal_field_opt(&data.bid1_price) {
            Some(v) => v,
            None => 0,
        };
        let ask_price = match decimal_field_opt(&data.ask1_price) {
            Some(v) => v,
            None => 0,
        };
        Ticker {
            symbol: data.symbol,
            last_price,
            bid_price,
            ask_price,
            volume_24h: 0,
            funding_rate: None,
            next_funding_time: None,
        }
    }
}

impl FromSpecImpl<WsTickerData> for Ticker {
    open spec fn obeys_from_spec() -> bool {
        true
    }

    open spec fn from_spec(data: WsTickerData) -> Ticker {
        Ticker {
            symbol: data.symbol,
            last_price: decimal_opt_or_zero(data.last_price),
            bid_price: decimal_opt_or_zero(data.bid1_price),
            ask_price: decimal_opt_or_zero(data.ask1_price),
            volume_24h: 0,
            funding_rate: None,
            next_funding_time: None,
        }
    }
}

} // verus!
