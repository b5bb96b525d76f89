//! The REST client's logic: request signing, query strings, order bodies and
//! the reading of responses.

use vstd::prelude::*;
use vstd::utf8::encode_utf8;
use crate::api::types::{
    decimal_field, decimal_opt, decimal_or_zero, FundingRateResponse, KlineItem, OrderbookLevel,
    OrderbookResponse, PlaceOrderRequest, PlaceOrderResult, PositionItem, TickerItem, WalletBalanceResponse,
};
use crate::config::ApiCredentials;
use crate::db::models::{AccountBalance, Kline, OrderRequest, OrderResponse, Orderbook, Position, Ticker};
use crate::decimal::{format_decimal, format_u64, nat_digits, parse_i64, spec_parse_i64, decimal_text};
use crate::error::{BotError, BotResult};
use crate::fixed::{div_toward_zero, SCALE};
use crate::text::str_equal;

verus! {

/// What HMAC-SHA256 (crates `hmac` and `sha2`) computes for a key and a
/// message.
pub uninterp spec fn spec_hmac_sha256(key: Seq<u8>, message: Seq<u8>) -> Seq<u8>;

/// The HMAC-SHA256 tag of `message` under `key`, from
/// `hmac::Hmac<sha2::Sha256>`: the tag named by `spec_hmac_sha256`, 32 bytes
/// long. The key may have any length.
#[verifier::external_body]
fn hmac_sha256(key: &[u8], message: &[u8]) -> (r: Vec<u8>)
    ensures
        r@ == spec_hmac_sha256(key@, message@),
        r@.len() == 32,
{
    let mut mac = <hmac::Hmac<sha2::Sha256> as hmac::Mac>::new_from_slice(key)
        .expect("HMAC can take key of any size");
    hmac::Mac::update(&mut mac, message);
    hmac::Mac::finalize(mac).into_bytes().to_vec()
}

/// The lower-case hexadecimal digit of `v` (`0 <= v < 16`).
pub open spec fn hex_digit(v: int) -> char {
    if v < 10 {
        crate::decimal::digit_char(v)
    } else if v == 10 {
        'a'
    } else if v == 11 {
        'b'
    } else if v == 12 {
        'c'
    } else if v == 13 {
        'd'
    } else if v == 14 {
        'e'
    } else {
        'f'
    }
}

/// The lower-case hexadecimal text of `bytes`: two digits per byte, the high
/// half first.
pub open spec fn hex_text(bytes: Seq<u8>) -> Seq<char> {
    Seq::new(
        2 * bytes.len(),
        |i: int|
            if i % 2 == 0 {
                hex_digit((bytes[i / 2] / 16) as int)
            } else {
                hex_digit((bytes[i / 2] % 16) as int)
            },
    )
}

/// Appends the lower-case hexadecimal digit of `v` to `out`.
pub(crate) fn push_hex_digit(out: &mut String, v: u8)
    requires
        v < 16,
    ensures
        final(out)@ == old(out)@.push(hex_digit(v as int)),
{
    let t: &str = if v == 0 {
        "0"
    } else if v == 1 {
        "1"
    } else if v == 2 {
        "2"
    } else if v == 3 {
        "3"
    } else if v == 4 {
        "4"
    } else if v == 5 {
        "5"
    } else if v == 6 {
        "6"
    } else if v == 7 {
        "7"
    } else if v == 8 {
        "8"
    } else if v == 9 {
        "9"
    } else if v == 10 {
        "a"
    } else if v == 11 {
        "b"
    } else if v == 12 {
        "c"
    } else if v == 13 {
        "d"
    } else if v == 14 {
        "e"
    } else {
        "f"
    };
    proof {
        reveal_strlit("0");
        reveal_strlit("1");
        reveal_strlit("2");
        reveal_strlit("3");
        reveal_strlit("4");
        reveal_strlit("5");
        reveal_strlit("6");
        reveal_strlit("7");
        reveal_strlit("8");
        reveal_strlit("9");
        reveal_strlit("a");
        reveal_strlit("b");
        reveal_strlit("c");
        reveal_strlit("d");
        reveal_strlit("e");
        reveal_strlit("f");
        assert(t@ =~= seq![hex_digit(v as int)]);
    }
    out.append(t);
}

/// The lower-case hexadecimal text of `bytes`, two digits per byte, the high
/// half first (what `hex::encode` writes).
fn hex_encode(bytes: &[u8]) -> (r: String)
    ensures
        r@ == hex_text(bytes@),
{
    let mut out = String::new();
    let mut i: usize = 0;
    while i < bytes.len()
        invariant
            i <= bytes@.len(),
            out@ =~= hex_text(bytes@.take(i as int)),
        decreases bytes@.len() - i,
    {
        let b = bytes[i];
        push_hex_digit(&mut out, b / 16);
        push_hex_digit(&mut out, b % 16);
        proof {
            let t = bytes@.take(i as int + 1);
            assert(t.drop_last() =~= bytes@.take(i as int));
            assert(hex_text(t) =~= hex_text(bytes@.take(i as int)).push(hex_digit((b / 16) as int)).push(
                hex_digit((b % 16) as int),
            ));
        }
        i = i + 1;
    }
    assert(bytes@.take(bytes@.len() as int) =~= bytes@);
    out
}

/// The text that a request's signature covers: the timestamp, the API key,
/// the receive window and the payload, one after the other.
pub open spec fn sign_payload(timestamp: u64, key: Seq<char>, recv_window: u64, payload: Seq<char>) -> Seq<char> {
    nat_digits(timestamp as nat) + key + nat_digits(recv_window as nat) + payload
}

/// The signature of a request: the hexadecimal HMAC-SHA256 tag, under the
/// UTF-8 bytes of the API secret, of the UTF-8 bytes of `sign_payload`.
pub open spec fn signature_of(credentials: ApiCredentials, recv_window: u64, timestamp: u64, payload: Seq<char>) -> Seq<char> {
    hex_text(
        spec_hmac_sha256(
            encode_utf8(credentials.secret@),
            encode_utf8(sign_payload(timestamp, credentials.key@, recv_window, payload)),
        ),
    )
}

/// Signs a request made at `timestamp` (milliseconds) with `payload`.
pub fn sign_request(credentials: &ApiCredentials, recv_window: u64, timestamp: u64, payload: &str) -> (r: String)
    ensures
        r@ == signature_of(*credentials, recv_window, timestamp, payload@),
{
    let mut data = format_u64(timestamp);
    data.append(credentials.key.as_str());
    let window = format_u64(recv_window);
    data.append(window.as_str());
    data.append(payload);
    assert(data@ =~= sign_payload(timestamp, credentials.key@, recv_window, payload@));
    let tag = hmac_sha256(credentials.secret.as_str().as_bytes(), data.as_str().as_bytes());
    hex_encode(tag.as_slice())
}

/// Appends `t` to `s`.
fn joined(s: String, t: &str) -> (r: String)
    ensures
        r@ == s@ + t@,
{
    let mut s = s;
    s.append(t);
    s
}

/// The query of the wallet balance of `coin` in the unified account.
pub fn wallet_balance_query(coin: &str) -> (r: String)
    ensures
        r@ == "accountType=UNIFIED&coin="@ + coin@,
{
    joined("accountType=UNIFIED&coin=".to_owned(), coin)
}

/// The query of the linear USDT positions, of `symbol` when given.
pub fn positions_query(symbol: Option<&str>) -> (r: String)
    ensures
        r@ == "category=linear&settleCoin=USDT"@ + (match symbol {
            Some(s) => "&symbol="@ + s@,
            None => Seq::<char>::empty(),
        }),
{
    let base = "category=linear&settleCoin=USDT".to_owned();
    match symbol {
        Some(s) => {
            let r = joined(joined(base, "&symbol="), s);
            assert(r@ =~= "category=linear&settleCoin=USDT"@ + ("&symbol="@ + s@));
            r
        },
        None => {
            assert(base@ =~= "category=linear&settleCoin=USDT"@ + Seq::<char>::empty());
            base
        },
    }
}

/// The query of the linear ticker of `symbol`.
pub fn ticker_query(symbol: &str) -> (r: String)
    ensures
        r@ == "category=linear&symbol="@ + symbol@,
{
    joined("category=linear&symbol=".to_owned(), symbol)
}

/// The query of `limit` levels of the linear order book of `symbol`.
pub fn orderbook_query(symbol: &str, limit: u8) -> (r: String)
    ensures
        r@ == "category=linear&symbol="@ + symbol@ + "&limit="@ + nat_digits(limit as nat),
{
    let r = joined(joined(ticker_query(symbol), "&limit="), format_u64(limit as u64).as_str());
    r
}

/// The query of the latest linear funding rate of `symbol`.
pub fn funding_rate_query(symbol: &str) -> (r: String)
    ensures
        r@ == "category=linear&symbol="@ + symbol@ + "&limit=1"@,
{
    joined(ticker_query(symbol), "&limit=1")
}

/// The query of `limit` linear candles of `symbol` at `interval`.
pub fn klines_query(symbol: &str, interval: &str, limit: u32) -> (r: String)
    ensures
        r@ == "category=linear&symbol="@ + symbol@ + "&interval="@ + interval@ + "&limit="@ + nat_digits(
            limit as nat,
        ),
{
    let r = joined(joined(joined(joined(ticker_query(symbol), "&interval="), interval), "&limit="), format_u64(
        limit as u64,
    ).as_str());
    r
}

/// The query of the status of order `order_id` of `symbol`.
pub fn order_status_query(symbol: &str, order_id: &str) -> (r: String)
    ensures
        r@ == "category=linear&symbol="@ + symbol@ + "&orderId="@ + order_id@,
{
    joined(joined(ticker_query(symbol), "&orderId="), order_id)
}

/// The API error of a failed response: the exchange's message, retryable
/// for return code 10006 (rate limit).
pub fn response_error(ret_code: i32, ret_msg: String) -> (r: BotError)
    ensures
        r == (BotError::ApiError { message: ret_msg, retryable: ret_code == 10006 }),
{
    BotError::ApiError { message: ret_msg, retryable: ret_code == 10006 }
}

/// The balance in a wallet balance response: the first coin of the first
/// account, its available balance and unrealised P&L read as decimals. An
/// empty list, or an account without coins, is a non-retryable API error.
pub fn account_balance_from(response: &WalletBalanceResponse) -> (r: BotResult<AccountBalance>)
    ensures
        response.list@.len() == 0 ==> (r matches Err(BotError::ApiError { message, retryable }) && !retryable
            && message@ == "Empty wallet balance list"@),
        response.list@.len() > 0 && response.list@[0].coin@.len() == 0 ==> (r matches Err(
            BotError::ApiError { message, retryable },
        ) && !retryable && message@ == "No balance found"@),
        response.list@.len() > 0 && response.list@[0].coin@.len() > 0 ==> ({
            let c = response.list@[0].coin@[0];
            r matches Ok(b) && b.coin == c.coin && b.wallet_balance == decimal_or_zero(c.wallet_balance@)
                && b.available_balance == (match decimal_opt(c.available_balance) {
                Some(v) => v,
                None => decimal_or_zero(c.wallet_balance@),
            }) && b.unrealized_pnl == (match decimal_opt(c.unrealised_pnl) {
                Some(v) => v,
                None => 0,
            })
        }),
{
    if response.list.len() == 0 {
        return Err(BotError::ApiError { message: "Empty wallet balance list".to_owned(), retryable: false });
    }
    let item = &response.list[0];
    if item.coin.len() == 0 {
        return Err(BotError::ApiError { message: "No balance found".to_owned(), retryable: false });
    }
    let c = &item.coin[0];
    let unrealized_pnl = match crate::api::types::decimal_field_opt(&c.unrealised_pnl) {
        Some(v) => v,
        None => 0,
    };
    Ok(AccountBalance {
        coin: c.coin.clone(),
        wallet_balance: c.wallet_balance_f64(),
        available_balance: c.available_balance_f64(),
        unrealized_pnl,
    })
}

/// The position that a position item describes, its figures read as
/// decimals (leverage one when unreadable, the others zero).
pub open spec fn position_of(p: PositionItem) -> Position {
    Position {
        symbol: p.symbol,
        side: p.side,
        size: decimal_or_zero(p.size@),
        avg_price: decimal_or_zero(p.avg_price@),
        leverage: match crate::decimal::spec_parse_decimal(p.leverage@) {
            Some(v) => v,
            None => SCALE,
        },
        unrealized_pnl: decimal_or_zero(p.unrealised_pnl@),
        realized_pnl: decimal_or_zero(p.cum_realised_pnl@),
    }
}

/// The positions actually held among `items`, in order: those of positive
/// size.
pub open spec fn open_positions_of(items: Seq<PositionItem>) -> Seq<Position>
    decreases items.len(),
{
    if items.len() == 0 {
        Seq::empty()
    } else {
        let rest = open_positions_of(items.drop_last());
        if decimal_or_zero(items.last().size@) > 0 {
            rest.push(position_of(items.last()))
        } else {
            rest
        }
    }
}

/// The positions held: the items of positive size, read as positions.
pub fn open_positions(items: &Vec<PositionItem>) -> (r: Vec<Position>)
    ensures
        r@ == open_positions_of(items@),
{
    let mut out: Vec<Position> = Vec::new();
    let mut i: usize = 0;
    while i < items.len()
        invariant
            i <= items@.len(),
            out@ == open_positions_of(items@.take(i as int)),
        decreases items@.len() - i,
    {
        let p = &items[i];
        proof {
            assert(items@.take(i as int + 1).drop_last() =~= items@.take(i as int));
        }
        if p.size_f64() > 0 {
            let leverage = match crate::decimal::parse_decimal(p.leverage.as_str()) {
                Some(v) => v,
                None => SCALE,
            };
            out.push(
                Position {
                    symbol: p.symbol.clone(),
                    side: p.side.clone(),
                    size: p.size_f64(),
                    avg_price: p.avg_price_f64(),
                    leverage,
                    unrealized_pnl: p.unrealised_pnl_f64(),
                    realized_pnl: decimal_field(&p.cum_realised_pnl),
                },
            );
        }
        i = i + 1;
    }
    proof {
        assert(items@.take(items@.len() as int) =~= items@);
    }
    out
}

/// Seconds from the Unix epoch that chrono can surely represent: within
/// 8e12 seconds (about 253,000 years) either way, inside chrono's years
/// -262143 to 262142.
pub open spec fn chrono_seconds(secs: int) -> bool {
    -8_000_000_000_000 <= secs <= 8_000_000_000_000
}

/// The time `secs` seconds after the Unix epoch, from
/// `chrono::DateTime::from_timestamp(secs, 0)`, in milliseconds; `None`
/// when chrono cannot represent it, which it can for every `chrono_seconds`
/// value. The exact limits of chrono's range are not stated.
#[verifier::external_body]
fn timestamp_from_seconds(secs: i64) -> (r: Option<i64>)
    ensures
        r matches Some(ms) ==> ms == secs * 1000,
        chrono_seconds(secs as int) ==> r == Some((secs * 1000) as i64),
{
    match chrono::DateTime::from_timestamp(secs, 0) {
        Some(t) => Some(t.timestamp_millis()),
        None => None,
    }
}

/// The next funding time of a ticker item in whole seconds (rounded toward
/// zero), when the item gives one as an integer number of milliseconds.
pub open spec fn funding_seconds(item: TickerItem) -> Option<int> {
    match item.next_funding_time {
        Some(s) => match spec_parse_i64(s@) {
            Some(ms) => Some(div_toward_zero(ms as int, 1000)),
            None => None,
        },
        None => None,
    }
}

/// The ticker read from a ticker item: its prices and volume as decimals
/// (zero when unreadable), its funding rate when readable, and a next funding
/// time only when the item gives one as an integer (milliseconds), that time
/// rounded toward zero to the second.
pub open spec fn ticker_read_from(t: Ticker, item: TickerItem) -> bool {
    &&& t.symbol == item.symbol
    &&& t.last_price == decimal_or_zero(item.last_price@)
    &&& t.bid_price == decimal_or_zero(item.bid1_price@)
    &&& t.ask_price == decimal_or_zero(item.ask1_price@)
    &&& t.volume_24h == decimal_or_zero(item.volume24h@)
    &&& t.funding_rate == decimal_opt(item.funding_rate)
    &&& t.next_funding_time matches Some(time) ==> (item.next_funding_time matches Some(s) && spec_parse_i64(
        s@,
    ) matches Some(ms) && time == div_toward_zero(ms as int, 1000) * 1000)
    &&& funding_seconds(item) is Some && chrono_seconds(funding_seconds(item)->0) ==> t.next_funding_time == Some(
        (funding_seconds(item)->0 * 1000) as i64,
    )
}

/// The ticker of a ticker item (see `ticker_read_from`). The next funding
/// time is left out when the item has none or it is not an integer, and
/// also when chrono cannot represent it.
pub fn ticker_from(item: &TickerItem) -> (r: Ticker)
    ensures
        ticker_read_from(r, *item),
        (item.next_funding_time is None || spec_parse_i64(item.next_funding_time->0@) is None) ==> r.next_funding_time is None,
{
    let next_funding_time = match &item.next_funding_time {
        Some(t) => match parse_i64(t.as_str()) {
            Some(ms) => timestamp_from_seconds(ms / 1000),
            None => None,
        },
        None => None,
    };
    Ticker {
        symbol: item.symbol.clone(),
        last_price: item.last_price_f64(),
        bid_price: item.bid_price_f64(),
        ask_price: item.ask_price_f64(),
        volume_24h: decimal_field(&item.volume24h),
        funding_rate: item.funding_rate_f64(),
        next_funding_time,
    }
}

/// The first ticker of a ticker response; a non-retryable API error when
/// there is none.
pub fn first_ticker(items: &Vec<TickerItem>) -> (r: BotResult<Ticker>)
    ensures
        items@.len() == 0 ==> (r matches Err(BotError::ApiError { message, retryable }) && !retryable
            && message@ == "No ticker data found"@),
        items@.len() > 0 ==> (r matches Ok(t) && ticker_read_from(t, items@[0])),
{
    if items.len() == 0 {
        return Err(BotError::ApiError { message: "No ticker data found".to_owned(), retryable: false });
    }
    Ok(ticker_from(&items[0]))
}

/// The latest funding rate of a funding response; a non-retryable API error
/// when there is none.
pub fn funding_rate_from(response: &FundingRateResponse) -> (r: BotResult<i64>)
    ensures
        response.list@.len() == 0 ==> (r matches Err(BotError::ApiError { message, retryable }) && !retryable
            && message@ == "No funding rate found"@),
        response.list@.len() > 0 ==> r == Ok::<i64, BotError>(decimal_or_zero(response.list@[0].funding_rate@)),
{
    if response.list.len() == 0 {
        return Err(BotError::ApiError { message: "No funding rate found".to_owned(), retryable: false });
    }
    Ok(response.list[0].funding_rate_f64())
}

/// The start of a candle in milliseconds, rounded toward zero to the
/// second (zero when the item's start is not an integer).
pub open spec fn candle_start(item: KlineItem) -> int {
    let ms = match spec_parse_i64(item.start_time@) {
        Some(v) => v as int,
        None => 0,
    };
    div_toward_zero(ms, 1000) * 1000
}

/// The candle read from a kline item: prices and volume as decimals, zero
/// when unreadable.
pub open spec fn candle_read_from(k: Kline, item: KlineItem) -> bool {
    &&& k.open == decimal_or_zero(item.open@)
    &&& k.high == decimal_or_zero(item.high@)
    &&& k.low == decimal_or_zero(item.low@)
    &&& k.close == decimal_or_zero(item.close@)
    &&& k.volume == decimal_or_zero(item.volume@)
}

/// The candle of a kline item (see `candle_read_from`), starting at
/// `candle_start`, or at `fallback` when chrono cannot represent that time.
pub fn kline_from(item: &KlineItem, fallback: i64) -> (r: Kline)
    ensures
        candle_read_from(r, *item),
        r.start_time == candle_start(*item) || r.start_time == fallback,
        chrono_seconds(candle_start(*item) / 1000) ==> r.start_time == candle_start(*item),
{
    let start_time = match timestamp_from_seconds(item.start_time_ms() / 1000) {
        Some(t) => t,
        None => fallback,
    };
    Kline {
        start_time,
        open: decimal_field(&item.open),
        high: item.high_f64(),
        low: item.low_f64(),
        close: item.close_f64(),
        volume: decimal_field(&item.volume),
    }
}

/// The candles of a kline response, in order; a start that chrono cannot
/// represent is replaced by `now`.
pub fn klines_from(items: &Vec<KlineItem>, now: i64) -> (r: Vec<Kline>)
    ensures
        r@.len() == items@.len(),
        forall|i: int| 0 <= i < r@.len() ==> #[trigger] candle_read_from(r@[i], items@[i]),
        forall|i: int|
            0 <= i < r@.len() ==> (#[trigger] r@[i].start_time == candle_start(items@[i]) || r@[i].start_time == now),
        forall|i: int|
            0 <= i < r@.len() && chrono_seconds(candle_start(items@[i]) / 1000) ==> #[trigger] r@[i].start_time
                == candle_start(items@[i]),
{
    let mut out: Vec<Kline> = Vec::new();
    let mut i: usize = 0;
    while i < items.len()
        invariant
            i <= items@.len(),
            out@.len() == i,
            forall|j: int| 0 <= j < i ==> #[trigger] candle_read_from(out@[j], items@[j]),
            forall|j: int|
                0 <= j < i ==> (#[trigger] out@[j].start_time == candle_start(items@[j]) || out@[j].start_time == now),
            forall|j: int|
                0 <= j < i && chrono_seconds(candle_start(items@[j]) / 1000) ==> #[trigger] out@[j].start_time
                    == candle_start(items@[j]),
        decreases items@.len() - i,
    {
        out.push(kline_from(&items[i], now));
        i = i + 1;
    }
    out
}

/// The (price, quantity) pairs of order book levels read as decimals, zero
/// when unreadable; none when the side is absent.
pub open spec fn book_levels(levels: Option<Vec<OrderbookLevel>>) -> Seq<(i64, i64)> {
    match levels {
        None => Seq::empty(),
        Some(l) => Seq::new(l@.len(), |i: int| (decimal_or_zero(l@[i].price@), decimal_or_zero(l@[i].qty@))),
    }
}

/// One side of an order book (see `book_levels`).
pub fn book_side(levels: &Option<Vec<OrderbookLevel>>) -> (r: Vec<(i64, i64)>)
    ensures
        r@ == book_levels(*levels),
{
    let mut out: Vec<(i64, i64)> = Vec::new();
    match levels {
        None => {
            assert(out@ =~= book_levels(*levels));
            out
        },
        Some(l) => {
            let mut i: usize = 0;
            while i < l.len()
                invariant
                    i <= l@.len(),
                    out@.len() == i,
                    forall|j: int|
                        0 <= j < i ==> #[trigger] out@[j] == (decimal_or_zero(l@[j].price@), decimal_or_zero(l@[j].qty@)),
                decreases l@.len() - i,
            {
                out.push((decimal_field(&l[i].price), decimal_field(&l[i].qty)));
                i = i + 1;
            }
            assert(out@ =~= book_levels(*levels));
            out
        },
    }
}

/// The order book of a response, stamped at `now` (milliseconds).
pub fn orderbook_from(response: &OrderbookResponse, now: i64) -> (r: Orderbook)
    ensures
        r.symbol == response.s,
        r.timestamp == now,
        r.bids@ == book_levels(response.b),
        r.asks@ == book_levels(response.a),
{
    Orderbook { symbol: response.s.clone(), bids: book_side(&response.b), asks: book_side(&response.a), timestamp: now }
}

/// The body that places `order`: a linear order in one-way mode, its
/// quantity and price written as decimals, the reduce-only and
/// close-on-trigger flags sent only when set.
pub fn place_order_request(order: &OrderRequest) -> (r: PlaceOrderRequest)
    ensures
        r.category@ == "linear"@,
        r.symbol == order.symbol,
        r.side == order.side,
        r.order_type == order.order_type,
        r.qty@ == decimal_text(order.qty as int),
        order.price is None ==> r.price is None,
        order.price matches Some(p) ==> (r.price matches Some(t) && t@ == decimal_text(p as int)),
        r.time_in_force == order.time_in_force,
        r.reduce_only == (if order.reduce_only { Some(true) } else { None::<bool> }),
        r.close_on_trigger == (if order.close_on_trigger { Some(true) } else { None::<bool> }),
        r.position_idx == Some(0i32),
        r.market_unit is None,
{
    let price = match order.price {
        Some(p) => Some(format_decimal(p)),
        None => None,
    };
    PlaceOrderRequest {
        category: "linear".to_owned(),
        symbol: order.symbol.clone(),
        side: order.side.clone(),
        order_type: order.order_type.clone(),
        qty: format_decimal(order.qty),
        price,
        time_in_force: order.time_in_force.clone(),
        reduce_only: if order.reduce_only {
            Some(true)
        } else {
            None
        },
        close_on_trigger: if order.close_on_trigger {
            Some(true)
        } else {
            None
        },
        position_idx: Some(0),
        market_unit: None,
    }
}

/// The response to a placed order: its id (empty when the exchange gave
/// none) and its link id.
pub fn order_response_from(result: PlaceOrderResult) -> (r: OrderResponse)
    ensures
        result.order_id matches Some(id) ==> r.order_id == id,
        result.order_id is None ==> r.order_id@.len() == 0,
        r.order_link_id == result.order_link_id,
{
    let order_id = match result.order_id {
        Some(id) => id,
        None => String::new(),
    };
    OrderResponse { order_id, order_link_id: result.order_link_id }
}

/// The code of the ASCII lower case of a character.
pub open spec fn ascii_lower(c: char) -> u32 {
    if 'A' <= c && c <= 'Z' {
        ((c as u32) + 32) as u32
    } else {
        c as u32
    }
}

/// Whether two texts are equal up to ASCII case, as
/// `str::eq_ignore_ascii_case` decides.
pub open spec fn equal_ignoring_ascii_case(a: Seq<char>, b: Seq<char>) -> bool {
    a.len() == b.len() && forall|i: int| 0 <= i < a.len() ==> ascii_lower(#[trigger] a[i]) == ascii_lower(b[i])
}

fn lower_char(c: char) -> (r: u32)
    ensures
        r == ascii_lower(c),
{
    if 'A' <= c && c <= 'Z' {
        (c as u32) + 32
    } else {
        c as u32
    }
}

/// `str::eq_ignore_ascii_case`: equality up to ASCII case.
pub fn eq_ignore_ascii_case(a: &str, b: &str) -> (r: bool)
    ensures
        r == equal_ignoring_ascii_case(a@, b@),
{
    let n = a.unicode_len();
    if n != b.unicode_len() {
        return false;
    }
    let mut i: usize = 0;
    while i < n
        invariant
            n == a@.len() == b@.len(),
            i <= n,
            forall|j: int| 0 <= j < i ==> ascii_lower(#[trigger] a@[j]) == ascii_lower(b@[j]),
        decreases n - i,
    {
        if lower_char(a.get_char(i)) != lower_char(b.get_char(i)) {
            return false;
        }
        i = i + 1;
    }
    true
}

/// The side of the position that a closing order on `side` targets: a short
/// ("Sell") for "buy" in any ASCII case, a long ("Buy") otherwise.
pub open spec fn close_target(side: Seq<char>) -> Seq<char> {
    if equal_ignoring_ascii_case(side, "buy"@) {
        "Sell"@
    } else {
        "Buy"@
    }
}

/// The reduce-only market order that closes the position targeted by
/// `side` (see `close_target`) on `symbol`: opposite to the position's side,
/// for its whole size. `None` when no such position is held.
pub fn close_order_for(positions: &Vec<Position>, symbol: &str, side: &str) -> (r: Option<OrderRequest>)
    ensures
        ({
            let wanted = close_target(side@);
            &&& r is None <==> forall|i: int| 0 <= i < positions@.len() ==> #[trigger] positions@[i].side@ != wanted
            &&& r matches Some(o) ==> exists|i: int|
                0 <= i < positions@.len() && #[trigger] positions@[i].side@ == wanted && (forall|j: int|
                    0 <= j < i ==> positions@[j].side@ != wanted) && o.symbol@ == symbol@ && o.side@ == (if wanted
                    == "Buy"@ {
                    "Sell"@
                } else {
                    "Buy"@
                }) && o.order_type@ == "Market"@ && o.qty == positions@[i].size && o.price is None
                    && o.time_in_force is None && o.reduce_only && !o.close_on_trigger
        }),
{
    proof {
        reveal_strlit("Buy");
        reveal_strlit("Sell");
        assert("Buy"@.len() != "Sell"@.len());
    }
    let closing_short = eq_ignore_ascii_case(side, "buy");
    let wanted: &str = if closing_short {
        "Sell"
    } else {
        "Buy"
    };
    let mut i: usize = 0;
    while i < positions.len()
        invariant
            i <= positions@.len(),
            wanted@ == (if equal_ignoring_ascii_case(side@, "buy"@) { "Sell"@ } else { "Buy"@ }),
            forall|j: int| 0 <= j < i ==> #[trigger] positions@[j].side@ != wanted@,
        decreases positions@.len() - i,
    {
        let pos = &positions[i];
        if str_equal(pos.side.as_str(), wanted) {
            let close_side: &str = if str_equal(pos.side.as_str(), "Buy") {
                "Sell"
            } else {
                "Buy"
            };
            let order = OrderRequest {
                symbol: symbol.to_owned(),
                side: close_side.to_owned(),
                order_type: "Market".to_owned(),
                qty: pos.size,
                price: None,
                time_in_force: None,
                reduce_only: true,
                close_on_trigger: false,
            };
            return Some(order);
        }
        i = i + 1;
    }
    None
}

} // verus!
