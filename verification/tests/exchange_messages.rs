use algotrader::api::client::{calculate_position_size, validate_position_size};
use algotrader::api::rest::{
    account_balance_from, close_order_for, eq_ignore_ascii_case, first_ticker, funding_rate_from, klines_from,
    klines_query, open_positions, order_response_from, orderbook_from, orderbook_query, place_order_request,
    positions_query, response_error, sign_request, ticker_from, wallet_balance_query,
};
use algotrader::api::types::{
    BybitResponse, CoinBalance, FundingRateItem, FundingRateResponse, KlineItem, OrderStatusItem, OrderbookLevel,
    OrderbookResponse, PlaceOrderResult, PositionItem, TickerItem, WalletBalanceItem, WalletBalanceResponse,
    WsTickerData,
};
use algotrader::api::websocket::{
    is_stale_at, is_ticker_topic, message_action, subscribe_message, ws_step, MessageAction, WsFrame, WsStep,
};
use algotrader::config::ApiCredentials;
use algotrader::db::models::{OrderRequest, Position, Ticker};
use algotrader::error::BotError;
use algotrader::fixed::SCALE;

fn dec(x: f64) -> i64 {
    (x * SCALE as f64).round() as i64
}

fn creds() -> ApiCredentials {
    ApiCredentials {
        key: "KEY".to_string(),
        secret: "SECRET".to_string(),
        base_url: "https://api-test.bybit.com".to_string(),
        ws_url: None,
        rate_limit_requests: 50,
        rate_limit_window_ms: 1000,
    }
}

#[test]
fn request_signature_is_hmac_sha256_hex() {
    let sig = sign_request(&creds(), 5000, 1_700_000_000_000, "category=linear&symbol=ETHUSDT");
    assert_eq!(sig, "b2d505be30ef20ca3a17a7fe38bd245977c6c6a06a5849f60a25f162a528b167");
}

#[test]
fn query_strings() {
    assert_eq!(wallet_balance_query("USDT"), "accountType=UNIFIED&coin=USDT");
    assert_eq!(positions_query(None), "category=linear&settleCoin=USDT");
    assert_eq!(positions_query(Some("ETHUSDT")), "category=linear&settleCoin=USDT&symbol=ETHUSDT");
    assert_eq!(orderbook_query("ETHUSDT", 50), "category=linear&symbol=ETHUSDT&limit=50");
    assert_eq!(klines_query("ETHUSDT", "15", 20), "category=linear&symbol=ETHUSDT&interval=15&limit=20");
}

#[test]
fn response_envelope() {
    let ok = BybitResponse { ret_code: 0, ret_msg: "OK".to_string(), result: 7u8, time: 1 };
    assert!(ok.is_success());
    assert_eq!(ok.into_result().unwrap(), 7);
    let limited = BybitResponse { ret_code: 10002, ret_msg: "slow down".to_string(), result: 0u8, time: 1 };
    assert!(matches!(limited.into_result(), Err(BotError::ApiError { retryable: true, .. })));
    let bad = BybitResponse { ret_code: 10006, ret_msg: "x".to_string(), result: 0u8, time: 1 };
    assert!(matches!(bad.into_result(), Err(BotError::ApiError { retryable: false, .. })));
    assert!(matches!(response_error(10006, "x".to_string()), BotError::ApiError { retryable: true, .. }));
    assert!(matches!(response_error(10002, "x".to_string()), BotError::ApiError { retryable: false, .. }));
}

fn coin(wallet: &str, available: Option<&str>) -> CoinBalance {
    CoinBalance {
        coin: "USDT".to_string(),
        wallet_balance: wallet.to_string(),
        available_to_withdraw: None,
        available_balance: available.map(|s| s.to_string()),
        equity: None,
        unrealised_pnl: Some("-1.5".to_string()),
    }
}

#[test]
fn wallet_balance_reading() {
    let c = coin("1000.25", Some(""));
    assert_eq!(c.wallet_balance_f64(), dec(1000.25));
    assert_eq!(c.available_balance_f64(), dec(1000.25));
    assert_eq!(c.equity_f64(), dec(1000.25));
    let c = coin("abc", Some("12"));
    assert_eq!(c.wallet_balance_f64(), 0);
    assert_eq!(c.available_balance_f64(), dec(12.0));
    let r = WalletBalanceResponse { list: vec![WalletBalanceItem { coin: vec![coin("5", None)] }] };
    let b = account_balance_from(&r).unwrap();
    assert_eq!(b.wallet_balance, dec(5.0));
    assert_eq!(b.available_balance, dec(5.0));
    assert_eq!(b.unrealized_pnl, dec(-1.5));
    let empty = WalletBalanceResponse { list: vec![] };
    assert!(matches!(account_balance_from(&empty), Err(BotError::ApiError { retryable: false, .. })));
    let no_coin = WalletBalanceResponse { list: vec![WalletBalanceItem { coin: vec![] }] };
    assert!(account_balance_from(&no_coin).is_err());
}

fn position_item(side: &str, size: &str) -> PositionItem {
    PositionItem {
        symbol: "ETHUSDT".to_string(),
        side: side.to_string(),
        size: size.to_string(),
        avg_price: "3000.5".to_string(),
        leverage: "".to_string(),
        position_value: "0".to_string(),
        unrealised_pnl: "2".to_string(),
        cum_realised_pnl: "-3".to_string(),
    }
}

#[test]
fn open_positions_keep_positive_sizes() {
    let items = vec![position_item("Buy", "0"), position_item("Sell", "0.5"), position_item("Buy", "x")];
    let ps = open_positions(&items);
    assert_eq!(ps.len(), 1);
    assert_eq!(ps[0].side, "Sell");
    assert_eq!(ps[0].size, dec(0.5));
    assert_eq!(ps[0].avg_price, dec(3000.5));
    assert_eq!(ps[0].leverage, SCALE);
    assert_eq!(ps[0].realized_pnl, dec(-3.0));
    assert!(ps[0].is_short() && !ps[0].is_long());
}

fn position(side: &str, size: f64) -> Position {
    Position {
        symbol: "ETHUSDT".to_string(),
        side: side.to_string(),
        size: dec(size),
        avg_price: 0,
        leverage: SCALE,
        unrealized_pnl: 0,
        realized_pnl: 0,
    }
}

#[test]
fn closing_a_side() {
    let ps = vec![position("Buy", 1.0), position("Sell", 2.0)];
    // Closing with "buy" closes the short.
    let o = close_order_for(&ps, "ETHUSDT", "BUY").unwrap();
    assert_eq!(o.side, "Buy");
    assert_eq!(o.qty, dec(2.0));
    assert!(o.reduce_only);
    assert_eq!(o.order_type, "Market");
    // Anything else closes the long.
    let o = close_order_for(&ps, "ETHUSDT", "Sell").unwrap();
    assert_eq!(o.side, "Sell");
    assert_eq!(o.qty, dec(1.0));
    assert!(close_order_for(&vec![position("Buy", 1.0)], "ETHUSDT", "buy").is_none());
    assert!(eq_ignore_ascii_case("bUy", "BuY"));
    assert!(!eq_ignore_ascii_case("buy", "buys"));
}

fn ticker_item(next: Option<&str>) -> TickerItem {
    TickerItem {
        symbol: "ETHUSDT".to_string(),
        last_price: "3000.1".to_string(),
        bid1_price: "3000".to_string(),
        ask1_price: "3000.2".to_string(),
        volume24h: "12345.678".to_string(),
        funding_rate: Some("0.0001".to_string()),
        next_funding_time: next.map(|s| s.to_string()),
    }
}

#[test]
fn ticker_reading() {
    let t = ticker_from(&ticker_item(Some("1700000000123")));
    assert_eq!(t.last_price, dec(3000.1));
    assert_eq!(t.ask_price, dec(3000.2));
    assert_eq!(t.volume_24h, dec(12345.678));
    assert_eq!(t.funding_rate, Some(10_000));
    assert_eq!(t.next_funding_time, Some(1_700_000_000_000));
    assert_eq!(ticker_from(&ticker_item(Some("soon"))).next_funding_time, None);
    assert!(first_ticker(&vec![]).is_err());
    assert_eq!(first_ticker(&vec![ticker_item(None)]).unwrap().bid_price, dec(3000.0));
    let ws = WsTickerData {
        symbol: "ETHUSDT".to_string(),
        last_price: Some("2999.9".to_string()),
        bid1_price: None,
        ask1_price: Some("bad".to_string()),
    };
    let t: Ticker = ws.into();
    assert_eq!(t.last_price, dec(2999.9));
    assert_eq!(t.bid_price, 0);
    assert_eq!(t.ask_price, 0);
    assert_eq!(WsTickerData::default().symbol, "");
}

fn ks_item() -> KlineItem {
    KlineItem {
        start_time: "0".to_string(),
        open: "1".to_string(),
        high: "1".to_string(),
        low: "1".to_string(),
        close: "1".to_string(),
        volume: "1".to_string(),
    }
}

#[test]
fn klines_and_funding() {
    let k = KlineItem {
        start_time: "1700000000000".to_string(),
        open: "1".to_string(),
        high: "2".to_string(),
        low: "0.5".to_string(),
        close: "1.5".to_string(),
        volume: "10".to_string(),
    };
    assert_eq!(k.start_time_ms(), 1_700_000_000_000);
    let ks = klines_from(&vec![k], 42);
    assert_eq!(ks[0].close, dec(1.5));
    assert_eq!(ks[0].start_time, 1_700_000_000_000);
    assert_eq!(ks[0].low, dec(0.5));
    let far = KlineItem { start_time: i64::MAX.to_string(), ..ks_item() };
    assert_eq!(klines_from(&vec![far], 42)[0].start_time, 42);
    let f = FundingRateResponse {
        list: vec![FundingRateItem {
            symbol: "ETHUSDT".to_string(),
            funding_rate: "-0.0002".to_string(),
            funding_rate_timestamp: "0".to_string(),
        }],
    };
    assert_eq!(funding_rate_from(&f).unwrap(), -20_000);
    assert!(funding_rate_from(&FundingRateResponse { list: vec![] }).is_err());
}

#[test]
fn orderbook_reading() {
    let r = OrderbookResponse {
        s: "ETHUSDT".to_string(),
        a: Some(vec![OrderbookLevel { price: "3001".to_string(), qty: "1.5".to_string() }]),
        b: None,
        ts: 0,
    };
    let b = orderbook_from(&r, 42);
    assert_eq!(b.asks, vec![(dec(3001.0), dec(1.5))]);
    assert!(b.bids.is_empty());
    assert_eq!(b.timestamp, 42);
}

#[test]
fn order_bodies() {
    let o = OrderRequest::market("ETHUSDT".to_string(), "Buy".to_string(), dec(0.0375)).reduce_only();
    let body = place_order_request(&o);
    assert_eq!(body.qty, "0.0375");
    assert_eq!(body.category, "linear");
    assert_eq!(body.reduce_only, Some(true));
    assert_eq!(body.close_on_trigger, None);
    assert_eq!(body.position_idx, Some(0));
    let l = OrderRequest::limit("ETHUSDT".to_string(), "Sell".to_string(), dec(2.0), dec(3000.5));
    let body = place_order_request(&l);
    assert_eq!(body.qty, "2");
    assert_eq!(body.price.as_deref(), Some("3000.5"));
    assert_eq!(body.time_in_force.as_deref(), Some("GTC"));
    assert_eq!(body.reduce_only, None);
    let resp = order_response_from(PlaceOrderResult { order_id: None, order_link_id: Some("l".to_string()) });
    assert_eq!(resp.order_id, "");
}

#[test]
fn order_statuses() {
    let mut s = OrderStatusItem {
        order_id: "1".to_string(),
        symbol: "ETHUSDT".to_string(),
        side: "Buy".to_string(),
        order_type: "Market".to_string(),
        price: "0".to_string(),
        qty: "0.5".to_string(),
        cum_exec_qty: "0.25".to_string(),
        cum_exec_value: "0".to_string(),
        cum_exec_fee: "0.01".to_string(),
        order_status: "Filled".to_string(),
        avg_price: "3000".to_string(),
        created_time: "0".to_string(),
        updated_time: "0".to_string(),
    };
    assert!(s.is_filled() && !s.is_open());
    s.order_status = "PartiallyFilled".to_string();
    assert!(!s.is_filled() && s.is_open());
    assert_eq!(s.qty_f64(), dec(0.5));
    assert_eq!(s.cum_exec_qty_f64(), dec(0.25));
    assert_eq!(s.cum_exec_fee_f64(), dec(0.01));
    assert_eq!(s.avg_price_f64(), dec(3000.0));
}

#[test]
fn position_sizing_from_balance() {
    assert_eq!(calculate_position_size(dec(1000.0), dec(2000.0), dec(0.02)).unwrap(), dec(0.01));
    assert!(matches!(
        calculate_position_size(0, dec(2000.0), dec(0.02)),
        Err(BotError::InsufficientMargin { required, available: 0 }) if required == SCALE
    ));
    assert!(matches!(
        calculate_position_size(dec(1.0), 0, dec(0.02)),
        Err(BotError::ApiError { retryable: true, .. })
    ));
    assert!(validate_position_size(1, dec(10.0)).is_ok());
    assert!(matches!(validate_position_size(0, dec(10.0)), Err(BotError::PositionSizeTooSmall { .. })));
}

#[test]
fn websocket_decisions() {
    assert!(is_ticker_topic("tickers.ETHUSDT"));
    assert!(!is_ticker_topic("orderbook.50.ETHUSDT"));
    assert!(!is_ticker_topic("ticker"));
    assert!(is_stale_at(0, 10_001, 10_000));
    assert!(!is_stale_at(0, 10_000, 10_000));
}

#[test]
fn websocket_frames_and_subscription() {
    assert_eq!(
        subscribe_message("ETHUSDT"),
        "{\"args\":[{\"channel\":\"tickers\",\"symbol\":\"ETHUSDT\"}],\"op\":\"subscribe\"}"
    );
    assert_eq!(
        subscribe_message("A\"\\\n\u{1}é"),
        "{\"args\":[{\"channel\":\"tickers\",\"symbol\":\"A\\\"\\\\\\n\\u0001é\"}],\"op\":\"subscribe\"}"
    );
    assert!(matches!(ws_step(WsFrame::Text("x".to_string())), WsStep::Handle(t) if t == "x"));
    assert!(matches!(ws_step(WsFrame::Ping(vec![1, 2])), WsStep::ReplyPong(d) if d == vec![1, 2]));
    assert!(matches!(ws_step(WsFrame::Close), WsStep::Stop));
    assert!(matches!(ws_step(WsFrame::Failed("boom".to_string())), WsStep::Fail(m) if m == "Message error: boom"));
    assert!(matches!(ws_step(WsFrame::Pong(vec![])), WsStep::Ignore));
    assert_eq!(message_action(true, Some("tickers.X"), true), MessageAction::Acknowledged);
    assert_eq!(message_action(false, Some("tickers.X"), true), MessageAction::UpdateTicker);
    assert_eq!(message_action(false, Some("tickers.X"), false), MessageAction::Ignore);
    assert_eq!(message_action(false, Some("orderbook.50.X"), true), MessageAction::Ignore);
    assert_eq!(message_action(false, None, true), MessageAction::Ignore);
}
