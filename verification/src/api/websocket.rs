//! Decisions of the market data stream.

use vstd::prelude::*;
use crate::api::rest::{hex_digit, push_hex_digit};
use crate::text::describe;

verus! {

/// Whether a WebSocket topic carries ticker updates: it starts with
/// "tickers.".
pub fn is_ticker_topic(topic: &str) -> (r: bool)
    ensures
        r == (topic@.len() >= 8 && topic@.subrange(0, 8) == "tickers."@),
{
    proof {
        reveal_strlit("tickers.");
    }
    let prefix = "tickers.";
    if topic.unicode_len() < 8 {
        return false;
    }
    let mut i: usize = 0;
    while i < 8
        invariant
            i <= 8,
            topic@.len() >= 8,
            prefix@ == "tickers."@,
            prefix@.len() == 8,
            forall|j: int| 0 <= j < i ==> topic@[j] == prefix@[j],
        decreases 8 - i,
    {
        if topic.get_char(i) != prefix.get_char(i) {
            return false;
        }
        i = i + 1;
    }
    assert(topic@.subrange(0, 8) =~= prefix@);
    true
}

/// Whether data last updated at `last_update` (milliseconds) is stale at
/// `now`: older than `max_age`.
pub fn is_stale_at(last_update: i64, now: i64, max_age: i64) -> (r: bool)
    ensures
        r == (now - last_update > max_age),
{
    (now as i128) - (last_update as i128) > max_age as i128
}

/// How `serde_json` writes the character `c` inside a JSON string: a
/// quote and a backslash are escaped with a backslash, the controls
/// backspace, tab, line feed, form feed and carriage return by their short
/// escapes, the other characters below 0x20 as `\u00` and two lower-case
/// hexadecimal digits; every other character as itself.
pub open spec fn json_escaped_char(c: char) -> Seq<char> {
    if c == '"' {
        seq!['\\', '"']
    } else if c == '\\' {
        seq!['\\', '\\']
    } else if c == '\x08' {
        seq!['\\', 'b']
    } else if c == '\t' {
        seq!['\\', 't']
    } else if c == '\n' {
        seq!['\\', 'n']
    } else if c == '\x0c' {
        seq!['\\', 'f']
    } else if c == '\r' {
        seq!['\\', 'r']
    } else if (c as u32) < 0x20 {
        seq!['\\', 'u', '0', '0', hex_digit((c as u32 / 16) as int), hex_digit((c as u32 % 16) as int)]
    } else {
        seq![c]
    }
}

/// The text `s` escaped for a JSON string, character by character (see
/// `json_escaped_char`).
pub open spec fn json_escaped(s: Seq<char>) -> Seq<char>
    decreases s.len(),
{
    if s.len() == 0 {
        Seq::empty()
    } else {
        json_escaped(s.drop_last()) + json_escaped_char(s.last())
    }
}

/// Appends `lit` to `out`.
fn push_lit(out: &mut String, lit: &str)
    ensures
        final(out)@ == old(out)@ + lit@,
{
    out.append(lit);
}

/// Appends the JSON escape of the `i`-th character of `s` to `out`.
fn push_escaped_char(out: &mut String, s: &str, i: usize)
    requires
        i < s@.len(),
        i < usize::MAX,
    ensures
        final(out)@ == old(out)@ + json_escaped_char(s@[i as int]),
{
    let c = s.get_char(i);
    proof {
        reveal_strlit("\\\"");
        reveal_strlit("\\\\");
        reveal_strlit("\\b");
        reveal_strlit("\\t");
        reveal_strlit("\\n");
        reveal_strlit("\\f");
        reveal_strlit("\\r");
        reveal_strlit("\\u00");
    }
    if c == '"' {
        push_lit(out, "\\\"");
    } else if c == '\\' {
        push_lit(out, "\\\\");
    } else if c == '\x08' {
        push_lit(out, "\\b");
    } else if c == '\t' {
        push_lit(out, "\\t");
    } else if c == '\n' {
        push_lit(out, "\\n");
    } else if c == '\x0c' {
        push_lit(out, "\\f");
    } else if c == '\r' {
        push_lit(out, "\\r");
    } else if (c as u32) < 0x20 {
        push_lit(out, "\\u00");
        let v = c as u32;
        push_hex_digit(out, (v / 16) as u8);
        push_hex_digit(out, (v % 16) as u8);
    } else {
        push_lit(out, s.substring_char(i, i + 1));
    }
    assert(final(out)@ =~= old(out)@ + json_escaped_char(s@[i as int]));
}

/// The subscription to `symbol`'s ticker updates, as `serde_json` writes
/// the object `{"op": "subscribe", "args": [{"channel": "tickers",
/// "symbol": symbol}]}`: keys in sorted order, no spaces, the symbol
/// escaped.
pub fn subscribe_message(symbol: &str) -> (r: String)
    ensures
        r@ == "{\"args\":[{\"channel\":\"tickers\",\"symbol\":\""@ + json_escaped(symbol@) + "\"}],\"op\":\"subscribe\"}"@,
{
    let mut out = String::new();
    push_lit(&mut out, "{\"args\":[{\"channel\":\"tickers\",\"symbol\":\"");
    let ghost head = out@;
    let n = symbol.unicode_len();
    let mut i: usize = 0;
    while i < n
        invariant
            n == symbol@.len(),
            i <= n,
            out@ == head + json_escaped(symbol@.take(i as int)),
        decreases n - i,
    {
        push_escaped_char(&mut out, symbol, i);
        proof {
            assert(symbol@.take(i as int + 1).drop_last() =~= symbol@.take(i as int));
            assert(symbol@.take(i as int + 1).last() == symbol@[i as int]);
        }
        i = i + 1;
    }
    proof {
        assert(symbol@.take(n as int) =~= symbol@);
    }
    push_lit(&mut out, "\"}],\"op\":\"subscribe\"}");
    assert(out@ =~= "{\"args\":[{\"channel\":\"tickers\",\"symbol\":\""@ + json_escaped(symbol@) + "\"}],\"op\":\"subscribe\"}"@);
    out
}

/// A frame read from the WebSocket.
#[derive(Clone, Debug)]
pub enum WsFrame {
    Text(String),
    Binary(Vec<u8>),
    Ping(Vec<u8>),
    Pong(Vec<u8>),
    Close,
    /// Reading failed with this message.
    Failed(String),
}

/// What the connection does with a frame.
#[derive(Clone, Debug)]
pub enum WsStep {
    /// Handle this text message.
    Handle(String),
    /// Answer with a pong carrying this data.
    ReplyPong(Vec<u8>),
    /// The server closed the connection: stop reading.
    Stop,
    /// Give up the connection with this WebSocket error message.
    Fail(String),
    /// Nothing to do.
    Ignore,
}

/// The connection's step for `frame`: a text message is handled, a ping is
/// answered with a pong of the same data, a close stops the connection, a
/// read failure ends it with the error "Message error: " and the failure's
/// message, and anything else is ignored.
pub fn ws_step(frame: WsFrame) -> (r: WsStep)
    ensures
        frame matches WsFrame::Text(t) ==> r == WsStep::Handle(t),
        frame matches WsFrame::Ping(d) ==> r == WsStep::ReplyPong(d),
        frame is Close ==> r == WsStep::Stop,
        frame matches WsFrame::Failed(m) ==> (r matches WsStep::Fail(e) && e@ == "Message error: "@ + m@),
        (frame is Binary || frame is Pong) ==> r == WsStep::Ignore,
{
    proof {
        reveal_strlit("");
    }
    match frame {
        WsFrame::Text(t) => WsStep::Handle(t),
        WsFrame::Ping(d) => WsStep::ReplyPong(d),
        WsFrame::Close => WsStep::Stop,
        WsFrame::Failed(m) => WsStep::Fail(describe("Message error: ", m.as_str(), "")),
        WsFrame::Binary(_) => WsStep::Ignore,
        WsFrame::Pong(_) => WsStep::Ignore,
    }
}

/// What a text message of the stream calls for.
#[derive(Clone, Copy, Debug, PartialEq, Eq, Structural)]
pub enum MessageAction {
    /// The acknowledgement of an operation: nothing to do.
    Acknowledged,
    /// A ticker update: store its data.
    UpdateTicker,
    /// Anything else: nothing to do.
    Ignore,
}

/// The action for a message with a `success` field (`has_success`), a
/// `topic` and a `data` field (`has_data`): an acknowledgement when it has
/// `success`; a ticker update when its topic is a ticker topic and it
/// carries data; nothing otherwise.
pub fn message_action(has_success: bool, topic: Option<&str>, has_data: bool) -> (r: MessageAction)
    ensures
        has_success ==> r == MessageAction::Acknowledged,
        !has_success ==> r == (if topic matches Some(t) && t@.len() >= 8 && t@.subrange(0, 8) == "tickers."@ && has_data {
            MessageAction::UpdateTicker
        } else {
            MessageAction::Ignore
        }),
{
    if has_success {
        return MessageAction::Acknowledged;
    }
    match topic {
        Some(t) => if is_ticker_topic(t) && has_data {
            MessageAction::UpdateTicker
        } else {
            MessageAction::Ignore
        },
        None => MessageAction::Ignore,
    }
}

} // verus!
