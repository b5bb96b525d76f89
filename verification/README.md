# algotrader

A grid-trading bot for Bybit linear perpetuals (the DynaGrid strategy),
with its decision logic verified by Verus.

## Layout

- `src/` — the verified library. All quantities are fixed-point decimals
  (`i64` in units of 10^-8, see `fixed.rs`).
  - `strategy/` — grid, zones, position sizing, the partial-exit ladder, the
    EMA trend and the engine that decides each step (`plan_iteration`).
  - `risk/` — daily loss and exposure limits, the strategy's stop rules.
  - `config/` — settings, their defaults and validation.
  - `api/` — request signing (HMAC-SHA256), query strings, and the reading
    of the exchange's responses.
  - `db/` — the records the bot keeps.
  - `decimal.rs`, `text.rs`, `clock.rs`, `error.rs` — decimal text, string
    helpers, units of time, and the error type. The time and date are
    passed in by the caller.
- `app/` — the program around the library: configuration files, the HTTP
  and WebSocket clients, the SQLite store and the trading loop.
- `tests/` — tests of the library.

Laws that the library states and proves include: a decimal's text reads back
as the same decimal; the EMA stays within the range of the prices; the exit
taken is the first rung that triggered; closing everything leaves no
position; a refused trade changes no counter, an allowed one counts once;
losses at the daily limit are still allowed and beyond it refused.
