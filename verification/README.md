# trading_bots

The verified core of a real-time, multi-strategy trading engine for Binance
spot. The decisions of the engine are written in Verus and proved against
their contracts; the I/O around them (database, exchange, websocket, timers)
is left to the caller.

## Layout

- `src/` — the verified library
  - `environments`, `states` — deployment stages and the engine's state enums
  - `entities/` — one module per table: records, requests, defaults, the
    rules of inserts, lookups, listings and updates
  - `query` — paging and ordering plans of listings
  - `repository` — an in-memory table (`MockRepo`) with each table's own
    in-memory rules, and its laws
  - `lifecycle` — start and stop of each cache as state machines
  - `runtime`, `guard` — one evaluation of a strategy and the writes its
    execution guard asks for
  - `overview`, `stored` — gathering and evaluating what a strategy needs
  - `loading` — what each cache holds once loaded
  - `balances`, `amount` — balance moves of executed orders, on
    `rust_decimal` arithmetic
  - `binance`, `call_logs` — exchange-facing rules and the logs of outside calls
  - `engine`, `health` — runtime checks, metrics snapshots and health reports
- `tests/` — tests of the library on concrete values
- `app/` — async drivers of the state machines, background tasks and
  configuration reading

Verification: every public function in `src/` carries a contract that
states its result; the laws that relate several functions are public proof
functions next to them.
