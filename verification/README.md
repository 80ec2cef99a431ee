# trading_bot_rust

A verified core for a three-factor trading bot on the T-Invest sandbox API.

`src/` is the library, checked by Verus:

- `domain::price` — fixed-point prices (`i128` units of 10^-16 rouble) and their arithmetic.
- `domain::order_book` — the order book: sorted bid and ask sides of bounded depth, checked volume sums, and the reading of level objects.
- `domain::candle` — candles, and the reading of the fields of a T-Invest candle object.
- `domain::analyzer` — the analyzer's settings.
- `order_manager` — the token-bucket rate limiter for order requests.
- `account` — reading the exchange's account replies and deciding how to find, or open and fund, the sandbox account.
- `sync` — choosing the rouble balance and the position to take over from the exchange's portfolio.
- `parse`, `time` — integer and date parsing through `std` and `chrono`.

`app/` holds the programs around it: network I/O (HTTP, WebSocket, gRPC, Redis,
ClickHouse), Prometheus metrics, and the floating-point indicators and risk management.
