# upbit_trading_bot

An automated trading bot for the Upbit exchange, split into a library
verified with Verus and a thin program around it.

- `src/` — the verified library:
  - `auth`: JWT request signing (HMAC-SHA512, URL-safe base64, query hashes);
  - `upbit_client`: REST URLs and order queries, the 5,000 KRW order minimum,
    balance lookup, KRW market filtering, request pacing;
  - `market_conditions`: the trading safeguards (losing-streak pause, daily
    trade limit, early-morning pause, poor recent results) and the safety score;
  - `trading`: the buy and sell decision flows, order-confirmation polling,
    pre-buy checks;
  - `websocket`: candle interval bucketing, tick classification, the ticker
    subscription message;
  - `history`: the bounded record of recent items;
  - `analyzer`, `indicators`: the discrete parts of the buy signal;
  - `clock`, `text`, `encoding`: UTC calendar arithmetic, decimal and JSON
    text, the encodings the signer relies on.
- `app/` — the program: configuration, HTTP and WebSocket I/O, timers, and
  the floating-point analysis (indicators, order book, volume profile, pump
  detection, backtesting, positions).
- `tests/` — tests of the library.
