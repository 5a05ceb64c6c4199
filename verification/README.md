# fccli

Candlestick feeds of crypto exchanges, verified with [Verus](https://github.com/verus-lang/verus).

The library decides what a terminal candlestick client does: how it asks Binance, Hyperliquid and
OKX for history, how it reads their answers and streams, how a live feed fills the gap between what
a consumer has accepted and what the exchange streams, how it waits out rate limits and failures,
how events are queued for the consumer, and how a terminal is set up and restored.

## Layout

- `src/` is the library. Its functions carry contracts that Verus proves, but for the few that are
  trusted (see below).
  - `calendar`, `clock`, `text`, `json`, `saturate`: time, numerals and JSON values.
  - `model`, `candle`, `error`, `event`: markets, requests, candles, errors and events.
  - `provider`: acknowledgements, watermarks and completion, shared by a feed and its consumer.
  - `provider::binance`, `provider::hyperliquid`, `provider::okx`: the exchanges.
  - `provider::runtime`: configuration, endpoints, HTTP, WebSocket, event queue, gap
    reconciliation, the life of one connection (`generation`) and of a feed (`supervisor`).
  - `snapshot`, `terminal`: the one-frame output, and the terminal session.
- `tests/` runs the library on concrete values.
- `app/` performs the I/O that the library decides on: sockets, requests, channels, the clock and
  the terminal.

The proof functions whose names begin with `law_` state what holds across functions.

## What is trusted

Calls into `serde_json`, `time`, `reqwest::Url` and parts of the standard library stand behind small
functions marked `external_body` or behind `assume_specification`. The comment above each says what
is believed of the call. Numbers are read from text in `app/number.rs`; the library compares and
carries them by their bits.
