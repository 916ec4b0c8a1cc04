use serde_json::Value;
use upbit_trading_bot::websocket::{interval_start, subscribe_message, tick_outcome, TickOutcome, UpbitWebSocket};

const T0: i64 = 1_704_078_000_000; // 2024-01-01T03:00:00Z

#[test]
fn websocket_url() {
    let ws = UpbitWebSocket::new();
    assert_eq!(ws.url(), "wss://api.upbit.com/websocket/v1");
}

#[test]
fn interval_start_rounds_down_within_the_hour() {
    // 03:07:42.5 with 5-minute candles -> 03:05:00
    assert_eq!(interval_start(T0 + 7 * 60_000 + 42_500, 5), T0 + 5 * 60_000);
    // 03:59:59.999 with 7-minute candles -> 03:56
    assert_eq!(interval_start(T0 + 3_599_999, 7), T0 + 56 * 60_000);
    // intervals of an hour or more start on the hour
    assert_eq!(interval_start(T0 + 59 * 60_000, 240), T0);
    // a negative interval counts as its magnitude
    assert_eq!(interval_start(T0 + 14 * 60_000, -10), T0 + 10 * 60_000);
    // exact starts are kept
    assert_eq!(interval_start(T0, 1), T0);
}

#[test]
fn interval_start_before_epoch() {
    // 1969-12-31T23:59:30Z -> 23:55:00 with 5-minute candles
    assert_eq!(interval_start(-30_000, 5), -300_000);
}

#[test]
fn interval_start_is_idempotent() {
    for &(t, iv) in &[(T0 + 123_456, 3i64), (T0 + 3_000_000, 15), (-1_234_567, 5)] {
        let s = interval_start(t, iv);
        assert_eq!(interval_start(s, iv), s);
        assert!(s <= t && t - s < iv.abs() * 60_000);
    }
}

#[test]
fn subscribe_message_matches_serde_json() {
    let tickers = vec!["KRW-BTC".to_string(), "KRW-ETH".to_string()];
    let mut ticket = serde_json::Map::new();
    ticket.insert("ticket".to_string(), Value::String("upbit-trading-bot".to_string()));
    let mut sub = serde_json::Map::new();
    sub.insert("type".to_string(), Value::String("ticker".to_string()));
    sub.insert(
        "codes".to_string(),
        Value::Array(tickers.iter().map(|t| Value::String(t.clone())).collect()),
    );
    sub.insert("isOnlyRealtime".to_string(), Value::Bool(true));
    let mut format = serde_json::Map::new();
    format.insert("format".to_string(), Value::String("DEFAULT".to_string()));
    let expected = Value::Array(vec![Value::Object(ticket), Value::Object(sub), Value::Object(format)]).to_string();
    assert_eq!(subscribe_message(&tickers), expected);
}

#[test]
fn subscribe_message_escapes_like_serde_json() {
    let tickers = vec!["a\"b\\c\n\u{1}\té".to_string()];
    let expected = format!(
        "[{{\"ticket\":\"upbit-trading-bot\"}},{{\"codes\":[{}],\"isOnlyRealtime\":true,\"type\":\"ticker\"}},{{\"format\":\"DEFAULT\"}}]",
        serde_json::to_string(&tickers[0]).unwrap()
    );
    assert_eq!(subscribe_message(&tickers), expected);
    assert_eq!(
        subscribe_message(&vec![]),
        "[{\"ticket\":\"upbit-trading-bot\"},{\"codes\":[],\"isOnlyRealtime\":true,\"type\":\"ticker\"},{\"format\":\"DEFAULT\"}]"
    );
}

#[test]
fn tick_outcomes() {
    assert_eq!(tick_outcome(None, T0), TickOutcome::Open);
    assert_eq!(tick_outcome(Some(T0), T0), TickOutcome::Extend);
    assert_eq!(tick_outcome(Some(T0), T0 + 300_000), TickOutcome::Roll);
}
