use upbit_trading_bot::upbit_client::{
    accounts_url, api_base, buy_order_query, candles_minutes_url, find_balance, krw_markets,
    market_all_url, order_query, order_url, orders_url, sell_order_query, ticker_url, Balance,
    MarketCode, OrderError, RateLimiter, REQUESTS_PER_SECOND, response_error_message,
};

fn market(code: &str) -> MarketCode {
    MarketCode { market: code.to_string(), korean_name: String::new(), english_name: String::new() }
}

fn balance(currency: &str, amount: &str) -> Balance {
    Balance {
        currency: currency.to_string(),
        balance: amount.to_string(),
        locked: "0".to_string(),
        avg_buy_price: "0".to_string(),
        avg_buy_price_modified: false,
        unit_currency: "KRW".to_string(),
    }
}

#[test]
fn buy_query_formats_price() {
    assert_eq!(
        buy_order_query("KRW-BTC", 10000).unwrap(),
        "market=KRW-BTC&side=bid&ord_type=price&price=10000"
    );
    assert_eq!(buy_order_query("KRW-ETH", 5000).unwrap(), "market=KRW-ETH&side=bid&ord_type=price&price=5000");
}

#[test]
fn buy_below_minimum_is_refused() {
    let e = buy_order_query("KRW-BTC", 4999).unwrap_err();
    assert_eq!(e, OrderError::BelowMinimum { price: 4999 });
    assert_eq!(e.message(), "최소 주문 금액은 5,000원입니다 (입력: 4999원)");
    let e = buy_order_query("KRW-BTC", -3).unwrap_err();
    assert_eq!(e.message(), "최소 주문 금액은 5,000원입니다 (입력: -3원)");
}

#[test]
fn sell_and_order_queries() {
    assert_eq!(
        sell_order_query("KRW-BTC", "0.50000000"),
        "market=KRW-BTC&side=ask&ord_type=market&volume=0.50000000"
    );
    assert_eq!(order_query("abc-123"), "uuid=abc-123");
}

#[test]
fn urls() {
    let base = api_base();
    assert_eq!(base, "https://api.upbit.com/v1");
    assert_eq!(accounts_url(&base), "https://api.upbit.com/v1/accounts");
    assert_eq!(orders_url(&base), "https://api.upbit.com/v1/orders");
    assert_eq!(order_url(&base, "u-1"), "https://api.upbit.com/v1/order?uuid=u-1");
    assert_eq!(market_all_url(&base), "https://api.upbit.com/v1/market/all");
    let markets = vec!["KRW-BTC".to_string(), "KRW-ETH".to_string()];
    assert_eq!(ticker_url(&base, &markets), "https://api.upbit.com/v1/ticker?markets=KRW-BTC,KRW-ETH");
    assert_eq!(ticker_url(&base, &vec![]), "https://api.upbit.com/v1/ticker?markets=");
    assert_eq!(
        candles_minutes_url(&base, "KRW-BTC", 5, 200),
        "https://api.upbit.com/v1/candles/minutes/5?market=KRW-BTC&count=200"
    );
    assert_eq!(
        candles_minutes_url(&base, "KRW-XRP", -1, 0),
        "https://api.upbit.com/v1/candles/minutes/-1?market=KRW-XRP&count=0"
    );
}

#[test]
fn krw_markets_are_filtered_in_order() {
    let ms = vec![market("KRW-BTC"), market("BTC-ETH"), market("KRW-ETH"), market("USDT-KRW-X"), market("KRW")];
    assert_eq!(krw_markets(&ms), vec!["KRW-BTC".to_string(), "KRW-ETH".to_string()]);
    assert!(krw_markets(&vec![]).is_empty());
}

#[test]
fn first_matching_balance_is_found() {
    let bs = vec![balance("KRW", "10000"), balance("BTC", "0.1"), balance("BTC", "0.2")];
    assert_eq!(find_balance(&bs, "BTC"), Some(1));
    assert_eq!(find_balance(&bs, "KRW"), Some(0));
    assert_eq!(find_balance(&bs, "ETH"), None);
}

#[test]
fn rate_limiter_waits_out_the_interval() {
    let r = RateLimiter::new(REQUESTS_PER_SECOND);
    assert_eq!(r.min_interval_ms(), 125);
    assert_eq!(r.delay_ms(Some(25)), Some(100));
    assert_eq!(r.delay_ms(Some(125)), None);
    assert_eq!(r.delay_ms(Some(1000)), None);
    assert_eq!(r.delay_ms(None), None);
    assert_eq!(RateLimiter::new(3).min_interval_ms(), 333);
}

#[test]
fn response_error_messages() {
    assert_eq!(
        response_error_message(400, Some(("invalid_query_payload", "잘못된 요청")), "{...}"),
        "Upbit API 에러 [invalid_query_payload]: 잘못된 요청"
    );
    assert_eq!(response_error_message(502, None, "Bad Gateway"), "HTTP 502 에러: Bad Gateway");
}
