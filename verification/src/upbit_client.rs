use vstd::prelude::*;
use crate::text::{join, push_dec_i64, spec_dec_int, spec_join, spec_starts_with, starts_with};

verus! {

/// Upbit's REST API root.
pub open spec fn spec_api_base() -> Seq<char> {
    "https://api.upbit.com/v1"@
}

/// Least order value in KRW that Upbit accepts.
pub const MIN_ORDER_KRW: i64 = 5000;

/// Requests per second the client allows itself (Upbit allows 10).
pub const REQUESTS_PER_SECOND: u64 = 8;

/// One currency held in the account, as the API reports it.
#[derive(Debug, Clone)]
pub struct Balance {
    pub currency: String,
    pub balance: String,
    pub locked: String,
    pub avg_buy_price: String,
    pub avg_buy_price_modified: bool,
    pub unit_currency: String,
}

/// An order, as the API reports it.
#[derive(Debug, Clone)]
pub struct Order {
    pub uuid: String,
    pub side: String,
    pub ord_type: String,
    pub price: Option<String>,
    pub state: String,
    pub market: String,
    pub created_at: String,
    pub volume: Option<String>,
    pub remaining_volume: Option<String>,
    pub reserved_fee: Option<String>,
    pub remaining_fee: Option<String>,
    pub paid_fee: Option<String>,
    pub locked: Option<String>,
    pub executed_volume: Option<String>,
    pub trades_count: Option<i32>,
}

/// A market listed by the exchange.
#[derive(Debug, Clone)]
pub struct MarketCode {
    pub market: String,
    pub korean_name: String,
    pub english_name: String,
}

/// Why an order request was not built.
#[derive(Debug, Clone, Copy, PartialEq, Eq, Structural)]
pub enum OrderError {
    /// The KRW amount (after rounding down) is below the exchange minimum.
    BelowMinimum { price: i64 },
}

/// The message of a refused buy order of `price` KRW.
pub open spec fn spec_below_minimum_message(price: int) -> Seq<char> {
    "최소 주문 금액은 5,000원입니다 (입력: "@ + spec_dec_int(price) + "원)"@
}

impl OrderError {
    /// A human-readable description of the error.
    pub fn message(&self) -> (m: String)
        ensures
            match *self {
                OrderError::BelowMinimum { price } => m@ == spec_below_minimum_message(price as int),
            },
    {
        match self {
            OrderError::BelowMinimum { price } => {
                let mut m = String::new();
                m.append("최소 주문 금액은 5,000원입니다 (입력: ");
                push_dec_i64(&mut m, *price);
                m.append("원)");
                assert(m@ =~= spec_below_minimum_message(*price as int));
                m
            },
        }
    }
}

/// The REST API root.
pub fn api_base() -> (s: String)
    ensures
        s@ == spec_api_base(),
{
    String::from_str("https://api.upbit.com/v1")
}

/// `base + path`.
fn concat2(base: &str, path: &str) -> (s: String)
    ensures
        s@ == base@ + path@,
{
    let mut s = String::from_str(base);
    s.append(path);
    s
}

/// The error text of a failed API response with HTTP status `status`:
/// Upbit's own error name and message when the body carried them,
/// otherwise the status and the raw body.
pub open spec fn spec_response_error_message(
    status: u16,
    upbit_error: Option<(Seq<char>, Seq<char>)>,
    body: Seq<char>,
) -> Seq<char> {
    match upbit_error {
        Some((name, message)) => "Upbit API 에러 ["@ + name + "]: "@ + message,
        None => "HTTP "@ + spec_dec_int(status as int) + " 에러: "@ + body,
    }
}

/// The error text of a failed API response.
pub fn response_error_message(status: u16, upbit_error: Option<(&str, &str)>, body: &str) -> (m: String)
    ensures
        m@ == spec_response_error_message(
            status,
            match upbit_error { Some((n, msg)) => Some((n@, msg@)), None => None },
            body@,
        ),
{
    match upbit_error {
        Some((name, message)) => {
            let mut m = String::from_str("Upbit API 에러 [");
            m.append(name);
            m.append("]: ");
            m.append(message);
            m
        },
        None => {
            let mut m = String::from_str("HTTP ");
            push_dec_i64(&mut m, status as i64);
            m.append(" 에러: ");
            m.append(body);
            m
        },
    }
}

/// URL of the account balances.
pub fn accounts_url(base: &str) -> (u: String)
    ensures
        u@ == base@ + "/accounts"@,
{
    concat2(base, "/accounts")
}

/// URL for placing orders.
pub fn orders_url(base: &str) -> (u: String)
    ensures
        u@ == base@ + "/orders"@,
{
    concat2(base, "/orders")
}

/// URL of one order's status.
pub fn order_url(base: &str, uuid: &str) -> (u: String)
    ensures
        u@ == base@ + "/order?uuid="@ + uuid@,
{
    let mut u = concat2(base, "/order?uuid=");
    u.append(uuid);
    u
}

/// URL of the list of all markets.
pub fn market_all_url(base: &str) -> (u: String)
    ensures
        u@ == base@ + "/market/all"@,
{
    concat2(base, "/market/all")
}

/// URL of the tickers of `markets`, listed comma-separated.
pub fn ticker_url(base: &str, markets: &Vec<String>) -> (u: String)
    ensures
        u@ == base@ + "/ticker?markets="@ + spec_join(markets@.map_values(|m: String| m@), ","@),
{
    let mut u = concat2(base, "/ticker?markets=");
    let joined = join(markets, ",");
    u.append(joined.as_str());
    u
}

/// URL of the last `count` minute candles of `unit` minutes of `market`.
pub fn candles_minutes_url(base: &str, market: &str, unit: i32, count: i32) -> (u: String)
    ensures
        u@ == base@ + "/candles/minutes/"@ + spec_dec_int(unit as int) + "?market="@ + market@
            + "&count="@ + spec_dec_int(count as int),
{
    let mut u = concat2(base, "/candles/minutes/");
    push_dec_i64(&mut u, unit as i64);
    u.append("?market=");
    u.append(market);
    u.append("&count=");
    push_dec_i64(&mut u, count as i64);
    u
}

/// Query string of a market buy of `price` KRW.
pub open spec fn spec_buy_query(market: Seq<char>, price: int) -> Seq<char> {
    "market="@ + market + "&side=bid&ord_type=price&price="@ + spec_dec_int(price)
}

/// Query string of a market sell of `volume` (as written) units.
pub open spec fn spec_sell_query(market: Seq<char>, volume: Seq<char>) -> Seq<char> {
    "market="@ + market + "&side=ask&ord_type=market&volume="@ + volume
}

/// The query of a market buy spending `price` KRW (already rounded down to
/// whole won); refused below the exchange minimum of 5,000 KRW.
pub fn buy_order_query(market: &str, price: i64) -> (r: Result<String, OrderError>)
    ensures
        price < MIN_ORDER_KRW <==> r is Err,
        r matches Err(e) ==> e == (OrderError::BelowMinimum { price }),
        r matches Ok(q) ==> q@ == spec_buy_query(market@, price as int),
{
    if price < MIN_ORDER_KRW {
        return Err(OrderError::BelowMinimum { price });
    }
    let mut q = String::from_str("market=");
    q.append(market);
    q.append("&side=bid&ord_type=price&price=");
    push_dec_i64(&mut q, price);
    Ok(q)
}

/// The query of a market sell of `volume` units of `market`.
pub fn sell_order_query(market: &str, volume: &str) -> (q: String)
    ensures
        q@ == spec_sell_query(market@, volume@),
{
    let mut q = String::from_str("market=");
    q.append(market);
    q.append("&side=ask&ord_type=market&volume=");
    q.append(volume);
    q
}

/// The query of an order status request.
pub fn order_query(uuid: &str) -> (q: String)
    ensures
        q@ == "uuid="@ + uuid@,
{
    concat2("uuid=", uuid)
}

/// The KRW-quoted markets: codes that start with "KRW-".
pub open spec fn spec_krw_markets(codes: Seq<Seq<char>>) -> Seq<Seq<char>> {
    codes.filter(|c: Seq<char>| spec_starts_with(c, "KRW-"@))
}

/// The codes of the KRW markets among `markets`, in their order.
pub fn krw_markets(markets: &Vec<MarketCode>) -> (r: Vec<String>)
    ensures
        r@.map_values(|s: String| s@) == spec_krw_markets(markets@.map_values(|m: MarketCode| m.market@)),
{
    let ghost codes = markets@.map_values(|m: MarketCode| m.market@);
    let ghost pred = |c: Seq<char>| spec_starts_with(c, "KRW-"@);
    let mut r: Vec<String> = Vec::new();
    let mut i: usize = 0;
    while i < markets.len()
        invariant
            codes == markets@.map_values(|m: MarketCode| m.market@),
            pred == (|c: Seq<char>| spec_starts_with(c, "KRW-"@)),
            i <= markets.len(),
            r@.map_values(|s: String| s@) == codes.take(i as int).filter(pred),
        decreases markets.len() - i,
    {
        let code = &markets[i].market;
        let keep = starts_with(code.as_str(), "KRW-");
        proof {
            reveal_with_fuel(Seq::filter, 1);
            assert(codes.take(i + 1).drop_last() =~= codes.take(i as int));
        }
        if keep {
            r.push(code.clone());
            assert(r@.map_values(|s: String| s@) =~= codes.take(i as int).filter(pred).push(codes[i as int]));
        }
        i = i + 1;
    }
    assert(codes.take(markets.len() as int) =~= codes);
    r
}

/// Position of the first balance whose currency is `currency`.
pub fn find_balance(balances: &Vec<Balance>, currency: &str) -> (r: Option<usize>)
    ensures
        r matches Some(i) ==> i < balances@.len() && balances@[i as int].currency@ == currency@
            && forall|j: int| 0 <= j < i ==> #[trigger] balances@[j].currency@ != currency@,
        r is None ==> forall|j: int| 0 <= j < balances@.len() ==> #[trigger] balances@[j].currency@ != currency@,
{
    let wanted = String::from_str(currency);
    let mut i: usize = 0;
    while i < balances.len()
        invariant
            wanted@ == currency@,
            i <= balances.len(),
            forall|j: int| 0 <= j < i ==> #[trigger] balances@[j].currency@ != currency@,
        decreases balances.len() - i,
    {
        if balances[i].currency == wanted {
            return Some(i);
        }
        i = i + 1;
    }
    None
}

/// Client-side request pacing: consecutive requests at least
/// `1000 / requests_per_second` milliseconds apart.
pub struct RateLimiter {
    min_interval_ms: u64,
}

impl RateLimiter {
    pub closed spec fn spec_min_interval_ms(&self) -> nat {
        self.min_interval_ms as nat
    }

    /// A limiter allowing `requests_per_second` requests per second.
    pub fn new(requests_per_second: u64) -> (r: Self)
        requires
            requests_per_second > 0,
        ensures
            r.spec_min_interval_ms() == 1000nat / (requests_per_second as nat),
    {
        RateLimiter { min_interval_ms: 1000 / requests_per_second }
    }

    /// The spacing the limiter keeps between requests.
    pub fn min_interval_ms(&self) -> (ms: u64)
        ensures
            ms == self.spec_min_interval_ms(),
    {
        self.min_interval_ms
    }

    /// How long to sleep before the next request, given the time elapsed
    /// since the previous one (`None` when the clock went backwards):
    /// the rest of the minimum interval, or no sleep at all.
    pub fn delay_ms(&self, elapsed_ms: Option<u64>) -> (d: Option<u64>)
        ensures
            match elapsed_ms {
                Some(e) => if e < self.spec_min_interval_ms() {
                    d == Some((self.spec_min_interval_ms() - e) as u64)
                } else {
                    d is None
                },
                None => d is None,
            },
    {
        match elapsed_ms {
            Some(e) => {
                if e < self.min_interval_ms {
                    Some(self.min_interval_ms - e)
                } else {
                    None
                }
            },
            None => None,
        }
    }
}

/// After the limiter's sleep, at least the minimum interval separates two
/// requests.
pub proof fn lemma_rate_limiter_spacing(min_interval_ms: nat, elapsed_ms: nat)
    ensures
        elapsed_ms + (if elapsed_ms < min_interval_ms { (min_interval_ms - elapsed_ms) as nat } else { 0 })
            >= min_interval_ms,
{
}


/// The KRW markets of a list: nothing for no markets, and appending a
/// market to the list appends its code exactly when the code starts with
/// "KRW-". So every listed KRW code, the last one included, is returned,
/// in list order, and nothing else is.
pub proof fn lemma_krw_markets(codes: Seq<Seq<char>>, code: Seq<char>)
    ensures
        spec_krw_markets(Seq::<Seq<char>>::empty()) == Seq::<Seq<char>>::empty(),
        spec_krw_markets(codes.push(code)) == if spec_starts_with(code, "KRW-"@) {
            spec_krw_markets(codes).push(code)
        } else {
            spec_krw_markets(codes)
        },
        forall|c: Seq<char>| spec_krw_markets(codes).contains(c)
            <==> (codes.contains(c) && spec_starts_with(c, "KRW-"@)),
        spec_krw_markets(codes).len() <= codes.len(),
{
    reveal_with_fuel(Seq::filter, 1);
    let pred = |c: Seq<char>| spec_starts_with(c, "KRW-"@);
    assert(codes.push(code).drop_last() =~= codes);
    assert(Seq::<Seq<char>>::empty().filter(pred) =~= Seq::<Seq<char>>::empty());
    assert forall|c: Seq<char>| codes.contains(c) && spec_starts_with(c, "KRW-"@)
        implies #[trigger] spec_krw_markets(codes).contains(c) by {
        let i = choose|i: int| 0 <= i < codes.len() && codes[i] == c;
        codes.lemma_filter_contains(pred, i);
    }
    assert forall|c: Seq<char>| #[trigger] spec_krw_markets(codes).contains(c)
        implies codes.contains(c) && spec_starts_with(c, "KRW-"@) by {
        codes.lemma_filter_contains_rev(pred, c);
    }
    codes.lemma_filter_len(pred);
}

} // verus!
