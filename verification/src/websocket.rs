use vstd::prelude::*;
use crate::clock::{floor_div, MS_PER_HOUR, MS_PER_MINUTE};
use crate::encoding::{json_string, spec_json_string};
use crate::text::spec_join;

verus! {

/// The address of Upbit's public WebSocket endpoint.
pub open spec fn spec_upbit_ws_url() -> Seq<char> {
    "wss://api.upbit.com/websocket/v1"@
}

/// Client settings for the Upbit real-time ticker feed.
pub struct UpbitWebSocket {
    url: String,
}

impl View for UpbitWebSocket {
    type V = Seq<char>;

    /// The endpoint the client connects to.
    closed spec fn view(&self) -> Seq<char> {
        self.url@
    }
}

impl UpbitWebSocket {
    /// A client for Upbit's public endpoint.
    pub fn new() -> (ws: Self)
        ensures
            ws@ == spec_upbit_ws_url(),
    {
        UpbitWebSocket { url: String::from_str("wss://api.upbit.com/websocket/v1") }
    }

    /// The endpoint this client connects to.
    pub fn url(&self) -> (u: &str)
        ensures
            u@ == self@,
    {
        self.url.as_str()
    }
}

/// Start (in milliseconds) of the candle interval holding the timestamp
/// `ms`: within the UTC hour of `ms`, its minute is rounded down to a
/// multiple of `|interval_minutes|`, and seconds and below are dropped.
pub open spec fn spec_interval_start(ms: int, interval_minutes: int) -> int {
    let a = if interval_minutes < 0 { -interval_minutes } else { interval_minutes };
    let hour_start = (ms / (MS_PER_HOUR as int)) * (MS_PER_HOUR as int);
    let minute = (ms - hour_start) / (MS_PER_MINUTE as int);
    hour_start + ((minute / a) * a) * (MS_PER_MINUTE as int)
}

/// The start of the candle interval that holds the tick time `ms`
/// (times within an hour of the least `i64` lie outside the range of
/// calendar times and are excluded).
pub fn interval_start(ms: i64, interval_minutes: i64) -> (start: i64)
    requires
        interval_minutes != 0,
        ms >= i64::MIN + MS_PER_HOUR,
    ensures
        start as int == spec_interval_start(ms as int, interval_minutes as int),
        start <= ms,
{
    let hour = floor_div(ms, MS_PER_HOUR);
    let hour_start: i128 = hour as i128 * MS_PER_HOUR as i128;
    proof {
        let m = ms as int;
        let h = hour as int;
        assert(h * 3600000 <= m < h * 3600000 + 3600000) by (nonlinear_arith)
            requires h == m / 3600000;
    }
    let within: u64 = (ms as i128 - hour_start) as u64;
    let minute: u64 = within / MS_PER_MINUTE as u64;
    let a: u128 = if interval_minutes < 0 { (-(interval_minutes as i128)) as u128 } else { interval_minutes as u128 };
    let q: u128 = minute as u128 / a;
    proof {
        let wi = within as int;
        let mi = minute as int;
        let ai = a as int;
        let qi = q as int;
        assert(0 <= wi < 3600000);
        assert(mi <= wi / 60000) ;
        assert(0 <= mi < 60) by (nonlinear_arith)
            requires mi == wi / 60000, 0 <= wi < 3600000;
        assert(0 <= qi * ai <= mi) by (nonlinear_arith)
            requires qi == mi / ai, 0 <= mi, ai > 0;
    }
    let rounded: u128 = q * a;
    let start: i128 = hour_start + (rounded as i128) * MS_PER_MINUTE as i128;
    proof {
        let a_spec: int = if interval_minutes < 0 { -interval_minutes } else { interval_minutes as int };
        assert(a as int == a_spec);
        assert(hour_start == (ms as int / 3600000) * 3600000);
        assert(within as int == ms as int - hour_start);
        assert(rounded as int * 60000 <= within as int) by (nonlinear_arith)
            requires rounded as int <= minute as int, minute as int == within as int / 60000, within >= 0;
        assert(start as int == hour_start as int + rounded as int * 60000);
        assert(start as int <= ms as int);
        assert(start as int >= hour_start as int);
        assert(hour_start as int > ms as int - 3600000);
        assert(rounded as int == (minute as int / a as int) * a as int);
        assert(minute as int == (ms as int - (ms as int / 3600000) * 3600000) / 60000);
    }
    start as i64
}

/// An interval start lies at most one interval (and at most one hour)
/// before the time it is taken of, on a whole minute, and is its own
/// interval start: every tick of an interval gets the same start.
pub proof fn lemma_interval_start(ms: int, interval_minutes: int)
    requires
        interval_minutes != 0,
    ensures
        spec_interval_start(ms, interval_minutes) <= ms,
        ms - spec_interval_start(ms, interval_minutes) < 3600000,
        ms - spec_interval_start(ms, interval_minutes)
            < (if interval_minutes < 0 { -interval_minutes } else { interval_minutes }) * 60000,
        spec_interval_start(ms, interval_minutes) % 60000 == 0,
        spec_interval_start(spec_interval_start(ms, interval_minutes), interval_minutes)
            == spec_interval_start(ms, interval_minutes),
        spec_interval_start(ms, interval_minutes) / 3600000 == ms / 3600000,
        ((spec_interval_start(ms, interval_minutes) % 3600000) / 60000)
            % (if interval_minutes < 0 { -interval_minutes } else { interval_minutes }) == 0,
{
    let a = if interval_minutes < 0 { -interval_minutes } else { interval_minutes };
    let h = ms / 3600000;
    let hs = h * 3600000;
    assert(hs <= ms < hs + 3600000) by (nonlinear_arith)
        requires h == ms / 3600000, hs == h * 3600000;
    let w = ms - hs;
    let m = w / 60000;
    assert(0 <= m < 60 && m * 60000 <= w < m * 60000 + 60000) by (nonlinear_arith)
        requires m == w / 60000, 0 <= w < 3600000;
    let q = m / a;
    let r = q * a;
    assert(0 <= r <= m && m - r < a) by (nonlinear_arith)
        requires q == m / a, 0 <= m, a > 0, r == q * a;
    let s = hs + r * 60000;
    assert(s == (h * 60 + r) * 60000) by (nonlinear_arith)
        requires s == hs + r * 60000, hs == h * 3600000;
    assert(s == spec_interval_start(ms, interval_minutes));
    assert(ms - s < a * 60000) by (nonlinear_arith)
        requires ms - s == (m - r) * 60000 + (w - m * 60000), m - r < a, w - m * 60000 < 60000,
            m - r >= 0;
    assert(s % 60000 == 0) by (nonlinear_arith)
        requires s == (h * 60 + r) * 60000;
    assert(s / 3600000 == h) by (nonlinear_arith)
        requires s == h * 3600000 + r * 60000, 0 <= r < 60;
    assert((s - hs) / 60000 == r) by (nonlinear_arith)
        requires s - hs == r * 60000;
    assert((r / a) * a == r) by (nonlinear_arith)
        requires r == q * a, a > 0;
    assert(s % 3600000 == r * 60000) by (nonlinear_arith)
        requires s == h * 3600000 + r * 60000, 0 <= r < 60;
    assert((r * 60000) / 60000 == r) by (nonlinear_arith);
    assert(r % a == 0) by (nonlinear_arith)
        requires r == q * a, a > 0;
}

/// What a tick does to its market's candle in progress.
#[derive(Debug, Clone, Copy, PartialEq, Eq, Structural)]
pub enum TickOutcome {
    /// No candle in progress: the tick opens the market's first candle.
    Open,
    /// The tick falls in the interval of the candle in progress: it extends it.
    Extend,
    /// The tick starts a new interval: the candle in progress is completed
    /// (and recorded) and the tick opens the next one.
    Roll,
}

/// Classifies a tick whose interval starts at `tick_start_ms`, given the
/// start of the market's candle in progress (if any).
pub fn tick_outcome(current_start_ms: Option<i64>, tick_start_ms: i64) -> (o: TickOutcome)
    ensures
        o == match current_start_ms {
            None => TickOutcome::Open,
            Some(s) => if s == tick_start_ms { TickOutcome::Extend } else { TickOutcome::Roll },
        },
{
    match current_start_ms {
        None => TickOutcome::Open,
        Some(s) => if s == tick_start_ms { TickOutcome::Extend } else { TickOutcome::Roll },
    }
}

/// The ticker subscription Upbit expects, as serde_json prints it
/// (compact, object keys in sorted order).
pub open spec fn spec_subscribe_message(tickers: Seq<Seq<char>>) -> Seq<char> {
    "[{\"ticket\":\"upbit-trading-bot\"},{\"codes\":["@
        + spec_join(tickers.map_values(|t: Seq<char>| spec_json_string(t)), ","@)
        + "],\"isOnlyRealtime\":true,\"type\":\"ticker\"},{\"format\":\"DEFAULT\"}]"@
}

/// The subscription message for the ticker feed of `tickers`.
pub fn subscribe_message(tickers: &Vec<String>) -> (m: String)
    ensures
        m@ == spec_subscribe_message(tickers@.map_values(|t: String| t@)),
{
    let ghost views = tickers@.map_values(|t: String| t@);
    let ghost quoted = views.map_values(|t: Seq<char>| spec_json_string(t));
    let mut m = String::new();
    m.append("[{\"ticket\":\"upbit-trading-bot\"},{\"codes\":[");
    let ghost head = m@;
    let mut i: usize = 0;
    while i < tickers.len()
        invariant
            views == tickers@.map_values(|t: String| t@),
            quoted == views.map_values(|t: Seq<char>| spec_json_string(t)),
            i <= tickers.len(),
            m@ == head + spec_join(quoted.take(i as int), ","@),
        decreases tickers.len() - i,
    {
        if i != 0 {
            m.append(",");
        }
        let quoted_ticker = json_string(tickers[i].as_str());
        m.append(quoted_ticker.as_str());
        proof {
            assert(quoted.take(i + 1).drop_last() =~= quoted.take(i as int));
            assert(quoted[i as int] == spec_json_string(tickers@[i as int]@));
            assert(m@ =~= head + spec_join(quoted.take(i + 1), ","@));
        }
        i = i + 1;
    }
    m.append("],\"isOnlyRealtime\":true,\"type\":\"ticker\"},{\"format\":\"DEFAULT\"}]");
    proof {
        assert(quoted.take(tickers.len() as int) =~= quoted);
        assert(m@ =~= spec_subscribe_message(views));
    }
    m
}

} // verus!
