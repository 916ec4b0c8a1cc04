use vstd::prelude::*;
use crate::clock::{minutes_between, spec_minutes_between, spec_utc_day, spec_utc_hour, utc_day, utc_hour};
use crate::history::{spec_keep_last, BoundedHistory};
use crate::text::{push_dec_i64, push_dec_u128, spec_dec_int, spec_dec_nat};

verus! {

/// The state of the market, as judged from recent candles.
#[derive(Debug, Clone, Copy, PartialEq, Eq, Structural)]
pub enum MarketCondition {
    Bullish,
    Neutral,
    Bearish,
    HighVolatility,
}

/// Whether a new trade may be opened, and why.
#[derive(Debug, Clone)]
pub struct TradingRestriction {
    pub can_trade: bool,
    pub reason: String,
}

/// Where the average profit rate (%) of the recorded trades lies.
#[derive(Debug, Clone, Copy, PartialEq, Eq, Structural)]
pub enum RecentAverage {
    /// average < -2.0
    BelowMinusTwo,
    /// -2.0 <= average < -1.0
    BelowMinusOne,
    /// -1.0 <= average < 0.0
    BelowZero,
    /// average >= 0.0, or no average at all
    NotNegative,
}

/// Losses in a row after which trading pauses.
pub const LOSS_STREAK_LIMIT: usize = 3;
/// Minutes the pause after a losing streak lasts.
pub const LOSS_STREAK_PAUSE_MINUTES: i64 = 60;
/// Trades allowed per UTC day.
pub const DAILY_TRADE_LIMIT: usize = 20;
/// Trades kept for the recent-performance checks.
pub const MAX_TRADE_HISTORY: usize = 10;

/// The reason text when trading is allowed.
pub open spec fn spec_reason_ok() -> Seq<char> {
    "정상"@
}

/// The reason text of the losing-streak pause.
pub open spec fn spec_reason_loss_streak(losses: nat, minutes_left: int) -> Seq<char> {
    "연속 "@ + spec_dec_nat(losses) + "회 손실. "@ + spec_dec_int(minutes_left) + "분 후 재개 가능"@
}

/// The reason text of the daily trade limit.
pub open spec fn spec_reason_daily_limit(count: nat) -> Seq<char> {
    "일일 거래 한도 초과 ("@ + spec_dec_nat(count) + "/20)"@
}

/// The reason text of the early-morning (KST) pause.
pub open spec fn spec_reason_night() -> Seq<char> {
    "새벽 시간대 (거래량 부족)"@
}

/// The reason text of poor recent results; `avg` is the average as shown.
pub open spec fn spec_reason_poor_results(avg: Seq<char>) -> Seq<char> {
    "최근 평균 수익률 부진 ("@ + avg + "%)"@
}

/// The trading decision: `(can_trade, reason)` for the given counters,
/// time of the last trade, current time, number of recorded trades and
/// the band of their average profit rate, shown as `avg_text`.
pub open spec fn spec_can_trade(
    consecutive_losses: nat,
    last_trade_ms: Option<int>,
    daily_trade_count: nat,
    now_ms: int,
    recent_count: nat,
    average: RecentAverage,
    avg_text: Seq<char>,
) -> (bool, Seq<char>) {
    let streak_pause = consecutive_losses >= LOSS_STREAK_LIMIT && last_trade_ms is Some
        && spec_minutes_between(last_trade_ms->0, now_ms) < LOSS_STREAK_PAUSE_MINUTES;
    let hour = spec_utc_hour(now_ms);
    if streak_pause {
        (false, spec_reason_loss_streak(consecutive_losses,
            LOSS_STREAK_PAUSE_MINUTES - spec_minutes_between(last_trade_ms->0, now_ms)))
    } else if daily_trade_count >= DAILY_TRADE_LIMIT {
        (false, spec_reason_daily_limit(daily_trade_count))
    } else if 16 <= hour < 20 {
        (false, spec_reason_night())
    } else if recent_count >= 5 && average == RecentAverage::BelowMinusTwo {
        (false, spec_reason_poor_results(avg_text))
    } else {
        (true, spec_reason_ok())
    }
}

/// `a - b`, or 0 when `b > a`.
pub open spec fn spec_sat_sub(a: int, b: int) -> int {
    if a >= b { a - b } else { 0 }
}

/// The safety score (0..=100, higher is safer): 100, less 15 per loss in
/// a row, less 20 (average below -1%) or 10 (average below 0%) once three
/// trades are recorded, less 15 (over 15 trades today) or 10 (over 10).
pub open spec fn spec_safety_score(
    consecutive_losses: nat,
    recent_count: nat,
    average: RecentAverage,
    daily_trade_count: nat,
) -> int {
    let s1 = spec_sat_sub(100, (consecutive_losses * 15) as int);
    let s2 = if recent_count >= 3 {
        match average {
            RecentAverage::BelowMinusTwo => spec_sat_sub(s1, 20),
            RecentAverage::BelowMinusOne => spec_sat_sub(s1, 20),
            RecentAverage::BelowZero => spec_sat_sub(s1, 10),
            RecentAverage::NotNegative => s1,
        }
    } else {
        s1
    };
    if daily_trade_count > 15 {
        spec_sat_sub(s2, 15)
    } else if daily_trade_count > 10 {
        spec_sat_sub(s2, 10)
    } else {
        s2
    }
}

/// Safeguards for live trading: losing streaks, the daily trade count and
/// the record of recent trades. `T` is what is recorded of each trade.
pub struct MarketConditionAnalyzer<T> {
    recent_trades: BoundedHistory<T>,
    consecutive_losses: usize,
    daily_trade_count: usize,
    last_trade_time_ms: Option<i64>,
    last_reset_day: Option<i64>,
}

impl<T> MarketConditionAnalyzer<T> {
    /// The record of recent trades, oldest first.
    pub closed spec fn spec_recent(&self) -> Seq<T> {
        self.recent_trades@
    }

    pub closed spec fn spec_consecutive_losses(&self) -> nat {
        self.consecutive_losses as nat
    }

    pub closed spec fn spec_daily_trade_count(&self) -> nat {
        self.daily_trade_count as nat
    }

    pub closed spec fn spec_last_trade_time_ms(&self) -> Option<int> {
        match self.last_trade_time_ms {
            Some(t) => Some(t as int),
            None => None,
        }
    }

    pub closed spec fn spec_last_reset_day(&self) -> Option<int> {
        match self.last_reset_day {
            Some(d) => Some(d as int),
            None => None,
        }
    }

    /// The record holds at most `MAX_TRADE_HISTORY` trades.
    pub closed spec fn wf(&self) -> bool {
        &&& self.recent_trades.wf()
        &&& self.recent_trades.spec_capacity() == MAX_TRADE_HISTORY
    }

    /// A fresh analyzer: no trades, no losses, no daily reset yet.
    pub fn new() -> (a: Self)
        ensures
            a.wf(),
            a.spec_recent() == Seq::<T>::empty(),
            a.spec_consecutive_losses() == 0,
            a.spec_daily_trade_count() == 0,
            a.spec_last_trade_time_ms() is None,
            a.spec_last_reset_day() is None,
    {
        MarketConditionAnalyzer {
            recent_trades: BoundedHistory::new(MAX_TRADE_HISTORY),
            consecutive_losses: 0,
            daily_trade_count: 0,
            last_trade_time_ms: None,
            last_reset_day: None,
        }
    }

    /// Records a closed trade `outcome`, made at `now_ms`: a loss extends
    /// the losing streak, anything else ends it; the daily count grows by one.
    pub fn record_trade(&mut self, outcome: T, is_loss: bool, now_ms: i64)
        requires
            old(self).wf(),
            old(self).spec_consecutive_losses() < usize::MAX,
            old(self).spec_daily_trade_count() < usize::MAX,
        ensures
            final(self).wf(),
            final(self).spec_recent() == spec_keep_last(old(self).spec_recent().push(outcome), MAX_TRADE_HISTORY as nat),
            final(self).spec_consecutive_losses() == if is_loss { old(self).spec_consecutive_losses() + 1 } else { 0 },
            final(self).spec_daily_trade_count() == old(self).spec_daily_trade_count() + 1,
            final(self).spec_last_trade_time_ms() == Some(now_ms as int),
            final(self).spec_last_reset_day() == old(self).spec_last_reset_day(),
    {
        self.recent_trades.push(outcome);
        if is_loss {
            self.consecutive_losses = self.consecutive_losses + 1;
        } else {
            self.consecutive_losses = 0;
        }
        self.daily_trade_count = self.daily_trade_count + 1;
        self.last_trade_time_ms = Some(now_ms);
    }

    /// Sets the daily trade count back to zero.
    pub fn reset_daily_counter(&mut self)
        requires
            old(self).wf(),
        ensures
            final(self).wf(),
            final(self).spec_daily_trade_count() == 0,
            final(self).spec_recent() == old(self).spec_recent(),
            final(self).spec_consecutive_losses() == old(self).spec_consecutive_losses(),
            final(self).spec_last_trade_time_ms() == old(self).spec_last_trade_time_ms(),
            final(self).spec_last_reset_day() == old(self).spec_last_reset_day(),
    {
        self.daily_trade_count = 0;
    }

    /// Resets the daily count when `now_ms` falls on another UTC date than
    /// the last reset; the first call only notes the date.
    pub fn auto_reset_daily_if_needed(&mut self, now_ms: i64)
        requires
            old(self).wf(),
        ensures
            final(self).wf(),
            final(self).spec_last_reset_day() == Some(spec_utc_day(now_ms as int)),
            final(self).spec_daily_trade_count() == (
                if old(self).spec_last_reset_day() is Some
                    && old(self).spec_last_reset_day()->0 != spec_utc_day(now_ms as int) {
                    0
                } else {
                    old(self).spec_daily_trade_count()
                }),
            final(self).spec_recent() == old(self).spec_recent(),
            final(self).spec_consecutive_losses() == old(self).spec_consecutive_losses(),
            final(self).spec_last_trade_time_ms() == old(self).spec_last_trade_time_ms(),
    {
        let today = utc_day(now_ms);
        match self.last_reset_day {
            Some(last) => {
                if last != today {
                    self.reset_daily_counter();
                    self.last_reset_day = Some(today);
                }
            },
            None => {
                self.last_reset_day = Some(today);
            },
        }
    }

    /// Whether a new trade may be opened at `now_ms`. `average` is the band
    /// of the recorded trades' average profit rate and `avg_text` that
    /// average as it is to be shown.
    pub fn can_trade(&self, now_ms: i64, average: RecentAverage, avg_text: &str) -> (r: TradingRestriction)
        requires
            self.wf(),
        ensures
            (r.can_trade, r.reason@) == spec_can_trade(
                self.spec_consecutive_losses(),
                self.spec_last_trade_time_ms(),
                self.spec_daily_trade_count(),
                now_ms as int,
                self.spec_recent().len(),
                average,
                avg_text@,
            ),
    {
        if self.consecutive_losses >= LOSS_STREAK_LIMIT {
            if let Some(last_time) = self.last_trade_time_ms {
                let elapsed = minutes_between(last_time, now_ms);
                if elapsed < LOSS_STREAK_PAUSE_MINUTES {
                    let mut reason = String::new();
                    reason.append("연속 ");
                    push_dec_u128(&mut reason, self.consecutive_losses as u128);
                    reason.append("회 손실. ");
                    push_dec_i64(&mut reason, LOSS_STREAK_PAUSE_MINUTES - elapsed);
                    reason.append("분 후 재개 가능");
                    assert(reason@ =~= spec_reason_loss_streak(
                        self.consecutive_losses as nat,
                        LOSS_STREAK_PAUSE_MINUTES - elapsed,
                    ));
                    return TradingRestriction { can_trade: false, reason };
                }
            }
        }
        if self.daily_trade_count >= DAILY_TRADE_LIMIT {
            let mut reason = String::new();
            reason.append("일일 거래 한도 초과 (");
            push_dec_u128(&mut reason, self.daily_trade_count as u128);
            reason.append("/20)");
            assert(reason@ =~= spec_reason_daily_limit(self.daily_trade_count as nat));
            return TradingRestriction { can_trade: false, reason };
        }
        let hour = utc_hour(now_ms);
        if 16 <= hour && hour < 20 {
            return TradingRestriction { can_trade: false, reason: String::from_str("새벽 시간대 (거래량 부족)") };
        }
        if self.recent_trades.len() >= 5 && average == RecentAverage::BelowMinusTwo {
            let mut reason = String::new();
            reason.append("최근 평균 수익률 부진 (");
            reason.append(avg_text);
            reason.append("%)");
            assert(reason@ =~= spec_reason_poor_results(avg_text@));
            return TradingRestriction { can_trade: false, reason };
        }
        TradingRestriction { can_trade: true, reason: String::from_str("정상") }
    }

    /// The safety score, given the band of the recorded trades' average
    /// profit rate.
    pub fn calculate_safety_score(&self, average: RecentAverage) -> (score: u8)
        requires
            self.wf(),
        ensures
            score as int == spec_safety_score(
                self.spec_consecutive_losses(),
                self.spec_recent().len(),
                average,
                self.spec_daily_trade_count(),
            ),
    {
        let mut score: u8 = if self.consecutive_losses >= 7 {
            0
        } else {
            100 - (self.consecutive_losses as u8) * 15
        };
        if self.recent_trades.len() >= 3 {
            match average {
                RecentAverage::BelowMinusTwo | RecentAverage::BelowMinusOne => {
                    score = score.saturating_sub(20);
                },
                RecentAverage::BelowZero => {
                    score = score.saturating_sub(10);
                },
                RecentAverage::NotNegative => {},
            }
        }
        if self.daily_trade_count > 15 {
            score = score.saturating_sub(15);
        } else if self.daily_trade_count > 10 {
            score = score.saturating_sub(10);
        }
        score
    }

    /// The record of recent trades.
    pub fn recent_trades(&self) -> (h: &BoundedHistory<T>)
        ensures
            h@ == self.spec_recent(),
            self.wf() ==> h.wf(),
    {
        &self.recent_trades
    }

    /// Losses in a row, counting back from the last trade.
    pub fn consecutive_losses(&self) -> (n: usize)
        ensures
            n == self.spec_consecutive_losses(),
    {
        self.consecutive_losses
    }

    /// Trades since the last daily reset.
    pub fn daily_trade_count(&self) -> (n: usize)
        ensures
            n == self.spec_daily_trade_count(),
    {
        self.daily_trade_count
    }

    /// When the last trade was recorded.
    pub fn last_trade_time_ms(&self) -> (t: Option<i64>)
        ensures
            t matches Some(v) ==> self.spec_last_trade_time_ms() == Some(v as int),
            t is None ==> self.spec_last_trade_time_ms() is None,
    {
        self.last_trade_time_ms
    }
}


/// The safety score lies in 0..=100; it is 100 with no losing streak,
/// fewer than three recorded trades (or a non-negative average) and at
/// most ten trades today; a longer losing streak never raises it, and a
/// streak of seven or more losses brings it to 0.
pub proof fn lemma_safety_score(
    losses: nat,
    more_losses: nat,
    recent_count: nat,
    average: RecentAverage,
    daily_trade_count: nat,
)
    requires
        losses <= more_losses,
    ensures
        0 <= spec_safety_score(losses, recent_count, average, daily_trade_count) <= 100,
        spec_safety_score(more_losses, recent_count, average, daily_trade_count)
            <= spec_safety_score(losses, recent_count, average, daily_trade_count),
        (recent_count < 3 || average == RecentAverage::NotNegative) && daily_trade_count <= 10
            ==> spec_safety_score(0, recent_count, average, daily_trade_count) == 100,
        losses >= 7 ==> spec_safety_score(losses, recent_count, average, daily_trade_count) == 0,
{
    assert(losses * 15 <= more_losses * 15) by (nonlinear_arith)
        requires losses <= more_losses;
    assert(losses >= 7 ==> losses * 15 >= 105) by (nonlinear_arith);
}

/// Trading is allowed only when no safeguard trips: no losing streak of
/// three or more within the last hour, fewer than 20 trades today, not
/// between 01:00 and 05:00 KST (16:00-20:00 UTC), and not five or more
/// recorded trades averaging below -2%; the reason is then "정상".
pub proof fn lemma_can_trade_safeguards(
    consecutive_losses: nat,
    last_trade_ms: Option<int>,
    daily_trade_count: nat,
    now_ms: int,
    recent_count: nat,
    average: RecentAverage,
    avg_text: Seq<char>,
)
    ensures
        ({
            let (ok, reason) = spec_can_trade(consecutive_losses, last_trade_ms, daily_trade_count, now_ms,
                recent_count, average, avg_text);
            ok <==> {
                &&& !(consecutive_losses >= LOSS_STREAK_LIMIT && last_trade_ms is Some
                    && spec_minutes_between(last_trade_ms->0, now_ms) < LOSS_STREAK_PAUSE_MINUTES)
                &&& daily_trade_count < DAILY_TRADE_LIMIT
                &&& !(16 <= spec_utc_hour(now_ms) < 20)
                &&& !(recent_count >= 5 && average == RecentAverage::BelowMinusTwo)
            }
        }),
        spec_can_trade(consecutive_losses, last_trade_ms, daily_trade_count, now_ms, recent_count, average,
            avg_text).0 ==> spec_can_trade(consecutive_losses, last_trade_ms, daily_trade_count, now_ms,
            recent_count, average, avg_text).1 == spec_reason_ok(),
{
}


/// The safety score is 100 less all its deductions, floored at 0: 15 per
/// loss in a row; once three trades are recorded, 20 for an average profit
/// below -1% (whether below -2% or not) and 10 for one between -1% and 0%;
/// 15 for more than 15 trades today, else 10 for more than 10. A worse
/// average band never raises the score.
pub proof fn lemma_safety_score_deductions(
    losses: nat,
    recent_count: nat,
    average: RecentAverage,
    daily_trade_count: nat,
)
    ensures
        ({
            let recent_penalty: int = if recent_count < 3 || average == RecentAverage::NotNegative {
                0
            } else if average == RecentAverage::BelowZero {
                10
            } else {
                20
            };
            let daily_penalty: int = if daily_trade_count > 15 {
                15
            } else if daily_trade_count > 10 {
                10
            } else {
                0
            };
            let raw = 100 - 15 * losses - recent_penalty - daily_penalty;
            spec_safety_score(losses, recent_count, average, daily_trade_count) == if raw > 0 { raw } else { 0 }
        }),
        recent_count >= 3 ==> spec_safety_score(losses, recent_count, RecentAverage::BelowMinusTwo, daily_trade_count)
            == spec_safety_score(losses, recent_count, RecentAverage::BelowMinusOne, daily_trade_count),
        spec_safety_score(losses, recent_count, RecentAverage::BelowMinusOne, daily_trade_count)
            <= spec_safety_score(losses, recent_count, RecentAverage::BelowZero, daily_trade_count),
        spec_safety_score(losses, recent_count, RecentAverage::BelowZero, daily_trade_count)
            <= spec_safety_score(losses, recent_count, RecentAverage::NotNegative, daily_trade_count),
        recent_count >= 3 && losses == 0 && daily_trade_count <= 10 ==>
            spec_safety_score(losses, recent_count, RecentAverage::BelowMinusTwo, daily_trade_count) == 80,
{
}

} // verus!
