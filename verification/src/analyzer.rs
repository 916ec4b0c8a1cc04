use vstd::prelude::*;
use crate::indicators::{is_buy, spec_is_buy, SignalType};
use crate::text::{push_dec_u128, spec_dec_nat};

verus! {

/// What to do with an open position.
#[derive(Debug, Clone, Copy, PartialEq, Eq, Structural)]
pub enum PositionStatus {
    Hold,
    TakeProfit,
    StopLoss,
}

/// The label the moving-average cross detector gives a golden cross; the
/// indicator score rewards it.
pub open spec fn spec_golden_cross_label() -> Seq<char> {
    "golden_cross"@
}

/// The indicator score (0..=4): one point each for a buying MACD signal,
/// a buying Bollinger signal, a golden cross and a buying RSI signal.
pub open spec fn spec_indicator_score(
    rsi: SignalType,
    macd: SignalType,
    bollinger: SignalType,
    ma_cross: Option<Seq<char>>,
) -> nat {
    (if spec_is_buy(macd) { 1nat } else { 0nat })
        + (if spec_is_buy(bollinger) { 1nat } else { 0nat })
        + (if ma_cross == Some(spec_golden_cross_label()) { 1nat } else { 0nat })
        + (if spec_is_buy(rsi) { 1nat } else { 0nat })
}

/// The indicator part of a buy decision.
#[derive(Debug, Clone)]
pub enum IndicatorVerdict {
    /// No buy, for this reason.
    Rejected { reason: String },
    /// Buy; `score` is the indicator score.
    Buy { score: u8 },
}

/// The reason of a rejection for too few positive indicators.
pub open spec fn spec_weak_indicators_reason(score: nat) -> Seq<char> {
    "기술적 지표 신호 부족 (점수: "@ + spec_dec_nat(score) + ")"@
}

/// The final step of the buy-signal analysis, once the candle checks
/// passed: refuse when RSI is selling (overbought); otherwise buy when the
/// indicator score is at least 2, or the candles show a reversal, or the
/// volume is at least twice the average (`strong_volume`).
pub fn indicator_verdict(
    rsi: SignalType,
    macd: SignalType,
    bollinger: SignalType,
    ma_cross: Option<&str>,
    is_reversal: bool,
    strong_volume: bool,
) -> (v: IndicatorVerdict)
    ensures
        ({
            let score = spec_indicator_score(rsi, macd, bollinger, match ma_cross { Some(m) => Some(m@), None => None });
            if rsi == SignalType::Sell {
                v matches IndicatorVerdict::Rejected { reason } && reason@ == "RSI 과매수 구간"@
            } else if score >= 2 || is_reversal || strong_volume {
                v == (IndicatorVerdict::Buy { score: score as u8 })
            } else {
                v matches IndicatorVerdict::Rejected { reason } && reason@ == spec_weak_indicators_reason(score)
            }
        }),
{
    if rsi == SignalType::Sell {
        return IndicatorVerdict::Rejected { reason: String::from_str("RSI 과매수 구간") };
    }
    let golden = match ma_cross {
        Some(m) => String::from_str(m) == String::from_str("golden_cross"),
        None => false,
    };
    let score: u8 = (if is_buy(macd) { 1u8 } else { 0u8 }) + (if is_buy(bollinger) { 1u8 } else { 0u8 })
        + (if golden { 1u8 } else { 0u8 }) + (if is_buy(rsi) { 1u8 } else { 0u8 });
    if score >= 2 || is_reversal || strong_volume {
        return IndicatorVerdict::Buy { score };
    }
    let mut reason = String::from_str("기술적 지표 신호 부족 (점수: ");
    push_dec_u128(&mut reason, score as u128);
    reason.append(")");
    assert(reason@ =~= spec_weak_indicators_reason(score as nat));
    IndicatorVerdict::Rejected { reason }
}

/// Whether a position should be closed.
pub fn should_close(status: PositionStatus) -> (b: bool)
    ensures
        b == (status == PositionStatus::TakeProfit || status == PositionStatus::StopLoss),
{
    status == PositionStatus::TakeProfit || status == PositionStatus::StopLoss
}


/// The indicator score counts one point per positive indicator: nothing
/// for all-neutral signals and no cross; a golden cross (as the detector
/// labels it) adds exactly one point and any other label none; a buying
/// (Buy or StrongBuy) MACD, Bollinger or RSI signal adds exactly one point
/// over a neutral one.
pub proof fn lemma_indicator_score_points(
    rsi: SignalType,
    macd: SignalType,
    bollinger: SignalType,
    other_label: Seq<char>,
)
    requires
        other_label != "golden_cross"@,
    ensures
        spec_indicator_score(SignalType::Neutral, SignalType::Neutral, SignalType::Neutral, None) == 0,
        spec_indicator_score(rsi, macd, bollinger, Some("golden_cross"@))
            == spec_indicator_score(rsi, macd, bollinger, None) + 1,
        spec_indicator_score(rsi, macd, bollinger, Some(other_label))
            == spec_indicator_score(rsi, macd, bollinger, None),
        (macd == SignalType::Buy || macd == SignalType::StrongBuy) ==>
            spec_indicator_score(rsi, macd, bollinger, None)
                == spec_indicator_score(rsi, SignalType::Neutral, bollinger, None) + 1,
        (bollinger == SignalType::Buy || bollinger == SignalType::StrongBuy) ==>
            spec_indicator_score(rsi, macd, bollinger, None)
                == spec_indicator_score(rsi, macd, SignalType::Neutral, None) + 1,
        (rsi == SignalType::Buy || rsi == SignalType::StrongBuy) ==>
            spec_indicator_score(rsi, macd, bollinger, None)
                == spec_indicator_score(SignalType::Neutral, macd, bollinger, None) + 1,
        !(macd == SignalType::Buy || macd == SignalType::StrongBuy) ==>
            spec_indicator_score(rsi, macd, bollinger, None)
                == spec_indicator_score(rsi, SignalType::Neutral, bollinger, None),
        !(bollinger == SignalType::Buy || bollinger == SignalType::StrongBuy) ==>
            spec_indicator_score(rsi, macd, bollinger, None)
                == spec_indicator_score(rsi, macd, SignalType::Neutral, None),
        !(rsi == SignalType::Buy || rsi == SignalType::StrongBuy) ==>
            spec_indicator_score(rsi, macd, bollinger, None)
                == spec_indicator_score(SignalType::Neutral, macd, bollinger, None),
{
}

} // verus!
