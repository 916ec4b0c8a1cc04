use vstd::prelude::*;

verus! {

/// A trading signal of a technical indicator.
#[derive(Debug, Clone, Copy, PartialEq, Eq, Structural)]
pub enum SignalType {
    StrongBuy,
    Buy,
    Neutral,
    Sell,
    StrongSell,
}

/// A buying signal (Buy or StrongBuy).
pub open spec fn spec_is_buy(s: SignalType) -> bool {
    s == SignalType::Buy || s == SignalType::StrongBuy
}

/// A selling signal (Sell or StrongSell).
pub open spec fn spec_is_sell(s: SignalType) -> bool {
    s == SignalType::Sell || s == SignalType::StrongSell
}

/// Number of buying signals among three.
pub open spec fn spec_buy_count(a: SignalType, b: SignalType, c: SignalType) -> nat {
    (if spec_is_buy(a) { 1nat } else { 0nat }) + (if spec_is_buy(b) { 1nat } else { 0nat })
        + (if spec_is_buy(c) { 1nat } else { 0nat })
}

/// Number of selling signals among three.
pub open spec fn spec_sell_count(a: SignalType, b: SignalType, c: SignalType) -> nat {
    (if spec_is_sell(a) { 1nat } else { 0nat }) + (if spec_is_sell(b) { 1nat } else { 0nat })
        + (if spec_is_sell(c) { 1nat } else { 0nat })
}

/// Whether `s` is a buying signal.
pub fn is_buy(s: SignalType) -> (b: bool)
    ensures
        b == spec_is_buy(s),
{
    s == SignalType::Buy || s == SignalType::StrongBuy
}

/// Whether `s` is a selling signal.
pub fn is_sell(s: SignalType) -> (b: bool)
    ensures
        b == spec_is_sell(s),
{
    s == SignalType::Sell || s == SignalType::StrongSell
}

/// The overall signal of the RSI, MACD and Bollinger signals: Buy when at
/// least two of them buy, else Sell when at least two sell, else Neutral.
pub fn combine_signals(rsi: SignalType, macd: SignalType, bollinger: SignalType) -> (s: SignalType)
    ensures
        s == (if spec_buy_count(rsi, macd, bollinger) >= 2 {
            SignalType::Buy
        } else if spec_sell_count(rsi, macd, bollinger) >= 2 {
            SignalType::Sell
        } else {
            SignalType::Neutral
        }),
{
    let buy_count: u8 = (if is_buy(rsi) { 1u8 } else { 0u8 }) + (if is_buy(macd) { 1u8 } else { 0u8 })
        + (if is_buy(bollinger) { 1u8 } else { 0u8 });
    let sell_count: u8 = (if is_sell(rsi) { 1u8 } else { 0u8 }) + (if is_sell(macd) { 1u8 } else { 0u8 })
        + (if is_sell(bollinger) { 1u8 } else { 0u8 });
    if buy_count >= 2 {
        SignalType::Buy
    } else if sell_count >= 2 {
        SignalType::Sell
    } else {
        SignalType::Neutral
    }
}

/// The combined signal is never both buying and selling: at most one of
/// "two buy" and "two sell" holds among three signals, and a Buy verdict
/// needs a majority of buying signals.
pub proof fn lemma_combine_majority(rsi: SignalType, macd: SignalType, bollinger: SignalType)
    ensures
        !(spec_buy_count(rsi, macd, bollinger) >= 2 && spec_sell_count(rsi, macd, bollinger) >= 2),
        spec_buy_count(rsi, macd, bollinger) + spec_sell_count(rsi, macd, bollinger) <= 3,
{
}


/// The combined signal is Buy exactly when at least two of the three
/// signals are Buy or StrongBuy; otherwise it is Sell exactly when at
/// least two are Sell or StrongSell; otherwise Neutral.
pub proof fn lemma_combine_votes(rsi: SignalType, macd: SignalType, bollinger: SignalType)
    ensures
        ({
            let b = |s: SignalType| s == SignalType::Buy || s == SignalType::StrongBuy;
            let x = |s: SignalType| s == SignalType::Sell || s == SignalType::StrongSell;
            let two_buy = (b(rsi) && b(macd)) || (b(rsi) && b(bollinger)) || (b(macd) && b(bollinger));
            let two_sell = (x(rsi) && x(macd)) || (x(rsi) && x(bollinger)) || (x(macd) && x(bollinger));
            &&& spec_buy_count(rsi, macd, bollinger) >= 2 <==> two_buy
            &&& spec_sell_count(rsi, macd, bollinger) >= 2 <==> two_sell
        }),
{
}

} // verus!
