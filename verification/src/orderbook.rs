use vstd::prelude::*;

verus! {

/// The trading signal read from the order book.
#[derive(Debug, Clone, Copy, PartialEq, Eq, Structural)]
pub enum OrderBookSignal {
    StrongBuy,
    Buy,
    Neutral,
    Sell,
    StrongSell,
}

} // verus!
