use vstd::prelude::*;

verus! {

/// The trading signal read from the volume profile and VWAP.
#[derive(Debug, Clone, Copy, PartialEq, Eq, Structural)]
pub enum VolumeProfileSignalType {
    StrongBullish,
    BuyOpportunity,
    Neutral,
    Consolidation,
    SellOpportunity,
    StrongBearish,
}

} // verus!
