//! Verified core of an Upbit trading bot: request signing and request
//! building, risk safeguards, the buy and sell decision flows, candle
//! bucketing and bounded histories.

pub mod analyzer;
pub mod auth;
pub mod clock;
pub mod encoding;
pub mod history;
pub mod indicators;
pub mod market_conditions;
pub mod orderbook;
pub mod text;
pub mod trading;
pub mod upbit_client;
pub mod volume_profile;
pub mod websocket;
