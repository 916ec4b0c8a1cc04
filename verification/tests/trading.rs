use upbit_trading_bot::analyzer::{indicator_verdict, should_close, IndicatorVerdict, PositionStatus};
use upbit_trading_bot::indicators::SignalType::{Buy, Neutral, Sell, StrongBuy, StrongSell};
use upbit_trading_bot::indicators::combine_signals;
use upbit_trading_bot::market_conditions::{MarketCondition, MarketConditionAnalyzer, RecentAverage};
use upbit_trading_bot::trading::{
    buy_check_due, buy_precheck, classify_order_state, currency_of, BuyAction, BuyEvent, BuyFlow,
    BuyPrecheck, BuyState, OrderState, SellAction, SellEvent, SellFlow, SellState,
};

const NOON_KST_MS: i64 = 1_704_078_000_000;

#[test]
fn currency_strips_krw_prefix() {
    assert_eq!(currency_of("KRW-BTC"), "BTC");
    assert_eq!(currency_of("BTC-ETH"), "BTC-ETH");
    assert_eq!(currency_of("KRW-KRW-X"), "X");
    assert_eq!(currency_of("KRKRW--"), "KR-");
    assert_eq!(currency_of(""), "");
}

#[test]
fn order_states() {
    assert_eq!(classify_order_state("done"), OrderState::Done);
    assert_eq!(classify_order_state("cancel"), OrderState::Cancelled);
    assert_eq!(classify_order_state("wait"), OrderState::Pending);
    assert_eq!(classify_order_state("DONE"), OrderState::Pending);
}

#[test]
fn precheck_order_of_checks() {
    let mut a: MarketConditionAnalyzer<f64> = MarketConditionAnalyzer::new();
    let avg = RecentAverage::NotNegative;
    assert_eq!(buy_precheck(true, &a, NOON_KST_MS, avg, "0", MarketCondition::Bullish, true), BuyPrecheck::HasPosition);
    assert_eq!(buy_precheck(false, &a, NOON_KST_MS, avg, "0", MarketCondition::Bearish, true), BuyPrecheck::BearishMarket);
    assert_eq!(
        buy_precheck(false, &a, NOON_KST_MS, avg, "0", MarketCondition::HighVolatility, true),
        BuyPrecheck::HighVolatility
    );
    assert_eq!(buy_precheck(false, &a, NOON_KST_MS, avg, "0", MarketCondition::Neutral, false), BuyPrecheck::NoSignal);
    assert_eq!(buy_precheck(false, &a, NOON_KST_MS, avg, "0", MarketCondition::Neutral, true), BuyPrecheck::Proceed);
    // four losses, each more than an hour ago: trading allowed, score 40
    for _ in 0..4 {
        a.record_trade(-0.1, true, NOON_KST_MS - 7_200_000);
    }
    assert_eq!(
        buy_precheck(false, &a, NOON_KST_MS, avg, "0", MarketCondition::Neutral, true),
        BuyPrecheck::LowSafetyScore { score: 40 }
    );
    assert_eq!(
        buy_precheck(false, &a, NOON_KST_MS - 7_100_000, avg, "0", MarketCondition::Neutral, true),
        BuyPrecheck::Restricted
    );
}

fn run_buy(events: &[BuyEvent]) -> (Vec<BuyAction>, BuyState) {
    let mut f = BuyFlow::new();
    let actions = events.iter().map(|e| f.step(*e)).collect();
    (actions, f.state())
}

#[test]
fn buy_flow_happy_path() {
    let (actions, state) = run_buy(&[
        BuyEvent::Begin { proceed: true },
        BuyEvent::KrwBalance { sufficient: true, amount_ok: true },
        BuyEvent::PriceFetched,
        BuyEvent::OrderSubmitted { accepted: true },
        BuyEvent::OrderStatus { state: Some(OrderState::Pending) },
        BuyEvent::OrderStatus { state: None },
        BuyEvent::OrderStatus { state: Some(OrderState::Done) },
        BuyEvent::HoldingFetched { positive: true },
    ]);
    assert_eq!(
        actions,
        vec![
            BuyAction::FetchKrwBalance,
            BuyAction::FetchPrice,
            BuyAction::SubmitOrder,
            BuyAction::CheckOrder { wait_ms: 500 },
            BuyAction::CheckOrder { wait_ms: 1000 },
            BuyAction::CheckOrder { wait_ms: 1500 },
            BuyAction::FetchHolding,
            BuyAction::Finish { bought: true },
        ]
    );
    assert_eq!(state, BuyState::Finished { bought: true });
}

#[test]
fn buy_flow_gives_up_after_five_checks() {
    let mut events = vec![
        BuyEvent::Begin { proceed: true },
        BuyEvent::KrwBalance { sufficient: true, amount_ok: true },
        BuyEvent::PriceFetched,
        BuyEvent::OrderSubmitted { accepted: true },
    ];
    for _ in 0..5 {
        events.push(BuyEvent::OrderStatus { state: Some(OrderState::Pending) });
    }
    let (actions, state) = run_buy(&events);
    let waits: Vec<u64> = actions
        .iter()
        .filter_map(|a| if let BuyAction::CheckOrder { wait_ms } = a { Some(*wait_ms) } else { None })
        .collect();
    assert_eq!(waits, vec![500, 1000, 1500, 2000, 2500]);
    assert_eq!(*actions.last().unwrap(), BuyAction::Finish { bought: false });
    assert_eq!(state, BuyState::Finished { bought: false });
}

#[test]
fn buy_flow_stops_on_each_refusal() {
    assert_eq!(run_buy(&[BuyEvent::Begin { proceed: false }]).1, BuyState::Finished { bought: false });
    let (a, _) = run_buy(&[
        BuyEvent::Begin { proceed: true },
        BuyEvent::KrwBalance { sufficient: true, amount_ok: false },
    ]);
    assert_eq!(a[1], BuyAction::Finish { bought: false });
    let (a, _) = run_buy(&[
        BuyEvent::Begin { proceed: true },
        BuyEvent::KrwBalance { sufficient: true, amount_ok: true },
        BuyEvent::PriceFetched,
        BuyEvent::OrderSubmitted { accepted: true },
        BuyEvent::OrderStatus { state: Some(OrderState::Cancelled) },
    ]);
    assert_eq!(a[4], BuyAction::Finish { bought: false });
    let (_, s) = run_buy(&[
        BuyEvent::Begin { proceed: true },
        BuyEvent::KrwBalance { sufficient: true, amount_ok: true },
        BuyEvent::PriceFetched,
        BuyEvent::OrderSubmitted { accepted: true },
        BuyEvent::OrderStatus { state: Some(OrderState::Done) },
        BuyEvent::HoldingFetched { positive: false },
    ]);
    assert_eq!(s, BuyState::Finished { bought: false });
    // an event out of turn ends the buy
    assert_eq!(run_buy(&[BuyEvent::PriceFetched]).1, BuyState::Finished { bought: false });
}

fn run_sell(events: &[SellEvent]) -> (Vec<SellAction>, SellState) {
    let mut f = SellFlow::new();
    let actions = events.iter().map(|e| f.step(*e)).collect();
    (actions, f.state())
}

#[test]
fn sell_flow_records_a_filled_sell() {
    let (a, s) = run_sell(&[
        SellEvent::Begin { has_position: true },
        SellEvent::PriceFetched,
        SellEvent::HoldingFetched { zero: false },
        SellEvent::OrderSubmitted { accepted: true },
        SellEvent::OrderStatus { state: Some(OrderState::Done) },
    ]);
    assert_eq!(
        a,
        vec![
            SellAction::FetchPrice,
            SellAction::FetchHolding,
            SellAction::SubmitOrder,
            SellAction::CheckOrder { wait_ms: 500 },
            SellAction::Finish { sold: true, clear_position: true, record_trade: true },
        ]
    );
    assert_eq!(s, SellState::Finished { sold: true });
}

#[test]
fn sell_flow_keeps_position_when_not_confirmed() {
    let (a, _) = run_sell(&[SellEvent::Begin { has_position: false }]);
    assert_eq!(a[0], SellAction::Finish { sold: false, clear_position: false, record_trade: false });
    let (a, _) = run_sell(&[
        SellEvent::Begin { has_position: true },
        SellEvent::PriceFetched,
        SellEvent::HoldingFetched { zero: true },
    ]);
    assert_eq!(a[2], SellAction::Finish { sold: false, clear_position: true, record_trade: false });
    let (a, _) = run_sell(&[
        SellEvent::Begin { has_position: true },
        SellEvent::PriceFetched,
        SellEvent::HoldingFetched { zero: false },
        SellEvent::OrderSubmitted { accepted: true },
        SellEvent::OrderStatus { state: Some(OrderState::Cancelled) },
    ]);
    assert_eq!(a[4], SellAction::Finish { sold: false, clear_position: false, record_trade: false });
    let mut events = vec![
        SellEvent::Begin { has_position: true },
        SellEvent::PriceFetched,
        SellEvent::HoldingFetched { zero: false },
        SellEvent::OrderSubmitted { accepted: true },
    ];
    for _ in 0..5 {
        events.push(SellEvent::OrderStatus { state: None });
    }
    let (a, s) = run_sell(&events);
    assert_eq!(*a.last().unwrap(), SellAction::Finish { sold: false, clear_position: false, record_trade: false });
    assert_eq!(s, SellState::Finished { sold: false });
}

#[test]
fn buy_checks_are_spaced_a_minute_apart() {
    assert!(buy_check_due(None, 0));
    assert!(!buy_check_due(Some(0), 60_000));
    assert!(!buy_check_due(Some(0), 60_999));
    assert!(buy_check_due(Some(0), 61_000));
    assert!(!buy_check_due(Some(61_000), 0));
}

#[test]
fn combined_signal_needs_two_votes() {
    assert_eq!(combine_signals(Buy, StrongBuy, Sell), Buy);
    assert_eq!(combine_signals(Sell, StrongSell, Buy), Sell);
    assert_eq!(combine_signals(Buy, Neutral, Sell), Neutral);
    assert_eq!(combine_signals(Neutral, Neutral, Neutral), Neutral);
}

#[test]
fn indicator_verdicts() {
    match indicator_verdict(Sell, Buy, Buy, None, true, true) {
        IndicatorVerdict::Rejected { reason } => assert_eq!(reason, "RSI 과매수 구간"),
        _ => panic!("expected a rejection"),
    }
    match indicator_verdict(Neutral, Buy, Neutral, None, false, false) {
        IndicatorVerdict::Rejected { reason } => assert_eq!(reason, "기술적 지표 신호 부족 (점수: 1)"),
        _ => panic!("expected a rejection"),
    }
    // MACD and Bollinger buying: a score of 2 is enough
    assert!(matches!(
        indicator_verdict(Neutral, StrongBuy, Buy, None, false, false),
        IndicatorVerdict::Buy { score: 2 }
    ));
    // the golden cross the detector reports scores a point
    assert!(matches!(
        indicator_verdict(Buy, Neutral, Neutral, Some("golden_cross"), false, false),
        IndicatorVerdict::Buy { score: 2 }
    ));
    assert!(matches!(
        indicator_verdict(Neutral, Neutral, Neutral, Some("dead_cross"), false, false),
        IndicatorVerdict::Rejected { .. }
    ));
    // a reversal or volume at twice the average buys on a low score
    assert!(matches!(indicator_verdict(Neutral, Neutral, Neutral, None, true, false), IndicatorVerdict::Buy { score: 0 }));
    assert!(matches!(indicator_verdict(Neutral, Buy, Neutral, None, false, true), IndicatorVerdict::Buy { score: 1 }));
    assert!(matches!(
        indicator_verdict(Buy, Buy, StrongBuy, Some("golden_cross"), false, false),
        IndicatorVerdict::Buy { score: 4 }
    ));
}

#[test]
fn positions_close_on_take_profit_or_stop_loss() {
    assert!(should_close(PositionStatus::TakeProfit));
    assert!(should_close(PositionStatus::StopLoss));
    assert!(!should_close(PositionStatus::Hold));
}
