use vstd::prelude::*;
use crate::clock::{seconds_between, spec_seconds_between};
use crate::market_conditions::{
    spec_can_trade, spec_safety_score, MarketCondition, MarketConditionAnalyzer, RecentAverage,
};
use crate::text::{replace_all, spec_replace_all, spec_starts_with};

verus! {

/// The currency of a KRW market: the code with every "KRW-" removed.
pub open spec fn spec_currency_of(ticker: Seq<char>) -> Seq<char> {
    spec_replace_all(ticker, "KRW-"@, Seq::empty())
}

/// The currency traded in `ticker` ("KRW-BTC" gives "BTC").
pub fn currency_of(ticker: &str) -> (c: String)
    ensures
        c@ == spec_currency_of(ticker@),
{
    proof {
        reveal_strlit("KRW-");
        reveal_strlit("");
        assert(""@ =~= Seq::<char>::empty());
    }
    replace_all(ticker, "KRW-", "")
}

/// Attempts made to see an order filled.
pub const ORDER_CHECK_ATTEMPTS: u64 = 5;
/// The wait before the n-th status check is n times this.
pub const ORDER_CHECK_STEP_MS: u64 = 500;
/// Least safety score at which buying goes ahead.
pub const MIN_SAFETY_SCORE: u8 = 50;
/// Completed candles needed before the buy strategy runs.
pub const MIN_CANDLES_FOR_SIGNAL: usize = 20;
/// Seconds that must pass between two buy checks of the same market.
pub const BUY_CHECK_INTERVAL_SECONDS: i64 = 60;

/// The state of an order, as far as the bot cares.
#[derive(Debug, Clone, Copy, PartialEq, Eq, Structural)]
pub enum OrderState {
    /// Filled ("done").
    Done,
    /// Cancelled ("cancel").
    Cancelled,
    /// Anything else: still waiting.
    Pending,
}

/// Classifies the `state` field of an order.
pub fn classify_order_state(state: &str) -> (s: OrderState)
    ensures
        s == (if state@ == "done"@ {
            OrderState::Done
        } else if state@ == "cancel"@ {
            OrderState::Cancelled
        } else {
            OrderState::Pending
        }),
{
    let st = String::from_str(state);
    if st == String::from_str("done") {
        OrderState::Done
    } else if st == String::from_str("cancel") {
        OrderState::Cancelled
    } else {
        OrderState::Pending
    }
}

/// The outcome of the in-memory checks that precede a buy, in the order
/// they are made.
#[derive(Debug, Clone, Copy, PartialEq, Eq, Structural)]
pub enum BuyPrecheck {
    /// A position is already open.
    HasPosition,
    /// The safeguards forbid trading.
    Restricted,
    /// The market is bearish.
    BearishMarket,
    /// The market is too volatile.
    HighVolatility,
    /// The safety score is below 50.
    LowSafetyScore { score: u8 },
    /// The candles give no buy signal.
    NoSignal,
    /// Every check passed: go on to the balance.
    Proceed,
}

/// The pre-buy decision for the given facts (`score` is the safety score,
/// consulted only when the earlier checks passed).
pub open spec fn spec_buy_precheck(
    has_position: bool,
    can_trade: bool,
    condition: MarketCondition,
    score: int,
    buy_signal: bool,
) -> BuyPrecheck {
    if has_position {
        BuyPrecheck::HasPosition
    } else if !can_trade {
        BuyPrecheck::Restricted
    } else if condition == MarketCondition::Bearish {
        BuyPrecheck::BearishMarket
    } else if condition == MarketCondition::HighVolatility {
        BuyPrecheck::HighVolatility
    } else if score < MIN_SAFETY_SCORE {
        BuyPrecheck::LowSafetyScore { score: score as u8 }
    } else if !buy_signal {
        BuyPrecheck::NoSignal
    } else {
        BuyPrecheck::Proceed
    }
}

/// The checks made before buying, with the analyzer's restriction and
/// safety score at `now_ms`. The safety score is computed only once the
/// earlier checks passed.
pub fn buy_precheck<T>(
    has_position: bool,
    analyzer: &MarketConditionAnalyzer<T>,
    now_ms: i64,
    average: RecentAverage,
    avg_text: &str,
    condition: MarketCondition,
    buy_signal: bool,
) -> (r: BuyPrecheck)
    requires
        analyzer.wf(),
    ensures
        r == spec_buy_precheck(
            has_position,
            spec_can_trade(
                analyzer.spec_consecutive_losses(), analyzer.spec_last_trade_time_ms(),
                analyzer.spec_daily_trade_count(), now_ms as int, analyzer.spec_recent().len(),
                average, avg_text@).0,
            condition,
            spec_safety_score(analyzer.spec_consecutive_losses(), analyzer.spec_recent().len(),
                average, analyzer.spec_daily_trade_count()),
            buy_signal,
        ),
{
    if has_position {
        return BuyPrecheck::HasPosition;
    }
    let restriction = analyzer.can_trade(now_ms, average, avg_text);
    if !restriction.can_trade {
        return BuyPrecheck::Restricted;
    }
    if condition == MarketCondition::Bearish {
        return BuyPrecheck::BearishMarket;
    }
    if condition == MarketCondition::HighVolatility {
        return BuyPrecheck::HighVolatility;
    }
    let score = analyzer.calculate_safety_score(average);
    if score < MIN_SAFETY_SCORE {
        return BuyPrecheck::LowSafetyScore { score };
    }
    if !buy_signal {
        return BuyPrecheck::NoSignal;
    }
    BuyPrecheck::Proceed
}

/// Where a buy stands.
#[derive(Debug, Clone, Copy, PartialEq, Eq, Structural)]
pub enum BuyState {
    Idle,
    AwaitKrwBalance,
    AwaitPrice,
    AwaitSubmission,
    /// Waiting for the `attempt`-th status check (1..=5).
    AwaitStatus { attempt: u64 },
    AwaitHolding,
    Finished { bought: bool },
}

/// What happened, as the bot reports it to the buy flow.
#[derive(Debug, Clone, Copy, PartialEq, Eq, Structural)]
pub enum BuyEvent {
    /// The pre-buy checks: whether they all passed.
    Begin { proceed: bool },
    /// The KRW balance arrived: whether it reaches the configured
    /// minimum, and whether the resulting order amount reaches 5,000 KRW.
    KrwBalance { sufficient: bool, amount_ok: bool },
    /// The current price arrived.
    PriceFetched,
    /// The exchange answered the buy order: accepted or refused.
    OrderSubmitted { accepted: bool },
    /// A status check answered (`None`: the status query failed).
    OrderStatus { state: Option<OrderState> },
    /// The bought currency's balance arrived: whether it is positive.
    HoldingFetched { positive: bool },
}

/// What the bot has to do next for a buy.
#[derive(Debug, Clone, Copy, PartialEq, Eq, Structural)]
pub enum BuyAction {
    FetchKrwBalance,
    FetchPrice,
    SubmitOrder,
    /// Wait `wait_ms`, then query the order's status.
    CheckOrder { wait_ms: u64 },
    /// Query the bought currency's balance and average price.
    FetchHolding,
    /// The buy is over; on `bought` a position is opened.
    Finish { bought: bool },
}

/// One step of the buy flow. An event the state does not wait for ends
/// the flow without buying.
pub open spec fn spec_buy_step(s: BuyState, e: BuyEvent) -> (BuyState, BuyAction) {
    match (s, e) {
        (BuyState::Idle, BuyEvent::Begin { proceed }) =>
            if proceed { (BuyState::AwaitKrwBalance, BuyAction::FetchKrwBalance) }
            else { (BuyState::Finished { bought: false }, BuyAction::Finish { bought: false }) },
        (BuyState::AwaitKrwBalance, BuyEvent::KrwBalance { sufficient, amount_ok }) =>
            if sufficient && amount_ok { (BuyState::AwaitPrice, BuyAction::FetchPrice) }
            else { (BuyState::Finished { bought: false }, BuyAction::Finish { bought: false }) },
        (BuyState::AwaitPrice, BuyEvent::PriceFetched) =>
            (BuyState::AwaitSubmission, BuyAction::SubmitOrder),
        (BuyState::AwaitSubmission, BuyEvent::OrderSubmitted { accepted }) =>
            if accepted { (BuyState::AwaitStatus { attempt: 1 }, BuyAction::CheckOrder { wait_ms: ORDER_CHECK_STEP_MS }) }
            else { (BuyState::Finished { bought: false }, BuyAction::Finish { bought: false }) },
        (BuyState::AwaitStatus { attempt }, BuyEvent::OrderStatus { state }) =>
            if state == Some(OrderState::Done) {
                (BuyState::AwaitHolding, BuyAction::FetchHolding)
            } else if state == Some(OrderState::Cancelled) || attempt >= ORDER_CHECK_ATTEMPTS {
                (BuyState::Finished { bought: false }, BuyAction::Finish { bought: false })
            } else {
                (BuyState::AwaitStatus { attempt: (attempt + 1) as u64 },
                 BuyAction::CheckOrder { wait_ms: (ORDER_CHECK_STEP_MS * (attempt + 1)) as u64 })
            },
        (BuyState::AwaitHolding, BuyEvent::HoldingFetched { positive }) =>
            (BuyState::Finished { bought: positive }, BuyAction::Finish { bought: positive }),
        (BuyState::Finished { bought }, _) => (s, BuyAction::Finish { bought }),
        _ => (BuyState::Finished { bought: false }, BuyAction::Finish { bought: false }),
    }
}

/// A status-check attempt number never exceeds the attempt budget.
pub open spec fn spec_buy_state_ok(s: BuyState) -> bool {
    s matches BuyState::AwaitStatus { attempt } ==> 1 <= attempt <= ORDER_CHECK_ATTEMPTS
}

/// The buy flow after the given events, from `Idle`.
pub open spec fn spec_buy_run(events: Seq<BuyEvent>) -> BuyState
    decreases events.len(),
{
    if events.len() == 0 {
        BuyState::Idle
    } else {
        spec_buy_step(spec_buy_run(events.drop_last()), events.last()).0
    }
}

/// The buy flow: the decisions of a buy, one event at a time.
pub struct BuyFlow {
    state: BuyState,
}

impl BuyFlow {
    pub closed spec fn spec_state(&self) -> BuyState {
        self.state
    }

    /// A buy that has not started.
    pub fn new() -> (f: Self)
        ensures
            f.spec_state() == BuyState::Idle,
    {
        BuyFlow { state: BuyState::Idle }
    }

    /// Where the buy stands.
    pub fn state(&self) -> (s: BuyState)
        ensures
            s == self.spec_state(),
    {
        self.state
    }

    /// Feeds `event` to the flow and returns what to do next.
    pub fn step(&mut self, event: BuyEvent) -> (a: BuyAction)
        requires
            spec_buy_state_ok(old(self).spec_state()),
        ensures
            (final(self).spec_state(), a) == spec_buy_step(old(self).spec_state(), event),
            spec_buy_state_ok(final(self).spec_state()),
    {
        let (next, action) = match (self.state, event) {
            (BuyState::Idle, BuyEvent::Begin { proceed }) => {
                if proceed {
                    (BuyState::AwaitKrwBalance, BuyAction::FetchKrwBalance)
                } else {
                    (BuyState::Finished { bought: false }, BuyAction::Finish { bought: false })
                }
            },
            (BuyState::AwaitKrwBalance, BuyEvent::KrwBalance { sufficient, amount_ok }) => {
                if sufficient && amount_ok {
                    (BuyState::AwaitPrice, BuyAction::FetchPrice)
                } else {
                    (BuyState::Finished { bought: false }, BuyAction::Finish { bought: false })
                }
            },
            (BuyState::AwaitPrice, BuyEvent::PriceFetched) => {
                (BuyState::AwaitSubmission, BuyAction::SubmitOrder)
            },
            (BuyState::AwaitSubmission, BuyEvent::OrderSubmitted { accepted }) => {
                if accepted {
                    (BuyState::AwaitStatus { attempt: 1 }, BuyAction::CheckOrder { wait_ms: ORDER_CHECK_STEP_MS })
                } else {
                    (BuyState::Finished { bought: false }, BuyAction::Finish { bought: false })
                }
            },
            (BuyState::AwaitStatus { attempt }, BuyEvent::OrderStatus { state }) => {
                if state == Some(OrderState::Done) {
                    (BuyState::AwaitHolding, BuyAction::FetchHolding)
                } else if state == Some(OrderState::Cancelled) || attempt >= ORDER_CHECK_ATTEMPTS {
                    (BuyState::Finished { bought: false }, BuyAction::Finish { bought: false })
                } else {
                    (BuyState::AwaitStatus { attempt: attempt + 1 },
                     BuyAction::CheckOrder { wait_ms: ORDER_CHECK_STEP_MS * (attempt + 1) })
                }
            },
            (BuyState::AwaitHolding, BuyEvent::HoldingFetched { positive }) => {
                (BuyState::Finished { bought: positive }, BuyAction::Finish { bought: positive })
            },
            (BuyState::Finished { bought }, _) => (BuyState::Finished { bought }, BuyAction::Finish { bought }),
            _ => (BuyState::Finished { bought: false }, BuyAction::Finish { bought: false }),
        };
        self.state = next;
        action
    }
}


/// Each buy event at its own position of a run: the proof obligations of
/// the buy law.
pub open spec fn spec_buy_history_ok(events: Seq<BuyEvent>, s: BuyState) -> bool {
    let after_begin = s is AwaitKrwBalance || s is AwaitPrice || s is AwaitSubmission || s is AwaitStatus
        || s is AwaitHolding || s == (BuyState::Finished { bought: true });
    let after_balance = s is AwaitPrice || s is AwaitSubmission || s is AwaitStatus || s is AwaitHolding
        || s == (BuyState::Finished { bought: true });
    let after_submit = s is AwaitStatus || s is AwaitHolding || s == (BuyState::Finished { bought: true });
    let after_fill = s is AwaitHolding || s == (BuyState::Finished { bought: true });
    &&& spec_buy_state_ok(s)
    &&& (s is Idle ==> events.len() == 0)
    &&& (s is AwaitKrwBalance ==> events.len() == 1)
    &&& (s is AwaitPrice ==> events.len() == 2)
    &&& (s is AwaitSubmission ==> events.len() == 3)
    &&& after_begin ==> events.len() >= 1 && events[0] == (BuyEvent::Begin { proceed: true })
    &&& after_balance ==> events.len() >= 2 && events[1] == (BuyEvent::KrwBalance { sufficient: true, amount_ok: true })
    &&& after_submit ==> events.len() >= 4 && events[3] == (BuyEvent::OrderSubmitted { accepted: true })
    &&& (s matches BuyState::AwaitStatus { attempt } ==> events.len() == 3 + attempt)
    &&& after_fill ==> exists|k: int| 4 <= k < events.len()
            && #[trigger] events[k] == (BuyEvent::OrderStatus { state: Some(OrderState::Done) })
}

/// A buy ends with a position only when every pre-buy check passed, the
/// KRW balance and the order amount were sufficient, the exchange accepted
/// the order and reported it filled; and an order is checked at most five
/// times, the n-th check after a wait of n x 500 ms.
pub proof fn lemma_buy_safeguards(events: Seq<BuyEvent>)
    ensures
        spec_buy_history_ok(events, spec_buy_run(events)),
        spec_buy_run(events) == (BuyState::Finished { bought: true }) ==> {
            &&& events[0] == (BuyEvent::Begin { proceed: true })
            &&& events[1] == (BuyEvent::KrwBalance { sufficient: true, amount_ok: true })
            &&& events[3] == (BuyEvent::OrderSubmitted { accepted: true })
            &&& exists|k: int| 4 <= k < events.len()
                && #[trigger] events[k] == (BuyEvent::OrderStatus { state: Some(OrderState::Done) })
        },
    decreases events.len(),
{
    if events.len() > 0 {
        let prev = events.drop_last();
        lemma_buy_safeguards(prev);
        let ps = spec_buy_run(prev);
        let e = events.last();
        assert forall|i: int| 0 <= i < prev.len() implies #[trigger] events[i] == prev[i] by {}
        let s = spec_buy_run(events);
        assert(s == spec_buy_step(ps, e).0);
        if ps is AwaitHolding || ps == (BuyState::Finished { bought: true }) {
            let k = choose|k: int| 4 <= k < prev.len()
                && #[trigger] prev[k] == (BuyEvent::OrderStatus { state: Some(OrderState::Done) });
            assert(events[k] == prev[k]);
        }
        if ps is AwaitStatus && e == (BuyEvent::OrderStatus { state: Some(OrderState::Done) }) {
            assert(events[events.len() - 1] == e);
        }
    }
}

/// Where a sell stands.
#[derive(Debug, Clone, Copy, PartialEq, Eq, Structural)]
pub enum SellState {
    Idle,
    AwaitPrice,
    AwaitHolding,
    AwaitSubmission,
    /// Waiting for the `attempt`-th status check (1..=5).
    AwaitStatus { attempt: u64 },
    Finished { sold: bool },
}

/// What happened, as the bot reports it to the sell flow.
#[derive(Debug, Clone, Copy, PartialEq, Eq, Structural)]
pub enum SellEvent {
    /// The sell is asked for: whether a position is open.
    Begin { has_position: bool },
    /// The current price arrived.
    PriceFetched,
    /// The held amount arrived: whether it is zero.
    HoldingFetched { zero: bool },
    /// The exchange answered the sell order: accepted or refused.
    OrderSubmitted { accepted: bool },
    /// A status check answered (`None`: the status query failed).
    OrderStatus { state: Option<OrderState> },
}

/// What the bot has to do next for a sell.
#[derive(Debug, Clone, Copy, PartialEq, Eq, Structural)]
pub enum SellAction {
    FetchPrice,
    FetchHolding,
    SubmitOrder,
    /// Wait `wait_ms`, then query the order's status.
    CheckOrder { wait_ms: u64 },
    /// The sell is over. On `record_trade` the trade's result is recorded;
    /// on `clear_position` the position is dropped.
    Finish { sold: bool, clear_position: bool, record_trade: bool },
}

/// The end of a sell that did not happen and leaves the position as is.
pub open spec fn spec_sell_abort() -> (SellState, SellAction) {
    (SellState::Finished { sold: false }, SellAction::Finish { sold: false, clear_position: false, record_trade: false })
}

/// One step of the sell flow. An event the state does not wait for ends
/// the flow without selling.
pub open spec fn spec_sell_step(s: SellState, e: SellEvent) -> (SellState, SellAction) {
    match (s, e) {
        (SellState::Idle, SellEvent::Begin { has_position }) =>
            if has_position { (SellState::AwaitPrice, SellAction::FetchPrice) } else { spec_sell_abort() },
        (SellState::AwaitPrice, SellEvent::PriceFetched) => (SellState::AwaitHolding, SellAction::FetchHolding),
        (SellState::AwaitHolding, SellEvent::HoldingFetched { zero }) =>
            if zero {
                (SellState::Finished { sold: false },
                 SellAction::Finish { sold: false, clear_position: true, record_trade: false })
            } else {
                (SellState::AwaitSubmission, SellAction::SubmitOrder)
            },
        (SellState::AwaitSubmission, SellEvent::OrderSubmitted { accepted }) =>
            if accepted {
                (SellState::AwaitStatus { attempt: 1 }, SellAction::CheckOrder { wait_ms: ORDER_CHECK_STEP_MS })
            } else {
                spec_sell_abort()
            },
        (SellState::AwaitStatus { attempt }, SellEvent::OrderStatus { state }) =>
            if state == Some(OrderState::Done) {
                (SellState::Finished { sold: true },
                 SellAction::Finish { sold: true, clear_position: true, record_trade: true })
            } else if state == Some(OrderState::Cancelled) || attempt >= ORDER_CHECK_ATTEMPTS {
                spec_sell_abort()
            } else {
                (SellState::AwaitStatus { attempt: (attempt + 1) as u64 },
                 SellAction::CheckOrder { wait_ms: (ORDER_CHECK_STEP_MS * (attempt + 1)) as u64 })
            },
        (SellState::Finished { sold }, _) =>
            (s, SellAction::Finish { sold, clear_position: false, record_trade: false }),
        _ => spec_sell_abort(),
    }
}

/// A status-check attempt number never exceeds the attempt budget.
pub open spec fn spec_sell_state_ok(s: SellState) -> bool {
    s matches SellState::AwaitStatus { attempt } ==> 1 <= attempt <= ORDER_CHECK_ATTEMPTS
}

/// The sell flow: the decisions of closing a position, one event at a time.
pub struct SellFlow {
    state: SellState,
}

impl SellFlow {
    pub closed spec fn spec_state(&self) -> SellState {
        self.state
    }

    /// A sell that has not started.
    pub fn new() -> (f: Self)
        ensures
            f.spec_state() == SellState::Idle,
    {
        SellFlow { state: SellState::Idle }
    }

    /// Where the sell stands.
    pub fn state(&self) -> (s: SellState)
        ensures
            s == self.spec_state(),
    {
        self.state
    }

    /// Feeds `event` to the flow and returns what to do next.
    pub fn step(&mut self, event: SellEvent) -> (a: SellAction)
        requires
            spec_sell_state_ok(old(self).spec_state()),
        ensures
            (final(self).spec_state(), a) == spec_sell_step(old(self).spec_state(), event),
            spec_sell_state_ok(final(self).spec_state()),
    {
        let abort = (SellState::Finished { sold: false },
            SellAction::Finish { sold: false, clear_position: false, record_trade: false });
        let (next, action) = match (self.state, event) {
            (SellState::Idle, SellEvent::Begin { has_position }) => {
                if has_position { (SellState::AwaitPrice, SellAction::FetchPrice) } else { abort }
            },
            (SellState::AwaitPrice, SellEvent::PriceFetched) => (SellState::AwaitHolding, SellAction::FetchHolding),
            (SellState::AwaitHolding, SellEvent::HoldingFetched { zero }) => {
                if zero {
                    (SellState::Finished { sold: false },
                     SellAction::Finish { sold: false, clear_position: true, record_trade: false })
                } else {
                    (SellState::AwaitSubmission, SellAction::SubmitOrder)
                }
            },
            (SellState::AwaitSubmission, SellEvent::OrderSubmitted { accepted }) => {
                if accepted {
                    (SellState::AwaitStatus { attempt: 1 }, SellAction::CheckOrder { wait_ms: ORDER_CHECK_STEP_MS })
                } else {
                    abort
                }
            },
            (SellState::AwaitStatus { attempt }, SellEvent::OrderStatus { state }) => {
                if state == Some(OrderState::Done) {
                    (SellState::Finished { sold: true },
                     SellAction::Finish { sold: true, clear_position: true, record_trade: true })
                } else if state == Some(OrderState::Cancelled) || attempt >= ORDER_CHECK_ATTEMPTS {
                    abort
                } else {
                    (SellState::AwaitStatus { attempt: attempt + 1 },
                     SellAction::CheckOrder { wait_ms: ORDER_CHECK_STEP_MS * (attempt + 1) })
                }
            },
            (SellState::Finished { sold }, _) =>
                (SellState::Finished { sold }, SellAction::Finish { sold, clear_position: false, record_trade: false }),
            _ => abort,
        };
        self.state = next;
        action
    }
}

/// The sell flow after the given events, from `Idle`.
pub open spec fn spec_sell_run(events: Seq<SellEvent>) -> SellState
    decreases events.len(),
{
    if events.len() == 0 {
        SellState::Idle
    } else {
        spec_sell_step(spec_sell_run(events.drop_last()), events.last()).0
    }
}

/// The history a sell state implies: the proof obligations of the sell law.
pub open spec fn spec_sell_history_ok(events: Seq<SellEvent>, s: SellState) -> bool {
    let after_begin = s is AwaitPrice || s is AwaitHolding || s is AwaitSubmission || s is AwaitStatus
        || s == (SellState::Finished { sold: true });
    let after_holding = s is AwaitSubmission || s is AwaitStatus || s == (SellState::Finished { sold: true });
    let after_submit = s is AwaitStatus || s == (SellState::Finished { sold: true });
    &&& spec_sell_state_ok(s)
    &&& (s is Idle ==> events.len() == 0)
    &&& (s is AwaitPrice ==> events.len() == 1)
    &&& (s is AwaitHolding ==> events.len() == 2)
    &&& (s is AwaitSubmission ==> events.len() == 3)
    &&& (s matches SellState::AwaitStatus { attempt } ==> events.len() == 3 + attempt)
    &&& after_begin ==> events.len() >= 1 && events[0] == (SellEvent::Begin { has_position: true })
    &&& after_holding ==> events.len() >= 3 && events[2] == (SellEvent::HoldingFetched { zero: false })
    &&& after_submit ==> events.len() >= 4 && events[3] == (SellEvent::OrderSubmitted { accepted: true })
    &&& s == (SellState::Finished { sold: true }) ==> exists|k: int| 4 <= k < events.len()
            && #[trigger] events[k] == (SellEvent::OrderStatus { state: Some(OrderState::Done) })
}

/// A sell ends as sold only when a position was open, something was held,
/// the exchange accepted the order and reported it filled; an order is
/// checked at most five times.
pub proof fn lemma_sell_safeguards(events: Seq<SellEvent>)
    ensures
        spec_sell_history_ok(events, spec_sell_run(events)),
    decreases events.len(),
{
    if events.len() > 0 {
        let prev = events.drop_last();
        lemma_sell_safeguards(prev);
        let ps = spec_sell_run(prev);
        let e = events.last();
        assert forall|i: int| 0 <= i < prev.len() implies #[trigger] events[i] == prev[i] by {}
        assert(spec_sell_run(events) == spec_sell_step(ps, e).0);
        if ps == (SellState::Finished { sold: true }) {
            let k = choose|k: int| 4 <= k < prev.len()
                && #[trigger] prev[k] == (SellEvent::OrderStatus { state: Some(OrderState::Done) });
            assert(events[k] == prev[k]);
        }
        if ps is AwaitStatus && e == (SellEvent::OrderStatus { state: Some(OrderState::Done) }) {
            assert(events[events.len() - 1] == e);
        }
    }
}

/// A sell records a trade only when its order was filled, and drops the
/// position only then or when nothing was held any more; a refused or
/// cancelled order, or one never confirmed, keeps the position.
pub proof fn lemma_sell_outcomes(s: SellState, e: SellEvent)
    ensures
        spec_sell_step(s, e).1 matches SellAction::Finish { sold, clear_position, record_trade } ==> {
            &&& record_trade ==> sold && s is AwaitStatus && e == (SellEvent::OrderStatus { state: Some(OrderState::Done) })
            &&& clear_position ==> (record_trade || (s is AwaitHolding && e == (SellEvent::HoldingFetched { zero: true })))
            &&& e == (SellEvent::OrderStatus { state: Some(OrderState::Cancelled) }) && s is AwaitStatus ==> !clear_position
        },
{
}

/// Whether the buy strategy is due for a market whose last check was at
/// `last_check_ms`: on its first check, or more than 60 whole seconds later.
pub fn buy_check_due(last_check_ms: Option<i64>, now_ms: i64) -> (due: bool)
    ensures
        due == match last_check_ms {
            Some(t) => spec_seconds_between(t as int, now_ms as int) > BUY_CHECK_INTERVAL_SECONDS,
            None => true,
        },
{
    match last_check_ms {
        Some(t) => seconds_between(t, now_ms) > BUY_CHECK_INTERVAL_SECONDS,
        None => true,
    }
}


/// The pre-buy checks, in order: an open position blocks the buy; then a
/// trading restriction; then a bearish, then a highly volatile market; then
/// a safety score below 50; then a missing buy signal. Each outcome arises
/// exactly when its own check fails and every earlier one passed, and the
/// buy proceeds exactly when all pass (a bullish or neutral market passes).
pub proof fn lemma_buy_precheck_order(
    has_position: bool,
    can_trade: bool,
    condition: MarketCondition,
    score: int,
    buy_signal: bool,
)
    requires
        0 <= score <= 100,
    ensures
        ({
            let r = spec_buy_precheck(has_position, can_trade, condition, score, buy_signal);
            let market_ok = condition == MarketCondition::Bullish || condition == MarketCondition::Neutral;
            &&& (r == BuyPrecheck::HasPosition) <==> has_position
            &&& (r == BuyPrecheck::Restricted) <==> (!has_position && !can_trade)
            &&& (r == BuyPrecheck::BearishMarket) <==> (!has_position && can_trade
                    && condition == MarketCondition::Bearish)
            &&& (r == BuyPrecheck::HighVolatility) <==> (!has_position && can_trade
                    && condition == MarketCondition::HighVolatility)
            &&& (r is LowSafetyScore) <==> (!has_position && can_trade && market_ok && score < 50)
            &&& (r matches BuyPrecheck::LowSafetyScore { score: s } ==> s == score)
            &&& (r == BuyPrecheck::NoSignal) <==> (!has_position && can_trade && market_ok && score >= 50
                    && !buy_signal)
            &&& (r == BuyPrecheck::Proceed) <==> (!has_position && can_trade && market_ok && score >= 50
                    && buy_signal)
        }),
{
}

/// The buy flow's action always matches the state it moves to: it
/// finishes with `bought` exactly when it enters `Finished { bought }`,
/// and it waits `n x 500 ms` exactly when it enters the n-th status check.
/// A buy reports success only on a positive holding after a filled order
/// (or when it had already succeeded).
pub proof fn lemma_buy_step_consistent(s: BuyState, e: BuyEvent)
    requires
        spec_buy_state_ok(s),
    ensures
        ({
            let (n, a) = spec_buy_step(s, e);
            &&& (forall|b: bool| (a is Finish && a->bought == b) <==> n == (BuyState::Finished { bought: b }))
            &&& (forall|w: u64| a == (BuyAction::CheckOrder { wait_ms: w }) ==> exists|k: u64|
                    n == (BuyState::AwaitStatus { attempt: k }) && w == 500 * k && 1 <= k <= 5)
            &&& (a == (BuyAction::Finish { bought: true }) ==> (s == (BuyState::Finished { bought: true })
                    || (s is AwaitHolding && e == (BuyEvent::HoldingFetched { positive: true }))))
            &&& (a == BuyAction::SubmitOrder ==> s is AwaitPrice && e == BuyEvent::PriceFetched)
        }),
{
    let (n, a) = spec_buy_step(s, e);
    if let BuyAction::CheckOrder { wait_ms } = a {
        if let BuyState::AwaitStatus { attempt } = n {
            assert(wait_ms == 500 * attempt);
        }
    }
}

/// Order polling during a buy: a refused order ends the buy without a
/// position; an accepted one is checked after 500 ms; a pending status
/// (or a failed status query) before the fifth check leads to the next
/// check, n x 500 ms later; a fill moves on to the holding; a cancellation,
/// or no fill by the fifth check, ends the buy without a position.
pub proof fn lemma_buy_polling(attempt: u64, state: Option<OrderState>, accepted: bool)
    requires
        1 <= attempt <= 5,
    ensures
        spec_buy_step(BuyState::AwaitSubmission, BuyEvent::OrderSubmitted { accepted }) == (if accepted {
            (BuyState::AwaitStatus { attempt: 1 }, BuyAction::CheckOrder { wait_ms: 500 })
        } else {
            (BuyState::Finished { bought: false }, BuyAction::Finish { bought: false })
        }),
        state == Some(OrderState::Done) ==> spec_buy_step(BuyState::AwaitStatus { attempt },
            BuyEvent::OrderStatus { state }) == (BuyState::AwaitHolding, BuyAction::FetchHolding),
        state == Some(OrderState::Cancelled) ==> spec_buy_step(BuyState::AwaitStatus { attempt },
            BuyEvent::OrderStatus { state }) == (BuyState::Finished { bought: false }, BuyAction::Finish { bought: false }),
        (state is None || state == Some(OrderState::Pending)) && attempt < 5 ==> spec_buy_step(
            BuyState::AwaitStatus { attempt }, BuyEvent::OrderStatus { state }) == (
            BuyState::AwaitStatus { attempt: (attempt + 1) as u64 },
            BuyAction::CheckOrder { wait_ms: (500 * (attempt + 1)) as u64 }),
        (state is None || state == Some(OrderState::Pending)) && attempt == 5 ==> spec_buy_step(
            BuyState::AwaitStatus { attempt }, BuyEvent::OrderStatus { state })
            == (BuyState::Finished { bought: false }, BuyAction::Finish { bought: false }),
{
}

/// The sell flow's action always matches the state it moves to: it
/// finishes with `sold` exactly when it enters `Finished { sold }`, and it
/// waits `n x 500 ms` exactly when it enters the n-th status check.
pub proof fn lemma_sell_step_consistent(s: SellState, e: SellEvent)
    requires
        spec_sell_state_ok(s),
    ensures
        ({
            let (n, a) = spec_sell_step(s, e);
            &&& (forall|b: bool| (a is Finish && a->sold == b) <==> n == (SellState::Finished { sold: b }))
            &&& (forall|w: u64| a == (SellAction::CheckOrder { wait_ms: w }) ==> exists|k: u64|
                    n == (SellState::AwaitStatus { attempt: k }) && w == 500 * k && 1 <= k <= 5)
            &&& (a is Finish && a->sold ==> s == (SellState::Finished { sold: true })
                    || (s is AwaitStatus && e == (SellEvent::OrderStatus { state: Some(OrderState::Done) })))
            &&& (a == SellAction::SubmitOrder ==> s is AwaitHolding && e == (SellEvent::HoldingFetched { zero: false }))
        }),
{
    let (n, a) = spec_sell_step(s, e);
    if let SellAction::CheckOrder { wait_ms } = a {
        if let SellState::AwaitStatus { attempt } = n {
            assert(wait_ms == 500 * attempt);
        }
    }
}

/// Order polling during a sell: a pending status (or a failed status
/// query) before the fifth check leads to the next check, n x 500 ms
/// later, keeping the position; a fill sells, records the trade and drops
/// the position; a cancellation, or no fill by the fifth check, gives the
/// sell up and keeps the position without recording anything.
pub proof fn lemma_sell_polling(attempt: u64, state: Option<OrderState>)
    requires
        1 <= attempt <= 5,
    ensures
        state == Some(OrderState::Done) ==> spec_sell_step(SellState::AwaitStatus { attempt },
            SellEvent::OrderStatus { state }) == (SellState::Finished { sold: true },
            SellAction::Finish { sold: true, clear_position: true, record_trade: true }),
        state == Some(OrderState::Cancelled) ==> spec_sell_step(SellState::AwaitStatus { attempt },
            SellEvent::OrderStatus { state }) == (SellState::Finished { sold: false },
            SellAction::Finish { sold: false, clear_position: false, record_trade: false }),
        (state is None || state == Some(OrderState::Pending)) && attempt < 5 ==> spec_sell_step(
            SellState::AwaitStatus { attempt }, SellEvent::OrderStatus { state }) == (
            SellState::AwaitStatus { attempt: (attempt + 1) as u64 },
            SellAction::CheckOrder { wait_ms: (500 * (attempt + 1)) as u64 }),
        (state is None || state == Some(OrderState::Pending)) && attempt == 5 ==> spec_sell_step(
            SellState::AwaitStatus { attempt }, SellEvent::OrderStatus { state }) == (
            SellState::Finished { sold: false },
            SellAction::Finish { sold: false, clear_position: false, record_trade: false }),
{
}


/// The currency of a market code: a leading "KRW-" is dropped, and a code
/// holding no "KRW-" anywhere is its own currency.
pub proof fn lemma_currency_of(rest: Seq<char>)
    ensures
        spec_currency_of("KRW-"@ + rest) == spec_currency_of(rest),
        (forall|i: int| 0 <= i <= rest.len() ==> !spec_starts_with(#[trigger] rest.skip(i), "KRW-"@))
            ==> spec_currency_of(rest) == rest,
{
    let pat = "KRW-"@;
    reveal_strlit("KRW-");
    let s = pat + rest;
    assert(s.subrange(0, 4) =~= pat);
    assert(s.skip(4) =~= rest);
    assert(Seq::<char>::empty() + spec_currency_of(rest) =~= spec_currency_of(rest));
    lemma_no_occurrence_kept(rest);
}

/// A sequence without any "KRW-" is unchanged by removing "KRW-".
proof fn lemma_no_occurrence_kept(s: Seq<char>)
    ensures
        (forall|i: int| 0 <= i <= s.len() ==> !spec_starts_with(#[trigger] s.skip(i), "KRW-"@))
            ==> spec_currency_of(s) == s,
    decreases s.len(),
{
    reveal_strlit("KRW-");
    if s.len() > 0 && (forall|i: int| 0 <= i <= s.len() ==> !spec_starts_with(#[trigger] s.skip(i), "KRW-"@)) {
        let t = s.skip(1);
        assert forall|i: int| 0 <= i <= t.len() implies !spec_starts_with(#[trigger] t.skip(i), "KRW-"@) by {
            assert(t.skip(i) =~= s.skip(i + 1));
        }
        lemma_no_occurrence_kept(t);
        assert(s.skip(0) =~= s);
        assert(seq![s[0]] + t =~= s);
    }
}

} // verus!
