//! Market-data and trade-intent data model, and the `Strategy` abstraction.
//!
//! A strategy is a pluggable, stateful unit that is shown every tick and may
//! answer with an action: a new order intent, a cancel request, or nothing.
//! Each implementation supplies two model functions, `next_state` and
//! `decision`, that pin its behaviour down as a function of its state and the
//! tick alone; `on_tick` is then bound to them by contract, which is what makes
//! dispatch and backtesting deterministic.

use vstd::prelude::*;

use crate::order::{CancelRequest, CancelRequestModel};

verus! {

/// One market-data update for one symbol: the last trade and the top of book.
///
/// Prices and volumes are in hundredths of the quoted unit; the timestamp is
/// in milliseconds since the Unix epoch. A tick is immutable once constructed;
/// the engine only reads it.
#[derive(Debug, PartialEq)]
pub struct Tick {
    pub symbol: String,
    pub timestamp_millis: i64,
    pub last_price: u64,
    pub volume: u64,
    pub bid_price: u64,
    pub bid_volume: u64,
    pub ask_price: u64,
    pub ask_volume: u64,
}

/// Mathematical value of a `Tick`.
pub struct TickModel {
    pub symbol: Seq<char>,
    pub timestamp_millis: int,
    pub last_price: int,
    pub volume: int,
    pub bid_price: int,
    pub bid_volume: int,
    pub ask_price: int,
    pub ask_volume: int,
}

impl View for Tick {
    type V = TickModel;

    open spec fn view(&self) -> TickModel {
        TickModel {
            symbol: self.symbol@,
            timestamp_millis: self.timestamp_millis as int,
            last_price: self.last_price as int,
            volume: self.volume as int,
            bid_price: self.bid_price as int,
            bid_volume: self.bid_volume as int,
            ask_price: self.ask_price as int,
            ask_volume: self.ask_volume as int,
        }
    }
}

impl Clone for Tick {
    fn clone(&self) -> (r: Self)
        ensures
            r == *self,
    {
        Tick {
            symbol: self.symbol.clone(),
            timestamp_millis: self.timestamp_millis,
            last_price: self.last_price,
            volume: self.volume,
            bid_price: self.bid_price,
            bid_volume: self.bid_volume,
            ask_price: self.ask_price,
            ask_volume: self.ask_volume,
        }
    }
}

/// Direction of a trade intent.
#[derive(Clone, Copy, Debug, PartialEq, Eq, Structural)]
pub enum Direction {
    Buy,
    Sell,
}

/// A strategy-generated order intent (not a fill confirmation).
///
/// Owned by the engine from the moment a strategy returns it until it is
/// translated into an order request or dropped; it never outlives the
/// dispatch call that produced it. `order_id` is the client-assigned
/// identifier; prices and volumes are in hundredths.
#[derive(Debug, PartialEq)]
pub struct Trade {
    pub symbol: String,
    pub order_id: u64,
    pub price: u64,
    pub volume: u64,
    pub direction: Direction,
    pub timestamp_millis: i64,
}

/// Mathematical value of a `Trade`.
pub struct TradeModel {
    pub symbol: Seq<char>,
    pub order_id: int,
    pub price: int,
    pub volume: int,
    pub direction: Direction,
    pub timestamp_millis: int,
}

impl View for Trade {
    type V = TradeModel;

    open spec fn view(&self) -> TradeModel {
        TradeModel {
            symbol: self.symbol@,
            order_id: self.order_id as int,
            price: self.price as int,
            volume: self.volume as int,
            direction: self.direction,
            timestamp_millis: self.timestamp_millis as int,
        }
    }
}

impl Clone for Trade {
    fn clone(&self) -> (r: Self)
        ensures
            r == *self,
    {
        Trade {
            symbol: self.symbol.clone(),
            order_id: self.order_id,
            price: self.price,
            volume: self.volume,
            direction: self.direction,
            timestamp_millis: self.timestamp_millis,
        }
    }
}

/// An error raised by a strategy's `on_tick`. It is isolated to that strategy:
/// the engine reports it with the strategy's name attached and goes on
/// dispatching to the others.
#[derive(Clone, Copy, Debug, PartialEq, Eq, Structural)]
pub struct StrategyError {
    pub code: u64,
}

/// What a strategy asks the engine to do in response to one tick.
#[derive(Debug, PartialEq)]
pub enum StrategyAction {
    /// Route a new order intent to the gateway.
    NewOrder(Trade),
    /// Ask the gateway to cancel a resting order.
    Cancel(CancelRequest),
    /// No action this tick.
    NoAction,
}

/// Mathematical value of one strategy's response to one tick: either the
/// action it chose or the error it raised.
pub enum OutcomeModel {
    NewOrder(TradeModel),
    Cancel(CancelRequestModel),
    NoAction,
    Failed(int),
}

/// View of a strategy's raw result as an `OutcomeModel`.
pub open spec fn outcome_of(r: Result<StrategyAction, StrategyError>) -> OutcomeModel {
    match r {
        Result::Ok(StrategyAction::NewOrder(t)) => OutcomeModel::NewOrder(t@),
        Result::Ok(StrategyAction::Cancel(c)) => OutcomeModel::Cancel(c@),
        Result::Ok(StrategyAction::NoAction) => OutcomeModel::NoAction,
        Result::Err(e) => OutcomeModel::Failed(e.code as int),
    }
}

/// A pluggable trading strategy.
///
/// `on_tick` is invoked once per tick; only the per-strategy sequence of calls
/// is ordered, and a well-behaved implementation must not block. A strategy is
/// the sole owner of whatever position or indicator state it accumulates; it
/// never holds a reference back to the engine. Filtering by symbol, if wanted,
/// is the strategy's own responsibility.
///
/// The two model functions make every implementation deterministic by
/// construction: the state after a tick and the returned action are functions
/// of the prior state's view and the tick's value alone.
pub trait Strategy: Sized + View {
    /// The state the strategy moves to on seeing `tick` in state `pre`.
    spec fn next_state(pre: Self::V, tick: TickModel) -> Self::V;

    /// The action or error the strategy answers with on seeing `tick` in
    /// state `pre`.
    spec fn decision(pre: Self::V, tick: TickModel) -> OutcomeModel;

    /// React to one market-data update.
    fn on_tick(&mut self, tick: &Tick) -> (r: Result<StrategyAction, StrategyError>)
        ensures
            final(self)@ == Self::next_state(old(self)@, tick@),
            outcome_of(r) == Self::decision(old(self)@, tick@),
    ;
}

/// A minimal reference strategy: it records every tick it is shown and always
/// answers with a buy intent at the tick's last price and volume, under a
/// fixed client order identifier.
pub struct NaiveStrategy {
    pub ticks: Vec<Tick>,
}

/// The client order identifier the reference strategy stamps on every intent.
pub const NAIVE_ORDER_ID: u64 = 123;

impl View for NaiveStrategy {
    type V = Seq<TickModel>;

    open spec fn view(&self) -> Seq<TickModel> {
        self.ticks@.map_values(|t: Tick| t@)
    }
}

impl Strategy for NaiveStrategy {
    open spec fn next_state(pre: Seq<TickModel>, tick: TickModel) -> Seq<TickModel> {
        pre.push(tick)
    }

    open spec fn decision(pre: Seq<TickModel>, tick: TickModel) -> OutcomeModel {
        OutcomeModel::NewOrder(TradeModel {
            symbol: tick.symbol,
            order_id: NAIVE_ORDER_ID as int,
            price: tick.last_price,
            volume: tick.volume,
            direction: Direction::Buy,
            timestamp_millis: tick.timestamp_millis,
        })
    }

    fn on_tick(&mut self, tick: &Tick) -> (r: Result<StrategyAction, StrategyError>) {
        self.ticks.push(tick.clone());
        proof {
            assert(self@ =~= old(self)@.push(tick@));
        }
        let trade = Trade {
            symbol: tick.symbol.clone(),
            order_id: NAIVE_ORDER_ID,
            price: tick.last_price,
            volume: tick.volume,
            direction: Direction::Buy,
            timestamp_millis: tick.timestamp_millis,
        };
        Result::Ok(StrategyAction::NewOrder(trade))
    }
}

impl NaiveStrategy {
    /// A freshly constructed instance that has seen no tick.
    pub fn new() -> (r: NaiveStrategy)
        ensures
            r@ == Seq::<TickModel>::empty(),
    {
        NaiveStrategy { ticks: Vec::new() }
    }
}

/// What a `ScriptedStrategy` does on every tick.
#[derive(Clone, Copy, Debug, PartialEq, Eq, Structural)]
pub enum Script {
    /// Answer with a buy intent at the tick's last price and volume.
    AlwaysBuy,
    /// Ask to cancel the resting order with this backend identifier.
    AlwaysCancel(u64),
    /// Take no action.
    AlwaysHold,
    /// Raise a strategy error with this code.
    AlwaysFail(u64),
}

/// A scripted reference strategy: it reacts to every tick in the one way its
/// script prescribes, and counts the ticks it has been shown. Useful as a
/// deterministic counterpart in backtests that exercise each kind of
/// strategy response, including the error path.
pub struct ScriptedStrategy {
    pub script: Script,
    pub seen: u64,
}

/// Mathematical value of a `ScriptedStrategy`.
pub struct ScriptedStrategyModel {
    pub script: Script,
    pub seen: int,
}

impl View for ScriptedStrategy {
    type V = ScriptedStrategyModel;

    open spec fn view(&self) -> ScriptedStrategyModel {
        ScriptedStrategyModel { script: self.script, seen: self.seen as int }
    }
}

impl Strategy for ScriptedStrategy {
    open spec fn next_state(pre: ScriptedStrategyModel, tick: TickModel) -> ScriptedStrategyModel {
        ScriptedStrategyModel {
            script: pre.script,
            seen: if pre.seen < u64::MAX as int {
                pre.seen + 1
            } else {
                pre.seen
            },
        }
    }

    open spec fn decision(pre: ScriptedStrategyModel, tick: TickModel) -> OutcomeModel {
        match pre.script {
            Script::AlwaysBuy => OutcomeModel::NewOrder(TradeModel {
                symbol: tick.symbol,
                order_id: NAIVE_ORDER_ID as int,
                price: tick.last_price,
                volume: tick.volume,
                direction: Direction::Buy,
                timestamp_millis: tick.timestamp_millis,
            }),
            Script::AlwaysCancel(order_id) => OutcomeModel::Cancel(CancelRequestModel {
                symbol: Option::None,
                client_order_id: Option::None,
                order_id: order_id as int,
                gateway: Option::None,
            }),
            Script::AlwaysHold => OutcomeModel::NoAction,
            Script::AlwaysFail(code) => OutcomeModel::Failed(code as int),
        }
    }

    fn on_tick(&mut self, tick: &Tick) -> (r: Result<StrategyAction, StrategyError>) {
        if self.seen < u64::MAX {
            self.seen = self.seen + 1;
        }
        match self.script {
            Script::AlwaysBuy => Result::Ok(StrategyAction::NewOrder(Trade {
                symbol: tick.symbol.clone(),
                order_id: NAIVE_ORDER_ID,
                price: tick.last_price,
                volume: tick.volume,
                direction: Direction::Buy,
                timestamp_millis: tick.timestamp_millis,
            })),
            Script::AlwaysCancel(order_id) => Result::Ok(StrategyAction::Cancel(CancelRequest {
                symbol: Option::None,
                client_order_id: Option::None,
                order_id,
                gateway: Option::None,
            })),
            Script::AlwaysHold => Result::Ok(StrategyAction::NoAction),
            Script::AlwaysFail(code) => Result::Err(StrategyError { code }),
        }
    }
}

impl ScriptedStrategy {
    /// A scripted strategy that has seen no tick yet.
    pub fn new(script: Script) -> (r: ScriptedStrategy)
        ensures
            r@ == (ScriptedStrategyModel { script, seen: 0 }),
    {
        ScriptedStrategy { script, seen: 0 }
    }
}

} // verus!
