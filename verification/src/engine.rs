//! The engine: a name-keyed table of exclusively owned strategies and exactly
//! one gateway, with the tick-dispatch / strategy-aggregation / order-routing
//! loop and the backtest driver over it.
//!
//! Per tick the engine moves `Idle -> Dispatching(tick) -> Routing(trades) ->
//! Idle`: it shows the tick to every registered strategy, collects one
//! decision per strategy, and routes each resulting order intent or cancel
//! through the gateway. Order routing for one tick completes, or fails and is
//! surfaced, before the next tick is dispatched, which is what makes a
//! backtest over deterministic strategies and a deterministic gateway
//! reproducible. Strategy errors are isolated per strategy; gateway errors are
//! always propagated, never swallowed.

use vstd::prelude::*;

use crate::gateway::{Gateway, GatewayError, MockGateway, RejectPolicy};
use crate::order::{CancelRequest, CancelRequestModel, OrderRequest, OrderRequestModel, OrderSide, OrderType, TimeInForce};
use crate::strategy::{outcome_of, Direction, OutcomeModel, Strategy, StrategyAction, StrategyError, Tick, TickModel, Trade, TradeModel};

verus! {

/// One entry of the strategy table: a unique name and the strategy instance
/// it owns.
pub struct StrategyEntry<S> {
    pub name: String,
    pub strategy: S,
}

/// One strategy's decision for one tick, as returned by `Engine::on_tick`:
/// the strategy's name and what it answered — an action, or the error it
/// raised, which is thereby reported without disturbing the other entries.
#[derive(Debug, PartialEq)]
pub struct Decision {
    pub name: String,
    pub outcome: Result<StrategyAction, StrategyError>,
}

/// Mathematical value of a `Decision`.
pub struct DecisionModel {
    pub name: Seq<char>,
    pub outcome: OutcomeModel,
}

impl View for Decision {
    type V = DecisionModel;

    open spec fn view(&self) -> DecisionModel {
        DecisionModel { name: self.name@, outcome: outcome_of(self.outcome) }
    }
}

/// One order accepted by the gateway during a backtest: which strategy asked
/// for it, the intent that was routed, and the identifier the backend
/// assigned.
#[derive(Debug, PartialEq)]
pub struct RoutedOrder {
    pub strategy_name: String,
    pub trade: Trade,
    pub order_id: u64,
}

/// Mathematical value of a `RoutedOrder`.
pub struct RoutedOrderModel {
    pub strategy_name: Seq<char>,
    pub trade: TradeModel,
    pub order_id: int,
}

impl View for RoutedOrder {
    type V = RoutedOrderModel;

    open spec fn view(&self) -> RoutedOrderModel {
        RoutedOrderModel {
            strategy_name: self.strategy_name@,
            trade: self.trade@,
            order_id: self.order_id as int,
        }
    }
}

/// Why a backtest run stopped: the first routing failure, with enough context
/// to diagnose it — which strategy, and which intent the gateway refused.
#[derive(Debug, PartialEq)]
pub enum BacktestError {
    /// The gateway refused an order intent.
    OrderFailed { strategy_name: String, trade: Trade, error: GatewayError },
    /// The gateway refused a cancel request.
    CancelFailed { strategy_name: String, cancel: CancelRequest, error: GatewayError },
}

/// Mathematical value of a `BacktestError`.
pub enum BacktestErrorModel {
    OrderFailed { strategy_name: Seq<char>, trade: TradeModel, error: GatewayError },
    CancelFailed { strategy_name: Seq<char>, cancel: CancelRequestModel, error: GatewayError },
}

impl View for BacktestError {
    type V = BacktestErrorModel;

    open spec fn view(&self) -> BacktestErrorModel {
        match self {
            BacktestError::OrderFailed { strategy_name, trade, error } => {
                BacktestErrorModel::OrderFailed {
                    strategy_name: strategy_name@,
                    trade: trade@,
                    error: *error,
                }
            },
            BacktestError::CancelFailed { strategy_name, cancel, error } => {
                BacktestErrorModel::CancelFailed {
                    strategy_name: strategy_name@,
                    cancel: cancel@,
                    error: *error,
                }
            },
        }
    }
}

/// View of a strategy table as a sequence of (name, strategy state) pairs, in
/// table order.
pub open spec fn table_view<S: Strategy>(entries: Seq<StrategyEntry<S>>) -> Seq<
    (Seq<char>, S::V),
> {
    entries.map_values(|e: StrategyEntry<S>| (e.name@, e.strategy@))
}

/// No two entries share a name: each strategy name keys exactly one instance.
pub open spec fn distinct_names<SV>(m: Seq<(Seq<char>, SV)>) -> bool {
    forall|i: int, j: int| #![trigger m[i].0, m[j].0] 0 <= i < j < m.len() ==> m[i].0 != m[j].0
}

/// Whether the table holds an entry under `name`.
pub open spec fn has_name<SV>(m: Seq<(Seq<char>, SV)>, name: Seq<char>) -> bool {
    exists|i: int| 0 <= i < m.len() && m[i].0 == name
}

/// The index of the entry under `name`, where one exists.
pub open spec fn index_of_name<SV>(m: Seq<(Seq<char>, SV)>, name: Seq<char>) -> int {
    choose|i: int| 0 <= i < m.len() && m[i].0 == name
}

/// The table after registering `s` under `name`: the entry under an existing
/// name is replaced outright — its accumulated state is discarded, not merged
/// — and an unseen name is appended.
pub open spec fn table_update<SV>(m: Seq<(Seq<char>, SV)>, name: Seq<char>, s: SV) -> Seq<
    (Seq<char>, SV),
> {
    if has_name(m, name) {
        m.update(index_of_name(m, name), (name, s))
    } else {
        m.push((name, s))
    }
}

/// The decisions one tick draws from a strategy table: one per entry, in
/// table order, each a function of that strategy's state and the tick alone.
pub open spec fn decisions_model<S: Strategy>(m: Seq<(Seq<char>, S::V)>, tick: TickModel) -> Seq<
    DecisionModel,
> {
    m.map_values(|p: (Seq<char>, S::V)| DecisionModel { name: p.0, outcome: S::decision(p.1, tick) })
}

/// The strategy table after every strategy has seen one tick.
pub open spec fn step_model<S: Strategy>(m: Seq<(Seq<char>, S::V)>, tick: TickModel) -> Seq<
    (Seq<char>, S::V),
> {
    m.map_values(|p: (Seq<char>, S::V)| (p.0, S::next_state(p.1, tick)))
}

/// View of a decision vector's contents.
pub open spec fn decisions_view(s: Seq<Decision>) -> Seq<DecisionModel> {
    s.map_values(|d: Decision| d@)
}

/// View of a routed-order vector's contents.
pub open spec fn routed_view(s: Seq<RoutedOrder>) -> Seq<RoutedOrderModel> {
    s.map_values(|r: RoutedOrder| r@)
}

/// View of a tick sequence's contents.
pub open spec fn ticks_view(s: Seq<Tick>) -> Seq<TickModel> {
    s.map_values(|t: Tick| t@)
}

/// The order side a trade direction translates to.
pub open spec fn side_of_direction(d: Direction) -> OrderSide {
    match d {
        Direction::Buy => OrderSide::Buy,
        Direction::Sell => OrderSide::Sell,
    }
}

/// The order request the engine builds from a trade intent: the engine's
/// fixed routing policy is a limit order, good till cancelled, addressed to
/// its own gateway, with no stop level.
pub open spec fn order_request_model(t: TradeModel, gateway_name: Seq<char>) -> OrderRequestModel {
    OrderRequestModel {
        symbol: t.symbol,
        price: t.price,
        volume: t.volume,
        side: side_of_direction(t.direction),
        order_type: OrderType::Limit,
        gateway: Option::Some(gateway_name),
        time_in_force: Option::Some(TimeInForce::GTC),
        stop_price: Option::Some(0),
    }
}

/// Routing one tick's decisions through a gateway, in decision order:
/// the gateway state after routing, the orders it accepted, and the first
/// failure, if any, at which routing stopped. Strategy errors and absent
/// actions route nothing.
pub open spec fn route_model<G: Gateway>(gw: G::V, ds: Seq<DecisionModel>) -> (
    G::V,
    Seq<RoutedOrderModel>,
    Option<BacktestErrorModel>,
)
    decreases ds.len(),
{
    if ds.len() == 0 {
        (gw, Seq::<RoutedOrderModel>::empty(), Option::<BacktestErrorModel>::None)
    } else {
        let d = ds[0];
        match d.outcome {
            OutcomeModel::NewOrder(t) => {
                let step = G::send_model(gw, order_request_model(t, G::name_model(gw)));
                match step.1 {
                    Result::Ok(id) => {
                        let rest = route_model::<G>(step.0, ds.drop_first());
                        (
                            rest.0,
                            seq![
                                RoutedOrderModel {
                                    strategy_name: d.name,
                                    trade: t,
                                    order_id: id as int,
                                },
                            ] + rest.1,
                            rest.2,
                        )
                    },
                    Result::Err(e) => (
                        step.0,
                        Seq::<RoutedOrderModel>::empty(),
                        Option::Some(
                            BacktestErrorModel::OrderFailed {
                                strategy_name: d.name,
                                trade: t,
                                error: e,
                            },
                        ),
                    ),
                }
            },
            OutcomeModel::Cancel(c) => {
                let step = G::cancel_model(gw, c);
                match step.1 {
                    Result::Ok(u) => route_model::<G>(step.0, ds.drop_first()),
                    Result::Err(e) => (
                        step.0,
                        Seq::<RoutedOrderModel>::empty(),
                        Option::Some(
                            BacktestErrorModel::CancelFailed {
                                strategy_name: d.name,
                                cancel: c,
                                error: e,
                            },
                        ),
                    ),
                }
            },
            OutcomeModel::NoAction => route_model::<G>(gw, ds.drop_first()),
            OutcomeModel::Failed(code) => route_model::<G>(gw, ds.drop_first()),
        }
    }
}

/// A whole backtest run: ticks are dispatched in sequence order; each tick's
/// decisions are routed to completion before the next tick is dispatched; and
/// the run stops at the first routing failure, surfacing it.
pub open spec fn backtest_model<S: Strategy, G: Gateway>(
    strats: Seq<(Seq<char>, S::V)>,
    gw: G::V,
    ticks: Seq<TickModel>,
) -> (Seq<(Seq<char>, S::V)>, G::V, Seq<RoutedOrderModel>, Option<BacktestErrorModel>)
    decreases ticks.len(),
{
    if ticks.len() == 0 {
        (strats, gw, Seq::<RoutedOrderModel>::empty(), Option::<BacktestErrorModel>::None)
    } else {
        let tick = ticks[0];
        let strats2 = step_model::<S>(strats, tick);
        let step = route_model::<G>(gw, decisions_model::<S>(strats, tick));
        if step.2 is Some {
            (strats2, step.0, step.1, step.2)
        } else {
            let rest = backtest_model::<S, G>(strats2, step.0, ticks.drop_first());
            (rest.0, rest.1, step.1 + rest.2, rest.3)
        }
    }
}

/// The engine: a named collection of strategies keyed by unique name, and
/// exactly one gateway, both exclusively owned. The gateway is fixed for the
/// engine's lifetime; a new engine must be constructed to change it.
pub struct Engine<S, G> {
    pub name: String,
    pub strategies: Vec<StrategyEntry<S>>,
    pub gateway: G,
}

impl<S: Strategy, G: Gateway> Engine<S, G> {
    /// The strategy table as (name, state) pairs, in registration order of
    /// first appearance.
    pub open spec fn strategies_view(self) -> Seq<(Seq<char>, S::V)> {
        table_view(self.strategies@)
    }

    /// Well-formedness: strategy names are unique.
    pub open spec fn wf(self) -> bool {
        distinct_names(self.strategies_view())
    }

    /// An engine with the given gateway and no strategies.
    pub fn with_gateway(name: String, gateway: G) -> (r: Engine<S, G>)
        ensures
            r.name == name,
            r.strategies_view() == Seq::<(Seq<char>, S::V)>::empty(),
            r.gateway == gateway,
            r.wf(),
    {
        let e = Engine { name, strategies: Vec::new(), gateway };
        proof {
            assert(e.strategies_view() =~= Seq::<(Seq<char>, S::V)>::empty());
        }
        e
    }

    /// Insert `strategy` under `strategy_name`. Re-registering an existing
    /// name replaces the previous instance outright: its accumulated state is
    /// discarded, a deliberate explicit-replace semantics.
    pub fn register_strategy(&mut self, strategy_name: String, strategy: S)
        requires
            old(self).wf(),
        ensures
            final(self).strategies_view() == table_update(
                old(self).strategies_view(),
                strategy_name@,
                strategy@,
            ),
            final(self).wf(),
            final(self).name == old(self).name,
            final(self).gateway == old(self).gateway,
    {
        let ghost m0 = self.strategies_view();
        let mut i: usize = 0;
        while i < self.strategies.len()
            invariant
                i <= self.strategies@.len(),
                *self == *old(self),
                m0 == self.strategies_view(),
                m0.len() == self.strategies@.len(),
                distinct_names(m0),
                forall|k: int| 0 <= k < i ==> m0[k].0 != strategy_name@,
            decreases self.strategies@.len() - i,
        {
            if self.strategies[i].name == strategy_name {
                let ghost pair = (strategy_name@, strategy@);
                let entry = StrategyEntry { name: strategy_name, strategy };
                self.strategies.remove(i);
                self.strategies.insert(i, entry);
                proof {
                    assert(m0[i as int].0 == pair.0);
                    assert(has_name(m0, pair.0));
                    let j = index_of_name(m0, pair.0);
                    assert(0 <= j < m0.len() && m0[j].0 == pair.0);
                    assert(j == i as int) by {
                        if j < i as int {
                            assert(m0[j].0 != m0[i as int].0);
                        } else if j > i as int {
                            assert(m0[i as int].0 != m0[j].0);
                        }
                    }
                    assert(self.strategies_view() =~= m0.update(i as int, pair));
                    assert forall|a: int, b: int|
                        0 <= a < b < self.strategies_view().len() implies self.strategies_view()[a].0
                            != self.strategies_view()[b].0 by {
                        assert(self.strategies_view()[a].0 == m0[a].0);
                        assert(self.strategies_view()[b].0 == m0[b].0);
                        assert(m0[a].0 != m0[b].0);
                    }
                }
                return ;
            }
            i = i + 1;
        }
        let ghost pair = (strategy_name@, strategy@);
        let entry = StrategyEntry { name: strategy_name, strategy };
        self.strategies.push(entry);
        proof {
            assert(!has_name(m0, pair.0)) by {
                if has_name(m0, pair.0) {
                    let j = index_of_name(m0, pair.0);
                    assert(0 <= j < m0.len() && m0[j].0 == pair.0);
                }
            }
            assert(self.strategies_view() =~= m0.push(pair));
            assert forall|a: int, b: int|
                0 <= a < b < self.strategies_view().len() implies self.strategies_view()[a].0
                    != self.strategies_view()[b].0 by {
                if b < m0.len() {
                    assert(m0[a].0 != m0[b].0);
                } else {
                    assert(self.strategies_view()[b].0 == pair.0);
                    assert(m0[a].0 != pair.0);
                }
            }
        }
    }

    /// Borrow the strategy registered under `strategy_name`, for runtime
    /// introspection or management of a single instance. The table itself —
    /// the set of names — is left as it was; only the borrowed strategy's
    /// own state can change through the returned reference.
    pub fn get_strategy_mut(&mut self, strategy_name: &str) -> (r: Option<&mut S>)
        requires
            old(self).wf(),
        ensures
            (match r {
                Option::None => {
                    &&& !has_name(old(self).strategies_view(), strategy_name@)
                    &&& *final(self) == *old(self)
                },
                Option::Some(s) => {
                    &&& has_name(old(self).strategies_view(), strategy_name@)
                    &&& *s == old(self).strategies@[index_of_name(
                        old(self).strategies_view(),
                        strategy_name@,
                    )].strategy
                    &&& final(self).name == old(self).name
                    &&& final(self).gateway == old(self).gateway
                    &&& final(self).strategies@ == old(self).strategies@.update(
                        index_of_name(old(self).strategies_view(), strategy_name@),
                        StrategyEntry {
                            name: old(self).strategies@[index_of_name(
                                old(self).strategies_view(),
                                strategy_name@,
                            )].name,
                            strategy: *final(s),
                        },
                    )
                },
            }),
    {
        let ghost m0 = self.strategies_view();
        let want: String = strategy_name.to_owned();
        let mut i: usize = 0;
        while i < self.strategies.len()
            invariant
                i <= self.strategies@.len(),
                *self == *old(self),
                want@ == strategy_name@,
                m0 == self.strategies_view(),
                m0.len() == self.strategies@.len(),
                distinct_names(m0),
                forall|k: int| 0 <= k < i ==> m0[k].0 != strategy_name@,
            decreases self.strategies@.len() - i,
        {
            if self.strategies[i].name == want {
                proof {
                    assert(m0[i as int].0 == strategy_name@);
                    assert(has_name(m0, strategy_name@));
                    let j = index_of_name(m0, strategy_name@);
                    assert(0 <= j < m0.len() && m0[j].0 == strategy_name@);
                    assert(j == i as int) by {
                        if j < i as int {
                            assert(m0[j].0 != m0[i as int].0);
                        } else if j > i as int {
                            assert(m0[i as int].0 != m0[j].0);
                        }
                    }
                }
                return Option::Some(&mut self.strategies[i].strategy);
            }
            i = i + 1;
        }
        proof {
            assert(!has_name(m0, strategy_name@)) by {
                if has_name(m0, strategy_name@) {
                    let j = index_of_name(m0, strategy_name@);
                    assert(0 <= j < m0.len() && m0[j].0 == strategy_name@);
                }
            }
        }
        Option::None
    }

    /// Dispatch one tick to every registered strategy and collect one
    /// decision per strategy, in table order — including entries where no
    /// action was produced and entries whose strategy raised an error, so
    /// that callers can audit what each strategy decided. An error from one
    /// strategy never aborts dispatch to the others.
    pub fn on_tick(&mut self, tick: &Tick) -> (r: Vec<Decision>)
        requires
            old(self).wf(),
        ensures
            final(self).wf(),
            final(self).name == old(self).name,
            final(self).gateway == old(self).gateway,
            final(self).strategies_view() == step_model::<S>(old(self).strategies_view(), tick@),
            decisions_view(r@) == decisions_model::<S>(old(self).strategies_view(), tick@),
            r@.len() == old(self).strategies_view().len(),
            forall|k: int|
                0 <= k < r@.len() ==> r@[k]@.name == old(self).strategies_view()[k].0
                    && r@[k]@.outcome == S::decision(old(self).strategies_view()[k].1, tick@),
    {
        let ghost m0 = self.strategies_view();
        let mut out: Vec<Decision> = Vec::new();
        let mut i: usize = 0;
        while i < self.strategies.len()
            invariant
                i <= m0.len(),
                m0.len() == self.strategies@.len(),
                self.name == old(self).name,
                self.gateway == old(self).gateway,
                forall|k: int|
                    0 <= k < i ==> self.strategies_view()[k] == (
                        m0[k].0,
                        S::next_state(m0[k].1, tick@),
                    ),
                forall|k: int| i <= k < m0.len() ==> self.strategies_view()[k] == m0[k],
                out@.len() == i,
                forall|k: int|
                    0 <= k < i ==> out@[k]@ == (DecisionModel {
                        name: m0[k].0,
                        outcome: S::decision(m0[k].1, tick@),
                    }),
            decreases m0.len() - i,
        {
            let ghost before = self.strategies@;
            let mut entry = self.strategies.remove(i);
            proof {
                assert(entry == before[i as int]);
                assert(m0[i as int] == (entry.name@, entry.strategy@));
            }
            let res = entry.strategy.on_tick(tick);
            let name = entry.name.clone();
            let ghost entry1 = entry;
            self.strategies.insert(i, entry);
            out.push(Decision { name, outcome: res });
            proof {
                assert(entry1.name@ == m0[i as int].0);
                assert(entry1.strategy@ == S::next_state(m0[i as int].1, tick@));
                assert(self.strategies@ =~= before.update(i as int, entry1));
                assert(outcome_of(res) == S::decision(m0[i as int].1, tick@));
                assert forall|k: int| 0 <= k < i + 1 implies self.strategies_view()[k] == (
                    m0[k].0,
                    S::next_state(m0[k].1, tick@),
                ) by {
                    if k < i {
                        assert(self.strategies@[k] == before[k]);
                        assert(table_view::<S>(before)[k] == (m0[k].0, S::next_state(m0[k].1, tick@)));
                    } else {
                        assert(self.strategies@[k] == entry1);
                    }
                }
                assert forall|k: int| i + 1 <= k < m0.len() implies self.strategies_view()[k]
                    == m0[k] by {
                    assert(self.strategies@[k] == before[k]);
                    assert(table_view::<S>(before)[k] == m0[k]);
                }
            }
            i = i + 1;
        }
        proof {
            assert(self.strategies_view() =~= step_model::<S>(m0, tick@));
            assert(decisions_view(out@) =~= decisions_model::<S>(m0, tick@));
        }
        out
    }

    /// Bookkeeping hook, invoked for an order exactly when the gateway
    /// accepted it. A no-op extension point in this core: persistence and
    /// position accounting belong to outside collaborators.
    pub fn on_trade(&self, trade: &Trade) -> (r: Result<(), GatewayError>)
        ensures
            r == Result::<(), GatewayError>::Ok(()),
    {
        Result::Ok(())
    }

    /// Translate a trade intent into an order request under the engine's
    /// fixed policy (limit, good till cancelled) and submit it to the
    /// gateway. On acceptance the backend's order identifier is returned and
    /// `on_trade` is invoked; on refusal the gateway's error is propagated
    /// unchanged and `on_trade` is not invoked — a rejected order is never
    /// recorded as acknowledged.
    pub fn send_order(&mut self, order: &Trade) -> (r: Result<u64, GatewayError>)
        ensures
            final(self).name == old(self).name,
            final(self).strategies == old(self).strategies,
            final(self).gateway@ == G::send_model(
                old(self).gateway@,
                order_request_model(order@, G::name_model(old(self).gateway@)),
            ).0,
            r == G::send_model(
                old(self).gateway@,
                order_request_model(order@, G::name_model(old(self).gateway@)),
            ).1,
    {
        let gateway_name = self.gateway.name().clone();
        let side = match order.direction {
            Direction::Buy => OrderSide::Buy,
            Direction::Sell => OrderSide::Sell,
        };
        let request = OrderRequest {
            symbol: order.symbol.clone(),
            price: order.price,
            volume: order.volume,
            side,
            order_type: OrderType::Limit,
            gateway: Option::Some(gateway_name),
            time_in_force: Option::Some(TimeInForce::GTC),
            stop_price: Option::Some(0),
        };
        proof {
            assert(request@ == order_request_model(order@, G::name_model(self.gateway@)));
        }
        let result = self.gateway.send_order(request);
        match result {
            Result::Ok(order_id) => {
                let _ack = self.on_trade(order);
                Result::Ok(order_id)
            },
            Result::Err(e) => Result::Err(e),
        }
    }

    /// Forward a cancel request to the gateway; its verdict — including
    /// `OrderNotFound` and `CancelRejected` — is propagated to the caller
    /// unchanged.
    pub fn cancel_order(&mut self, request: &CancelRequest) -> (r: Result<(), GatewayError>)
        ensures
            final(self).name == old(self).name,
            final(self).strategies == old(self).strategies,
            final(self).gateway@ == G::cancel_model(old(self).gateway@, request@).0,
            r == G::cancel_model(old(self).gateway@, request@).1,
    {
        self.gateway.cancel_order(request.clone())
    }

    /// Route one tick's decisions, in decision order: order intents through
    /// `send_order`, cancels through `cancel_order`; absent actions and
    /// strategy errors route nothing. Stops at the first gateway failure.
    fn route_all(&mut self, decisions: Vec<Decision>) -> (r: Result<
        Vec<RoutedOrder>,
        BacktestError,
    >)
        ensures
            final(self).name == old(self).name,
            final(self).strategies == old(self).strategies,
            final(self).gateway@ == route_model::<G>(
                old(self).gateway@,
                decisions_view(decisions@),
            ).0,
            (match r {
                Result::Ok(v) => routed_view(v@) == route_model::<G>(
                    old(self).gateway@,
                    decisions_view(decisions@),
                ).1 && route_model::<G>(old(self).gateway@, decisions_view(decisions@)).2 is None,
                Result::Err(e) => Option::Some(e@) == route_model::<G>(
                    old(self).gateway@,
                    decisions_view(decisions@),
                ).2,
            }),
        decreases decisions@.len(),
    {
        let mut rest = decisions;
        if rest.len() == 0 {
            let out: Vec<RoutedOrder> = Vec::new();
            proof {
                assert(routed_view(out@) =~= Seq::<RoutedOrderModel>::empty());
            }
            return Result::Ok(out);
        }
        let ghost ds0 = decisions_view(rest@);
        let first = rest.remove(0);
        proof {
            assert(first@ == ds0[0]);
            assert(decisions_view(rest@) =~= ds0.drop_first());
        }
        let Decision { name, outcome } = first;
        proof {
            assert(ds0[0] == (DecisionModel { name: name@, outcome: outcome_of(outcome) }));
        }
        match outcome {
            Result::Ok(StrategyAction::NewOrder(trade)) => {
                match self.send_order(&trade) {
                    Result::Ok(order_id) => {
                        match self.route_all(rest) {
                            Result::Ok(more) => {
                                let ghost more0 = more@;
                                let mut out: Vec<RoutedOrder> = Vec::new();
                                out.push(RoutedOrder { strategy_name: name, trade, order_id });
                                let mut tail = more;
                                out.append(&mut tail);
                                proof {
                                    assert(out@ =~= seq![
                                        RoutedOrder { strategy_name: name, trade, order_id },
                                    ] + more0);
                                    assert(routed_view(out@) =~= seq![
                                        RoutedOrderModel {
                                            strategy_name: name@,
                                            trade: trade@,
                                            order_id: order_id as int,
                                        },
                                    ] + routed_view(more0));
                                }
                                Result::Ok(out)
                            },
                            Result::Err(e) => Result::Err(e),
                        }
                    },
                    Result::Err(e) => Result::Err(
                        BacktestError::OrderFailed { strategy_name: name, trade, error: e },
                    ),
                }
            },
            Result::Ok(StrategyAction::Cancel(cancel)) => {
                match self.cancel_order(&cancel) {
                    Result::Ok(u) => self.route_all(rest),
                    Result::Err(e) => Result::Err(
                        BacktestError::CancelFailed { strategy_name: name, cancel, error: e },
                    ),
                }
            },
            Result::Ok(StrategyAction::NoAction) => self.route_all(rest),
            Result::Err(_) => self.route_all(rest),
        }
    }

    /// Drive the backtest from tick `i` on.
    fn run_from(&mut self, ticks: &Vec<Tick>, i: usize) -> (r: Result<
        Vec<RoutedOrder>,
        BacktestError,
    >)
        requires
            old(self).wf(),
            i <= ticks@.len(),
        ensures
            final(self).wf(),
            final(self).name == old(self).name,
            final(self).strategies_view() == backtest_model::<S, G>(
                old(self).strategies_view(),
                old(self).gateway@,
                ticks_view(ticks@).skip(i as int),
            ).0,
            final(self).gateway@ == backtest_model::<S, G>(
                old(self).strategies_view(),
                old(self).gateway@,
                ticks_view(ticks@).skip(i as int),
            ).1,
            (match r {
                Result::Ok(v) => routed_view(v@) == backtest_model::<S, G>(
                    old(self).strategies_view(),
                    old(self).gateway@,
                    ticks_view(ticks@).skip(i as int),
                ).2 && backtest_model::<S, G>(
                    old(self).strategies_view(),
                    old(self).gateway@,
                    ticks_view(ticks@).skip(i as int),
                ).3 is None,
                Result::Err(e) => Option::Some(e@) == backtest_model::<S, G>(
                    old(self).strategies_view(),
                    old(self).gateway@,
                    ticks_view(ticks@).skip(i as int),
                ).3,
            }),
        decreases ticks@.len() - i,
    {
        let ghost tv = ticks_view(ticks@);
        if i == ticks.len() {
            proof {
                assert(tv.skip(i as int) =~= Seq::<TickModel>::empty());
            }
            let out: Vec<RoutedOrder> = Vec::new();
            proof {
                assert(routed_view(out@) =~= Seq::<RoutedOrderModel>::empty());
            }
            return Result::Ok(out);
        }
        proof {
            assert(tv.skip(i as int)[0] == ticks@[i as int]@);
            assert(tv.skip(i as int).drop_first() =~= tv.skip(i as int + 1));
        }
        let decisions = self.on_tick(&ticks[i]);
        match self.route_all(decisions) {
            Result::Err(e) => Result::Err(e),
            Result::Ok(routed) => {
                match self.run_from(ticks, i + 1) {
                    Result::Err(e) => Result::Err(e),
                    Result::Ok(more) => {
                        let ghost routed0 = routed@;
                        let ghost more0 = more@;
                        let mut out = routed;
                        let mut tail = more;
                        out.append(&mut tail);
                        proof {
                            assert(routed_view(out@) =~= routed_view(routed0) + routed_view(
                                more0,
                            ));
                        }
                        Result::Ok(out)
                    },
                }
            },
        }
    }

    /// Replay a finite, ordered tick sequence through the live dispatch path:
    /// for each tick in order, dispatch it to every strategy, then route every
    /// resulting action before the next tick is dispatched. On success the
    /// accepted orders are returned in routing order; at the first routing
    /// failure the run stops and the failure is returned with the strategy
    /// and intent that caused it (fail-fast — a backtest never runs past
    /// unaccounted orders). Strategy errors are isolated and route nothing.
    pub fn run_backtest(&mut self, ticks: &Vec<Tick>) -> (r: Result<
        Vec<RoutedOrder>,
        BacktestError,
    >)
        requires
            old(self).wf(),
        ensures
            final(self).wf(),
            final(self).name == old(self).name,
            final(self).strategies_view() == backtest_model::<S, G>(
                old(self).strategies_view(),
                old(self).gateway@,
                ticks_view(ticks@),
            ).0,
            final(self).gateway@ == backtest_model::<S, G>(
                old(self).strategies_view(),
                old(self).gateway@,
                ticks_view(ticks@),
            ).1,
            (match r {
                Result::Ok(v) => routed_view(v@) == backtest_model::<S, G>(
                    old(self).strategies_view(),
                    old(self).gateway@,
                    ticks_view(ticks@),
                ).2 && backtest_model::<S, G>(
                    old(self).strategies_view(),
                    old(self).gateway@,
                    ticks_view(ticks@),
                ).3 is None,
                Result::Err(e) => Option::Some(e@) == backtest_model::<S, G>(
                    old(self).strategies_view(),
                    old(self).gateway@,
                    ticks_view(ticks@),
                ).3,
            }),
    {
        proof {
            assert(ticks_view(ticks@).skip(0) =~= ticks_view(ticks@));
        }
        self.run_from(ticks, 0)
    }
}

/// Dispatch is total and isolated: for every strategy table and tick, there
/// is exactly one decision per registered strategy, in table order, carrying
/// that strategy's name; and each entry's outcome — action or reported error
/// — is a function of that strategy's own state and the tick alone, so one
/// strategy's error can neither change nor suppress any other entry.
pub proof fn lemma_dispatch_total_and_isolated<S: Strategy>(
    m: Seq<(Seq<char>, S::V)>,
    tick: TickModel,
)
    ensures
        decisions_model::<S>(m, tick).len() == m.len(),
        forall|i: int| 0 <= i < m.len() ==> decisions_model::<S>(m, tick)[i].name == m[i].0,
        forall|i: int|
            0 <= i < m.len() ==> decisions_model::<S>(m, tick)[i].outcome == S::decision(
                m[i].1,
                tick,
            ),
{
}

/// Re-registering a strategy under an existing name discards the earlier
/// instance's accumulated state outright: registering under one name twice
/// leaves exactly the table that registering the second instance alone would
/// have left.
pub proof fn lemma_reregister_discards<SV>(
    m: Seq<(Seq<char>, SV)>,
    name: Seq<char>,
    s1: SV,
    s2: SV,
)
    requires
        distinct_names(m),
    ensures
        table_update(table_update(m, name, s1), name, s2) == table_update(m, name, s2),
{
    let m1 = table_update(m, name, s1);
    if has_name(m, name) {
        let i = index_of_name(m, name);
        assert(0 <= i < m.len() && m[i].0 == name);
        assert(m1[i].0 == name);
        assert(has_name(m1, name));
        let j = index_of_name(m1, name);
        assert(0 <= j < m1.len() && m1[j].0 == name);
        assert(j == i) by {
            if j < i {
                assert(m1[j] == m[j]);
                assert(m[j].0 != m[i].0);
            } else if j > i {
                assert(m1[j] == m[j]);
                assert(m[i].0 != m[j].0);
            }
        }
        assert(table_update(m1, name, s2) =~= m.update(i, (name, s2)));
        assert(table_update(m, name, s2) == m.update(i, (name, s2)));
    } else {
        assert(m1 == m.push((name, s1)));
        assert(m1[m.len() as int].0 == name);
        assert(has_name(m1, name));
        let j = index_of_name(m1, name);
        assert(0 <= j < m1.len() && m1[j].0 == name);
        assert(j == m.len()) by {
            if j < m.len() {
                assert(m1[j] == m[j]);
                assert(has_name(m, name));
            }
        }
        assert(table_update(m1, name, s2) =~= m.push((name, s2)));
        assert(table_update(m, name, s2) == m.push((name, s2)));
    }
}

/// Backtest determinism: a backtest's whole observable behaviour — the final
/// strategy states, the final gateway state, the routed orders and the
/// outcome — is a function of the initial strategy states, the initial
/// gateway state and the tick sequence alone. Two runs over equal initial
/// states and equal tick sequences are indistinguishable.
pub proof fn lemma_backtest_deterministic<S: Strategy, G: Gateway>(
    strats1: Seq<(Seq<char>, S::V)>,
    gw1: G::V,
    ticks1: Seq<TickModel>,
    strats2: Seq<(Seq<char>, S::V)>,
    gw2: G::V,
    ticks2: Seq<TickModel>,
)
    requires
        strats1 == strats2,
        gw1 == gw2,
        ticks1 == ticks2,
    ensures
        backtest_model::<S, G>(strats1, gw1, ticks1) == backtest_model::<S, G>(
            strats2,
            gw2,
            ticks2,
        ),
{
}

/// Fail-fast: once a backtest has failed on some tick's routing, no later
/// tick is processed — extending the tick sequence past the failure changes
/// neither the error, nor the routed orders, nor the final states.
pub proof fn lemma_backtest_fail_fast<S: Strategy, G: Gateway>(
    strats: Seq<(Seq<char>, S::V)>,
    gw: G::V,
    ticks: Seq<TickModel>,
    more: Seq<TickModel>,
)
    requires
        backtest_model::<S, G>(strats, gw, ticks).3 is Some,
    ensures
        backtest_model::<S, G>(strats, gw, ticks + more) == backtest_model::<S, G>(
            strats,
            gw,
            ticks,
        ),
    decreases ticks.len(),
{
    if ticks.len() == 0 {
        assert(false);
    } else {
        assert((ticks + more).len() > 0);
        assert((ticks + more)[0] == ticks[0]);
        assert((ticks + more).drop_first() =~= ticks.drop_first() + more);
        let tick = ticks[0];
        let strats2 = step_model::<S>(strats, tick);
        let step = route_model::<G>(gw, decisions_model::<S>(strats, tick));
        if step.2 is None {
            assert(backtest_model::<S, G>(strats2, step.0, ticks.drop_first()).3 is Some);
            lemma_backtest_fail_fast::<S, G>(strats2, step.0, ticks.drop_first(), more);
        }
    }
}

impl<S: Strategy> Engine<S, MockGateway> {
    /// An engine over the default backend: a freshly constructed simulated
    /// gateway that accepts every order.
    pub fn new(name: String) -> (r: Engine<S, MockGateway>)
        ensures
            r.name == name,
            r.strategies_view() == Seq::<(Seq<char>, S::V)>::empty(),
            r.gateway@.name == "mock_gateway"@,
            r.gateway@.subscribed_names == Seq::<Seq<char>>::empty(),
            r.gateway@.next_order_id == 1,
            r.gateway@.policy == RejectPolicy::AcceptAll,
            r.wf(),
    {
        Engine::with_gateway(name, MockGateway::new(String::from_str("mock_gateway")))
    }
}

} // verus!

