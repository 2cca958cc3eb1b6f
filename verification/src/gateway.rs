//! The `Gateway` abstraction over an execution/data backend, its error
//! taxonomy, and the deterministic simulated gateway used as the default
//! backend and in backtests.
//!
//! Exactly one gateway is owned by an engine for the engine's whole lifetime.
//! As with strategies, each implementation supplies model functions that pin
//! its observable behaviour down as a function of its state and arguments, so
//! that a backtest over a simulated gateway is deterministic by construction.

use vstd::prelude::*;

use crate::order::{CancelRequest, CancelRequestModel, OrderRequest, OrderRequestModel};
use crate::strategy::{Tick, TickModel};

verus! {

/// Why a backend rejected an order.
#[derive(Clone, Copy, Debug, PartialEq, Eq, Structural)]
pub enum RejectReason {
    BadPrice,
    InsufficientMargin,
    UnknownSymbol,
    Configured,
}

/// An error raised by a gateway operation. The engine never swallows one of
/// these: it is always propagated to the caller of the operation.
#[derive(Clone, Copy, Debug, PartialEq, Eq, Structural)]
pub enum GatewayError {
    /// The backend is unreachable (`connect`).
    ConnectionError,
    /// A symbol was unknown or rejected (`subscribe`, reported per symbol).
    SubscriptionError,
    /// The backend refused an order (`send_order`), with its reason.
    OrderRejected(RejectReason),
    /// A cancel named an order identifier unknown to the backend.
    OrderNotFound,
    /// The backend refused a cancel, e.g. for an already filled order.
    CancelRejected,
    /// A backend deadline elapsed before the operation completed.
    GatewayTimeout,
}

/// View of a sequence of owned strings as sequences of characters.
pub open spec fn seq_string_view(s: Seq<String>) -> Seq<Seq<char>> {
    s.map_values(|x: String| x@)
}

/// An execution/data backend: a live venue adapter or a simulation.
///
/// The engine is the only holder of a mutable reference to its gateway, and a
/// gateway never calls back into the engine. The model functions make every
/// deterministic implementation's behaviour a function of its state view and
/// the call's arguments; `read` alone is left nondeterministic (a live feed
/// blocks on the outside world), constrained only by `read_ok`.
pub trait Gateway: Sized + View {
    /// The backend's name.
    spec fn name_model(pre: Self::V) -> Seq<char>;

    /// State and result of `connect`.
    spec fn connect_model(pre: Self::V) -> (Self::V, Result<(), GatewayError>);

    /// State and per-symbol results of `subscribe`.
    spec fn subscribe_model(pre: Self::V, symbols: Seq<Seq<char>>) -> (
        Self::V,
        Seq<Result<(), GatewayError>>,
    );

    /// State and result of `send_order`.
    spec fn send_model(pre: Self::V, req: OrderRequestModel) -> (
        Self::V,
        Result<u64, GatewayError>,
    );

    /// State and result of `cancel_order`.
    spec fn cancel_model(pre: Self::V, req: CancelRequestModel) -> (
        Self::V,
        Result<(), GatewayError>,
    );

    /// Result of `query_account`.
    spec fn account_model(pre: Self::V) -> Result<(), GatewayError>;

    /// Result of `query_position`.
    spec fn position_model(pre: Self::V) -> Result<(), GatewayError>;

    /// What may hold of a tick handed out by `read`.
    spec fn read_ok(pre: Self::V, tick: TickModel) -> bool;

    /// The backend's name.
    fn name(&self) -> (r: &String)
        ensures
            r@ == Self::name_model(self@),
    ;

    /// Establish the backend connection; idempotent.
    fn connect(&mut self) -> (r: Result<(), GatewayError>)
        ensures
            final(self)@ == Self::connect_model(old(self)@).0,
            r == Self::connect_model(old(self)@).1,
    ;

    /// Request market data for a set of symbols. Partial success is reported
    /// per symbol: the result holds one entry for each requested symbol, in
    /// request order, never a single overall verdict.
    fn subscribe(&mut self, symbols: Vec<String>) -> (r: Vec<Result<(), GatewayError>>)
        ensures
            r@.len() == symbols@.len(),
            final(self)@ == Self::subscribe_model(old(self)@, seq_string_view(symbols@)).0,
            r@ == Self::subscribe_model(old(self)@, seq_string_view(symbols@)).1,
    ;

    /// Submit an order; on acceptance the backend assigns the returned order
    /// identifier, on refusal the error carries the reason.
    fn send_order(&mut self, req: OrderRequest) -> (r: Result<u64, GatewayError>)
        ensures
            final(self)@ == Self::send_model(old(self)@, req@).0,
            r == Self::send_model(old(self)@, req@).1,
    ;

    /// Request cancellation of a previously sent order.
    fn cancel_order(&mut self, req: CancelRequest) -> (r: Result<(), GatewayError>)
        ensures
            final(self)@ == Self::cancel_model(old(self)@, req@).0,
            r == Self::cancel_model(old(self)@, req@).1,
    ;

    /// Read-only account snapshot; no effect on the engine's state.
    fn query_account(&self) -> (r: Result<(), GatewayError>)
        ensures
            r == Self::account_model(self@),
    ;

    /// Read-only position snapshot; no effect on the engine's state.
    fn query_position(&self) -> (r: Result<(), GatewayError>)
        ensures
            r == Self::position_model(self@),
    ;

    /// Pull the next market-data update, for live mode. A backtest bypasses
    /// this entirely and feeds ticks straight into the engine.
    fn read(&self) -> (t: Tick)
        ensures
            Self::read_ok(self@, t@),
    ;
}

/// How the simulated gateway answers `send_order`.
#[derive(Clone, Copy, Debug, PartialEq, Eq, Structural)]
pub enum RejectPolicy {
    /// Accept every order.
    AcceptAll,
    /// Reject every order (and every cancel).
    RejectAll,
    /// Reject exactly the order with this backend-assigned identifier.
    RejectAt(u64),
}

/// The simulated gateway: the default backend and the reference
/// implementation for backtests. It accepts or rejects every order
/// deterministically according to its policy, hands out fresh synthetic
/// order identifiers from a counter, and fabricates ticks on `read`.
pub struct MockGateway {
    pub name: String,
    pub subscribed_names: Vec<String>,
    pub next_order_id: u64,
    pub policy: RejectPolicy,
}

/// Mathematical value of a `MockGateway`.
pub struct MockGatewayModel {
    pub name: Seq<char>,
    pub subscribed_names: Seq<Seq<char>>,
    pub next_order_id: int,
    pub policy: RejectPolicy,
}

impl View for MockGateway {
    type V = MockGatewayModel;

    open spec fn view(&self) -> MockGatewayModel {
        MockGatewayModel {
            name: self.name@,
            subscribed_names: seq_string_view(self.subscribed_names@),
            next_order_id: self.next_order_id as int,
            policy: self.policy,
        }
    }
}

/// Whether the simulated gateway knows a requested symbol: it rejects only
/// the empty symbol, standing in for an unknown one.
pub open spec fn mock_accepts_symbol(sym: Seq<char>) -> bool {
    sym.len() > 0
}

/// The subsequence of requested symbols the simulated gateway accepts, in
/// request order.
pub open spec fn mock_accepted(symbols: Seq<Seq<char>>) -> Seq<Seq<char>> {
    symbols.filter(|s: Seq<char>| mock_accepts_symbol(s))
}

/// The per-symbol results the simulated gateway reports for a subscription.
pub open spec fn mock_subscribe_results(symbols: Seq<Seq<char>>) -> Seq<
    Result<(), GatewayError>,
> {
    symbols.map_values(
        |s: Seq<char>|
            if mock_accepts_symbol(s) {
                Result::<(), GatewayError>::Ok(())
            } else {
                Result::<(), GatewayError>::Err(GatewayError::SubscriptionError)
            },
    )
}

/// Accepting one more symbol extends the accepted subsequence exactly when
/// the gateway knows the symbol.
proof fn lemma_mock_accepted_push(symbols: Seq<Seq<char>>, sym: Seq<char>)
    ensures
        mock_accepted(symbols.push(sym)) == if mock_accepts_symbol(sym) {
            mock_accepted(symbols).push(sym)
        } else {
            mock_accepted(symbols)
        },
{
    reveal(Seq::filter);
    assert(symbols.push(sym).drop_last() =~= symbols);
    assert(symbols.push(sym).last() == sym);
}

/// Whether the simulated gateway's policy rejects the order that would be
/// assigned identifier `id`.
pub open spec fn mock_rejects_order(policy: RejectPolicy, id: int) -> bool {
    match policy {
        RejectPolicy::AcceptAll => false,
        RejectPolicy::RejectAll => true,
        RejectPolicy::RejectAt(k) => id == k as int,
    }
}

/// The simulated gateway's order counter after one `send_order` attempt.
pub open spec fn mock_next_counter(id: int) -> int {
    if id < u64::MAX as int {
        id + 1
    } else {
        id
    }
}

/// Relies on chrono's `Utc::now`, read out with `timestamp_millis`: the
/// current wall-clock time. The result depends on the clock, so nothing is
/// promised of it.
#[verifier::external_body]
fn now_millis() -> i64 {
    chrono::Utc::now().timestamp_millis()
}

impl Gateway for MockGateway {
    open spec fn name_model(pre: MockGatewayModel) -> Seq<char> {
        pre.name
    }

    open spec fn connect_model(pre: MockGatewayModel) -> (
        MockGatewayModel,
        Result<(), GatewayError>,
    ) {
        if pre.name.len() == 0 {
            (pre, Result::Err(GatewayError::ConnectionError))
        } else {
            (pre, Result::Ok(()))
        }
    }

    open spec fn subscribe_model(pre: MockGatewayModel, symbols: Seq<Seq<char>>) -> (
        MockGatewayModel,
        Seq<Result<(), GatewayError>>,
    ) {
        (
            MockGatewayModel { subscribed_names: pre.subscribed_names + mock_accepted(symbols), ..pre },
            mock_subscribe_results(symbols),
        )
    }

    open spec fn send_model(pre: MockGatewayModel, req: OrderRequestModel) -> (
        MockGatewayModel,
        Result<u64, GatewayError>,
    ) {
        let post = MockGatewayModel { next_order_id: mock_next_counter(pre.next_order_id), ..pre };
        if mock_rejects_order(pre.policy, pre.next_order_id) {
            (post, Result::Err(GatewayError::OrderRejected(RejectReason::Configured)))
        } else {
            (post, Result::Ok(pre.next_order_id as u64))
        }
    }

    open spec fn cancel_model(pre: MockGatewayModel, req: CancelRequestModel) -> (
        MockGatewayModel,
        Result<(), GatewayError>,
    ) {
        if req.order_id <= 0 || req.order_id >= pre.next_order_id {
            (pre, Result::Err(GatewayError::OrderNotFound))
        } else if pre.policy is RejectAll {
            (pre, Result::Err(GatewayError::CancelRejected))
        } else {
            (pre, Result::Ok(()))
        }
    }

    open spec fn account_model(pre: MockGatewayModel) -> Result<(), GatewayError> {
        Result::Ok(())
    }

    open spec fn position_model(pre: MockGatewayModel) -> Result<(), GatewayError> {
        Result::Ok(())
    }

    open spec fn read_ok(pre: MockGatewayModel, tick: TickModel) -> bool {
        &&& tick.symbol == "AAPL"@
        &&& tick.last_price == 1200
        &&& tick.volume == 100000
        &&& tick.bid_price == 1000
        &&& tick.bid_volume == 200000
        &&& tick.ask_price == 1305
        &&& tick.ask_volume == 230000
    }

    fn name(&self) -> (r: &String) {
        &self.name
    }

    fn connect(&mut self) -> (r: Result<(), GatewayError>) {
        if self.name.as_str().is_empty() {
            Result::Err(GatewayError::ConnectionError)
        } else {
            Result::Ok(())
        }
    }

    fn subscribe(&mut self, symbols: Vec<String>) -> (r: Vec<Result<(), GatewayError>>) {
        let ghost pre = self@;
        let ghost syms = seq_string_view(symbols@);
        let mut out: Vec<Result<(), GatewayError>> = Vec::new();
        let mut i: usize = 0;
        while i < symbols.len()
            invariant
                i <= symbols@.len(),
                syms == seq_string_view(symbols@),
                self@.name == pre.name,
                self@.next_order_id == pre.next_order_id,
                self@.policy == pre.policy,
                self@.subscribed_names == pre.subscribed_names + mock_accepted(
                    syms.take(i as int),
                ),
                out@ == mock_subscribe_results(syms.take(i as int)),
            decreases symbols@.len() - i,
        {
            let sym = &symbols[i];
            let ghost prev = syms.take(i as int);
            let ghost sub_head = self@.subscribed_names;
            if sym.as_str().is_empty() {
                out.push(Result::Err(GatewayError::SubscriptionError));
                proof {
                    assert(!mock_accepts_symbol(syms[i as int]));
                }
            } else {
                self.subscribed_names.push(sym.clone());
                out.push(Result::Ok(()));
                proof {
                    assert(mock_accepts_symbol(syms[i as int]));
                    assert(self@.subscribed_names =~= sub_head.push(syms[i as int]));
                }
            }
            proof {
                assert(syms.take(i + 1 as int) =~= prev.push(syms[i as int]));
                lemma_mock_accepted_push(prev, syms[i as int]);
                assert(self@.subscribed_names =~= pre.subscribed_names + mock_accepted(
                    syms.take(i + 1 as int),
                ));
                assert(out@ =~= mock_subscribe_results(syms.take(i + 1 as int)));
            }
            i = i + 1;
        }
        proof {
            assert(syms.take(symbols@.len() as int) =~= syms);
        }
        out
    }

    fn send_order(&mut self, req: OrderRequest) -> (r: Result<u64, GatewayError>) {
        let id = self.next_order_id;
        if id < u64::MAX {
            self.next_order_id = id + 1;
        }
        let rejected = match self.policy {
            RejectPolicy::AcceptAll => false,
            RejectPolicy::RejectAll => true,
            RejectPolicy::RejectAt(k) => id == k,
        };
        if rejected {
            Result::Err(GatewayError::OrderRejected(RejectReason::Configured))
        } else {
            Result::Ok(id)
        }
    }

    fn cancel_order(&mut self, req: CancelRequest) -> (r: Result<(), GatewayError>) {
        if req.order_id == 0 || req.order_id >= self.next_order_id {
            Result::Err(GatewayError::OrderNotFound)
        } else if matches!(self.policy, RejectPolicy::RejectAll) {
            Result::Err(GatewayError::CancelRejected)
        } else {
            Result::Ok(())
        }
    }

    fn query_account(&self) -> (r: Result<(), GatewayError>) {
        Result::Ok(())
    }

    fn query_position(&self) -> (r: Result<(), GatewayError>) {
        Result::Ok(())
    }

    fn read(&self) -> (t: Tick) {
        Tick {
            symbol: String::from_str("AAPL"),
            timestamp_millis: now_millis(),
            last_price: 1200,
            volume: 100000,
            bid_price: 1000,
            bid_volume: 200000,
            ask_price: 1305,
            ask_volume: 230000,
        }
    }
}

impl MockGateway {
    /// A simulated gateway with the given name, no subscriptions, order
    /// identifiers starting at 1, and a policy of accepting every order.
    pub fn new(name: String) -> (r: MockGateway)
        ensures
            r@.name == name@,
            r@.subscribed_names == Seq::<Seq<char>>::empty(),
            r@.next_order_id == 1,
            r@.policy == RejectPolicy::AcceptAll,
    {
        MockGateway {
            name,
            subscribed_names: Vec::new(),
            next_order_id: 1,
            policy: RejectPolicy::AcceptAll,
        }
    }
}

} // verus!
