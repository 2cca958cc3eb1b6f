//! Tests of the engine core: dispatch, registration, order routing and the
//! backtest driver, all over the simulated gateway.

use tick_engine::{
    BacktestError, Direction, Engine, GatewayError, MockGateway, NaiveStrategy, RejectPolicy,
    RejectReason, Script, ScriptedStrategy, StrategyAction, Tick,
};

fn aapl_tick() -> Tick {
    Tick {
        symbol: "AAPL".to_string(),
        timestamp_millis: 1_700_000_000_000,
        last_price: 15000,
        volume: 100000,
        bid_price: 14950,
        bid_volume: 50000,
        ask_price: 15050,
        ask_volume: 60000,
    }
}

fn two_aapl_ticks() -> Vec<Tick> {
    vec![aapl_tick(), aapl_tick()]
}

#[test]
fn test_engine() {
    let mut engine = Engine::new("hello".to_string());
    engine.register_strategy("naive".to_string(), NaiveStrategy::new());
    let result = engine.run_backtest(&two_aapl_ticks());
    assert!(result.is_ok());
}

#[test]
fn test_on_tick_one_entry_per_strategy() {
    let mut engine = Engine::new("engine".to_string());
    engine.register_strategy("alpha".to_string(), ScriptedStrategy::new(Script::AlwaysBuy));
    engine.register_strategy("beta".to_string(), ScriptedStrategy::new(Script::AlwaysHold));
    engine.register_strategy("gamma".to_string(), ScriptedStrategy::new(Script::AlwaysHold));
    for _ in 0..3 {
        let decisions = engine.on_tick(&aapl_tick());
        assert_eq!(decisions.len(), 3);
        assert_eq!(decisions[0].name, "alpha");
        assert_eq!(decisions[1].name, "beta");
        assert_eq!(decisions[2].name, "gamma");
    }
}

#[test]
fn test_reregister_discards_state() {
    let mut engine = Engine::new("engine".to_string());
    engine.register_strategy("naive".to_string(), NaiveStrategy::new());
    let _ = engine.on_tick(&aapl_tick());
    {
        let seen = engine.get_strategy_mut("naive").unwrap();
        assert_eq!(seen.ticks.len(), 1);
    }
    engine.register_strategy("naive".to_string(), NaiveStrategy::new());
    let replaced = engine.get_strategy_mut("naive").unwrap();
    assert_eq!(replaced.ticks.len(), 0);
}

#[test]
fn test_get_strategy_mut_lookup() {
    let mut engine = Engine::new("engine".to_string());
    engine.register_strategy("naive".to_string(), NaiveStrategy::new());
    assert!(engine.get_strategy_mut("naive").is_some());
    assert!(engine.get_strategy_mut("other").is_none());
}

#[test]
fn test_backtest_deterministic() {
    let ticks = two_aapl_ticks();
    let mut first = Engine::new("engine".to_string());
    first.register_strategy("naive".to_string(), NaiveStrategy::new());
    let mut second = Engine::new("engine".to_string());
    second.register_strategy("naive".to_string(), NaiveStrategy::new());
    let r1 = first.run_backtest(&ticks).unwrap();
    let r2 = second.run_backtest(&ticks).unwrap();
    assert_eq!(r1, r2);
}

#[test]
fn test_fail_fast_at_kth_order() {
    let mut gateway = MockGateway::new("mock".to_string());
    gateway.policy = RejectPolicy::RejectAt(2);
    let mut engine = Engine::with_gateway("engine".to_string(), gateway);
    engine.register_strategy("buyer".to_string(), ScriptedStrategy::new(Script::AlwaysBuy));
    let ticks = vec![aapl_tick(), aapl_tick(), aapl_tick()];
    let err = engine.run_backtest(&ticks).unwrap_err();
    match err {
        BacktestError::OrderFailed { strategy_name, error, .. } => {
            assert_eq!(strategy_name, "buyer");
            assert_eq!(error, GatewayError::OrderRejected(RejectReason::Configured));
        }
        other => panic!("unexpected failure: {:?}", other),
    }
    // The first order (tick 1) was accepted, the second (tick 2) was
    // rejected, and the third tick was never dispatched.
    let buyer = engine.get_strategy_mut("buyer").unwrap();
    assert_eq!(buyer.seen, 2);
}

#[test]
fn test_strategy_error_isolated() {
    let mut engine = Engine::new("engine".to_string());
    engine.register_strategy("buyer".to_string(), ScriptedStrategy::new(Script::AlwaysBuy));
    engine.register_strategy("flaky".to_string(), ScriptedStrategy::new(Script::AlwaysFail(7)));
    engine.register_strategy("idle".to_string(), ScriptedStrategy::new(Script::AlwaysHold));
    let decisions = engine.on_tick(&aapl_tick());
    assert_eq!(decisions.len(), 3);
    assert_eq!(decisions[0].name, "buyer");
    assert!(matches!(decisions[0].outcome, Ok(StrategyAction::NewOrder(_))));
    assert_eq!(decisions[1].name, "flaky");
    assert_eq!(decisions[1].outcome.as_ref().unwrap_err().code, 7);
    assert_eq!(decisions[2].name, "idle");
    assert!(matches!(decisions[2].outcome, Ok(StrategyAction::NoAction)));
    // The failing strategy routes nothing, the others are unaffected.
    let routed = engine.run_backtest(&two_aapl_ticks()).unwrap();
    assert_eq!(routed.len(), 2);
}

#[test]
fn test_backtest_two_accepted_orders() {
    let mut engine = Engine::new("engine".to_string());
    engine.register_strategy("naive".to_string(), NaiveStrategy::new());
    let routed = engine.run_backtest(&two_aapl_ticks()).unwrap();
    assert_eq!(routed.len(), 2);
    for order in &routed {
        assert_eq!(order.strategy_name, "naive");
        assert_eq!(order.trade.symbol, "AAPL");
        assert_eq!(order.trade.direction, Direction::Buy);
        assert_eq!(order.trade.price, 15000);
        assert_eq!(order.trade.volume, 100000);
    }
    assert_eq!(routed[0].order_id, 1);
    assert_eq!(routed[1].order_id, 2);
}

#[test]
fn test_backtest_reject_all_stops_after_first_tick() {
    let mut gateway = MockGateway::new("mock".to_string());
    gateway.policy = RejectPolicy::RejectAll;
    let mut engine = Engine::with_gateway("engine".to_string(), gateway);
    engine.register_strategy("naive".to_string(), NaiveStrategy::new());
    let err = engine.run_backtest(&two_aapl_ticks()).unwrap_err();
    match err {
        BacktestError::OrderFailed { strategy_name, trade, error } => {
            assert_eq!(strategy_name, "naive");
            assert_eq!(trade.symbol, "AAPL");
            assert_eq!(error, GatewayError::OrderRejected(RejectReason::Configured));
        }
        other => panic!("unexpected failure: {:?}", other),
    }
    // No second tick was dispatched after the first routing failure.
    let naive = engine.get_strategy_mut("naive").unwrap();
    assert_eq!(naive.ticks.len(), 1);
}

#[test]
fn test_fail_fast_ignores_ticks_after_failure() {
    let run = |n_ticks: usize| {
        let mut gateway = MockGateway::new("mock".to_string());
        gateway.policy = RejectPolicy::RejectAll;
        let mut engine = Engine::with_gateway("engine".to_string(), gateway);
        engine.register_strategy("naive".to_string(), NaiveStrategy::new());
        let ticks: Vec<Tick> = (0..n_ticks).map(|_| aapl_tick()).collect();
        let err = engine.run_backtest(&ticks).unwrap_err();
        let seen = engine.get_strategy_mut("naive").unwrap().ticks.len();
        (err, seen)
    };
    let (short_err, short_seen) = run(2);
    let (long_err, long_seen) = run(5);
    assert_eq!(short_err, long_err);
    assert_eq!(short_seen, 1);
    assert_eq!(long_seen, 1);
}

#[test]
fn test_backtest_routes_cancels() {
    let mut engine = Engine::new("engine".to_string());
    engine.register_strategy("buyer".to_string(), ScriptedStrategy::new(Script::AlwaysBuy));
    engine.register_strategy("cancel".to_string(), ScriptedStrategy::new(Script::AlwaysCancel(1)));
    // Tick 1: the buyer's order gets id 1; the cancel of id 1 then succeeds.
    let routed = engine.run_backtest(&vec![aapl_tick()]).unwrap();
    assert_eq!(routed.len(), 1);
    assert_eq!(routed[0].order_id, 1);
}

#[test]
fn test_backtest_cancel_of_unknown_order_fails() {
    let mut engine = Engine::new("engine".to_string());
    engine.register_strategy("cancel".to_string(), ScriptedStrategy::new(Script::AlwaysCancel(9)));
    let err = engine.run_backtest(&vec![aapl_tick()]).unwrap_err();
    match err {
        BacktestError::CancelFailed { strategy_name, cancel, error } => {
            assert_eq!(strategy_name, "cancel");
            assert_eq!(cancel.order_id, 9);
            assert_eq!(error, GatewayError::OrderNotFound);
        }
        other => panic!("unexpected failure: {:?}", other),
    }
}

#[test]
fn test_backtest_empty_tick_sequence() {
    let mut engine = Engine::new("engine".to_string());
    engine.register_strategy("naive".to_string(), NaiveStrategy::new());
    let routed = engine.run_backtest(&Vec::new()).unwrap();
    assert!(routed.is_empty());
}

#[test]
fn test_on_tick_without_strategies() {
    let mut engine: Engine<NaiveStrategy, MockGateway> = Engine::new("engine".to_string());
    let decisions = engine.on_tick(&aapl_tick());
    assert!(decisions.is_empty());
    let routed = engine.run_backtest(&two_aapl_ticks()).unwrap();
    assert!(routed.is_empty());
}

#[test]
fn test_send_order_fresh_ids_and_on_trade() {
    let mut engine: Engine<NaiveStrategy, MockGateway> = Engine::new("engine".to_string());
    let trade = tick_engine::Trade {
        symbol: "AAPL".to_string(),
        order_id: 123,
        price: 15000,
        volume: 100000,
        direction: Direction::Buy,
        timestamp_millis: 1_700_000_000_000,
    };
    assert_eq!(engine.send_order(&trade), Ok(1));
    assert_eq!(engine.send_order(&trade), Ok(2));
    assert_eq!(engine.on_trade(&trade), Ok(()));
}
