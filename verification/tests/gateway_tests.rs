//! Tests of the simulated gateway and the data model.

use tick_engine::{GatewayError, MockGateway, RejectPolicy, RejectReason, Tick};
use tick_engine::gateway::Gateway;
use tick_engine::order::CancelRequest;

fn mock(name: &str) -> MockGateway {
    MockGateway::new(name.to_string())
}

#[test]
fn test_mock_gateway() {
    let mut gateway = MockGateway {
        name: "MockGateway".to_string(),
        subscribed_names: vec![],
        next_order_id: 1,
        policy: RejectPolicy::AcceptAll,
    };

    gateway.connect().unwrap();
    let outcomes = gateway.subscribe(vec!["AAPL".to_string(), "GOOGL".to_string()]);
    assert!(outcomes.iter().all(|o| o.is_ok()));

    assert_eq!(gateway.subscribed_names, vec!["AAPL".to_string(), "GOOGL".to_string()]);

    for _i in 0..5 {
        let tick = gateway.read();
        println!("Received tick: {:?}", tick);
    }
}

#[test]
fn test_tick_creation() {
    let tick = Tick {
        symbol: "AAPL".to_string(),
        timestamp_millis: 1_700_000_000_000,
        last_price: 15000,
        volume: 100000,
        bid_price: 14950,
        bid_volume: 50000,
        ask_price: 15050,
        ask_volume: 60000,
    };

    assert_eq!(tick.symbol, "AAPL");
    assert!(tick.last_price > 0);
    assert!(tick.volume > 0);
    assert!(tick.bid_price < tick.ask_price);
    assert!(tick.bid_volume > 0);
    assert!(tick.ask_volume > 0);
}

#[test]
fn test_connect_unreachable_backend() {
    let mut gateway = mock("");
    assert_eq!(gateway.connect(), Err(GatewayError::ConnectionError));
    let mut reachable = mock("mock");
    assert_eq!(reachable.connect(), Ok(()));
    // connect is idempotent
    assert_eq!(reachable.connect(), Ok(()));
}

#[test]
fn test_subscribe_reports_per_symbol() {
    let mut gateway = mock("mock");
    let outcomes = gateway.subscribe(vec![
        "AAPL".to_string(),
        "".to_string(),
        "GOOGL".to_string(),
    ]);
    assert_eq!(outcomes.len(), 3);
    assert_eq!(outcomes[0], Ok(()));
    assert_eq!(outcomes[1], Err(GatewayError::SubscriptionError));
    assert_eq!(outcomes[2], Ok(()));
    // Only the accepted symbols were recorded.
    assert_eq!(gateway.subscribed_names, vec!["AAPL".to_string(), "GOOGL".to_string()]);
}

#[test]
fn test_send_order_rejects_by_policy() {
    let mut gateway = mock("mock");
    gateway.policy = RejectPolicy::RejectAt(2);
    let request = || tick_engine::OrderRequest {
        symbol: "AAPL".to_string(),
        price: 15000,
        volume: 100000,
        side: tick_engine::OrderSide::Buy,
        order_type: tick_engine::OrderType::Limit,
        gateway: None,
        time_in_force: None,
        stop_price: None,
    };
    assert_eq!(gateway.send_order(request()), Ok(1));
    assert_eq!(
        gateway.send_order(request()),
        Err(GatewayError::OrderRejected(RejectReason::Configured))
    );
    assert_eq!(gateway.send_order(request()), Ok(3));
}

#[test]
fn test_cancel_order_verdicts() {
    let mut gateway = mock("mock");
    gateway.next_order_id = 5;
    let cancel = |order_id: u64| CancelRequest {
        symbol: None,
        client_order_id: None,
        order_id,
        gateway: None,
    };
    assert_eq!(gateway.cancel_order(cancel(3)), Ok(()));
    assert_eq!(gateway.cancel_order(cancel(0)), Err(GatewayError::OrderNotFound));
    assert_eq!(gateway.cancel_order(cancel(7)), Err(GatewayError::OrderNotFound));
    gateway.policy = RejectPolicy::RejectAll;
    assert_eq!(gateway.cancel_order(cancel(3)), Err(GatewayError::CancelRejected));
}

#[test]
fn test_query_snapshots() {
    let gateway = mock("mock");
    assert_eq!(gateway.query_account(), Ok(()));
    assert_eq!(gateway.query_position(), Ok(()));
    assert_eq!(gateway.name().as_str(), "mock");
}

#[test]
fn test_read_fabricates_tick() {
    let gateway = mock("mock");
    let tick = gateway.read();
    assert_eq!(tick.symbol, "AAPL");
    assert_eq!(tick.last_price, 1200);
    assert_eq!(tick.volume, 100000);
    assert_eq!(tick.bid_price, 1000);
    assert_eq!(tick.bid_volume, 200000);
    assert_eq!(tick.ask_price, 1305);
    assert_eq!(tick.ask_volume, 230000);
}
