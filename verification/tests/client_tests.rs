use ib_async_dx::client::{
    Calculation, Call, Client, ConnState, Session, StatsParts, Traffic, CALCULATION_TIMEOUT_SECS,
};
use ib_async_dx::ids::IdSpace;
use ib_async_dx::lanes::{Ask, Question};
use ib_async_dx::slots::{HandlerId, Slots};
use ib_async_dx::Error;

fn session() -> Session {
    Session {
        accounts: vec!["DU123".to_owned()],
        server_version: 178,
        order_id_floor: 0,
        over: false,
    }
}

fn connected() -> Client {
    let mut client = Client::new(1 << 40);
    let call = client.connect(1, None);
    assert!(matches!(call, Call::Connect { client_id: 1, .. }));
    client.published(session(), 0);
    client
}

fn asked(r: Result<Option<Call>, Error>) -> Option<Ask> {
    match r.unwrap() {
        Some(Call::Ask(a)) => Some(a),
        Some(_) => panic!("not an ask"),
        None => None,
    }
}

#[test]
fn a_client_session_is_published_read_and_closed() {
    let mut client = Client::new(1 << 40);
    assert_eq!(client.client_id(), -1);
    assert!(matches!(client.get_req_id(), Err(Error::NotConnected)));
    assert_eq!(client.conn_state(), ConnState::Disconnected);

    let _ = client.connect(1, None);
    assert_eq!(client.conn_state(), ConnState::Connecting);
    client.published(session(), 10);
    assert_eq!(client.conn_state(), ConnState::Connected);
    assert!(client.is_connected() && client.is_ready());
    assert_eq!(client.client_id(), 1);
    assert_eq!(client.get_accounts().unwrap(), ["DU123"]);
    assert_eq!(client.server_version(), 178);
    assert_eq!(client.started_ms(), 10);
    client.reset(15);
    assert_eq!(client.started_ms(), 15);

    // One id space: numbers go up from the largest floor told of.
    client.update_req_id(1000);
    assert_eq!(client.get_req_id().unwrap(), 1000);
    assert_eq!(client.get_req_id().unwrap(), 1001);
    client.update_req_id(5);
    assert_eq!(client.get_req_id().unwrap(), 1002);

    let _ = client.disconnect();
    client.closed("closed".to_owned());
    assert_eq!(client.conn_state(), ConnState::Disconnected);
    assert!(!client.is_ready());
    assert_eq!(client.server_version(), 0);
    assert_eq!(client.client_id(), 1);
    assert!(matches!(client.get_accounts(), Err(Error::NotConnected)));
    assert!(matches!(client.get_req_id(), Err(Error::NotConnected)));
    assert!(matches!(client.req_positions(), Err(Error::NotConnected)));
}

#[test]
fn a_client_question_waits_in_its_lane_and_behind_its_cancel() {
    let mut client = connected();
    assert_eq!(asked(client.req_positions()), Some(Ask::Positions));
    assert_eq!(asked(client.req_positions()), None, "the second waits in the lane");
    assert_eq!(client.unsent(), 1);
    assert!(matches!(client.cancel_positions(), Ok(Call::CancelPositions)));
    assert_eq!(client.unsent(), 0, "the waiting one withdrawn");
    assert_eq!(asked(client.req_positions()), None, "held until the cancel is confirmed");
    assert!(matches!(client.retired(Question::Positions), Some(Call::Ask(Ask::Positions))));

    let mut client = connected();
    let account = Ask::AccountUpdates { account: "DU123".to_owned() };
    assert_eq!(asked(client.req_account_updates(true, "DU123")), Some(account.clone()));
    assert_eq!(asked(client.req_account_updates(true, "DU123")), None);
    match client.req_account_updates(false, "DU123") {
        Ok(Some(Call::StopAccountUpdates { acct_code })) => assert_eq!(acct_code, "DU123"),
        _ => panic!("not the cancel"),
    }
    assert_eq!(client.unsent(), 0);
    assert_eq!(asked(client.req_account_updates(true, "DU123")), None);
    assert!(matches!(client.retired(Question::AccountUpdates), Some(Call::Ask(a)) if a == account));

    // An answered exchange sends the next one waiting, in order.
    let mut client = connected();
    assert_eq!(asked(client.req_market_rule(1)), Some(Ask::MarketRule(1)));
    assert_eq!(asked(client.req_market_rule(2)), None);
    assert_eq!(asked(client.req_market_rule(3)), None);
    assert!(matches!(client.answered(Question::MarketRule), Some(Call::Ask(Ask::MarketRule(2)))));
    assert!(matches!(client.answered(Question::MarketRule), Some(Call::Ask(Ask::MarketRule(3)))));
    assert!(client.answered(Question::MarketRule).is_none());
    // Other lanes are free meanwhile.
    assert_eq!(asked(client.req_current_time()), Some(Ask::CurrentTime));
}

#[test]
fn ids_are_given_once_and_below_the_engines_range() {
    let mut ids = IdSpace::new(100);
    assert_eq!(ids.allocate(0, 3).unwrap(), 0);
    assert_eq!(ids.allocate(0, 1).unwrap(), 3);
    assert_eq!(ids.allocate(50, 2).unwrap(), 50);
    assert_eq!(ids.allocate(0, 1).unwrap(), 52);
    assert!(ids.allocate(99, 2).is_err());
    assert_eq!(ids.allocate(99, 1).unwrap(), 99);
    assert!(ids.allocate(0, 1).is_err());
}

#[test]
fn disconnect_undoes_connect() {
    let mut slots: Slots<&str> = Slots::new();
    let a = slots.connect("a");
    let b = slots.connect("b");
    assert_ne!(a, b);
    assert!(slots.contains(b));
    assert_eq!(slots.disconnect(b), Some("b"));
    assert!(!slots.contains(b));
    assert_eq!(slots.len(), 1);
    assert_eq!(slots.entries()[0], (a, "a"));
    assert_eq!(slots.disconnect(HandlerId(7)), None);
    assert_eq!(slots.len(), 1);
}

#[test]
fn ids_start_at_the_sessions_floor() {
    let mut client = Client::new(1 << 40);
    client.connect(1, None);
    client.published(Session { order_id_floor: 500, ..session() }, 0);
    assert_eq!(client.get_req_id().unwrap(), 500);
    assert_eq!(client.get_req_id().unwrap(), 501);
    client.update_req_id(1000);
    assert_eq!(client.get_req_id().unwrap(), 1000);
    assert_eq!(client.get_req_id().unwrap(), 1001);
}

#[test]
fn the_last_id_below_the_reserved_range_is_given_then_refused() {
    let mut client = Client::new(3);
    client.connect(1, None);
    client.published(session(), 0);
    assert_eq!(client.get_req_id().unwrap(), 0);
    assert_eq!(client.get_req_id().unwrap(), 1);
    assert_eq!(client.get_req_id().unwrap(), 2);
    assert!(matches!(client.get_req_id(), Err(Error::Value(_))));
}

#[test]
fn a_calculation_is_named_by_its_volatility_flag() {
    assert_eq!(CALCULATION_TIMEOUT_SECS, 4);
    let iv = Calculation::of(true);
    let price = Calculation::of(false);
    assert_eq!(iv, Calculation::ImpliedVolatility);
    assert_eq!(price, Calculation::OptionPrice);
    assert_eq!(iv.label(), "calculateImpliedVolatilityAsync");
    assert_eq!(price.label(), "calculateOptionPriceAsync");
    assert!(matches!(iv.cleanup(7), Call::CancelCalculateImpliedVolatility { req_id: 7 }));
    assert!(matches!(price.cleanup(8), Call::CancelCalculateOptionPrice { req_id: 8 }));
}

#[test]
fn connection_stats_count_the_traffic_since_the_clock_started() {
    let traffic = Traffic {
        bytes_received: 10,
        bytes_sent: u64::MAX,
        messages_received: 2,
        messages_sent: 1,
    };
    let mut client = Client::new(1 << 40);
    assert!(matches!(client.connection_stats(&traffic, 0), Err(Error::NotConnected)));
    client.connect(1, None);
    client.published(session(), 1_000);
    assert_eq!(
        client.connection_stats(&traffic, 4_500).unwrap(),
        StatsParts {
            start_ms: 1_000,
            duration_ms: 3_500,
            num_bytes_recv: 10,
            num_bytes_sent: i64::MAX,
            num_msg_recv: 2,
            num_msg_sent: 1,
        }
    );
    assert_eq!(client.connection_stats(&traffic, 500).unwrap().duration_ms, 0);
    client.reset(2_000);
    assert_eq!(client.connection_stats(&traffic, 4_500).unwrap().duration_ms, 2_500);
    client.given_up();
    assert!(matches!(client.connection_stats(&traffic, 0), Err(Error::NotConnected)));
}

#[test]
fn a_published_session_is_what_the_client_reads() {
    let mut client = Client::new(1 << 40);
    client.connect(1, None);
    assert_eq!(client.conn_state(), ConnState::Connecting);
    client.published(Session { server_version: 176, ..session() }, 0);
    assert_eq!(client.conn_state(), ConnState::Connected);
    assert_eq!(client.server_version(), 176);
    assert_eq!(client.get_accounts().unwrap(), vec!["DU123".to_owned()]);
    client.given_up();
    assert_eq!(client.conn_state(), ConnState::Disconnected);
    assert!(matches!(client.get_accounts(), Err(Error::NotConnected)));

    let mut client = Client::new(1 << 40);
    client.connect(1, None);
    client.take_back();
    assert_eq!(client.conn_state(), ConnState::Disconnected);
}
