use ib_async_dx::contract::{forex_parts, sort_legs, ComboLeg, KeyFields, TickerKey};
use ib_async_dx::Error;

fn fields(sec_type: &str, con_id: i64) -> KeyFields {
    KeyFields {
        sec_type: sec_type.to_owned(),
        con_id,
        symbol: String::new(),
        exchange: String::new(),
        combo_legs: Vec::new(),
    }
}

fn leg(con_id: i64, ratio: i32) -> ComboLeg {
    ComboLeg {
        con_id,
        ratio,
        action: "BUY".into(),
        exchange: "SMART".into(),
        ..ComboLeg::default()
    }
}

fn bag(legs: Vec<ComboLeg>, con_id: i64) -> KeyFields {
    KeyFields {
        sec_type: "BAG".to_owned(),
        con_id,
        symbol: "SPY".into(),
        exchange: "SMART".into(),
        combo_legs: legs,
    }
}

#[test]
fn ticker_key_mirrors_hash() {
    let stk = fields("STK", 5);
    assert_eq!(stk.ticker_key("").unwrap(), TickerKey::Id(5));
    assert!(stk.is_hashable());
    // CONTFUT shares its front month's con_id, so it is negated.
    let cf = fields("CONTFUT", 5);
    assert_eq!(cf.ticker_key("").unwrap(), TickerKey::Id(-5));
    let edge = fields("CONTFUT", i64::MIN);
    assert_eq!(edge.ticker_key("").unwrap(), TickerKey::Id(-i128::from(i64::MIN)));

    let unqualified = fields("STK", 0);
    assert!(!unqualified.is_hashable());
    let m = match unqualified.ticker_key("Contract { sec_type: \"STK\" }") {
        Err(Error::Value(m)) => m,
        other => panic!("{other:?}"),
    };
    assert!(m.starts_with("Contract Contract {"), "{m}");
    assert!(
        m.ends_with(
            " can't be hashed because no 'conId' value exists. \
             Qualify contract to populate 'conId'."
        ),
        "{m}"
    );

    // A BAG is keyed by its legs in con_id order, whatever its con_id.
    let k1 = bag(vec![leg(2, 1), leg(1, 1)], 0).ticker_key("").unwrap();
    let k2 = bag(vec![leg(1, 1), leg(2, 1)], 28812380).ticker_key("").unwrap();
    assert_eq!(k1, k2);
    let TickerKey::Bag(legs, symbol, exchange) = &k1 else {
        panic!("{k1:?}")
    };
    assert_eq!(
        legs[0],
        (1, 1, "BUY".into(), "SMART".into(), 0, 0, String::new(), -1)
    );
    assert_eq!((symbol.as_str(), exchange.as_str()), ("SPY", "SMART"));
    assert_ne!(k1, bag(vec![leg(1, 1), leg(2, 2)], 0).ticker_key("").unwrap());
    assert!(bag(Vec::new(), 0).ticker_key("").is_ok());
}

#[test]
fn legs_sort_by_con_id_keeping_the_order_of_equals() {
    let sorted = sort_legs(&vec![leg(3, 1), leg(1, 1), leg(3, 2), leg(2, 1), leg(1, 2)]);
    let got: Vec<(i64, i32)> = sorted.iter().map(|l| (l.con_id, l.ratio)).collect();
    assert_eq!(got, [(1, 1), (1, 2), (2, 1), (3, 1), (3, 2)]);
}

#[test]
fn a_forex_pair_splits_in_three_and_three() {
    assert_eq!(
        forex_parts("EURUSD").unwrap(),
        ("EUR".to_owned(), "USD".to_owned())
    );
    assert_eq!(forex_parts("").unwrap(), (String::new(), String::new()));
    assert_eq!(
        forex_parts("€UR£SD").unwrap(),
        ("€UR".to_owned(), "£SD".to_owned())
    );
    match forex_parts("EURO") {
        Err(Error::Value(m)) => assert_eq!(m, "a forex pair has 6 characters: \"EURO\""),
        other => panic!("{other:?}"),
    }
}

#[test]
fn news_feeds_and_pairs_are_named_from_their_parts() {
    assert_eq!(ib_async_dx::contract::news_symbol("BRFG"), "BRFG:BRFG_ALL");
    assert_eq!(ib_async_dx::contract::news_symbol(""), ":_ALL");
    assert_eq!(ib_async_dx::contract::pair_name("EUR", "USD"), "EURUSD");
}
