use ib_async_dx::carry::{
    scanner_request, ScanRequest, api_int, stated_int, stk_types, uncarried, with_filter_options, OrderLimits,
};
use ib_async_dx::contract::TagValue;

fn limits() -> OrderLimits {
    OrderLimits::default()
}

fn refusal(o: OrderLimits) -> (i64, String) {
    let r = o.carry().unwrap_err();
    (r.code, r.msg)
}

#[test]
fn each_local_refusal_has_its_code() {
    let past = i64::from(i32::MAX) + 1;
    for (field, o) in [
        ("client_id", OrderLimits { client_id: past, ..limits() }),
        ("delta_neutral_con_id", OrderLimits { delta_neutral_con_id: past, ..limits() }),
        ("reference_contract_id", OrderLimits { reference_contract_id: past, ..limits() }),
        ("ref_futures_con_id", OrderLimits { ref_futures_con_id: -past - 1, ..limits() }),
    ] {
        let (code, msg) = refusal(o);
        assert_eq!(code, 320, "{field}");
        assert!(
            msg.starts_with(&format!("Error reading request:Order.{field} ")),
            "{msg}"
        );
    }
    assert_eq!(
        refusal(OrderLimits { e_trade_only: true, ..limits() }),
        (10268, "The 'EtradeOnly' order attribute is not supported.".to_owned())
    );
    assert_eq!(
        refusal(OrderLimits { firm_quote_only: true, ..limits() }),
        (10269, "The 'FirmQuoteOnly' order attribute is not supported.".to_owned())
    );
    assert_eq!(
        refusal(OrderLimits { nbbo_price_cap_set: true, ..limits() }),
        (10270, "The 'NbboPriceCap' order attribute is not supported.".to_owned())
    );
    // What the TWS API declares `int` is carried to its edge.
    let o = OrderLimits { client_id: i64::from(i32::MIN), ..limits() };
    assert_eq!(o.carry().unwrap().client_id, i32::MIN);
}

#[test]
fn an_id_past_int_names_its_field_value_and_reason() {
    let r = uncarried("Order.client_id", 2147483648, "past the TWS API's int");
    assert_eq!(r.code, 320);
    assert_eq!(
        r.msg,
        "Error reading request:Order.client_id was set to 2147483648, which this client cannot carry: past the TWS API's int"
    );
    let r = api_int("ref_futures_con_id", -2147483649).unwrap_err();
    assert_eq!(
        r.msg,
        "Error reading request:Order.ref_futures_con_id was set to -2147483649, which this client cannot carry: past the TWS API's int"
    );
    assert_eq!(api_int("client_id", 7).unwrap(), 7);
    assert_eq!(api_int("client_id", i64::from(i32::MAX)).unwrap(), i32::MAX);
}

#[test]
fn the_first_refusal_in_field_order_wins() {
    let o = OrderLimits {
        reference_contract_id: i64::MAX,
        delta_neutral_con_id: i64::MIN,
        e_trade_only: true,
        ..limits()
    };
    let (code, msg) = refusal(o);
    assert_eq!(code, 320);
    assert!(msg.starts_with("Error reading request:Order.delta_neutral_con_id was set to -9223372036854775808,"));
    let ids = OrderLimits {
        client_id: 1,
        delta_neutral_con_id: 2,
        reference_contract_id: 3,
        ref_futures_con_id: 4,
        ..limits()
    }
    .carry()
    .unwrap();
    assert_eq!(
        (ids.client_id, ids.delta_neutral_con_id, ids.reference_contract_id, ids.ref_futures_con_id),
        (1, 2, 3, 4)
    );
}

#[test]
fn the_engines_unset_integer_reads_none() {
    assert_eq!(stated_int(i32::MAX), None);
    assert_eq!(stated_int(0), Some(0));
    assert_eq!(stated_int(-5), Some(-5));
}

#[test]
fn stock_type_filters_read_any_case() {
    assert_eq!(stk_types("stock").as_deref(), Some("exc:ETF"));
    assert_eq!(stk_types("Etf").as_deref(), Some("inc:ETF"));
    assert_eq!(stk_types("CORP").as_deref(), Some("inc:CORP"));
    assert_eq!(stk_types("adr").as_deref(), Some("inc:ADR"));
    assert_eq!(stk_types("reit").as_deref(), Some("inc:REIT"));
    assert_eq!(stk_types("cef").as_deref(), Some("inc:CEF"));
    assert_eq!(stk_types("ALL"), None);
    assert_eq!(stk_types(""), None);
    assert_eq!(stk_types("stocks"), None);
}

fn tv(tag: &str, value: &str) -> TagValue {
    TagValue { tag: tag.to_owned(), value: value.to_owned() }
}

#[test]
fn filter_options_replace_their_tag_and_come_last() {
    let filters = vec![tv("priceAbove", "5"), tv("stkTypes", "inc:ETF"), tv("volumeAbove", "100")];
    let options = [tv("priceAbove", "7"), tv("", "skipped"), tv("marketCapAbove1e6", "10"), tv("priceAbove", "8")];
    let got = with_filter_options(filters, &options);
    assert_eq!(
        got,
        vec![
            tv("stkTypes", "inc:ETF"),
            tv("volumeAbove", "100"),
            tv("marketCapAbove1e6", "10"),
            tv("priceAbove", "8"),
        ]
    );
    let once = with_filter_options(vec![tv("a", "1")], &[tv("b", "2")]);
    let twice = with_filter_options(once.clone(), &[tv("b", "2")]);
    assert_eq!(once, twice);
}

fn scan_default() -> ib_async_dx::carry::ScanRequest {
    ib_async_dx::carry::ScanRequest {
        number_of_rows: -1,
        instrument: String::new(),
        location_code: String::new(),
        scan_code: String::new(),
        above_price: None,
        below_price: None,
        above_volume: None,
        market_cap_above: None,
        market_cap_below: None,
        moody_rating_above: String::new(),
        moody_rating_below: String::new(),
        sp_rating_above: String::new(),
        sp_rating_below: String::new(),
        maturity_date_above: String::new(),
        maturity_date_below: String::new(),
        coupon_rate_above: None,
        coupon_rate_below: None,
        exclude_convertible: false,
        average_option_volume_above: None,
        stock_type_filter: String::new(),
    }
}

#[test]
fn a_scanner_subscription_becomes_the_engines_filters() {
    let (instrument, location, code, rows, filters) = scanner_request(&scan_default(), &[]);
    assert_eq!(
        (instrument, location, code, rows),
        (String::new(), String::new(), String::new(), 50)
    );
    assert!(filters.is_empty());

    // The prices are given as the text a float is written as; the engine's
    // unset double (`below_price: f64::MAX`) is given as unset.
    let sub = ScanRequest {
        number_of_rows: 10,
        instrument: "STK".into(),
        location_code: "STK.US.MAJOR".into(),
        scan_code: "TOP_PERC_GAIN".into(),
        above_price: Some("5".into()),
        below_price: None,
        above_volume: Some(100_000),
        average_option_volume_above: Some(i32::MAX),
        market_cap_above: Some("1.5".into()),
        moody_rating_above: "A".into(),
        exclude_convertible: true,
        stock_type_filter: "etf".into(),
        ..scan_default()
    };
    let options = [tv("priceAbove", "7"), tv("", "skipped"), tv("changePercAbove", "2")];
    let (instrument, location, code, rows, filters) = scanner_request(&sub, &options);
    assert_eq!(
        (instrument.as_str(), location.as_str(), code.as_str(), rows),
        ("STK", "STK.US.MAJOR", "TOP_PERC_GAIN", 10)
    );
    let filters: Vec<(&str, &str)> = filters
        .iter()
        .map(|t| (t.tag.as_str(), t.value.as_str()))
        .collect();
    assert_eq!(
        filters,
        [
            ("volumeAbove", "100000"),
            ("marketCapAbove1e6", "1.5"),
            ("moodyRatingAbove", "A"),
            ("excludeConvertible", "true"),
            ("stkTypes", "inc:ETF"),
            ("priceAbove", "7"),
            ("changePercAbove", "2"),
        ]
    );
}
