use ib_async_dx::Error;

#[test]
fn display_is_ib_asyncs_text() {
    let request = Error::Request {
        req_id: 7,
        code: 200,
        message: "No security definition has been found".into(),
    };
    assert_eq!(
        request.text(),
        "[reqId 7] API error: 200: No security definition has been found"
    );
    assert_eq!(Error::NotConnected.text(), "Not connected");
    assert_eq!(Error::Timeout.text(), "timed out");
    assert_eq!(Error::Value("bad pair".into()).text(), "bad pair");
    let io = Error::Io("no thread".into());
    assert_eq!(io.text(), "no thread");
}

#[test]
fn a_negative_request_number_and_code_show_their_sign() {
    let e = Error::Request { req_id: -1, code: i64::MIN, message: "m".into() };
    assert_eq!(e.text(), "[reqId -1] API error: -9223372036854775808: m");
}
