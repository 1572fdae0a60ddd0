use ib_async_dx::flex::{in_progress, parse, reference, FlexReport, UrlSetting, FLEXREPORT_URL};
use ib_async_dx::url::is_valid_url;
use ib_async_dx::xml::{qualified, Element};
use ib_async_dx::Error;

const REPORT: &str = r#"<?xml version="1.0" encoding="UTF-8"?>
<FlexQueryResponse queryName="trades" type="AF">
<FlexStatements count="1">
<FlexStatement accountId="U1234567" fromDate="20240102" toDate="20240102" whenGenerated="20240103;083015">
<Trades>
<!-- two trades -->
<Trade accountId="U1234567" currency="USD" symbol="AAPL" conid="265598" quantity="100" tradePrice="185.64" ibCommission="-1" tradeDate="20240102" notes="" />
<Trade accountId="U1234567" currency="USD" symbol="MSFT" conid="272093" quantity="-50" tradePrice="370.6" ibCommission="-0.35" tradeDate="20240102" notes="P" />
</Trades>
<CashReport />
</FlexStatement>
</FlexStatements>
</FlexQueryResponse>
"#;

fn tags(v: Vec<&Element>) -> Vec<&str> {
    v.into_iter().map(|e| e.tag.as_str()).collect()
}

fn tree(xml: &str) -> Element {
    FlexReport { data: xml.as_bytes().to_vec() }.root().unwrap()
}

fn text(e: &Error) -> String {
    e.text()
}

#[test]
fn topics_are_the_tags_that_have_attributes() {
    let report = FlexReport { data: REPORT.as_bytes().to_vec() };
    assert_eq!(
        report.topics().unwrap(),
        ["FlexQueryResponse", "FlexStatement", "FlexStatements", "Trade"]
    );
}

#[test]
fn root_is_elementtrees_tree() {
    let root = tree(REPORT);
    assert_eq!(root.tag, "FlexQueryResponse");
    let attrib: Vec<_> = root.attrib.iter().map(|(k, v)| (k.as_str(), v.as_str())).collect();
    assert_eq!(attrib, [("queryName", "trades"), ("type", "AF")]);
    assert_eq!(root.text.as_deref(), Some("\n"));
    assert_eq!(root.tail, None);

    let all = [
        "FlexQueryResponse",
        "FlexStatements",
        "FlexStatement",
        "Trades",
        "Trade",
        "Trade",
        "CashReport",
    ];
    assert_eq!(tags(root.iter(None)), all);
    assert_eq!(tags(root.iter(Some("*"))), all);
    assert_eq!(tags(root.iter(Some("Trade"))), ["Trade", "Trade"]);
    assert_eq!(tags(root.iter(Some("FlexQueryResponse"))), ["FlexQueryResponse"]);

    // find and findall look at children only.
    assert!(root.find("Trades").is_none());
    assert_eq!(root.findall("FlexStatements").len(), 1);
    let trades = root
        .find("FlexStatements")
        .and_then(|e| e.find("FlexStatement"))
        .and_then(|e| e.find("Trades"))
        .unwrap();
    // The comment drops out and the text around it joins.
    assert_eq!(trades.text.as_deref(), Some("\n\n"));
    assert_eq!(trades.findall("Trade").len(), 2);
    assert!(trades.children.iter().all(|c| c.tail.as_deref() == Some("\n")));
    assert_eq!(trades.tail.as_deref(), Some("\n"));
    assert_eq!(trades.children[0].text, None);

    // Namespaces, a processing instruction, a document type and a BOM.
    let r = tree(r#"<r xmlns="u"><c a="1" xml:lang="en"/>x<?pi y?>z</r>"#);
    assert_eq!(r.tag, "{u}r");
    assert_eq!(r.children[0].tag, "{u}c");
    let keys: Vec<_> = r.children[0].attrib.iter().map(|(k, _)| k.as_str()).collect();
    assert_eq!(keys, ["a", "{http://www.w3.org/XML/1998/namespace}lang"]);
    assert_eq!(r.children[0].tail.as_deref(), Some("xz"));
    let r = tree(r#"<!DOCTYPE r [<!ENTITY e "v">]><r a="&e;">&e;</r>"#);
    assert_eq!((r.attrib[0].1.as_str(), r.text.as_deref()), ("v", Some("v")));
    assert_eq!(tree("\u{feff}<r/>").tag, "r");
}

#[test]
fn invalid_xml_is_a_flex_error() {
    let bad = FlexReport { data: b"<a>".to_vec() };
    assert!(matches!(bad.root(), Err(Error::Flex(_))));
    assert!(matches!(bad.topics(), Err(Error::Flex(_))));
    assert!(matches!(FlexReport::default().root(), Err(Error::Flex(_))));
    assert!(matches!(parse(&[0xff, 0xfe]), Err(Error::Flex(_))));
}

#[test]
fn get_url_validation() {
    for (url, valid) in [
        (FLEXREPORT_URL, true),
        ("", false),
        ("ndcdyn.interactivebrokers.com/x", false),
        ("https://", false),
        ("http://[::1", false),
        ("http://[::1]:8080/x", true),
        ("http://[fe80::1%25eth0]/", true),
        ("http://[1.2.3.4]/", false),
        ("http://[v1.x]/", true),
        ("http://[vz.x]/", false),
        ("http://a[::1]/", false),
        ("http://[::1]x/", false),
        ("http://]h/", false),
        ("http://[::1]:/", true),
        ("file:///tmp/x", false),
        ("localhost:8080/path", false),
        (" \t https://h/", true),
        ("ht\ntp://h/", true),
        ("1http://h/", false),
        ("h_t://h/", false),
        ("HTTP://h?x", true),
        ("https://h#f", true),
        ("https://u@h:1", true),
    ] {
        assert_eq!(is_valid_url(url), valid, "{url:?}");
    }
    assert_eq!(FlexReport::url_for(UrlSetting::Unset).unwrap(), FLEXREPORT_URL);
    assert_eq!(
        FlexReport::url_for(UrlSetting::Given("https://h/x?".to_owned())).unwrap(),
        "https://h/x?"
    );
    for setting in [UrlSetting::Given("nope".to_owned()), UrlSetting::NotUnicode] {
        assert_eq!(
            text(&FlexReport::url_for(setting).unwrap_err()),
            "Invalid URL, please check that env variable IB_FLEXREPORT_URL is set correctly."
        );
    }
}

#[test]
fn bracketed_hosts_are_rusts_ipv6_addresses() {
    for (host, valid) in [
        ("::", true),
        ("::1", true),
        ("1::", true),
        ("1:2:3:4:5:6:7:8", true),
        ("1:2:3:4:5:6:7::", true),
        ("::2:3:4:5:6:7:8", true),
        ("1:2:3:4:5:6:7:8:9", false),
        ("1:2:3:4:5:6:7", false),
        ("1::2::3", false),
        (":::1", false),
        ("1:::2", false),
        ("12345::", false),
        ("ffff::", true),
        ("FFFF::abcd", true),
        ("g::", false),
        ("::1.2.3.4", true),
        ("::ffff:192.168.0.1", true),
        ("1:2:3:4:5:6:1.2.3.4", true),
        ("1:2:3:4:5:1.2.3.4", false),
        ("1:2:3:4:5:6:7:1.2.3.4", false),
        ("1.2.3.4::", false),
        ("::1.2.3.256", false),
        ("::1.2.3.04", false),
        ("::1.2.3", false),
        ("::1.2.3.4.5", false),
        ("1:2:3:4:5:6::1.2.3.4", false),
        ("1:2:3:4:5::1.2.3.4", true),
    ] {
        let url = format!("http://[{host}]/");
        assert_eq!(is_valid_url(&url), valid, "{host:?}");
    }
}

#[test]
fn download_answers_read_as_ib_async_reads_them() {
    let ok = tree(
        "<FlexStatementResponse><Status>Success</Status>\
         <ReferenceCode>123</ReferenceCode><Url>https://h/Get</Url></FlexStatementResponse>",
    );
    assert_eq!(
        reference(&ok).unwrap(),
        ("123".to_owned(), "https://h/Get".to_owned())
    );
    let no_url = tree("<r><Status>Success</Status><ReferenceCode>1</ReferenceCode></r>");
    assert!(matches!(reference(&no_url), Err(Error::Value(_))));
    let refused = tree(
        "<r><Status>Fail</Status><ErrorCode>1012</ErrorCode>\
         <ErrorMessage>Token has expired.</ErrorMessage></r>",
    );
    assert_eq!(text(&reference(&refused).unwrap_err()), "1012: Token has expired.");
    let bare = tree("<r><ErrorCode/></r>");
    assert_eq!(text(&reference(&bare).unwrap_err()), "None: ");

    let working =
        tree("<r><code>Statement generation in progress. Please try again shortly.</code></r>");
    assert!(in_progress(&working).unwrap());
    let failed = tree("<r><code>Statement could not be generated.</code></r>");
    assert_eq!(
        text(&in_progress(&failed).unwrap_err()),
        "Statement could not be generated."
    );
    assert!(!in_progress(&tree(REPORT)).unwrap());
    assert!(matches!(in_progress(&tree("<r/>")), Err(Error::Value(_))));
}

#[test]
fn names_with_a_namespace_are_qualified() {
    assert_eq!(qualified(Some("u"), "r"), "{u}r");
    assert_eq!(qualified(None, "r"), "r");
}

#[test]
fn extract_gives_each_topic_element_its_attributes() {
    let report = FlexReport { data: REPORT.as_bytes().to_vec() };
    let trades = report.extract_text("Trade").unwrap();
    assert_eq!(trades.len(), 2);
    let field = |row: &Vec<(String, String)>, k: &str| {
        row.iter().find(|(n, _)| n == k).map(|(_, v)| v.clone())
    };
    assert_eq!(field(&trades[0], "conid").as_deref(), Some("265598"));
    assert_eq!(field(&trades[0], "tradePrice").as_deref(), Some("185.64"));
    assert_eq!(field(&trades[1], "symbol").as_deref(), Some("MSFT"));
    let statements = report.extract_text("FlexStatement").unwrap();
    assert_eq!(statements.len(), 1);
    assert_eq!(field(&statements[0], "whenGenerated").as_deref(), Some("20240103;083015"));
    assert!(report.extract_text("Nope").unwrap().is_empty());
    let broken = FlexReport { data: b"<a>".to_vec() };
    assert!(matches!(broken.extract_text("a"), Err(Error::Flex(_))));
}
