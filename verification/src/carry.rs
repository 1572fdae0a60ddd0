//! What a request's values become on their way to the engine: the values a
//! gateway cannot read, refused as it refuses them, the scanner's stock type
//! filter, and the filter options that replace a scan's own filters.

use vstd::prelude::*;
use crate::contract::TagValue;
use crate::text::{chars_of, i64_text, int_text, push_chars, string_of};

verus! {

/// A value the engine cannot carry, refused as a gateway refuses it: the
/// code and text the engine pushes at the call.
#[derive(Clone, Debug, PartialEq, Eq)]
pub struct Refusal {
    /// The gateway's error code.
    pub code: i64,
    /// The gateway's text.
    pub msg: String,
}

/// The text of a value this client cannot carry: the gateway's prefix for a
/// message it cannot read, the field, the value and why.
pub open spec fn uncarried_text(field: Seq<char>, v: int, why: Seq<char>) -> Seq<char> {
    "Error reading request:"@ + field + " was set to "@ + int_text(v)
        + ", which this client cannot carry: "@ + why
}

/// The code of a message a gateway cannot read.
pub const UNREADABLE: i64 = 320;

/// A value this client cannot carry, refused as a gateway refuses a message
/// it cannot read: 320, `Error reading request:` and why.
pub fn uncarried(field: &str, v: i64, why: &str) -> (r: Refusal)
    ensures
        r.code == UNREADABLE,
        r.msg@ == uncarried_text(field@, v as int, why@),
{
    let mut msg = String::new();
    push_chars(&mut msg, &chars_of("Error reading request:"));
    push_chars(&mut msg, &chars_of(field));
    push_chars(&mut msg, &chars_of(" was set to "));
    push_chars(&mut msg, &i64_text(v));
    push_chars(&mut msg, &chars_of(", which this client cannot carry: "));
    push_chars(&mut msg, &chars_of(why));
    Refusal { code: UNREADABLE, msg }
}

/// Whether `v` fits the TWS API's `int`.
pub open spec fn fits_int(v: int) -> bool {
    i32::MIN <= v <= i32::MAX
}

/// Why an order id past `i32` is refused.
pub open spec fn past_int() -> Seq<char> {
    "past the TWS API's int"@
}

/// An `Order` id the TWS API declares `int`, refused past `i32`, which a
/// gateway cannot read.
pub fn api_int(field: &str, v: i64) -> (r: Result<i32, Refusal>)
    ensures
        fits_int(v as int) ==> r == Ok::<i32, Refusal>(v as i32),
        !fits_int(v as int) ==> (r matches Err(e) && e.code == UNREADABLE && e.msg@
            == uncarried_text("Order."@ + field@, v as int, past_int())),
{
    if i32::MIN as i64 <= v && v <= i32::MAX as i64 {
        Ok(v as i32)
    } else {
        let mut name = String::new();
        push_chars(&mut name, &chars_of("Order."));
        push_chars(&mut name, &chars_of(field));
        Err(uncarried(name.as_str(), v, "past the TWS API's int"))
    }
}

/// The fields of an order that a gateway narrows or refuses: four ids the
/// TWS API declares `int`, and three attributes the venue retired.
#[derive(Clone, Copy, Debug, PartialEq, Eq, Default)]
pub struct OrderLimits {
    /// `clientId`.
    pub client_id: i64,
    /// `deltaNeutralConId`.
    pub delta_neutral_con_id: i64,
    /// `referenceContractId`.
    pub reference_contract_id: i64,
    /// `refFuturesConId`.
    pub ref_futures_con_id: i64,
    /// `eTradeOnly`.
    pub e_trade_only: bool,
    /// `firmQuoteOnly`.
    pub firm_quote_only: bool,
    /// Whether `nbboPriceCap` is set.
    pub nbbo_price_cap_set: bool,
}

/// The four ids of an order as the engine takes them.
#[derive(Clone, Copy, Debug, PartialEq, Eq)]
pub struct CarriedIds {
    /// `clientId`.
    pub client_id: i32,
    /// `deltaNeutralConId`.
    pub delta_neutral_con_id: i32,
    /// `referenceContractId`.
    pub reference_contract_id: i32,
    /// `refFuturesConId`.
    pub ref_futures_con_id: i32,
}

/// The refusal of a retired order attribute: its code and text.
pub open spec fn retired(code: int, name: Seq<char>) -> (int, Seq<char>) {
    (code, "The '"@ + name + "' order attribute is not supported."@)
}

/// What the engine is handed for an order's limits, or the first refusal:
/// each id past `i32` in the order of the fields, then each retired
/// attribute that is set.
pub open spec fn carried(o: OrderLimits) -> Result<(int, int, int, int), (int, Seq<char>)> {
    if !fits_int(o.client_id as int) {
        Err((320, uncarried_text("Order.client_id"@, o.client_id as int, past_int())))
    } else if !fits_int(o.delta_neutral_con_id as int) {
        Err(
            (
                320,
                uncarried_text(
                    "Order.delta_neutral_con_id"@,
                    o.delta_neutral_con_id as int,
                    past_int(),
                ),
            ),
        )
    } else if !fits_int(o.reference_contract_id as int) {
        Err(
            (
                320,
                uncarried_text(
                    "Order.reference_contract_id"@,
                    o.reference_contract_id as int,
                    past_int(),
                ),
            ),
        )
    } else if !fits_int(o.ref_futures_con_id as int) {
        Err(
            (
                320,
                uncarried_text(
                    "Order.ref_futures_con_id"@,
                    o.ref_futures_con_id as int,
                    past_int(),
                ),
            ),
        )
    } else if o.e_trade_only {
        Err(retired(10268, "EtradeOnly"@))
    } else if o.firm_quote_only {
        Err(retired(10269, "FirmQuoteOnly"@))
    } else if o.nbbo_price_cap_set {
        Err(retired(10270, "NbboPriceCap"@))
    } else {
        Ok(
            (
                o.client_id as int,
                o.delta_neutral_con_id as int,
                o.reference_contract_id as int,
                o.ref_futures_con_id as int,
            ),
        )
    }
}

/// The refusal of a retired attribute.
fn retired_refusal(code: i64, name: &str) -> (r: Refusal)
    ensures
        (r.code as int, r.msg@) == retired(code as int, name@),
{
    let mut msg = String::new();
    push_chars(&mut msg, &chars_of("The '"));
    push_chars(&mut msg, &chars_of(name));
    push_chars(&mut msg, &chars_of("' order attribute is not supported."));
    Refusal { code, msg }
}

impl OrderLimits {
    /// The order's ids as the engine takes them, or what a gateway answers
    /// an order it cannot take: the first id past `i32` under 320, else the
    /// first retired attribute set, under the code a gateway uses for it.
    pub fn carry(&self) -> (r: Result<CarriedIds, Refusal>)
        ensures
            match carried(*self) {
                Ok((a, b, c, d)) => r matches Ok(ids) && ids.client_id == a
                    && ids.delta_neutral_con_id == b && ids.reference_contract_id == c
                    && ids.ref_futures_con_id == d,
                Err((code, msg)) => r matches Err(e) && e.code == code && e.msg@ == msg,
            },
    {
        proof {
            reveal_strlit("Order.");
            reveal_strlit("client_id");
            reveal_strlit("delta_neutral_con_id");
            reveal_strlit("reference_contract_id");
            reveal_strlit("ref_futures_con_id");
            reveal_strlit("Order.client_id");
            reveal_strlit("Order.delta_neutral_con_id");
            reveal_strlit("Order.reference_contract_id");
            reveal_strlit("Order.ref_futures_con_id");
        }
        let client_id = match api_int("client_id", self.client_id) {
            Ok(v) => v,
            Err(e) => return Err(e),
        };
        let delta_neutral_con_id = match api_int("delta_neutral_con_id", self.delta_neutral_con_id) {
            Ok(v) => v,
            Err(e) => return Err(e),
        };
        let reference_contract_id = match api_int(
            "reference_contract_id",
            self.reference_contract_id,
        ) {
            Ok(v) => v,
            Err(e) => return Err(e),
        };
        let ref_futures_con_id = match api_int("ref_futures_con_id", self.ref_futures_con_id) {
            Ok(v) => v,
            Err(e) => return Err(e),
        };
        if self.e_trade_only {
            return Err(retired_refusal(10268, "EtradeOnly"));
        }
        if self.firm_quote_only {
            return Err(retired_refusal(10269, "FirmQuoteOnly"));
        }
        if self.nbbo_price_cap_set {
            return Err(retired_refusal(10270, "NbboPriceCap"));
        }
        Ok(CarriedIds { client_id, delta_neutral_con_id, reference_contract_id, ref_futures_con_id })
    }
}

/// `None` where the engine states its unset integer, `i32::MAX`.
pub fn stated_int(v: i32) -> (r: Option<i32>)
    ensures
        r == (if v == i32::MAX { None::<i32> } else { Some(v) }),
{
    if v != i32::MAX {
        Some(v)
    } else {
        None
    }
}

/// A character as `to_ascii_uppercase` gives it.
pub open spec fn upper_char(c: char) -> char {
    if 'a' <= c <= 'z' {
        ((c as int) - 32) as char
    } else {
        c
    }
}

/// A text as `to_ascii_uppercase` gives it.
pub open spec fn ascii_upper(s: Seq<char>) -> Seq<char> {
    Seq::new(s.len(), |i: int| upper_char(s[i]))
}

/// The engine's `stkTypes` filter for ib_async's `stockTypeFilter`, read
/// without regard to ASCII case: `ALL` and any other name filter nothing.
pub open spec fn stk_code(name: Seq<char>) -> Option<Seq<char>> {
    let u = ascii_upper(name);
    if u == "STOCK"@ {
        Some("exc:ETF"@)
    } else if u == "ETF"@ {
        Some("inc:ETF"@)
    } else if u == "CORP"@ {
        Some("inc:CORP"@)
    } else if u == "ADR"@ {
        Some("inc:ADR"@)
    } else if u == "REIT"@ {
        Some("inc:REIT"@)
    } else if u == "CEF"@ {
        Some("inc:CEF"@)
    } else {
        None
    }
}

/// `name` in ASCII capitals.
fn to_ascii_upper(name: &str) -> (r: String)
    ensures
        r@ == ascii_upper(name@),
{
    let cs = chars_of(name);
    let mut out: Vec<char> = Vec::new();
    let mut i: usize = 0;
    while i < cs.len()
        invariant
            i <= cs.len(),
            cs@ == name@,
            out@ == ascii_upper(name@).take(i as int),
        decreases cs.len() - i,
    {
        let c = cs[i];
        let u = if 'a' <= c && c <= 'z' {
            let b = c as u32 - 32;
            assert(65 <= b <= 90);
            char_of_ascii(b)
        } else {
            c
        };
        out.push(u);
        i += 1;
        assert(out@ =~= ascii_upper(name@).take(i as int));
    }
    assert(out@ =~= ascii_upper(name@));
    string_of(&out)
}

/// The character of an ASCII capital's code.
fn char_of_ascii(b: u32) -> (c: char)
    requires
        65 <= b <= 90,
    ensures
        c as int == b as int,
{
    let v: u8 = b as u8;
    v as char
}

/// The engine's `stkTypes` filter for ib_async's `stockTypeFilter`, or
/// none.
pub fn stk_types(name: &str) -> (r: Option<String>)
    ensures
        match stk_code(name@) {
            Some(code) => r matches Some(s) && s@ == code,
            None => r is None,
        },
{
    let u = to_ascii_upper(name);
    if u == "STOCK".to_owned() {
        Some("exc:ETF".to_owned())
    } else if u == "ETF".to_owned() {
        Some("inc:ETF".to_owned())
    } else if u == "CORP".to_owned() {
        Some("inc:CORP".to_owned())
    } else if u == "ADR".to_owned() {
        Some("inc:ADR".to_owned())
    } else if u == "REIT".to_owned() {
        Some("inc:REIT".to_owned())
    } else if u == "CEF".to_owned() {
        Some("inc:CEF".to_owned())
    } else {
        None
    }
}

/// A filter tagged otherwise than `tag`.
pub open spec fn tag_differs(tag: Seq<char>) -> spec_fn(TagValue) -> bool {
    |f: TagValue| f.tag@ != tag
}

/// One filter option on `filters`: an option with an empty tag is skipped;
/// any other replaces every filter of its tag and comes last.
pub open spec fn with_option(filters: Seq<TagValue>, option: TagValue) -> Seq<TagValue> {
    if option.tag@.len() == 0 {
        filters
    } else {
        filters.filter(tag_differs(option.tag@)).push(option)
    }
}

/// The filter options on `filters`, one after the other.
pub open spec fn with_options(filters: Seq<TagValue>, options: Seq<TagValue>) -> Seq<TagValue>
    decreases options.len(),
{
    if options.len() == 0 {
        filters
    } else {
        with_option(with_options(filters, options.drop_last()), options.last())
    }
}

/// A copy of `t`.
pub fn copy_tag(t: &TagValue) -> (r: TagValue)
    ensures
        r == *t,
{
    TagValue { tag: t.tag.clone(), value: t.value.clone() }
}

/// `filters` less those tagged `tag`, in order.
fn drop_tag(filters: &Vec<TagValue>, tag: &String) -> (r: Vec<TagValue>)
    ensures
        r@ == filters@.filter(tag_differs(tag@)),
{
    let mut out: Vec<TagValue> = Vec::new();
    let mut i: usize = 0;
    while i < filters.len()
        invariant
            i <= filters.len(),
            out@ == filters@.take(i as int).filter(tag_differs(tag@)),
        decreases filters.len() - i,
    {
        proof {
            reveal(Seq::filter);
            assert(filters@.take(i + 1).drop_last() =~= filters@.take(i as int));
            assert(filters@.take(i + 1).last() == filters@[i as int]);
        }
        if filters[i].tag != *tag {
            out.push(copy_tag(&filters[i]));
        }
        i += 1;
    }
    assert(filters@.take(filters@.len() as int) =~= filters@);
    out
}

/// The scan's filters with ib_async's `scannerSubscriptionFilterOptions`
/// on them: each option with a tag replaces every filter of its tag and
/// comes after the rest, in the order given; an option with an empty tag is
/// skipped.
pub fn with_filter_options(filters: Vec<TagValue>, options: &[TagValue]) -> (r: Vec<TagValue>)
    ensures
        r@ == with_options(filters@, options@),
{
    let mut out = filters;
    let ghost start = out@;
    let mut i: usize = 0;
    while i < options.len()
        invariant
            i <= options.len(),
            out@ == with_options(start, options@.take(i as int)),
        decreases options.len() - i,
    {
        proof {
            assert(options@.take(i + 1).drop_last() =~= options@.take(i as int));
            assert(options@.take(i + 1).last() == options@[i as int]);
        }
        let option = &options[i];
        if !option.tag.as_str().is_empty() {
            let mut kept = drop_tag(&out, &option.tag);
            kept.push(copy_tag(option));
            out = kept;
        }
        i += 1;
    }
    assert(options@.take(options@.len() as int) =~= options@);
    out
}

/// The stock type filter reads a name without regard to ASCII case: a name
/// and its capitals give the same filter.
pub proof fn law_stock_type_ignores_case(name: Seq<char>)
    ensures
        stk_code(ascii_upper(name)) == stk_code(name),
{
    assert(ascii_upper(ascii_upper(name)) =~= ascii_upper(name));
}

/// Dropping the filters of a tag twice drops no more than once.
proof fn lemma_filter_twice(s: Seq<TagValue>, tag: Seq<char>)
    ensures
        s.filter(tag_differs(tag)).filter(tag_differs(tag)) == s.filter(tag_differs(tag)),
    decreases s.len(),
{
    reveal(Seq::filter);
    if s.len() > 0 {
        lemma_filter_twice(s.drop_last(), tag);
        let f = s.drop_last().filter(tag_differs(tag));
        if tag_differs(tag)(s.last()) {
            assert(f.push(s.last()).drop_last() =~= f);
        }
    }
}

/// A filter option given twice acts as given once: the second finds only
/// itself to replace.
pub proof fn law_filter_option_is_idempotent(filters: Seq<TagValue>, option: TagValue)
    ensures
        with_option(with_option(filters, option), option) == with_option(filters, option),
{
    if option.tag@.len() > 0 {
        reveal(Seq::filter);
        let p = tag_differs(option.tag@);
        let f = filters.filter(p);
        lemma_filter_twice(filters, option.tag@);
        assert(f.push(option).drop_last() =~= f);
        assert(!p(option));
        assert(f.push(option).filter(p) == f.filter(p));
    }
}

/// After a filter option with a tag, the option is the one filter of its
/// tag, and it comes last.
pub proof fn law_filter_option_replaces_its_tag(filters: Seq<TagValue>, option: TagValue)
    requires
        option.tag@.len() > 0,
    ensures
        with_option(filters, option).last() == option,
        forall|i: int|
            0 <= i < with_option(filters, option).len() - 1 ==> (#[trigger] with_option(
                filters,
                option,
            )[i]).tag@ != option.tag@,
{
    let p = tag_differs(option.tag@);
    assert forall|i: int| 0 <= i < filters.filter(p).len() implies p(
        #[trigger] filters.filter(p)[i],
    ) by {
        filters.lemma_filter_pred(p, i);
    }
}

// -- A scanner subscription's request -------------------------------------------

/// A scanner subscription as its request is built: ib_async's
/// `ScannerSubscription`, each number with a fraction given as the text
/// ib_async writes for it, or `None` where it is unset or at the engine's
/// unset value.
#[derive(Clone, Debug, PartialEq, Eq)]
pub struct ScanRequest {
    /// `numberOfRows`; a negative count asks for the default.
    pub number_of_rows: i32,
    /// `instrument`.
    pub instrument: String,
    /// `locationCode`.
    pub location_code: String,
    /// `scanCode`.
    pub scan_code: String,
    /// `abovePrice`, as text.
    pub above_price: Option<String>,
    /// `belowPrice`, as text.
    pub below_price: Option<String>,
    /// `aboveVolume`.
    pub above_volume: Option<i32>,
    /// `marketCapAbove`, as text.
    pub market_cap_above: Option<String>,
    /// `marketCapBelow`, as text.
    pub market_cap_below: Option<String>,
    /// `moodyRatingAbove`.
    pub moody_rating_above: String,
    /// `moodyRatingBelow`.
    pub moody_rating_below: String,
    /// `spRatingAbove`.
    pub sp_rating_above: String,
    /// `spRatingBelow`.
    pub sp_rating_below: String,
    /// `maturityDateAbove`.
    pub maturity_date_above: String,
    /// `maturityDateBelow`.
    pub maturity_date_below: String,
    /// `couponRateAbove`, as text.
    pub coupon_rate_above: Option<String>,
    /// `couponRateBelow`, as text.
    pub coupon_rate_below: Option<String>,
    /// `excludeConvertible`.
    pub exclude_convertible: bool,
    /// `averageOptionVolumeAbove`.
    pub average_option_volume_above: Option<i32>,
    /// `stockTypeFilter`.
    pub stock_type_filter: String,
}

/// A filter's tag and value as texts.
pub open spec fn tag_text(t: TagValue) -> (Seq<char>, Seq<char>) {
    (t.tag@, t.value@)
}

/// The filter `tag` with value `v`, or none.
pub open spec fn entry(tag: Seq<char>, v: Option<Seq<char>>) -> Seq<(Seq<char>, Seq<char>)> {
    match v {
        Some(x) => seq![(tag, x)],
        None => Seq::empty(),
    }
}

/// An optional text's view.
pub open spec fn text_opt(v: Option<String>) -> Option<Seq<char>> {
    match v {
        Some(s) => Some(s@),
        None => None,
    }
}

/// An integer filter's value: none where unset or at the engine's unset
/// integer.
pub open spec fn int_value(v: Option<i32>) -> Option<Seq<char>> {
    match v {
        Some(n) => if n == i32::MAX {
            None
        } else {
            Some(int_text(n as int))
        },
        None => None,
    }
}

/// A text filter's value: none where empty.
pub open spec fn text_value(s: Seq<char>) -> Option<Seq<char>> {
    if s.len() == 0 {
        None
    } else {
        Some(s)
    }
}

/// The filters a subscription's fields make, in the engine's order, each
/// unset one skipped.
pub open spec fn named_filters(sub: ScanRequest) -> Seq<(Seq<char>, Seq<char>)> {
    entry("priceAbove"@, text_opt(sub.above_price)) + entry("priceBelow"@, text_opt(sub.below_price))
        + entry("volumeAbove"@, int_value(sub.above_volume)) + entry(
        "marketCapAbove1e6"@,
        text_opt(sub.market_cap_above),
    ) + entry("marketCapBelow1e6"@, text_opt(sub.market_cap_below)) + entry(
        "moodyRatingAbove"@,
        text_value(sub.moody_rating_above@),
    ) + entry("moodyRatingBelow"@, text_value(sub.moody_rating_below@)) + entry(
        "spRatingAbove"@,
        text_value(sub.sp_rating_above@),
    ) + entry("spRatingBelow"@, text_value(sub.sp_rating_below@)) + entry(
        "maturityDateAbove"@,
        text_value(sub.maturity_date_above@),
    ) + entry("maturityDateBelow"@, text_value(sub.maturity_date_below@)) + entry(
        "couponRateAbove"@,
        text_opt(sub.coupon_rate_above),
    ) + entry("couponRateBelow"@, text_opt(sub.coupon_rate_below)) + entry(
        "avgOptVolumeAbove"@,
        int_value(sub.average_option_volume_above),
    ) + entry(
        "excludeConvertible"@,
        if sub.exclude_convertible {
            Some("true"@)
        } else {
            None
        },
    ) + entry("stkTypes"@, stk_code(sub.stock_type_filter@))
}

/// The rows a scan asks for: a negative count asks for 50.
pub open spec fn rows_of(n: i32) -> u32 {
    if n >= 0 {
        n as u32
    } else {
        50
    }
}

/// Appends the filter `tag` with value `v`, if there is one.
fn push_entry(out: &mut Vec<TagValue>, tag: &str, v: Option<String>)
    ensures
        final(out)@.map_values(|t: TagValue| tag_text(t)) == old(out)@.map_values(
            |t: TagValue| tag_text(t),
        ) + entry(tag@, text_opt(v)),
{
    let ghost before = out@;
    match v {
        Some(x) => {
            out.push(TagValue { tag: tag.to_owned(), value: x });
        },
        None => {},
    }
    assert(out@.map_values(|t: TagValue| tag_text(t)) =~= before.map_values(
        |t: TagValue| tag_text(t),
    ) + entry(tag@, text_opt(v)));
}

/// A copy of an optional text.
fn copy_opt(v: &Option<String>) -> (r: Option<String>)
    ensures
        text_opt(r) == text_opt(*v),
{
    match v {
        Some(s) => Some(s.clone()),
        None => None,
    }
}

/// An integer filter's value.
fn int_filter(v: Option<i32>) -> (r: Option<String>)
    ensures
        text_opt(r) == int_value(v),
{
    match v {
        Some(n) => if n == i32::MAX {
            None
        } else {
            Some(string_of(&i64_text(n as i64)))
        },
        None => None,
    }
}

/// A text filter's value.
fn text_filter(s: &String) -> (r: Option<String>)
    ensures
        text_opt(r) == text_value(s@),
{
    if s.as_str().is_empty() {
        None
    } else {
        Some(s.clone())
    }
}

/// The arguments of the engine's `req_scanner_subscription` for ib_async's
/// `reqScannerSubscription(subscription, …, scannerSubscriptionFilterOptions)`:
/// instrument, location code, scan code, rows and filter tags. A negative
/// row count asks for 50. Each field set becomes the engine's filter tag for
/// it; the filter options follow, each replacing a filter of its tag, an
/// empty tag skipped.
pub fn scanner_request(sub: &ScanRequest, filter_options: &[TagValue]) -> (r: (
    String,
    String,
    String,
    u32,
    Vec<TagValue>,
))
    ensures
        r.0@ == sub.instrument@,
        r.1@ == sub.location_code@,
        r.2@ == sub.scan_code@,
        r.3 == rows_of(sub.number_of_rows),
        exists|named: Seq<TagValue>|
            named.map_values(|t: TagValue| tag_text(t)) == named_filters(*sub) && r.4@
                == with_options(named, filter_options@),
{
    let mut named: Vec<TagValue> = Vec::new();
    push_entry(&mut named, "priceAbove", copy_opt(&sub.above_price));
    push_entry(&mut named, "priceBelow", copy_opt(&sub.below_price));
    push_entry(&mut named, "volumeAbove", int_filter(sub.above_volume));
    push_entry(&mut named, "marketCapAbove1e6", copy_opt(&sub.market_cap_above));
    push_entry(&mut named, "marketCapBelow1e6", copy_opt(&sub.market_cap_below));
    push_entry(&mut named, "moodyRatingAbove", text_filter(&sub.moody_rating_above));
    push_entry(&mut named, "moodyRatingBelow", text_filter(&sub.moody_rating_below));
    push_entry(&mut named, "spRatingAbove", text_filter(&sub.sp_rating_above));
    push_entry(&mut named, "spRatingBelow", text_filter(&sub.sp_rating_below));
    push_entry(&mut named, "maturityDateAbove", text_filter(&sub.maturity_date_above));
    push_entry(&mut named, "maturityDateBelow", text_filter(&sub.maturity_date_below));
    push_entry(&mut named, "couponRateAbove", copy_opt(&sub.coupon_rate_above));
    push_entry(&mut named, "couponRateBelow", copy_opt(&sub.coupon_rate_below));
    push_entry(&mut named, "avgOptVolumeAbove", int_filter(sub.average_option_volume_above));
    let convertible = if sub.exclude_convertible {
        Some("true".to_owned())
    } else {
        None
    };
    push_entry(&mut named, "excludeConvertible", convertible);
    push_entry(&mut named, "stkTypes", stk_types(sub.stock_type_filter.as_str()));
    let ghost made = named@;
    assert(made.map_values(|t: TagValue| tag_text(t)) =~= named_filters(*sub));
    let filters = with_filter_options(named, filter_options);
    let rows: u32 = if sub.number_of_rows >= 0 {
        sub.number_of_rows as u32
    } else {
        50
    };
    (sub.instrument.clone(), sub.location_code.clone(), sub.scan_code.clone(), rows, filters)
}

} // verus!
