//! ib_async's plain data objects that hold no number with a fraction.

use vstd::prelude::*;

verus! {

/// A soft dollar tier: ib_async's `SoftDollarTier`. ib_async's truth test
/// is `tier != SoftDollarTier::default()`.
#[derive(Clone, Debug, Default, PartialEq, Eq)]
pub struct SoftDollarTier {
    /// `name`.
    pub name: String,
    /// `val`.
    pub val: String,
    /// `displayName`.
    pub display_name: String,
}

/// Which executions to ask for: ib_async's `ExecutionFilter`.
#[derive(Clone, Debug, Default, PartialEq, Eq)]
pub struct ExecutionFilter {
    /// `clientId`.
    pub client_id: i64,
    /// `acctCode`.
    pub acct_code: String,
    /// `time`.
    pub time: String,
    /// `symbol`.
    pub symbol: String,
    /// `secType`.
    pub sec_type: String,
    /// `exchange`.
    pub exchange: String,
    /// `side`.
    pub side: String,
}

/// A tick's attributes: ib_async's `TickAttrib`.
#[derive(Clone, Debug, Default, PartialEq, Eq)]
pub struct TickAttrib {
    /// `canAutoExecute`.
    pub can_auto_execute: bool,
    /// `pastLimit`.
    pub past_limit: bool,
    /// `preOpen`.
    pub pre_open: bool,
}

/// A bid/ask tick's attributes: ib_async's `TickAttribBidAsk`.
#[derive(Clone, Debug, Default, PartialEq, Eq)]
pub struct TickAttribBidAsk {
    /// `bidPastLow`.
    pub bid_past_low: bool,
    /// `askPastHigh`.
    pub ask_past_high: bool,
}

/// A trade tick's attributes: ib_async's `TickAttribLast`.
#[derive(Clone, Debug, Default, PartialEq, Eq)]
pub struct TickAttribLast {
    /// `pastLimit`.
    pub past_limit: bool,
    /// `unreported`.
    pub unreported: bool,
}

/// A news provider: ib_async's `NewsProvider`.
#[derive(Clone, Debug, Default, PartialEq, Eq)]
pub struct NewsProvider {
    /// `code`.
    pub code: String,
    /// `name`.
    pub name: String,
}

/// An exchange that offers market depth: ib_async's
/// `DepthMktDataDescription`.
#[derive(Clone, Debug, Default, PartialEq, Eq)]
pub struct DepthMktDataDescription {
    /// `exchange`.
    pub exchange: String,
    /// `secType`.
    pub sec_type: String,
    /// `listingExch`.
    pub listing_exch: String,
    /// `serviceDataType`.
    pub service_data_type: String,
    /// `aggGroup`.
    pub agg_group: Option<i32>,
}

/// One session of a historical schedule: ib_async's `HistoricalSession`.
#[derive(Clone, Debug, Default, PartialEq, Eq)]
pub struct HistoricalSession {
    /// `startDateTime`.
    pub start_date_time: String,
    /// `endDateTime`.
    pub end_date_time: String,
    /// `refDate`.
    pub ref_date: String,
}

/// A historical trading schedule: ib_async's `HistoricalSchedule`.
#[derive(Clone, Debug, Default, PartialEq, Eq)]
pub struct HistoricalSchedule {
    /// `startDateTime`.
    pub start_date_time: String,
    /// `endDateTime`.
    pub end_date_time: String,
    /// `timeZone`.
    pub time_zone: String,
    /// `sessions`.
    pub sessions: Vec<HistoricalSession>,
}

/// What a Wall Street Horizon event request asks for: ib_async's
/// `WshEventData`.
#[derive(Clone, Debug, Default, PartialEq, Eq)]
pub struct WshEventData {
    /// `conId`.
    pub con_id: Option<i64>,
    /// `filter`.
    pub filter: String,
    /// `fillWatchlist`.
    pub fill_watchlist: bool,
    /// `fillPortfolio`.
    pub fill_portfolio: bool,
    /// `fillCompetitors`.
    pub fill_competitors: bool,
    /// `startDate`.
    pub start_date: String,
    /// `endDate`.
    pub end_date: String,
    /// `totalLimit`.
    pub total_limit: Option<i32>,
}

/// One account value: ib_async's `AccountValue`.
#[derive(Clone, Debug, PartialEq, Eq)]
pub struct AccountValue {
    /// `account`.
    pub account: String,
    /// `tag`.
    pub tag: String,
    /// `value`.
    pub value: String,
    /// `currency`.
    pub currency: String,
    /// `modelCode`.
    pub model_code: String,
}

/// A news article: ib_async's `NewsArticle`.
#[derive(Clone, Debug, PartialEq, Eq)]
pub struct NewsArticle {
    /// `articleType`.
    pub article_type: i32,
    /// `articleText`.
    pub article_text: String,
}

/// A news headline from a market data subscription: ib_async's `NewsTick`.
#[derive(Clone, Debug, PartialEq, Eq)]
pub struct NewsTick {
    /// `timeStamp`.
    pub time_stamp: i64,
    /// `providerCode`.
    pub provider_code: String,
    /// `articleId`.
    pub article_id: String,
    /// `headline`.
    pub headline: String,
    /// `extraData`.
    pub extra_data: String,
}

/// A news bulletin: ib_async's `NewsBulletin`.
#[derive(Clone, Debug, PartialEq, Eq)]
pub struct NewsBulletin {
    /// `msgId`.
    pub msg_id: i64,
    /// `msgType`.
    pub msg_type: i32,
    /// `message`.
    pub message: String,
    /// `origExchange`.
    pub orig_exchange: String,
}

/// An account's family code: ib_async's `FamilyCode`.
#[derive(Clone, Debug, PartialEq, Eq)]
pub struct FamilyCode {
    /// `accountID`.
    pub account_id: String,
    /// `familyCodeStr`.
    pub family_code_str: String,
}

/// One exchange a smart route may use: ib_async's `SmartComponent`.
#[derive(Clone, Debug, PartialEq, Eq)]
pub struct SmartComponent {
    /// `bitNumber`.
    pub bit_number: i32,
    /// `exchange`.
    pub exchange: String,
    /// `exchangeLetter`.
    pub exchange_letter: String,
}

/// One of a contract's corporate actions: `IB.reqCorporateActions`'s
/// element. `kind` is the venue's two-letter code (CD, SD, SS, SO, RO, FR);
/// days are `YYYYMMDD`; a field the kind does not carry is empty.
#[derive(Clone, Debug, PartialEq, Eq)]
pub struct CorporateAction {
    /// `kind`.
    pub kind: String,
    /// `date`.
    pub date: String,
    /// `value`.
    pub value: String,
    /// `currency`.
    pub currency: String,
    /// `announceDate`.
    pub announce_date: String,
    /// `recordDate`.
    pub record_date: String,
    /// `payDate`.
    pub pay_date: String,
    /// `paymentType`.
    pub payment_type: String,
    /// `distributionType`.
    pub distribution_type: String,
}

/// One set of order defaults the account holds, without its values:
/// `IB.orderPresets`'s element.
#[derive(Clone, Debug, PartialEq, Eq)]
pub struct OrderPreset {
    /// `key`.
    pub key: String,
    /// `version`.
    pub version: String,
    /// `lastChanged`.
    pub last_changed: String,
}


/// An execution filter as values.
pub struct ExecutionFilterView {
    /// `clientId`.
    pub client_id: i64,
    /// `acctCode`.
    pub acct_code: Seq<char>,
    /// `time`.
    pub time: Seq<char>,
    /// `symbol`.
    pub symbol: Seq<char>,
    /// `secType`.
    pub sec_type: Seq<char>,
    /// `exchange`.
    pub exchange: Seq<char>,
    /// `side`.
    pub side: Seq<char>,
}

impl ExecutionFilter {
    /// The filter as values.
    pub open spec fn view(&self) -> ExecutionFilterView {
        ExecutionFilterView {
            client_id: self.client_id,
            acct_code: self.acct_code@,
            time: self.time@,
            symbol: self.symbol@,
            sec_type: self.sec_type@,
            exchange: self.exchange@,
            side: self.side@,
        }
    }

    /// A copy of the filter.
    pub fn duplicate(&self) -> (r: ExecutionFilter)
        ensures
            r.view() == self.view(),
    {
        ExecutionFilter {
            client_id: self.client_id,
            acct_code: self.acct_code.clone(),
            time: self.time.clone(),
            symbol: self.symbol.clone(),
            sec_type: self.sec_type.clone(),
            exchange: self.exchange.clone(),
            side: self.side.clone(),
        }
    }
}

/// A Wall Street Horizon event request as values.
pub struct WshEventDataView {
    /// `conId`.
    pub con_id: Option<i64>,
    /// `filter`.
    pub filter: Seq<char>,
    /// `fillWatchlist`.
    pub fill_watchlist: bool,
    /// `fillPortfolio`.
    pub fill_portfolio: bool,
    /// `fillCompetitors`.
    pub fill_competitors: bool,
    /// `startDate`.
    pub start_date: Seq<char>,
    /// `endDate`.
    pub end_date: Seq<char>,
    /// `totalLimit`.
    pub total_limit: Option<i32>,
}

impl WshEventData {
    /// The request as values.
    pub open spec fn view(&self) -> WshEventDataView {
        WshEventDataView {
            con_id: self.con_id,
            filter: self.filter@,
            fill_watchlist: self.fill_watchlist,
            fill_portfolio: self.fill_portfolio,
            fill_competitors: self.fill_competitors,
            start_date: self.start_date@,
            end_date: self.end_date@,
            total_limit: self.total_limit,
        }
    }

    /// A copy of the request.
    pub fn duplicate(&self) -> (r: WshEventData)
        ensures
            r.view() == self.view(),
    {
        WshEventData {
            con_id: self.con_id,
            filter: self.filter.clone(),
            fill_watchlist: self.fill_watchlist,
            fill_portfolio: self.fill_portfolio,
            fill_competitors: self.fill_competitors,
            start_date: self.start_date.clone(),
            end_date: self.end_date.clone(),
            total_limit: self.total_limit,
        }
    }
}

} // verus!
