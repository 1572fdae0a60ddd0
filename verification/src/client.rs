//! ib_async's `Client`: the session under an `IB`, as the requests it
//! takes.
//!
//! The client decides, for each request, whether the session takes it and
//! which engine call it makes; the thread that runs the IB makes that call
//! and reports back what the session does. Unnumbered questions go in their
//! lanes, one exchange of each at a time.

use vstd::prelude::*;
use std::time::Duration;

use crate::contract::TagValue;
use crate::error::Error;
use crate::event::Event;
use crate::ids::{first_given, no_id_left, IdSpace};
use crate::lanes::{answered_step, ask_step, retired_step, lane_free, lane_of, waiting_total, Ask, LaneView, Lanes, Question};
use crate::objects::{ExecutionFilter, ExecutionFilterView, WshEventData, WshEventDataView};

verus! {

/// A connection's state: ib_async's `Client.DISCONNECTED`, `CONNECTING` and
/// `CONNECTED`.
#[derive(Clone, Copy, Debug, PartialEq, Eq, Hash, Structural)]
pub enum ConnState {
    /// No session, or one closing: `DISCONNECTED`.
    Disconnected,
    /// Logging on: `CONNECTING`.
    Connecting,
    /// The session is up: `CONNECTED`.
    Connected,
}

impl ConnState {
    /// ib_async's number for the state: 0, 1 or 2.
    pub fn code(&self) -> (r: i32)
        ensures
            r == match *self {
                ConnState::Disconnected => 0i32,
                ConnState::Connecting => 1i32,
                ConnState::Connected => 2i32,
            },
    {
        match self {
            ConnState::Disconnected => 0,
            ConnState::Connecting => 1,
            ConnState::Connected => 2,
        }
    }
}

/// The engine call a request makes, with what it sends.
pub enum Call {
    /// Log on as `client_id`, waiting at most `timeout` for the account's
    /// working orders.
    Connect { client_id: i64, timeout: Duration },
    /// Close the session.
    Disconnect,
    /// Ask an unnumbered question.
    Ask(Ask),
    /// Cancel the positions' subscription.
    CancelPositions,
    /// Stop an account's updates: `reqAccountUpdates(False, account)`.
    StopAccountUpdates { acct_code: String },
    /// `cancel_mkt_data`.
    CancelMktData { req_id: i64 },
    /// `req_market_data_type`.
    ReqMarketDataType { market_data_type: i32 },
    /// `cancel_tick_by_tick_data`.
    CancelTickByTickData { req_id: i64 },
    /// `cancel_mkt_depth`.
    CancelMktDepth { req_id: i64 },
    /// `req_smart_components`.
    ReqSmartComponents { req_id: i64, bbo_exchange: String },
    /// `cancel_real_time_bars`.
    CancelRealTimeBars { req_id: i64 },
    /// `cancel_calculate_implied_volatility`.
    CancelCalculateImpliedVolatility { req_id: i64 },
    /// `cancel_calculate_option_price`.
    CancelCalculateOptionPrice { req_id: i64 },
    /// `cancel_order`.
    CancelOrder { order_id: i64, manual_cancel_order_time: String },
    /// `req_global_cancel`.
    ReqGlobalCancel,
    /// `req_auto_open_orders`.
    ReqAutoOpenOrders { b_auto_bind: bool },
    /// `req_executions`.
    ReqExecutions { req_id: i64, exec_filter: ExecutionFilter },
    /// `req_managed_accts`.
    ReqManagedAccts,
    /// `req_account_summary`.
    ReqAccountSummary { req_id: i64, group_name: String, tags: String },
    /// `cancel_account_summary`.
    CancelAccountSummary { req_id: i64 },
    /// `req_positions_multi`.
    ReqPositionsMulti { req_id: i64, account: String, model_code: String },
    /// `cancel_positions_multi`.
    CancelPositionsMulti { req_id: i64 },
    /// `req_account_updates_multi`.
    ReqAccountUpdatesMulti { req_id: i64, account: String, model_code: String, ledger_and_nlv: bool },
    /// `cancel_account_updates_multi`.
    CancelAccountUpdatesMulti { req_id: i64 },
    /// `req_pnl`.
    ReqPnl { req_id: i64, account: String, model_code: String },
    /// `cancel_pnl`.
    CancelPnl { req_id: i64 },
    /// `req_pnl_single`.
    ReqPnlSingle { req_id: i64, account: String, model_code: String, conid: i64 },
    /// `cancel_pnl_single`.
    CancelPnlSingle { req_id: i64 },
    /// `req_soft_dollar_tiers`.
    ReqSoftDollarTiers { req_id: i64 },
    /// `req_family_codes`.
    ReqFamilyCodes,
    /// `req_user_info`.
    ReqUserInfo { req_id: i64 },
    /// `replace_fa`.
    ReplaceFa { req_id: i64, fa_data: i32, cxml: String },
    /// `req_matching_symbols`.
    ReqMatchingSymbols { req_id: i64, pattern: String },
    /// `req_sec_def_opt_params`.
    ReqSecDefOptParams { req_id: i64, underlying_symbol: String, fut_fop_exchange: String, underlying_sec_type: String, underlying_con_id: i64 },
    /// `cancel_historical_data`.
    CancelHistoricalData { req_id: i64 },
    /// `cancel_head_time_stamp`.
    CancelHeadTimeStamp { req_id: i64 },
    /// `cancel_histogram_data`.
    CancelHistogramData { ticker_id: i64 },
    /// `cancel_fundamental_data`.
    CancelFundamentalData { req_id: i64 },
    /// `cancel_scanner_subscription`.
    CancelScannerSubscription { req_id: i64 },
    /// `req_news_bulletins`.
    ReqNewsBulletins { all_msgs: bool },
    /// `cancel_news_bulletins`.
    CancelNewsBulletins,
    /// `req_news_article`.
    ReqNewsArticle { req_id: i64, provider_code: String, article_id: String },
    /// `req_historical_news`.
    ReqHistoricalNews { req_id: i64, con_id: i64, provider_codes: String, start_date_time: String, end_date_time: String, total_results: i32 },
    /// `set_server_log_level`.
    SetServerLogLevel { log_level: i32 },
    /// `req_wsh_meta_data`.
    ReqWshMetaData { req_id: i64 },
    /// `cancel_wsh_meta_data`.
    CancelWshMetaData { req_id: i64 },
    /// `req_wsh_event_data`.
    ReqWshEventData { req_id: i64, data: WshEventData },
    /// `cancel_wsh_event_data`.
    CancelWshEventData { req_id: i64 },
    /// `query_display_groups`.
    QueryDisplayGroups { req_id: i64 },
    /// `subscribe_to_group_events`.
    SubscribeToGroupEvents { req_id: i64, group_id: i32 },
    /// `update_display_group`.
    UpdateDisplayGroup { req_id: i64, contract_info: String },
    /// `unsubscribe_from_group_events`.
    UnsubscribeFromGroupEvents { req_id: i64 },
}

/// An engine call as values.
pub enum CallView {
    /// Log on.
    Connect { client_id: i64, timeout: Duration },
    /// Close the session.
    Disconnect,
    /// Ask an unnumbered question.
    Ask(Ask),
    /// Cancel the positions' subscription.
    CancelPositions,
    /// Stop an account's updates.
    StopAccountUpdates { acct_code: Seq<char> },
    /// `cancel_mkt_data`.
    CancelMktData { req_id: i64 },
    /// `req_market_data_type`.
    ReqMarketDataType { market_data_type: i32 },
    /// `cancel_tick_by_tick_data`.
    CancelTickByTickData { req_id: i64 },
    /// `cancel_mkt_depth`.
    CancelMktDepth { req_id: i64 },
    /// `req_smart_components`.
    ReqSmartComponents { req_id: i64, bbo_exchange: Seq<char> },
    /// `cancel_real_time_bars`.
    CancelRealTimeBars { req_id: i64 },
    /// `cancel_calculate_implied_volatility`.
    CancelCalculateImpliedVolatility { req_id: i64 },
    /// `cancel_calculate_option_price`.
    CancelCalculateOptionPrice { req_id: i64 },
    /// `cancel_order`.
    CancelOrder { order_id: i64, manual_cancel_order_time: Seq<char> },
    /// `req_global_cancel`.
    ReqGlobalCancel,
    /// `req_auto_open_orders`.
    ReqAutoOpenOrders { b_auto_bind: bool },
    /// `req_executions`.
    ReqExecutions { req_id: i64, exec_filter: ExecutionFilterView },
    /// `req_managed_accts`.
    ReqManagedAccts,
    /// `req_account_summary`.
    ReqAccountSummary { req_id: i64, group_name: Seq<char>, tags: Seq<char> },
    /// `cancel_account_summary`.
    CancelAccountSummary { req_id: i64 },
    /// `req_positions_multi`.
    ReqPositionsMulti { req_id: i64, account: Seq<char>, model_code: Seq<char> },
    /// `cancel_positions_multi`.
    CancelPositionsMulti { req_id: i64 },
    /// `req_account_updates_multi`.
    ReqAccountUpdatesMulti { req_id: i64, account: Seq<char>, model_code: Seq<char>, ledger_and_nlv: bool },
    /// `cancel_account_updates_multi`.
    CancelAccountUpdatesMulti { req_id: i64 },
    /// `req_pnl`.
    ReqPnl { req_id: i64, account: Seq<char>, model_code: Seq<char> },
    /// `cancel_pnl`.
    CancelPnl { req_id: i64 },
    /// `req_pnl_single`.
    ReqPnlSingle { req_id: i64, account: Seq<char>, model_code: Seq<char>, conid: i64 },
    /// `cancel_pnl_single`.
    CancelPnlSingle { req_id: i64 },
    /// `req_soft_dollar_tiers`.
    ReqSoftDollarTiers { req_id: i64 },
    /// `req_family_codes`.
    ReqFamilyCodes,
    /// `req_user_info`.
    ReqUserInfo { req_id: i64 },
    /// `replace_fa`.
    ReplaceFa { req_id: i64, fa_data: i32, cxml: Seq<char> },
    /// `req_matching_symbols`.
    ReqMatchingSymbols { req_id: i64, pattern: Seq<char> },
    /// `req_sec_def_opt_params`.
    ReqSecDefOptParams { req_id: i64, underlying_symbol: Seq<char>, fut_fop_exchange: Seq<char>, underlying_sec_type: Seq<char>, underlying_con_id: i64 },
    /// `cancel_historical_data`.
    CancelHistoricalData { req_id: i64 },
    /// `cancel_head_time_stamp`.
    CancelHeadTimeStamp { req_id: i64 },
    /// `cancel_histogram_data`.
    CancelHistogramData { ticker_id: i64 },
    /// `cancel_fundamental_data`.
    CancelFundamentalData { req_id: i64 },
    /// `cancel_scanner_subscription`.
    CancelScannerSubscription { req_id: i64 },
    /// `req_news_bulletins`.
    ReqNewsBulletins { all_msgs: bool },
    /// `cancel_news_bulletins`.
    CancelNewsBulletins,
    /// `req_news_article`.
    ReqNewsArticle { req_id: i64, provider_code: Seq<char>, article_id: Seq<char> },
    /// `req_historical_news`.
    ReqHistoricalNews { req_id: i64, con_id: i64, provider_codes: Seq<char>, start_date_time: Seq<char>, end_date_time: Seq<char>, total_results: i32 },
    /// `set_server_log_level`.
    SetServerLogLevel { log_level: i32 },
    /// `req_wsh_meta_data`.
    ReqWshMetaData { req_id: i64 },
    /// `cancel_wsh_meta_data`.
    CancelWshMetaData { req_id: i64 },
    /// `req_wsh_event_data`.
    ReqWshEventData { req_id: i64, data: WshEventDataView },
    /// `cancel_wsh_event_data`.
    CancelWshEventData { req_id: i64 },
    /// `query_display_groups`.
    QueryDisplayGroups { req_id: i64 },
    /// `subscribe_to_group_events`.
    SubscribeToGroupEvents { req_id: i64, group_id: i32 },
    /// `update_display_group`.
    UpdateDisplayGroup { req_id: i64, contract_info: Seq<char> },
    /// `unsubscribe_from_group_events`.
    UnsubscribeFromGroupEvents { req_id: i64 },
}

impl Call {
    /// The call as values.
    pub open spec fn view(&self) -> CallView {
        match self {
            Call::Connect { client_id, timeout } => CallView::Connect { client_id: *client_id, timeout: *timeout },
            Call::Disconnect => CallView::Disconnect,
            Call::Ask(a) => CallView::Ask(*a),
            Call::CancelPositions => CallView::CancelPositions,
            Call::StopAccountUpdates { acct_code } => CallView::StopAccountUpdates { acct_code: acct_code@ },
            Call::CancelMktData { req_id } => CallView::CancelMktData { req_id: *req_id },
            Call::ReqMarketDataType { market_data_type } => CallView::ReqMarketDataType { market_data_type: *market_data_type },
            Call::CancelTickByTickData { req_id } => CallView::CancelTickByTickData { req_id: *req_id },
            Call::CancelMktDepth { req_id } => CallView::CancelMktDepth { req_id: *req_id },
            Call::ReqSmartComponents { req_id, bbo_exchange } => CallView::ReqSmartComponents { req_id: *req_id, bbo_exchange: bbo_exchange@ },
            Call::CancelRealTimeBars { req_id } => CallView::CancelRealTimeBars { req_id: *req_id },
            Call::CancelCalculateImpliedVolatility { req_id } => CallView::CancelCalculateImpliedVolatility { req_id: *req_id },
            Call::CancelCalculateOptionPrice { req_id } => CallView::CancelCalculateOptionPrice { req_id: *req_id },
            Call::CancelOrder { order_id, manual_cancel_order_time } => CallView::CancelOrder { order_id: *order_id, manual_cancel_order_time: manual_cancel_order_time@ },
            Call::ReqGlobalCancel => CallView::ReqGlobalCancel,
            Call::ReqAutoOpenOrders { b_auto_bind } => CallView::ReqAutoOpenOrders { b_auto_bind: *b_auto_bind },
            Call::ReqExecutions { req_id, exec_filter } => CallView::ReqExecutions { req_id: *req_id, exec_filter: exec_filter.view() },
            Call::ReqManagedAccts => CallView::ReqManagedAccts,
            Call::ReqAccountSummary { req_id, group_name, tags } => CallView::ReqAccountSummary { req_id: *req_id, group_name: group_name@, tags: tags@ },
            Call::CancelAccountSummary { req_id } => CallView::CancelAccountSummary { req_id: *req_id },
            Call::ReqPositionsMulti { req_id, account, model_code } => CallView::ReqPositionsMulti { req_id: *req_id, account: account@, model_code: model_code@ },
            Call::CancelPositionsMulti { req_id } => CallView::CancelPositionsMulti { req_id: *req_id },
            Call::ReqAccountUpdatesMulti { req_id, account, model_code, ledger_and_nlv } => CallView::ReqAccountUpdatesMulti { req_id: *req_id, account: account@, model_code: model_code@, ledger_and_nlv: *ledger_and_nlv },
            Call::CancelAccountUpdatesMulti { req_id } => CallView::CancelAccountUpdatesMulti { req_id: *req_id },
            Call::ReqPnl { req_id, account, model_code } => CallView::ReqPnl { req_id: *req_id, account: account@, model_code: model_code@ },
            Call::CancelPnl { req_id } => CallView::CancelPnl { req_id: *req_id },
            Call::ReqPnlSingle { req_id, account, model_code, conid } => CallView::ReqPnlSingle { req_id: *req_id, account: account@, model_code: model_code@, conid: *conid },
            Call::CancelPnlSingle { req_id } => CallView::CancelPnlSingle { req_id: *req_id },
            Call::ReqSoftDollarTiers { req_id } => CallView::ReqSoftDollarTiers { req_id: *req_id },
            Call::ReqFamilyCodes => CallView::ReqFamilyCodes,
            Call::ReqUserInfo { req_id } => CallView::ReqUserInfo { req_id: *req_id },
            Call::ReplaceFa { req_id, fa_data, cxml } => CallView::ReplaceFa { req_id: *req_id, fa_data: *fa_data, cxml: cxml@ },
            Call::ReqMatchingSymbols { req_id, pattern } => CallView::ReqMatchingSymbols { req_id: *req_id, pattern: pattern@ },
            Call::ReqSecDefOptParams { req_id, underlying_symbol, fut_fop_exchange, underlying_sec_type, underlying_con_id } => CallView::ReqSecDefOptParams { req_id: *req_id, underlying_symbol: underlying_symbol@, fut_fop_exchange: fut_fop_exchange@, underlying_sec_type: underlying_sec_type@, underlying_con_id: *underlying_con_id },
            Call::CancelHistoricalData { req_id } => CallView::CancelHistoricalData { req_id: *req_id },
            Call::CancelHeadTimeStamp { req_id } => CallView::CancelHeadTimeStamp { req_id: *req_id },
            Call::CancelHistogramData { ticker_id } => CallView::CancelHistogramData { ticker_id: *ticker_id },
            Call::CancelFundamentalData { req_id } => CallView::CancelFundamentalData { req_id: *req_id },
            Call::CancelScannerSubscription { req_id } => CallView::CancelScannerSubscription { req_id: *req_id },
            Call::ReqNewsBulletins { all_msgs } => CallView::ReqNewsBulletins { all_msgs: *all_msgs },
            Call::CancelNewsBulletins => CallView::CancelNewsBulletins,
            Call::ReqNewsArticle { req_id, provider_code, article_id } => CallView::ReqNewsArticle { req_id: *req_id, provider_code: provider_code@, article_id: article_id@ },
            Call::ReqHistoricalNews { req_id, con_id, provider_codes, start_date_time, end_date_time, total_results } => CallView::ReqHistoricalNews { req_id: *req_id, con_id: *con_id, provider_codes: provider_codes@, start_date_time: start_date_time@, end_date_time: end_date_time@, total_results: *total_results },
            Call::SetServerLogLevel { log_level } => CallView::SetServerLogLevel { log_level: *log_level },
            Call::ReqWshMetaData { req_id } => CallView::ReqWshMetaData { req_id: *req_id },
            Call::CancelWshMetaData { req_id } => CallView::CancelWshMetaData { req_id: *req_id },
            Call::ReqWshEventData { req_id, data } => CallView::ReqWshEventData { req_id: *req_id, data: data.view() },
            Call::CancelWshEventData { req_id } => CallView::CancelWshEventData { req_id: *req_id },
            Call::QueryDisplayGroups { req_id } => CallView::QueryDisplayGroups { req_id: *req_id },
            Call::SubscribeToGroupEvents { req_id, group_id } => CallView::SubscribeToGroupEvents { req_id: *req_id, group_id: *group_id },
            Call::UpdateDisplayGroup { req_id, contract_info } => CallView::UpdateDisplayGroup { req_id: *req_id, contract_info: contract_info@ },
            Call::UnsubscribeFromGroupEvents { req_id } => CallView::UnsubscribeFromGroupEvents { req_id: *req_id },
        }
    }
}

/// What a request answers: the call it makes while the session is up, and
/// `NotConnected` otherwise, as ib_async's `send` raises.
pub open spec fn answers(has_session: bool, r: Result<Call, Error>, c: CallView) -> bool {
    if has_session {
        r matches Ok(call) && call.view() == c
    } else {
        r == Err::<Call, Error>(Error::NotConnected)
    }
}

/// What a question answers: while the session is up, the ask to send now if
/// its lane is free, nothing if it waits; `NotConnected` otherwise.
pub open spec fn asks(has_session: bool, free: bool, r: Result<Option<Call>, Error>, a: Ask) -> bool {
    if has_session {
        if free {
            r matches Ok(Some(call)) && call.view() == CallView::Ask(a)
        } else {
            r == Ok::<Option<Call>, Error>(None)
        }
    } else {
        r == Err::<Option<Call>, Error>(Error::NotConnected)
    }
}

/// What asking `a` leaves in the lanes: with a session, its lane takes
/// the step `ask_step` gives and every other lane stays; without one,
/// nothing changes.
pub open spec fn asked_in(has_session: bool, before: Lanes, after: Lanes, a: Ask) -> bool {
    if has_session {
        &&& after.lane(lane_of(a)) == ask_step(before.lane(lane_of(a)), a).0
        &&& forall|p: Question| p != lane_of(a) ==> #[trigger] after.lane(p) == before.lane(p)
    } else {
        after == before
    }
}

/// A published session: the accounts the login holds, the protocol level
/// it speaks, the engine's floor for order ids, and whether the engine has
/// given it up.
pub struct Session {
    /// The accounts the login holds.
    pub accounts: Vec<String>,
    /// The protocol level the session speaks.
    pub server_version: i32,
    /// The lowest order id the engine will take.
    pub order_id_floor: i64,
    /// The engine has given the session up.
    pub over: bool,
}

/// Where the connection stands.
pub enum Conn {
    /// No session.
    Down,
    /// Logging on; `taken_back` once the connect was withdrawn.
    Connecting { taken_back: bool },
    /// The session is published.
    Up(Session),
}

/// The traffic counters the engine keeps for a session.
#[derive(Clone, Copy, Debug, PartialEq, Eq)]
pub struct Traffic {
    /// Bytes received.
    pub bytes_received: u64,
    /// Bytes sent.
    pub bytes_sent: u64,
    /// Messages received.
    pub messages_received: u64,
    /// Messages sent.
    pub messages_sent: u64,
}

/// A connection's statistics, its times in whole milliseconds: what
/// ib_async's `ConnectionStats` is made of.
#[derive(Clone, Copy, Debug, PartialEq, Eq)]
pub struct StatsParts {
    /// When the statistics' clock started.
    pub start_ms: u64,
    /// How long since then.
    pub duration_ms: u64,
    /// `numBytesRecv`.
    pub num_bytes_recv: i64,
    /// `numBytesSent`.
    pub num_bytes_sent: i64,
    /// `numMsgRecv`.
    pub num_msg_recv: i64,
    /// `numMsgSent`.
    pub num_msg_sent: i64,
}

/// A count as an `i64`, the largest past what it holds.
pub open spec fn capped(v: u64) -> i64 {
    if v <= i64::MAX as u64 {
        v as i64
    } else {
        i64::MAX
    }
}

/// A count as an `i64`, the largest past what it holds.
fn cap(v: u64) -> (r: i64)
    ensures
        r == capped(v),
{
    if v <= i64::MAX as u64 {
        v as i64
    } else {
        i64::MAX
    }
}

/// ib_async's `Client`: the requests an IB's session takes, as the TWS API
/// names them, with the request numbers the caller chooses.
pub struct Client {
    conn: Conn,
    client_id: i64,
    ids: IdSpace,
    lanes: Lanes,
    started_ms: u64,
    api_start: Event<()>,
    api_end: Event<()>,
    api_error: Event<String>,
}

/// ib_async's default wait for a client's logon handshake, in seconds.
pub const CONNECT_TIMEOUT_SECS: u64 = 2;

/// The duration of `secs` whole seconds: what `Duration::from_secs` gives.
pub uninterp spec fn seconds(secs: u64) -> Duration;

/// `secs` whole seconds as a duration: `Duration::from_secs`, whose result
/// depends on `secs` alone and is named, not stated.
#[verifier::external_body]
fn duration_of_secs(secs: u64) -> (r: Duration)
    ensures
        r == seconds(secs),
{
    Duration::from_secs(secs)
}

impl Client {
    /// ib_async's `Client.events`, less the throttle events, since the
    /// engine paces its own requests.
    pub const EVENTS: [&'static str; 3] = ["apiStart", "apiEnd", "apiError"];

    /// Whether a session is published, given up or not: what a request
    /// needs.
    pub closed spec fn has_session(&self) -> bool {
        self.conn is Up
    }

    /// Whether a session is published and the engine has not given it up.
    pub closed spec fn is_up(&self) -> bool {
        self.conn matches Conn::Up(s) && !s.over
    }

    /// The state of the connection.
    pub closed spec fn state(&self) -> ConnState {
        match self.conn {
            Conn::Up(s) => if !s.over { ConnState::Connected } else { ConnState::Disconnected },
            Conn::Connecting { taken_back } => if !taken_back { ConnState::Connecting } else { ConnState::Disconnected },
            Conn::Down => ConnState::Disconnected,
        }
    }

    /// Whether a logon is in flight or was taken back.
    pub closed spec fn logging_on(&self) -> bool {
        self.conn is Connecting
    }

    /// The accounts the published session holds.
    pub closed spec fn spec_accounts(&self) -> Seq<Seq<char>> {
        match self.conn {
            Conn::Up(s) => s.accounts@.map_values(|a: String| a@),
            _ => Seq::empty(),
        }
    }

    /// The protocol level of the published session, 0 without one.
    pub closed spec fn spec_server_version(&self) -> i32 {
        match self.conn {
            Conn::Up(s) => s.server_version,
            _ => 0,
        }
    }

    /// The published session's floor for order ids, 0 without one.
    pub closed spec fn spec_order_id_floor(&self) -> i64 {
        match self.conn {
            Conn::Up(s) => s.order_id_floor,
            _ => 0,
        }
    }

    /// The client id of the last connect, -1 before any.
    pub closed spec fn spec_client_id(&self) -> i64 {
        self.client_id
    }

    /// Whether the logon in flight was taken back.
    pub closed spec fn taken_back(&self) -> bool {
        self.conn matches Conn::Connecting { taken_back } && taken_back
    }

    /// Everything about the session is as in `before`: whether it is
    /// published and up, the state, the logon, what was published, and
    /// the client id.
    pub open spec fn keeps_session(&self, before: Client) -> bool {
        &&& self.has_session() == before.has_session()
        &&& self.is_up() == before.is_up()
        &&& self.state() == before.state()
        &&& self.logging_on() == before.logging_on()
        &&& self.taken_back() == before.taken_back()
        &&& self.spec_accounts() == before.spec_accounts()
        &&& self.spec_server_version() == before.spec_server_version()
        &&& self.spec_order_id_floor() == before.spec_order_id_floor()
        &&& self.spec_client_id() == before.spec_client_id()
    }

    /// The session's lanes.
    pub closed spec fn spec_lanes(&self) -> Lanes {
        self.lanes
    }

    /// The lane of `q`, as values.
    pub open spec fn lane(&self, q: Question) -> LaneView {
        self.spec_lanes().lane(q)
    }

    /// The session's id space.
    pub closed spec fn spec_ids(&self) -> IdSpace {
        self.ids
    }

    /// The client is well formed.
    pub closed spec fn wf(&self) -> bool {
        self.lanes.wf()
    }

    /// A client with no session, whose engine keeps the ids from
    /// `reserved_from` up for itself.
    pub fn new(reserved_from: i64) -> (r: Client)
        ensures
            r.wf(),
            r.state() == ConnState::Disconnected,
            !r.has_session(),
            r.spec_client_id() == -1,
            r.spec_ids().next_id() == 0,
            r.spec_ids().reserved() == reserved_from,
            !r.is_up(),
            !r.logging_on(),
            forall|q: Question| #![trigger r.spec_lanes().lane(q)] r.lane(q) == (LaneView { in_flight: false, retiring: false, waiting: Seq::<Ask>::empty() }),
    {
        Client {
            conn: Conn::Down,
            client_id: -1,
            ids: IdSpace::new(reserved_from),
            lanes: Lanes::new(),
            started_ms: 0,
            api_start: Event::new("apiStart"),
            api_end: Event::new("apiEnd"),
            api_error: Event::new("apiError"),
        }
    }

    /// The published session, while the engine has not given it up.
    fn ready(&self) -> (r: Option<&Session>)
        ensures
            r is Some <==> self.is_up(),
            r matches Some(x) ==> (self.conn matches Conn::Up(y) && y == *x),
    {
        match &self.conn {
            Conn::Up(s) => if !s.over { Some(s) } else { None },
            _ => None,
        }
    }

    /// `call`, while a session is published; `NotConnected` otherwise.
    fn gate(&self, call: Call) -> (r: Result<Call, Error>)
        ensures
            answers(self.has_session(), r, call.view()),
    {
        match &self.conn {
            Conn::Up(_) => Ok(call),
            _ => Err(Error::NotConnected),
        }
    }

    /// An unnumbered question, asked in its lane behind the exchanges of it
    /// already out.
    fn ask(&mut self, a: Ask) -> (r: Result<Option<Call>, Error>)
        requires
            old(self).wf(),
        ensures
            final(self).keeps_session(*old(self)),
            final(self).spec_ids() == old(self).spec_ids(),
            final(self).wf(),
            asks(old(self).has_session(), lane_free(old(self).lane(lane_of(a))), r, a),
            asked_in(old(self).has_session(), old(self).spec_lanes(), final(self).spec_lanes(), a),
            old(self).has_session() ==> final(self).lane(lane_of(a)) == if lane_free(old(self).lane(lane_of(a))) {
                LaneView { in_flight: true, ..old(self).lane(lane_of(a)) }
            } else {
                LaneView { waiting: old(self).lane(lane_of(a)).waiting.push(a), ..old(self).lane(lane_of(a)) }
            },
            !old(self).has_session() ==> final(self).spec_lanes() == old(self).spec_lanes(),
            final(self).has_session() == old(self).has_session(),
            final(self).state() == old(self).state(),
            final(self).spec_client_id() == old(self).spec_client_id(),
    {
        match &self.conn {
            Conn::Up(_) => {},
            _ => {
                return Err(Error::NotConnected);
            },
        }
        match self.lanes.ask(a) {
            Some(send) => Ok(Some(Call::Ask(send))),
            None => Ok(None),
        }
    }

    /// A question's cancel: every ask of it waiting is withdrawn, and the
    /// lane sends nothing more until the engine confirms the cancel.
    fn cancel_question(&mut self, q: Question, call: Call) -> (r: Result<Call, Error>)
        requires
            old(self).wf(),
        ensures
            final(self).keeps_session(*old(self)),
            final(self).spec_ids() == old(self).spec_ids(),
            final(self).wf(),
            answers(old(self).has_session(), r, call.view()),
            old(self).has_session() ==> final(self).lane(q) == (LaneView { in_flight: false, retiring: true, waiting: Seq::<Ask>::empty() }),
            !old(self).has_session() ==> final(self).spec_lanes() == old(self).spec_lanes(),
            forall|p: Question| p != q ==> #[trigger] final(self).lane(p) == old(self).lane(p),
            final(self).has_session() == old(self).has_session(),
    {
        match &self.conn {
            Conn::Up(_) => {},
            _ => {
                return Err(Error::NotConnected);
            },
        }
        let _withdrawn = self.lanes.cancel(q);
        Ok(call)
    }

    // -- The connection ----------------------------------------------------

    /// Logs on, without the IB's startup sync or its `connected_event`:
    /// ib_async's `Client.connect`. `timeout` bounds the wait for the
    /// account's working orders, ib_async's handshake: `None` is 2 seconds
    /// and zero no limit.
    pub fn connect(&mut self, client_id: i64, timeout: Option<Duration>) -> (r: Call)
        ensures
            final(self).wf() == old(self).wf(),
            final(self).state() == ConnState::Connecting,
            !final(self).has_session(),
            final(self).logging_on(),
            !final(self).taken_back(),
            final(self).spec_lanes() == old(self).spec_lanes(),
            final(self).spec_ids() == old(self).spec_ids(),
            final(self).spec_client_id() == client_id,
            (r matches Call::Connect { client_id: c, timeout: t } && c == client_id
                && (timeout matches Some(given) ==> t == given)
                && (timeout is None ==> t == seconds(CONNECT_TIMEOUT_SECS))),
    {
        self.conn = Conn::Connecting { taken_back: false };
        self.client_id = client_id;
        let t = match timeout {
            Some(t) => t,
            None => duration_of_secs(CONNECT_TIMEOUT_SECS),
        };
        Call::Connect { client_id, timeout: t }
    }

    /// The logon in flight is taken back: the state reads `Disconnected`.
    pub fn take_back(&mut self)
        ensures
            final(self).wf() == old(self).wf(),
            final(self).spec_client_id() == old(self).spec_client_id(),
            final(self).spec_lanes() == old(self).spec_lanes(),
            final(self).spec_ids() == old(self).spec_ids(),
            old(self).logging_on() ==> final(self).state() == ConnState::Disconnected,
            old(self).logging_on() ==> final(self).logging_on() && final(self).taken_back(),
            !old(self).logging_on() ==> final(self).keeps_session(*old(self)),
    {
        if let Conn::Connecting { .. } = self.conn {
            self.conn = Conn::Connecting { taken_back: true };
        }
    }

    /// The engine published the session: the client is connected, its
    /// statistics' clock starts at `now_ms`, and `api_start` is emitted.
    pub fn published(&mut self, session: Session, now_ms: u64)
        ensures
            final(self).spec_started_ms() == now_ms,
            final(self).wf() == old(self).wf(),
            final(self).has_session(),
            final(self).is_up() == !session.over,
            final(self).state() == (if session.over { ConnState::Disconnected } else { ConnState::Connected }),
            final(self).spec_accounts() == session.accounts@.map_values(|a: String| a@),
            final(self).spec_server_version() == session.server_version,
            final(self).spec_order_id_floor() == session.order_id_floor,
            final(self).spec_client_id() == old(self).spec_client_id(),
            final(self).spec_lanes() == old(self).spec_lanes(),
            final(self).spec_ids() == old(self).spec_ids(),
    {
        self.conn = Conn::Up(session);
        self.started_ms = now_ms;
        self.api_start.emit(&());
    }

    /// The engine gave the session up: it stays published, and no longer
    /// reads as connected.
    pub fn given_up(&mut self)
        ensures
            final(self).wf() == old(self).wf(),
            final(self).has_session() == old(self).has_session(),
            !final(self).is_up(),
            final(self).state() == (if old(self).has_session() { ConnState::Disconnected } else { old(self).state() }),
            final(self).logging_on() == old(self).logging_on(),
            final(self).taken_back() == old(self).taken_back(),
            final(self).spec_accounts() == old(self).spec_accounts(),
            final(self).spec_server_version() == old(self).spec_server_version(),
            final(self).spec_order_id_floor() == old(self).spec_order_id_floor(),
            final(self).spec_client_id() == old(self).spec_client_id(),
            final(self).spec_lanes() == old(self).spec_lanes(),
            final(self).spec_ids() == old(self).spec_ids(),
    {
        if let Conn::Up(s) = &mut self.conn {
            s.over = true;
        }
    }

    /// The peer closed the session, or the logon failed, with `message`:
    /// `api_end` is emitted for a session that was up, then `api_error`.
    pub fn closed(&mut self, message: String)
        ensures
            final(self).wf() == old(self).wf(),
            !final(self).has_session(),
            !final(self).logging_on(),
            final(self).state() == ConnState::Disconnected,
            final(self).spec_client_id() == old(self).spec_client_id(),
            final(self).spec_lanes() == old(self).spec_lanes(),
            final(self).spec_ids() == old(self).spec_ids(),
    {
        let was_up = match &self.conn {
            Conn::Up(_) => true,
            _ => false,
        };
        self.conn = Conn::Down;
        if was_up {
            self.api_end.emit(&());
        }
        self.api_error.emit(&message);
    }

    /// Closes the session and fails its requests with `NotConnected`, with
    /// no `disconnected_event`: ib_async's `Client.disconnect`. The client
    /// id stays.
    pub fn disconnect(&mut self) -> (r: Call)
        ensures
            final(self).wf() == old(self).wf(),
            !final(self).has_session(),
            !final(self).is_up(),
            final(self).spec_server_version() == 0,
            final(self).spec_accounts().len() == 0,
            !final(self).logging_on(),
            final(self).state() == ConnState::Disconnected,
            final(self).spec_client_id() == old(self).spec_client_id(),
            final(self).spec_ids() == old(self).spec_ids(),
            final(self).spec_lanes() == old(self).spec_lanes(),
            r is Disconnect,
    {
        self.conn = Conn::Down;
        Call::Disconnect
    }

    /// Restarts the connection statistics' clock at `now_ms`: ib_async's
    /// `Client.reset`.
    pub fn reset(&mut self, now_ms: u64)
        ensures
            final(self).keeps_session(*old(self)),
            final(self).spec_ids() == old(self).spec_ids(),
            final(self).spec_started_ms() == now_ms,
            final(self).wf() == old(self).wf(),
            final(self).state() == old(self).state(),
            final(self).has_session() == old(self).has_session(),
            final(self).spec_client_id() == old(self).spec_client_id(),
    {
        self.started_ms = now_ms;
    }

    /// The connection statistics of the session, given the engine's
    /// `traffic` counters and the clock's `now_ms`: ib_async's
    /// `Client.connectionStats`, its times in whole milliseconds. The time
    /// since the clock started does not go below 0, and each count past
    /// what an `i64` holds reads as the largest. Without a session up it is
    /// `Err(NotConnected)`.
    pub fn connection_stats(&self, traffic: &Traffic, now_ms: u64) -> (r: Result<StatsParts, Error>)
        ensures
            !self.is_up() ==> r == Err::<StatsParts, Error>(Error::NotConnected),
            self.is_up() ==> r == Ok::<StatsParts, Error>(StatsParts {
                start_ms: self.spec_started_ms(),
                duration_ms: if now_ms >= self.spec_started_ms() {
                    (now_ms - self.spec_started_ms()) as u64
                } else {
                    0
                },
                num_bytes_recv: capped(traffic.bytes_received),
                num_bytes_sent: capped(traffic.bytes_sent),
                num_msg_recv: capped(traffic.messages_received),
                num_msg_sent: capped(traffic.messages_sent),
            }),
    {
        if self.ready().is_none() {
            return Err(Error::NotConnected);
        }
        let duration_ms = if now_ms >= self.started_ms { now_ms - self.started_ms } else { 0 };
        Ok(StatsParts {
            start_ms: self.started_ms,
            duration_ms,
            num_bytes_recv: cap(traffic.bytes_received),
            num_bytes_sent: cap(traffic.bytes_sent),
            num_msg_recv: cap(traffic.messages_received),
            num_msg_sent: cap(traffic.messages_sent),
        })
    }

    /// When the connection statistics' clock started, in milliseconds.
    pub closed spec fn spec_started_ms(&self) -> u64 {
        self.started_ms
    }

    /// When the connection statistics' clock started, in milliseconds.
    pub fn started_ms(&self) -> (r: u64)
        ensures
            r == self.spec_started_ms(),
    {
        self.started_ms
    }

    /// `Client.clientId`: -1 before any connect, then the last connect's.
    pub fn client_id(&self) -> (r: i64)
        ensures
            r == self.spec_client_id(),
    {
        self.client_id
    }

    /// `Client.connState`. A session given up by the engine, and a logon
    /// taken back, read `Disconnected`: `is_connected()` is whether this
    /// reads `Connected`, as in ib_async.
    pub fn conn_state(&self) -> (r: ConnState)
        ensures
            r == self.state(),
    {
        match &self.conn {
            Conn::Up(s) => if !s.over { ConnState::Connected } else { ConnState::Disconnected },
            Conn::Connecting { taken_back } => if !*taken_back { ConnState::Connecting } else { ConnState::Disconnected },
            Conn::Down => ConnState::Disconnected,
        }
    }

    /// Whether the session is up: ib_async's `Client.isConnected`.
    pub fn is_connected(&self) -> (r: bool)
        ensures
            r == (self.state() == ConnState::Connected),
    {
        self.ready().is_some()
    }

    /// Whether the session is up: ib_async's `Client.isReady`. The engine's
    /// logon covers the handshake ib_async waits for.
    pub fn is_ready(&self) -> (r: bool)
        ensures
            r == (self.state() == ConnState::Connected),
    {
        self.ready().is_some()
    }

    /// The accounts the login holds: ib_async's `Client.getAccounts`.
    pub fn get_accounts(&self) -> (r: Result<Vec<String>, Error>)
        ensures
            r is Ok <==> self.is_up(),
            r is Err ==> r == Err::<Vec<String>, Error>(Error::NotConnected),
            r matches Ok(v) ==> v@.map_values(|a: String| a@) == self.spec_accounts(),
    {
        match self.ready() {
            Some(s) => {
                let mut out: Vec<String> = Vec::new();
                let mut i: usize = 0;
                while i < s.accounts.len()
                    invariant
                        i <= s.accounts.len(),
                        out@.len() == i,
                        forall|k: int| 0 <= k < i ==> (#[trigger] out@[k])@ == s.accounts@[k]@,
                    decreases s.accounts.len() - i,
                {
                    out.push(s.accounts[i].clone());
                    i += 1;
                }
                assert(out@.map_values(|a: String| a@) =~= s.accounts@.map_values(|a: String| a@));
                Ok(out)
            },
            None => Err(Error::NotConnected),
        }
    }

    /// The protocol level the session speaks, 0 without one: ib_async's
    /// `Client.serverVersion`.
    pub fn server_version(&self) -> (r: i32)
        ensures
            r == self.spec_server_version(),
            !self.has_session() ==> r == 0,
    {
        match &self.conn {
            Conn::Up(s) => s.server_version,
            _ => 0,
        }
    }

    /// A new request number from the session's own id space, which numbers
    /// its orders and requests too: ib_async's `Client.getReqId`.
    pub fn get_req_id(&mut self) -> (r: Result<i64, Error>)
        ensures
            final(self).keeps_session(*old(self)),
            final(self).wf() == old(self).wf(),
            final(self).state() == old(self).state(),
            final(self).has_session() == old(self).has_session(),
            final(self).is_up() == old(self).is_up(),
            final(self).spec_lanes() == old(self).spec_lanes(),
            final(self).spec_ids().reserved() == old(self).spec_ids().reserved(),
            !old(self).is_up() ==> r == Err::<i64, Error>(Error::NotConnected) && final(self).spec_ids() == old(self).spec_ids(),
            old(self).is_up() ==> ({
                let first = first_given(
                    old(self).spec_ids().next_id() as int,
                    old(self).spec_order_id_floor() as int,
                );
                if first + 1 <= old(self).spec_ids().reserved() {
                    &&& r matches Ok(id) && id == first
                    &&& final(self).spec_ids().next_id() == first + 1
                } else {
                    &&& r matches Err(Error::Value(m)) && m@ == no_id_left()
                    &&& final(self).spec_ids().next_id() == old(self).spec_ids().next_id()
                }
            }),
    {
        let floor = match self.ready() {
            Some(s) => s.order_id_floor,
            None => {
                return Err(Error::NotConnected);
            },
        };
        self.ids.allocate(floor, 1)
    }

    /// Numbers below `min_req_id` are not given from now on: ib_async's
    /// `Client.updateReqId`. A number inside the range the engine keeps for
    /// itself is ignored.
    pub fn update_req_id(&mut self, min_req_id: i64)
        ensures
            final(self).keeps_session(*old(self)),
            final(self).wf() == old(self).wf(),
            final(self).state() == old(self).state(),
            final(self).spec_ids().next_id() == if min_req_id < old(self).spec_ids().reserved() && min_req_id > old(self).spec_ids().next_id() { min_req_id } else { old(self).spec_ids().next_id() },
            final(self).spec_ids().reserved() == old(self).spec_ids().reserved(),
            final(self).spec_lanes() == old(self).spec_lanes(),
    {
        self.ids.raise(min_req_id)
    }

    /// The client's `apiStart` event.
    pub closed spec fn spec_api_start(&self) -> Event<()> {
        self.api_start
    }

    /// The client's `apiEnd` event.
    pub closed spec fn spec_api_end(&self) -> Event<()> {
        self.api_end
    }

    /// The client's `apiError` event.
    pub closed spec fn spec_api_error(&self) -> Event<String> {
        self.api_error
    }

    /// `Client.apiStart`: the session is published.
    pub fn api_start(&self) -> (r: &Event<()>)
        ensures
            *r == self.spec_api_start(),
    {
        &self.api_start
    }

    /// `Client.apiEnd`: the peer closed the session.
    pub fn api_end(&self) -> (r: &Event<()>)
        ensures
            *r == self.spec_api_end(),
    {
        &self.api_end
    }

    /// `Client.apiError`: a failed logon, or the peer's close, with its
    /// message.
    pub fn api_error(&self) -> (r: &Event<String>)
        ensures
            *r == self.spec_api_error(),
    {
        &self.api_error
    }

    /// The exchange out in `q`'s lane is answered: the next ask waiting in
    /// it, if any, is sent.
    pub fn answered(&mut self, q: Question) -> (r: Option<Call>)
        requires
            old(self).wf(),
        ensures
            final(self).keeps_session(*old(self)),
            final(self).spec_ids() == old(self).spec_ids(),
            final(self).wf(),
            final(self).state() == old(self).state(),
            final(self).lane(q) == answered_step(old(self).lane(q)).0,
            match answered_step(old(self).lane(q)).1 {
                Some(a) => r matches Some(call) && call.view() == CallView::Ask(a),
                None => r is None,
            },
            forall|p: Question| p != q ==> #[trigger] final(self).lane(p) == old(self).lane(p),
    {
        match self.lanes.answered(q) {
            Some(a) => Some(Call::Ask(a)),
            None => None,
        }
    }

    /// The engine confirms the cancel of `q`: the oldest ask waiting in its
    /// lane, if any, is sent.
    pub fn retired(&mut self, q: Question) -> (r: Option<Call>)
        requires
            old(self).wf(),
        ensures
            final(self).keeps_session(*old(self)),
            final(self).spec_ids() == old(self).spec_ids(),
            final(self).wf(),
            final(self).state() == old(self).state(),
            old(self).lane(q).waiting.len() > 0 ==> (r matches Some(call) && call.view() == CallView::Ask(old(self).lane(q).waiting[0])),
            old(self).lane(q).waiting.len() == 0 ==> r is None,
            final(self).lane(q) == retired_step(old(self).lane(q)).0,
            forall|p: Question| p != q ==> #[trigger] final(self).lane(p) == old(self).lane(p),
    {
        match self.lanes.retired(q) {
            Some(a) => Some(Call::Ask(a)),
            None => None,
        }
    }

    /// The number of asks waiting in every lane.
    pub fn unsent(&self) -> (r: usize)
        requires
            self.wf(),
        ensures
            r == (if waiting_total(self.spec_lanes().view()) <= usize::MAX {
                waiting_total(self.spec_lanes().view())
            } else {
                usize::MAX as nat
            }),
    {
        self.lanes.unsent()
    }

    // -- Questions ---------------------------------------------------------

    /// ib_async's `Client.reqMktDepthExchanges`.
    pub fn req_mkt_depth_exchanges(&mut self) -> (r: Result<Option<Call>, Error>)
        requires
            old(self).wf(),
        ensures
            final(self).keeps_session(*old(self)),
            final(self).spec_ids() == old(self).spec_ids(),
            final(self).wf(),
            asks(old(self).has_session(), lane_free(old(self).lane(Question::MktDepthExchanges)), r, Ask::MktDepthExchanges),
            asked_in(old(self).has_session(), old(self).spec_lanes(), final(self).spec_lanes(), Ask::MktDepthExchanges),
            final(self).has_session() == old(self).has_session(),
    {
        self.ask(Ask::MktDepthExchanges)
    }

    /// ib_async's `Client.reqMarketRule`.
    pub fn req_market_rule(&mut self, market_rule_id: i32) -> (r: Result<Option<Call>, Error>)
        requires
            old(self).wf(),
        ensures
            final(self).keeps_session(*old(self)),
            final(self).spec_ids() == old(self).spec_ids(),
            final(self).wf(),
            asks(old(self).has_session(), lane_free(old(self).lane(Question::MarketRule)), r, Ask::MarketRule(market_rule_id)),
            asked_in(old(self).has_session(), old(self).spec_lanes(), final(self).spec_lanes(), Ask::MarketRule(market_rule_id)),
            final(self).has_session() == old(self).has_session(),
    {
        self.ask(Ask::MarketRule(market_rule_id))
    }

    /// ib_async's `Client.reqOpenOrders`: its orders fire
    /// `open_order_event`.
    pub fn req_open_orders(&mut self) -> (r: Result<Option<Call>, Error>)
        requires
            old(self).wf(),
        ensures
            final(self).keeps_session(*old(self)),
            final(self).spec_ids() == old(self).spec_ids(),
            final(self).wf(),
            asks(old(self).has_session(), lane_free(old(self).lane(Question::OpenOrders)), r, Ask::OpenOrders),
            asked_in(old(self).has_session(), old(self).spec_lanes(), final(self).spec_lanes(), Ask::OpenOrders),
            final(self).has_session() == old(self).has_session(),
    {
        self.ask(Ask::OpenOrders)
    }

    /// ib_async's `Client.reqAllOpenOrders`: its orders fire
    /// `open_order_event`.
    pub fn req_all_open_orders(&mut self) -> (r: Result<Option<Call>, Error>)
        requires
            old(self).wf(),
        ensures
            final(self).keeps_session(*old(self)),
            final(self).spec_ids() == old(self).spec_ids(),
            final(self).wf(),
            asks(old(self).has_session(), lane_free(old(self).lane(Question::AllOpenOrders)), r, Ask::AllOpenOrders),
            asked_in(old(self).has_session(), old(self).spec_lanes(), final(self).spec_lanes(), Ask::AllOpenOrders),
            final(self).has_session() == old(self).has_session(),
    {
        self.ask(Ask::AllOpenOrders)
    }

    /// ib_async's `Client.reqCompletedOrders`.
    pub fn req_completed_orders(&mut self, api_only: bool) -> (r: Result<Option<Call>, Error>)
        requires
            old(self).wf(),
        ensures
            final(self).keeps_session(*old(self)),
            final(self).spec_ids() == old(self).spec_ids(),
            final(self).wf(),
            asks(old(self).has_session(), lane_free(old(self).lane(Question::CompletedOrders)), r, Ask::CompletedOrders { api_only }),
            asked_in(old(self).has_session(), old(self).spec_lanes(), final(self).spec_lanes(), Ask::CompletedOrders { api_only }),
            final(self).has_session() == old(self).has_session(),
    {
        self.ask(Ask::CompletedOrders { api_only })
    }

    /// ib_async's `Client.reqIds`. The session already holds the next id,
    /// which `get_req_id` gives, so nothing is sent.
    pub fn req_ids(&self, _num_ids: i32) -> (r: Result<(), Error>)
        ensures
            r is Ok <==> self.has_session(),
            r is Err ==> r == Err::<(), Error>(Error::NotConnected),
    {
        match &self.conn {
            Conn::Up(_) => Ok(()),
            _ => Err(Error::NotConnected),
        }
    }

    /// ib_async's `Client.reqAccountUpdates`: subscribing asks in the
    /// question's lane; unsubscribing is the question's cancel.
    pub fn req_account_updates(&mut self, subscribe: bool, acct_code: &str) -> (r: Result<Option<Call>, Error>)
        requires
            old(self).wf(),
        ensures
            final(self).keeps_session(*old(self)),
            final(self).spec_ids() == old(self).spec_ids(),
            final(self).wf(),
            !old(self).has_session() ==> r == Err::<Option<Call>, Error>(Error::NotConnected),
            subscribe ==> exists|a: Ask|
                #![trigger lane_of(a)]
                (a matches Ask::AccountUpdates { account } && account@ == acct_code@) && asked_in(
                    old(self).has_session(),
                    old(self).spec_lanes(),
                    final(self).spec_lanes(),
                    a,
                ),
            old(self).has_session() && subscribe ==> (if lane_free(old(self).lane(Question::AccountUpdates)) {
                r matches Ok(Some(Call::Ask(Ask::AccountUpdates { account }))) && account@ == acct_code@
            } else {
                r == Ok::<Option<Call>, Error>(None)
            }),
            old(self).has_session() && !subscribe ==> (r matches Ok(Some(Call::StopAccountUpdates { acct_code: a })) && a@ == acct_code@
                && final(self).lane(Question::AccountUpdates) == (LaneView { in_flight: false, retiring: true, waiting: Seq::<Ask>::empty() })),
            !subscribe ==> forall|p: Question| p != Question::AccountUpdates ==> #[trigger] final(self).lane(p) == old(self).lane(p),
            !subscribe && !old(self).has_session() ==> final(self).spec_lanes() == old(self).spec_lanes(),
    {
        let account = acct_code.to_string();
        if subscribe {
            return self.ask(Ask::AccountUpdates { account });
        }
        match self.cancel_question(Question::AccountUpdates, Call::StopAccountUpdates { acct_code: account }) {
            Ok(c) => Ok(Some(c)),
            Err(e) => Err(e),
        }
    }

    /// ib_async's `Client.reqPositions`.
    pub fn req_positions(&mut self) -> (r: Result<Option<Call>, Error>)
        requires
            old(self).wf(),
        ensures
            final(self).keeps_session(*old(self)),
            final(self).spec_ids() == old(self).spec_ids(),
            final(self).wf(),
            asks(old(self).has_session(), lane_free(old(self).lane(Question::Positions)), r, Ask::Positions),
            asked_in(old(self).has_session(), old(self).spec_lanes(), final(self).spec_lanes(), Ask::Positions),
            final(self).has_session() == old(self).has_session(),
    {
        self.ask(Ask::Positions)
    }

    /// ib_async's `Client.cancelPositions`: the question's cancel.
    pub fn cancel_positions(&mut self) -> (r: Result<Call, Error>)
        requires
            old(self).wf(),
        ensures
            final(self).keeps_session(*old(self)),
            final(self).spec_ids() == old(self).spec_ids(),
            final(self).wf(),
            answers(old(self).has_session(), r, CallView::CancelPositions),
            old(self).has_session() ==> final(self).lane(Question::Positions) == (LaneView { in_flight: false, retiring: true, waiting: Seq::<Ask>::empty() }),
            !old(self).has_session() ==> final(self).spec_lanes() == old(self).spec_lanes(),
            forall|p: Question| p != Question::Positions ==> #[trigger] final(self).lane(p) == old(self).lane(p),
    {
        self.cancel_question(Question::Positions, Call::CancelPositions)
    }

    /// ib_async's `Client.requestFA`.
    pub fn request_fa(&mut self, fa_data: i32) -> (r: Result<Option<Call>, Error>)
        requires
            old(self).wf(),
        ensures
            final(self).keeps_session(*old(self)),
            final(self).spec_ids() == old(self).spec_ids(),
            final(self).wf(),
            asks(old(self).has_session(), lane_free(old(self).lane(Question::Fa)), r, Ask::Fa(fa_data)),
            asked_in(old(self).has_session(), old(self).spec_lanes(), final(self).spec_lanes(), Ask::Fa(fa_data)),
            final(self).has_session() == old(self).has_session(),
    {
        self.ask(Ask::Fa(fa_data))
    }

    /// ib_async's `Client.reqScannerParameters`.
    pub fn req_scanner_parameters(&mut self) -> (r: Result<Option<Call>, Error>)
        requires
            old(self).wf(),
        ensures
            final(self).keeps_session(*old(self)),
            final(self).spec_ids() == old(self).spec_ids(),
            final(self).wf(),
            asks(old(self).has_session(), lane_free(old(self).lane(Question::ScannerParameters)), r, Ask::ScannerParameters),
            asked_in(old(self).has_session(), old(self).spec_lanes(), final(self).spec_lanes(), Ask::ScannerParameters),
            final(self).has_session() == old(self).has_session(),
    {
        self.ask(Ask::ScannerParameters)
    }

    /// ib_async's `Client.reqNewsProviders`.
    pub fn req_news_providers(&mut self) -> (r: Result<Option<Call>, Error>)
        requires
            old(self).wf(),
        ensures
            final(self).keeps_session(*old(self)),
            final(self).spec_ids() == old(self).spec_ids(),
            final(self).wf(),
            asks(old(self).has_session(), lane_free(old(self).lane(Question::NewsProviders)), r, Ask::NewsProviders),
            asked_in(old(self).has_session(), old(self).spec_lanes(), final(self).spec_lanes(), Ask::NewsProviders),
            final(self).has_session() == old(self).has_session(),
    {
        self.ask(Ask::NewsProviders)
    }

    /// ib_async's `Client.reqCurrentTime`.
    pub fn req_current_time(&mut self) -> (r: Result<Option<Call>, Error>)
        requires
            old(self).wf(),
        ensures
            final(self).keeps_session(*old(self)),
            final(self).spec_ids() == old(self).spec_ids(),
            final(self).wf(),
            asks(old(self).has_session(), lane_free(old(self).lane(Question::CurrentTime)), r, Ask::CurrentTime),
            asked_in(old(self).has_session(), old(self).spec_lanes(), final(self).spec_lanes(), Ask::CurrentTime),
            final(self).has_session() == old(self).has_session(),
    {
        self.ask(Ask::CurrentTime)
    }

    // -- Requests and controls ---------------------------------------------

    /// ib_async's `Client.cancelMktData`.
    pub fn cancel_mkt_data(&self, req_id: i64) -> (r: Result<Call, Error>)
        ensures
            answers(self.has_session(), r, (CallView::CancelMktData { req_id: req_id })),
    {
        self.gate(Call::CancelMktData { req_id: req_id })
    }

    /// ib_async's `Client.reqMarketDataType`.
    pub fn req_market_data_type(&self, market_data_type: i32) -> (r: Result<Call, Error>)
        ensures
            answers(self.has_session(), r, (CallView::ReqMarketDataType { market_data_type: market_data_type })),
    {
        self.gate(Call::ReqMarketDataType { market_data_type: market_data_type })
    }

    /// ib_async's `Client.cancelTickByTickData`.
    pub fn cancel_tick_by_tick_data(&self, req_id: i64) -> (r: Result<Call, Error>)
        ensures
            answers(self.has_session(), r, (CallView::CancelTickByTickData { req_id: req_id })),
    {
        self.gate(Call::CancelTickByTickData { req_id: req_id })
    }

    /// ib_async's `Client.cancelMktDepth`. The engine knows the book by its
    /// number, so `is_smart_depth` is taken and not sent.
    pub fn cancel_mkt_depth(&self, req_id: i64, _is_smart_depth: bool) -> (r: Result<Call, Error>)
        ensures
            answers(self.has_session(), r, (CallView::CancelMktDepth { req_id: req_id })),
    {
        self.gate(Call::CancelMktDepth { req_id: req_id })
    }

    /// ib_async's `Client.reqSmartComponents`.
    pub fn req_smart_components(&self, req_id: i64, bbo_exchange: &str) -> (r: Result<Call, Error>)
        ensures
            answers(self.has_session(), r, (CallView::ReqSmartComponents { req_id: req_id, bbo_exchange: bbo_exchange@ })),
    {
        self.gate(Call::ReqSmartComponents { req_id: req_id, bbo_exchange: bbo_exchange.to_string() })
    }

    /// ib_async's `Client.cancelRealTimeBars`.
    pub fn cancel_real_time_bars(&self, req_id: i64) -> (r: Result<Call, Error>)
        ensures
            answers(self.has_session(), r, (CallView::CancelRealTimeBars { req_id: req_id })),
    {
        self.gate(Call::CancelRealTimeBars { req_id: req_id })
    }

    /// ib_async's `Client.cancelCalculateImpliedVolatility`.
    pub fn cancel_calculate_implied_volatility(&self, req_id: i64) -> (r: Result<Call, Error>)
        ensures
            answers(self.has_session(), r, (CallView::CancelCalculateImpliedVolatility { req_id: req_id })),
    {
        self.gate(Call::CancelCalculateImpliedVolatility { req_id: req_id })
    }

    /// ib_async's `Client.cancelCalculateOptionPrice`.
    pub fn cancel_calculate_option_price(&self, req_id: i64) -> (r: Result<Call, Error>)
        ensures
            answers(self.has_session(), r, (CallView::CancelCalculateOptionPrice { req_id: req_id })),
    {
        self.gate(Call::CancelCalculateOptionPrice { req_id: req_id })
    }

    /// ib_async's `Client.cancelOrder`. A manual cancel time goes with the
    /// cancel's notice, as the engine states it.
    pub fn cancel_order(&self, order_id: i64, manual_cancel_order_time: &str) -> (r: Result<Call, Error>)
        ensures
            answers(self.has_session(), r, (CallView::CancelOrder { order_id: order_id, manual_cancel_order_time: manual_cancel_order_time@ })),
    {
        self.gate(Call::CancelOrder { order_id: order_id, manual_cancel_order_time: manual_cancel_order_time.to_string() })
    }

    /// ib_async's `Client.reqGlobalCancel`.
    pub fn req_global_cancel(&self) -> (r: Result<Call, Error>)
        ensures
            answers(self.has_session(), r, (CallView::ReqGlobalCancel)),
    {
        self.gate(Call::ReqGlobalCancel)
    }

    /// ib_async's `Client.reqAutoOpenOrders`.
    pub fn req_auto_open_orders(&self, b_auto_bind: bool) -> (r: Result<Call, Error>)
        ensures
            answers(self.has_session(), r, (CallView::ReqAutoOpenOrders { b_auto_bind: b_auto_bind })),
    {
        self.gate(Call::ReqAutoOpenOrders { b_auto_bind: b_auto_bind })
    }

    /// ib_async's `Client.reqExecutions`: the fills reach the IB's trades
    /// and events.
    pub fn req_executions(&self, req_id: i64, exec_filter: &ExecutionFilter) -> (r: Result<Call, Error>)
        ensures
            answers(self.has_session(), r, (CallView::ReqExecutions { req_id: req_id, exec_filter: exec_filter.view() })),
    {
        self.gate(Call::ReqExecutions { req_id: req_id, exec_filter: exec_filter.duplicate() })
    }

    /// ib_async's `Client.reqManagedAccts`.
    pub fn req_managed_accts(&self) -> (r: Result<Call, Error>)
        ensures
            answers(self.has_session(), r, (CallView::ReqManagedAccts)),
    {
        self.gate(Call::ReqManagedAccts)
    }

    /// ib_async's `Client.reqAccountSummary`.
    pub fn req_account_summary(&self, req_id: i64, group_name: &str, tags: &str) -> (r: Result<Call, Error>)
        ensures
            answers(self.has_session(), r, (CallView::ReqAccountSummary { req_id: req_id, group_name: group_name@, tags: tags@ })),
    {
        self.gate(Call::ReqAccountSummary { req_id: req_id, group_name: group_name.to_string(), tags: tags.to_string() })
    }

    /// ib_async's `Client.cancelAccountSummary`.
    pub fn cancel_account_summary(&self, req_id: i64) -> (r: Result<Call, Error>)
        ensures
            answers(self.has_session(), r, (CallView::CancelAccountSummary { req_id: req_id })),
    {
        self.gate(Call::CancelAccountSummary { req_id: req_id })
    }

    /// ib_async's `Client.reqPositionsMulti`.
    pub fn req_positions_multi(&self, req_id: i64, account: &str, model_code: &str) -> (r: Result<Call, Error>)
        ensures
            answers(self.has_session(), r, (CallView::ReqPositionsMulti { req_id: req_id, account: account@, model_code: model_code@ })),
    {
        self.gate(Call::ReqPositionsMulti { req_id: req_id, account: account.to_string(), model_code: model_code.to_string() })
    }

    /// ib_async's `Client.cancelPositionsMulti`.
    pub fn cancel_positions_multi(&self, req_id: i64) -> (r: Result<Call, Error>)
        ensures
            answers(self.has_session(), r, (CallView::CancelPositionsMulti { req_id: req_id })),
    {
        self.gate(Call::CancelPositionsMulti { req_id: req_id })
    }

    /// ib_async's `Client.reqAccountUpdatesMulti`.
    pub fn req_account_updates_multi(&self, req_id: i64, account: &str, model_code: &str, ledger_and_nlv: bool) -> (r: Result<Call, Error>)
        ensures
            answers(self.has_session(), r, (CallView::ReqAccountUpdatesMulti { req_id: req_id, account: account@, model_code: model_code@, ledger_and_nlv: ledger_and_nlv })),
    {
        self.gate(Call::ReqAccountUpdatesMulti { req_id: req_id, account: account.to_string(), model_code: model_code.to_string(), ledger_and_nlv: ledger_and_nlv })
    }

    /// ib_async's `Client.cancelAccountUpdatesMulti`.
    pub fn cancel_account_updates_multi(&self, req_id: i64) -> (r: Result<Call, Error>)
        ensures
            answers(self.has_session(), r, (CallView::CancelAccountUpdatesMulti { req_id: req_id })),
    {
        self.gate(Call::CancelAccountUpdatesMulti { req_id: req_id })
    }

    /// ib_async's `Client.reqPnL`.
    pub fn req_pnl(&self, req_id: i64, account: &str, model_code: &str) -> (r: Result<Call, Error>)
        ensures
            answers(self.has_session(), r, (CallView::ReqPnl { req_id: req_id, account: account@, model_code: model_code@ })),
    {
        self.gate(Call::ReqPnl { req_id: req_id, account: account.to_string(), model_code: model_code.to_string() })
    }

    /// ib_async's `Client.cancelPnL`.
    pub fn cancel_pnl(&self, req_id: i64) -> (r: Result<Call, Error>)
        ensures
            answers(self.has_session(), r, (CallView::CancelPnl { req_id: req_id })),
    {
        self.gate(Call::CancelPnl { req_id: req_id })
    }

    /// ib_async's `Client.reqPnLSingle`.
    pub fn req_pnl_single(&self, req_id: i64, account: &str, model_code: &str, conid: i64) -> (r: Result<Call, Error>)
        ensures
            answers(self.has_session(), r, (CallView::ReqPnlSingle { req_id: req_id, account: account@, model_code: model_code@, conid: conid })),
    {
        self.gate(Call::ReqPnlSingle { req_id: req_id, account: account.to_string(), model_code: model_code.to_string(), conid: conid })
    }

    /// ib_async's `Client.cancelPnLSingle`.
    pub fn cancel_pnl_single(&self, req_id: i64) -> (r: Result<Call, Error>)
        ensures
            answers(self.has_session(), r, (CallView::CancelPnlSingle { req_id: req_id })),
    {
        self.gate(Call::CancelPnlSingle { req_id: req_id })
    }

    /// ib_async's `Client.reqSoftDollarTiers`.
    pub fn req_soft_dollar_tiers(&self, req_id: i64) -> (r: Result<Call, Error>)
        ensures
            answers(self.has_session(), r, (CallView::ReqSoftDollarTiers { req_id: req_id })),
    {
        self.gate(Call::ReqSoftDollarTiers { req_id: req_id })
    }

    /// ib_async's `Client.reqFamilyCodes`.
    pub fn req_family_codes(&self) -> (r: Result<Call, Error>)
        ensures
            answers(self.has_session(), r, (CallView::ReqFamilyCodes)),
    {
        self.gate(Call::ReqFamilyCodes)
    }

    /// ib_async's `Client.reqUserInfo`.
    pub fn req_user_info(&self, req_id: i64) -> (r: Result<Call, Error>)
        ensures
            answers(self.has_session(), r, (CallView::ReqUserInfo { req_id: req_id })),
    {
        self.gate(Call::ReqUserInfo { req_id: req_id })
    }

    /// ib_async's `Client.replaceFA`.
    pub fn replace_fa(&self, req_id: i64, fa_data: i32, cxml: &str) -> (r: Result<Call, Error>)
        ensures
            answers(self.has_session(), r, (CallView::ReplaceFa { req_id: req_id, fa_data: fa_data, cxml: cxml@ })),
    {
        self.gate(Call::ReplaceFa { req_id: req_id, fa_data: fa_data, cxml: cxml.to_string() })
    }

    /// ib_async's `Client.reqMatchingSymbols`.
    pub fn req_matching_symbols(&self, req_id: i64, pattern: &str) -> (r: Result<Call, Error>)
        ensures
            answers(self.has_session(), r, (CallView::ReqMatchingSymbols { req_id: req_id, pattern: pattern@ })),
    {
        self.gate(Call::ReqMatchingSymbols { req_id: req_id, pattern: pattern.to_string() })
    }

    /// ib_async's `Client.reqSecDefOptParams`.
    pub fn req_sec_def_opt_params(&self, req_id: i64, underlying_symbol: &str, fut_fop_exchange: &str, underlying_sec_type: &str, underlying_con_id: i64) -> (r: Result<Call, Error>)
        ensures
            answers(self.has_session(), r, (CallView::ReqSecDefOptParams { req_id: req_id, underlying_symbol: underlying_symbol@, fut_fop_exchange: fut_fop_exchange@, underlying_sec_type: underlying_sec_type@, underlying_con_id: underlying_con_id })),
    {
        self.gate(Call::ReqSecDefOptParams { req_id: req_id, underlying_symbol: underlying_symbol.to_string(), fut_fop_exchange: fut_fop_exchange.to_string(), underlying_sec_type: underlying_sec_type.to_string(), underlying_con_id: underlying_con_id })
    }

    /// ib_async's `Client.cancelHistoricalData`.
    pub fn cancel_historical_data(&self, req_id: i64) -> (r: Result<Call, Error>)
        ensures
            answers(self.has_session(), r, (CallView::CancelHistoricalData { req_id: req_id })),
    {
        self.gate(Call::CancelHistoricalData { req_id: req_id })
    }

    /// ib_async's `Client.cancelHeadTimeStamp`.
    pub fn cancel_head_time_stamp(&self, req_id: i64) -> (r: Result<Call, Error>)
        ensures
            answers(self.has_session(), r, (CallView::CancelHeadTimeStamp { req_id: req_id })),
    {
        self.gate(Call::CancelHeadTimeStamp { req_id: req_id })
    }

    /// ib_async's `Client.cancelHistogramData`.
    pub fn cancel_histogram_data(&self, ticker_id: i64) -> (r: Result<Call, Error>)
        ensures
            answers(self.has_session(), r, (CallView::CancelHistogramData { ticker_id: ticker_id })),
    {
        self.gate(Call::CancelHistogramData { ticker_id: ticker_id })
    }

    /// ib_async's `Client.cancelFundamentalData`.
    pub fn cancel_fundamental_data(&self, req_id: i64) -> (r: Result<Call, Error>)
        ensures
            answers(self.has_session(), r, (CallView::CancelFundamentalData { req_id: req_id })),
    {
        self.gate(Call::CancelFundamentalData { req_id: req_id })
    }

    /// ib_async's `Client.cancelScannerSubscription`.
    pub fn cancel_scanner_subscription(&self, req_id: i64) -> (r: Result<Call, Error>)
        ensures
            answers(self.has_session(), r, (CallView::CancelScannerSubscription { req_id: req_id })),
    {
        self.gate(Call::CancelScannerSubscription { req_id: req_id })
    }

    /// ib_async's `Client.reqNewsBulletins`.
    pub fn req_news_bulletins(&self, all_msgs: bool) -> (r: Result<Call, Error>)
        ensures
            answers(self.has_session(), r, (CallView::ReqNewsBulletins { all_msgs: all_msgs })),
    {
        self.gate(Call::ReqNewsBulletins { all_msgs: all_msgs })
    }

    /// ib_async's `Client.cancelNewsBulletins`.
    pub fn cancel_news_bulletins(&self) -> (r: Result<Call, Error>)
        ensures
            answers(self.has_session(), r, (CallView::CancelNewsBulletins)),
    {
        self.gate(Call::CancelNewsBulletins)
    }

    /// ib_async's `Client.reqNewsArticle`. `news_article_options` is taken
    /// and not sent.
    pub fn req_news_article(&self, req_id: i64, provider_code: &str, article_id: &str, _news_article_options: &[TagValue]) -> (r: Result<Call, Error>)
        ensures
            answers(self.has_session(), r, (CallView::ReqNewsArticle { req_id: req_id, provider_code: provider_code@, article_id: article_id@ })),
    {
        self.gate(Call::ReqNewsArticle { req_id: req_id, provider_code: provider_code.to_string(), article_id: article_id.to_string() })
    }

    /// ib_async's `Client.reqHistoricalNews`. The times are sent as given;
    /// `historical_news_options` is taken and not sent.
    pub fn req_historical_news(&self, req_id: i64, con_id: i64, provider_codes: &str, start_date_time: &str, end_date_time: &str, total_results: i32, _historical_news_options: &[TagValue]) -> (r: Result<Call, Error>)
        ensures
            answers(self.has_session(), r, (CallView::ReqHistoricalNews { req_id: req_id, con_id: con_id, provider_codes: provider_codes@, start_date_time: start_date_time@, end_date_time: end_date_time@, total_results: total_results })),
    {
        self.gate(Call::ReqHistoricalNews { req_id: req_id, con_id: con_id, provider_codes: provider_codes.to_string(), start_date_time: start_date_time.to_string(), end_date_time: end_date_time.to_string(), total_results: total_results })
    }

    /// ib_async's `Client.setServerLogLevel`.
    pub fn set_server_log_level(&self, log_level: i32) -> (r: Result<Call, Error>)
        ensures
            answers(self.has_session(), r, (CallView::SetServerLogLevel { log_level: log_level })),
    {
        self.gate(Call::SetServerLogLevel { log_level: log_level })
    }

    /// ib_async's `Client.reqWshMetaData`.
    pub fn req_wsh_meta_data(&self, req_id: i64) -> (r: Result<Call, Error>)
        ensures
            answers(self.has_session(), r, (CallView::ReqWshMetaData { req_id: req_id })),
    {
        self.gate(Call::ReqWshMetaData { req_id: req_id })
    }

    /// ib_async's `Client.cancelWshMetaData`.
    pub fn cancel_wsh_meta_data(&self, req_id: i64) -> (r: Result<Call, Error>)
        ensures
            answers(self.has_session(), r, (CallView::CancelWshMetaData { req_id: req_id })),
    {
        self.gate(Call::CancelWshMetaData { req_id: req_id })
    }

    /// ib_async's `Client.reqWshEventData`.
    pub fn req_wsh_event_data(&self, req_id: i64, data: &WshEventData) -> (r: Result<Call, Error>)
        ensures
            answers(self.has_session(), r, (CallView::ReqWshEventData { req_id: req_id, data: data.view() })),
    {
        self.gate(Call::ReqWshEventData { req_id: req_id, data: data.duplicate() })
    }

    /// ib_async's `Client.cancelWshEventData`.
    pub fn cancel_wsh_event_data(&self, req_id: i64) -> (r: Result<Call, Error>)
        ensures
            answers(self.has_session(), r, (CallView::CancelWshEventData { req_id: req_id })),
    {
        self.gate(Call::CancelWshEventData { req_id: req_id })
    }

    /// ib_async's `Client.queryDisplayGroups`. ib_async's wrapper has no
    /// handler for the answer.
    pub fn query_display_groups(&self, req_id: i64) -> (r: Result<Call, Error>)
        ensures
            answers(self.has_session(), r, (CallView::QueryDisplayGroups { req_id: req_id })),
    {
        self.gate(Call::QueryDisplayGroups { req_id: req_id })
    }

    /// ib_async's `Client.subscribeToGroupEvents`.
    pub fn subscribe_to_group_events(&self, req_id: i64, group_id: i32) -> (r: Result<Call, Error>)
        ensures
            answers(self.has_session(), r, (CallView::SubscribeToGroupEvents { req_id: req_id, group_id: group_id })),
    {
        self.gate(Call::SubscribeToGroupEvents { req_id: req_id, group_id: group_id })
    }

    /// ib_async's `Client.updateDisplayGroup`.
    pub fn update_display_group(&self, req_id: i64, contract_info: &str) -> (r: Result<Call, Error>)
        ensures
            answers(self.has_session(), r, (CallView::UpdateDisplayGroup { req_id: req_id, contract_info: contract_info@ })),
    {
        self.gate(Call::UpdateDisplayGroup { req_id: req_id, contract_info: contract_info.to_string() })
    }

    /// ib_async's `Client.unsubscribeFromGroupEvents`.
    pub fn unsubscribe_from_group_events(&self, req_id: i64) -> (r: Result<Call, Error>)
        ensures
            answers(self.has_session(), r, (CallView::UnsubscribeFromGroupEvents { req_id: req_id })),
    {
        self.gate(Call::UnsubscribeFromGroupEvents { req_id: req_id })
    }
}

/// How long a calculation of an option's price or volatility waits for its
/// answer, in seconds.
pub const CALCULATION_TIMEOUT_SECS: u64 = 4;

/// A calculation of an option's figures: of its implied volatility from a
/// price, or of its price from a volatility.
#[derive(Clone, Copy, Debug, PartialEq, Eq, Structural)]
pub enum Calculation {
    /// `calculateImpliedVolatility`.
    ImpliedVolatility,
    /// `calculateOptionPrice`.
    OptionPrice,
}

impl Calculation {
    /// The calculation `volatility` names: the implied volatility when set.
    pub fn of(volatility: bool) -> (r: Calculation)
        ensures
            r == (if volatility {
                Calculation::ImpliedVolatility
            } else {
                Calculation::OptionPrice
            }),
    {
        if volatility {
            Calculation::ImpliedVolatility
        } else {
            Calculation::OptionPrice
        }
    }

    /// The name ib_async logs a timed-out calculation under.
    pub fn label(&self) -> (r: &'static str)
        ensures
            r@ == (match *self {
                Calculation::ImpliedVolatility => "calculateImpliedVolatilityAsync"@,
                Calculation::OptionPrice => "calculateOptionPriceAsync"@,
            }),
    {
        match self {
            Calculation::ImpliedVolatility => "calculateImpliedVolatilityAsync",
            Calculation::OptionPrice => "calculateOptionPriceAsync",
        }
    }

    /// The engine call that undoes calculation `req_id` once it ends,
    /// however it ends.
    pub fn cleanup(&self, req_id: i64) -> (r: Call)
        ensures
            r.view() == (match *self {
                Calculation::ImpliedVolatility => CallView::CancelCalculateImpliedVolatility {
                    req_id,
                },
                Calculation::OptionPrice => CallView::CancelCalculateOptionPrice { req_id },
            }),
    {
        match self {
            Calculation::ImpliedVolatility => Call::CancelCalculateImpliedVolatility { req_id },
            Calculation::OptionPrice => Call::CancelCalculateOptionPrice { req_id },
        }
    }
}

/// A question waits in its lane while one of its kind is out: with a
/// session, once `a` has been asked in a free lane, a second ask `b` of
/// that lane, whatever the call answers, is `Ok(None)` and sends nothing;
/// every other lane is as it was.
pub proof fn law_a_second_question_waits(
    before: Lanes,
    mid: Lanes,
    a: Ask,
    b: Ask,
    r: Result<Option<Call>, Error>,
)
    requires
        lane_free(before.lane(lane_of(a))),
        lane_of(b) == lane_of(a),
        asked_in(true, before, mid, a),
        asks(true, lane_free(mid.lane(lane_of(b))), r, b),
    ensures
        r == Ok::<Option<Call>, Error>(None),
        forall|p: Question| p != lane_of(a) ==> #[trigger] mid.lane(p) == before.lane(p),
{
}

/// How the state reads: `Connected` exactly while a published session is
/// up, `Connecting` while a logon is in flight and not taken back, and
/// `Disconnected` otherwise. Without a session nothing published is read.
pub proof fn lemma_state_reads(c: Client)
    ensures
        c.state() == (if c.is_up() {
            ConnState::Connected
        } else if c.logging_on() && !c.taken_back() {
            ConnState::Connecting
        } else {
            ConnState::Disconnected
        }),
        c.is_up() ==> c.has_session(),
        !(c.has_session() && c.logging_on()),
        c.taken_back() ==> c.logging_on(),
        !c.has_session() ==> c.spec_accounts().len() == 0 && c.spec_server_version() == 0
            && c.spec_order_id_floor() == 0,
{
}

} // verus!
