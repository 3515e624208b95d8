//! The response decoder: field-level typed reads, and the per-kind routines
//! that turn one inbound field list into typed response messages.
//!
//! Every routine's contract pins each field of its output to a position in
//! the field list; positions shift only where a version gate says so.

use vstd::prelude::*;

use crate::messages::fields_view;
use crate::messages::BarData;
use crate::messages::CommissionReport;
use crate::messages::Contract;
use crate::messages::ContractDescription;
use crate::messages::ContractDetails;
use crate::messages::DeltaNeutralContract;
use crate::messages::DepthMktDataDescription;
use crate::messages::DoubleValue;
use crate::messages::Execution;
use crate::messages::FamilyCode;
use crate::messages::HistogramData;
use crate::messages::HistoricalTick;
use crate::messages::HistoricalTickBidAsk;
use crate::messages::HistoricalTickLast;
use crate::messages::NewsProvider;
use crate::messages::PriceIncrement;
use crate::messages::RealTimeBar;
use crate::messages::ServerRspMsg;
use crate::messages::ServerRspMsgDiscriminants;
use crate::messages::SmartComponent;
use crate::messages::SoftDollarTier;
use crate::messages::TagValue;
use crate::messages::TickAttrib;
use crate::messages::TickAttribBidAsk;
use crate::messages::TickAttribLast;
use crate::messages::TickMsgType;
use crate::numtext::float_text_is_neg_int;
use crate::numtext::float_text_zero;
use crate::numtext::is_float_text;
use crate::numtext::parse_i32_spec;
use crate::numtext::parse_i64_spec;
use crate::server_versions::MIN_SERVER_VER_FRACTIONAL_POSITIONS;
use crate::server_versions::MIN_SERVER_VER_MODELS_SUPPORT;
use crate::server_versions::MIN_SERVER_VER_PAST_LIMIT;
use crate::server_versions::MIN_SERVER_VER_MD_SIZE_MULTIPLIER;
use crate::server_versions::MIN_SERVER_VER_SERVICE_DATA_TYPE;
use crate::server_versions::MIN_SERVER_VER_AGG_GROUP;
use crate::server_versions::MIN_SERVER_VER_UNDERLYING_INFO;
use crate::server_versions::MIN_SERVER_VER_SYNT_REALTIME_BARS;
use crate::server_versions::MIN_SERVER_VER_MARKET_RULES;
use crate::server_versions::MIN_SERVER_VER_UNREALIZED_PNL;
use crate::server_versions::MIN_SERVER_VER_MARKET_CAP_PRICE;
use crate::server_versions::MIN_SERVER_VER_PRE_OPEN_BID_ASK;
use crate::server_versions::MIN_SERVER_VER_REAL_EXPIRATION_DATE;
use crate::server_versions::MIN_SERVER_VER_REALIZED_PNL;
use crate::server_versions::MIN_SERVER_VER_LAST_LIQUIDITY;
use crate::server_versions::MIN_SERVER_VER_ORDER_CONTAINER;
use crate::server_versions::MIN_SERVER_VER_SMART_DEPTH;
use crate::UNSET_INTEGER;

verus! {

/// How the decode stage fails: the leading field is not a number, or it
/// names no known message kind.  Both are typed, recoverable errors.
#[derive(Clone, Copy, Debug, PartialEq, Eq, Structural)]
pub enum DecodeError {
    BadMessageId,
    UnsupportedMessageId(i32),
}

// ------------------------------------------------------------------
// Field-level typed reads
// ------------------------------------------------------------------

/// The field at a position, or empty text when the position is past the end.
pub open spec fn sstr(fs: Seq<Seq<char>>, i: int) -> Seq<char> {
    if 0 <= i < fs.len() {
        fs[i]
    } else {
        Seq::empty()
    }
}

/// Integer field: unparsable or absent decodes to 0.
pub open spec fn si32(fs: Seq<Seq<char>>, i: int) -> i32 {
    match parse_i32_spec(sstr(fs, i)) {
        Some(v) => v,
        None => 0,
    }
}

pub open spec fn si64(fs: Seq<Seq<char>>, i: int) -> i64 {
    match parse_i64_spec(sstr(fs, i)) {
        Some(v) => v,
        None => 0,
    }
}

/// Integer field with the zero-to-unset remap: a decoded 0 (including the
/// unparsable and absent cases) becomes the unset sentinel.
pub open spec fn si32u(fs: Seq<Seq<char>>, i: int) -> i32 {
    if si32(fs, i) == 0 {
        UNSET_INTEGER
    } else {
        si32(fs, i)
    }
}

/// Boolean field: a nonzero integer; unparsable or absent decodes to false.
pub open spec fn sbool(fs: Seq<Seq<char>>, i: int) -> bool {
    si32(fs, i) != 0
}

/// Floating field kept as text: malformed or absent decodes to "0".
pub open spec fn sf64(fs: Seq<Seq<char>>, i: int) -> Seq<char> {
    if is_float_text(sstr(fs, i)) {
        sstr(fs, i)
    } else {
        seq!['0']
    }
}

/// Floating field with the zero-to-unset remap.
pub open spec fn sf64u_is(fs: Seq<Seq<char>>, i: int, d: DoubleValue) -> bool {
    if is_float_text(sstr(fs, i)) && !float_text_zero(sstr(fs, i)) {
        d matches DoubleValue::Num(s) && s@ == sstr(fs, i)
    } else {
        d is Unset
    }
}

/// Floating field with an out-of-band wire sentinel: text denoting exactly
/// `-sentinel` means "not yet computed" and becomes unset.
pub open spec fn sf64_remap_is(fs: Seq<Seq<char>>, i: int, sentinel: char, d: DoubleValue) -> bool {
    if float_text_is_neg_int(sstr(fs, i), sentinel) {
        d is Unset
    } else {
        d matches DoubleValue::Num(s) && s@ == sf64(fs, i)
    }
}

/// Where the cursor stands after one read at `p`.
pub open spec fn next_pos(len: int, p: int) -> int {
    if p < len {
        p + 1
    } else {
        p
    }
}

fn zero_string() -> (r: String)
    ensures
        r@ =~= seq!['0'],
{
    proof {
        reveal_strlit("0");
    }
    String::from_str("0")
}

/// Read one field as text; absent reads give an empty string.
pub fn decode_string(fields: &[String], pos: &mut usize) -> (r: String)
    ensures
        r@ == sstr(fields_view(fields@), *old(pos) as int),
        *final(pos) == next_pos(fields@.len() as int, *old(pos) as int),
{
    if *pos < fields.len() {
        let s = vstd::slice::slice_index_get(fields, *pos).clone();
        *pos = *pos + 1;
        s
    } else {
        String::new()
    }
}

/// Read one field as an `i32`; unparsable or absent gives 0.
pub fn decode_i32(fields: &[String], pos: &mut usize) -> (r: i32)
    ensures
        r == si32(fields_view(fields@), *old(pos) as int),
        *final(pos) == next_pos(fields@.len() as int, *old(pos) as int),
{
    if *pos < fields.len() {
        let s = vstd::slice::slice_index_get(fields, *pos);
        *pos = *pos + 1;
        match crate::numtext::parse_i32(s.as_str()) {
            Some(v) => v,
            None => 0,
        }
    } else {
        0
    }
}

/// Read one field as a tick-type code.  The code stays numeric in this
/// model; unparsable or absent gives 0.
pub fn decode_tick_type(fields: &[String], pos: &mut usize) -> (r: i32)
    ensures
        r == si32(fields_view(fields@), *old(pos) as int),
        *final(pos) == next_pos(fields@.len() as int, *old(pos) as int),
{
    decode_i32(fields, pos)
}

/// Read one field as an `i32`, remapping a decoded 0 to the unset sentinel.
pub fn decode_i32_show_unset(fields: &[String], pos: &mut usize) -> (r: i32)
    ensures
        r == si32u(fields_view(fields@), *old(pos) as int),
        *final(pos) == next_pos(fields@.len() as int, *old(pos) as int),
{
    let v = decode_i32(fields, pos);
    if v == 0 {
        UNSET_INTEGER
    } else {
        v
    }
}

/// Read one field as an `i64`; unparsable or absent gives 0.
pub fn decode_i64(fields: &[String], pos: &mut usize) -> (r: i64)
    ensures
        r == si64(fields_view(fields@), *old(pos) as int),
        *final(pos) == next_pos(fields@.len() as int, *old(pos) as int),
{
    if *pos < fields.len() {
        let s = vstd::slice::slice_index_get(fields, *pos);
        *pos = *pos + 1;
        match crate::numtext::parse_i64(s.as_str()) {
            Some(v) => v,
            None => 0,
        }
    } else {
        0
    }
}

/// Read one floating field as its wire text; malformed or absent gives "0".
pub fn decode_f64(fields: &[String], pos: &mut usize) -> (r: String)
    ensures
        r@ == sf64(fields_view(fields@), *old(pos) as int),
        *final(pos) == next_pos(fields@.len() as int, *old(pos) as int),
{
    let raw = decode_string(fields, pos);
    if crate::numtext::is_float_text_exec(raw.as_str()) {
        raw
    } else {
        zero_string()
    }
}

/// Read one floating field, remapping a zero value to the unset sentinel.
pub fn decode_f64_show_unset(fields: &[String], pos: &mut usize) -> (r: DoubleValue)
    ensures
        sf64u_is(fields_view(fields@), *old(pos) as int, r),
        r.wf(),
        *final(pos) == next_pos(fields@.len() as int, *old(pos) as int),
{
    let raw = decode_string(fields, pos);
    if crate::numtext::is_float_text_exec(raw.as_str()) && !crate::numtext::float_text_zero_exec(
        raw.as_str(),
    ) {
        DoubleValue::Num(raw)
    } else {
        DoubleValue::Unset
    }
}

/// Read one floating field, remapping the wire sentinel `-sentinel` ("not
/// yet computed") to unset.
fn decode_f64_remap(fields: &[String], pos: &mut usize, sentinel: char) -> (r: DoubleValue)
    ensures
        sf64_remap_is(fields_view(fields@), *old(pos) as int, sentinel, r),
        r.wf(),
        *final(pos) == next_pos(fields@.len() as int, *old(pos) as int),
{
    let raw = decode_string(fields, pos);
    if crate::numtext::float_text_is_neg_int_exec(raw.as_str(), sentinel) {
        DoubleValue::Unset
    } else if crate::numtext::is_float_text_exec(raw.as_str()) {
        DoubleValue::Num(raw)
    } else {
        proof {
            crate::numtext::lemma_zero_is_float_text();
        }
        DoubleValue::Num(zero_string())
    }
}

/// Read one boolean field: a nonzero integer; unparsable or absent is false.
pub fn decode_bool(fields: &[String], pos: &mut usize) -> (r: bool)
    ensures
        r == sbool(fields_view(fields@), *old(pos) as int),
        *final(pos) == next_pos(fields@.len() as int, *old(pos) as int),
{
    let v = decode_i32(fields, pos);
    v != 0
}

// ------------------------------------------------------------------
// The decoder
// ------------------------------------------------------------------

/// Holds the session-wide negotiated protocol version, agreed once at
/// session start and read-only afterwards.
pub struct Decoder {
    pub server_version: i32,
}

/// The paired size-tick kind of a sized price-tick kind, if any.
pub open spec fn size_tick_kind(t: i32) -> Option<i32> {
    if t == 1 {
        Some(0i32)
    } else if t == 2 {
        Some(3i32)
    } else if t == 4 {
        Some(5i32)
    } else if t == 66 {
        Some(69i32)
    } else if t == 67 {
        Some(70i32)
    } else if t == 68 {
        Some(71i32)
    } else {
        None
    }
}

pub open spec fn tick_price_post(fs: Seq<Seq<char>>, sv: i32, out: Seq<ServerRspMsg>) -> bool {
    let req_id = si32(fs, 1);
    let attr = si32(fs, 3);
    let tt = si32(fs, 4);
    &&& (out[0] matches ServerRspMsg::TickPrice { req_id: r, tick_type: t, price: p, tick_attr: a }
        && r == req_id && t == tt && p@ == sf64(fs, 2) && a.can_auto_execute == (if sv
        >= MIN_SERVER_VER_PAST_LIMIT {
        attr & 1 != 0
    } else {
        attr == 1
    }) && a.past_limit == (sv >= MIN_SERVER_VER_PAST_LIMIT && attr & 2 != 0) && a.pre_open == (sv
        >= MIN_SERVER_VER_PRE_OPEN_BID_ASK && attr & 4 != 0))
    &&& (match size_tick_kind(tt) {
        Some(st) => out.len() == 2 && (out[1] matches ServerRspMsg::TickSize {
            req_id: r2,
            tick_type: t2,
            size: s2,
        } && r2 == req_id && t2 == st && s2 == si32(fs, 5)),
        None => out.len() == 1,
    })
}

pub open spec fn tick_size_post(fs: Seq<Seq<char>>, out: Seq<ServerRspMsg>) -> bool {
    &&& out.len() == 1
    &&& (out[0] matches ServerRspMsg::TickSize { req_id, tick_type, size } && req_id == si32(fs, 2)
        && tick_type == si32(fs, 3) && size == si32(fs, 4))
}

pub open spec fn tick_string_post(fs: Seq<Seq<char>>, out: Seq<ServerRspMsg>) -> bool {
    &&& out.len() == 1
    &&& (out[0] matches ServerRspMsg::TickString { req_id, tick_type, value } && req_id == si32(
        fs,
        2,
    ) && tick_type == si32(fs, 3) && value@ == sstr(fs, 4))
}

pub open spec fn tick_generic_post(fs: Seq<Seq<char>>, out: Seq<ServerRspMsg>) -> bool {
    &&& out.len() == 1
    &&& (out[0] matches ServerRspMsg::TickGeneric { ticker_id, tick_type, value } && ticker_id
        == si32(fs, 2) && tick_type == si32(fs, 3) && value@ == sf64(fs, 4))
}

pub open spec fn account_summary_post(fs: Seq<Seq<char>>, out: Seq<ServerRspMsg>) -> bool {
    &&& out.len() == 1
    &&& (out[0] matches ServerRspMsg::AccountSummary { req_id, account, tag, value, currency }
        && req_id == si32(fs, 2) && account@ == sstr(fs, 3) && tag@ == sstr(fs, 4) && value@
        == sstr(fs, 5) && currency@ == sstr(fs, 6))
}

pub open spec fn account_summary_end_post(fs: Seq<Seq<char>>, out: Seq<ServerRspMsg>) -> bool {
    &&& out.len() == 1
    &&& (out[0] matches ServerRspMsg::AccountSummaryEnd { req_id } && req_id == si32(fs, 2))
}

pub open spec fn account_update_multi_post(fs: Seq<Seq<char>>, out: Seq<ServerRspMsg>) -> bool {
    &&& out.len() == 1
    &&& (out[0] matches ServerRspMsg::AccountUpdateMulti {
        req_id,
        account,
        model_code,
        key,
        value,
        currency,
    } && req_id == si32(fs, 2) && account@ == sstr(fs, 3) && model_code@ == sstr(fs, 4) && key@
        == sstr(fs, 5) && value@ == sstr(fs, 6) && currency@ == sstr(fs, 7))
}

pub open spec fn account_update_multi_end_post(fs: Seq<Seq<char>>, out: Seq<ServerRspMsg>) -> bool {
    &&& out.len() == 1
    &&& (out[0] matches ServerRspMsg::AccountUpdateMultiEnd { req_id } && req_id == si32(fs, 2))
}

pub open spec fn account_download_end_post(fs: Seq<Seq<char>>, out: Seq<ServerRspMsg>) -> bool {
    &&& out.len() == 1
    &&& (out[0] matches ServerRspMsg::AcctDownloadEnd { account_name } && account_name@ == sstr(
        fs,
        2,
    ))
}

pub open spec fn account_update_time_post(fs: Seq<Seq<char>>, out: Seq<ServerRspMsg>) -> bool {
    &&& out.len() == 1
    &&& (out[0] matches ServerRspMsg::AcctUpdateTime { time_stamp } && time_stamp@ == sstr(fs, 2))
}

pub open spec fn account_value_post(fs: Seq<Seq<char>>, out: Seq<ServerRspMsg>) -> bool {
    &&& out.len() == 1
    &&& (out[0] matches ServerRspMsg::AcctValue { key, val, currency, account_name } && key@
        == sstr(fs, 2) && val@ == sstr(fs, 3) && currency@ == sstr(fs, 4) && account_name@ == sstr(
        fs,
        5,
    ))
}

pub open spec fn error_message_post(fs: Seq<Seq<char>>, out: Seq<ServerRspMsg>) -> bool {
    &&& out.len() == 1
    &&& (out[0] matches ServerRspMsg::ErrMsg { req_id, error_code, error_str } && req_id == si32(
        fs,
        2,
    ) && error_code == si32(fs, 3) && error_str@ == sstr(fs, 4))
}

pub open spec fn contract_details_end_post(fs: Seq<Seq<char>>, out: Seq<ServerRspMsg>) -> bool {
    &&& out.len() == 1
    &&& (out[0] matches ServerRspMsg::ContractDataEnd { req_id } && req_id == si32(fs, 2))
}

pub open spec fn current_time_post(fs: Seq<Seq<char>>, out: Seq<ServerRspMsg>) -> bool {
    &&& out.len() == 1
    &&& (out[0] matches ServerRspMsg::CurrentTime { time } && time == si64(fs, 2))
}

pub open spec fn display_group_list_post(fs: Seq<Seq<char>>, out: Seq<ServerRspMsg>) -> bool {
    &&& out.len() == 1
    &&& (out[0] matches ServerRspMsg::DisplayGroupList { req_id, groups } && req_id == si32(fs, 2)
        && groups@ == sstr(fs, 3))
}

pub open spec fn display_group_updated_post(fs: Seq<Seq<char>>, out: Seq<ServerRspMsg>) -> bool {
    &&& out.len() == 1
    &&& (out[0] matches ServerRspMsg::DisplayGroupUpdated { req_id, contract_info } && req_id
        == si32(fs, 2) && contract_info@ == sstr(fs, 3))
}

pub open spec fn execution_data_end_post(fs: Seq<Seq<char>>, out: Seq<ServerRspMsg>) -> bool {
    &&& out.len() == 1
    &&& (out[0] matches ServerRspMsg::ExecutionDataEnd { req_id } && req_id == si32(fs, 2))
}

pub open spec fn fundamental_data_post(fs: Seq<Seq<char>>, out: Seq<ServerRspMsg>) -> bool {
    &&& out.len() == 1
    &&& (out[0] matches ServerRspMsg::FundamentalData { req_id, data } && req_id == si32(fs, 2)
        && data@ == sstr(fs, 3))
}

/// A head-timestamp frame has no version field, and its two fields fit
/// the fundamental-data message shape, which reports it.
pub open spec fn head_timestamp_post(fs: Seq<Seq<char>>, out: Seq<ServerRspMsg>) -> bool {
    &&& out.len() == 1
    &&& (out[0] matches ServerRspMsg::FundamentalData { req_id, data } && req_id == si32(fs, 1)
        && data@ == sstr(fs, 2))
}

pub open spec fn managed_accounts_post(fs: Seq<Seq<char>>, out: Seq<ServerRspMsg>) -> bool {
    &&& out.len() == 1
    &&& (out[0] matches ServerRspMsg::ManagedAccts { accounts_list } && accounts_list@ == sstr(
        fs,
        2,
    ))
}

pub open spec fn market_data_type_post(fs: Seq<Seq<char>>, out: Seq<ServerRspMsg>) -> bool {
    &&& out.len() == 1
    &&& (out[0] matches ServerRspMsg::MarketDataType { req_id, market_data_type } && req_id
        == si32(fs, 2) && market_data_type == si32(fs, 3))
}

pub open spec fn market_depth_post(fs: Seq<Seq<char>>, out: Seq<ServerRspMsg>) -> bool {
    &&& out.len() == 1
    &&& (out[0] matches ServerRspMsg::MarketDepth { req_id, position, operation, side, price, size }
        && req_id == si32(fs, 2) && position == si32(fs, 3) && operation == si32(fs, 4) && side
        == si32(fs, 5) && price@ == sf64(fs, 6) && size == si32(fs, 7))
}

pub open spec fn market_depth_l2_post(fs: Seq<Seq<char>>, sv: i32, out: Seq<ServerRspMsg>) -> bool {
    &&& out.len() == 1
    &&& (out[0] matches ServerRspMsg::MarketDepthL2 {
        req_id,
        position,
        market_maker,
        operation,
        side,
        price,
        size,
        is_smart_depth,
    } && req_id == si32(fs, 2) && position == si32(fs, 3) && market_maker@ == sstr(fs, 4)
        && operation == si32(fs, 5) && side == si32(fs, 6) && price@ == sf64(fs, 7) && size
        == si32(fs, 8) && is_smart_depth == (sv >= MIN_SERVER_VER_SMART_DEPTH && sbool(fs, 9)))
}

pub open spec fn news_article_post(fs: Seq<Seq<char>>, out: Seq<ServerRspMsg>) -> bool {
    &&& out.len() == 1
    &&& (out[0] matches ServerRspMsg::NewsArticle { req_id, article_type, article_text } && req_id
        == si32(fs, 1) && article_type == si32(fs, 2) && article_text@ == sstr(fs, 3))
}

pub open spec fn news_bulletins_post(fs: Seq<Seq<char>>, out: Seq<ServerRspMsg>) -> bool {
    &&& out.len() == 1
    &&& (out[0] matches ServerRspMsg::NewsBulletins { msg_id, msg_type, news_message, origin_exch }
        && msg_id == si32(fs, 2) && msg_type == si32(fs, 3) && news_message@ == sstr(fs, 4)
        && origin_exch@ == sstr(fs, 5))
}

pub open spec fn next_valid_id_post(fs: Seq<Seq<char>>, out: Seq<ServerRspMsg>) -> bool {
    &&& out.len() == 1
    &&& (out[0] matches ServerRspMsg::NextValidId { order_id } && order_id == si32(fs, 2))
}

pub open spec fn order_bound_post(fs: Seq<Seq<char>>, out: Seq<ServerRspMsg>) -> bool {
    &&& out.len() == 1
    &&& (out[0] matches ServerRspMsg::OrderBound { req_id, api_client_id, api_order_id } && req_id
        == si32(fs, 1) && api_client_id == si32(fs, 2) && api_order_id == si32(fs, 3))
}

pub open spec fn position_multi_end_post(fs: Seq<Seq<char>>, out: Seq<ServerRspMsg>) -> bool {
    &&& out.len() == 1
    &&& (out[0] matches ServerRspMsg::PositionMultiEnd { req_id } && req_id == si32(fs, 2))
}

pub open spec fn reroute_mkt_data_req_post(fs: Seq<Seq<char>>, out: Seq<ServerRspMsg>) -> bool {
    &&& out.len() == 1
    &&& (out[0] matches ServerRspMsg::RerouteMktDataReq { req_id, con_id, exchange } && req_id
        == si32(fs, 1) && con_id == si32(fs, 2) && exchange@ == sstr(fs, 3))
}

pub open spec fn reroute_mkt_depth_req_post(fs: Seq<Seq<char>>, out: Seq<ServerRspMsg>) -> bool {
    &&& out.len() == 1
    &&& (out[0] matches ServerRspMsg::RerouteMktDepthReq { req_id, con_id, exchange } && req_id
        == si32(fs, 1) && con_id == si32(fs, 2) && exchange@ == sstr(fs, 3))
}

pub open spec fn scanner_parameters_post(fs: Seq<Seq<char>>, out: Seq<ServerRspMsg>) -> bool {
    &&& out.len() == 1
    &&& (out[0] matches ServerRspMsg::ScannerParameters { xml } && xml@ == sstr(fs, 2))
}

pub open spec fn tick_news_post(fs: Seq<Seq<char>>, out: Seq<ServerRspMsg>) -> bool {
    &&& out.len() == 1
    &&& (out[0] matches ServerRspMsg::TickNews {
        ticker_id,
        time_stamp,
        provider_code,
        article_id,
        headline,
        extra_data,
    } && ticker_id == si32(fs, 1) && time_stamp == si32(fs, 2) && provider_code@ == sstr(fs, 3)
        && article_id@ == sstr(fs, 4) && headline@ == sstr(fs, 5) && extra_data@ == sstr(fs, 6))
}

pub open spec fn tick_req_params_post(fs: Seq<Seq<char>>, out: Seq<ServerRspMsg>) -> bool {
    &&& out.len() == 1
    &&& (out[0] matches ServerRspMsg::TickReqParams {
        ticker_id,
        min_tick,
        bbo_exchange,
        snapshot_permissions,
    } && ticker_id == si32(fs, 1) && min_tick@ == sf64(fs, 2) && bbo_exchange@ == sstr(fs, 3)
        && snapshot_permissions == si32(fs, 4))
}

pub open spec fn tick_snapshot_end_post(fs: Seq<Seq<char>>, out: Seq<ServerRspMsg>) -> bool {
    &&& out.len() == 1
    &&& (out[0] matches ServerRspMsg::TickSnapshotEnd { req_id } && req_id == si32(fs, 2))
}

/// Two fields follow the version: the first is informational and skipped,
/// the second says whether verification succeeded.
pub open spec fn verify_completed_post(fs: Seq<Seq<char>>, out: Seq<ServerRspMsg>) -> bool {
    &&& out.len() == 1
    &&& (out[0] matches ServerRspMsg::VerifyCompleted { is_successful, error_text }
        && is_successful == (sstr(fs, 3) == "true"@) && error_text@ == sstr(fs, 4))
}

pub open spec fn verify_and_auth_completed_post(fs: Seq<Seq<char>>, out: Seq<ServerRspMsg>) -> bool {
    &&& out.len() == 1
    &&& (out[0] matches ServerRspMsg::VerifyAndAuthCompleted { is_successful, error_text }
        && is_successful == (sstr(fs, 3) == "true"@) && error_text@ == sstr(fs, 4))
}

pub open spec fn verify_and_auth_message_api_post(
    fs: Seq<Seq<char>>,
    out: Seq<ServerRspMsg>,
) -> bool {
    &&& out.len() == 1
    &&& (out[0] matches ServerRspMsg::VerifyAndAuthMessageApi { api_data, xyz_challenge }
        && api_data@ == sstr(fs, 2) && xyz_challenge@ == sstr(fs, 3))
}

/// Contract details, shared layout of the `ContractData` report.  Position
/// letters name the spots where version gates shift the layout.
pub open spec fn contract_details_post(fs: Seq<Seq<char>>, sv: i32, out: Seq<ServerRspMsg>) -> bool {
    let version = si32(fs, 1);
    let b: int = if version >= 3 {
        3
    } else {
        2
    };
    let c: int = b + 12 + (if sv >= MIN_SERVER_VER_MD_SIZE_MULTIPLIER {
        1int
    } else {
        0int
    });
    let d: int = c + 4;
    let e: int = d + (if version >= 4 {
        1int
    } else {
        0int
    });
    let f: int = e + (if version >= 5 {
        2int
    } else {
        0int
    });
    let g: int = f + (if version >= 6 {
        7int
    } else {
        0int
    });
    let h: int = g + (if version >= 8 {
        2int
    } else {
        0int
    });
    let tagc = nneg(si32(fs, h));
    let i_: int = h + (if version >= 7 {
        1 + 2 * tagc
    } else {
        0int
    });
    let j: int = i_ + (if sv >= MIN_SERVER_VER_AGG_GROUP {
        1int
    } else {
        0int
    });
    let k: int = j + (if sv >= MIN_SERVER_VER_UNDERLYING_INFO {
        2int
    } else {
        0int
    });
    let l: int = k + (if sv >= MIN_SERVER_VER_MARKET_RULES {
        1int
    } else {
        0int
    });
    &&& out.len() == 1
    &&& (out[0] matches ServerRspMsg::ContractData { req_id, contract_details } && req_id == (
    if version >= 3 {
        si32(fs, 2)
    } else {
        -1i32
    }) && ({
        let cd = contract_details;
        let ct = cd.contract;
        &&& ct.symbol@ == sstr(fs, b)
        &&& ct.sec_type@ == sstr(fs, b + 1)
        &&& ct.last_trade_date_or_contract_month@ == crate::numtext::ws_token0(sstr(fs, b + 2))
        &&& cd.last_trade_time@ == crate::numtext::ws_token1(sstr(fs, b + 2))
        &&& ct.strike@ == sf64(fs, b + 3)
        &&& ct.right@ == sstr(fs, b + 4)
        &&& ct.exchange@ == sstr(fs, b + 5)
        &&& ct.currency@ == sstr(fs, b + 6)
        &&& ct.local_symbol@ == sstr(fs, b + 7)
        &&& cd.market_name@ == sstr(fs, b + 8)
        &&& ct.trading_class@ == sstr(fs, b + 9)
        &&& ct.con_id == si32(fs, b + 10)
        &&& cd.min_tick@ == sf64(fs, b + 11)
        &&& cd.md_size_multiplier == (if sv >= MIN_SERVER_VER_MD_SIZE_MULTIPLIER {
            si32(fs, b + 12)
        } else {
            0
        })
        &&& ct.multiplier@ == sstr(fs, c)
        &&& cd.order_types@ == sstr(fs, c + 1)
        &&& cd.valid_exchanges@ == sstr(fs, c + 2)
        &&& cd.price_magnifier == si32(fs, c + 3)
        &&& cd.under_con_id == (if version >= 4 {
            si32(fs, d)
        } else {
            0
        })
        &&& cd.long_name@ == (if version >= 5 {
            sstr(fs, e)
        } else {
            Seq::<char>::empty()
        })
        &&& ct.primary_exchange@ == (if version >= 5 {
            sstr(fs, e + 1)
        } else {
            Seq::<char>::empty()
        })
        &&& cd.contract_month@ == (if version >= 6 {
            sstr(fs, f)
        } else {
            Seq::<char>::empty()
        })
        &&& cd.industry@ == (if version >= 6 {
            sstr(fs, f + 1)
        } else {
            Seq::<char>::empty()
        })
        &&& cd.category@ == (if version >= 6 {
            sstr(fs, f + 2)
        } else {
            Seq::<char>::empty()
        })
        &&& cd.subcategory@ == (if version >= 6 {
            sstr(fs, f + 3)
        } else {
            Seq::<char>::empty()
        })
        &&& cd.time_zone_id@ == (if version >= 6 {
            sstr(fs, f + 4)
        } else {
            Seq::<char>::empty()
        })
        &&& cd.trading_hours@ == (if version >= 6 {
            sstr(fs, f + 5)
        } else {
            Seq::<char>::empty()
        })
        &&& cd.liquid_hours@ == (if version >= 6 {
            sstr(fs, f + 6)
        } else {
            Seq::<char>::empty()
        })
        &&& cd.ev_rule@ == (if version >= 8 {
            sstr(fs, g)
        } else {
            Seq::<char>::empty()
        })
        &&& cd.ev_multiplier@ == (if version >= 8 {
            sf64(fs, g + 1)
        } else {
            seq!['0']
        })
        &&& (if version >= 7 {
            tags_at(fs, h + 1, tagc, cd.sec_id_list@)
        } else {
            cd.sec_id_list@.len() == 0
        })
        &&& cd.agg_group == (if sv >= MIN_SERVER_VER_AGG_GROUP {
            si32(fs, i_)
        } else {
            0
        })
        &&& cd.under_symbol@ == (if sv >= MIN_SERVER_VER_UNDERLYING_INFO {
            sstr(fs, j)
        } else {
            Seq::<char>::empty()
        })
        &&& cd.under_sec_type@ == (if sv >= MIN_SERVER_VER_UNDERLYING_INFO {
            sstr(fs, j + 1)
        } else {
            Seq::<char>::empty()
        })
        &&& cd.market_rule_ids@ == (if sv >= MIN_SERVER_VER_MARKET_RULES {
            sstr(fs, k)
        } else {
            Seq::<char>::empty()
        })
        &&& cd.real_expiration_date@ == (if sv >= MIN_SERVER_VER_REAL_EXPIRATION_DATE {
            sstr(fs, l)
        } else {
            Seq::<char>::empty()
        })
        &&& blank_bond_fields(cd)
    }))
}

/// Bond contract data.  The date field carries up to three tokens:
/// maturity, trade time, and time zone.
pub open spec fn bond_contract_data_post(fs: Seq<Seq<char>>, sv: i32, out: Seq<ServerRspMsg>) -> bool {
    let version = si32(fs, 1);
    let b: int = if version >= 3 {
        3
    } else {
        2
    };
    let c: int = b + 18 + (if sv >= MIN_SERVER_VER_MD_SIZE_MULTIPLIER {
        1int
    } else {
        0int
    });
    let d: int = c + 2 + (if version >= 2 {
        4int
    } else {
        0int
    });
    let e: int = d + (if version >= 4 {
        1int
    } else {
        0int
    });
    let f: int = e + (if version >= 6 {
        2int
    } else {
        0int
    });
    let tagc = nneg(si32(fs, f));
    let g: int = f + (if version >= 5 {
        1 + 2 * tagc
    } else {
        0int
    });
    let h: int = g + (if sv >= MIN_SERVER_VER_AGG_GROUP {
        1int
    } else {
        0int
    });
    &&& out.len() == 1
    &&& (out[0] matches ServerRspMsg::BondContractData { req_id, contract_details } && req_id == (
    if version >= 3 {
        si32(fs, 2)
    } else {
        -1i32
    }) && ({
        let cd = contract_details;
        let ct = cd.contract;
        &&& ct.symbol@ == sstr(fs, b)
        &&& ct.sec_type@ == sstr(fs, b + 1)
        &&& cd.cusip@ == sstr(fs, b + 2)
        &&& cd.coupon@ == sf64(fs, b + 3)
        &&& cd.maturity@ == crate::numtext::ws_token0(sstr(fs, b + 4))
        &&& cd.last_trade_time@ == crate::numtext::ws_token1(sstr(fs, b + 4))
        &&& cd.time_zone_id@ == crate::numtext::ws_token2(sstr(fs, b + 4))
        &&& cd.issue_date@ == sstr(fs, b + 5)
        &&& cd.ratings@ == sstr(fs, b + 6)
        &&& cd.bond_type@ == sstr(fs, b + 7)
        &&& cd.coupon_type@ == sstr(fs, b + 8)
        &&& cd.convertible == sbool(fs, b + 9)
        &&& cd.callable == sbool(fs, b + 10)
        &&& cd.putable == sbool(fs, b + 11)
        &&& cd.desc_append@ == sstr(fs, b + 12)
        &&& ct.exchange@ == sstr(fs, b + 13)
        &&& ct.currency@ == sstr(fs, b + 14)
        &&& cd.market_name@ == sstr(fs, b + 15)
        &&& ct.trading_class@ == sstr(fs, b + 16)
        &&& ct.con_id == si32(fs, b + 17)
        &&& cd.min_tick@ == sf64(fs, b + 18)
        &&& cd.md_size_multiplier == (if sv >= MIN_SERVER_VER_MD_SIZE_MULTIPLIER {
            si32(fs, b + 19)
        } else {
            0
        })
        &&& cd.order_types@ == sstr(fs, c)
        &&& cd.valid_exchanges@ == sstr(fs, c + 1)
        &&& cd.next_option_date@ == (if version >= 2 {
            sstr(fs, c + 2)
        } else {
            Seq::<char>::empty()
        })
        &&& cd.next_option_type@ == (if version >= 2 {
            sstr(fs, c + 3)
        } else {
            Seq::<char>::empty()
        })
        &&& cd.next_option_partial == (version >= 2 && sbool(fs, c + 4))
        &&& cd.notes@ == (if version >= 2 {
            sstr(fs, c + 5)
        } else {
            Seq::<char>::empty()
        })
        &&& cd.long_name@ == (if version >= 4 {
            sstr(fs, d)
        } else {
            Seq::<char>::empty()
        })
        &&& cd.ev_rule@ == (if version >= 6 {
            sstr(fs, e)
        } else {
            Seq::<char>::empty()
        })
        &&& cd.ev_multiplier@ == (if version >= 6 {
            sf64(fs, e + 1)
        } else {
            seq!['0']
        })
        &&& (if version >= 5 {
            tags_at(fs, f + 1, tagc, cd.sec_id_list@)
        } else {
            cd.sec_id_list@.len() == 0
        })
        &&& cd.agg_group == (if sv >= MIN_SERVER_VER_AGG_GROUP {
            si32(fs, g)
        } else {
            0
        })
        &&& cd.market_rule_ids@ == (if sv >= MIN_SERVER_VER_MARKET_RULES {
            sstr(fs, h)
        } else {
            Seq::<char>::empty()
        })
        // fields a bond report never carries
        &&& ct.last_trade_date_or_contract_month@ == Seq::<char>::empty()
        &&& ct.strike@ == seq!['0']
        &&& ct.right@ == Seq::<char>::empty()
        &&& ct.multiplier@ == Seq::<char>::empty()
        &&& ct.primary_exchange@ == Seq::<char>::empty()
        &&& ct.local_symbol@ == Seq::<char>::empty()
        &&& cd.price_magnifier == 0
        &&& cd.under_con_id == 0
        &&& cd.contract_month@ == Seq::<char>::empty()
        &&& cd.industry@ == Seq::<char>::empty()
        &&& cd.category@ == Seq::<char>::empty()
        &&& cd.subcategory@ == Seq::<char>::empty()
        &&& cd.trading_hours@ == Seq::<char>::empty()
        &&& cd.liquid_hours@ == Seq::<char>::empty()
        &&& cd.under_symbol@ == Seq::<char>::empty()
        &&& cd.under_sec_type@ == Seq::<char>::empty()
        &&& cd.real_expiration_date@ == Seq::<char>::empty()
    }))
}

/// Execution reports.  When the per-message version is at least 9, the
/// field after the rule name is consumed as a lookahead, and a nonempty
/// lookahead makes the multiplier come from the field after it.
pub open spec fn execution_data_post(fs: Seq<Seq<char>>, sv: i32, out: Seq<ServerRspMsg>) -> bool {
    let has_v = sv < MIN_SERVER_VER_LAST_LIQUIDITY;
    let version: i32 = if has_v {
        si32(fs, 1)
    } else {
        sv
    };
    let p0: int = if has_v {
        2
    } else {
        1
    };
    let q: int = p0 + (if version >= 7 {
        1int
    } else {
        0int
    });
    let r_: int = q + 7 + (if version >= 9 {
        1int
    } else {
        0int
    });
    let s_: int = r_ + 3 + (if version >= 10 {
        1int
    } else {
        0int
    });
    let t_: int = s_ + 10 + (if version >= 6 {
        2int
    } else {
        0int
    });
    let u_: int = t_ + (if version >= 8 {
        1int
    } else {
        0int
    });
    let w: int = if version >= 9 {
        if sstr(fs, u_ + 1).len() != 0 {
            u_ + 3
        } else {
            u_ + 2
        }
    } else {
        u_
    };
    let x: int = w + (if sv >= MIN_SERVER_VER_MODELS_SUPPORT {
        1int
    } else {
        0int
    });
    &&& out.len() == 1
    &&& (out[0] matches ServerRspMsg::ExecutionData { req_id, contract, execution } && req_id == (
    if version >= 7 {
        si32(fs, p0)
    } else {
        -1i32
    }) && ({
        let ct = contract;
        &&& ct.con_id == si32(fs, q + 1)
        &&& ct.symbol@ == sstr(fs, q + 2)
        &&& ct.sec_type@ == sstr(fs, q + 3)
        &&& ct.last_trade_date_or_contract_month@ == sstr(fs, q + 4)
        &&& ct.strike@ == sf64(fs, q + 5)
        &&& ct.right@ == sstr(fs, q + 6)
        &&& ct.multiplier@ == (if version >= 9 {
            sstr(fs, q + 7)
        } else {
            Seq::<char>::empty()
        })
        &&& ct.exchange@ == sstr(fs, r_)
        &&& ct.currency@ == sstr(fs, r_ + 1)
        &&& ct.local_symbol@ == sstr(fs, r_ + 2)
        &&& ct.trading_class@ == (if version >= 10 {
            sstr(fs, r_ + 3)
        } else {
            Seq::<char>::empty()
        })
        &&& ct.primary_exchange@ == Seq::<char>::empty()
    }) && ({
        let ex = execution;
        &&& ex.order_id == si32(fs, q)
        &&& ex.exec_id@ == sstr(fs, s_)
        &&& ex.time@ == sstr(fs, s_ + 1)
        &&& ex.acct_number@ == sstr(fs, s_ + 2)
        &&& ex.exchange@ == sstr(fs, s_ + 3)
        &&& ex.side@ == sstr(fs, s_ + 4)
        &&& ex.shares@ == squant(fs, sv, s_ + 5)
        &&& ex.price@ == sf64(fs, s_ + 6)
        &&& ex.perm_id == si32(fs, s_ + 7)
        &&& ex.client_id == si32(fs, s_ + 8)
        &&& ex.liquidation == si32(fs, s_ + 9)
        &&& ex.cum_qty@ == (if version >= 6 {
            sf64(fs, s_ + 10)
        } else {
            seq!['0']
        })
        &&& ex.avg_price@ == (if version >= 6 {
            sf64(fs, s_ + 11)
        } else {
            seq!['0']
        })
        &&& ex.order_ref@ == (if version >= 8 {
            sstr(fs, t_)
        } else {
            Seq::<char>::empty()
        })
        &&& ex.ev_rule@ == (if version >= 9 {
            sstr(fs, u_)
        } else {
            Seq::<char>::empty()
        })
        &&& ex.ev_multiplier@ == (if version >= 9 {
            if sstr(fs, u_ + 1).len() != 0 {
                sf64(fs, u_ + 2)
            } else {
                seq!['1']
            }
        } else {
            seq!['0']
        })
        &&& ex.model_code@ == (if sv >= MIN_SERVER_VER_MODELS_SUPPORT {
            sstr(fs, w)
        } else {
            Seq::<char>::empty()
        })
        &&& ex.last_liquidity == (if sv >= MIN_SERVER_VER_LAST_LIQUIDITY {
            si32(fs, x)
        } else {
            0
        })
    }))
}

impl Decoder {
    /// A decoder for a session whose handshake agreed on `server_version`.
    pub fn new(server_version: i32) -> (r: Decoder)
        ensures
            r.server_version == server_version,
    {
        Decoder { server_version }
    }

    fn process_tick_price(&self, fields: &[String]) -> (out: Vec<ServerRspMsg>)
        ensures
            tick_price_post(fields_view(fields@), self.server_version, out@),
    {
        let mut pos: usize = 1;
        let req_id = decode_i32(fields, &mut pos);
        let price = decode_f64(fields, &mut pos);
        let attr = decode_i32(fields, &mut pos);
        let tick_type = decode_tick_type(fields, &mut pos);
        let size = decode_i32(fields, &mut pos);
        let can_auto_execute = if self.server_version >= MIN_SERVER_VER_PAST_LIMIT {
            attr & 1 != 0
        } else {
            attr == 1
        };
        let past_limit = self.server_version >= MIN_SERVER_VER_PAST_LIMIT && attr & 2 != 0;
        let pre_open = self.server_version >= MIN_SERVER_VER_PRE_OPEN_BID_ASK && attr & 4 != 0;
        let tick_attr = TickAttrib { can_auto_execute, past_limit, pre_open };
        let mut out: Vec<ServerRspMsg> = Vec::new();
        out.push(ServerRspMsg::TickPrice { req_id, tick_type, price, tick_attr });
        let size_kind: i32 = if tick_type == 1 {
            0
        } else if tick_type == 2 {
            3
        } else if tick_type == 4 {
            5
        } else if tick_type == 66 {
            69
        } else if tick_type == 67 {
            70
        } else if tick_type == 68 {
            71
        } else {
            -1
        };
        if size_kind >= 0 {
            out.push(ServerRspMsg::TickSize { req_id, tick_type: size_kind, size });
        }
        out
    }

    fn process_tick_size(&self, fields: &[String]) -> (out: Vec<ServerRspMsg>)
        ensures
            tick_size_post(fields_view(fields@), out@),
    {
        let mut pos: usize = 2;
        let req_id = decode_i32(fields, &mut pos);
        let tick_type = decode_tick_type(fields, &mut pos);
        let size = decode_i32(fields, &mut pos);
        let mut out: Vec<ServerRspMsg> = Vec::new();
        out.push(ServerRspMsg::TickSize { req_id, tick_type, size });
        out
    }

    fn process_tick_string(&self, fields: &[String]) -> (out: Vec<ServerRspMsg>)
        ensures
            tick_string_post(fields_view(fields@), out@),
    {
        let mut pos: usize = 2;
        let req_id = decode_i32(fields, &mut pos);
        let tick_type = decode_tick_type(fields, &mut pos);
        let value = decode_string(fields, &mut pos);
        let mut out: Vec<ServerRspMsg> = Vec::new();
        out.push(ServerRspMsg::TickString { req_id, tick_type, value });
        out
    }

    fn process_tick_generic(&self, fields: &[String]) -> (out: Vec<ServerRspMsg>)
        ensures
            tick_generic_post(fields_view(fields@), out@),
    {
        let mut pos: usize = 2;
        let ticker_id = decode_i32(fields, &mut pos);
        let tick_type = decode_tick_type(fields, &mut pos);
        let value = decode_f64(fields, &mut pos);
        let mut out: Vec<ServerRspMsg> = Vec::new();
        out.push(ServerRspMsg::TickGeneric { ticker_id, tick_type, value });
        out
    }

    fn process_account_summary(&self, fields: &[String]) -> (out: Vec<ServerRspMsg>)
        ensures
            account_summary_post(fields_view(fields@), out@),
    {
        let mut pos: usize = 2;
        let req_id = decode_i32(fields, &mut pos);
        let account = decode_string(fields, &mut pos);
        let tag = decode_string(fields, &mut pos);
        let value = decode_string(fields, &mut pos);
        let currency = decode_string(fields, &mut pos);
        let mut out: Vec<ServerRspMsg> = Vec::new();
        out.push(ServerRspMsg::AccountSummary { req_id, account, tag, value, currency });
        out
    }

    fn process_account_summary_end(&self, fields: &[String]) -> (out: Vec<ServerRspMsg>)
        ensures
            account_summary_end_post(fields_view(fields@), out@),
    {
        let mut pos: usize = 2;
        let req_id = decode_i32(fields, &mut pos);
        let mut out: Vec<ServerRspMsg> = Vec::new();
        out.push(ServerRspMsg::AccountSummaryEnd { req_id });
        out
    }

    fn process_account_update_multi(&self, fields: &[String]) -> (out: Vec<ServerRspMsg>)
        ensures
            account_update_multi_post(fields_view(fields@), out@),
    {
        let mut pos: usize = 2;
        let req_id = decode_i32(fields, &mut pos);
        let account = decode_string(fields, &mut pos);
        let model_code = decode_string(fields, &mut pos);
        let key = decode_string(fields, &mut pos);
        let value = decode_string(fields, &mut pos);
        let currency = decode_string(fields, &mut pos);
        let mut out: Vec<ServerRspMsg> = Vec::new();
        out.push(
            ServerRspMsg::AccountUpdateMulti { req_id, account, model_code, key, value, currency },
        );
        out
    }

    fn process_account_update_multi_end(&self, fields: &[String]) -> (out: Vec<ServerRspMsg>)
        ensures
            account_update_multi_end_post(fields_view(fields@), out@),
    {
        let mut pos: usize = 2;
        let req_id = decode_i32(fields, &mut pos);
        let mut out: Vec<ServerRspMsg> = Vec::new();
        out.push(ServerRspMsg::AccountUpdateMultiEnd { req_id });
        out
    }

    fn process_account_download_end(&self, fields: &[String]) -> (out: Vec<ServerRspMsg>)
        ensures
            account_download_end_post(fields_view(fields@), out@),
    {
        let mut pos: usize = 2;
        let account_name = decode_string(fields, &mut pos);
        let mut out: Vec<ServerRspMsg> = Vec::new();
        out.push(ServerRspMsg::AcctDownloadEnd { account_name });
        out
    }

    fn process_account_update_time(&self, fields: &[String]) -> (out: Vec<ServerRspMsg>)
        ensures
            account_update_time_post(fields_view(fields@), out@),
    {
        let mut pos: usize = 2;
        let time_stamp = decode_string(fields, &mut pos);
        let mut out: Vec<ServerRspMsg> = Vec::new();
        out.push(ServerRspMsg::AcctUpdateTime { time_stamp });
        out
    }

    fn process_account_value(&self, fields: &[String]) -> (out: Vec<ServerRspMsg>)
        ensures
            account_value_post(fields_view(fields@), out@),
    {
        let mut pos: usize = 2;
        let key = decode_string(fields, &mut pos);
        let val = decode_string(fields, &mut pos);
        let currency = decode_string(fields, &mut pos);
        let account_name = decode_string(fields, &mut pos);
        let mut out: Vec<ServerRspMsg> = Vec::new();
        out.push(ServerRspMsg::AcctValue { key, val, currency, account_name });
        out
    }

    fn process_error_message(&self, fields: &[String]) -> (out: Vec<ServerRspMsg>)
        ensures
            error_message_post(fields_view(fields@), out@),
    {
        let mut pos: usize = 2;
        let req_id = decode_i32(fields, &mut pos);
        let error_code = decode_i32(fields, &mut pos);
        let error_str = decode_string(fields, &mut pos);
        let mut out: Vec<ServerRspMsg> = Vec::new();
        out.push(ServerRspMsg::ErrMsg { req_id, error_code, error_str });
        out
    }

    fn process_contract_details_end(&self, fields: &[String]) -> (out: Vec<ServerRspMsg>)
        ensures
            contract_details_end_post(fields_view(fields@), out@),
    {
        let mut pos: usize = 2;
        let req_id = decode_i32(fields, &mut pos);
        let mut out: Vec<ServerRspMsg> = Vec::new();
        out.push(ServerRspMsg::ContractDataEnd { req_id });
        out
    }

    fn process_current_time(&self, fields: &[String]) -> (out: Vec<ServerRspMsg>)
        ensures
            current_time_post(fields_view(fields@), out@),
    {
        let mut pos: usize = 2;
        let time = decode_i64(fields, &mut pos);
        let mut out: Vec<ServerRspMsg> = Vec::new();
        out.push(ServerRspMsg::CurrentTime { time });
        out
    }

    fn process_display_group_list(&self, fields: &[String]) -> (out: Vec<ServerRspMsg>)
        ensures
            display_group_list_post(fields_view(fields@), out@),
    {
        let mut pos: usize = 2;
        let req_id = decode_i32(fields, &mut pos);
        let groups = decode_string(fields, &mut pos);
        let mut out: Vec<ServerRspMsg> = Vec::new();
        out.push(ServerRspMsg::DisplayGroupList { req_id, groups });
        out
    }

    fn process_display_group_updated(&self, fields: &[String]) -> (out: Vec<ServerRspMsg>)
        ensures
            display_group_updated_post(fields_view(fields@), out@),
    {
        let mut pos: usize = 2;
        let req_id = decode_i32(fields, &mut pos);
        let contract_info = decode_string(fields, &mut pos);
        let mut out: Vec<ServerRspMsg> = Vec::new();
        out.push(ServerRspMsg::DisplayGroupUpdated { req_id, contract_info });
        out
    }

    fn process_execution_data_end(&self, fields: &[String]) -> (out: Vec<ServerRspMsg>)
        ensures
            execution_data_end_post(fields_view(fields@), out@),
    {
        let mut pos: usize = 2;
        let req_id = decode_i32(fields, &mut pos);
        let mut out: Vec<ServerRspMsg> = Vec::new();
        out.push(ServerRspMsg::ExecutionDataEnd { req_id });
        out
    }

    fn process_fundamental_data(&self, fields: &[String]) -> (out: Vec<ServerRspMsg>)
        ensures
            fundamental_data_post(fields_view(fields@), out@),
    {
        let mut pos: usize = 2;
        let req_id = decode_i32(fields, &mut pos);
        let data = decode_string(fields, &mut pos);
        let mut out: Vec<ServerRspMsg> = Vec::new();
        out.push(ServerRspMsg::FundamentalData { req_id, data });
        out
    }

    fn process_head_timestamp(&self, fields: &[String]) -> (out: Vec<ServerRspMsg>)
        ensures
            head_timestamp_post(fields_view(fields@), out@),
    {
        let mut pos: usize = 1;
        let req_id = decode_i32(fields, &mut pos);
        let data = decode_string(fields, &mut pos);
        let mut out: Vec<ServerRspMsg> = Vec::new();
        out.push(ServerRspMsg::FundamentalData { req_id, data });
        out
    }

    fn process_managed_accounts(&self, fields: &[String]) -> (out: Vec<ServerRspMsg>)
        ensures
            managed_accounts_post(fields_view(fields@), out@),
    {
        let mut pos: usize = 2;
        let accounts_list = decode_string(fields, &mut pos);
        let mut out: Vec<ServerRspMsg> = Vec::new();
        out.push(ServerRspMsg::ManagedAccts { accounts_list });
        out
    }

    fn process_market_data_type(&self, fields: &[String]) -> (out: Vec<ServerRspMsg>)
        ensures
            market_data_type_post(fields_view(fields@), out@),
    {
        let mut pos: usize = 2;
        let req_id = decode_i32(fields, &mut pos);
        let market_data_type = decode_i32(fields, &mut pos);
        let mut out: Vec<ServerRspMsg> = Vec::new();
        out.push(ServerRspMsg::MarketDataType { req_id, market_data_type });
        out
    }

    fn process_market_depth(&self, fields: &[String]) -> (out: Vec<ServerRspMsg>)
        ensures
            market_depth_post(fields_view(fields@), out@),
    {
        let mut pos: usize = 2;
        let req_id = decode_i32(fields, &mut pos);
        let position = decode_i32(fields, &mut pos);
        let operation = decode_i32(fields, &mut pos);
        let side = decode_i32(fields, &mut pos);
        let price = decode_f64(fields, &mut pos);
        let size = decode_i32(fields, &mut pos);
        let mut out: Vec<ServerRspMsg> = Vec::new();
        out.push(ServerRspMsg::MarketDepth { req_id, position, operation, side, price, size });
        out
    }

    fn process_market_depth_l2(&self, fields: &[String]) -> (out: Vec<ServerRspMsg>)
        ensures
            market_depth_l2_post(fields_view(fields@), self.server_version, out@),
    {
        let mut pos: usize = 2;
        let req_id = decode_i32(fields, &mut pos);
        let position = decode_i32(fields, &mut pos);
        let market_maker = decode_string(fields, &mut pos);
        let operation = decode_i32(fields, &mut pos);
        let side = decode_i32(fields, &mut pos);
        let price = decode_f64(fields, &mut pos);
        let size = decode_i32(fields, &mut pos);
        let is_smart_depth = if self.server_version >= MIN_SERVER_VER_SMART_DEPTH {
            decode_bool(fields, &mut pos)
        } else {
            false
        };
        let mut out: Vec<ServerRspMsg> = Vec::new();
        out.push(
            ServerRspMsg::MarketDepthL2 {
                req_id,
                position,
                market_maker,
                operation,
                side,
                price,
                size,
                is_smart_depth,
            },
        );
        out
    }

    fn process_news_article(&self, fields: &[String]) -> (out: Vec<ServerRspMsg>)
        ensures
            news_article_post(fields_view(fields@), out@),
    {
        let mut pos: usize = 1;
        let req_id = decode_i32(fields, &mut pos);
        let article_type = decode_i32(fields, &mut pos);
        let article_text = decode_string(fields, &mut pos);
        let mut out: Vec<ServerRspMsg> = Vec::new();
        out.push(ServerRspMsg::NewsArticle { req_id, article_type, article_text });
        out
    }

    fn process_news_bulletins(&self, fields: &[String]) -> (out: Vec<ServerRspMsg>)
        ensures
            news_bulletins_post(fields_view(fields@), out@),
    {
        let mut pos: usize = 2;
        let msg_id = decode_i32(fields, &mut pos);
        let msg_type = decode_i32(fields, &mut pos);
        let news_message = decode_string(fields, &mut pos);
        let origin_exch = decode_string(fields, &mut pos);
        let mut out: Vec<ServerRspMsg> = Vec::new();
        out.push(ServerRspMsg::NewsBulletins { msg_id, msg_type, news_message, origin_exch });
        out
    }

    fn process_next_valid_id(&self, fields: &[String]) -> (out: Vec<ServerRspMsg>)
        ensures
            next_valid_id_post(fields_view(fields@), out@),
    {
        let mut pos: usize = 2;
        let order_id = decode_i32(fields, &mut pos);
        let mut out: Vec<ServerRspMsg> = Vec::new();
        out.push(ServerRspMsg::NextValidId { order_id });
        out
    }

    fn process_order_bound(&self, fields: &[String]) -> (out: Vec<ServerRspMsg>)
        ensures
            order_bound_post(fields_view(fields@), out@),
    {
        let mut pos: usize = 1;
        let req_id = decode_i32(fields, &mut pos);
        let api_client_id = decode_i32(fields, &mut pos);
        let api_order_id = decode_i32(fields, &mut pos);
        let mut out: Vec<ServerRspMsg> = Vec::new();
        out.push(ServerRspMsg::OrderBound { req_id, api_client_id, api_order_id });
        out
    }

    fn process_position_multi_end(&self, fields: &[String]) -> (out: Vec<ServerRspMsg>)
        ensures
            position_multi_end_post(fields_view(fields@), out@),
    {
        let mut pos: usize = 2;
        let req_id = decode_i32(fields, &mut pos);
        let mut out: Vec<ServerRspMsg> = Vec::new();
        out.push(ServerRspMsg::PositionMultiEnd { req_id });
        out
    }

    fn process_reroute_mkt_data_req(&self, fields: &[String]) -> (out: Vec<ServerRspMsg>)
        ensures
            reroute_mkt_data_req_post(fields_view(fields@), out@),
    {
        let mut pos: usize = 1;
        let req_id = decode_i32(fields, &mut pos);
        let con_id = decode_i32(fields, &mut pos);
        let exchange = decode_string(fields, &mut pos);
        let mut out: Vec<ServerRspMsg> = Vec::new();
        out.push(ServerRspMsg::RerouteMktDataReq { req_id, con_id, exchange });
        out
    }

    fn process_reroute_mkt_depth_req(&self, fields: &[String]) -> (out: Vec<ServerRspMsg>)
        ensures
            reroute_mkt_depth_req_post(fields_view(fields@), out@),
    {
        let mut pos: usize = 1;
        let req_id = decode_i32(fields, &mut pos);
        let con_id = decode_i32(fields, &mut pos);
        let exchange = decode_string(fields, &mut pos);
        let mut out: Vec<ServerRspMsg> = Vec::new();
        out.push(ServerRspMsg::RerouteMktDepthReq { req_id, con_id, exchange });
        out
    }

    fn process_scanner_parameters(&self, fields: &[String]) -> (out: Vec<ServerRspMsg>)
        ensures
            scanner_parameters_post(fields_view(fields@), out@),
    {
        let mut pos: usize = 2;
        let xml = decode_string(fields, &mut pos);
        let mut out: Vec<ServerRspMsg> = Vec::new();
        out.push(ServerRspMsg::ScannerParameters { xml });
        out
    }

    fn process_tick_news(&self, fields: &[String]) -> (out: Vec<ServerRspMsg>)
        ensures
            tick_news_post(fields_view(fields@), out@),
    {
        let mut pos: usize = 1;
        let ticker_id = decode_i32(fields, &mut pos);
        let time_stamp = decode_i32(fields, &mut pos);
        let provider_code = decode_string(fields, &mut pos);
        let article_id = decode_string(fields, &mut pos);
        let headline = decode_string(fields, &mut pos);
        let extra_data = decode_string(fields, &mut pos);
        let mut out: Vec<ServerRspMsg> = Vec::new();
        out.push(
            ServerRspMsg::TickNews {
                ticker_id,
                time_stamp,
                provider_code,
                article_id,
                headline,
                extra_data,
            },
        );
        out
    }

    fn process_tick_req_params(&self, fields: &[String]) -> (out: Vec<ServerRspMsg>)
        ensures
            tick_req_params_post(fields_view(fields@), out@),
    {
        let mut pos: usize = 1;
        let ticker_id = decode_i32(fields, &mut pos);
        let min_tick = decode_f64(fields, &mut pos);
        let bbo_exchange = decode_string(fields, &mut pos);
        let snapshot_permissions = decode_i32(fields, &mut pos);
        let mut out: Vec<ServerRspMsg> = Vec::new();
        out.push(
            ServerRspMsg::TickReqParams { ticker_id, min_tick, bbo_exchange, snapshot_permissions },
        );
        out
    }

    fn process_tick_snapshot_end(&self, fields: &[String]) -> (out: Vec<ServerRspMsg>)
        ensures
            tick_snapshot_end_post(fields_view(fields@), out@),
    {
        let mut pos: usize = 2;
        let req_id = decode_i32(fields, &mut pos);
        let mut out: Vec<ServerRspMsg> = Vec::new();
        out.push(ServerRspMsg::TickSnapshotEnd { req_id });
        out
    }

    fn process_verify_completed(&self, fields: &[String]) -> (out: Vec<ServerRspMsg>)
        ensures
            verify_completed_post(fields_view(fields@), out@),
    {
        let mut pos: usize = 3;
        let successful_text = decode_string(fields, &mut pos);
        let error_text = decode_string(fields, &mut pos);
        let is_successful = compare_true(&successful_text);
        let mut out: Vec<ServerRspMsg> = Vec::new();
        out.push(ServerRspMsg::VerifyCompleted { is_successful, error_text });
        out
    }

    fn process_verify_and_auth_completed(&self, fields: &[String]) -> (out: Vec<ServerRspMsg>)
        ensures
            verify_and_auth_completed_post(fields_view(fields@), out@),
    {
        let mut pos: usize = 3;
        let successful_text = decode_string(fields, &mut pos);
        let error_text = decode_string(fields, &mut pos);
        let is_successful = compare_true(&successful_text);
        let mut out: Vec<ServerRspMsg> = Vec::new();
        out.push(ServerRspMsg::VerifyAndAuthCompleted { is_successful, error_text });
        out
    }

    fn process_verify_and_auth_message_api(&self, fields: &[String]) -> (out: Vec<ServerRspMsg>)
        ensures
            verify_and_auth_message_api_post(fields_view(fields@), out@),
    {
        let mut pos: usize = 2;
        let api_data = decode_string(fields, &mut pos);
        let xyz_challenge = decode_string(fields, &mut pos);
        let mut out: Vec<ServerRspMsg> = Vec::new();
        out.push(ServerRspMsg::VerifyAndAuthMessageApi { api_data, xyz_challenge });
        out
    }
}

fn compare_true(s: &String) -> (r: bool)
    ensures
        r == (s@ == "true"@),
{
    let t = String::from_str("true");
    s.eq(&t)
}

// ------------------------------------------------------------------
// Index-based reads, for routines whose layout involves repeated blocks
// ------------------------------------------------------------------

fn str_at(fields: &[String], i: u64) -> (r: String)
    ensures
        r@ == sstr(fields_view(fields@), i as int),
{
    if i < fields.len() as u64 {
        vstd::slice::slice_index_get(fields, i as usize).clone()
    } else {
        String::new()
    }
}

fn i32_at(fields: &[String], i: u64) -> (r: i32)
    ensures
        r == si32(fields_view(fields@), i as int),
{
    if i < fields.len() as u64 {
        match crate::numtext::parse_i32(vstd::slice::slice_index_get(fields, i as usize).as_str()) {
            Some(v) => v,
            None => 0,
        }
    } else {
        0
    }
}

fn i64_at(fields: &[String], i: u64) -> (r: i64)
    ensures
        r == si64(fields_view(fields@), i as int),
{
    if i < fields.len() as u64 {
        match crate::numtext::parse_i64(vstd::slice::slice_index_get(fields, i as usize).as_str()) {
            Some(v) => v,
            None => 0,
        }
    } else {
        0
    }
}

fn bool_at(fields: &[String], i: u64) -> (r: bool)
    ensures
        r == sbool(fields_view(fields@), i as int),
{
    let v = i32_at(fields, i);
    v != 0
}

fn f64_at(fields: &[String], i: u64) -> (r: String)
    ensures
        r@ == sf64(fields_view(fields@), i as int),
{
    let raw = str_at(fields, i);
    if crate::numtext::is_float_text_exec(raw.as_str()) {
        raw
    } else {
        zero_string()
    }
}

fn f64_remap_at(fields: &[String], i: u64, sentinel: char) -> (r: DoubleValue)
    ensures
        sf64_remap_is(fields_view(fields@), i as int, sentinel, r),
{
    let raw = str_at(fields, i);
    if crate::numtext::float_text_is_neg_int_exec(raw.as_str(), sentinel) {
        DoubleValue::Unset
    } else if crate::numtext::is_float_text_exec(raw.as_str()) {
        DoubleValue::Num(raw)
    } else {
        proof {
            crate::numtext::lemma_zero_is_float_text();
        }
        DoubleValue::Num(zero_string())
    }
}

/// An integer-coded quantity read as decimal text (sessions before the
/// fractional-quantities version sent these as integers).
fn i32_text_at(fields: &[String], i: u64) -> (r: String)
    ensures
        r@ == crate::numtext::int_text_of(si32(fields_view(fields@), i as int) as int),
{
    let v = i32_at(fields, i);
    crate::numtext::i32_text(v)
}

/// The raw tail of a field list from a starting index.
pub open spec fn tail_view(fs: Seq<Seq<char>>, start: int) -> Seq<Seq<char>> {
    if start <= fs.len() {
        fs.skip(start)
    } else {
        Seq::empty()
    }
}

fn tail_fields(fields: &[String], start: u64) -> (r: Vec<String>)
    ensures
        fields_view(r@) == tail_view(fields_view(fields@), start as int),
{
    let mut out: Vec<String> = Vec::new();
    let n = fields.len() as u64;
    if start >= n {
        proof {
            assert(fields_view(out@) =~~= tail_view(fields_view(fields@), start as int));
        }
        return out;
    }
    let mut i: usize = start as usize;
    while i < fields.len()
        invariant
            start <= i <= fields@.len(),
            fields_view(out@) =~~= fields_view(fields@).subrange(start as int, i as int),
        decreases fields@.len() - i,
    {
        out.push(vstd::slice::slice_index_get(fields, i).clone());
        proof {
            assert(fields_view(out@) =~~= fields_view(out@.drop_last()).push(fields@[i as int]@));
            assert(fields_view(fields@).subrange(start as int, i + 1) =~~= fields_view(
                fields@,
            ).subrange(start as int, i as int).push(fields_view(fields@)[i as int]));
            assert(fields_view(out@) =~~= fields_view(fields@).subrange(start as int, i + 1));
        }
        i = i + 1;
    }
    proof {
        assert(fields_view(out@) =~~= tail_view(fields_view(fields@), start as int));
    }
    out
}

// ------------------------------------------------------------------
// Routines with version gates and repeated blocks
// ------------------------------------------------------------------

/// A quantity field: decimal text from sessions that support fractional
/// quantities, an integer before that.
pub open spec fn squant(fs: Seq<Seq<char>>, sv: i32, i: int) -> Seq<char> {
    if sv >= MIN_SERVER_VER_FRACTIONAL_POSITIONS {
        sf64(fs, i)
    } else {
        crate::numtext::int_text_of(si32(fs, i) as int)
    }
}

fn quant_at(fields: &[String], sv: i32, i: u64) -> (r: String)
    ensures
        r@ == squant(fields_view(fields@), sv, i as int),
{
    if sv >= MIN_SERVER_VER_FRACTIONAL_POSITIONS {
        f64_at(fields, i)
    } else {
        i32_text_at(fields, i)
    }
}

pub open spec fn order_status_post(fs: Seq<Seq<char>>, sv: i32, out: Seq<ServerRspMsg>) -> bool {
    let b: int = if sv < MIN_SERVER_VER_MARKET_CAP_PRICE {
        2
    } else {
        1
    };
    &&& out.len() == 1
    &&& (out[0] matches ServerRspMsg::OrderStatus {
        order_id,
        status,
        filled,
        remaining,
        avg_fill_price,
        perm_id,
        parent_id,
        last_fill_price,
        client_id,
        why_held,
        mkt_cap_price,
    } && order_id == si32(fs, b) && status@ == sstr(fs, b + 1) && filled@ == squant(fs, sv, b + 2)
        && remaining@ == squant(fs, sv, b + 3) && avg_fill_price@ == sf64(fs, b + 4) && perm_id
        == si32(fs, b + 5) && parent_id == si32(fs, b + 6) && last_fill_price@ == sf64(fs, b + 7)
        && client_id == si32(fs, b + 8) && why_held@ == sstr(fs, b + 9) && mkt_cap_price@ == (if sv
        >= MIN_SERVER_VER_MARKET_CAP_PRICE {
        sf64(fs, b + 10)
    } else {
        seq!['0']
    }))
}

pub open spec fn pnl_post(fs: Seq<Seq<char>>, sv: i32, out: Seq<ServerRspMsg>) -> bool {
    let g1: int = if sv >= MIN_SERVER_VER_UNREALIZED_PNL {
        1
    } else {
        0
    };
    &&& out.len() == 1
    &&& (out[0] matches ServerRspMsg::Pnl { req_id, daily_pnl, unrealized_pnl, realized_pnl }
        && req_id == si32(fs, 1) && daily_pnl@ == sf64(fs, 2) && unrealized_pnl@ == (if sv
        >= MIN_SERVER_VER_UNREALIZED_PNL {
        sf64(fs, 3)
    } else {
        seq!['0']
    }) && realized_pnl@ == (if sv >= MIN_SERVER_VER_REALIZED_PNL {
        sf64(fs, 3 + g1)
    } else {
        seq!['0']
    }))
}

pub open spec fn pnl_single_post(fs: Seq<Seq<char>>, sv: i32, out: Seq<ServerRspMsg>) -> bool {
    let g1: int = if sv >= MIN_SERVER_VER_UNREALIZED_PNL {
        1
    } else {
        0
    };
    let g2: int = if sv >= MIN_SERVER_VER_REALIZED_PNL {
        1
    } else {
        0
    };
    &&& out.len() == 1
    &&& (out[0] matches ServerRspMsg::PnlSingle {
        req_id,
        pos,
        daily_pnl,
        unrealized_pnl,
        realized_pnl,
        value,
    } && req_id == si32(fs, 1) && pos == si32(fs, 2) && daily_pnl@ == sf64(fs, 3)
        && unrealized_pnl@ == (if sv >= MIN_SERVER_VER_UNREALIZED_PNL {
        sf64(fs, 4)
    } else {
        seq!['0']
    }) && realized_pnl@ == (if sv >= MIN_SERVER_VER_REALIZED_PNL {
        sf64(fs, 4 + g1)
    } else {
        seq!['0']
    }) && value@ == sf64(fs, 4 + g1 + g2))
}

pub open spec fn receive_fa_post(fs: Seq<Seq<char>>, out: Seq<ServerRspMsg>) -> bool {
    &&& out.len() == 1
    &&& (out[0] matches ServerRspMsg::ReceiveFa { fa_data, cxml } && fa_data == si32(fs, 2)
        && cxml@ == sstr(fs, 3))
}

pub open spec fn commission_report_post(fs: Seq<Seq<char>>, out: Seq<ServerRspMsg>) -> bool {
    &&& out.len() == 1
    &&& (out[0] matches ServerRspMsg::CommissionReport { commission_report } && ({
        let c = commission_report;
        c.exec_id@ == sstr(fs, 2) && c.commission@ == sf64(fs, 3) && c.currency@ == sstr(fs, 4)
            && c.realized_pnl@ == sf64(fs, 5) && c.yield_@ == sf64(fs, 6)
            && c.yield_redemption_date@ == sstr(fs, 7)
    }))
}

pub open spec fn delta_neutral_validation_post(fs: Seq<Seq<char>>, out: Seq<ServerRspMsg>) -> bool {
    &&& out.len() == 1
    &&& (out[0] matches ServerRspMsg::DeltaNeutralValidation { req_id, delta_neutral_contract }
        && req_id == si32(fs, 2) && delta_neutral_contract.con_id == si32(fs, 3)
        && delta_neutral_contract.delta@ == sf64(fs, 4) && delta_neutral_contract.price@ == sf64(
        fs,
        5,
    ))
}

pub open spec fn real_time_bars_post(fs: Seq<Seq<char>>, out: Seq<ServerRspMsg>) -> bool {
    &&& out.len() == 1
    &&& (out[0] matches ServerRspMsg::RealTimeBars { req_id, bar } && req_id == si32(fs, 2) && ({
        let b = bar;
        b.date_time@ == sstr(fs, 3) && b.open@ == sf64(fs, 4) && b.high@ == sf64(fs, 5) && b.low@
            == sf64(fs, 6) && b.close@ == sf64(fs, 7) && b.volume == si64(fs, 8) && b.wap@ == sf64(
            fs,
            9,
        ) && b.count == si32(fs, 10)
    }))
}

pub open spec fn historical_data_update_post(fs: Seq<Seq<char>>, out: Seq<ServerRspMsg>) -> bool {
    &&& out.len() == 1
    &&& (out[0] matches ServerRspMsg::HistoricalDataUpdate { req_id, bar } && req_id == si32(fs, 1)
        && ({
        let b = bar;
        b.bar_count == si32(fs, 2) && b.date@ == sstr(fs, 3) && b.open@ == sf64(fs, 4) && b.close@
            == sf64(fs, 5) && b.high@ == sf64(fs, 6) && b.low@ == sf64(fs, 7) && b.average@
            == sf64(fs, 8) && b.volume == si64(fs, 9)
    }))
}

pub open spec fn historical_news_post(fs: Seq<Seq<char>>, out: Seq<ServerRspMsg>) -> bool {
    &&& out.len() == 1
    &&& (out[0] matches ServerRspMsg::HistoricalNews {
        req_id,
        time,
        provider_code,
        article_id,
        headline,
    } && req_id == si32(fs, 1) && time@ == sstr(fs, 2) && provider_code@ == sstr(fs, 3)
        && article_id@ == sstr(fs, 4) && headline@ == sstr(fs, 5))
}

pub open spec fn historical_news_end_post(fs: Seq<Seq<char>>, out: Seq<ServerRspMsg>) -> bool {
    &&& out.len() == 1
    &&& (out[0] matches ServerRspMsg::HistoricalNewsEnd { req_id, has_more } && req_id == si32(
        fs,
        1,
    ) && has_more == sbool(fs, 2))
}

pub open spec fn tick_by_tick_post(fs: Seq<Seq<char>>, out: Seq<ServerRspMsg>) -> bool {
    let req_id = si32(fs, 1);
    let tt = si32(fs, 2);
    let time = si64(fs, 3);
    if tt == 1 || tt == 2 {
        &&& out.len() == 1
        &&& (out[0] matches ServerRspMsg::TickByTick { req_id: r, tick_type, time: tm, tick_msg }
            && r == req_id && tick_type == tt && tm == time && (tick_msg
            matches TickMsgType::AllLast {
            price,
            size,
            tick_attrib_last,
            exchange,
            special_conditions,
        } && price@ == sf64(fs, 4) && size == si32(fs, 5) && tick_attrib_last.past_limit == (si32(
            fs,
            6,
        ) & 1 != 0) && tick_attrib_last.unreported == (si32(fs, 6) & 2 != 0) && exchange@ == sstr(
            fs,
            7,
        ) && special_conditions@ == sstr(fs, 8)))
    } else if tt == 3 {
        &&& out.len() == 1
        &&& (out[0] matches ServerRspMsg::TickByTick { req_id: r, tick_type, time: tm, tick_msg }
            && r == req_id && tick_type == tt && tm == time && (tick_msg
            matches TickMsgType::BidAsk {
            bid_price,
            ask_price,
            bid_size,
            ask_size,
            tick_attrib_bid_ask,
        } && bid_price@ == sf64(fs, 4) && ask_price@ == sf64(fs, 5) && bid_size == si32(fs, 6)
            && ask_size == si32(fs, 7) && tick_attrib_bid_ask.bid_past_low == (si32(fs, 8) & 1
            != 0) && tick_attrib_bid_ask.ask_past_high == (si32(fs, 8) & 2 != 0)))
    } else if tt == 4 {
        &&& out.len() == 1
        &&& (out[0] matches ServerRspMsg::TickByTick { req_id: r, tick_type, time: tm, tick_msg }
            && r == req_id && tick_type == tt && tm == time && (tick_msg
            matches TickMsgType::MidPoint { mid_point } && mid_point@ == sf64(fs, 4)))
    } else {
        out.len() == 0
    }
}

pub open spec fn tick_option_computation_post(fs: Seq<Seq<char>>, out: Seq<ServerRspMsg>) -> bool {
    let version = si32(fs, 1);
    let tt = si32(fs, 3);
    let model = tt == 13 || tt == 83;
    &&& out.len() == 1
    &&& (out[0] matches ServerRspMsg::TickOptionComputation {
        ticker_id,
        tick_type,
        implied_vol,
        delta,
        opt_price,
        pv_dividend,
        gamma,
        vega,
        theta,
        und_price,
    } && ticker_id == si32(fs, 2) && tick_type == tt && sf64_remap_is(fs, 4, '1', implied_vol)
        && sf64_remap_is(fs, 5, '2', delta) && (if version >= 6 || model {
        sf64_remap_is(fs, 6, '1', opt_price) && sf64_remap_is(fs, 7, '1', pv_dividend)
    } else {
        opt_price is Unset && pv_dividend is Unset
    }) && (if version >= 6 {
        sf64_remap_is(fs, 8, '2', gamma) && sf64_remap_is(fs, 9, '2', vega) && sf64_remap_is(
            fs,
            10,
            '2',
            theta,
        ) && sf64_remap_is(fs, 11, '1', und_price)
    } else {
        gamma is Unset && vega is Unset && theta is Unset && und_price is Unset
    }))
}

/// The order payload of an open-order report is carried raw: the order
/// object is an opaque domain value to this codec.
pub open spec fn open_order_post(fs: Seq<Seq<char>>, sv: i32, out: Seq<ServerRspMsg>) -> bool {
    let has_version = sv < MIN_SERVER_VER_ORDER_CONTAINER;
    let version = if has_version {
        si32(fs, 1)
    } else {
        sv
    };
    let start: int = if has_version {
        2
    } else {
        1
    };
    &&& out.len() == 1
    &&& (out[0] matches ServerRspMsg::OpenOrder { version: v, fields: f } && v == version
        && fields_view(f@) == tail_view(fs, start))
}

pub open spec fn completed_order_post(fs: Seq<Seq<char>>, out: Seq<ServerRspMsg>) -> bool {
    &&& out.len() == 1
    &&& (out[0] matches ServerRspMsg::CompletedOrder { fields: f } && fields_view(f@) == tail_view(
        fs,
        1,
    ))
}

pub open spec fn portfolio_value_post(fs: Seq<Seq<char>>, sv: i32, out: Seq<ServerRspMsg>) -> bool {
    let version = si32(fs, 1);
    let b: int = if version >= 7 {
        10
    } else {
        8
    };
    let c: int = b + 2 + (if version >= 8 {
        1int
    } else {
        0int
    });
    &&& out.len() == 1
    &&& (out[0] matches ServerRspMsg::PortfolioValue {
        contract,
        position,
        market_price,
        market_value,
        average_cost,
        unrealized_pnl,
        realized_pnl,
        account_name,
    } && ({
        let ct = contract;
        ct.con_id == si32(fs, 2) && ct.symbol@ == sstr(fs, 3) && ct.sec_type@ == sstr(fs, 4)
            && ct.last_trade_date_or_contract_month@ == sstr(fs, 5) && ct.strike@ == sf64(fs, 6)
            && ct.right@ == sstr(fs, 7) && ct.multiplier@ == (if version >= 7 {
            sstr(fs, 8)
        } else {
            Seq::<char>::empty()
        }) && ct.primary_exchange@ == (if version == 6 && sv == 39 {
            sstr(fs, c + 7)
        } else if version >= 7 {
            sstr(fs, 9)
        } else {
            Seq::<char>::empty()
        }) && ct.currency@ == sstr(fs, b) && ct.local_symbol@ == sstr(fs, b + 1)
            && ct.trading_class@ == (if version >= 8 {
            sstr(fs, b + 2)
        } else {
            Seq::<char>::empty()
        }) && ct.exchange@ == Seq::<char>::empty()
    }) && position@ == squant(fs, sv, c) && market_price@ == sf64(fs, c + 1) && market_value@
        == sf64(fs, c + 2) && average_cost@ == sf64(fs, c + 3) && unrealized_pnl@ == sf64(fs, c + 4)
        && realized_pnl@ == sf64(fs, c + 5) && account_name@ == sstr(fs, c + 6))
}

pub open spec fn position_data_post(fs: Seq<Seq<char>>, sv: i32, out: Seq<ServerRspMsg>) -> bool {
    let version = si32(fs, 1);
    let b: int = 13 + (if version >= 2 {
        1int
    } else {
        0int
    });
    &&& out.len() == 1
    &&& (out[0] matches ServerRspMsg::PositionData { account, contract, position, avg_cost }
        && account@ == sstr(fs, 2) && ({
        let ct = contract;
        ct.con_id == si32(fs, 3) && ct.symbol@ == sstr(fs, 4) && ct.sec_type@ == sstr(fs, 5)
            && ct.last_trade_date_or_contract_month@ == sstr(fs, 6) && ct.strike@ == sf64(fs, 7)
            && ct.right@ == sstr(fs, 8) && ct.multiplier@ == sstr(fs, 9) && ct.exchange@ == sstr(
            fs,
            10,
        ) && ct.currency@ == sstr(fs, 11) && ct.local_symbol@ == sstr(fs, 12) && ct.trading_class@
            == (if version >= 2 {
            sstr(fs, 13)
        } else {
            Seq::<char>::empty()
        }) && ct.primary_exchange@ == Seq::<char>::empty()
    }) && position@ == squant(fs, sv, b) && avg_cost@ == (if version >= 3 {
        sf64(fs, b + 1)
    } else {
        seq!['0']
    }))
}

pub open spec fn position_multi_post(fs: Seq<Seq<char>>, out: Seq<ServerRspMsg>) -> bool {
    &&& out.len() == 1
    &&& (out[0] matches ServerRspMsg::PositionMulti {
        req_id,
        account,
        model_code,
        contract,
        position,
        avg_cost,
    } && req_id == si32(fs, 2) && account@ == sstr(fs, 3) && ({
        let ct = contract;
        ct.con_id == si32(fs, 4) && ct.symbol@ == sstr(fs, 5) && ct.sec_type@ == sstr(fs, 6)
            && ct.last_trade_date_or_contract_month@ == sstr(fs, 7) && ct.strike@ == sf64(fs, 8)
            && ct.right@ == sstr(fs, 9) && ct.multiplier@ == sstr(fs, 10) && ct.exchange@ == sstr(
            fs,
            11,
        ) && ct.currency@ == sstr(fs, 12) && ct.local_symbol@ == sstr(fs, 13) && ct.trading_class@
            == sstr(fs, 14) && ct.primary_exchange@ == Seq::<char>::empty()
    }) && position@ == sf64(fs, 15) && avg_cost@ == sf64(fs, 16) && model_code@ == sstr(fs, 17))
}

/// A wire count: the number of repeated blocks that follow; never negative.
pub open spec fn nneg(v: i32) -> int {
    if v > 0 {
        v as int
    } else {
        0
    }
}

fn nneg_exec(v: i32) -> (r: u64)
    ensures
        r == nneg(v),
{
    if v > 0 {
        v as u64
    } else {
        0
    }
}

pub open spec fn tag_at(fs: Seq<Seq<char>>, p: int, t: TagValue) -> bool {
    t.tag@ == sstr(fs, p) && t.value@ == sstr(fs, p + 1)
}

pub open spec fn tags_at(fs: Seq<Seq<char>>, p: int, n: int, tags: Seq<TagValue>) -> bool {
    tags.len() == n && (forall|i: int| 0 <= i < n ==> tag_at(fs, p + 2 * i, #[trigger] tags[i]))
}

fn read_tags(fields: &[String], p: u64, n: u64) -> (tags: Vec<TagValue>)
    requires
        p <= 0xFFFF_FFFF,
        n <= 0x7FFF_FFFF,
    ensures
        tags_at(fields_view(fields@), p as int, n as int, tags@),
{
    let mut tags: Vec<TagValue> = Vec::new();
    let mut k: u64 = 0;
    while k < n
        invariant
            k <= n,
            p <= 0xFFFF_FFFF,
            n <= 0x7FFF_FFFF,
            tags@.len() == k,
            forall|i: int| 0 <= i < k ==> tag_at(fields_view(fields@), p + 2 * i, #[trigger] tags@[i]),
        decreases n - k,
    {
        let base = p + 2 * k;
        let t = TagValue { tag: str_at(fields, base), value: str_at(fields, base + 1) };
        tags.push(t);
        k = k + 1;
    }
    tags
}

pub open spec fn family_code_at(fs: Seq<Seq<char>>, p: int, fc: FamilyCode) -> bool {
    fc.account_id@ == sstr(fs, p) && fc.family_code_str@ == sstr(fs, p + 1)
}

pub open spec fn family_codes_post(fs: Seq<Seq<char>>, out: Seq<ServerRspMsg>) -> bool {
    let cnt = nneg(si32(fs, 1));
    &&& out.len() == 1
    &&& (out[0] matches ServerRspMsg::FamilyCodes { family_codes } && family_codes@.len() == cnt
        && (forall|i: int|
        0 <= i < cnt ==> family_code_at(fs, 2 + 2 * i, #[trigger] family_codes@[i])))
}

pub open spec fn news_provider_at(fs: Seq<Seq<char>>, p: int, np: NewsProvider) -> bool {
    np.code@ == sstr(fs, p) && np.name@ == sstr(fs, p + 1)
}

pub open spec fn news_providers_post(fs: Seq<Seq<char>>, out: Seq<ServerRspMsg>) -> bool {
    let cnt = nneg(si32(fs, 1));
    &&& out.len() == 1
    &&& (out[0] matches ServerRspMsg::NewsProviders { news_providers } && news_providers@.len()
        == cnt && (forall|i: int|
        0 <= i < cnt ==> news_provider_at(fs, 2 + 2 * i, #[trigger] news_providers@[i])))
}

pub open spec fn smart_component_at(fs: Seq<Seq<char>>, p: int, sc: SmartComponent) -> bool {
    sc.bit_number == si32(fs, p) && sc.exchange@ == sstr(fs, p + 1) && sc.exchange_letter@ == sstr(
        fs,
        p + 2,
    )
}

pub open spec fn smart_components_post(fs: Seq<Seq<char>>, out: Seq<ServerRspMsg>) -> bool {
    let cnt = nneg(si32(fs, 2));
    &&& out.len() == 1
    &&& (out[0] matches ServerRspMsg::SmartComponents { req_id, smart_components } && req_id
        == si32(fs, 1) && smart_components@.len() == cnt && (forall|i: int|
        0 <= i < cnt ==> smart_component_at(fs, 3 + 3 * i, #[trigger] smart_components@[i])))
}

pub open spec fn soft_dollar_tier_at(fs: Seq<Seq<char>>, p: int, t: SoftDollarTier) -> bool {
    t.name@ == sstr(fs, p) && t.val@ == sstr(fs, p + 1) && t.display_name@ == sstr(fs, p + 2)
}

pub open spec fn soft_dollar_tiers_post(fs: Seq<Seq<char>>, out: Seq<ServerRspMsg>) -> bool {
    let cnt = nneg(si32(fs, 2));
    &&& out.len() == 1
    &&& (out[0] matches ServerRspMsg::SoftDollarTiers { req_id, tiers } && req_id == si32(fs, 1)
        && tiers@.len() == cnt && (forall|i: int|
        0 <= i < cnt ==> soft_dollar_tier_at(fs, 3 + 3 * i, #[trigger] tiers@[i])))
}

pub open spec fn histogram_entry_at(fs: Seq<Seq<char>>, p: int, h: HistogramData) -> bool {
    h.price@ == sf64(fs, p) && h.count == si32(fs, p + 1)
}

pub open spec fn histogram_data_post(fs: Seq<Seq<char>>, out: Seq<ServerRspMsg>) -> bool {
    let cnt = nneg(si32(fs, 2));
    &&& out.len() == 1
    &&& (out[0] matches ServerRspMsg::HistogramData { req_id, items } && req_id == si32(fs, 1)
        && items@.len() == cnt && (forall|i: int|
        0 <= i < cnt ==> histogram_entry_at(fs, 3 + 2 * i, #[trigger] items@[i])))
}

pub open spec fn price_increment_at(fs: Seq<Seq<char>>, p: int, pi: PriceIncrement) -> bool {
    pi.low_edge@ == sf64(fs, p) && pi.increment@ == sf64(fs, p + 1)
}

pub open spec fn market_rule_post(fs: Seq<Seq<char>>, out: Seq<ServerRspMsg>) -> bool {
    let cnt = nneg(si32(fs, 2));
    &&& out.len() == 1
    &&& (out[0] matches ServerRspMsg::MarketRule { market_rule_id, price_increments }
        && market_rule_id == si32(fs, 1) && price_increments@.len() == cnt && (forall|i: int|
        0 <= i < cnt ==> price_increment_at(fs, 3 + 2 * i, #[trigger] price_increments@[i])))
}

pub open spec fn historical_tick_at(fs: Seq<Seq<char>>, p: int, t: HistoricalTick) -> bool {
    t.time == si32(fs, p) && t.price@ == sf64(fs, p + 2) && t.size == si32(fs, p + 3)
}

pub open spec fn historical_ticks_post(fs: Seq<Seq<char>>, out: Seq<ServerRspMsg>) -> bool {
    let cnt = nneg(si32(fs, 2));
    &&& out.len() == 1
    &&& (out[0] matches ServerRspMsg::HistoricalTicks { req_id, ticks, done } && req_id == si32(
        fs,
        1,
    ) && ticks@.len() == cnt && (forall|i: int|
        0 <= i < cnt ==> historical_tick_at(fs, 3 + 4 * i, #[trigger] ticks@[i])) && done == sbool(
        fs,
        3 + 4 * cnt,
    ))
}

pub open spec fn historical_tick_bid_ask_at(
    fs: Seq<Seq<char>>,
    p: int,
    t: HistoricalTickBidAsk,
) -> bool {
    &&& t.time == si32(fs, p)
    &&& t.tick_attrib_bid_ask.ask_past_high == (si32(fs, p + 1) & 1 != 0)
    &&& t.tick_attrib_bid_ask.bid_past_low == (si32(fs, p + 1) & 2 != 0)
    &&& t.price_bid@ == sf64(fs, p + 2)
    &&& t.price_ask@ == sf64(fs, p + 3)
    &&& t.size_bid == si32(fs, p + 4)
    &&& t.size_ask == si32(fs, p + 5)
}

pub open spec fn historical_ticks_bid_ask_post(fs: Seq<Seq<char>>, out: Seq<ServerRspMsg>) -> bool {
    let cnt = nneg(si32(fs, 2));
    &&& out.len() == 1
    &&& (out[0] matches ServerRspMsg::HistoricalTicksBidAsk { req_id, ticks, done } && req_id
        == si32(fs, 1) && ticks@.len() == cnt && (forall|i: int|
        0 <= i < cnt ==> historical_tick_bid_ask_at(fs, 3 + 6 * i, #[trigger] ticks@[i])) && done
        == sbool(fs, 3 + 6 * cnt))
}

pub open spec fn historical_tick_last_at(fs: Seq<Seq<char>>, p: int, t: HistoricalTickLast) -> bool {
    &&& t.time == si32(fs, p)
    &&& t.tick_attrib_last.past_limit == (si32(fs, p + 1) & 1 != 0)
    &&& t.tick_attrib_last.unreported == (si32(fs, p + 1) & 2 != 0)
    &&& t.price@ == sf64(fs, p + 2)
    &&& t.size == si32(fs, p + 3)
    &&& t.exchange@ == sstr(fs, p + 4)
    &&& t.special_conditions@ == sstr(fs, p + 5)
}

pub open spec fn historical_ticks_last_post(fs: Seq<Seq<char>>, out: Seq<ServerRspMsg>) -> bool {
    let cnt = nneg(si32(fs, 2));
    &&& out.len() == 1
    &&& (out[0] matches ServerRspMsg::HistoricalTicksLast { req_id, ticks, done } && req_id
        == si32(fs, 1) && ticks@.len() == cnt && (forall|i: int|
        0 <= i < cnt ==> historical_tick_last_at(fs, 3 + 6 * i, #[trigger] ticks@[i])) && done
        == sbool(fs, 3 + 6 * cnt))
}

pub open spec fn sec_def_opt_param_post(fs: Seq<Seq<char>>, out: Seq<ServerRspMsg>) -> bool {
    let ec = nneg(si32(fs, 6));
    let sc = nneg(si32(fs, 7 + ec));
    &&& out.len() == 1
    &&& (out[0] matches ServerRspMsg::SecurityDefinitionOptionParameter {
        req_id,
        exchange,
        underlying_con_id,
        trading_class,
        multiplier,
        expirations,
        strikes,
    } && req_id == si32(fs, 1) && exchange@ == sstr(fs, 2) && underlying_con_id == si32(fs, 3)
        && trading_class@ == sstr(fs, 4) && multiplier@ == sstr(fs, 5) && expirations@.len() == ec
        && (forall|i: int| 0 <= i < ec ==> (#[trigger] expirations@[i])@ == sstr(fs, 7 + i))
        && strikes@.len() == sc && (forall|i: int|
        0 <= i < sc ==> (#[trigger] strikes@[i])@ == sf64(fs, 8 + ec + i)))
}

pub open spec fn depth_mkt_data_description_at(
    fs: Seq<Seq<char>>,
    sv: i32,
    p: int,
    d: DepthMktDataDescription,
) -> bool {
    &&& d.exchange@ == sstr(fs, p)
    &&& d.sec_type@ == sstr(fs, p + 1)
    &&& d.listing_exch@ == (if sv >= MIN_SERVER_VER_SERVICE_DATA_TYPE {
        sstr(fs, p + 2)
    } else {
        Seq::<char>::empty()
    })
    &&& d.service_data_type@ == (if sv >= MIN_SERVER_VER_SERVICE_DATA_TYPE {
        sstr(fs, p + 3)
    } else {
        Seq::<char>::empty()
    })
    &&& d.agg_group == (if sv >= MIN_SERVER_VER_SERVICE_DATA_TYPE {
        si32(fs, p + 4)
    } else {
        0
    })
}

pub open spec fn market_depth_exchanges_post(
    fs: Seq<Seq<char>>,
    sv: i32,
    out: Seq<ServerRspMsg>,
) -> bool {
    let cnt = nneg(si32(fs, 1));
    let stride: int = if sv >= MIN_SERVER_VER_SERVICE_DATA_TYPE {
        5
    } else {
        3
    };
    &&& out.len() == 1
    &&& (out[0] matches ServerRspMsg::MktDepthExchanges { depth_mkt_data_descriptions }
        && depth_mkt_data_descriptions@.len() == cnt && (forall|i: int|
        0 <= i < cnt ==> depth_mkt_data_description_at(
            fs,
            sv,
            2 + stride * i,
            #[trigger] depth_mkt_data_descriptions@[i],
        )))
}

pub open spec fn hist_bar_at(fs: Seq<Seq<char>>, sv: i32, p: int, b: BarData) -> bool {
    &&& b.date@ == sstr(fs, p)
    &&& b.open@ == sf64(fs, p + 1)
    &&& b.high@ == sf64(fs, p + 2)
    &&& b.low@ == sf64(fs, p + 3)
    &&& b.close@ == sf64(fs, p + 4)
    &&& b.volume == (if sv < MIN_SERVER_VER_SYNT_REALTIME_BARS {
        si32(fs, p + 5) as i64
    } else {
        si64(fs, p + 5)
    })
    &&& b.average@ == sf64(fs, p + 6)
    &&& b.bar_count == si32(fs, p + (if sv < MIN_SERVER_VER_SYNT_REALTIME_BARS {
        8int
    } else {
        7int
    }))
}

pub open spec fn hist_bar_msg_at(
    fs: Seq<Seq<char>>,
    sv: i32,
    req_id: i32,
    p: int,
    m: ServerRspMsg,
) -> bool {
    m matches ServerRspMsg::HistoricalData { req_id: r, bar } && r == req_id && hist_bar_at(
        fs,
        sv,
        p,
        bar,
    )
}

/// One message per bar, then exactly one end marker carrying the requested
/// start and end date strings.
pub open spec fn historical_data_post(fs: Seq<Seq<char>>, sv: i32, out: Seq<ServerRspMsg>) -> bool {
    let b: int = if sv < MIN_SERVER_VER_SYNT_REALTIME_BARS {
        2
    } else {
        1
    };
    let stride: int = if sv < MIN_SERVER_VER_SYNT_REALTIME_BARS {
        9
    } else {
        8
    };
    let req_id = si32(fs, b);
    let cnt = nneg(si32(fs, b + 3));
    &&& out.len() == cnt + 1
    &&& (forall|i: int|
        0 <= i < cnt ==> hist_bar_msg_at(fs, sv, req_id, b + 4 + stride * i, #[trigger] out[i]))
    &&& (out[cnt] matches ServerRspMsg::HistoricalDataEnd { req_id: r, start, end } && r == req_id
        && start@ == sstr(fs, b + 1) && end@ == sstr(fs, b + 2))
}

pub open spec fn scanner_item_at(fs: Seq<Seq<char>>, req_id: i32, p: int, m: ServerRspMsg) -> bool {
    m matches ServerRspMsg::ScannerData {
        req_id: r,
        rank,
        contract_details,
        distance,
        benchmark,
        projection,
        legs_str,
    } && r == req_id && rank == si32(fs, p) && ({
        let cd = contract_details;
        let ct = cd.contract;
        &&& ct.con_id == si32(fs, p + 1)
        &&& ct.symbol@ == sstr(fs, p + 2)
        &&& ct.sec_type@ == sstr(fs, p + 3)
        &&& ct.last_trade_date_or_contract_month@ == sstr(fs, p + 4)
        &&& ct.strike@ == sf64(fs, p + 5)
        &&& ct.right@ == sstr(fs, p + 6)
        &&& ct.exchange@ == sstr(fs, p + 7)
        &&& ct.currency@ == sstr(fs, p + 8)
        &&& ct.local_symbol@ == sstr(fs, p + 9)
        &&& cd.market_name@ == sstr(fs, p + 10)
        &&& ct.trading_class@ == sstr(fs, p + 11)
        &&& ct.multiplier@ == Seq::<char>::empty()
        &&& ct.primary_exchange@ == Seq::<char>::empty()
        &&& blank_details_rest(cd)
    }) && distance@ == sstr(fs, p + 12) && benchmark@ == sstr(fs, p + 13) && projection@ == sstr(
        fs,
        p + 14,
    ) && legs_str@ == sstr(fs, p + 15)
}

/// The detail fields a scanner row never carries stay at their defaults.
pub open spec fn blank_details_rest(cd: ContractDetails) -> bool {
    &&& cd.min_tick@ == seq!['0']
    &&& cd.order_types@ == Seq::<char>::empty()
    &&& cd.valid_exchanges@ == Seq::<char>::empty()
    &&& cd.price_magnifier == 0
    &&& cd.under_con_id == 0
    &&& cd.long_name@ == Seq::<char>::empty()
    &&& cd.contract_month@ == Seq::<char>::empty()
    &&& cd.industry@ == Seq::<char>::empty()
    &&& cd.category@ == Seq::<char>::empty()
    &&& cd.subcategory@ == Seq::<char>::empty()
    &&& cd.time_zone_id@ == Seq::<char>::empty()
    &&& cd.trading_hours@ == Seq::<char>::empty()
    &&& cd.liquid_hours@ == Seq::<char>::empty()
    &&& cd.ev_rule@ == Seq::<char>::empty()
    &&& cd.ev_multiplier@ == seq!['0']
    &&& cd.md_size_multiplier == 0
    &&& cd.agg_group == 0
    &&& cd.under_symbol@ == Seq::<char>::empty()
    &&& cd.under_sec_type@ == Seq::<char>::empty()
    &&& cd.market_rule_ids@ == Seq::<char>::empty()
    &&& cd.real_expiration_date@ == Seq::<char>::empty()
    &&& cd.sec_id_list@.len() == 0
    &&& cd.last_trade_time@ == Seq::<char>::empty()
    &&& blank_bond_fields(cd)
}

pub open spec fn blank_bond_fields(cd: ContractDetails) -> bool {
    &&& cd.cusip@ == Seq::<char>::empty()
    &&& cd.ratings@ == Seq::<char>::empty()
    &&& cd.desc_append@ == Seq::<char>::empty()
    &&& cd.bond_type@ == Seq::<char>::empty()
    &&& cd.coupon_type@ == Seq::<char>::empty()
    &&& !cd.callable
    &&& !cd.putable
    &&& cd.coupon@ == seq!['0']
    &&& !cd.convertible
    &&& cd.maturity@ == Seq::<char>::empty()
    &&& cd.issue_date@ == Seq::<char>::empty()
    &&& cd.next_option_date@ == Seq::<char>::empty()
    &&& cd.next_option_type@ == Seq::<char>::empty()
    &&& !cd.next_option_partial
    &&& cd.notes@ == Seq::<char>::empty()
}

/// One message per scanner row, then exactly one end marker.
pub open spec fn scanner_data_post(fs: Seq<Seq<char>>, out: Seq<ServerRspMsg>) -> bool {
    let req_id = si32(fs, 2);
    let cnt = nneg(si32(fs, 3));
    &&& out.len() == cnt + 1
    &&& (forall|i: int| 0 <= i < cnt ==> scanner_item_at(fs, req_id, 4 + 16 * i, #[trigger] out[i]))
    &&& (out[cnt] matches ServerRspMsg::ScannerDataEnd { req_id: r } && r == req_id)
}

pub open spec fn sym_item_at(fs: Seq<Seq<char>>, p: int, cd: ContractDescription) -> bool {
    let dc = nneg(si32(fs, p + 5));
    &&& cd.contract.con_id == si32(fs, p)
    &&& cd.contract.symbol@ == sstr(fs, p + 1)
    &&& cd.contract.sec_type@ == sstr(fs, p + 2)
    &&& cd.contract.primary_exchange@ == sstr(fs, p + 3)
    &&& cd.contract.currency@ == sstr(fs, p + 4)
    &&& cd.contract.last_trade_date_or_contract_month@ == Seq::<char>::empty()
    &&& cd.contract.strike@ == Seq::<char>::empty()
    &&& cd.contract.right@ == Seq::<char>::empty()
    &&& cd.contract.multiplier@ == Seq::<char>::empty()
    &&& cd.contract.exchange@ == Seq::<char>::empty()
    &&& cd.contract.local_symbol@ == Seq::<char>::empty()
    &&& cd.contract.trading_class@ == Seq::<char>::empty()
    &&& cd.derivative_sec_types@.len() == dc
    &&& (forall|j: int|
        0 <= j < dc ==> (#[trigger] cd.derivative_sec_types@[j])@ == sstr(fs, p + 6 + j))
}

/// The samples in order; each block is 6 fields plus its own list of
/// derivative security types.
pub open spec fn sym_items_at(
    fs: Seq<Seq<char>>,
    p: int,
    n: int,
    items: Seq<ContractDescription>,
) -> bool
    decreases n,
{
    if n <= 0 {
        items.len() == 0
    } else {
        let dc = nneg(si32(fs, p + 5));
        &&& items.len() == n
        &&& sym_item_at(fs, p, items[0])
        &&& sym_items_at(fs, p + 6 + dc, n - 1, items.skip(1))
    }
}

pub open spec fn symbol_samples_post(fs: Seq<Seq<char>>, out: Seq<ServerRspMsg>) -> bool {
    let cnt = nneg(si32(fs, 2));
    &&& out.len() == 1
    &&& (out[0] matches ServerRspMsg::SymbolSamples { req_id, contract_descriptions } && req_id
        == si32(fs, 1) && sym_items_at(fs, 3, cnt, contract_descriptions@))
}

/// Contract details holding only a contract header and a market name;
/// every other detail stays at its default.
fn blank_details(contract: Contract, market_name: String) -> (cd: ContractDetails)
    ensures
        cd.contract == contract,
        cd.market_name == market_name,
        blank_details_rest(cd),
{
    ContractDetails {
        contract,
        market_name,
        min_tick: zero_string(),
        order_types: String::new(),
        valid_exchanges: String::new(),
        price_magnifier: 0,
        under_con_id: 0,
        long_name: String::new(),
        contract_month: String::new(),
        industry: String::new(),
        category: String::new(),
        subcategory: String::new(),
        time_zone_id: String::new(),
        trading_hours: String::new(),
        liquid_hours: String::new(),
        ev_rule: String::new(),
        ev_multiplier: zero_string(),
        md_size_multiplier: 0,
        agg_group: 0,
        under_symbol: String::new(),
        under_sec_type: String::new(),
        market_rule_ids: String::new(),
        real_expiration_date: String::new(),
        sec_id_list: Vec::new(),
        last_trade_time: String::new(),
        cusip: String::new(),
        ratings: String::new(),
        desc_append: String::new(),
        bond_type: String::new(),
        coupon_type: String::new(),
        callable: false,
        putable: false,
        coupon: zero_string(),
        convertible: false,
        maturity: String::new(),
        issue_date: String::new(),
        next_option_date: String::new(),
        next_option_type: String::new(),
        next_option_partial: false,
        notes: String::new(),
    }
}

fn read_sym_items(fields: &[String], p: u64, n: u64) -> (items: Vec<ContractDescription>)
    requires
        p + n * 0x8000_0007 <= 0xFFFF_FFFF_FFFF_FFFF,
        n <= 0x7FFF_FFFF,
    ensures
        sym_items_at(fields_view(fields@), p as int, n as int, items@),
    decreases n,
{
    if n == 0 {
        Vec::new()
    } else {
        let dc = nneg_exec(i32_at(fields, p + 5));
        let contract = Contract {
            con_id: i32_at(fields, p),
            symbol: str_at(fields, p + 1),
            sec_type: str_at(fields, p + 2),
            primary_exchange: str_at(fields, p + 3),
            currency: str_at(fields, p + 4),
            last_trade_date_or_contract_month: String::new(),
            strike: String::new(),
            right: String::new(),
            multiplier: String::new(),
            exchange: String::new(),
            local_symbol: String::new(),
            trading_class: String::new(),
        };
        let mut derivative_sec_types: Vec<String> = Vec::new();
        let mut j: u64 = 0;
        while j < dc
            invariant
                j <= dc,
                dc <= 0x7FFF_FFFF,
                p <= 0xFFFF_FFFF_FFFF_FFFF - 0x8000_0007,
                derivative_sec_types@.len() == j,
                forall|i: int|
                    0 <= i < j ==> (#[trigger] derivative_sec_types@[i])@ == sstr(
                        fields_view(fields@),
                        p + 6 + i,
                    ),
            decreases dc - j,
        {
            derivative_sec_types.push(str_at(fields, p + 6 + j));
            j = j + 1;
        }
        let item = ContractDescription { contract, derivative_sec_types };
        let mut rest = read_sym_items(fields, p + 6 + dc, n - 1);
        let ghost rest0 = rest@;
        let mut items: Vec<ContractDescription> = Vec::new();
        items.push(item);
        items.append(&mut rest);
        proof {
            assert(items@[0] == item);
            assert(items@.skip(1) =~~= rest0);
        }
        items
    }
}

impl Decoder {
    fn process_order_status(&self, fields: &[String]) -> (out: Vec<ServerRspMsg>)
        ensures
            order_status_post(fields_view(fields@), self.server_version, out@),
    {
        let b: u64 = if self.server_version < MIN_SERVER_VER_MARKET_CAP_PRICE {
            2
        } else {
            1
        };
        let order_id = i32_at(fields, b);
        let status = str_at(fields, b + 1);
        let filled = quant_at(fields, self.server_version, b + 2);
        let remaining = quant_at(fields, self.server_version, b + 3);
        let avg_fill_price = f64_at(fields, b + 4);
        let perm_id = i32_at(fields, b + 5);
        let parent_id = i32_at(fields, b + 6);
        let last_fill_price = f64_at(fields, b + 7);
        let client_id = i32_at(fields, b + 8);
        let why_held = str_at(fields, b + 9);
        let mkt_cap_price = if self.server_version >= MIN_SERVER_VER_MARKET_CAP_PRICE {
            f64_at(fields, b + 10)
        } else {
            zero_string()
        };
        let mut out: Vec<ServerRspMsg> = Vec::new();
        out.push(
            ServerRspMsg::OrderStatus {
                order_id,
                status,
                filled,
                remaining,
                avg_fill_price,
                perm_id,
                parent_id,
                last_fill_price,
                client_id,
                why_held,
                mkt_cap_price,
            },
        );
        out
    }

    fn process_pnl(&self, fields: &[String]) -> (out: Vec<ServerRspMsg>)
        ensures
            pnl_post(fields_view(fields@), self.server_version, out@),
    {
        let req_id = i32_at(fields, 1);
        let daily_pnl = f64_at(fields, 2);
        let g1: u64 = if self.server_version >= MIN_SERVER_VER_UNREALIZED_PNL {
            1
        } else {
            0
        };
        let unrealized_pnl = if self.server_version >= MIN_SERVER_VER_UNREALIZED_PNL {
            f64_at(fields, 3)
        } else {
            zero_string()
        };
        let realized_pnl = if self.server_version >= MIN_SERVER_VER_REALIZED_PNL {
            f64_at(fields, 3 + g1)
        } else {
            zero_string()
        };
        let mut out: Vec<ServerRspMsg> = Vec::new();
        out.push(ServerRspMsg::Pnl { req_id, daily_pnl, unrealized_pnl, realized_pnl });
        out
    }

    fn process_pnl_single(&self, fields: &[String]) -> (out: Vec<ServerRspMsg>)
        ensures
            pnl_single_post(fields_view(fields@), self.server_version, out@),
    {
        let req_id = i32_at(fields, 1);
        let pos = i32_at(fields, 2);
        let daily_pnl = f64_at(fields, 3);
        let g1: u64 = if self.server_version >= MIN_SERVER_VER_UNREALIZED_PNL {
            1
        } else {
            0
        };
        let g2: u64 = if self.server_version >= MIN_SERVER_VER_REALIZED_PNL {
            1
        } else {
            0
        };
        let unrealized_pnl = if self.server_version >= MIN_SERVER_VER_UNREALIZED_PNL {
            f64_at(fields, 4)
        } else {
            zero_string()
        };
        let realized_pnl = if self.server_version >= MIN_SERVER_VER_REALIZED_PNL {
            f64_at(fields, 4 + g1)
        } else {
            zero_string()
        };
        let value = f64_at(fields, 4 + g1 + g2);
        let mut out: Vec<ServerRspMsg> = Vec::new();
        out.push(
            ServerRspMsg::PnlSingle { req_id, pos, daily_pnl, unrealized_pnl, realized_pnl, value },
        );
        out
    }

    fn process_receive_fa(&self, fields: &[String]) -> (out: Vec<ServerRspMsg>)
        ensures
            receive_fa_post(fields_view(fields@), out@),
    {
        let fa_data = i32_at(fields, 2);
        let cxml = str_at(fields, 3);
        let mut out: Vec<ServerRspMsg> = Vec::new();
        out.push(ServerRspMsg::ReceiveFa { fa_data, cxml });
        out
    }

    fn process_commission_report(&self, fields: &[String]) -> (out: Vec<ServerRspMsg>)
        ensures
            commission_report_post(fields_view(fields@), out@),
    {
        let commission_report = CommissionReport {
            exec_id: str_at(fields, 2),
            commission: f64_at(fields, 3),
            currency: str_at(fields, 4),
            realized_pnl: f64_at(fields, 5),
            yield_: f64_at(fields, 6),
            yield_redemption_date: str_at(fields, 7),
        };
        let mut out: Vec<ServerRspMsg> = Vec::new();
        out.push(ServerRspMsg::CommissionReport { commission_report });
        out
    }

    fn process_delta_neutral_validation(&self, fields: &[String]) -> (out: Vec<ServerRspMsg>)
        ensures
            delta_neutral_validation_post(fields_view(fields@), out@),
    {
        let req_id = i32_at(fields, 2);
        let delta_neutral_contract = DeltaNeutralContract {
            con_id: i32_at(fields, 3),
            delta: f64_at(fields, 4),
            price: f64_at(fields, 5),
        };
        let mut out: Vec<ServerRspMsg> = Vec::new();
        out.push(ServerRspMsg::DeltaNeutralValidation { req_id, delta_neutral_contract });
        out
    }

    fn process_real_time_bars(&self, fields: &[String]) -> (out: Vec<ServerRspMsg>)
        ensures
            real_time_bars_post(fields_view(fields@), out@),
    {
        let req_id = i32_at(fields, 2);
        let bar = RealTimeBar {
            date_time: str_at(fields, 3),
            open: f64_at(fields, 4),
            high: f64_at(fields, 5),
            low: f64_at(fields, 6),
            close: f64_at(fields, 7),
            volume: i64_at(fields, 8),
            wap: f64_at(fields, 9),
            count: i32_at(fields, 10),
        };
        let mut out: Vec<ServerRspMsg> = Vec::new();
        out.push(ServerRspMsg::RealTimeBars { req_id, bar });
        out
    }

    fn process_historical_data_update(&self, fields: &[String]) -> (out: Vec<ServerRspMsg>)
        ensures
            historical_data_update_post(fields_view(fields@), out@),
    {
        let req_id = i32_at(fields, 1);
        let bar = BarData {
            bar_count: i32_at(fields, 2),
            date: str_at(fields, 3),
            open: f64_at(fields, 4),
            close: f64_at(fields, 5),
            high: f64_at(fields, 6),
            low: f64_at(fields, 7),
            average: f64_at(fields, 8),
            volume: i64_at(fields, 9),
        };
        let mut out: Vec<ServerRspMsg> = Vec::new();
        out.push(ServerRspMsg::HistoricalDataUpdate { req_id, bar });
        out
    }

    fn process_historical_news(&self, fields: &[String]) -> (out: Vec<ServerRspMsg>)
        ensures
            historical_news_post(fields_view(fields@), out@),
    {
        let req_id = i32_at(fields, 1);
        let time = str_at(fields, 2);
        let provider_code = str_at(fields, 3);
        let article_id = str_at(fields, 4);
        let headline = str_at(fields, 5);
        let mut out: Vec<ServerRspMsg> = Vec::new();
        out.push(
            ServerRspMsg::HistoricalNews { req_id, time, provider_code, article_id, headline },
        );
        out
    }

    fn process_historical_news_end(&self, fields: &[String]) -> (out: Vec<ServerRspMsg>)
        ensures
            historical_news_end_post(fields_view(fields@), out@),
    {
        let req_id = i32_at(fields, 1);
        let has_more = bool_at(fields, 2);
        let mut out: Vec<ServerRspMsg> = Vec::new();
        out.push(ServerRspMsg::HistoricalNewsEnd { req_id, has_more });
        out
    }

    fn process_tick_by_tick(&self, fields: &[String]) -> (out: Vec<ServerRspMsg>)
        ensures
            tick_by_tick_post(fields_view(fields@), out@),
    {
        let req_id = i32_at(fields, 1);
        let tick_type = i32_at(fields, 2);
        let time = i64_at(fields, 3);
        let mut out: Vec<ServerRspMsg> = Vec::new();
        if tick_type == 1 || tick_type == 2 {
            let price = f64_at(fields, 4);
            let size = i32_at(fields, 5);
            let mask = i32_at(fields, 6);
            let tick_attrib_last = TickAttribLast {
                past_limit: mask & 1 != 0,
                unreported: mask & 2 != 0,
            };
            let exchange = str_at(fields, 7);
            let special_conditions = str_at(fields, 8);
            let tick_msg = TickMsgType::AllLast {
                price,
                size,
                tick_attrib_last,
                exchange,
                special_conditions,
            };
            out.push(ServerRspMsg::TickByTick { req_id, tick_type, time, tick_msg });
        } else if tick_type == 3 {
            let bid_price = f64_at(fields, 4);
            let ask_price = f64_at(fields, 5);
            let bid_size = i32_at(fields, 6);
            let ask_size = i32_at(fields, 7);
            let mask = i32_at(fields, 8);
            let tick_attrib_bid_ask = TickAttribBidAsk {
                bid_past_low: mask & 1 != 0,
                ask_past_high: mask & 2 != 0,
            };
            let tick_msg = TickMsgType::BidAsk {
                bid_price,
                ask_price,
                bid_size,
                ask_size,
                tick_attrib_bid_ask,
            };
            out.push(ServerRspMsg::TickByTick { req_id, tick_type, time, tick_msg });
        } else if tick_type == 4 {
            let mid_point = f64_at(fields, 4);
            let tick_msg = TickMsgType::MidPoint { mid_point };
            out.push(ServerRspMsg::TickByTick { req_id, tick_type, time, tick_msg });
        }
        out
    }

    fn process_tick_option_computation(&self, fields: &[String]) -> (out: Vec<ServerRspMsg>)
        ensures
            tick_option_computation_post(fields_view(fields@), out@),
    {
        let version = i32_at(fields, 1);
        let ticker_id = i32_at(fields, 2);
        let tick_type = i32_at(fields, 3);
        let model = tick_type == 13 || tick_type == 83;
        let implied_vol = f64_remap_at(fields, 4, '1');
        let delta = f64_remap_at(fields, 5, '2');
        let (opt_price, pv_dividend) = if version >= 6 || model {
            (f64_remap_at(fields, 6, '1'), f64_remap_at(fields, 7, '1'))
        } else {
            (DoubleValue::Unset, DoubleValue::Unset)
        };
        let (gamma, vega, theta, und_price) = if version >= 6 {
            (
                f64_remap_at(fields, 8, '2'),
                f64_remap_at(fields, 9, '2'),
                f64_remap_at(fields, 10, '2'),
                f64_remap_at(fields, 11, '1'),
            )
        } else {
            (DoubleValue::Unset, DoubleValue::Unset, DoubleValue::Unset, DoubleValue::Unset)
        };
        let mut out: Vec<ServerRspMsg> = Vec::new();
        out.push(
            ServerRspMsg::TickOptionComputation {
                ticker_id,
                tick_type,
                implied_vol,
                delta,
                opt_price,
                pv_dividend,
                gamma,
                vega,
                theta,
                und_price,
            },
        );
        out
    }

    fn process_open_order(&self, fields: &[String]) -> (out: Vec<ServerRspMsg>)
        ensures
            open_order_post(fields_view(fields@), self.server_version, out@),
    {
        let has_version = self.server_version < MIN_SERVER_VER_ORDER_CONTAINER;
        let version = if has_version {
            i32_at(fields, 1)
        } else {
            self.server_version
        };
        let start: u64 = if has_version {
            2
        } else {
            1
        };
        let raw = tail_fields(fields, start);
        let mut out: Vec<ServerRspMsg> = Vec::new();
        out.push(ServerRspMsg::OpenOrder { version, fields: raw });
        out
    }

    fn process_completed_order(&self, fields: &[String]) -> (out: Vec<ServerRspMsg>)
        ensures
            completed_order_post(fields_view(fields@), out@),
    {
        let raw = tail_fields(fields, 1);
        let mut out: Vec<ServerRspMsg> = Vec::new();
        out.push(ServerRspMsg::CompletedOrder { fields: raw });
        out
    }

    fn process_portfolio_value(&self, fields: &[String]) -> (out: Vec<ServerRspMsg>)
        ensures
            portfolio_value_post(fields_view(fields@), self.server_version, out@),
    {
        let version = i32_at(fields, 1);
        let b: u64 = if version >= 7 {
            10
        } else {
            8
        };
        let c: u64 = b + 2 + (if version >= 8 {
            1
        } else {
            0
        });
        let contract = Contract {
            con_id: i32_at(fields, 2),
            symbol: str_at(fields, 3),
            sec_type: str_at(fields, 4),
            last_trade_date_or_contract_month: str_at(fields, 5),
            strike: f64_at(fields, 6),
            right: str_at(fields, 7),
            multiplier: if version >= 7 {
                str_at(fields, 8)
            } else {
                String::new()
            },
            exchange: String::new(),
            primary_exchange: if version == 6 && self.server_version == 39 {
                str_at(fields, c + 7)
            } else if version >= 7 {
                str_at(fields, 9)
            } else {
                String::new()
            },
            currency: str_at(fields, b),
            local_symbol: str_at(fields, b + 1),
            trading_class: if version >= 8 {
                str_at(fields, b + 2)
            } else {
                String::new()
            },
        };
        let position = quant_at(fields, self.server_version, c);
        let market_price = f64_at(fields, c + 1);
        let market_value = f64_at(fields, c + 2);
        let average_cost = f64_at(fields, c + 3);
        let unrealized_pnl = f64_at(fields, c + 4);
        let realized_pnl = f64_at(fields, c + 5);
        let account_name = str_at(fields, c + 6);
        let mut out: Vec<ServerRspMsg> = Vec::new();
        out.push(
            ServerRspMsg::PortfolioValue {
                contract,
                position,
                market_price,
                market_value,
                average_cost,
                unrealized_pnl,
                realized_pnl,
                account_name,
            },
        );
        out
    }

    fn process_position_data(&self, fields: &[String]) -> (out: Vec<ServerRspMsg>)
        ensures
            position_data_post(fields_view(fields@), self.server_version, out@),
    {
        let version = i32_at(fields, 1);
        let account = str_at(fields, 2);
        let b: u64 = 13 + (if version >= 2 {
            1
        } else {
            0
        });
        let contract = Contract {
            con_id: i32_at(fields, 3),
            symbol: str_at(fields, 4),
            sec_type: str_at(fields, 5),
            last_trade_date_or_contract_month: str_at(fields, 6),
            strike: f64_at(fields, 7),
            right: str_at(fields, 8),
            multiplier: str_at(fields, 9),
            exchange: str_at(fields, 10),
            primary_exchange: String::new(),
            currency: str_at(fields, 11),
            local_symbol: str_at(fields, 12),
            trading_class: if version >= 2 {
                str_at(fields, 13)
            } else {
                String::new()
            },
        };
        let position = quant_at(fields, self.server_version, b);
        let avg_cost = if version >= 3 {
            f64_at(fields, b + 1)
        } else {
            zero_string()
        };
        let mut out: Vec<ServerRspMsg> = Vec::new();
        out.push(ServerRspMsg::PositionData { account, contract, position, avg_cost });
        out
    }

    fn process_family_codes(&self, fields: &[String]) -> (out: Vec<ServerRspMsg>)
        ensures
            family_codes_post(fields_view(fields@), out@),
    {
        let cnt = nneg_exec(i32_at(fields, 1));
        let mut family_codes: Vec<FamilyCode> = Vec::new();
        let mut k: u64 = 0;
        while k < cnt
            invariant
                k <= cnt,
                cnt <= 0x7FFF_FFFF,
                family_codes@.len() == k,
                forall|i: int|
                    0 <= i < k ==> family_code_at(
                        fields_view(fields@),
                        2 + 2 * i,
                        #[trigger] family_codes@[i],
                    ),
            decreases cnt - k,
        {
            let base = 2 + 2 * k;
            family_codes.push(
                FamilyCode {
                    account_id: str_at(fields, base),
                    family_code_str: str_at(fields, base + 1),
                },
            );
            k = k + 1;
        }
        let mut out: Vec<ServerRspMsg> = Vec::new();
        out.push(ServerRspMsg::FamilyCodes { family_codes });
        out
    }

    fn process_news_providers(&self, fields: &[String]) -> (out: Vec<ServerRspMsg>)
        ensures
            news_providers_post(fields_view(fields@), out@),
    {
        let cnt = nneg_exec(i32_at(fields, 1));
        let mut news_providers: Vec<NewsProvider> = Vec::new();
        let mut k: u64 = 0;
        while k < cnt
            invariant
                k <= cnt,
                cnt <= 0x7FFF_FFFF,
                news_providers@.len() == k,
                forall|i: int|
                    0 <= i < k ==> news_provider_at(
                        fields_view(fields@),
                        2 + 2 * i,
                        #[trigger] news_providers@[i],
                    ),
            decreases cnt - k,
        {
            let base = 2 + 2 * k;
            news_providers.push(
                NewsProvider { code: str_at(fields, base), name: str_at(fields, base + 1) },
            );
            k = k + 1;
        }
        let mut out: Vec<ServerRspMsg> = Vec::new();
        out.push(ServerRspMsg::NewsProviders { news_providers });
        out
    }

    fn process_smart_components(&self, fields: &[String]) -> (out: Vec<ServerRspMsg>)
        ensures
            smart_components_post(fields_view(fields@), out@),
    {
        let req_id = i32_at(fields, 1);
        let cnt = nneg_exec(i32_at(fields, 2));
        let mut smart_components: Vec<SmartComponent> = Vec::new();
        let mut k: u64 = 0;
        while k < cnt
            invariant
                k <= cnt,
                cnt <= 0x7FFF_FFFF,
                smart_components@.len() == k,
                forall|i: int|
                    0 <= i < k ==> smart_component_at(
                        fields_view(fields@),
                        3 + 3 * i,
                        #[trigger] smart_components@[i],
                    ),
            decreases cnt - k,
        {
            let base = 3 + 3 * k;
            smart_components.push(
                SmartComponent {
                    bit_number: i32_at(fields, base),
                    exchange: str_at(fields, base + 1),
                    exchange_letter: str_at(fields, base + 2),
                },
            );
            k = k + 1;
        }
        let mut out: Vec<ServerRspMsg> = Vec::new();
        out.push(ServerRspMsg::SmartComponents { req_id, smart_components });
        out
    }

    fn process_soft_dollar_tiers(&self, fields: &[String]) -> (out: Vec<ServerRspMsg>)
        ensures
            soft_dollar_tiers_post(fields_view(fields@), out@),
    {
        let req_id = i32_at(fields, 1);
        let cnt = nneg_exec(i32_at(fields, 2));
        let mut tiers: Vec<SoftDollarTier> = Vec::new();
        let mut k: u64 = 0;
        while k < cnt
            invariant
                k <= cnt,
                cnt <= 0x7FFF_FFFF,
                tiers@.len() == k,
                forall|i: int|
                    0 <= i < k ==> soft_dollar_tier_at(
                        fields_view(fields@),
                        3 + 3 * i,
                        #[trigger] tiers@[i],
                    ),
            decreases cnt - k,
        {
            let base = 3 + 3 * k;
            tiers.push(
                SoftDollarTier {
                    name: str_at(fields, base),
                    val: str_at(fields, base + 1),
                    display_name: str_at(fields, base + 2),
                },
            );
            k = k + 1;
        }
        let mut out: Vec<ServerRspMsg> = Vec::new();
        out.push(ServerRspMsg::SoftDollarTiers { req_id, tiers });
        out
    }

    fn process_histogram_data(&self, fields: &[String]) -> (out: Vec<ServerRspMsg>)
        ensures
            histogram_data_post(fields_view(fields@), out@),
    {
        let req_id = i32_at(fields, 1);
        let cnt = nneg_exec(i32_at(fields, 2));
        let mut items: Vec<HistogramData> = Vec::new();
        let mut k: u64 = 0;
        while k < cnt
            invariant
                k <= cnt,
                cnt <= 0x7FFF_FFFF,
                items@.len() == k,
                forall|i: int|
                    0 <= i < k ==> histogram_entry_at(
                        fields_view(fields@),
                        3 + 2 * i,
                        #[trigger] items@[i],
                    ),
            decreases cnt - k,
        {
            let base = 3 + 2 * k;
            items.push(
                HistogramData { price: f64_at(fields, base), count: i32_at(fields, base + 1) },
            );
            k = k + 1;
        }
        let mut out: Vec<ServerRspMsg> = Vec::new();
        out.push(ServerRspMsg::HistogramData { req_id, items });
        out
    }

    fn process_market_rule(&self, fields: &[String]) -> (out: Vec<ServerRspMsg>)
        ensures
            market_rule_post(fields_view(fields@), out@),
    {
        let market_rule_id = i32_at(fields, 1);
        let cnt = nneg_exec(i32_at(fields, 2));
        let mut price_increments: Vec<PriceIncrement> = Vec::new();
        let mut k: u64 = 0;
        while k < cnt
            invariant
                k <= cnt,
                cnt <= 0x7FFF_FFFF,
                price_increments@.len() == k,
                forall|i: int|
                    0 <= i < k ==> price_increment_at(
                        fields_view(fields@),
                        3 + 2 * i,
                        #[trigger] price_increments@[i],
                    ),
            decreases cnt - k,
        {
            let base = 3 + 2 * k;
            price_increments.push(
                PriceIncrement { low_edge: f64_at(fields, base), increment: f64_at(fields, base + 1) },
            );
            k = k + 1;
        }
        let mut out: Vec<ServerRspMsg> = Vec::new();
        out.push(ServerRspMsg::MarketRule { market_rule_id, price_increments });
        out
    }

    fn process_historical_ticks(&self, fields: &[String]) -> (out: Vec<ServerRspMsg>)
        ensures
            historical_ticks_post(fields_view(fields@), out@),
    {
        let req_id = i32_at(fields, 1);
        let cnt = nneg_exec(i32_at(fields, 2));
        let mut ticks: Vec<HistoricalTick> = Vec::new();
        let mut k: u64 = 0;
        while k < cnt
            invariant
                k <= cnt,
                cnt <= 0x7FFF_FFFF,
                ticks@.len() == k,
                forall|i: int|
                    0 <= i < k ==> historical_tick_at(
                        fields_view(fields@),
                        3 + 4 * i,
                        #[trigger] ticks@[i],
                    ),
            decreases cnt - k,
        {
            let base = 3 + 4 * k;
            ticks.push(
                HistoricalTick {
                    time: i32_at(fields, base),
                    price: f64_at(fields, base + 2),
                    size: i32_at(fields, base + 3),
                },
            );
            k = k + 1;
        }
        let done = bool_at(fields, 3 + 4 * cnt);
        let mut out: Vec<ServerRspMsg> = Vec::new();
        out.push(ServerRspMsg::HistoricalTicks { req_id, ticks, done });
        out
    }

    fn process_historical_ticks_bid_ask(&self, fields: &[String]) -> (out: Vec<ServerRspMsg>)
        ensures
            historical_ticks_bid_ask_post(fields_view(fields@), out@),
    {
        let req_id = i32_at(fields, 1);
        let cnt = nneg_exec(i32_at(fields, 2));
        let mut ticks: Vec<HistoricalTickBidAsk> = Vec::new();
        let mut k: u64 = 0;
        while k < cnt
            invariant
                k <= cnt,
                cnt <= 0x7FFF_FFFF,
                ticks@.len() == k,
                forall|i: int|
                    0 <= i < k ==> historical_tick_bid_ask_at(
                        fields_view(fields@),
                        3 + 6 * i,
                        #[trigger] ticks@[i],
                    ),
            decreases cnt - k,
        {
            let base = 3 + 6 * k;
            let mask = i32_at(fields, base + 1);
            ticks.push(
                HistoricalTickBidAsk {
                    time: i32_at(fields, base),
                    tick_attrib_bid_ask: TickAttribBidAsk {
                        ask_past_high: mask & 1 != 0,
                        bid_past_low: mask & 2 != 0,
                    },
                    price_bid: f64_at(fields, base + 2),
                    price_ask: f64_at(fields, base + 3),
                    size_bid: i32_at(fields, base + 4),
                    size_ask: i32_at(fields, base + 5),
                },
            );
            k = k + 1;
        }
        let done = bool_at(fields, 3 + 6 * cnt);
        let mut out: Vec<ServerRspMsg> = Vec::new();
        out.push(ServerRspMsg::HistoricalTicksBidAsk { req_id, ticks, done });
        out
    }

    fn process_historical_ticks_last(&self, fields: &[String]) -> (out: Vec<ServerRspMsg>)
        ensures
            historical_ticks_last_post(fields_view(fields@), out@),
    {
        let req_id = i32_at(fields, 1);
        let cnt = nneg_exec(i32_at(fields, 2));
        let mut ticks: Vec<HistoricalTickLast> = Vec::new();
        let mut k: u64 = 0;
        while k < cnt
            invariant
                k <= cnt,
                cnt <= 0x7FFF_FFFF,
                ticks@.len() == k,
                forall|i: int|
                    0 <= i < k ==> historical_tick_last_at(
                        fields_view(fields@),
                        3 + 6 * i,
                        #[trigger] ticks@[i],
                    ),
            decreases cnt - k,
        {
            let base = 3 + 6 * k;
            let mask = i32_at(fields, base + 1);
            ticks.push(
                HistoricalTickLast {
                    time: i32_at(fields, base),
                    tick_attrib_last: TickAttribLast {
                        past_limit: mask & 1 != 0,
                        unreported: mask & 2 != 0,
                    },
                    price: f64_at(fields, base + 2),
                    size: i32_at(fields, base + 3),
                    exchange: str_at(fields, base + 4),
                    special_conditions: str_at(fields, base + 5),
                },
            );
            k = k + 1;
        }
        let done = bool_at(fields, 3 + 6 * cnt);
        let mut out: Vec<ServerRspMsg> = Vec::new();
        out.push(ServerRspMsg::HistoricalTicksLast { req_id, ticks, done });
        out
    }

    fn process_security_definition_option_parameter(&self, fields: &[String]) -> (out: Vec<
        ServerRspMsg,
    >)
        ensures
            sec_def_opt_param_post(fields_view(fields@), out@),
    {
        let req_id = i32_at(fields, 1);
        let exchange = str_at(fields, 2);
        let underlying_con_id = i32_at(fields, 3);
        let trading_class = str_at(fields, 4);
        let multiplier = str_at(fields, 5);
        let ec = nneg_exec(i32_at(fields, 6));
        let mut expirations: Vec<String> = Vec::new();
        let mut k: u64 = 0;
        while k < ec
            invariant
                k <= ec,
                ec <= 0x7FFF_FFFF,
                expirations@.len() == k,
                forall|i: int|
                    0 <= i < k ==> (#[trigger] expirations@[i])@ == sstr(
                        fields_view(fields@),
                        7 + i,
                    ),
            decreases ec - k,
        {
            expirations.push(str_at(fields, 7 + k));
            k = k + 1;
        }
        let sc = nneg_exec(i32_at(fields, 7 + ec));
        let mut strikes: Vec<String> = Vec::new();
        let mut j: u64 = 0;
        while j < sc
            invariant
                j <= sc,
                sc <= 0x7FFF_FFFF,
                ec <= 0x7FFF_FFFF,
                strikes@.len() == j,
                forall|i: int|
                    0 <= i < j ==> (#[trigger] strikes@[i])@ == sf64(
                        fields_view(fields@),
                        8 + ec + i,
                    ),
            decreases sc - j,
        {
            strikes.push(f64_at(fields, 8 + ec + j));
            j = j + 1;
        }
        let mut out: Vec<ServerRspMsg> = Vec::new();
        out.push(
            ServerRspMsg::SecurityDefinitionOptionParameter {
                req_id,
                exchange,
                underlying_con_id,
                trading_class,
                multiplier,
                expirations,
                strikes,
            },
        );
        out
    }

    fn process_security_definition_option_parameter_end(&self, fields: &[String]) -> (out: Vec<
        ServerRspMsg,
    >)
        ensures
            out@.len() == 1,
            out@[0] matches ServerRspMsg::SecurityDefinitionOptionParameterEnd { req_id } && req_id
                == si32(fields_view(fields@), 1),
    {
        let req_id = i32_at(fields, 1);
        let mut out: Vec<ServerRspMsg> = Vec::new();
        out.push(ServerRspMsg::SecurityDefinitionOptionParameterEnd { req_id });
        out
    }

    fn process_market_depth_exchanges(&self, fields: &[String]) -> (out: Vec<ServerRspMsg>)
        ensures
            market_depth_exchanges_post(fields_view(fields@), self.server_version, out@),
    {
        let cnt = nneg_exec(i32_at(fields, 1));
        let stride: u64 = if self.server_version >= MIN_SERVER_VER_SERVICE_DATA_TYPE {
            5
        } else {
            3
        };
        let mut depth_mkt_data_descriptions: Vec<DepthMktDataDescription> = Vec::new();
        let mut k: u64 = 0;
        while k < cnt
            invariant
                k <= cnt,
                cnt <= 0x7FFF_FFFF,
                stride == (if self.server_version >= MIN_SERVER_VER_SERVICE_DATA_TYPE {
                    5int
                } else {
                    3int
                }),
                depth_mkt_data_descriptions@.len() == k,
                forall|i: int|
                    0 <= i < k ==> depth_mkt_data_description_at(
                        fields_view(fields@),
                        self.server_version,
                        2 + stride * i,
                        #[trigger] depth_mkt_data_descriptions@[i],
                    ),
            decreases cnt - k,
        {
            let base = 2 + stride * k;
            let desc = if self.server_version >= MIN_SERVER_VER_SERVICE_DATA_TYPE {
                DepthMktDataDescription {
                    exchange: str_at(fields, base),
                    sec_type: str_at(fields, base + 1),
                    listing_exch: str_at(fields, base + 2),
                    service_data_type: str_at(fields, base + 3),
                    agg_group: i32_at(fields, base + 4),
                }
            } else {
                DepthMktDataDescription {
                    exchange: str_at(fields, base),
                    sec_type: str_at(fields, base + 1),
                    listing_exch: String::new(),
                    service_data_type: String::new(),
                    agg_group: 0,
                }
            };
            depth_mkt_data_descriptions.push(desc);
            k = k + 1;
        }
        let mut out: Vec<ServerRspMsg> = Vec::new();
        out.push(ServerRspMsg::MktDepthExchanges { depth_mkt_data_descriptions });
        out
    }

    fn process_historical_data(&self, fields: &[String]) -> (out: Vec<ServerRspMsg>)
        ensures
            historical_data_post(fields_view(fields@), self.server_version, out@),
    {
        let old_style = self.server_version < MIN_SERVER_VER_SYNT_REALTIME_BARS;
        let b: u64 = if old_style {
            2
        } else {
            1
        };
        let stride: u64 = if old_style {
            9
        } else {
            8
        };
        let req_id = i32_at(fields, b);
        let start = str_at(fields, b + 1);
        let end = str_at(fields, b + 2);
        let cnt = nneg_exec(i32_at(fields, b + 3));
        let mut out: Vec<ServerRspMsg> = Vec::new();
        let mut k: u64 = 0;
        while k < cnt
            invariant
                k <= cnt,
                cnt <= 0x7FFF_FFFF,
                b == (if self.server_version < MIN_SERVER_VER_SYNT_REALTIME_BARS {
                    2int
                } else {
                    1int
                }),
                stride == (if self.server_version < MIN_SERVER_VER_SYNT_REALTIME_BARS {
                    9int
                } else {
                    8int
                }),
                old_style == (self.server_version < MIN_SERVER_VER_SYNT_REALTIME_BARS),
                req_id == si32(fields_view(fields@), b as int),
                out@.len() == k,
                forall|i: int|
                    0 <= i < k ==> hist_bar_msg_at(
                        fields_view(fields@),
                        self.server_version,
                        si32(fields_view(fields@), b as int),
                        b + 4 + stride * i,
                        #[trigger] out@[i],
                    ),
            decreases cnt - k,
        {
            let base = b + 4 + stride * k;
            let volume: i64 = if old_style {
                i32_at(fields, base + 5) as i64
            } else {
                i64_at(fields, base + 5)
            };
            let bar = BarData {
                date: str_at(fields, base),
                open: f64_at(fields, base + 1),
                high: f64_at(fields, base + 2),
                low: f64_at(fields, base + 3),
                close: f64_at(fields, base + 4),
                volume,
                average: f64_at(fields, base + 6),
                bar_count: i32_at(fields, base + (if old_style { 8 } else { 7 })),
            };
            out.push(ServerRspMsg::HistoricalData { req_id, bar });
            k = k + 1;
        }
        out.push(ServerRspMsg::HistoricalDataEnd { req_id, start, end });
        out
    }

    fn process_scanner_data(&self, fields: &[String]) -> (out: Vec<ServerRspMsg>)
        ensures
            scanner_data_post(fields_view(fields@), out@),
    {
        let req_id = i32_at(fields, 2);
        let cnt = nneg_exec(i32_at(fields, 3));
        let mut out: Vec<ServerRspMsg> = Vec::new();
        let mut k: u64 = 0;
        while k < cnt
            invariant
                k <= cnt,
                cnt <= 0x7FFF_FFFF,
                req_id == si32(fields_view(fields@), 2),
                out@.len() == k,
                forall|i: int|
                    0 <= i < k ==> scanner_item_at(
                        fields_view(fields@),
                        si32(fields_view(fields@), 2),
                        4 + 16 * i,
                        #[trigger] out@[i],
                    ),
            decreases cnt - k,
        {
            let p = 4 + 16 * k;
            let contract = Contract {
                con_id: i32_at(fields, p + 1),
                symbol: str_at(fields, p + 2),
                sec_type: str_at(fields, p + 3),
                last_trade_date_or_contract_month: str_at(fields, p + 4),
                strike: f64_at(fields, p + 5),
                right: str_at(fields, p + 6),
                multiplier: String::new(),
                exchange: str_at(fields, p + 7),
                primary_exchange: String::new(),
                currency: str_at(fields, p + 8),
                local_symbol: str_at(fields, p + 9),
                trading_class: str_at(fields, p + 11),
            };
            let contract_details = blank_details(contract, str_at(fields, p + 10));
            out.push(
                ServerRspMsg::ScannerData {
                    req_id,
                    rank: i32_at(fields, p),
                    contract_details,
                    distance: str_at(fields, p + 12),
                    benchmark: str_at(fields, p + 13),
                    projection: str_at(fields, p + 14),
                    legs_str: str_at(fields, p + 15),
                },
            );
            k = k + 1;
        }
        out.push(ServerRspMsg::ScannerDataEnd { req_id });
        out
    }

    fn process_symbol_samples(&self, fields: &[String]) -> (out: Vec<ServerRspMsg>)
        ensures
            symbol_samples_post(fields_view(fields@), out@),
    {
        let req_id = i32_at(fields, 1);
        let cnt = nneg_exec(i32_at(fields, 2));
        let contract_descriptions = read_sym_items(fields, 3, cnt);
        let mut out: Vec<ServerRspMsg> = Vec::new();
        out.push(ServerRspMsg::SymbolSamples { req_id, contract_descriptions });
        out
    }

    fn process_position_multi(&self, fields: &[String]) -> (out: Vec<ServerRspMsg>)
        ensures
            position_multi_post(fields_view(fields@), out@),
    {
        let req_id = i32_at(fields, 2);
        let account = str_at(fields, 3);
        let contract = Contract {
            con_id: i32_at(fields, 4),
            symbol: str_at(fields, 5),
            sec_type: str_at(fields, 6),
            last_trade_date_or_contract_month: str_at(fields, 7),
            strike: f64_at(fields, 8),
            right: str_at(fields, 9),
            multiplier: str_at(fields, 10),
            exchange: str_at(fields, 11),
            primary_exchange: String::new(),
            currency: str_at(fields, 12),
            local_symbol: str_at(fields, 13),
            trading_class: str_at(fields, 14),
        };
        let position = f64_at(fields, 15);
        let avg_cost = f64_at(fields, 16);
        let model_code = str_at(fields, 17);
        let mut out: Vec<ServerRspMsg> = Vec::new();
        out.push(
            ServerRspMsg::PositionMulti {
                req_id,
                account,
                model_code,
                contract,
                position,
                avg_cost,
            },
        );
        out
    }

    /// Kinds whose frames carry no payload forward a fixed marker message.
    fn process_end_msg_noarg(&self, cmd: ServerRspMsg) -> (out: Vec<ServerRspMsg>)
        ensures
            out@.len() == 1,
            out@[0] == cmd,
    {
        let mut out: Vec<ServerRspMsg> = Vec::new();
        out.push(cmd);
        out
    }

    #[verifier::rlimit(80)]
    fn process_contract_details(&self, fields: &[String]) -> (out: Vec<ServerRspMsg>)
        ensures
            contract_details_post(fields_view(fields@), self.server_version, out@),
    {
        let sv = self.server_version;
        let version = i32_at(fields, 1);
        let req_id = if version >= 3 {
            i32_at(fields, 2)
        } else {
            -1
        };
        let b: u64 = if version >= 3 {
            3
        } else {
            2
        };
        let c: u64 = b + 12 + (if sv >= MIN_SERVER_VER_MD_SIZE_MULTIPLIER {
            1
        } else {
            0
        });
        let d: u64 = c + 4;
        let e: u64 = d + (if version >= 4 {
            1
        } else {
            0
        });
        let f: u64 = e + (if version >= 5 {
            2
        } else {
            0
        });
        let g: u64 = f + (if version >= 6 {
            7
        } else {
            0
        });
        let h: u64 = g + (if version >= 8 {
            2
        } else {
            0
        });
        let tagc = nneg_exec(i32_at(fields, h));
        let i_: u64 = h + (if version >= 7 {
            1 + 2 * tagc
        } else {
            0
        });
        let j: u64 = i_ + (if sv >= MIN_SERVER_VER_AGG_GROUP {
            1
        } else {
            0
        });
        let k: u64 = j + (if sv >= MIN_SERVER_VER_UNDERLYING_INFO {
            2
        } else {
            0
        });
        let l: u64 = k + (if sv >= MIN_SERVER_VER_MARKET_RULES {
            1
        } else {
            0
        });
        let date_field = str_at(fields, b + 2);
        let toks = crate::numtext::ws_tokens3(date_field.as_str());
        let contract = Contract {
            con_id: i32_at(fields, b + 10),
            symbol: str_at(fields, b),
            sec_type: str_at(fields, b + 1),
            last_trade_date_or_contract_month: toks.0,
            strike: f64_at(fields, b + 3),
            right: str_at(fields, b + 4),
            multiplier: str_at(fields, c),
            exchange: str_at(fields, b + 5),
            primary_exchange: if version >= 5 {
                str_at(fields, e + 1)
            } else {
                String::new()
            },
            currency: str_at(fields, b + 6),
            local_symbol: str_at(fields, b + 7),
            trading_class: str_at(fields, b + 9),
        };
        let mut cd = blank_details(contract, str_at(fields, b + 8));
        cd.last_trade_time = toks.1;
        cd.min_tick = f64_at(fields, b + 11);
        if sv >= MIN_SERVER_VER_MD_SIZE_MULTIPLIER {
            cd.md_size_multiplier = i32_at(fields, b + 12);
        }
        cd.order_types = str_at(fields, c + 1);
        cd.valid_exchanges = str_at(fields, c + 2);
        cd.price_magnifier = i32_at(fields, c + 3);
        if version >= 4 {
            cd.under_con_id = i32_at(fields, d);
        }
        if version >= 5 {
            cd.long_name = str_at(fields, e);
        }
        if version >= 6 {
            cd.contract_month = str_at(fields, f);
            cd.industry = str_at(fields, f + 1);
            cd.category = str_at(fields, f + 2);
            cd.subcategory = str_at(fields, f + 3);
            cd.time_zone_id = str_at(fields, f + 4);
            cd.trading_hours = str_at(fields, f + 5);
            cd.liquid_hours = str_at(fields, f + 6);
        }
        if version >= 8 {
            cd.ev_rule = str_at(fields, g);
            cd.ev_multiplier = f64_at(fields, g + 1);
        }
        if version >= 7 {
            cd.sec_id_list = read_tags(fields, h + 1, tagc);
        }
        if sv >= MIN_SERVER_VER_AGG_GROUP {
            cd.agg_group = i32_at(fields, i_);
        }
        if sv >= MIN_SERVER_VER_UNDERLYING_INFO {
            cd.under_symbol = str_at(fields, j);
            cd.under_sec_type = str_at(fields, j + 1);
        }
        if sv >= MIN_SERVER_VER_MARKET_RULES {
            cd.market_rule_ids = str_at(fields, k);
        }
        if sv >= MIN_SERVER_VER_REAL_EXPIRATION_DATE {
            cd.real_expiration_date = str_at(fields, l);
        }
        let mut out: Vec<ServerRspMsg> = Vec::new();
        out.push(ServerRspMsg::ContractData { req_id, contract_details: cd });
        out
    }

    #[verifier::rlimit(80)]
    fn process_bond_contract_data(&self, fields: &[String]) -> (out: Vec<ServerRspMsg>)
        ensures
            bond_contract_data_post(fields_view(fields@), self.server_version, out@),
    {
        let sv = self.server_version;
        let version = i32_at(fields, 1);
        let req_id = if version >= 3 {
            i32_at(fields, 2)
        } else {
            -1
        };
        let b: u64 = if version >= 3 {
            3
        } else {
            2
        };
        let c: u64 = b + 18 + (if sv >= MIN_SERVER_VER_MD_SIZE_MULTIPLIER {
            1
        } else {
            0
        });
        let d: u64 = c + 2 + (if version >= 2 {
            4
        } else {
            0
        });
        let e: u64 = d + (if version >= 4 {
            1
        } else {
            0
        });
        let f: u64 = e + (if version >= 6 {
            2
        } else {
            0
        });
        let tagc = nneg_exec(i32_at(fields, f));
        let g: u64 = f + (if version >= 5 {
            1 + 2 * tagc
        } else {
            0
        });
        let h: u64 = g + (if sv >= MIN_SERVER_VER_AGG_GROUP {
            1
        } else {
            0
        });
        let date_field = str_at(fields, b + 4);
        let toks = crate::numtext::ws_tokens3(date_field.as_str());
        let contract = Contract {
            con_id: i32_at(fields, b + 17),
            symbol: str_at(fields, b),
            sec_type: str_at(fields, b + 1),
            last_trade_date_or_contract_month: String::new(),
            strike: zero_string(),
            right: String::new(),
            multiplier: String::new(),
            exchange: str_at(fields, b + 13),
            primary_exchange: String::new(),
            currency: str_at(fields, b + 14),
            local_symbol: String::new(),
            trading_class: str_at(fields, b + 16),
        };
        let mut cd = blank_details(contract, str_at(fields, b + 15));
        cd.cusip = str_at(fields, b + 2);
        cd.coupon = f64_at(fields, b + 3);
        cd.maturity = toks.0;
        cd.last_trade_time = toks.1;
        cd.time_zone_id = toks.2;
        cd.issue_date = str_at(fields, b + 5);
        cd.ratings = str_at(fields, b + 6);
        cd.bond_type = str_at(fields, b + 7);
        cd.coupon_type = str_at(fields, b + 8);
        cd.convertible = bool_at(fields, b + 9);
        cd.callable = bool_at(fields, b + 10);
        cd.putable = bool_at(fields, b + 11);
        cd.desc_append = str_at(fields, b + 12);
        cd.min_tick = f64_at(fields, b + 18);
        if sv >= MIN_SERVER_VER_MD_SIZE_MULTIPLIER {
            cd.md_size_multiplier = i32_at(fields, b + 19);
        }
        cd.order_types = str_at(fields, c);
        cd.valid_exchanges = str_at(fields, c + 1);
        if version >= 2 {
            cd.next_option_date = str_at(fields, c + 2);
            cd.next_option_type = str_at(fields, c + 3);
            cd.next_option_partial = bool_at(fields, c + 4);
            cd.notes = str_at(fields, c + 5);
        }
        if version >= 4 {
            cd.long_name = str_at(fields, d);
        }
        if version >= 6 {
            cd.ev_rule = str_at(fields, e);
            cd.ev_multiplier = f64_at(fields, e + 1);
        }
        if version >= 5 {
            cd.sec_id_list = read_tags(fields, f + 1, tagc);
        }
        if sv >= MIN_SERVER_VER_AGG_GROUP {
            cd.agg_group = i32_at(fields, g);
        }
        if sv >= MIN_SERVER_VER_MARKET_RULES {
            cd.market_rule_ids = str_at(fields, h);
        }
        let mut out: Vec<ServerRspMsg> = Vec::new();
        out.push(ServerRspMsg::BondContractData { req_id, contract_details: cd });
        out
    }

    #[verifier::rlimit(80)]
    fn process_execution_data(&self, fields: &[String]) -> (out: Vec<ServerRspMsg>)
        ensures
            execution_data_post(fields_view(fields@), self.server_version, out@),
    {
        let sv = self.server_version;
        let has_v = sv < MIN_SERVER_VER_LAST_LIQUIDITY;
        let version: i32 = if has_v {
            i32_at(fields, 1)
        } else {
            sv
        };
        let p0: u64 = if has_v {
            2
        } else {
            1
        };
        let req_id = if version >= 7 {
            i32_at(fields, p0)
        } else {
            -1
        };
        let q: u64 = p0 + (if version >= 7 {
            1
        } else {
            0
        });
        let r_: u64 = q + 7 + (if version >= 9 {
            1
        } else {
            0
        });
        let s_: u64 = r_ + 3 + (if version >= 10 {
            1
        } else {
            0
        });
        let t_: u64 = s_ + 10 + (if version >= 6 {
            2
        } else {
            0
        });
        let u_: u64 = t_ + (if version >= 8 {
            1
        } else {
            0
        });
        let contract = Contract {
            con_id: i32_at(fields, q + 1),
            symbol: str_at(fields, q + 2),
            sec_type: str_at(fields, q + 3),
            last_trade_date_or_contract_month: str_at(fields, q + 4),
            strike: f64_at(fields, q + 5),
            right: str_at(fields, q + 6),
            multiplier: if version >= 9 {
                str_at(fields, q + 7)
            } else {
                String::new()
            },
            exchange: str_at(fields, r_),
            primary_exchange: String::new(),
            currency: str_at(fields, r_ + 1),
            local_symbol: str_at(fields, r_ + 2),
            trading_class: if version >= 10 {
                str_at(fields, r_ + 3)
            } else {
                String::new()
            },
        };
        let (ev_rule, ev_multiplier, w) = if version >= 9 {
            let rule = str_at(fields, u_);
            let lookahead = str_at(fields, u_ + 1);
            if !lookahead.as_str().is_empty() {
                (rule, f64_at(fields, u_ + 2), u_ + 3)
            } else {
                (rule, one_string(), u_ + 2)
            }
        } else {
            (String::new(), zero_string(), u_)
        };
        let execution = Execution {
            order_id: i32_at(fields, q),
            exec_id: str_at(fields, s_),
            time: str_at(fields, s_ + 1),
            acct_number: str_at(fields, s_ + 2),
            exchange: str_at(fields, s_ + 3),
            side: str_at(fields, s_ + 4),
            shares: quant_at(fields, sv, s_ + 5),
            price: f64_at(fields, s_ + 6),
            perm_id: i32_at(fields, s_ + 7),
            client_id: i32_at(fields, s_ + 8),
            liquidation: i32_at(fields, s_ + 9),
            cum_qty: if version >= 6 {
                f64_at(fields, s_ + 10)
            } else {
                zero_string()
            },
            avg_price: if version >= 6 {
                f64_at(fields, s_ + 11)
            } else {
                zero_string()
            },
            order_ref: if version >= 8 {
                str_at(fields, t_)
            } else {
                String::new()
            },
            ev_rule,
            ev_multiplier,
            model_code: if sv >= MIN_SERVER_VER_MODELS_SUPPORT {
                str_at(fields, w)
            } else {
                String::new()
            },
            last_liquidity: if sv >= MIN_SERVER_VER_LAST_LIQUIDITY {
                i32_at(
                    fields,
                    w + (if sv >= MIN_SERVER_VER_MODELS_SUPPORT {
                        1
                    } else {
                        0
                    }),
                )
            } else {
                0
            },
        };
        let mut out: Vec<ServerRspMsg> = Vec::new();
        out.push(ServerRspMsg::ExecutionData { req_id, contract, execution });
        out
    }
}

fn one_string() -> (r: String)
    ensures
        r@ =~= seq!['1'],
{
    proof {
        reveal_strlit("1");
    }
    String::from_str("1")
}

pub open spec fn open_order_end_post(out: Seq<ServerRspMsg>) -> bool {
    out.len() == 1 && out[0] is OpenOrderEnd
}

pub open spec fn position_end_post(out: Seq<ServerRspMsg>) -> bool {
    out.len() == 1 && out[0] is PositionEnd
}

pub open spec fn completed_orders_end_post(out: Seq<ServerRspMsg>) -> bool {
    out.len() == 1 && out[0] is CompletedOrdersEnd
}

pub open spec fn sec_def_opt_param_end_post(fs: Seq<Seq<char>>, out: Seq<ServerRspMsg>) -> bool {
    &&& out.len() == 1
    &&& (out[0] matches ServerRspMsg::SecurityDefinitionOptionParameterEnd { req_id } && req_id
        == si32(fs, 1))
}

/// What decoding one field list yields, by message kind.  Frames with the
/// exchange-for-physical kind are routed to the tick-by-tick routine, and
/// verify-message frames to the verify-completed routine.
pub open spec fn kind_post(
    k: ServerRspMsgDiscriminants,
    fs: Seq<Seq<char>>,
    sv: i32,
    out: Seq<ServerRspMsg>,
) -> bool {
    match k {
        ServerRspMsgDiscriminants::TickPrice => tick_price_post(fs, sv, out),
        ServerRspMsgDiscriminants::TickSize => tick_size_post(fs, out),
        ServerRspMsgDiscriminants::OrderStatus => order_status_post(fs, sv, out),
        ServerRspMsgDiscriminants::ErrMsg => error_message_post(fs, out),
        ServerRspMsgDiscriminants::OpenOrder => open_order_post(fs, sv, out),
        ServerRspMsgDiscriminants::AcctValue => account_value_post(fs, out),
        ServerRspMsgDiscriminants::PortfolioValue => portfolio_value_post(fs, sv, out),
        ServerRspMsgDiscriminants::AcctUpdateTime => account_update_time_post(fs, out),
        ServerRspMsgDiscriminants::NextValidId => next_valid_id_post(fs, out),
        ServerRspMsgDiscriminants::ContractData => contract_details_post(fs, sv, out),
        ServerRspMsgDiscriminants::ExecutionData => execution_data_post(fs, sv, out),
        ServerRspMsgDiscriminants::MarketDepth => market_depth_post(fs, out),
        ServerRspMsgDiscriminants::MarketDepthL2 => market_depth_l2_post(fs, sv, out),
        ServerRspMsgDiscriminants::NewsBulletins => news_bulletins_post(fs, out),
        ServerRspMsgDiscriminants::ManagedAccts => managed_accounts_post(fs, out),
        ServerRspMsgDiscriminants::ReceiveFa => receive_fa_post(fs, out),
        ServerRspMsgDiscriminants::HistoricalData => historical_data_post(fs, sv, out),
        ServerRspMsgDiscriminants::BondContractData => bond_contract_data_post(fs, sv, out),
        ServerRspMsgDiscriminants::ScannerParameters => scanner_parameters_post(fs, out),
        ServerRspMsgDiscriminants::ScannerData => scanner_data_post(fs, out),
        ServerRspMsgDiscriminants::TickOptionComputation => tick_option_computation_post(fs, out),
        ServerRspMsgDiscriminants::TickGeneric => tick_generic_post(fs, out),
        ServerRspMsgDiscriminants::TickString => tick_string_post(fs, out),
        ServerRspMsgDiscriminants::TickEfp => tick_by_tick_post(fs, out),
        ServerRspMsgDiscriminants::CurrentTime => current_time_post(fs, out),
        ServerRspMsgDiscriminants::RealTimeBars => real_time_bars_post(fs, out),
        ServerRspMsgDiscriminants::FundamentalData => fundamental_data_post(fs, out),
        ServerRspMsgDiscriminants::ContractDataEnd => contract_details_end_post(fs, out),
        ServerRspMsgDiscriminants::OpenOrderEnd => open_order_end_post(out),
        ServerRspMsgDiscriminants::AcctDownloadEnd => account_download_end_post(fs, out),
        ServerRspMsgDiscriminants::ExecutionDataEnd => execution_data_end_post(fs, out),
        ServerRspMsgDiscriminants::DeltaNeutralValidation => delta_neutral_validation_post(fs, out),
        ServerRspMsgDiscriminants::TickSnapshotEnd => tick_snapshot_end_post(fs, out),
        ServerRspMsgDiscriminants::MarketDataType => market_data_type_post(fs, out),
        ServerRspMsgDiscriminants::CommissionReport => commission_report_post(fs, out),
        ServerRspMsgDiscriminants::PositionData => position_data_post(fs, sv, out),
        ServerRspMsgDiscriminants::PositionEnd => position_end_post(out),
        ServerRspMsgDiscriminants::AccountSummary => account_summary_post(fs, out),
        ServerRspMsgDiscriminants::AccountSummaryEnd => account_summary_end_post(fs, out),
        ServerRspMsgDiscriminants::VerifyMessageApi => verify_completed_post(fs, out),
        ServerRspMsgDiscriminants::VerifyCompleted => verify_completed_post(fs, out),
        ServerRspMsgDiscriminants::DisplayGroupList => display_group_list_post(fs, out),
        ServerRspMsgDiscriminants::DisplayGroupUpdated => display_group_updated_post(fs, out),
        ServerRspMsgDiscriminants::VerifyAndAuthMessageApi => verify_and_auth_message_api_post(
            fs,
            out,
        ),
        ServerRspMsgDiscriminants::VerifyAndAuthCompleted => verify_and_auth_completed_post(
            fs,
            out,
        ),
        ServerRspMsgDiscriminants::PositionMulti => position_multi_post(fs, out),
        ServerRspMsgDiscriminants::PositionMultiEnd => position_multi_end_post(fs, out),
        ServerRspMsgDiscriminants::AccountUpdateMulti => account_update_multi_post(fs, out),
        ServerRspMsgDiscriminants::AccountUpdateMultiEnd => account_update_multi_end_post(fs, out),
        ServerRspMsgDiscriminants::SecurityDefinitionOptionParameter => sec_def_opt_param_post(
            fs,
            out,
        ),
        ServerRspMsgDiscriminants::SecurityDefinitionOptionParameterEnd
            => sec_def_opt_param_end_post(fs, out),
        ServerRspMsgDiscriminants::SoftDollarTiers => soft_dollar_tiers_post(fs, out),
        ServerRspMsgDiscriminants::FamilyCodes => family_codes_post(fs, out),
        ServerRspMsgDiscriminants::SymbolSamples => symbol_samples_post(fs, out),
        ServerRspMsgDiscriminants::MktDepthExchanges => market_depth_exchanges_post(fs, sv, out),
        ServerRspMsgDiscriminants::TickReqParams => tick_req_params_post(fs, out),
        ServerRspMsgDiscriminants::SmartComponents => smart_components_post(fs, out),
        ServerRspMsgDiscriminants::NewsArticle => news_article_post(fs, out),
        ServerRspMsgDiscriminants::TickNews => tick_news_post(fs, out),
        ServerRspMsgDiscriminants::NewsProviders => news_providers_post(fs, out),
        ServerRspMsgDiscriminants::HistoricalNews => historical_news_post(fs, out),
        ServerRspMsgDiscriminants::HistoricalNewsEnd => historical_news_end_post(fs, out),
        ServerRspMsgDiscriminants::HeadTimestamp => head_timestamp_post(fs, out),
        ServerRspMsgDiscriminants::HistogramData => histogram_data_post(fs, out),
        ServerRspMsgDiscriminants::HistoricalDataUpdate => historical_data_update_post(fs, out),
        ServerRspMsgDiscriminants::RerouteMktDataReq => reroute_mkt_data_req_post(fs, out),
        ServerRspMsgDiscriminants::RerouteMktDepthReq => reroute_mkt_depth_req_post(fs, out),
        ServerRspMsgDiscriminants::MarketRule => market_rule_post(fs, out),
        ServerRspMsgDiscriminants::Pnl => pnl_post(fs, sv, out),
        ServerRspMsgDiscriminants::PnlSingle => pnl_single_post(fs, sv, out),
        ServerRspMsgDiscriminants::HistoricalTicks => historical_ticks_post(fs, out),
        ServerRspMsgDiscriminants::HistoricalTicksBidAsk => historical_ticks_bid_ask_post(fs, out),
        ServerRspMsgDiscriminants::HistoricalTicksLast => historical_ticks_last_post(fs, out),
        ServerRspMsgDiscriminants::TickByTick => tick_by_tick_post(fs, out),
        ServerRspMsgDiscriminants::OrderBound => order_bound_post(fs, out),
        ServerRspMsgDiscriminants::CompletedOrder => completed_order_post(fs, out),
        ServerRspMsgDiscriminants::CompletedOrdersEnd => completed_orders_end_post(out),
    }
}

/// What `interpret` yields: nothing for an empty field list, a typed error
/// when the leading field is not a number or names no known kind, and the
/// kind's messages otherwise.
pub open spec fn interpret_post(
    fs: Seq<Seq<char>>,
    sv: i32,
    r: Result<Vec<ServerRspMsg>, DecodeError>,
) -> bool {
    if fs.len() == 0 {
        r matches Ok(v) && v@.len() == 0
    } else {
        match parse_i32_spec(fs[0]) {
            Option::None => r matches Err(e) && e == DecodeError::BadMessageId,
            Option::Some(id) => match crate::messages::rsp_kind_of(id as int) {
                Option::None => r matches Err(e) && e == DecodeError::UnsupportedMessageId(id),
                Option::Some(k) => r matches Ok(v) && kind_post(k, fs, sv, v@),
            },
        }
    }
}

impl Decoder {
    /// Decode one inbound field list into its typed response messages,
    /// dispatching on the leading message-kind id.
    pub fn interpret(&self, fields: &[String]) -> (r: Result<Vec<ServerRspMsg>, DecodeError>)
        ensures
            interpret_post(fields_view(fields@), self.server_version, r),
    {
        if fields.len() == 0 {
            return Ok(Vec::new());
        }
        let id = match crate::numtext::parse_i32(
            vstd::slice::slice_index_get(fields, 0).as_str(),
        ) {
            Some(v) => v,
            None => {
                return Err(DecodeError::BadMessageId);
            },
        };
        let kind = match ServerRspMsgDiscriminants::from_i32(id) {
            Some(k) => k,
            None => {
                return Err(DecodeError::UnsupportedMessageId(id));
            },
        };
        let out = match kind {
            ServerRspMsgDiscriminants::TickPrice => self.process_tick_price(fields),
            ServerRspMsgDiscriminants::TickSize => self.process_tick_size(fields),
            ServerRspMsgDiscriminants::OrderStatus => self.process_order_status(fields),
            ServerRspMsgDiscriminants::ErrMsg => self.process_error_message(fields),
            ServerRspMsgDiscriminants::OpenOrder => self.process_open_order(fields),
            ServerRspMsgDiscriminants::AcctValue => self.process_account_value(fields),
            ServerRspMsgDiscriminants::PortfolioValue => self.process_portfolio_value(fields),
            ServerRspMsgDiscriminants::AcctUpdateTime => self.process_account_update_time(fields),
            ServerRspMsgDiscriminants::NextValidId => self.process_next_valid_id(fields),
            ServerRspMsgDiscriminants::ContractData => self.process_contract_details(fields),
            ServerRspMsgDiscriminants::ExecutionData => self.process_execution_data(fields),
            ServerRspMsgDiscriminants::MarketDepth => self.process_market_depth(fields),
            ServerRspMsgDiscriminants::MarketDepthL2 => self.process_market_depth_l2(fields),
            ServerRspMsgDiscriminants::NewsBulletins => self.process_news_bulletins(fields),
            ServerRspMsgDiscriminants::ManagedAccts => self.process_managed_accounts(fields),
            ServerRspMsgDiscriminants::ReceiveFa => self.process_receive_fa(fields),
            ServerRspMsgDiscriminants::HistoricalData => self.process_historical_data(fields),
            ServerRspMsgDiscriminants::BondContractData => self.process_bond_contract_data(fields),
            ServerRspMsgDiscriminants::ScannerParameters => self.process_scanner_parameters(
                fields,
            ),
            ServerRspMsgDiscriminants::ScannerData => self.process_scanner_data(fields),
            ServerRspMsgDiscriminants::TickOptionComputation
                => self.process_tick_option_computation(fields),
            ServerRspMsgDiscriminants::TickGeneric => self.process_tick_generic(fields),
            ServerRspMsgDiscriminants::TickString => self.process_tick_string(fields),
            ServerRspMsgDiscriminants::TickEfp => self.process_tick_by_tick(fields),
            ServerRspMsgDiscriminants::CurrentTime => self.process_current_time(fields),
            ServerRspMsgDiscriminants::RealTimeBars => self.process_real_time_bars(fields),
            ServerRspMsgDiscriminants::FundamentalData => self.process_fundamental_data(fields),
            ServerRspMsgDiscriminants::ContractDataEnd => self.process_contract_details_end(
                fields,
            ),
            ServerRspMsgDiscriminants::OpenOrderEnd => self.process_end_msg_noarg(
                ServerRspMsg::OpenOrderEnd,
            ),
            ServerRspMsgDiscriminants::AcctDownloadEnd => self.process_account_download_end(
                fields,
            ),
            ServerRspMsgDiscriminants::ExecutionDataEnd => self.process_execution_data_end(fields),
            ServerRspMsgDiscriminants::DeltaNeutralValidation
                => self.process_delta_neutral_validation(fields),
            ServerRspMsgDiscriminants::TickSnapshotEnd => self.process_tick_snapshot_end(fields),
            ServerRspMsgDiscriminants::MarketDataType => self.process_market_data_type(fields),
            ServerRspMsgDiscriminants::CommissionReport => self.process_commission_report(fields),
            ServerRspMsgDiscriminants::PositionData => self.process_position_data(fields),
            ServerRspMsgDiscriminants::PositionEnd => self.process_end_msg_noarg(
                ServerRspMsg::PositionEnd,
            ),
            ServerRspMsgDiscriminants::AccountSummary => self.process_account_summary(fields),
            ServerRspMsgDiscriminants::AccountSummaryEnd => self.process_account_summary_end(
                fields,
            ),
            ServerRspMsgDiscriminants::VerifyMessageApi => self.process_verify_completed(fields),
            ServerRspMsgDiscriminants::VerifyCompleted => self.process_verify_completed(fields),
            ServerRspMsgDiscriminants::DisplayGroupList => self.process_display_group_list(fields),
            ServerRspMsgDiscriminants::DisplayGroupUpdated => self.process_display_group_updated(
                fields,
            ),
            ServerRspMsgDiscriminants::VerifyAndAuthMessageApi
                => self.process_verify_and_auth_message_api(fields),
            ServerRspMsgDiscriminants::VerifyAndAuthCompleted
                => self.process_verify_and_auth_completed(fields),
            ServerRspMsgDiscriminants::PositionMulti => self.process_position_multi(fields),
            ServerRspMsgDiscriminants::PositionMultiEnd => self.process_position_multi_end(fields),
            ServerRspMsgDiscriminants::AccountUpdateMulti => self.process_account_update_multi(
                fields,
            ),
            ServerRspMsgDiscriminants::AccountUpdateMultiEnd
                => self.process_account_update_multi_end(fields),
            ServerRspMsgDiscriminants::SecurityDefinitionOptionParameter
                => self.process_security_definition_option_parameter(fields),
            ServerRspMsgDiscriminants::SecurityDefinitionOptionParameterEnd
                => self.process_security_definition_option_parameter_end(fields),
            ServerRspMsgDiscriminants::SoftDollarTiers => self.process_soft_dollar_tiers(fields),
            ServerRspMsgDiscriminants::FamilyCodes => self.process_family_codes(fields),
            ServerRspMsgDiscriminants::SymbolSamples => self.process_symbol_samples(fields),
            ServerRspMsgDiscriminants::MktDepthExchanges => self.process_market_depth_exchanges(
                fields,
            ),
            ServerRspMsgDiscriminants::TickReqParams => self.process_tick_req_params(fields),
            ServerRspMsgDiscriminants::SmartComponents => self.process_smart_components(fields),
            ServerRspMsgDiscriminants::NewsArticle => self.process_news_article(fields),
            ServerRspMsgDiscriminants::TickNews => self.process_tick_news(fields),
            ServerRspMsgDiscriminants::NewsProviders => self.process_news_providers(fields),
            ServerRspMsgDiscriminants::HistoricalNews => self.process_historical_news(fields),
            ServerRspMsgDiscriminants::HistoricalNewsEnd => self.process_historical_news_end(
                fields,
            ),
            ServerRspMsgDiscriminants::HeadTimestamp => self.process_head_timestamp(fields),
            ServerRspMsgDiscriminants::HistogramData => self.process_histogram_data(fields),
            ServerRspMsgDiscriminants::HistoricalDataUpdate => self.process_historical_data_update(
                fields,
            ),
            ServerRspMsgDiscriminants::RerouteMktDataReq => self.process_reroute_mkt_data_req(
                fields,
            ),
            ServerRspMsgDiscriminants::RerouteMktDepthReq => self.process_reroute_mkt_depth_req(
                fields,
            ),
            ServerRspMsgDiscriminants::MarketRule => self.process_market_rule(fields),
            ServerRspMsgDiscriminants::Pnl => self.process_pnl(fields),
            ServerRspMsgDiscriminants::PnlSingle => self.process_pnl_single(fields),
            ServerRspMsgDiscriminants::HistoricalTicks => self.process_historical_ticks(fields),
            ServerRspMsgDiscriminants::HistoricalTicksBidAsk
                => self.process_historical_ticks_bid_ask(fields),
            ServerRspMsgDiscriminants::HistoricalTicksLast => self.process_historical_ticks_last(
                fields,
            ),
            ServerRspMsgDiscriminants::TickByTick => self.process_tick_by_tick(fields),
            ServerRspMsgDiscriminants::OrderBound => self.process_order_bound(fields),
            ServerRspMsgDiscriminants::CompletedOrder => self.process_completed_order(fields),
            ServerRspMsgDiscriminants::CompletedOrdersEnd => self.process_end_msg_noarg(
                ServerRspMsg::CompletedOrdersEnd,
            ),
        };
        Ok(out)
    }
}

// ------------------------------------------------------------------
// Laws of the sentinel remaps and of version gating
// ------------------------------------------------------------------

/// The zero-versus-unset quirk for integer fields: any nonzero integer
/// round-trips through the unset-remapping decode unchanged, while a field
/// holding 0 decodes to the unset sentinel.  (A field holding the sentinel's
/// own numeric value also round-trips, so the conflation is only at zero.)
pub proof fn lemma_decode_i32_unset_quirk(fs: Seq<Seq<char>>, i: int, v: i32)
    requires
        0 <= i < fs.len(),
        fs[i] == crate::numtext::int_text_of(v as int),
    ensures
        v != 0 ==> si32u(fs, i) == v,
        v == 0 ==> si32u(fs, i) == UNSET_INTEGER,
{
    crate::numtext::lemma_int_text_roundtrip_i32(v as int);
}

/// The same quirk for floating fields, stated over the wire text: any
/// well-formed text denoting a nonzero value passes through unchanged, and
/// any text denoting zero (the malformed and absent cases included) decodes
/// to the unset sentinel.
pub proof fn lemma_decode_f64_unset_quirk(fs: Seq<Seq<char>>, i: int, d: DoubleValue)
    requires
        0 <= i < fs.len(),
        sf64u_is(fs, i, d),
    ensures
        is_float_text(fs[i]) && !float_text_zero(fs[i]) ==> (d matches DoubleValue::Num(s) && s@
            == fs[i]),
        float_text_zero(fs[i]) ==> d is Unset,
        !is_float_text(fs[i]) ==> d is Unset,
{
}

/// A historical-data response reporting `n` bars yields exactly `n + 1`
/// messages: the bars in input order, then one end marker carrying the
/// requested start and end date strings.
pub proof fn lemma_historical_data_shape(fs: Seq<Seq<char>>, sv: i32, out: Seq<ServerRspMsg>)
    requires
        historical_data_post(fs, sv, out),
    ensures
        ({
            let b: int = if sv < MIN_SERVER_VER_SYNT_REALTIME_BARS {
                2
            } else {
                1
            };
            &&& out.len() == nneg(si32(fs, b + 3)) + 1
            &&& (out.last() matches ServerRspMsg::HistoricalDataEnd { req_id, start, end } && req_id
                == si32(fs, b) && start@ == sstr(fs, b + 1) && end@ == sstr(fs, b + 2))
            &&& forall|i: int| 0 <= i < out.len() - 1 ==> (#[trigger] out[i]) is HistoricalData
            &&& forall|i: int|
                0 <= i < out.len() - 1 ==> hist_bar_msg_at(
                    fs,
                    sv,
                    si32(fs, b),
                    b + 4 + (if sv < MIN_SERVER_VER_SYNT_REALTIME_BARS {
                        9int
                    } else {
                        8int
                    }) * i,
                    #[trigger] out[i],
                )
        }),
{
    let b: int = if sv < MIN_SERVER_VER_SYNT_REALTIME_BARS {
        2
    } else {
        1
    };
    let stride: int = if sv < MIN_SERVER_VER_SYNT_REALTIME_BARS {
        9
    } else {
        8
    };
    let cnt = nneg(si32(fs, b + 3));
    assert forall|i: int| 0 <= i < out.len() - 1 implies (#[trigger] out[i]) is HistoricalData by {
        assert(hist_bar_msg_at(fs, sv, si32(fs, b), b + 4 + stride * i, out[i]));
    }
}

/// Version gating of the historical-data report: a session below the
/// synthetic-bars threshold consumes an extra leading legacy-version field,
/// shifting every position by one, consumes one extra field per bar, and
/// parses each volume as a 32-bit integer; a session at or above the
/// threshold consumes none of those, reading tighter bar blocks with 64-bit
/// volumes.
pub proof fn lemma_historical_data_version_gating(
    fs: Seq<Seq<char>>,
    sv_low: i32,
    sv_high: i32,
    out_low: Seq<ServerRspMsg>,
    out_high: Seq<ServerRspMsg>,
)
    requires
        sv_low < MIN_SERVER_VER_SYNT_REALTIME_BARS,
        sv_high >= MIN_SERVER_VER_SYNT_REALTIME_BARS,
        historical_data_post(fs, sv_low, out_low),
        historical_data_post(fs, sv_high, out_high),
    ensures
        out_low.len() == nneg(si32(fs, 5)) + 1,
        out_high.len() == nneg(si32(fs, 4)) + 1,
        (out_low.last() matches ServerRspMsg::HistoricalDataEnd { req_id, start, end } && req_id
            == si32(fs, 2) && start@ == sstr(fs, 3) && end@ == sstr(fs, 4)),
        (out_high.last() matches ServerRspMsg::HistoricalDataEnd { req_id, start, end } && req_id
            == si32(fs, 1) && start@ == sstr(fs, 2) && end@ == sstr(fs, 3)),
        forall|i: int|
            0 <= i < out_low.len() - 1 ==> hist_bar_msg_at(
                fs,
                sv_low,
                si32(fs, 2),
                6 + 9 * i,
                #[trigger] out_low[i],
            ),
        forall|i: int|
            0 <= i < out_high.len() - 1 ==> hist_bar_msg_at(
                fs,
                sv_high,
                si32(fs, 1),
                5 + 8 * i,
                #[trigger] out_high[i],
            ),
{
}

/// Version gating of the option-computation report: the price block is
/// consumed exactly when the legacy version reaches 6 or the tick type is a
/// model computation, the greeks block exactly when the version reaches 6,
/// and every unconsumed gated field stays at the unset sentinel.
pub proof fn lemma_tick_option_computation_gating(fs: Seq<Seq<char>>, out: Seq<ServerRspMsg>)
    requires
        tick_option_computation_post(fs, out),
    ensures
        ({
            let version = si32(fs, 1);
            let model = si32(fs, 3) == 13 || si32(fs, 3) == 83;
            &&& out.len() == 1
            &&& (out[0] matches ServerRspMsg::TickOptionComputation {
                opt_price,
                pv_dividend,
                gamma,
                vega,
                theta,
                und_price,
                ..
            } && ({
                &&& (version >= 6 || model) ==> sf64_remap_is(fs, 6, '1', opt_price)
                    && sf64_remap_is(fs, 7, '1', pv_dividend)
                &&& !(version >= 6 || model) ==> opt_price is Unset && pv_dividend is Unset
                &&& version >= 6 ==> sf64_remap_is(fs, 8, '2', gamma) && sf64_remap_is(
                    fs,
                    9,
                    '2',
                    vega,
                ) && sf64_remap_is(fs, 10, '2', theta) && sf64_remap_is(fs, 11, '1', und_price)
                &&& version < 6 ==> gamma is Unset && vega is Unset && theta is Unset && und_price
                    is Unset
            }))
        }),
{
}

/// Version gating, shown on the profit-and-loss report: a session below the
/// threshold does not consume the gated fields — its result is the same
/// whether or not the payload carries them, and the gated values stay at
/// their defaults — while a session at or above the threshold consumes them.
pub proof fn lemma_pnl_version_gating(
    fs: Seq<Seq<char>>,
    more: Seq<Seq<char>>,
    sv_low: i32,
    sv_high: i32,
    out_low: Seq<ServerRspMsg>,
    out_more: Seq<ServerRspMsg>,
    out_high: Seq<ServerRspMsg>,
)
    requires
        fs.len() == 3,
        sv_low < MIN_SERVER_VER_UNREALIZED_PNL,
        sv_high >= MIN_SERVER_VER_REALIZED_PNL,
        pnl_post(fs, sv_low, out_low),
        pnl_post(fs + more, sv_low, out_more),
        pnl_post(fs + more, sv_high, out_high),
    ensures
        (out_low[0] matches ServerRspMsg::Pnl { unrealized_pnl, realized_pnl, .. }
            && unrealized_pnl@ == seq!['0'] && realized_pnl@ == seq!['0']),
        (out_low[0] matches ServerRspMsg::Pnl { req_id, daily_pnl, .. } && (out_more[0]
            matches ServerRspMsg::Pnl { req_id: r2, daily_pnl: d2, .. } && req_id == r2 && daily_pnl@
            == d2@)),
        (out_high[0] matches ServerRspMsg::Pnl { unrealized_pnl, realized_pnl, .. }
            && unrealized_pnl@ == sf64(fs + more, 3) && realized_pnl@ == sf64(fs + more, 4)),
{
    assert((fs + more)[1] == fs[1]);
    assert((fs + more)[2] == fs[2]);
}

} // verus!
