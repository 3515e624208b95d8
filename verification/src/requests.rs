//! Typed outbound requests.  Floating fields hold a `DoubleValue`: decimal
//! text, or the unset sentinel that encodes to an empty field.  The domain
//! value objects are spelled out only as far as their wire fields go.

use vstd::prelude::*;

use crate::messages::DoubleValue;
use crate::messages::TagValue;

verus! {

/// The contract header fields that outbound requests spell out.
#[derive(Clone, Debug, PartialEq)]
pub struct ContractPreamble {
    pub con_id: i32,
    pub symbol: String,
    pub sec_type: String,
    pub last_trade_date_or_contract_month: String,
    pub strike: DoubleValue,
    pub right: String,
    pub multiplier: String,
    pub exchange: String,
    pub primary_exchange: String,
    pub currency: String,
    pub local_symbol: String,
}

/// The execution-report filter of an executions request.
#[derive(Clone, Debug, PartialEq)]
pub struct ExecutionFilter {
    pub client_id: i32,
    pub acct_code: String,
    pub time: String,
    pub symbol: String,
    pub sec_type: String,
    pub exchange: String,
    pub side: String,
}

/// A scanner subscription, in its wire field order.
#[derive(Clone, Debug, PartialEq)]
pub struct ScannerSubscription {
    pub number_of_rows: i32,
    pub instrument: String,
    pub location_code: String,
    pub scan_code: String,
    pub above_price: DoubleValue,
    pub below_price: DoubleValue,
    pub above_volume: i32,
    pub market_cap_above: DoubleValue,
    pub market_cap_below: DoubleValue,
    pub moody_rating_above: String,
    pub moody_rating_below: String,
    pub sp_rating_above: String,
    pub sp_rating_below: String,
    pub maturity_date_above: String,
    pub maturity_date_below: String,
    pub coupon_rate_above: DoubleValue,
    pub coupon_rate_below: DoubleValue,
    pub exclude_convertible: bool,
    pub average_option_volume_above: i32,
    pub scanner_setting_pairs: String,
    pub stock_type_filter: String,
}

/// One leg of a combination contract, as a market-data request carries it.
#[derive(Clone, Debug, PartialEq)]
pub struct ComboLegPreamble {
    pub con_id: i32,
    pub ratio: i32,
    pub action: String,
    pub exchange: String,
}

/// One leg of a combination contract, as an order carries it.
#[derive(Clone, Debug, PartialEq)]
pub struct ComboLeg {
    pub con_id: i32,
    pub ratio: i32,
    pub action: String,
    pub exchange: String,
    pub open_close: i32,
    pub short_sale_slot: i32,
    pub designated_location: String,
    pub exempt_code: i32,
}

/// The per-leg price of an order's combination leg.
#[derive(Clone, Debug, PartialEq)]
pub struct OrderComboLeg {
    pub price: DoubleValue,
}

/// An order's delta-neutral underlying component.
#[derive(Clone, Debug, PartialEq)]
pub struct DeltaNeutralData {
    pub con_id: i32,
    pub delta: DoubleValue,
    pub price: DoubleValue,
}

/// The order header: the fields every order starts with on the wire.
#[derive(Clone, Debug, PartialEq)]
pub struct PlaceOrderPreamble {
    pub action: String,
    pub total_quantity: DoubleValue,
    pub order_type: String,
    pub lmt_price: DoubleValue,
    pub aux_price: DoubleValue,
    pub tif: String,
    pub oca_group: String,
    pub account: String,
    pub open_close: String,
    pub origin: i32,
    pub order_ref: String,
    pub transmit: bool,
    pub parent_id: i32,
    pub block_order: bool,
    pub sweep_to_fill: bool,
    pub display_size: i32,
    pub trigger_method: i32,
    pub outside_rth: bool,
    pub hidden: bool,
}

/// The volatility-order block.
#[derive(Clone, Debug, PartialEq)]
pub struct VolatilityOrder {
    pub volatility: DoubleValue,
    pub volatility_type: i32,
    pub delta_neutral_order_type: String,
    pub delta_neutral_aux_price: DoubleValue,
}

/// One order condition, carried as its numeric kind and its already
/// flattened parameter fields; conditions are opaque domain values here.
#[derive(Clone, Debug, PartialEq)]
pub struct OrderCondition {
    pub cond_type: i32,
    pub params: Vec<String>,
}

/// The payload of a market-data request.
#[derive(Clone, Debug, PartialEq)]
pub struct ReqMktDataFields {
    pub contract: ContractPreamble,
    pub trading_class: String,
    pub combo_legs: Vec<ComboLegPreamble>,
    pub delta_neutral_contract: Option<DeltaNeutralData>,
    pub generic_tick_list: String,
    pub snapshot: bool,
    pub regulatory_snapshot: bool,
    pub mkt_data_options: String,
}

/// The payload of a place-order request, in its wire field order.  The
/// combination-leg lists are emitted only when the contract's security type
/// is the combination marker.
#[derive(Clone, Debug, PartialEq)]
pub struct PlaceOrderFields {
    pub contract: ContractPreamble,
    pub trading_class: String,
    pub sec_id_type: String,
    pub sec_id: String,
    pub ord_hdr: PlaceOrderPreamble,
    pub contract_combo_legs: Vec<ComboLeg>,
    pub order_combo_legs: Vec<OrderComboLeg>,
    pub smart_combo_routing_params: Vec<TagValue>,
    pub shares_alloc_deprecated: String,
    pub discretionary_amt: DoubleValue,
    pub good_after_time: String,
    pub good_till_date: String,
    pub fa_group: String,
    pub fa_method: String,
    pub fa_percentage: String,
    pub fa_profile: String,
    pub model_code: String,
    pub short_sale_slot: i32,
    pub designated_location: String,
    pub exempt_code: i32,
    pub oca_type: i32,
    pub rule80a: String,
    pub settling_firm: String,
    pub all_or_none: bool,
    pub min_qty: i32,
    pub percent_offset: DoubleValue,
    pub e_trade_only: bool,
    pub firm_quote_only: bool,
    pub nbbo_price_cap: DoubleValue,
    pub auction_strategy: i32,
    pub starting_price: DoubleValue,
    pub stock_ref_price: DoubleValue,
    pub delta: DoubleValue,
    pub stock_range_lower: DoubleValue,
    pub stock_range_upper: DoubleValue,
    pub override_percentage_constraints: bool,
    pub volat: VolatilityOrder,
    pub continuous_update: bool,
    pub reference_price_type: i32,
    pub trail_stop_price: DoubleValue,
    pub trailing_percent: DoubleValue,
    pub scale_init_level_size: i32,
    pub scale_subs_level_size: i32,
    pub scale_price_increment: DoubleValue,
    pub scale_price_adjust_value: DoubleValue,
    pub scale_price_adjust_interval: i32,
    pub scale_profit_offset: DoubleValue,
    pub scale_auto_reset: bool,
    pub scale_init_position: i32,
    pub scale_init_fill_qty: i32,
    pub scale_random_percent: bool,
    pub scale_table: String,
    pub active_start_time: String,
    pub active_stop_time: String,
    pub hedge_type: String,
    pub hedge_param: String,
    pub opt_out_smart_routing: bool,
    pub clearing_account: String,
    pub clearing_intent: String,
    pub not_held: bool,
    pub delta_neutral_contract: Option<DeltaNeutralData>,
    pub algo_strategy: String,
    pub algo_params: Vec<TagValue>,
    pub algo_id: String,
    pub what_if: bool,
    pub misc_options: String,
    pub solicited: bool,
    pub randomize_size: bool,
    pub randomize_price: bool,
    pub reference_contract_id: i32,
    pub is_pegged_change_amount_decrease: bool,
    pub pegged_change_amount: DoubleValue,
    pub reference_change_amount: DoubleValue,
    pub reference_exchange_id: String,
    pub conditions: Vec<OrderCondition>,
    pub conditions_ignore_rth: bool,
    pub conditions_cancel_order: bool,
    pub adjusted_order_type: String,
    pub trigger_price: DoubleValue,
    pub lmt_price_offset: DoubleValue,
    pub adjusted_stop_price: DoubleValue,
    pub adjusted_stop_limit_price: DoubleValue,
    pub adjusted_trailing_amount: DoubleValue,
    pub adjustable_trailing_unit: i32,
    pub ext_operator: String,
    pub soft_dollar_tier_name: String,
    pub soft_dollar_tier_val: String,
    pub cash_qty: DoubleValue,
    pub mifid2decision_maker: String,
    pub mifid2decision_algo: String,
    pub mifid2execution_trader: String,
    pub mifid2execution_algo: String,
    pub dont_use_auto_price_for_hedge: bool,
    pub is_oms_container: bool,
    pub discretionary_up_to_limit_price: bool,
    pub use_price_mgmt_algo: bool,
}

/// The request message kinds, in the order of their wire ids.
#[derive(Clone, Copy, Debug, PartialEq, Eq, Structural)]
pub enum ServerReqMsgDiscriminants {
    ReqMktData,
    CancelMktData,
    PlaceOrder,
    CancelOrder,
    ReqOpenOrders,
    ReqAcctData,
    ReqExecutions,
    ReqIds,
    ReqContractData,
    ReqMktDepth,
    CancelMktDepth,
    ReqNewsBulletins,
    CancelNewsBulletins,
    SetServerLoglevel,
    ReqAutoOpenOrders,
    ReqAllOpenOrders,
    ReqManagedAccts,
    ReqFa,
    ReplaceFa,
    ReqHistoricalData,
    ExerciseOptions,
    ReqScannerSubscription,
    CancelScannerSubscription,
    ReqScannerParameters,
    CancelHistoricalData,
    ReqCurrentTime,
    ReqRealTimeBars,
    CancelRealTimeBars,
    ReqFundamentalData,
    CancelFundamentalData,
    ReqCalcImpliedVolat,
    ReqCalcOptionPrice,
    CancelCalcImpliedVolat,
    CancelCalcOptionPrice,
    ReqGlobalCancel,
    ReqMarketDataType,
    ReqPositions,
    ReqAccountSummary,
    CancelAccountSummary,
    CancelPositions,
    VerifyRequest,
    VerifyMessage,
    QueryDisplayGroups,
    SubscribeToGroupEvents,
    UpdateDisplayGroup,
    UnsubscribeFromGroupEvents,
    StartApi,
    VerifyAndAuthRequest,
    VerifyAndAuthMessage,
    ReqPositionsMulti,
    CancelPositionsMulti,
    ReqAccountUpdatesMulti,
    CancelAccountUpdatesMulti,
    ReqSecDefOptParams,
    ReqSoftDollarTiers,
    ReqFamilyCodes,
    ReqMatchingSymbols,
    ReqMktDepthExchanges,
    ReqSmartComponents,
    ReqNewsArticle,
    ReqNewsProviders,
    ReqHistoricalNews,
    ReqHeadTimestamp,
    ReqHistogramData,
    CancelHistogramData,
    CancelHeadTimestamp,
    ReqMarketRule,
    ReqPnl,
    CancelPnl,
    ReqPnlSingle,
    CancelPnlSingle,
    ReqHistoricalTicks,
    ReqTickByTickData,
    CancelTickByTickData,
    ReqCompletedOrders,
}

/// The wire id of each outbound request kind.
pub open spec fn req_id_of(k: ServerReqMsgDiscriminants) -> int {
    match k {
        ServerReqMsgDiscriminants::ReqMktData => 1,
        ServerReqMsgDiscriminants::CancelMktData => 2,
        ServerReqMsgDiscriminants::PlaceOrder => 3,
        ServerReqMsgDiscriminants::CancelOrder => 4,
        ServerReqMsgDiscriminants::ReqOpenOrders => 5,
        ServerReqMsgDiscriminants::ReqAcctData => 6,
        ServerReqMsgDiscriminants::ReqExecutions => 7,
        ServerReqMsgDiscriminants::ReqIds => 8,
        ServerReqMsgDiscriminants::ReqContractData => 9,
        ServerReqMsgDiscriminants::ReqMktDepth => 10,
        ServerReqMsgDiscriminants::CancelMktDepth => 11,
        ServerReqMsgDiscriminants::ReqNewsBulletins => 12,
        ServerReqMsgDiscriminants::CancelNewsBulletins => 13,
        ServerReqMsgDiscriminants::SetServerLoglevel => 14,
        ServerReqMsgDiscriminants::ReqAutoOpenOrders => 15,
        ServerReqMsgDiscriminants::ReqAllOpenOrders => 16,
        ServerReqMsgDiscriminants::ReqManagedAccts => 17,
        ServerReqMsgDiscriminants::ReqFa => 18,
        ServerReqMsgDiscriminants::ReplaceFa => 19,
        ServerReqMsgDiscriminants::ReqHistoricalData => 20,
        ServerReqMsgDiscriminants::ExerciseOptions => 21,
        ServerReqMsgDiscriminants::ReqScannerSubscription => 22,
        ServerReqMsgDiscriminants::CancelScannerSubscription => 23,
        ServerReqMsgDiscriminants::ReqScannerParameters => 24,
        ServerReqMsgDiscriminants::CancelHistoricalData => 25,
        ServerReqMsgDiscriminants::ReqCurrentTime => 49,
        ServerReqMsgDiscriminants::ReqRealTimeBars => 50,
        ServerReqMsgDiscriminants::CancelRealTimeBars => 51,
        ServerReqMsgDiscriminants::ReqFundamentalData => 52,
        ServerReqMsgDiscriminants::CancelFundamentalData => 53,
        ServerReqMsgDiscriminants::ReqCalcImpliedVolat => 54,
        ServerReqMsgDiscriminants::ReqCalcOptionPrice => 55,
        ServerReqMsgDiscriminants::CancelCalcImpliedVolat => 56,
        ServerReqMsgDiscriminants::CancelCalcOptionPrice => 57,
        ServerReqMsgDiscriminants::ReqGlobalCancel => 58,
        ServerReqMsgDiscriminants::ReqMarketDataType => 59,
        ServerReqMsgDiscriminants::ReqPositions => 61,
        ServerReqMsgDiscriminants::ReqAccountSummary => 62,
        ServerReqMsgDiscriminants::CancelAccountSummary => 63,
        ServerReqMsgDiscriminants::CancelPositions => 64,
        ServerReqMsgDiscriminants::VerifyRequest => 65,
        ServerReqMsgDiscriminants::VerifyMessage => 66,
        ServerReqMsgDiscriminants::QueryDisplayGroups => 67,
        ServerReqMsgDiscriminants::SubscribeToGroupEvents => 68,
        ServerReqMsgDiscriminants::UpdateDisplayGroup => 69,
        ServerReqMsgDiscriminants::UnsubscribeFromGroupEvents => 70,
        ServerReqMsgDiscriminants::StartApi => 71,
        ServerReqMsgDiscriminants::VerifyAndAuthRequest => 72,
        ServerReqMsgDiscriminants::VerifyAndAuthMessage => 73,
        ServerReqMsgDiscriminants::ReqPositionsMulti => 74,
        ServerReqMsgDiscriminants::CancelPositionsMulti => 75,
        ServerReqMsgDiscriminants::ReqAccountUpdatesMulti => 76,
        ServerReqMsgDiscriminants::CancelAccountUpdatesMulti => 77,
        ServerReqMsgDiscriminants::ReqSecDefOptParams => 78,
        ServerReqMsgDiscriminants::ReqSoftDollarTiers => 79,
        ServerReqMsgDiscriminants::ReqFamilyCodes => 80,
        ServerReqMsgDiscriminants::ReqMatchingSymbols => 81,
        ServerReqMsgDiscriminants::ReqMktDepthExchanges => 82,
        ServerReqMsgDiscriminants::ReqSmartComponents => 83,
        ServerReqMsgDiscriminants::ReqNewsArticle => 84,
        ServerReqMsgDiscriminants::ReqNewsProviders => 85,
        ServerReqMsgDiscriminants::ReqHistoricalNews => 86,
        ServerReqMsgDiscriminants::ReqHeadTimestamp => 87,
        ServerReqMsgDiscriminants::ReqHistogramData => 88,
        ServerReqMsgDiscriminants::CancelHistogramData => 89,
        ServerReqMsgDiscriminants::CancelHeadTimestamp => 90,
        ServerReqMsgDiscriminants::ReqMarketRule => 91,
        ServerReqMsgDiscriminants::ReqPnl => 92,
        ServerReqMsgDiscriminants::CancelPnl => 93,
        ServerReqMsgDiscriminants::ReqPnlSingle => 94,
        ServerReqMsgDiscriminants::CancelPnlSingle => 95,
        ServerReqMsgDiscriminants::ReqHistoricalTicks => 96,
        ServerReqMsgDiscriminants::ReqTickByTickData => 97,
        ServerReqMsgDiscriminants::CancelTickByTickData => 98,
        ServerReqMsgDiscriminants::ReqCompletedOrders => 99,
    }
}

/// A typed outbound request.  A variant's `version` is the fixed legacy
/// version tag its kind carries on the wire.
#[derive(Clone, Debug, PartialEq)]
pub enum ServerReqMsg {
    ReqMktData { version: i32, req_id: i32, payload: ReqMktDataFields },
    CancelMktData { version: i32, req_id: i32 },
    PlaceOrder { version: i32, order_id: i32, payload: PlaceOrderFields },
    CancelOrder { version: i32, order_id: i32 },
    ReqOpenOrders { version: i32 },
    ReqAcctData { version: i32, subscribe: bool, acct_code: String },
    ReqExecutions { version: i32, req_id: i32, exec_filter: ExecutionFilter },
    ReqIds { version: i32, num_ids: i32 },
    ReqContractData {
        version: i32,
        req_id: i32,
        contract: ContractPreamble,
        trading_class: String,
        include_expired: bool,
        sec_id_type: String,
        sec_id: String,
    },
    ReqMktDepth {
        version: i32,
        req_id: i32,
        contract: ContractPreamble,
        trading_class: String,
        num_rows: i32,
        is_smart_depth: bool,
        mkt_depth_options: String,
    },
    CancelMktDepth { version: i32, req_id: i32, is_smart_depth: bool },
    ReqNewsBulletins { version: i32, all_msgs: bool },
    CancelNewsBulletins { version: i32 },
    SetServerLoglevel { version: i32, log_level: i32 },
    ReqAutoOpenOrders { version: i32, auto_bind: bool },
    ReqAllOpenOrders { version: i32 },
    ReqManagedAccts { version: i32 },
    ReqFa { version: i32, fa_data: i32 },
    ReplaceFa { version: i32, fa_data: i32, cxml: String },
    ReqHistoricalData {
        version: i32,
        req_id: i32,
        contract: ContractPreamble,
        trading_class: String,
        include_expired: bool,
        keep_up_to_date: bool,
        chart_options: String,
    },
    ExerciseOptions {
        version: i32,
        req_id: i32,
        contract: ContractPreamble,
        trading_class: String,
        exercise_action: i32,
        exercise_quantity: i32,
        account: String,
        over_ride: i32,
    },
    ReqScannerSubscription {
        version: i32,
        req_id: i32,
        subscription: ScannerSubscription,
        scanner_subscription_filter: String,
        scanner_subscription_options: String,
    },
    CancelScannerSubscription { version: i32, req_id: i32 },
    ReqScannerParameters { version: i32 },
    CancelHistoricalData { version: i32, req_id: i32 },
    ReqCurrentTime { version: i32 },
    ReqRealTimeBars {
        version: i32,
        req_id: i32,
        contract: ContractPreamble,
        trading_class: String,
        bar_size: i32,
        what_to_show: String,
        use_rth: bool,
        real_time_bars_options: String,
    },
    CancelRealTimeBars { version: i32, req_id: i32 },
    ReqFundamentalData {
        version: i32,
        req_id: i32,
        contract: ContractPreamble,
        report_type: String,
        tags_value_count: i32,
        fund_data_opt: String,
    },
    CancelFundamentalData { version: i32, req_id: i32 },
    ReqCalcImpliedVolat {
        version: i32,
        req_id: i32,
        contract: ContractPreamble,
        trading_class: String,
        option_price: DoubleValue,
        under_price: DoubleValue,
        tag_values_cnt: i32,
        impl_vol_opt: String,
    },
    ReqCalcOptionPrice {
        version: i32,
        req_id: i32,
        contract: ContractPreamble,
        trading_class: String,
        volatility: DoubleValue,
        under_price: DoubleValue,
        tag_values_cnt: i32,
        opt_prc_opt: String,
    },
    CancelCalcImpliedVolat { version: i32, req_id: i32 },
    CancelCalcOptionPrice { version: i32, req_id: i32 },
    ReqGlobalCancel { version: i32 },
    ReqMarketDataType { version: i32, market_data_type: i32 },
    ReqPositions { version: i32 },
    ReqAccountSummary { version: i32, req_id: i32, group_name: String, tags: String },
    CancelAccountSummary { version: i32, req_id: i32 },
    CancelPositions { version: i32 },
    VerifyRequest { version: i32, api_name: String, api_version: String },
    VerifyMessage { version: i32, api_data: String },
    QueryDisplayGroups { version: i32, req_id: i32 },
    SubscribeToGroupEvents { version: i32, req_id: i32, group_id: i32 },
    UpdateDisplayGroup { version: i32, req_id: i32, contract_info: String },
    UnsubscribeFromGroupEvents { version: i32, req_id: i32 },
    StartApi { version: i32, client_id: String },
    VerifyAndAuthRequest {
        version: i32,
        api_name: String,
        api_version: String,
        opaque_isv_key: String,
    },
    VerifyAndAuthMessage { version: i32, api_data: String, xyz_response: String },
    ReqPositionsMulti { version: i32, req_id: i32, account: String, model_code: String },
    CancelPositionsMulti { version: i32, req_id: i32 },
    ReqAccountUpdatesMulti {
        version: i32,
        req_id: i32,
        account: String,
        model_code: String,
        ledger_and_nlv: bool,
    },
    CancelAccountUpdatesMulti { version: i32, req_id: i32 },
    ReqSecDefOptParams {
        req_id: i32,
        underlying_symbol: String,
        fut_fop_exchange: String,
        underlying_sec_type: String,
        underlying_con_id: i32,
    },
    ReqSoftDollarTiers { req_id: i32 },
    ReqFamilyCodes,
    ReqMatchingSymbols { req_id: i32, pattern: String },
    ReqMktDepthExchanges,
    ReqSmartComponents { req_id: i32, bbo_exchange: String },
    ReqNewsArticle {
        req_id: i32,
        provider_code: String,
        article_id: String,
        news_article_options: String,
    },
    ReqNewsProviders,
    ReqHistoricalNews {
        req_id: i32,
        con_id: i32,
        provider_codes: String,
        start_date_time: String,
        end_date_time: String,
        total_results: i32,
        historical_news_options: String,
    },
    ReqHeadTimestamp {
        req_id: i32,
        contract: ContractPreamble,
        trading_class: String,
        include_expired: bool,
        use_rth: i32,
        what_to_show: String,
        format_date: i32,
    },
    ReqHistogramData {
        ticker_id: i32,
        contract: ContractPreamble,
        trading_class: String,
        include_expired: bool,
        use_rth: bool,
        time_period: String,
    },
    CancelHistogramData { ticker_id: i32 },
    CancelHeadTimestamp { req_id: i32 },
    ReqMarketRule { market_rule_id: i32 },
    ReqPnl { req_id: i32, account: String, model_code: String },
    CancelPnl { req_id: i32 },
    ReqPnlSingle { req_id: i32, account: String, model_code: String, con_id: i32 },
    CancelPnlSingle { req_id: i32 },
    ReqHistoricalTicks {
        req_id: i32,
        contract: ContractPreamble,
        trading_class: String,
        include_expired: bool,
        start_date_time: String,
        end_date_time: String,
        number_of_ticks: i32,
        what_to_show: String,
        use_rth: i32,
        ignore_size: bool,
        misc_options: String,
    },
    ReqTickByTickData {
        req_id: i32,
        contract: ContractPreamble,
        trading_class: String,
        tick_type: String,
        number_of_ticks: i32,
        ignore_size: bool,
    },
    CancelTickByTickData { req_id: i32 },
    ReqCompletedOrders { api_only: bool },
}

} // verus!
