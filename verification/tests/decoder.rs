//! The version-gated response decoder.

use twsproto::decoder::{DecodeError, Decoder};
use twsproto::messages::{DoubleValue, ServerRspMsg};
use twsproto::server_versions::{
    MIN_SERVER_VER_PAST_LIMIT, MIN_SERVER_VER_PRE_OPEN_BID_ASK, MIN_SERVER_VER_REALIZED_PNL,
    MIN_SERVER_VER_SYNT_REALTIME_BARS, MIN_SERVER_VER_UNREALIZED_PNL,
};

fn strings(fields: &[&str]) -> Vec<String> {
    fields.iter().map(|s| s.to_string()).collect()
}

#[test]
fn empty_field_list_is_a_no_op() {
    let d = Decoder::new(151);
    let out = d.interpret(&[]).unwrap();
    assert!(out.is_empty());
}

#[test]
fn bad_message_id_is_a_typed_error() {
    let d = Decoder::new(151);
    let fields = strings(&["abc", "1"]);
    assert_eq!(d.interpret(&fields).unwrap_err(), DecodeError::BadMessageId);
}

#[test]
fn unknown_message_kind_is_a_typed_error() {
    let d = Decoder::new(151);
    let fields = strings(&["999", "1"]);
    assert_eq!(d.interpret(&fields).unwrap_err(), DecodeError::UnsupportedMessageId(999));
}

#[test]
fn tick_price_minimal_below_past_limit_threshold() {
    // a minimal tick-price frame below the past-limit version threshold:
    // no attribute bits are available, and no size tick is paired
    let d = Decoder::new(MIN_SERVER_VER_PAST_LIMIT - 1);
    let fields = strings(&["1", "23", "66.5", "0"]);
    let out = d.interpret(&fields).unwrap();
    assert_eq!(out.len(), 1);
    match &out[0] {
        ServerRspMsg::TickPrice { req_id, tick_type, price, tick_attr } => {
            assert_eq!(*req_id, 23);
            assert_eq!(price.parse::<f64>().unwrap(), 66.5);
            assert_eq!(*tick_type, 0);
            assert!(!tick_attr.can_auto_execute);
            assert!(!tick_attr.past_limit);
            assert!(!tick_attr.pre_open);
        },
        other => panic!("wrong message: {:?}", other),
    }
}

#[test]
fn tick_price_attribute_bits_and_paired_size_tick() {
    let d = Decoder::new(MIN_SERVER_VER_PRE_OPEN_BID_ASK);
    // kind, req_id, price, attr bits, tick type (bid), size
    let fields = strings(&["1", "9", "12.25", "7", "1", "400"]);
    let out = d.interpret(&fields).unwrap();
    assert_eq!(out.len(), 2);
    match &out[0] {
        ServerRspMsg::TickPrice { req_id, tick_type, price, tick_attr } => {
            assert_eq!(*req_id, 9);
            assert_eq!(*tick_type, 1);
            assert_eq!(price, "12.25");
            assert!(tick_attr.can_auto_execute);
            assert!(tick_attr.past_limit);
            assert!(tick_attr.pre_open);
        },
        other => panic!("wrong message: {:?}", other),
    }
    match &out[1] {
        ServerRspMsg::TickSize { req_id, tick_type, size } => {
            assert_eq!(*req_id, 9);
            assert_eq!(*tick_type, 0);
            assert_eq!(*size, 400);
        },
        other => panic!("wrong second message: {:?}", other),
    }
}

#[test]
fn tick_price_below_past_limit_keeps_equality_semantics() {
    // below the threshold the attribute is an equality test, not a bit mask
    let d = Decoder::new(MIN_SERVER_VER_PAST_LIMIT - 1);
    let fields = strings(&["1", "9", "12.25", "3", "2", "10"]);
    let out = d.interpret(&fields).unwrap();
    match &out[0] {
        ServerRspMsg::TickPrice { tick_attr, .. } => {
            assert!(!tick_attr.can_auto_execute);
            assert!(!tick_attr.past_limit);
        },
        other => panic!("wrong message: {:?}", other),
    }
}

#[test]
fn historical_data_two_bars_and_end_marker() {
    // a report of two bars yields the bars in input order, then exactly one
    // end marker carrying the requested start and end dates
    let d = Decoder::new(MIN_SERVER_VER_SYNT_REALTIME_BARS);
    let fields = strings(&[
        "17", "6", "20200101", "20200202", "2",
        // bar 1: date open high low close volume average bar_count
        "d1", "1.0", "2.0", "0.5", "1.5", "100", "1.2", "3",
        // bar 2
        "d2", "2.0", "3.0", "1.5", "2.5", "200", "2.2", "4",
    ]);
    let out = d.interpret(&fields).unwrap();
    assert_eq!(out.len(), 3);
    match &out[0] {
        ServerRspMsg::HistoricalData { req_id, bar } => {
            assert_eq!(*req_id, 6);
            assert_eq!(bar.date, "d1");
            assert_eq!(bar.open, "1.0");
            assert_eq!(bar.volume, 100);
            assert_eq!(bar.bar_count, 3);
        },
        other => panic!("wrong first message: {:?}", other),
    }
    match &out[1] {
        ServerRspMsg::HistoricalData { bar, .. } => assert_eq!(bar.date, "d2"),
        other => panic!("wrong second message: {:?}", other),
    }
    match &out[2] {
        ServerRspMsg::HistoricalDataEnd { req_id, start, end } => {
            assert_eq!(*req_id, 6);
            assert_eq!(start, "20200101");
            assert_eq!(end, "20200202");
        },
        other => panic!("wrong end marker: {:?}", other),
    }
}

#[test]
fn pnl_version_gating() {
    // the same payload with and without the gated block
    let with_block = strings(&["94", "3", "10.5", "-2.25", "7.75"]);
    let low = Decoder::new(MIN_SERVER_VER_UNREALIZED_PNL - 1);
    let high = Decoder::new(MIN_SERVER_VER_REALIZED_PNL);
    match &low.interpret(&with_block).unwrap()[0] {
        ServerRspMsg::Pnl { req_id, daily_pnl, unrealized_pnl, realized_pnl } => {
            assert_eq!(*req_id, 3);
            assert_eq!(daily_pnl, "10.5");
            // below the threshold the gated fields are not consumed
            assert_eq!(unrealized_pnl, "0");
            assert_eq!(realized_pnl, "0");
        },
        other => panic!("wrong message: {:?}", other),
    }
    match &high.interpret(&with_block).unwrap()[0] {
        ServerRspMsg::Pnl { unrealized_pnl, realized_pnl, .. } => {
            assert_eq!(unrealized_pnl, "-2.25");
            assert_eq!(realized_pnl, "7.75");
        },
        other => panic!("wrong message: {:?}", other),
    }
}

#[test]
fn tick_option_computation_sentinel_remap() {
    let d = Decoder::new(151);
    // version 6 layout: every field block is present
    let fields = strings(&[
        "21", "6", "11", "13", "-1", "-2.0", "1.25", "-1", "-2", "0.5", "-2", "99.0",
    ]);
    let out = d.interpret(&fields).unwrap();
    match &out[0] {
        ServerRspMsg::TickOptionComputation {
            ticker_id,
            tick_type,
            implied_vol,
            delta,
            opt_price,
            pv_dividend,
            gamma,
            vega,
            theta,
            und_price,
        } => {
            assert_eq!(*ticker_id, 11);
            assert_eq!(*tick_type, 13);
            // -1 and -2 are "not yet computed" and become unset
            assert_eq!(*implied_vol, DoubleValue::Unset);
            assert_eq!(*delta, DoubleValue::Unset);
            assert_eq!(*opt_price, DoubleValue::Num("1.25".to_string()));
            assert_eq!(*pv_dividend, DoubleValue::Unset);
            assert_eq!(*gamma, DoubleValue::Unset);
            assert_eq!(*vega, DoubleValue::Num("0.5".to_string()));
            assert_eq!(*theta, DoubleValue::Unset);
            assert_eq!(*und_price, DoubleValue::Num("99.0".to_string()));
        },
        other => panic!("wrong message: {:?}", other),
    }
}

#[test]
fn error_message_frame() {
    let d = Decoder::new(151);
    let fields = strings(&["4", "2", "17", "502", "Couldn't connect"]);
    match &d.interpret(&fields).unwrap()[0] {
        ServerRspMsg::ErrMsg { req_id, error_code, error_str } => {
            assert_eq!(*req_id, 17);
            assert_eq!(*error_code, 502);
            assert_eq!(error_str, "Couldn't connect");
        },
        other => panic!("wrong message: {:?}", other),
    }
}

#[test]
fn account_summary_fields() {
    let d = Decoder::new(151);
    let fields = strings(&["63", "1", "9000", "DU111", "NetLiquidation", "500.00", "USD"]);
    match &d.interpret(&fields).unwrap()[0] {
        ServerRspMsg::AccountSummary { req_id, account, tag, value, currency } => {
            assert_eq!(*req_id, 9000);
            assert_eq!(account, "DU111");
            assert_eq!(tag, "NetLiquidation");
            assert_eq!(value, "500.00");
            assert_eq!(currency, "USD");
        },
        other => panic!("wrong message: {:?}", other),
    }
}

#[test]
fn contract_details_date_tokens() {
    // the last-trade field splits into date and time tokens
    let d = Decoder::new(100);
    let fields = strings(&[
        "10", "8", "77", "ES", "FUT", "20200918 08:30:00", "0", "", "GLOBEX", "USD", "ESU0",
        "E-mini", "ES", "1", "0.25", "", "ACTIVETIM", "GLOBEX", "1", "2", "Longname", "CME",
        "202009", "Indices", "Broad", "SP", "US/Central", "0800-1700", "0830-1600", "rule", "1.5",
        "0",
    ]);
    match &d.interpret(&fields).unwrap()[0] {
        ServerRspMsg::ContractData { req_id, contract_details } => {
            assert_eq!(*req_id, 77);
            assert_eq!(contract_details.contract.symbol, "ES");
            assert_eq!(contract_details.contract.last_trade_date_or_contract_month, "20200918");
            assert_eq!(contract_details.last_trade_time, "08:30:00");
            assert_eq!(contract_details.contract.strike, "0");
            assert_eq!(contract_details.time_zone_id, "US/Central");
        },
        other => panic!("wrong message: {:?}", other),
    }
}

#[test]
fn tick_by_tick_unknown_kind_yields_nothing() {
    let d = Decoder::new(151);
    let fields = strings(&["99", "5", "0", "1600000000"]);
    assert!(d.interpret(&fields).unwrap().is_empty());
}

#[test]
fn tick_by_tick_bid_ask() {
    let d = Decoder::new(151);
    let fields = strings(&["99", "5", "3", "1600000000", "9.5", "9.75", "100", "200", "3"]);
    match &d.interpret(&fields).unwrap()[0] {
        ServerRspMsg::TickByTick { req_id, tick_type, time, tick_msg } => {
            assert_eq!(*req_id, 5);
            assert_eq!(*tick_type, 3);
            assert_eq!(*time, 1600000000);
            match tick_msg {
                twsproto::messages::TickMsgType::BidAsk {
                    bid_price,
                    ask_price,
                    bid_size,
                    ask_size,
                    tick_attrib_bid_ask,
                } => {
                    assert_eq!(bid_price, "9.5");
                    assert_eq!(ask_price, "9.75");
                    assert_eq!(*bid_size, 100);
                    assert_eq!(*ask_size, 200);
                    assert!(tick_attrib_bid_ask.bid_past_low);
                    assert!(tick_attrib_bid_ask.ask_past_high);
                },
                other => panic!("wrong payload: {:?}", other),
            }
        },
        other => panic!("wrong message: {:?}", other),
    }
}

#[test]
fn open_order_payload_is_carried_raw() {
    let d = Decoder::new(151);
    let fields = strings(&["5", "31", "ES", "BUY"]);
    match &d.interpret(&fields).unwrap()[0] {
        ServerRspMsg::OpenOrder { version, fields } => {
            assert_eq!(*version, 151);
            assert_eq!(fields, &vec!["31".to_string(), "ES".to_string(), "BUY".to_string()]);
        },
        other => panic!("wrong message: {:?}", other),
    }
}

#[test]
fn end_markers_have_no_payload() {
    let d = Decoder::new(151);
    assert_eq!(d.interpret(&strings(&["53"])).unwrap()[0], ServerRspMsg::OpenOrderEnd);
    assert_eq!(d.interpret(&strings(&["62"])).unwrap()[0], ServerRspMsg::PositionEnd);
    assert_eq!(d.interpret(&strings(&["102"])).unwrap()[0], ServerRspMsg::CompletedOrdersEnd);
}

#[test]
fn family_codes_list() {
    let d = Decoder::new(151);
    let fields = strings(&["78", "2", "acc1", "fc1", "acc2", "fc2"]);
    match &d.interpret(&fields).unwrap()[0] {
        ServerRspMsg::FamilyCodes { family_codes } => {
            assert_eq!(family_codes.len(), 2);
            assert_eq!(family_codes[0].account_id, "acc1");
            assert_eq!(family_codes[1].family_code_str, "fc2");
        },
        other => panic!("wrong message: {:?}", other),
    }
}

#[test]
fn symbol_samples_nested_lists() {
    let d = Decoder::new(151);
    let fields = strings(&[
        "79", "4", "2",
        // sample 1: con_id symbol sec_type primary_exchange currency, 2 derivatives
        "1", "IBM", "STK", "NYSE", "USD", "2", "OPT", "FUT",
        // sample 2, no derivatives
        "2", "GE", "STK", "NYSE", "USD", "0",
    ]);
    match &d.interpret(&fields).unwrap()[0] {
        ServerRspMsg::SymbolSamples { req_id, contract_descriptions } => {
            assert_eq!(*req_id, 4);
            assert_eq!(contract_descriptions.len(), 2);
            assert_eq!(contract_descriptions[0].contract.symbol, "IBM");
            assert_eq!(contract_descriptions[0].derivative_sec_types, vec!["OPT", "FUT"]);
            assert_eq!(contract_descriptions[1].contract.symbol, "GE");
            assert!(contract_descriptions[1].derivative_sec_types.is_empty());
        },
        other => panic!("wrong message: {:?}", other),
    }
}

#[test]
fn current_time_is_a_long() {
    let d = Decoder::new(151);
    let fields = strings(&["49", "1", "1600000000"]);
    assert_eq!(d.interpret(&fields).unwrap()[0], ServerRspMsg::CurrentTime { time: 1600000000 });
}
