//! The request encoder, held to the exact wire bytes.

use twsproto::encoder::encode_request;
use twsproto::errors::Error;
use twsproto::messages::{read_fields, read_msg, DoubleValue};
use twsproto::requests::{
    ComboLegPreamble, ContractPreamble, ExecutionFilter, OrderCondition, PlaceOrderFields,
    PlaceOrderPreamble, ReqMktDataFields, ServerReqMsg, VolatilityOrder,
};

fn simple_future() -> ContractPreamble {
    ContractPreamble {
        con_id: 0,
        symbol: "ES".to_string(),
        sec_type: "FUT".to_string(),
        last_trade_date_or_contract_month: "202009".to_string(),
        strike: DoubleValue::Num("0".to_string()),
        right: String::new(),
        multiplier: String::new(),
        exchange: "GLOBEX".to_string(),
        primary_exchange: String::new(),
        currency: "USD".to_string(),
        local_symbol: String::new(),
    }
}

#[test]
fn test_req_account_summary() {
    let version = 2;
    let req_id = 100;
    let group_name = "MyGroup";
    let tags = "tag1:tag_value1, tag2:tag_value2";
    let buf = encode_request(&ServerReqMsg::ReqAccountSummary {
        version,
        req_id,
        group_name: group_name.to_string(),
        tags: tags.to_string(),
    })
    .unwrap();

    let expected: [u8; 54] = [
        0, 0, 0, 50, 54, 50, 0, 50, 0, 49, 48, 48, 0, 77, 121, 71, 114, 111, 117, 112, 0, 116,
        97, 103, 49, 58, 116, 97, 103, 95, 118, 97, 108, 117, 101, 49, 44, 32, 116, 97, 103,
        50, 58, 116, 97, 103, 95, 118, 97, 108, 117, 101, 50, 0,
    ];

    let msg_data = read_msg(buf.as_slice()).unwrap();
    let fields = read_fields(&msg_data.1);
    assert_eq!(expected.as_ref(), buf.as_slice());
    assert_eq!(62, fields[0].parse::<u8>().unwrap());
    assert_eq!(version, fields[1].parse::<i32>().unwrap());
    assert_eq!(req_id, fields[2].parse::<i32>().unwrap());
    assert_eq!(group_name, fields[3]);
    assert_eq!(tags, fields[4]);
}

#[test]
fn test_req_account_updates() {
    let version = 2;
    let subscribe = true;
    let acct_code = "D12345";
    let buf = encode_request(&ServerReqMsg::ReqAcctData {
        version,
        subscribe,
        acct_code: acct_code.to_string(),
    })
    .unwrap();

    let expected: [u8; 17] = [0, 0, 0, 13, 54, 0, 50, 0, 49, 0, 68, 49, 50, 51, 52, 53, 0];

    let msg_data = read_msg(buf.as_slice()).unwrap();
    let fields = read_fields(&msg_data.1);
    assert_eq!(expected.as_ref(), buf.as_slice());
    assert_eq!(6, fields[0].parse::<u8>().unwrap());
    assert_eq!(version, fields[1].parse::<i32>().unwrap());
    assert_eq!(subscribe as i32, fields[2].parse::<i32>().unwrap());
    assert_eq!(acct_code, fields[3]);
}

#[test]
fn test_req_account_updates_multi() {
    let version = 1;
    let req_id = 101;
    let acct_code = "D12345";
    let model_code = "ABC";
    let ledger_and_nlv = true;
    let buf = encode_request(&ServerReqMsg::ReqAccountUpdatesMulti {
        version,
        req_id,
        account: acct_code.to_string(),
        model_code: model_code.to_string(),
        ledger_and_nlv,
    })
    .unwrap();

    let expected: [u8; 26] = [
        0, 0, 0, 22, 55, 54, 0, 49, 0, 49, 48, 49, 0, 68, 49, 50, 51, 52, 53, 0, 65, 66, 67, 0,
        49, 0,
    ];

    let msg_data = read_msg(buf.as_slice()).unwrap();
    let fields = read_fields(&msg_data.1);
    assert_eq!(expected.as_ref(), buf.as_slice());
    assert_eq!(76, fields[0].parse::<u8>().unwrap());
    assert_eq!(version, fields[1].parse::<i32>().unwrap());
    assert_eq!(req_id, fields[2].parse::<i32>().unwrap());
    assert_eq!(acct_code, fields[3]);
    assert_eq!(model_code, fields[4]);
    assert_eq!(ledger_and_nlv as i32, fields[5].parse::<i32>().unwrap());
}

#[test]
fn test_req_all_open_orders() {
    let version = 1;
    let buf = encode_request(&ServerReqMsg::ReqAllOpenOrders { version }).unwrap();

    let expected: [u8; 9] = [0, 0, 0, 5, 49, 54, 0, 49, 0];

    let msg_data = read_msg(buf.as_slice()).unwrap();
    let fields = read_fields(&msg_data.1);
    assert_eq!(expected.as_ref(), buf.as_slice());
    assert_eq!(16, fields[0].parse::<u8>().unwrap());
    assert_eq!(version, fields[1].parse::<i32>().unwrap());
}

#[test]
fn test_req_auto_open_orders() {
    let version = 1;
    let auto_bind = true;
    let buf = encode_request(&ServerReqMsg::ReqAutoOpenOrders { version, auto_bind }).unwrap();

    let expected: [u8; 11] = [0, 0, 0, 7, 49, 53, 0, 49, 0, 49, 0];

    let msg_data = read_msg(buf.as_slice()).unwrap();
    let fields = read_fields(&msg_data.1);
    assert_eq!(expected.as_ref(), buf.as_slice());
    assert_eq!(15, fields[0].parse::<u8>().unwrap());
    assert_eq!(version, fields[1].parse::<i32>().unwrap());
}

#[test]
fn test_req_completed_orders() {
    let api_only = true;
    let buf = encode_request(&ServerReqMsg::ReqCompletedOrders { api_only }).unwrap();

    let expected: [u8; 9] = [0, 0, 0, 5, 57, 57, 0, 49, 0];

    let msg_data = read_msg(buf.as_slice()).unwrap();
    let fields = read_fields(&msg_data.1);
    assert_eq!(expected.as_ref(), buf.as_slice());
    assert_eq!(99, fields[0].parse::<u8>().unwrap());
    assert_eq!(api_only as i32, fields[1].parse::<i32>().unwrap());
}

#[test]
fn test_req_contract_details() {
    let version = 8;
    let req_id = 102;
    let contract = simple_future();
    let buf = encode_request(&ServerReqMsg::ReqContractData {
        version,
        req_id,
        contract: contract.clone(),
        trading_class: String::new(),
        include_expired: false,
        sec_id_type: String::new(),
        sec_id: String::new(),
    })
    .unwrap();

    let expected: [u8; 50] = [
        0, 0, 0, 46, 57, 0, 56, 0, 49, 48, 50, 0, 48, 0, 69, 83, 0, 70, 85, 84, 0, 50, 48, 50,
        48, 48, 57, 0, 48, 0, 0, 0, 71, 76, 79, 66, 69, 88, 0, 0, 85, 83, 68, 0, 0, 0, 48, 0,
        0, 0,
    ];

    let msg_data = read_msg(buf.as_slice()).unwrap();
    let fields = read_fields(&msg_data.1);
    assert_eq!(expected.as_ref(), buf.as_slice());
    assert_eq!(9, fields[0].parse::<u8>().unwrap());
    assert_eq!(version, fields[1].parse::<i32>().unwrap());
    assert_eq!(req_id, fields[2].parse::<i32>().unwrap());
    assert_eq!(contract.con_id, fields[3].parse::<i32>().unwrap());
    assert_eq!(contract.symbol, fields[4]);
    assert_eq!(contract.sec_type, fields[5]);
    assert_eq!(contract.last_trade_date_or_contract_month, fields[6]);
    match &contract.strike {
        DoubleValue::Num(s) => {
            assert_eq!(s.parse::<f64>().unwrap(), fields[7].parse::<f64>().unwrap())
        },
        DoubleValue::Unset => panic!("strike should carry a value"),
    }
    assert_eq!(contract.right, fields[8]);
    assert_eq!(contract.multiplier, fields[9]);
    assert_eq!(contract.exchange, fields[10]);
    assert_eq!(contract.primary_exchange, fields[11]);
    assert_eq!(contract.currency, fields[12]);
    assert_eq!(contract.local_symbol, fields[13]);
    assert_eq!("", fields[14]);
    assert_eq!(0, fields[15].parse::<i32>().unwrap());
    assert_eq!("", fields[16]);
    assert_eq!("", fields[17]);
}

#[test]
fn test_req_current_time() {
    let version = 2;
    let buf = encode_request(&ServerReqMsg::ReqCurrentTime { version }).unwrap();

    let expected: [u8; 9] = [0, 0, 0, 5, 52, 57, 0, 50, 0];

    let msg_data = read_msg(buf.as_slice()).unwrap();
    let fields = read_fields(&msg_data.1);
    assert_eq!(expected.as_ref(), buf.as_slice());
    assert_eq!(49, fields[0].parse::<u8>().unwrap());
    assert_eq!(version, fields[1].parse::<i32>().unwrap());
}

#[test]
fn test_req_executions() {
    let version = 3;
    let req_id = 102;
    let client_id = 0;
    let acct_code = "D54321";
    let time = "";
    let symbol = "ES";
    let sec_type = "FUT";
    let exchange = "GLOBEX";
    let side = "BUY";

    let exec_filter = ExecutionFilter {
        client_id,
        acct_code: acct_code.to_string(),
        time: time.to_string(),
        symbol: symbol.to_string(),
        sec_type: sec_type.to_string(),
        exchange: exchange.to_string(),
        side: side.to_string(),
    };
    let buf =
        encode_request(&ServerReqMsg::ReqExecutions { version, req_id, exec_filter }).unwrap();

    let expected: [u8; 40] = [
        0, 0, 0, 36, 55, 0, 51, 0, 49, 48, 50, 0, 48, 0, 68, 53, 52, 51, 50, 49, 0, 0, 69, 83,
        0, 70, 85, 84, 0, 71, 76, 79, 66, 69, 88, 0, 66, 85, 89, 0,
    ];

    let msg_data = read_msg(buf.as_slice()).unwrap();
    let fields = read_fields(&msg_data.1);
    assert_eq!(expected.as_ref(), buf.as_slice());
    assert_eq!(7, fields[0].parse::<u8>().unwrap());
    assert_eq!(version, fields[1].parse::<i32>().unwrap());
    assert_eq!(req_id, fields[2].parse::<i32>().unwrap());
    assert_eq!(client_id, fields[3].parse::<i32>().unwrap());
    assert_eq!(acct_code, fields[4]);
    assert_eq!(time, fields[5]);
    assert_eq!(symbol, fields[6]);
    assert_eq!(sec_type, fields[7]);
    assert_eq!(exchange, fields[8]);
    assert_eq!(side, fields[9]);
}

#[test]
fn unset_sentinels_encode_to_empty_fields() {
    let buf = encode_request(&ServerReqMsg::ReqCalcImpliedVolat {
        version: 2,
        req_id: 5,
        contract: simple_future(),
        trading_class: String::new(),
        option_price: DoubleValue::Unset,
        under_price: DoubleValue::Num("99.5".to_string()),
        tag_values_cnt: 0,
        impl_vol_opt: String::new(),
    })
    .unwrap();
    let msg_data = read_msg(buf.as_slice()).unwrap();
    let fields = read_fields(&msg_data.1);
    // kind, version, req_id, 11 contract fields, trading class, then prices
    assert_eq!(fields[14], "");
    assert_eq!(fields[15], "");
    assert_eq!(fields[16], "99.5");
}

#[test]
fn combo_legs_go_out_only_for_combination_contracts() {
    let mut contract = simple_future();
    let legs = vec![
        ComboLegPreamble { con_id: 1, ratio: 1, action: "BUY".to_string(), exchange: "X".to_string() },
        ComboLegPreamble { con_id: 2, ratio: 2, action: "SELL".to_string(), exchange: "X".to_string() },
    ];
    let payload = |c: ContractPreamble, legs: Vec<ComboLegPreamble>| ReqMktDataFields {
        contract: c,
        trading_class: String::new(),
        combo_legs: legs,
        delta_neutral_contract: None,
        generic_tick_list: String::new(),
        snapshot: false,
        regulatory_snapshot: false,
        mkt_data_options: String::new(),
    };

    // not a combination: the leg list stays off the wire
    let buf = encode_request(&ServerReqMsg::ReqMktData {
        version: 11,
        req_id: 1,
        payload: payload(contract.clone(), legs.clone()),
    })
    .unwrap();
    let fields = read_fields(&read_msg(buf.as_slice()).unwrap().1);
    assert_eq!(fields.len(), 20);

    // a combination: the count and each leg's fields follow the header
    contract.sec_type = "BAG".to_string();
    let buf = encode_request(&ServerReqMsg::ReqMktData {
        version: 11,
        req_id: 1,
        payload: payload(contract, legs),
    })
    .unwrap();
    let fields = read_fields(&read_msg(buf.as_slice()).unwrap().1);
    assert_eq!(fields.len(), 29);
    assert_eq!(fields[15], "2");
    assert_eq!(fields[16], "1");
    assert_eq!(fields[17], "1");
    assert_eq!(fields[18], "BUY");
    assert_eq!(fields[19], "X");
    assert_eq!(fields[20], "2");
}

#[test]
fn non_ascii_request_text_is_refused() {
    let r = encode_request(&ServerReqMsg::ReqPnl {
        req_id: 1,
        account: "caf\u{e9}".to_string(),
        model_code: String::new(),
    });
    assert_eq!(r.unwrap_err(), Error::Unsupported);
}

fn base_order_header() -> PlaceOrderPreamble {
    PlaceOrderPreamble {
        action: "BUY".to_string(),
        total_quantity: DoubleValue::Num("100".to_string()),
        order_type: "LMT".to_string(),
        lmt_price: DoubleValue::Num("1.5".to_string()),
        aux_price: DoubleValue::Unset,
        tif: "DAY".to_string(),
        oca_group: String::new(),
        account: String::new(),
        open_close: String::new(),
        origin: 0,
        order_ref: String::new(),
        transmit: true,
        parent_id: 0,
        block_order: false,
        sweep_to_fill: false,
        display_size: 0,
        trigger_method: 0,
        outside_rth: false,
        hidden: false,
    }
}

/// An ordinary order: none of the sub-field-conditional blocks applies,
/// but every gated slot holds a marker value that must then stay off the
/// wire.
fn base_place_order() -> PlaceOrderFields {
    PlaceOrderFields {
        contract: simple_future(),
        trading_class: String::new(),
        sec_id_type: String::new(),
        sec_id: String::new(),
        ord_hdr: base_order_header(),
        contract_combo_legs: Vec::new(),
        order_combo_legs: Vec::new(),
        smart_combo_routing_params: Vec::new(),
        shares_alloc_deprecated: String::new(),
        discretionary_amt: DoubleValue::Unset,
        good_after_time: String::new(),
        good_till_date: String::new(),
        fa_group: String::new(),
        fa_method: String::new(),
        fa_percentage: String::new(),
        fa_profile: String::new(),
        model_code: String::new(),
        short_sale_slot: 0,
        designated_location: String::new(),
        exempt_code: -1,
        oca_type: 0,
        rule80a: String::new(),
        settling_firm: String::new(),
        all_or_none: false,
        min_qty: twsproto::UNSET_INTEGER,
        percent_offset: DoubleValue::Unset,
        e_trade_only: true,
        firm_quote_only: true,
        nbbo_price_cap: DoubleValue::Unset,
        auction_strategy: 0,
        starting_price: DoubleValue::Unset,
        stock_ref_price: DoubleValue::Unset,
        delta: DoubleValue::Unset,
        stock_range_lower: DoubleValue::Unset,
        stock_range_upper: DoubleValue::Unset,
        override_percentage_constraints: false,
        volat: VolatilityOrder {
            volatility: DoubleValue::Unset,
            volatility_type: twsproto::UNSET_INTEGER,
            delta_neutral_order_type: String::new(),
            delta_neutral_aux_price: DoubleValue::Unset,
        },
        continuous_update: false,
        reference_price_type: twsproto::UNSET_INTEGER,
        trail_stop_price: DoubleValue::Unset,
        trailing_percent: DoubleValue::Unset,
        scale_init_level_size: twsproto::UNSET_INTEGER,
        scale_subs_level_size: twsproto::UNSET_INTEGER,
        scale_price_increment: DoubleValue::Unset,
        scale_price_adjust_value: DoubleValue::Num("42.5".to_string()),
        scale_price_adjust_interval: 7,
        scale_profit_offset: DoubleValue::Unset,
        scale_auto_reset: false,
        scale_init_position: twsproto::UNSET_INTEGER,
        scale_init_fill_qty: twsproto::UNSET_INTEGER,
        scale_random_percent: false,
        scale_table: String::new(),
        active_start_time: String::new(),
        active_stop_time: String::new(),
        hedge_type: String::new(),
        hedge_param: "HPARAM".to_string(),
        opt_out_smart_routing: false,
        clearing_account: String::new(),
        clearing_intent: String::new(),
        not_held: false,
        delta_neutral_contract: None,
        algo_strategy: String::new(),
        algo_params: vec![twsproto::messages::TagValue {
            tag: "ATAG".to_string(),
            value: "AVAL".to_string(),
        }],
        algo_id: String::new(),
        what_if: false,
        misc_options: String::new(),
        solicited: false,
        randomize_size: false,
        randomize_price: false,
        reference_contract_id: 0,
        is_pegged_change_amount_decrease: false,
        pegged_change_amount: DoubleValue::Unset,
        reference_change_amount: DoubleValue::Unset,
        reference_exchange_id: "REFX".to_string(),
        conditions: Vec::new(),
        conditions_ignore_rth: true,
        conditions_cancel_order: true,
        adjusted_order_type: String::new(),
        trigger_price: DoubleValue::Unset,
        lmt_price_offset: DoubleValue::Unset,
        adjusted_stop_price: DoubleValue::Unset,
        adjusted_stop_limit_price: DoubleValue::Unset,
        adjusted_trailing_amount: DoubleValue::Unset,
        adjustable_trailing_unit: 0,
        ext_operator: String::new(),
        soft_dollar_tier_name: String::new(),
        soft_dollar_tier_val: String::new(),
        cash_qty: DoubleValue::Unset,
        mifid2decision_maker: String::new(),
        mifid2decision_algo: String::new(),
        mifid2execution_trader: String::new(),
        mifid2execution_algo: String::new(),
        dont_use_auto_price_for_hedge: false,
        is_oms_container: false,
        discretionary_up_to_limit_price: false,
        use_price_mgmt_algo: false,
    }
}

fn place_order_fields_on_wire(payload: PlaceOrderFields) -> Vec<String> {
    let buf = encode_request(&ServerReqMsg::PlaceOrder { version: 45, order_id: 3, payload })
        .unwrap();
    read_fields(&read_msg(buf.as_slice()).unwrap().1)
}

#[test]
fn place_order_ordinary_omits_conditional_blocks() {
    // no algo, no benchmark peg, no conditions, no scale increment, no
    // hedge: none of the gated blocks goes on the wire
    let fields = place_order_fields_on_wire(base_place_order());
    assert_eq!(fields.len(), 111);
    for marker in ["42.5", "HPARAM", "ATAG", "REFX"] {
        assert!(!fields.iter().any(|f| f == marker));
    }
    // the two condition flags do not follow an empty condition list either:
    // the list's zero count is directly followed by the adjusted order type
    let cond_count_idx = 111 - 19 - 1;
    assert_eq!(fields[cond_count_idx], "0");
}

#[test]
fn place_order_emits_conditional_blocks_when_active() {
    let mut payload = base_place_order();
    payload.scale_price_increment = DoubleValue::Num("0.25".to_string());
    payload.hedge_type = "D".to_string();
    payload.algo_strategy = "Adaptive".to_string();
    payload.ord_hdr.order_type = "PEG BENCH".to_string();
    payload.conditions = vec![OrderCondition {
        cond_type: 1,
        params: vec!["a".to_string(), "o".to_string()],
    }];
    let fields = place_order_fields_on_wire(payload);
    // + scale block (7) + hedge param (1) + algo list (1 count + 2)
    // + benchmark block (5) + one condition (1 kind + 2) + flags (2)
    assert_eq!(fields.len(), 111 + 7 + 1 + 3 + 5 + 3 + 2);
    for marker in ["42.5", "HPARAM", "ATAG", "AVAL", "REFX"] {
        assert!(fields.iter().any(|f| f == marker), "missing {}", marker);
    }
}

#[test]
fn place_order_negative_scale_increment_stays_inactive() {
    // a negative or zero increment does not open the scale-adjust block
    for inc in ["-0.25", "0", "0.0"] {
        let mut payload = base_place_order();
        payload.scale_price_increment = DoubleValue::Num(inc.to_string());
        let fields = place_order_fields_on_wire(payload);
        assert_eq!(fields.len(), 111);
        assert!(!fields.iter().any(|f| f == "42.5"));
    }
}
