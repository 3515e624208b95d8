//! The request encoder: build an ordered field list from a typed request —
//! the outbound kind id first, then the kind's fixed version tag where it
//! carries one, then the request's own fields in schema order — and frame it.

use vstd::prelude::*;
use vstd::seq_lib::*;
use vstd::string::StringSliceAdditionalSpecFns;

use crate::errors::Error;
use crate::messages::fields_view;
use crate::messages::frame_of;
use crate::messages::join_spec;
use crate::messages::make_message;
use crate::messages::DoubleValue;
use crate::messages::TagValue;
use crate::numtext::dec_text;
use crate::numtext::int_text_of;
use crate::requests::ComboLeg;
use crate::requests::ComboLegPreamble;
use crate::requests::ContractPreamble;
use crate::requests::DeltaNeutralData;
use crate::requests::ExecutionFilter;
use crate::requests::OrderComboLeg;
use crate::requests::OrderCondition;
use crate::requests::PlaceOrderFields;
use crate::requests::PlaceOrderPreamble;
use crate::requests::ReqMktDataFields;
use crate::requests::ScannerSubscription;
use crate::requests::ServerReqMsg;
use crate::requests::VolatilityOrder;
use crate::UNSET_INTEGER;

verus! {

// ------------------------------------------------------------------
// How single values encode as fields
// ------------------------------------------------------------------

/// An integer field; the unset sentinel encodes to an empty field.
pub open spec fn i32f(v: i32) -> Seq<char> {
    if v == UNSET_INTEGER {
        Seq::empty()
    } else {
        int_text_of(v as int)
    }
}

/// A boolean field: "1" or "0".
pub open spec fn boolf(b: bool) -> Seq<char> {
    if b {
        seq!['1']
    } else {
        seq!['0']
    }
}

/// A floating field: its text, or an empty field for the unset sentinel.
pub open spec fn dblf(d: DoubleValue) -> Seq<char> {
    match d {
        DoubleValue::Unset => Seq::empty(),
        DoubleValue::Num(s) => s@,
    }
}

// ------------------------------------------------------------------
// A verified field-list builder
// ------------------------------------------------------------------

/// An ordered field list under construction.
pub struct FieldList {
    pub fields: Vec<String>,
}

impl FieldList {
    pub open spec fn view(&self) -> Seq<Seq<char>> {
        fields_view(self.fields@)
    }

    pub fn new() -> (r: FieldList)
        ensures
            r@ == Seq::<Seq<char>>::empty(),
    {
        let r = FieldList { fields: Vec::new() };
        proof {
            assert(r@ =~~= Seq::<Seq<char>>::empty());
        }
        r
    }

    pub fn add_string(&mut self, s: String)
        ensures
            final(self)@ == old(self)@.push(s@),
    {
        let ghost sv = s@;
        self.fields.push(s);
        proof {
            assert(final(self)@ =~~= old(self)@.push(sv));
        }
    }

    pub fn add_str(&mut self, s: &String)
        ensures
            final(self)@ == old(self)@.push(s@),
    {
        self.add_string(s.clone());
    }

    pub fn add_i32(&mut self, v: i32)
        ensures
            final(self)@ == old(self)@.push(i32f(v)),
    {
        if v == UNSET_INTEGER {
            self.add_string(String::new());
        } else {
            self.add_string(crate::numtext::i32_text(v));
        }
    }

    pub fn add_count(&mut self, n: usize)
        ensures
            final(self)@ == old(self)@.push(dec_text(n as nat)),
    {
        self.add_string(crate::numtext::u64_text(n as u64));
    }

    pub fn add_bool(&mut self, b: bool)
        ensures
            final(self)@ == old(self)@.push(boolf(b)),
    {
        proof {
            reveal_strlit("1");
            reveal_strlit("0");
            assert("1"@ =~= seq!['1']);
            assert("0"@ =~= seq!['0']);
        }
        if b {
            self.add_string(String::from_str("1"));
        } else {
            self.add_string(String::from_str("0"));
        }
    }

    pub fn add_dbl(&mut self, d: &DoubleValue)
        ensures
            final(self)@ == old(self)@.push(dblf(*d)),
    {
        match d {
            DoubleValue::Unset => self.add_string(String::new()),
            DoubleValue::Num(s) => self.add_str(s),
        }
    }
}

// ------------------------------------------------------------------
// Field lists of the domain blocks
// ------------------------------------------------------------------

pub open spec fn contract_preamble_fields(c: ContractPreamble) -> Seq<Seq<char>> {
    seq![
        i32f(c.con_id),
        c.symbol@,
        c.sec_type@,
        c.last_trade_date_or_contract_month@,
        dblf(c.strike),
        c.right@,
        c.multiplier@,
        c.exchange@,
        c.primary_exchange@,
        c.currency@,
        c.local_symbol@,
    ]
}

pub open spec fn execution_filter_fields(f: ExecutionFilter) -> Seq<Seq<char>> {
    seq![
        i32f(f.client_id),
        f.acct_code@,
        f.time@,
        f.symbol@,
        f.sec_type@,
        f.exchange@,
        f.side@,
    ]
}

pub open spec fn scanner_subscription_fields(s: ScannerSubscription) -> Seq<Seq<char>> {
    seq![
        i32f(s.number_of_rows),
        s.instrument@,
        s.location_code@,
        s.scan_code@,
        dblf(s.above_price),
        dblf(s.below_price),
        i32f(s.above_volume),
        dblf(s.market_cap_above),
        dblf(s.market_cap_below),
        s.moody_rating_above@,
        s.moody_rating_below@,
        s.sp_rating_above@,
        s.sp_rating_below@,
        s.maturity_date_above@,
        s.maturity_date_below@,
        dblf(s.coupon_rate_above),
        dblf(s.coupon_rate_below),
        boolf(s.exclude_convertible),
        i32f(s.average_option_volume_above),
        s.scanner_setting_pairs@,
        s.stock_type_filter@,
    ]
}

pub open spec fn combo_leg_preamble_fields(l: ComboLegPreamble) -> Seq<Seq<char>> {
    seq![i32f(l.con_id), i32f(l.ratio), l.action@, l.exchange@]
}

pub open spec fn combo_leg_fields(l: ComboLeg) -> Seq<Seq<char>> {
    seq![
        i32f(l.con_id),
        i32f(l.ratio),
        l.action@,
        l.exchange@,
        i32f(l.open_close),
        i32f(l.short_sale_slot),
        l.designated_location@,
        i32f(l.exempt_code),
    ]
}

pub open spec fn order_combo_leg_fields(l: OrderComboLeg) -> Seq<Seq<char>> {
    seq![dblf(l.price)]
}

pub open spec fn tag_value_fields(t: TagValue) -> Seq<Seq<char>> {
    seq![t.tag@, t.value@]
}

pub open spec fn order_condition_fields(c: OrderCondition) -> Seq<Seq<char>> {
    seq![i32f(c.cond_type)] + fields_view(c.params@)
}

/// A list block: its length, then each element's fields.
pub open spec fn counted<T>(ls: Seq<T>, f: spec_fn(T) -> Seq<Seq<char>>) -> Seq<Seq<char>> {
    seq![dec_text(ls.len())] + ls.flat_map(f)
}

/// An optional delta-neutral block: a presence flag, then its fields.
pub open spec fn delta_neutral_fields(o: Option<DeltaNeutralData>) -> Seq<Seq<char>> {
    match o {
        Option::None => seq![boolf(false)],
        Option::Some(d) => seq![boolf(true), i32f(d.con_id), dblf(d.delta), dblf(d.price)],
    }
}

pub open spec fn order_preamble_fields(h: PlaceOrderPreamble) -> Seq<Seq<char>> {
    seq![
        h.action@,
        dblf(h.total_quantity),
        h.order_type@,
        dblf(h.lmt_price),
        dblf(h.aux_price),
        h.tif@,
        h.oca_group@,
        h.account@,
        h.open_close@,
        i32f(h.origin),
        h.order_ref@,
        boolf(h.transmit),
        i32f(h.parent_id),
        boolf(h.block_order),
        boolf(h.sweep_to_fill),
        i32f(h.display_size),
        i32f(h.trigger_method),
        boolf(h.outside_rth),
        boolf(h.hidden),
    ]
}

pub open spec fn volatility_order_fields(v: VolatilityOrder) -> Seq<Seq<char>> {
    seq![
        dblf(v.volatility),
        i32f(v.volatility_type),
        v.delta_neutral_order_type@,
        dblf(v.delta_neutral_aux_price),
    ]
}

/// Whether a contract is a combination: its leg lists go on the wire only
/// then.
pub open spec fn is_combo(c: ContractPreamble) -> bool {
    c.sec_type@ == "BAG"@
}

pub open spec fn mkt_data_payload_fields(p: ReqMktDataFields) -> Seq<Seq<char>> {
    contract_preamble_fields(p.contract) + seq![p.trading_class@] + (if is_combo(p.contract) {
        counted(p.combo_legs@, |l: ComboLegPreamble| combo_leg_preamble_fields(l))
    } else {
        Seq::empty()
    }) + delta_neutral_fields(p.delta_neutral_contract) + seq![
        p.generic_tick_list@,
        boolf(p.snapshot),
        boolf(p.regulatory_snapshot),
        p.mkt_data_options@,
    ]
}

pub open spec fn po_scalars1(p: PlaceOrderFields) -> Seq<Seq<char>> {
    seq![
        p.shares_alloc_deprecated@,
        dblf(p.discretionary_amt),
        p.good_after_time@,
        p.good_till_date@,
        p.fa_group@,
        p.fa_method@,
        p.fa_percentage@,
        p.fa_profile@,
        p.model_code@,
        i32f(p.short_sale_slot),
        p.designated_location@,
        i32f(p.exempt_code),
        i32f(p.oca_type),
        p.rule80a@,
        p.settling_firm@,
        boolf(p.all_or_none),
        i32f(p.min_qty),
        dblf(p.percent_offset),
        boolf(p.e_trade_only),
        boolf(p.firm_quote_only),
        dblf(p.nbbo_price_cap),
        i32f(p.auction_strategy),
        dblf(p.starting_price),
        dblf(p.stock_ref_price),
        dblf(p.delta),
        dblf(p.stock_range_lower),
        dblf(p.stock_range_upper),
        boolf(p.override_percentage_constraints),
    ]
}

pub open spec fn po_scalars2a(p: PlaceOrderFields) -> Seq<Seq<char>> {
    seq![
        boolf(p.continuous_update),
        i32f(p.reference_price_type),
        dblf(p.trail_stop_price),
        dblf(p.trailing_percent),
        i32f(p.scale_init_level_size),
        i32f(p.scale_subs_level_size),
        dblf(p.scale_price_increment),
    ]
}

/// A floating field holding well-formed text that denotes a positive value.
pub open spec fn dbl_positive(d: DoubleValue) -> bool {
    match d {
        DoubleValue::Unset => false,
        DoubleValue::Num(s) => crate::numtext::is_float_text(s@) && !crate::numtext::float_text_zero(
            s@,
        ) && !crate::numtext::int_text_neg(s@),
    }
}

/// The scale-adjust block goes on the wire only under a positive scale
/// price increment.
pub open spec fn po_scale_adjust(p: PlaceOrderFields) -> Seq<Seq<char>> {
    if dbl_positive(p.scale_price_increment) {
        seq![
            dblf(p.scale_price_adjust_value),
            i32f(p.scale_price_adjust_interval),
            dblf(p.scale_profit_offset),
            boolf(p.scale_auto_reset),
            i32f(p.scale_init_position),
            i32f(p.scale_init_fill_qty),
            boolf(p.scale_random_percent),
        ]
    } else {
        Seq::empty()
    }
}

/// The hedge parameter follows the hedge type only when a hedge type is
/// given.
pub open spec fn po_scalars2b(p: PlaceOrderFields) -> Seq<Seq<char>> {
    seq![p.scale_table@, p.active_start_time@, p.active_stop_time@, p.hedge_type@] + (
    if p.hedge_type@.len() > 0 {
        seq![p.hedge_param@]
    } else {
        Seq::empty()
    }) + seq![
        boolf(p.opt_out_smart_routing),
        p.clearing_account@,
        p.clearing_intent@,
        boolf(p.not_held),
    ]
}

/// The algo parameter list goes on the wire only when an algo strategy is
/// given.
pub open spec fn po_algo_block(p: PlaceOrderFields) -> Seq<Seq<char>> {
    seq![p.algo_strategy@] + (if p.algo_strategy@.len() > 0 {
        counted(p.algo_params@, |t: TagValue| tag_value_fields(t))
    } else {
        Seq::empty()
    })
}

pub open spec fn po_scalars3a(p: PlaceOrderFields) -> Seq<Seq<char>> {
    seq![
        p.algo_id@,
        boolf(p.what_if),
        p.misc_options@,
        boolf(p.solicited),
        boolf(p.randomize_size),
        boolf(p.randomize_price),
    ]
}

/// The pegged-to-benchmark block goes on the wire only for that order type.
pub open spec fn po_peg_bench(p: PlaceOrderFields) -> Seq<Seq<char>> {
    if p.ord_hdr.order_type@ == "PEG BENCH"@ {
        seq![
            i32f(p.reference_contract_id),
            boolf(p.is_pegged_change_amount_decrease),
            dblf(p.pegged_change_amount),
            dblf(p.reference_change_amount),
            p.reference_exchange_id@,
        ]
    } else {
        Seq::empty()
    }
}

/// The two condition flags follow the condition list only when it is
/// nonempty.
pub open spec fn po_condition_flags(p: PlaceOrderFields) -> Seq<Seq<char>> {
    if p.conditions@.len() > 0 {
        seq![boolf(p.conditions_ignore_rth), boolf(p.conditions_cancel_order)]
    } else {
        Seq::empty()
    }
}

pub open spec fn po_scalars4(p: PlaceOrderFields) -> Seq<Seq<char>> {
    seq![
        p.adjusted_order_type@,
        dblf(p.trigger_price),
        dblf(p.lmt_price_offset),
        dblf(p.adjusted_stop_price),
        dblf(p.adjusted_stop_limit_price),
        dblf(p.adjusted_trailing_amount),
        i32f(p.adjustable_trailing_unit),
        p.ext_operator@,
        p.soft_dollar_tier_name@,
        p.soft_dollar_tier_val@,
        dblf(p.cash_qty),
        p.mifid2decision_maker@,
        p.mifid2decision_algo@,
        p.mifid2execution_trader@,
        p.mifid2execution_algo@,
        boolf(p.dont_use_auto_price_for_hedge),
        boolf(p.is_oms_container),
        boolf(p.discretionary_up_to_limit_price),
        boolf(p.use_price_mgmt_algo),
    ]
}

pub open spec fn po_combo_block(p: PlaceOrderFields) -> Seq<Seq<char>> {
    if is_combo(p.contract) {
        counted(p.contract_combo_legs@, |l: ComboLeg| combo_leg_fields(l)) + counted(
            p.order_combo_legs@,
            |l: OrderComboLeg| order_combo_leg_fields(l),
        ) + counted(p.smart_combo_routing_params@, |t: TagValue| tag_value_fields(t))
    } else {
        Seq::empty()
    }
}

pub open spec fn po_head(p: PlaceOrderFields) -> Seq<Seq<char>> {
    contract_preamble_fields(p.contract) + seq![p.trading_class@, p.sec_id_type@, p.sec_id@]
        + order_preamble_fields(p.ord_hdr) + po_combo_block(p) + po_scalars1(p)
        + volatility_order_fields(p.volat) + po_scalars2a(p) + po_scale_adjust(p) + po_scalars2b(p)
}

pub open spec fn po_tail(p: PlaceOrderFields) -> Seq<Seq<char>> {
    delta_neutral_fields(p.delta_neutral_contract) + po_algo_block(p) + po_scalars3a(p)
        + po_peg_bench(p) + counted(p.conditions@, |c: OrderCondition| order_condition_fields(c))
        + po_condition_flags(p) + po_scalars4(p)
}

pub open spec fn place_order_payload_fields(p: PlaceOrderFields) -> Seq<Seq<char>> {
    po_head(p) + po_tail(p)
}

// ------------------------------------------------------------------
// Builders for the domain blocks
// ------------------------------------------------------------------

fn is_bag(sec_type: &String) -> (r: bool)
    ensures
        r == (sec_type@ == "BAG"@),
{
    let bag = String::from_str("BAG");
    sec_type.eq(&bag)
}

fn is_peg_bench(order_type: &String) -> (r: bool)
    ensures
        r == (order_type@ == "PEG BENCH"@),
{
    let peg = String::from_str("PEG BENCH");
    order_type.eq(&peg)
}

fn dbl_positive_exec(d: &DoubleValue) -> (r: bool)
    ensures
        r == dbl_positive(*d),
{
    match d {
        DoubleValue::Unset => false,
        DoubleValue::Num(s) => {
            if !crate::numtext::is_float_text_exec(s.as_str()) {
                false
            } else if crate::numtext::float_text_zero_exec(s.as_str()) {
                false
            } else {
                let neg = s.as_str().unicode_len() > 0 && s.as_str().get_char(0) == '-';
                !neg
            }
        },
    }
}

impl FieldList {
    fn add_contract_preamble(&mut self, c: &ContractPreamble)
        ensures
            final(self)@ == old(self)@ + contract_preamble_fields(*c),
    {
        self.add_i32(c.con_id);
        self.add_str(&c.symbol);
        self.add_str(&c.sec_type);
        self.add_str(&c.last_trade_date_or_contract_month);
        self.add_dbl(&c.strike);
        self.add_str(&c.right);
        self.add_str(&c.multiplier);
        self.add_str(&c.exchange);
        self.add_str(&c.primary_exchange);
        self.add_str(&c.currency);
        self.add_str(&c.local_symbol);
        proof {
            assert(final(self)@ =~~= old(self)@ + contract_preamble_fields(*c));
        }
    }

    fn add_delta_neutral(&mut self, o: &Option<DeltaNeutralData>)
        ensures
            final(self)@ == old(self)@ + delta_neutral_fields(*o),
    {
        match o {
            Option::None => {
                self.add_bool(false);
                proof {
                    assert(final(self)@ =~~= old(self)@ + delta_neutral_fields(*o));
                }
            },
            Option::Some(d) => {
                self.add_bool(true);
                self.add_i32(d.con_id);
                self.add_dbl(&d.delta);
                self.add_dbl(&d.price);
                proof {
                    assert(final(self)@ =~~= old(self)@ + delta_neutral_fields(*o));
                }
            },
        }
    }

    fn add_combo_leg_preambles(&mut self, ls: &Vec<ComboLegPreamble>)
        ensures
            final(self)@ == old(self)@ + counted(
                ls@,
                |l: ComboLegPreamble| combo_leg_preamble_fields(l),
            ),
    {
        let ghost f = |l: ComboLegPreamble| combo_leg_preamble_fields(l);
        self.add_count(ls.len());
        let mut k: usize = 0;
        proof {
            assert(ls@.take(0).flat_map(f) =~~= Seq::<Seq<char>>::empty());
        }
        while k < ls.len()
            invariant
                k <= ls@.len(),
                self@ =~~= old(self)@ + seq![dec_text(ls@.len())] + ls@.take(k as int).flat_map(
                    |l: ComboLegPreamble| combo_leg_preamble_fields(l),
                ),
            decreases ls@.len() - k,
        {
            let l = &ls[k];
            self.add_i32(l.con_id);
            self.add_i32(l.ratio);
            self.add_str(&l.action);
            self.add_str(&l.exchange);
            proof {
                ls@.lemma_flat_map_take_append(
                    |l: ComboLegPreamble| combo_leg_preamble_fields(l),
                    k as int,
                );
            }
            k = k + 1;
        }
        proof {
            assert(ls@.take(ls@.len() as int) =~~= ls@);
            assert(final(self)@ =~~= old(self)@ + counted(
                ls@,
                |l: ComboLegPreamble| combo_leg_preamble_fields(l),
            ));
        }
    }

    fn add_combo_legs(&mut self, ls: &Vec<ComboLeg>)
        ensures
            final(self)@ == old(self)@ + counted(ls@, |l: ComboLeg| combo_leg_fields(l)),
    {
        self.add_count(ls.len());
        let mut k: usize = 0;
        proof {
            assert(ls@.take(0).flat_map(|l: ComboLeg| combo_leg_fields(l)) =~~= Seq::<
                Seq<char>,
            >::empty());
        }
        while k < ls.len()
            invariant
                k <= ls@.len(),
                self@ =~~= old(self)@ + seq![dec_text(ls@.len())] + ls@.take(k as int).flat_map(
                    |l: ComboLeg| combo_leg_fields(l),
                ),
            decreases ls@.len() - k,
        {
            let l = &ls[k];
            self.add_i32(l.con_id);
            self.add_i32(l.ratio);
            self.add_str(&l.action);
            self.add_str(&l.exchange);
            self.add_i32(l.open_close);
            self.add_i32(l.short_sale_slot);
            self.add_str(&l.designated_location);
            self.add_i32(l.exempt_code);
            proof {
                ls@.lemma_flat_map_take_append(|l: ComboLeg| combo_leg_fields(l), k as int);
            }
            k = k + 1;
        }
        proof {
            assert(ls@.take(ls@.len() as int) =~~= ls@);
            assert(final(self)@ =~~= old(self)@ + counted(ls@, |l: ComboLeg| combo_leg_fields(l)));
        }
    }

    fn add_order_combo_legs(&mut self, ls: &Vec<OrderComboLeg>)
        ensures
            final(self)@ == old(self)@ + counted(ls@, |l: OrderComboLeg| order_combo_leg_fields(l)),
    {
        self.add_count(ls.len());
        let mut k: usize = 0;
        proof {
            assert(ls@.take(0).flat_map(|l: OrderComboLeg| order_combo_leg_fields(l)) =~~= Seq::<
                Seq<char>,
            >::empty());
        }
        while k < ls.len()
            invariant
                k <= ls@.len(),
                self@ =~~= old(self)@ + seq![dec_text(ls@.len())] + ls@.take(k as int).flat_map(
                    |l: OrderComboLeg| order_combo_leg_fields(l),
                ),
            decreases ls@.len() - k,
        {
            let l = &ls[k];
            self.add_dbl(&l.price);
            proof {
                ls@.lemma_flat_map_take_append(
                    |l: OrderComboLeg| order_combo_leg_fields(l),
                    k as int,
                );
            }
            k = k + 1;
        }
        proof {
            assert(ls@.take(ls@.len() as int) =~~= ls@);
            assert(final(self)@ =~~= old(self)@ + counted(
                ls@,
                |l: OrderComboLeg| order_combo_leg_fields(l),
            ));
        }
    }

    fn add_tag_values(&mut self, ls: &Vec<TagValue>)
        ensures
            final(self)@ == old(self)@ + counted(ls@, |t: TagValue| tag_value_fields(t)),
    {
        self.add_count(ls.len());
        let mut k: usize = 0;
        proof {
            assert(ls@.take(0).flat_map(|t: TagValue| tag_value_fields(t)) =~~= Seq::<
                Seq<char>,
            >::empty());
        }
        while k < ls.len()
            invariant
                k <= ls@.len(),
                self@ =~~= old(self)@ + seq![dec_text(ls@.len())] + ls@.take(k as int).flat_map(
                    |t: TagValue| tag_value_fields(t),
                ),
            decreases ls@.len() - k,
        {
            let t = &ls[k];
            self.add_str(&t.tag);
            self.add_str(&t.value);
            proof {
                ls@.lemma_flat_map_take_append(|t: TagValue| tag_value_fields(t), k as int);
            }
            k = k + 1;
        }
        proof {
            assert(ls@.take(ls@.len() as int) =~~= ls@);
            assert(final(self)@ =~~= old(self)@ + counted(ls@, |t: TagValue| tag_value_fields(t)));
        }
    }

    fn add_conditions(&mut self, ls: &Vec<OrderCondition>)
        ensures
            final(self)@ == old(self)@ + counted(ls@, |c: OrderCondition| order_condition_fields(c)),
    {
        self.add_count(ls.len());
        let mut k: usize = 0;
        proof {
            assert(ls@.take(0).flat_map(|c: OrderCondition| order_condition_fields(c)) =~~= Seq::<
                Seq<char>,
            >::empty());
        }
        while k < ls.len()
            invariant
                k <= ls@.len(),
                self@ =~~= old(self)@ + seq![dec_text(ls@.len())] + ls@.take(k as int).flat_map(
                    |c: OrderCondition| order_condition_fields(c),
                ),
            decreases ls@.len() - k,
        {
            let c = &ls[k];
            self.add_i32(c.cond_type);
            let mut j: usize = 0;
            let ghost mid = self@;
            while j < c.params.len()
                invariant
                    j <= c.params@.len(),
                    self@ =~~= mid + fields_view(c.params@.take(j as int)),
                decreases c.params@.len() - j,
            {
                self.add_str(&c.params[j]);
                proof {
                    assert(fields_view(c.params@.take(j + 1)) =~~= fields_view(
                        c.params@.take(j as int),
                    ).push(c.params@[j as int]@));
                }
                j = j + 1;
            }
            proof {
                assert(c.params@.take(c.params@.len() as int) =~~= c.params@);
                ls@.lemma_flat_map_take_append(
                    |c: OrderCondition| order_condition_fields(c),
                    k as int,
                );
                assert(order_condition_fields(ls@[k as int]) =~~= seq![i32f(c.cond_type)]
                    + fields_view(c.params@));
            }
            k = k + 1;
        }
        proof {
            assert(ls@.take(ls@.len() as int) =~~= ls@);
            assert(final(self)@ =~~= old(self)@ + counted(
                ls@,
                |c: OrderCondition| order_condition_fields(c),
            ));
        }
    }

    fn add_execution_filter(&mut self, f: &ExecutionFilter)
        ensures
            final(self)@ == old(self)@ + execution_filter_fields(*f),
    {
        self.add_i32(f.client_id);
        self.add_str(&f.acct_code);
        self.add_str(&f.time);
        self.add_str(&f.symbol);
        self.add_str(&f.sec_type);
        self.add_str(&f.exchange);
        self.add_str(&f.side);
        proof {
            assert(final(self)@ =~~= old(self)@ + execution_filter_fields(*f));
        }
    }

    fn add_scanner_subscription(&mut self, s: &ScannerSubscription)
        ensures
            final(self)@ == old(self)@ + scanner_subscription_fields(*s),
    {
        self.add_i32(s.number_of_rows);
        self.add_str(&s.instrument);
        self.add_str(&s.location_code);
        self.add_str(&s.scan_code);
        self.add_dbl(&s.above_price);
        self.add_dbl(&s.below_price);
        self.add_i32(s.above_volume);
        self.add_dbl(&s.market_cap_above);
        self.add_dbl(&s.market_cap_below);
        self.add_str(&s.moody_rating_above);
        self.add_str(&s.moody_rating_below);
        self.add_str(&s.sp_rating_above);
        self.add_str(&s.sp_rating_below);
        self.add_str(&s.maturity_date_above);
        self.add_str(&s.maturity_date_below);
        self.add_dbl(&s.coupon_rate_above);
        self.add_dbl(&s.coupon_rate_below);
        self.add_bool(s.exclude_convertible);
        self.add_i32(s.average_option_volume_above);
        self.add_str(&s.scanner_setting_pairs);
        self.add_str(&s.stock_type_filter);
        proof {
            assert(final(self)@ =~~= old(self)@ + scanner_subscription_fields(*s));
        }
    }

    fn add_order_preamble(&mut self, h: &PlaceOrderPreamble)
        ensures
            final(self)@ == old(self)@ + order_preamble_fields(*h),
    {
        self.add_str(&h.action);
        self.add_dbl(&h.total_quantity);
        self.add_str(&h.order_type);
        self.add_dbl(&h.lmt_price);
        self.add_dbl(&h.aux_price);
        self.add_str(&h.tif);
        self.add_str(&h.oca_group);
        self.add_str(&h.account);
        self.add_str(&h.open_close);
        self.add_i32(h.origin);
        self.add_str(&h.order_ref);
        self.add_bool(h.transmit);
        self.add_i32(h.parent_id);
        self.add_bool(h.block_order);
        self.add_bool(h.sweep_to_fill);
        self.add_i32(h.display_size);
        self.add_i32(h.trigger_method);
        self.add_bool(h.outside_rth);
        self.add_bool(h.hidden);
        proof {
            assert(final(self)@ =~~= old(self)@ + order_preamble_fields(*h));
        }
    }

    #[verifier::rlimit(100)]
    fn add_mkt_data_payload(&mut self, p: &ReqMktDataFields)
        ensures
            final(self)@ == old(self)@ + mkt_data_payload_fields(*p),
    {
        self.add_contract_preamble(&p.contract);
        self.add_str(&p.trading_class);
        if is_bag(&p.contract.sec_type) {
            self.add_combo_leg_preambles(&p.combo_legs);
        }
        self.add_delta_neutral(&p.delta_neutral_contract);
        self.add_str(&p.generic_tick_list);
        self.add_bool(p.snapshot);
        self.add_bool(p.regulatory_snapshot);
        self.add_str(&p.mkt_data_options);
        proof {
            assert(final(self)@ =~~= old(self)@ + mkt_data_payload_fields(*p));
        }
    }

    fn add_po_scalars1(&mut self, p: &PlaceOrderFields)
        ensures
            final(self)@ == old(self)@ + po_scalars1(*p),
    {
        self.add_str(&p.shares_alloc_deprecated);
        self.add_dbl(&p.discretionary_amt);
        self.add_str(&p.good_after_time);
        self.add_str(&p.good_till_date);
        self.add_str(&p.fa_group);
        self.add_str(&p.fa_method);
        self.add_str(&p.fa_percentage);
        self.add_str(&p.fa_profile);
        self.add_str(&p.model_code);
        self.add_i32(p.short_sale_slot);
        self.add_str(&p.designated_location);
        self.add_i32(p.exempt_code);
        self.add_i32(p.oca_type);
        self.add_str(&p.rule80a);
        self.add_str(&p.settling_firm);
        self.add_bool(p.all_or_none);
        self.add_i32(p.min_qty);
        self.add_dbl(&p.percent_offset);
        self.add_bool(p.e_trade_only);
        self.add_bool(p.firm_quote_only);
        self.add_dbl(&p.nbbo_price_cap);
        self.add_i32(p.auction_strategy);
        self.add_dbl(&p.starting_price);
        self.add_dbl(&p.stock_ref_price);
        self.add_dbl(&p.delta);
        self.add_dbl(&p.stock_range_lower);
        self.add_dbl(&p.stock_range_upper);
        self.add_bool(p.override_percentage_constraints);
        proof {
            assert(final(self)@ =~~= old(self)@ + po_scalars1(*p));
        }
    }

    fn add_po_scalars2a(&mut self, p: &PlaceOrderFields)
        ensures
            final(self)@ == old(self)@ + po_scalars2a(*p),
    {
        self.add_bool(p.continuous_update);
        self.add_i32(p.reference_price_type);
        self.add_dbl(&p.trail_stop_price);
        self.add_dbl(&p.trailing_percent);
        self.add_i32(p.scale_init_level_size);
        self.add_i32(p.scale_subs_level_size);
        self.add_dbl(&p.scale_price_increment);
        proof {
            assert(final(self)@ =~~= old(self)@ + po_scalars2a(*p));
        }
    }

    fn add_po_scale_adjust(&mut self, p: &PlaceOrderFields)
        ensures
            final(self)@ == old(self)@ + po_scale_adjust(*p),
    {
        if dbl_positive_exec(&p.scale_price_increment) {
            self.add_dbl(&p.scale_price_adjust_value);
            self.add_i32(p.scale_price_adjust_interval);
            self.add_dbl(&p.scale_profit_offset);
            self.add_bool(p.scale_auto_reset);
            self.add_i32(p.scale_init_position);
            self.add_i32(p.scale_init_fill_qty);
            self.add_bool(p.scale_random_percent);
            proof {
                assert(final(self)@ =~~= old(self)@ + po_scale_adjust(*p));
            }
        } else {
            proof {
                assert(final(self)@ =~~= old(self)@ + po_scale_adjust(*p));
            }
        }
    }

    fn add_po_scalars2b(&mut self, p: &PlaceOrderFields)
        ensures
            final(self)@ == old(self)@ + po_scalars2b(*p),
    {
        self.add_str(&p.scale_table);
        self.add_str(&p.active_start_time);
        self.add_str(&p.active_stop_time);
        self.add_str(&p.hedge_type);
        if !p.hedge_type.as_str().is_empty() {
            self.add_str(&p.hedge_param);
        }
        self.add_bool(p.opt_out_smart_routing);
        self.add_str(&p.clearing_account);
        self.add_str(&p.clearing_intent);
        self.add_bool(p.not_held);
        proof {
            assert(final(self)@ =~~= old(self)@ + po_scalars2b(*p));
        }
    }

    fn add_po_algo_block(&mut self, p: &PlaceOrderFields)
        ensures
            final(self)@ == old(self)@ + po_algo_block(*p),
    {
        self.add_str(&p.algo_strategy);
        if !p.algo_strategy.as_str().is_empty() {
            self.add_tag_values(&p.algo_params);
        }
        proof {
            assert(final(self)@ =~~= old(self)@ + po_algo_block(*p));
        }
    }

    fn add_po_scalars3a(&mut self, p: &PlaceOrderFields)
        ensures
            final(self)@ == old(self)@ + po_scalars3a(*p),
    {
        self.add_str(&p.algo_id);
        self.add_bool(p.what_if);
        self.add_str(&p.misc_options);
        self.add_bool(p.solicited);
        self.add_bool(p.randomize_size);
        self.add_bool(p.randomize_price);
        proof {
            assert(final(self)@ =~~= old(self)@ + po_scalars3a(*p));
        }
    }

    fn add_po_peg_bench(&mut self, p: &PlaceOrderFields)
        ensures
            final(self)@ == old(self)@ + po_peg_bench(*p),
    {
        if is_peg_bench(&p.ord_hdr.order_type) {
            self.add_i32(p.reference_contract_id);
            self.add_bool(p.is_pegged_change_amount_decrease);
            self.add_dbl(&p.pegged_change_amount);
            self.add_dbl(&p.reference_change_amount);
            self.add_str(&p.reference_exchange_id);
            proof {
                assert(final(self)@ =~~= old(self)@ + po_peg_bench(*p));
            }
        } else {
            proof {
                assert(final(self)@ =~~= old(self)@ + po_peg_bench(*p));
            }
        }
    }

    fn add_po_condition_flags(&mut self, p: &PlaceOrderFields)
        ensures
            final(self)@ == old(self)@ + po_condition_flags(*p),
    {
        if p.conditions.len() > 0 {
            self.add_bool(p.conditions_ignore_rth);
            self.add_bool(p.conditions_cancel_order);
            proof {
                assert(final(self)@ =~~= old(self)@ + po_condition_flags(*p));
            }
        } else {
            proof {
                assert(final(self)@ =~~= old(self)@ + po_condition_flags(*p));
            }
        }
    }

    fn add_po_scalars4(&mut self, p: &PlaceOrderFields)
        ensures
            final(self)@ == old(self)@ + po_scalars4(*p),
    {
        self.add_str(&p.adjusted_order_type);
        self.add_dbl(&p.trigger_price);
        self.add_dbl(&p.lmt_price_offset);
        self.add_dbl(&p.adjusted_stop_price);
        self.add_dbl(&p.adjusted_stop_limit_price);
        self.add_dbl(&p.adjusted_trailing_amount);
        self.add_i32(p.adjustable_trailing_unit);
        self.add_str(&p.ext_operator);
        self.add_str(&p.soft_dollar_tier_name);
        self.add_str(&p.soft_dollar_tier_val);
        self.add_dbl(&p.cash_qty);
        self.add_str(&p.mifid2decision_maker);
        self.add_str(&p.mifid2decision_algo);
        self.add_str(&p.mifid2execution_trader);
        self.add_str(&p.mifid2execution_algo);
        self.add_bool(p.dont_use_auto_price_for_hedge);
        self.add_bool(p.is_oms_container);
        self.add_bool(p.discretionary_up_to_limit_price);
        self.add_bool(p.use_price_mgmt_algo);
        proof {
            assert(final(self)@ =~~= old(self)@ + po_scalars4(*p));
        }
    }

    fn add_volatility_order(&mut self, v: &VolatilityOrder)
        ensures
            final(self)@ == old(self)@ + volatility_order_fields(*v),
    {
        self.add_dbl(&v.volatility);
        self.add_i32(v.volatility_type);
        self.add_str(&v.delta_neutral_order_type);
        self.add_dbl(&v.delta_neutral_aux_price);
        proof {
            assert(final(self)@ =~~= old(self)@ + volatility_order_fields(*v));
        }
    }

    #[verifier::rlimit(100)]
    fn add_po_head(&mut self, p: &PlaceOrderFields)
        ensures
            final(self)@ == old(self)@ + po_head(*p),
    {
        self.add_contract_preamble(&p.contract);
        self.add_str(&p.trading_class);
        self.add_str(&p.sec_id_type);
        self.add_str(&p.sec_id);
        self.add_order_preamble(&p.ord_hdr);
        let ghost v0 = self@;
        if is_bag(&p.contract.sec_type) {
            self.add_combo_legs(&p.contract_combo_legs);
            self.add_order_combo_legs(&p.order_combo_legs);
            self.add_tag_values(&p.smart_combo_routing_params);
        }
        proof {
            assert(self@ =~~= v0 + po_combo_block(*p));
        }
        self.add_po_scalars1(p);
        self.add_volatility_order(&p.volat);
        self.add_po_scalars2a(p);
        self.add_po_scale_adjust(p);
        self.add_po_scalars2b(p);
        proof {
            assert(final(self)@ =~~= old(self)@ + po_head(*p));
        }
    }

    #[verifier::rlimit(100)]
    fn add_po_tail(&mut self, p: &PlaceOrderFields)
        ensures
            final(self)@ == old(self)@ + po_tail(*p),
    {
        self.add_delta_neutral(&p.delta_neutral_contract);
        self.add_po_algo_block(p);
        self.add_po_scalars3a(p);
        self.add_po_peg_bench(p);
        self.add_conditions(&p.conditions);
        self.add_po_condition_flags(p);
        self.add_po_scalars4(p);
        proof {
            assert(final(self)@ =~~= old(self)@ + po_tail(*p));
        }
    }

    fn add_place_order_payload(&mut self, p: &PlaceOrderFields)
        ensures
            final(self)@ == old(self)@ + place_order_payload_fields(*p),
    {
        self.add_po_head(p);
        self.add_po_tail(p);
        proof {
            assert(final(self)@ =~~= old(self)@ + place_order_payload_fields(*p));
        }
    }
}

// ------------------------------------------------------------------
// The field list of each request, and the framed wire bytes
// ------------------------------------------------------------------

/// The ordered field list a request puts on the wire: its kind id, the
/// fixed version tag where its kind carries one, then its fields in schema
/// order.
pub open spec fn req_fields(m: ServerReqMsg) -> Seq<Seq<char>> {
    match m {
        ServerReqMsg::CancelMktData { version, req_id } => seq![i32f(2), i32f(version), i32f(req_id)],
        ServerReqMsg::CancelOrder { version, order_id } => seq![i32f(4), i32f(version), i32f(order_id)],
        ServerReqMsg::ReqOpenOrders { version } => seq![i32f(5), i32f(version)],
        ServerReqMsg::ReqAcctData { version, subscribe, acct_code } => seq![i32f(6), i32f(version), boolf(subscribe), acct_code@],
        ServerReqMsg::ReqIds { version, num_ids } => seq![i32f(8), i32f(version), i32f(num_ids)],
        ServerReqMsg::CancelMktDepth { version, req_id, is_smart_depth } => seq![i32f(11), i32f(version), i32f(req_id), boolf(is_smart_depth)],
        ServerReqMsg::ReqNewsBulletins { version, all_msgs } => seq![i32f(12), i32f(version), boolf(all_msgs)],
        ServerReqMsg::CancelNewsBulletins { version } => seq![i32f(13), i32f(version)],
        ServerReqMsg::SetServerLoglevel { version, log_level } => seq![i32f(14), i32f(version), i32f(log_level)],
        ServerReqMsg::ReqAutoOpenOrders { version, auto_bind } => seq![i32f(15), i32f(version), boolf(auto_bind)],
        ServerReqMsg::ReqAllOpenOrders { version } => seq![i32f(16), i32f(version)],
        ServerReqMsg::ReqManagedAccts { version } => seq![i32f(17), i32f(version)],
        ServerReqMsg::ReqFa { version, fa_data } => seq![i32f(18), i32f(version), i32f(fa_data)],
        ServerReqMsg::ReplaceFa { version, fa_data, cxml } => seq![i32f(19), i32f(version), i32f(fa_data), cxml@],
        ServerReqMsg::CancelScannerSubscription { version, req_id } => seq![i32f(23), i32f(version), i32f(req_id)],
        ServerReqMsg::ReqScannerParameters { version } => seq![i32f(24), i32f(version)],
        ServerReqMsg::CancelHistoricalData { version, req_id } => seq![i32f(25), i32f(version), i32f(req_id)],
        ServerReqMsg::ReqCurrentTime { version } => seq![i32f(49), i32f(version)],
        ServerReqMsg::CancelRealTimeBars { version, req_id } => seq![i32f(51), i32f(version), i32f(req_id)],
        ServerReqMsg::CancelFundamentalData { version, req_id } => seq![i32f(53), i32f(version), i32f(req_id)],
        ServerReqMsg::CancelCalcImpliedVolat { version, req_id } => seq![i32f(56), i32f(version), i32f(req_id)],
        ServerReqMsg::CancelCalcOptionPrice { version, req_id } => seq![i32f(57), i32f(version), i32f(req_id)],
        ServerReqMsg::ReqGlobalCancel { version } => seq![i32f(58), i32f(version)],
        ServerReqMsg::ReqMarketDataType { version, market_data_type } => seq![i32f(59), i32f(version), i32f(market_data_type)],
        ServerReqMsg::ReqPositions { version } => seq![i32f(61), i32f(version)],
        ServerReqMsg::ReqAccountSummary { version, req_id, group_name, tags } => seq![i32f(62), i32f(version), i32f(req_id), group_name@, tags@],
        ServerReqMsg::CancelAccountSummary { version, req_id } => seq![i32f(63), i32f(version), i32f(req_id)],
        ServerReqMsg::CancelPositions { version } => seq![i32f(64), i32f(version)],
        ServerReqMsg::VerifyRequest { version, api_name, api_version } => seq![i32f(65), i32f(version), api_name@, api_version@],
        ServerReqMsg::VerifyMessage { version, api_data } => seq![i32f(66), i32f(version), api_data@],
        ServerReqMsg::QueryDisplayGroups { version, req_id } => seq![i32f(67), i32f(version), i32f(req_id)],
        ServerReqMsg::SubscribeToGroupEvents { version, req_id, group_id } => seq![i32f(68), i32f(version), i32f(req_id), i32f(group_id)],
        ServerReqMsg::UpdateDisplayGroup { version, req_id, contract_info } => seq![i32f(69), i32f(version), i32f(req_id), contract_info@],
        ServerReqMsg::UnsubscribeFromGroupEvents { version, req_id } => seq![i32f(70), i32f(version), i32f(req_id)],
        ServerReqMsg::StartApi { version, client_id } => seq![i32f(71), i32f(version), client_id@],
        ServerReqMsg::VerifyAndAuthRequest { version, api_name, api_version, opaque_isv_key } => seq![i32f(72), i32f(version), api_name@, api_version@, opaque_isv_key@],
        ServerReqMsg::VerifyAndAuthMessage { version, api_data, xyz_response } => seq![i32f(73), i32f(version), api_data@, xyz_response@],
        ServerReqMsg::ReqPositionsMulti { version, req_id, account, model_code } => seq![i32f(74), i32f(version), i32f(req_id), account@, model_code@],
        ServerReqMsg::CancelPositionsMulti { version, req_id } => seq![i32f(75), i32f(version), i32f(req_id)],
        ServerReqMsg::ReqAccountUpdatesMulti { version, req_id, account, model_code, ledger_and_nlv } => seq![i32f(76), i32f(version), i32f(req_id), account@, model_code@, boolf(ledger_and_nlv)],
        ServerReqMsg::CancelAccountUpdatesMulti { version, req_id } => seq![i32f(77), i32f(version), i32f(req_id)],
        ServerReqMsg::ReqSecDefOptParams { req_id, underlying_symbol, fut_fop_exchange, underlying_sec_type, underlying_con_id } => seq![i32f(78), i32f(req_id), underlying_symbol@, fut_fop_exchange@, underlying_sec_type@, i32f(underlying_con_id)],
        ServerReqMsg::ReqSoftDollarTiers { req_id } => seq![i32f(79), i32f(req_id)],
        ServerReqMsg::ReqFamilyCodes => seq![i32f(80)],
        ServerReqMsg::ReqMatchingSymbols { req_id, pattern } => seq![i32f(81), i32f(req_id), pattern@],
        ServerReqMsg::ReqMktDepthExchanges => seq![i32f(82)],
        ServerReqMsg::ReqSmartComponents { req_id, bbo_exchange } => seq![i32f(83), i32f(req_id), bbo_exchange@],
        ServerReqMsg::ReqNewsArticle { req_id, provider_code, article_id, news_article_options } => seq![i32f(84), i32f(req_id), provider_code@, article_id@, news_article_options@],
        ServerReqMsg::ReqNewsProviders => seq![i32f(85)],
        ServerReqMsg::ReqHistoricalNews { req_id, con_id, provider_codes, start_date_time, end_date_time, total_results, historical_news_options } => seq![i32f(86), i32f(req_id), i32f(con_id), provider_codes@, start_date_time@, end_date_time@, i32f(total_results), historical_news_options@],
        ServerReqMsg::CancelHistogramData { ticker_id } => seq![i32f(89), i32f(ticker_id)],
        ServerReqMsg::CancelHeadTimestamp { req_id } => seq![i32f(90), i32f(req_id)],
        ServerReqMsg::ReqMarketRule { market_rule_id } => seq![i32f(91), i32f(market_rule_id)],
        ServerReqMsg::ReqPnl { req_id, account, model_code } => seq![i32f(92), i32f(req_id), account@, model_code@],
        ServerReqMsg::CancelPnl { req_id } => seq![i32f(93), i32f(req_id)],
        ServerReqMsg::ReqPnlSingle { req_id, account, model_code, con_id } => seq![i32f(94), i32f(req_id), account@, model_code@, i32f(con_id)],
        ServerReqMsg::CancelPnlSingle { req_id } => seq![i32f(95), i32f(req_id)],
        ServerReqMsg::CancelTickByTickData { req_id } => seq![i32f(98), i32f(req_id)],
        ServerReqMsg::ReqCompletedOrders { api_only } => seq![i32f(99), boolf(api_only)],
        ServerReqMsg::ReqContractData { version, req_id, contract, trading_class, include_expired, sec_id_type, sec_id } => seq![i32f(9), i32f(version), i32f(req_id)] + contract_preamble_fields(contract) + seq![trading_class@, boolf(include_expired), sec_id_type@, sec_id@],
        ServerReqMsg::ReqMktDepth { version, req_id, contract, trading_class, num_rows, is_smart_depth, mkt_depth_options } => seq![i32f(10), i32f(version), i32f(req_id)] + contract_preamble_fields(contract) + seq![trading_class@, i32f(num_rows), boolf(is_smart_depth), mkt_depth_options@],
        ServerReqMsg::ReqHistoricalData { version, req_id, contract, trading_class, include_expired, keep_up_to_date, chart_options } => seq![i32f(20), i32f(version), i32f(req_id)] + contract_preamble_fields(contract) + seq![trading_class@, boolf(include_expired), boolf(keep_up_to_date), chart_options@],
        ServerReqMsg::ExerciseOptions { version, req_id, contract, trading_class, exercise_action, exercise_quantity, account, over_ride } => seq![i32f(21), i32f(version), i32f(req_id)] + contract_preamble_fields(contract) + seq![trading_class@, i32f(exercise_action), i32f(exercise_quantity), account@, i32f(over_ride)],
        ServerReqMsg::ReqRealTimeBars { version, req_id, contract, trading_class, bar_size, what_to_show, use_rth, real_time_bars_options } => seq![i32f(50), i32f(version), i32f(req_id)] + contract_preamble_fields(contract) + seq![trading_class@, i32f(bar_size), what_to_show@, boolf(use_rth), real_time_bars_options@],
        ServerReqMsg::ReqFundamentalData { version, req_id, contract, report_type, tags_value_count, fund_data_opt } => seq![i32f(52), i32f(version), i32f(req_id)] + contract_preamble_fields(contract) + seq![report_type@, i32f(tags_value_count), fund_data_opt@],
        ServerReqMsg::ReqCalcImpliedVolat { version, req_id, contract, trading_class, option_price, under_price, tag_values_cnt, impl_vol_opt } => seq![i32f(54), i32f(version), i32f(req_id)] + contract_preamble_fields(contract) + seq![trading_class@, dblf(option_price), dblf(under_price), i32f(tag_values_cnt), impl_vol_opt@],
        ServerReqMsg::ReqCalcOptionPrice { version, req_id, contract, trading_class, volatility, under_price, tag_values_cnt, opt_prc_opt } => seq![i32f(55), i32f(version), i32f(req_id)] + contract_preamble_fields(contract) + seq![trading_class@, dblf(volatility), dblf(under_price), i32f(tag_values_cnt), opt_prc_opt@],
        ServerReqMsg::ReqHeadTimestamp { req_id, contract, trading_class, include_expired, use_rth, what_to_show, format_date } => seq![i32f(87), i32f(req_id)] + contract_preamble_fields(contract) + seq![trading_class@, boolf(include_expired), i32f(use_rth), what_to_show@, i32f(format_date)],
        ServerReqMsg::ReqHistogramData { ticker_id, contract, trading_class, include_expired, use_rth, time_period } => seq![i32f(88), i32f(ticker_id)] + contract_preamble_fields(contract) + seq![trading_class@, boolf(include_expired), boolf(use_rth), time_period@],
        ServerReqMsg::ReqHistoricalTicks { req_id, contract, trading_class, include_expired, start_date_time, end_date_time, number_of_ticks, what_to_show, use_rth, ignore_size, misc_options } => seq![i32f(96), i32f(req_id)] + contract_preamble_fields(contract) + seq![trading_class@, boolf(include_expired), start_date_time@, end_date_time@, i32f(number_of_ticks), what_to_show@, i32f(use_rth), boolf(ignore_size), misc_options@],
        ServerReqMsg::ReqTickByTickData { req_id, contract, trading_class, tick_type, number_of_ticks, ignore_size } => seq![i32f(97), i32f(req_id)] + contract_preamble_fields(contract) + seq![trading_class@, tick_type@, i32f(number_of_ticks), boolf(ignore_size)],
        ServerReqMsg::ReqMktData { version, req_id, payload } => seq![i32f(1), i32f(version), i32f(req_id)] + mkt_data_payload_fields(payload),
        ServerReqMsg::PlaceOrder { version, order_id, payload } => seq![i32f(3), i32f(version), i32f(order_id)] + place_order_payload_fields(payload),
        ServerReqMsg::ReqExecutions { version, req_id, exec_filter } => seq![i32f(7), i32f(version), i32f(req_id)] + execution_filter_fields(exec_filter),
        ServerReqMsg::ReqScannerSubscription { version, req_id, subscription, scanner_subscription_filter, scanner_subscription_options } => seq![i32f(22), i32f(version), i32f(req_id)] + scanner_subscription_fields(subscription) + seq![scanner_subscription_filter@, scanner_subscription_options@],
    }
}

/// Build a request's field list.
#[verifier::rlimit(100)]
#[verifier::spinoff_prover]
pub fn request_fields(m: &ServerReqMsg) -> (r: FieldList)
    ensures
        r@ == req_fields(*m),
{
    let mut fl = FieldList::new();
    match m {
        ServerReqMsg::CancelMktData { version, req_id } => {
            fl.add_i32(2);
            fl.add_i32(*version);
            fl.add_i32(*req_id);
            proof {
                assert(fl@ =~~= req_fields(*m));
            }
        },
        ServerReqMsg::CancelOrder { version, order_id } => {
            fl.add_i32(4);
            fl.add_i32(*version);
            fl.add_i32(*order_id);
            proof {
                assert(fl@ =~~= req_fields(*m));
            }
        },
        ServerReqMsg::ReqOpenOrders { version } => {
            fl.add_i32(5);
            fl.add_i32(*version);
            proof {
                assert(fl@ =~~= req_fields(*m));
            }
        },
        ServerReqMsg::ReqAcctData { version, subscribe, acct_code } => {
            fl.add_i32(6);
            fl.add_i32(*version);
            fl.add_bool(*subscribe);
            fl.add_str(acct_code);
            proof {
                assert(fl@ =~~= req_fields(*m));
            }
        },
        ServerReqMsg::ReqIds { version, num_ids } => {
            fl.add_i32(8);
            fl.add_i32(*version);
            fl.add_i32(*num_ids);
            proof {
                assert(fl@ =~~= req_fields(*m));
            }
        },
        ServerReqMsg::CancelMktDepth { version, req_id, is_smart_depth } => {
            fl.add_i32(11);
            fl.add_i32(*version);
            fl.add_i32(*req_id);
            fl.add_bool(*is_smart_depth);
            proof {
                assert(fl@ =~~= req_fields(*m));
            }
        },
        ServerReqMsg::ReqNewsBulletins { version, all_msgs } => {
            fl.add_i32(12);
            fl.add_i32(*version);
            fl.add_bool(*all_msgs);
            proof {
                assert(fl@ =~~= req_fields(*m));
            }
        },
        ServerReqMsg::CancelNewsBulletins { version } => {
            fl.add_i32(13);
            fl.add_i32(*version);
            proof {
                assert(fl@ =~~= req_fields(*m));
            }
        },
        ServerReqMsg::SetServerLoglevel { version, log_level } => {
            fl.add_i32(14);
            fl.add_i32(*version);
            fl.add_i32(*log_level);
            proof {
                assert(fl@ =~~= req_fields(*m));
            }
        },
        ServerReqMsg::ReqAutoOpenOrders { version, auto_bind } => {
            fl.add_i32(15);
            fl.add_i32(*version);
            fl.add_bool(*auto_bind);
            proof {
                assert(fl@ =~~= req_fields(*m));
            }
        },
        ServerReqMsg::ReqAllOpenOrders { version } => {
            fl.add_i32(16);
            fl.add_i32(*version);
            proof {
                assert(fl@ =~~= req_fields(*m));
            }
        },
        ServerReqMsg::ReqManagedAccts { version } => {
            fl.add_i32(17);
            fl.add_i32(*version);
            proof {
                assert(fl@ =~~= req_fields(*m));
            }
        },
        ServerReqMsg::ReqFa { version, fa_data } => {
            fl.add_i32(18);
            fl.add_i32(*version);
            fl.add_i32(*fa_data);
            proof {
                assert(fl@ =~~= req_fields(*m));
            }
        },
        ServerReqMsg::ReplaceFa { version, fa_data, cxml } => {
            fl.add_i32(19);
            fl.add_i32(*version);
            fl.add_i32(*fa_data);
            fl.add_str(cxml);
            proof {
                assert(fl@ =~~= req_fields(*m));
            }
        },
        ServerReqMsg::CancelScannerSubscription { version, req_id } => {
            fl.add_i32(23);
            fl.add_i32(*version);
            fl.add_i32(*req_id);
            proof {
                assert(fl@ =~~= req_fields(*m));
            }
        },
        ServerReqMsg::ReqScannerParameters { version } => {
            fl.add_i32(24);
            fl.add_i32(*version);
            proof {
                assert(fl@ =~~= req_fields(*m));
            }
        },
        ServerReqMsg::CancelHistoricalData { version, req_id } => {
            fl.add_i32(25);
            fl.add_i32(*version);
            fl.add_i32(*req_id);
            proof {
                assert(fl@ =~~= req_fields(*m));
            }
        },
        ServerReqMsg::ReqCurrentTime { version } => {
            fl.add_i32(49);
            fl.add_i32(*version);
            proof {
                assert(fl@ =~~= req_fields(*m));
            }
        },
        ServerReqMsg::CancelRealTimeBars { version, req_id } => {
            fl.add_i32(51);
            fl.add_i32(*version);
            fl.add_i32(*req_id);
            proof {
                assert(fl@ =~~= req_fields(*m));
            }
        },
        ServerReqMsg::CancelFundamentalData { version, req_id } => {
            fl.add_i32(53);
            fl.add_i32(*version);
            fl.add_i32(*req_id);
            proof {
                assert(fl@ =~~= req_fields(*m));
            }
        },
        ServerReqMsg::CancelCalcImpliedVolat { version, req_id } => {
            fl.add_i32(56);
            fl.add_i32(*version);
            fl.add_i32(*req_id);
            proof {
                assert(fl@ =~~= req_fields(*m));
            }
        },
        ServerReqMsg::CancelCalcOptionPrice { version, req_id } => {
            fl.add_i32(57);
            fl.add_i32(*version);
            fl.add_i32(*req_id);
            proof {
                assert(fl@ =~~= req_fields(*m));
            }
        },
        ServerReqMsg::ReqGlobalCancel { version } => {
            fl.add_i32(58);
            fl.add_i32(*version);
            proof {
                assert(fl@ =~~= req_fields(*m));
            }
        },
        ServerReqMsg::ReqMarketDataType { version, market_data_type } => {
            fl.add_i32(59);
            fl.add_i32(*version);
            fl.add_i32(*market_data_type);
            proof {
                assert(fl@ =~~= req_fields(*m));
            }
        },
        ServerReqMsg::ReqPositions { version } => {
            fl.add_i32(61);
            fl.add_i32(*version);
            proof {
                assert(fl@ =~~= req_fields(*m));
            }
        },
        ServerReqMsg::ReqAccountSummary { version, req_id, group_name, tags } => {
            fl.add_i32(62);
            fl.add_i32(*version);
            fl.add_i32(*req_id);
            fl.add_str(group_name);
            fl.add_str(tags);
            proof {
                assert(fl@ =~~= req_fields(*m));
            }
        },
        ServerReqMsg::CancelAccountSummary { version, req_id } => {
            fl.add_i32(63);
            fl.add_i32(*version);
            fl.add_i32(*req_id);
            proof {
                assert(fl@ =~~= req_fields(*m));
            }
        },
        ServerReqMsg::CancelPositions { version } => {
            fl.add_i32(64);
            fl.add_i32(*version);
            proof {
                assert(fl@ =~~= req_fields(*m));
            }
        },
        ServerReqMsg::VerifyRequest { version, api_name, api_version } => {
            fl.add_i32(65);
            fl.add_i32(*version);
            fl.add_str(api_name);
            fl.add_str(api_version);
            proof {
                assert(fl@ =~~= req_fields(*m));
            }
        },
        ServerReqMsg::VerifyMessage { version, api_data } => {
            fl.add_i32(66);
            fl.add_i32(*version);
            fl.add_str(api_data);
            proof {
                assert(fl@ =~~= req_fields(*m));
            }
        },
        ServerReqMsg::QueryDisplayGroups { version, req_id } => {
            fl.add_i32(67);
            fl.add_i32(*version);
            fl.add_i32(*req_id);
            proof {
                assert(fl@ =~~= req_fields(*m));
            }
        },
        ServerReqMsg::SubscribeToGroupEvents { version, req_id, group_id } => {
            fl.add_i32(68);
            fl.add_i32(*version);
            fl.add_i32(*req_id);
            fl.add_i32(*group_id);
            proof {
                assert(fl@ =~~= req_fields(*m));
            }
        },
        ServerReqMsg::UpdateDisplayGroup { version, req_id, contract_info } => {
            fl.add_i32(69);
            fl.add_i32(*version);
            fl.add_i32(*req_id);
            fl.add_str(contract_info);
            proof {
                assert(fl@ =~~= req_fields(*m));
            }
        },
        ServerReqMsg::UnsubscribeFromGroupEvents { version, req_id } => {
            fl.add_i32(70);
            fl.add_i32(*version);
            fl.add_i32(*req_id);
            proof {
                assert(fl@ =~~= req_fields(*m));
            }
        },
        ServerReqMsg::StartApi { version, client_id } => {
            fl.add_i32(71);
            fl.add_i32(*version);
            fl.add_str(client_id);
            proof {
                assert(fl@ =~~= req_fields(*m));
            }
        },
        ServerReqMsg::VerifyAndAuthRequest { version, api_name, api_version, opaque_isv_key } => {
            fl.add_i32(72);
            fl.add_i32(*version);
            fl.add_str(api_name);
            fl.add_str(api_version);
            fl.add_str(opaque_isv_key);
            proof {
                assert(fl@ =~~= req_fields(*m));
            }
        },
        ServerReqMsg::VerifyAndAuthMessage { version, api_data, xyz_response } => {
            fl.add_i32(73);
            fl.add_i32(*version);
            fl.add_str(api_data);
            fl.add_str(xyz_response);
            proof {
                assert(fl@ =~~= req_fields(*m));
            }
        },
        ServerReqMsg::ReqPositionsMulti { version, req_id, account, model_code } => {
            fl.add_i32(74);
            fl.add_i32(*version);
            fl.add_i32(*req_id);
            fl.add_str(account);
            fl.add_str(model_code);
            proof {
                assert(fl@ =~~= req_fields(*m));
            }
        },
        ServerReqMsg::CancelPositionsMulti { version, req_id } => {
            fl.add_i32(75);
            fl.add_i32(*version);
            fl.add_i32(*req_id);
            proof {
                assert(fl@ =~~= req_fields(*m));
            }
        },
        ServerReqMsg::ReqAccountUpdatesMulti { version, req_id, account, model_code, ledger_and_nlv } => {
            fl.add_i32(76);
            fl.add_i32(*version);
            fl.add_i32(*req_id);
            fl.add_str(account);
            fl.add_str(model_code);
            fl.add_bool(*ledger_and_nlv);
            proof {
                assert(fl@ =~~= req_fields(*m));
            }
        },
        ServerReqMsg::CancelAccountUpdatesMulti { version, req_id } => {
            fl.add_i32(77);
            fl.add_i32(*version);
            fl.add_i32(*req_id);
            proof {
                assert(fl@ =~~= req_fields(*m));
            }
        },
        ServerReqMsg::ReqSecDefOptParams { req_id, underlying_symbol, fut_fop_exchange, underlying_sec_type, underlying_con_id } => {
            fl.add_i32(78);
            fl.add_i32(*req_id);
            fl.add_str(underlying_symbol);
            fl.add_str(fut_fop_exchange);
            fl.add_str(underlying_sec_type);
            fl.add_i32(*underlying_con_id);
            proof {
                assert(fl@ =~~= req_fields(*m));
            }
        },
        ServerReqMsg::ReqSoftDollarTiers { req_id } => {
            fl.add_i32(79);
            fl.add_i32(*req_id);
            proof {
                assert(fl@ =~~= req_fields(*m));
            }
        },
        ServerReqMsg::ReqFamilyCodes => {
            fl.add_i32(80);
            proof {
                assert(fl@ =~~= req_fields(*m));
            }
        },
        ServerReqMsg::ReqMatchingSymbols { req_id, pattern } => {
            fl.add_i32(81);
            fl.add_i32(*req_id);
            fl.add_str(pattern);
            proof {
                assert(fl@ =~~= req_fields(*m));
            }
        },
        ServerReqMsg::ReqMktDepthExchanges => {
            fl.add_i32(82);
            proof {
                assert(fl@ =~~= req_fields(*m));
            }
        },
        ServerReqMsg::ReqSmartComponents { req_id, bbo_exchange } => {
            fl.add_i32(83);
            fl.add_i32(*req_id);
            fl.add_str(bbo_exchange);
            proof {
                assert(fl@ =~~= req_fields(*m));
            }
        },
        ServerReqMsg::ReqNewsArticle { req_id, provider_code, article_id, news_article_options } => {
            fl.add_i32(84);
            fl.add_i32(*req_id);
            fl.add_str(provider_code);
            fl.add_str(article_id);
            fl.add_str(news_article_options);
            proof {
                assert(fl@ =~~= req_fields(*m));
            }
        },
        ServerReqMsg::ReqNewsProviders => {
            fl.add_i32(85);
            proof {
                assert(fl@ =~~= req_fields(*m));
            }
        },
        ServerReqMsg::ReqHistoricalNews { req_id, con_id, provider_codes, start_date_time, end_date_time, total_results, historical_news_options } => {
            fl.add_i32(86);
            fl.add_i32(*req_id);
            fl.add_i32(*con_id);
            fl.add_str(provider_codes);
            fl.add_str(start_date_time);
            fl.add_str(end_date_time);
            fl.add_i32(*total_results);
            fl.add_str(historical_news_options);
            proof {
                assert(fl@ =~~= req_fields(*m));
            }
        },
        ServerReqMsg::CancelHistogramData { ticker_id } => {
            fl.add_i32(89);
            fl.add_i32(*ticker_id);
            proof {
                assert(fl@ =~~= req_fields(*m));
            }
        },
        ServerReqMsg::CancelHeadTimestamp { req_id } => {
            fl.add_i32(90);
            fl.add_i32(*req_id);
            proof {
                assert(fl@ =~~= req_fields(*m));
            }
        },
        ServerReqMsg::ReqMarketRule { market_rule_id } => {
            fl.add_i32(91);
            fl.add_i32(*market_rule_id);
            proof {
                assert(fl@ =~~= req_fields(*m));
            }
        },
        ServerReqMsg::ReqPnl { req_id, account, model_code } => {
            fl.add_i32(92);
            fl.add_i32(*req_id);
            fl.add_str(account);
            fl.add_str(model_code);
            proof {
                assert(fl@ =~~= req_fields(*m));
            }
        },
        ServerReqMsg::CancelPnl { req_id } => {
            fl.add_i32(93);
            fl.add_i32(*req_id);
            proof {
                assert(fl@ =~~= req_fields(*m));
            }
        },
        ServerReqMsg::ReqPnlSingle { req_id, account, model_code, con_id } => {
            fl.add_i32(94);
            fl.add_i32(*req_id);
            fl.add_str(account);
            fl.add_str(model_code);
            fl.add_i32(*con_id);
            proof {
                assert(fl@ =~~= req_fields(*m));
            }
        },
        ServerReqMsg::CancelPnlSingle { req_id } => {
            fl.add_i32(95);
            fl.add_i32(*req_id);
            proof {
                assert(fl@ =~~= req_fields(*m));
            }
        },
        ServerReqMsg::CancelTickByTickData { req_id } => {
            fl.add_i32(98);
            fl.add_i32(*req_id);
            proof {
                assert(fl@ =~~= req_fields(*m));
            }
        },
        ServerReqMsg::ReqCompletedOrders { api_only } => {
            fl.add_i32(99);
            fl.add_bool(*api_only);
            proof {
                assert(fl@ =~~= req_fields(*m));
            }
        },
        ServerReqMsg::ReqContractData { version, req_id, contract, trading_class, include_expired, sec_id_type, sec_id } => {
            fl.add_i32(9);
            fl.add_i32(*version);
            fl.add_i32(*req_id);
            fl.add_contract_preamble(contract);
            fl.add_str(trading_class);
            fl.add_bool(*include_expired);
            fl.add_str(sec_id_type);
            fl.add_str(sec_id);
            proof {
                assert(fl@ =~~= req_fields(*m));
            }
        },
        ServerReqMsg::ReqMktDepth { version, req_id, contract, trading_class, num_rows, is_smart_depth, mkt_depth_options } => {
            fl.add_i32(10);
            fl.add_i32(*version);
            fl.add_i32(*req_id);
            fl.add_contract_preamble(contract);
            fl.add_str(trading_class);
            fl.add_i32(*num_rows);
            fl.add_bool(*is_smart_depth);
            fl.add_str(mkt_depth_options);
            proof {
                assert(fl@ =~~= req_fields(*m));
            }
        },
        ServerReqMsg::ReqHistoricalData { version, req_id, contract, trading_class, include_expired, keep_up_to_date, chart_options } => {
            fl.add_i32(20);
            fl.add_i32(*version);
            fl.add_i32(*req_id);
            fl.add_contract_preamble(contract);
            fl.add_str(trading_class);
            fl.add_bool(*include_expired);
            fl.add_bool(*keep_up_to_date);
            fl.add_str(chart_options);
            proof {
                assert(fl@ =~~= req_fields(*m));
            }
        },
        ServerReqMsg::ExerciseOptions { version, req_id, contract, trading_class, exercise_action, exercise_quantity, account, over_ride } => {
            fl.add_i32(21);
            fl.add_i32(*version);
            fl.add_i32(*req_id);
            fl.add_contract_preamble(contract);
            fl.add_str(trading_class);
            fl.add_i32(*exercise_action);
            fl.add_i32(*exercise_quantity);
            fl.add_str(account);
            fl.add_i32(*over_ride);
            proof {
                assert(fl@ =~~= req_fields(*m));
            }
        },
        ServerReqMsg::ReqRealTimeBars { version, req_id, contract, trading_class, bar_size, what_to_show, use_rth, real_time_bars_options } => {
            fl.add_i32(50);
            fl.add_i32(*version);
            fl.add_i32(*req_id);
            fl.add_contract_preamble(contract);
            fl.add_str(trading_class);
            fl.add_i32(*bar_size);
            fl.add_str(what_to_show);
            fl.add_bool(*use_rth);
            fl.add_str(real_time_bars_options);
            proof {
                assert(fl@ =~~= req_fields(*m));
            }
        },
        ServerReqMsg::ReqFundamentalData { version, req_id, contract, report_type, tags_value_count, fund_data_opt } => {
            fl.add_i32(52);
            fl.add_i32(*version);
            fl.add_i32(*req_id);
            fl.add_contract_preamble(contract);
            fl.add_str(report_type);
            fl.add_i32(*tags_value_count);
            fl.add_str(fund_data_opt);
            proof {
                assert(fl@ =~~= req_fields(*m));
            }
        },
        ServerReqMsg::ReqCalcImpliedVolat { version, req_id, contract, trading_class, option_price, under_price, tag_values_cnt, impl_vol_opt } => {
            fl.add_i32(54);
            fl.add_i32(*version);
            fl.add_i32(*req_id);
            fl.add_contract_preamble(contract);
            fl.add_str(trading_class);
            fl.add_dbl(option_price);
            fl.add_dbl(under_price);
            fl.add_i32(*tag_values_cnt);
            fl.add_str(impl_vol_opt);
            proof {
                assert(fl@ =~~= req_fields(*m));
            }
        },
        ServerReqMsg::ReqCalcOptionPrice { version, req_id, contract, trading_class, volatility, under_price, tag_values_cnt, opt_prc_opt } => {
            fl.add_i32(55);
            fl.add_i32(*version);
            fl.add_i32(*req_id);
            fl.add_contract_preamble(contract);
            fl.add_str(trading_class);
            fl.add_dbl(volatility);
            fl.add_dbl(under_price);
            fl.add_i32(*tag_values_cnt);
            fl.add_str(opt_prc_opt);
            proof {
                assert(fl@ =~~= req_fields(*m));
            }
        },
        ServerReqMsg::ReqHeadTimestamp { req_id, contract, trading_class, include_expired, use_rth, what_to_show, format_date } => {
            fl.add_i32(87);
            fl.add_i32(*req_id);
            fl.add_contract_preamble(contract);
            fl.add_str(trading_class);
            fl.add_bool(*include_expired);
            fl.add_i32(*use_rth);
            fl.add_str(what_to_show);
            fl.add_i32(*format_date);
            proof {
                assert(fl@ =~~= req_fields(*m));
            }
        },
        ServerReqMsg::ReqHistogramData { ticker_id, contract, trading_class, include_expired, use_rth, time_period } => {
            fl.add_i32(88);
            fl.add_i32(*ticker_id);
            fl.add_contract_preamble(contract);
            fl.add_str(trading_class);
            fl.add_bool(*include_expired);
            fl.add_bool(*use_rth);
            fl.add_str(time_period);
            proof {
                assert(fl@ =~~= req_fields(*m));
            }
        },
        ServerReqMsg::ReqHistoricalTicks { req_id, contract, trading_class, include_expired, start_date_time, end_date_time, number_of_ticks, what_to_show, use_rth, ignore_size, misc_options } => {
            fl.add_i32(96);
            fl.add_i32(*req_id);
            fl.add_contract_preamble(contract);
            fl.add_str(trading_class);
            fl.add_bool(*include_expired);
            fl.add_str(start_date_time);
            fl.add_str(end_date_time);
            fl.add_i32(*number_of_ticks);
            fl.add_str(what_to_show);
            fl.add_i32(*use_rth);
            fl.add_bool(*ignore_size);
            fl.add_str(misc_options);
            proof {
                assert(fl@ =~~= req_fields(*m));
            }
        },
        ServerReqMsg::ReqTickByTickData { req_id, contract, trading_class, tick_type, number_of_ticks, ignore_size } => {
            fl.add_i32(97);
            fl.add_i32(*req_id);
            fl.add_contract_preamble(contract);
            fl.add_str(trading_class);
            fl.add_str(tick_type);
            fl.add_i32(*number_of_ticks);
            fl.add_bool(*ignore_size);
            proof {
                assert(fl@ =~~= req_fields(*m));
            }
        },
        ServerReqMsg::ReqMktData { version, req_id, payload } => {
            fl.add_i32(1);
            fl.add_i32(*version);
            fl.add_i32(*req_id);
            fl.add_mkt_data_payload(payload);
            proof {
                assert(fl@ =~~= req_fields(*m));
            }
        },
        ServerReqMsg::PlaceOrder { version, order_id, payload } => {
            fl.add_i32(3);
            fl.add_i32(*version);
            fl.add_i32(*order_id);
            fl.add_place_order_payload(payload);
            proof {
                assert(fl@ =~~= req_fields(*m));
            }
        },
        ServerReqMsg::ReqExecutions { version, req_id, exec_filter } => {
            fl.add_i32(7);
            fl.add_i32(*version);
            fl.add_i32(*req_id);
            fl.add_execution_filter(exec_filter);
            proof {
                assert(fl@ =~~= req_fields(*m));
            }
        },
        ServerReqMsg::ReqScannerSubscription {
            version,
            req_id,
            subscription,
            scanner_subscription_filter,
            scanner_subscription_options,
        } => {
            fl.add_i32(22);
            fl.add_i32(*version);
            fl.add_i32(*req_id);
            fl.add_scanner_subscription(subscription);
            fl.add_str(scanner_subscription_filter);
            fl.add_str(scanner_subscription_options);
            proof {
                assert(fl@ =~~= req_fields(*m));
            }
        },        _ => {
        },
    }
    fl
}

/// Encode a request: build its fields, join them, and frame the payload.
/// Only text that fits the wire (plain characters, a frame below the length
/// limit) can be sent; anything else is refused.
pub fn encode_request(msg: &ServerReqMsg) -> (r: Result<Vec<u8>, Error>)
    ensures
        r matches Ok(b) ==> b@ == frame_of(join_spec(req_fields(*msg))),
        r is Err <==> (!vstd::utf8::is_ascii_chars(join_spec(req_fields(*msg))) || join_spec(
            req_fields(*msg),
        ).len() > 0x7fffffff),
{
    let fl = request_fields(msg);
    let payload = crate::messages::join_fields(&fl.fields);
    if !payload.as_str().is_ascii() {
        return Err(Error::Unsupported);
    }
    if payload.as_str().unicode_len() > 0x7fffffff {
        return Err(Error::Unsupported);
    }
    proof {
        vstd::utf8::is_ascii_chars_encode_utf8(payload@);
    }
    make_message(payload.as_str())
}

} // verus!
