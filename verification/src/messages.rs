//! Frame and field codecs.
//!
//! A frame is a 4-byte big-endian unsigned length followed by that many bytes
//! of text.  The text is a sequence of fields, each terminated by a NUL
//! character; the trailing NUL makes the final piece of any split empty, and
//! the field codec drops it.

use vstd::prelude::*;

use crate::errors::Error;
use vstd::string::StringSliceAdditionalSpecFns;
use crate::numtext::int_text_of;
use crate::numtext::is_float_text;
use crate::UNSET_INTEGER;

verus! {

pub const NUL_CHAR: char = '\u{0}';

/// A floating wire field, kept as its decimal text.  `Unset` is the in-memory
/// sentinel for "field intentionally absent"; it encodes to an empty field.
#[derive(Clone, Debug, PartialEq)]
pub enum DoubleValue {
    Unset,
    Num(String),
}

impl DoubleValue {
    /// Whether the held text (if any) is well-formed decimal text.
    pub open spec fn wf(self) -> bool {
        match self {
            DoubleValue::Unset => true,
            DoubleValue::Num(s) => is_float_text(s@),
        }
    }
}

/// The fields of a message as mathematical sequences of characters.
pub open spec fn fields_view(ss: Seq<String>) -> Seq<Seq<char>> {
    ss.map_values(|s: String| s@)
}

// ------------------------------------------------------------------
// Field codec: split on NUL, drop the trailing empty piece; join by
// terminating every field with NUL.
// ------------------------------------------------------------------

/// Index of the first NUL, or the length if there is none.
pub open spec fn nul_split(s: Seq<char>) -> int
    decreases s.len(),
{
    if s.len() == 0 {
        0
    } else if s[0] == NUL_CHAR {
        0
    } else {
        1 + nul_split(s.skip(1))
    }
}

pub proof fn lemma_nul_split_bounds(s: Seq<char>)
    ensures
        0 <= nul_split(s) <= s.len(),
    decreases s.len(),
{
    if s.len() > 0 && s[0] != NUL_CHAR {
        lemma_nul_split_bounds(s.skip(1));
    }
}

pub proof fn lemma_nul_split_is(s: Seq<char>, k: int)
    requires
        0 <= k <= s.len(),
        forall|j: int| 0 <= j < k ==> #[trigger] s[j] != NUL_CHAR,
        k < s.len() ==> s[k] == NUL_CHAR,
    ensures
        nul_split(s) == k,
    decreases s.len(),
{
    if s.len() == 0 {
    } else if s[0] == NUL_CHAR {
        assert(k == 0);
    } else {
        assert(k >= 1);
        let t = s.skip(1);
        assert forall|j: int| 0 <= j < k - 1 implies #[trigger] t[j] != NUL_CHAR by {
            assert(t[j] == s[j + 1]);
        }
        if k - 1 < t.len() {
            assert(t[k - 1] == s[k]);
        }
        lemma_nul_split_is(t, k - 1);
    }
}

/// Every NUL-separated piece of the text, the separators removed.  A text
/// without NUL is one piece; a trailing NUL contributes a final empty piece.
pub open spec fn split_full(s: Seq<char>) -> Seq<Seq<char>>
    decreases s.len(),
    via split_full_decreases
{
    let i = nul_split(s);
    if i == s.len() {
        seq![s]
    } else {
        seq![s.take(i)] + split_full(s.skip(i + 1))
    }
}

#[via_fn]
proof fn split_full_decreases(s: Seq<char>) {
    lemma_nul_split_bounds(s);
}

/// What the field codec yields for a payload: the pieces, the last dropped.
pub open spec fn read_fields_spec(s: Seq<char>) -> Seq<Seq<char>> {
    split_full(s).drop_last()
}

pub open spec fn join_spec(fields: Seq<Seq<char>>) -> Seq<char>
    decreases fields.len(),
{
    if fields.len() == 0 {
        Seq::empty()
    } else {
        fields[0] + seq![NUL_CHAR] + join_spec(fields.skip(1))
    }
}

proof fn lemma_join_snoc(fs: Seq<Seq<char>>, f: Seq<char>)
    ensures
        join_spec(fs.push(f)) =~= join_spec(fs) + f + seq![NUL_CHAR],
    decreases fs.len(),
{
    if fs.len() == 0 {
        assert(fs.push(f)[0] == f);
        assert(fs.push(f).skip(1) =~= Seq::<Seq<char>>::empty());
        assert(join_spec(fs.push(f)) == f + seq![NUL_CHAR] + join_spec(
            Seq::<Seq<char>>::empty(),
        ));
    } else {
        assert(fs.push(f)[0] == fs[0]);
        assert(fs.push(f).skip(1) =~= fs.skip(1).push(f));
        lemma_join_snoc(fs.skip(1), f);
        assert(join_spec(fs.push(f)) == fs[0] + seq![NUL_CHAR] + join_spec(fs.skip(1).push(f)));
        assert(join_spec(fs) == fs[0] + seq![NUL_CHAR] + join_spec(fs.skip(1)));
    }
}

fn scan_nul(s: &str, from: usize, to: usize) -> (r: usize)
    requires
        from <= to,
        to <= s@.len(),
    ensures
        from <= r <= to,
        r - from == nul_split(s@.subrange(from as int, to as int)),
        forall|j: int| from <= j < r ==> #[trigger] s@[j] != NUL_CHAR,
        r < to ==> s@[r as int] == NUL_CHAR,
{
    let mut i: usize = from;
    while i < to
        invariant
            from <= i <= to,
            to <= s@.len(),
            forall|j: int| from <= j < i ==> #[trigger] s@[j] != NUL_CHAR,
        decreases to - i,
    {
        let c = s.get_char(i);
        if c == '\u{0}' {
            proof {
                assert forall|j: int| 0 <= j < i - from implies #[trigger] s@.subrange(
                    from as int,
                    to as int,
                )[j] != NUL_CHAR by {
                    assert(s@.subrange(from as int, to as int)[j] == s@[from + j]);
                }
                assert(s@.subrange(from as int, to as int)[i - from] == s@[i as int]);
                lemma_nul_split_is(s@.subrange(from as int, to as int), i - from);
            }
            return i;
        }
        i = i + 1;
    }
    proof {
        assert forall|j: int| 0 <= j < to - from implies #[trigger] s@.subrange(
            from as int,
            to as int,
        )[j] != NUL_CHAR by {
            assert(s@.subrange(from as int, to as int)[j] == s@[from + j]);
        }
        lemma_nul_split_is(s@.subrange(from as int, to as int), to - from);
    }
    to
}

/// Split a payload into its fields: NUL-separated pieces, the final empty
/// piece dropped.
pub fn read_fields(buf: &str) -> (r: Vec<String>)
    ensures
        fields_view(r@) == read_fields_spec(buf@),
{
    let n = buf.unicode_len();
    let mut res: Vec<String> = Vec::new();
    let mut pos: usize = 0;
    proof {
        assert(buf@.subrange(0, n as int) =~= buf@);
    }
    while pos <= n
        invariant
            pos <= n,
            n == buf@.len(),
            split_full(buf@) =~~= fields_view(res@) + split_full(
                buf@.subrange(pos as int, n as int),
            ),
        decreases n - pos,
    {
        let k = scan_nul(buf, pos, n);
        let ghost rest = buf@.subrange(pos as int, n as int);
        if k == n {
            proof {
                assert(split_full(rest) =~~= seq![rest]);
                assert(split_full(buf@).drop_last() =~~= fields_view(res@));
            }
            return res;
        }
        let piece = buf.substring_char(pos, k);
        res.push(piece.to_owned());
        proof {
            assert(rest.take(k - pos) =~= buf@.subrange(pos as int, k as int));
            assert(rest.skip(k - pos + 1) =~= buf@.subrange(k + 1, n as int));
            assert(split_full(rest) =~~= seq![buf@.subrange(pos as int, k as int)] + split_full(
                buf@.subrange(k + 1, n as int),
            ));
            assert(fields_view(res@) =~~= fields_view(res@.drop_last()).push(
                buf@.subrange(pos as int, k as int),
            ));
        }
        pos = k + 1;
    }
    proof {
        assert(false);
    }
    res
}

/// Terminate every field with NUL and concatenate.
pub fn join_fields(fields: &Vec<String>) -> (r: String)
    ensures
        r@ == join_spec(fields_view(fields@)),
{
    let mut out = String::new();
    let mut i: usize = 0;
    proof {
        assert(fields_view(fields@).take(0) =~~= Seq::<Seq<char>>::empty());
    }
    while i < fields.len()
        invariant
            i <= fields@.len(),
            out@ == join_spec(fields_view(fields@).take(i as int)),
        decreases fields@.len() - i,
    {
        out.append(fields[i].as_str());
        out.append("\u{0}");
        proof {
            reveal_strlit("\u{0}");
            assert("\u{0}"@ =~= seq![NUL_CHAR]);
            let fv = fields_view(fields@);
            assert(fv.take(i + 1) =~~= fv.take(i as int).push(fields@[i as int]@));
            lemma_join_snoc(fv.take(i as int), fields@[i as int]@);
        }
        i = i + 1;
    }
    proof {
        assert(fields_view(fields@).take(fields@.len() as int) =~~= fields_view(fields@));
    }
    out
}

// ------------------------------------------------------------------
// The split/join round trip
// ------------------------------------------------------------------

pub open spec fn no_nul(f: Seq<char>) -> bool {
    forall|i: int| 0 <= i < f.len() ==> #[trigger] f[i] != NUL_CHAR
}

proof fn lemma_split_full_join(fields: Seq<Seq<char>>)
    requires
        forall|k: int| 0 <= k < fields.len() ==> no_nul(#[trigger] fields[k]),
    ensures
        split_full(join_spec(fields)) =~~= fields.push(Seq::empty()),
    decreases fields.len(),
{
    if fields.len() == 0 {
        assert(join_spec(fields) =~= Seq::<char>::empty());
    } else {
        let f0 = fields[0];
        let t = join_spec(fields);
        assert(t == f0 + seq![NUL_CHAR] + join_spec(fields.skip(1)));
        assert forall|j: int| 0 <= j < f0.len() implies #[trigger] t[j] != NUL_CHAR by {
            assert(t[j] == f0[j]);
        }
        assert(t[f0.len() as int] == NUL_CHAR);
        lemma_nul_split_is(t, f0.len() as int);
        assert(t.take(f0.len() as int) =~= f0);
        assert(t.skip(f0.len() as int + 1) =~= join_spec(fields.skip(1)));
        lemma_split_full_join(fields.skip(1));
        assert(fields.skip(1).push(Seq::empty()) =~~= fields.push(Seq::empty()).skip(1));
        assert(split_full(t) =~~= seq![f0] + split_full(join_spec(fields.skip(1))));
    }
}

/// Splitting a joined field list gives the fields back, provided no field
/// contains the NUL separator itself.
pub proof fn lemma_split_join_round_trip(fields: Seq<Seq<char>>)
    requires
        forall|k: int| 0 <= k < fields.len() ==> no_nul(#[trigger] fields[k]),
    ensures
        read_fields_spec(join_spec(fields)) == fields,
{
    lemma_split_full_join(fields);
    assert(fields.push(Seq::empty()).drop_last() =~~= fields);
}

// ------------------------------------------------------------------
// Typed field encoding
// ------------------------------------------------------------------

/// A value to be encoded as one wire field.  The closed set of shapes
/// keeps wire formatting free of any runtime type inspection.
#[derive(Clone, Debug, PartialEq)]
pub enum FieldValue {
    Bool(bool),
    I32(i32),
    Usize(usize),
    Dbl(DoubleValue),
    Str(String),
}

pub open spec fn make_field_spec(v: FieldValue) -> Seq<char> {
    (match v {
        FieldValue::Bool(b) => (if b {
            seq!['1']
        } else {
            seq!['0']
        }),
        FieldValue::I32(i) => (if i == UNSET_INTEGER {
            Seq::<char>::empty()
        } else {
            int_text_of(i as int)
        }),
        FieldValue::Usize(u) => int_text_of(u as int),
        FieldValue::Dbl(d) => (match d {
            DoubleValue::Unset => Seq::<char>::empty(),
            DoubleValue::Num(s) => s@,
        }),
        FieldValue::Str(s) => s@,
    }) + seq![NUL_CHAR]
}

/// Encode one typed value as a NUL-terminated field.  Booleans become "0" or
/// "1"; the unset sentinels become an empty field; numbers become decimal
/// text; strings pass through unchanged.
pub fn make_field(val: &FieldValue) -> (r: Result<String, Error>)
    requires
        val matches FieldValue::Usize(u) ==> u <= 0x7fffffff,
    ensures
        r matches Ok(s) && s@ == make_field_spec(*val),
{
    proof {
        reveal_strlit("\u{0}");
        assert("\u{0}"@ =~= seq![NUL_CHAR]);
    }
    let mut out: String = match val {
        FieldValue::Bool(b) => {
            proof {
                reveal_strlit("1");
                reveal_strlit("0");
                assert("1"@ =~= seq!['1']);
                assert("0"@ =~= seq!['0']);
            }
            if *b {
                String::from_str("1")
            } else {
                String::from_str("0")
            }
        },
        FieldValue::I32(i) => {
            if *i == UNSET_INTEGER {
                String::new()
            } else {
                crate::numtext::i32_text(*i)
            }
        },
        FieldValue::Usize(u) => crate::numtext::i64_text(*u as i64),
        FieldValue::Dbl(d) => {
            match d {
                DoubleValue::Unset => String::new(),
                DoubleValue::Num(s) => s.clone(),
            }
        },
        FieldValue::Str(s) => s.clone(),
    };
    out.append("\u{0}");
    Ok(out)
}

/// As `make_field`: a second entry point for callers that spell out the
/// empty-field handling; the unset sentinels map to an empty field in each.
pub fn make_field_handle_empty(val: &FieldValue) -> (r: Result<String, Error>)
    requires
        val matches FieldValue::Usize(u) ==> u <= 0x7fffffff,
    ensures
        r matches Ok(s) && s@ == make_field_spec(*val),
{
    make_field(val)
}

// ------------------------------------------------------------------
// Frame codec
// ------------------------------------------------------------------

/// The four big-endian bytes of a length below 2^32.
pub open spec fn be_bytes_of(n: nat) -> Seq<u8> {
    seq![
        (n / 0x1000000) as u8,
        ((n / 0x10000) % 0x100) as u8,
        ((n / 0x100) % 0x100) as u8,
        (n % 0x100) as u8,
    ]
}

/// The unsigned value of four big-endian bytes.
pub open spec fn be32(b: Seq<u8>) -> nat
    recommends
        b.len() == 4,
{
    (((b[0] * 0x100 + b[1]) * 0x100 + b[2]) * 0x100 + b[3]) as nat
}

/// The frame that carries a payload: its UTF-8 byte length, then its bytes.
pub open spec fn frame_of(payload: Seq<char>) -> Seq<u8> {
    be_bytes_of(vstd::utf8::encode_utf8(payload).len()) + vstd::utf8::encode_utf8(payload)
}

/// What decoding a buffer yields: (declared length, payload, remainder).
/// Fewer than four bytes, or fewer payload bytes than declared, is an
/// "incomplete" result with the buffer unconsumed, never an error.
pub open spec fn frame_decode_spec(b: Seq<u8>) -> (nat, Seq<char>, Seq<u8>) {
    if b.len() < 4 {
        (0, Seq::<char>::empty(), b)
    } else {
        let sz = be32(b.subrange(0, 4));
        if b.len() - 4 >= sz {
            (
                sz,
                vstd::utf8::decode_utf8(b.subrange(4, 4 + sz as int)),
                b.subrange(4 + sz as int, b.len() as int),
            )
        } else {
            (sz, Seq::<char>::empty(), b)
        }
    }
}

/// Relies on String::from_utf8: it succeeds exactly on valid UTF-8 input and
/// yields the characters that those bytes encode.
#[verifier::external_body]
fn bytes_to_text(v: Vec<u8>) -> (r: Option<String>)
    ensures
        r is Some <==> vstd::utf8::valid_utf8(v@),
        r matches Some(s) ==> s@ == vstd::utf8::decode_utf8(v@),
{
    match String::from_utf8(v) {
        Ok(s) => Some(s),
        Err(_) => None,
    }
}

/// Frame a payload: prepend its 4-byte big-endian UTF-8 byte length.
pub fn make_message(msg: &str) -> (r: Result<Vec<u8>, Error>)
    requires
        msg.spec_bytes().len() <= 0x7fffffff,
    ensures
        r matches Ok(b) && b@ == frame_of(msg@),
{
    let bs = msg.as_bytes();
    let n: usize = bs.len();
    let mut out: Vec<u8> = Vec::new();
    out.push((n / 0x1000000) as u8);
    out.push(((n / 0x10000) % 0x100) as u8);
    out.push(((n / 0x100) % 0x100) as u8);
    out.push((n % 0x100) as u8);
    proof {
        assert(out@ =~= be_bytes_of(msg.spec_bytes().len()));
    }
    let mut i: usize = 0;
    while i < n
        invariant
            i <= n,
            n == bs@.len(),
            bs@ == msg.spec_bytes(),
            out@ =~= be_bytes_of(msg.spec_bytes().len()) + bs@.take(i as int),
        decreases n - i,
    {
        out.push(*vstd::slice::slice_index_get(bs, i));
        proof {
            assert(out@ =~= be_bytes_of(msg.spec_bytes().len()) + bs@.take(i + 1));
        }
        i = i + 1;
    }
    proof {
        assert(bs@.take(n as int) =~= bs@);
        assert(out@ =~= frame_of(msg@));
    }
    Ok(out)
}

/// Unframe a buffer.  Incomplete data is reported as such, never as an
/// error; a complete payload that is not valid UTF-8 is a typed error.
pub fn read_msg(buf: &[u8]) -> (r: Result<(usize, String, Vec<u8>), Error>)
    ensures
        r matches Ok(t) ==> ({
            let d = frame_decode_spec(buf@);
            t.0 == d.0 && t.1@ == d.1 && t.2@ == d.2
        }),
        r is Err <==> (buf@.len() >= 4 && buf@.len() - 4 >= be32(buf@.subrange(0, 4))
            && !vstd::utf8::valid_utf8(
            buf@.subrange(4, 4 + be32(buf@.subrange(0, 4)) as int),
        )),
        r matches Err(e) ==> e == Error::FromUtf8,
{
    let blen: usize = buf.len();
    if blen < 4 {
        return Ok((0, String::new(), vstd::slice::slice_to_vec(buf)));
    }
    let b0 = *vstd::slice::slice_index_get(buf, 0) as u64;
    let b1 = *vstd::slice::slice_index_get(buf, 1) as u64;
    let b2 = *vstd::slice::slice_index_get(buf, 2) as u64;
    let b3 = *vstd::slice::slice_index_get(buf, 3) as u64;
    let sz: u64 = ((b0 * 0x100 + b1) * 0x100 + b2) * 0x100 + b3;
    proof {
        assert(sz == be32(buf@.subrange(0, 4)));
    }
    if (blen as u64) - 4 >= sz {
        let szu: usize = sz as usize;
        let payload = vstd::slice::slice_to_vec(vstd::slice::slice_subrange(buf, 4, 4 + szu));
        match bytes_to_text(payload) {
            Some(text) => {
                let rest = vstd::slice::slice_to_vec(
                    vstd::slice::slice_subrange(buf, 4 + szu, blen),
                );
                Ok((szu, text, rest))
            },
            None => Err(Error::FromUtf8),
        }
    } else {
        Ok((sz as usize, String::new(), vstd::slice::slice_to_vec(buf)))
    }
}

proof fn lemma_be32_roundtrip(n: nat)
    requires
        n < 0x1_0000_0000,
    ensures
        be32(be_bytes_of(n)) == n,
{
    let x = n as int;
    vstd::arithmetic::div_mod::lemma_fundamental_div_mod(x, 0x100);
    vstd::arithmetic::div_mod::lemma_fundamental_div_mod(x / 0x100, 0x100);
    vstd::arithmetic::div_mod::lemma_fundamental_div_mod(x / 0x100 / 0x100, 0x100);
    vstd::arithmetic::div_mod::lemma_div_denominator(x, 0x100, 0x100);
    vstd::arithmetic::div_mod::lemma_div_denominator(x, 0x10000, 0x100);
    vstd::arithmetic::div_mod::lemma_mod_bound(x, 0x100);
    vstd::arithmetic::div_mod::lemma_mod_bound(x / 0x100, 0x100);
    vstd::arithmetic::div_mod::lemma_mod_bound(x / 0x100 / 0x100, 0x100);
    assert(x / 0x100 / 0x100 == x / 0x10000);
    assert(x / 0x10000 / 0x100 == x / 0x1000000);
    assert(x / 0x1000000 < 0x100);
    assert(x / 0x1000000 >= 0) by {
        vstd::arithmetic::div_mod::lemma_div_pos_is_pos(x, 0x1000000);
    }
}

// ------------------------------------------------------------------
// Typed messages
// ------------------------------------------------------------------

/// Financial-advisor data kinds carried by `ReceiveFa` / `ReqFa`.
#[derive(Clone, Copy, Debug, PartialEq, Eq, Structural)]
pub enum FAMessageDataTypes {
    Groups,
    Profiles,
    Aliases,
}

impl FAMessageDataTypes {
    /// The wire code of each kind.
    pub fn code(&self) -> (r: i32)
        ensures
            r == (match *self {
                FAMessageDataTypes::Groups => 1int,
                FAMessageDataTypes::Profiles => 2int,
                FAMessageDataTypes::Aliases => 3int,
            }),
    {
        match self {
            FAMessageDataTypes::Groups => 1,
            FAMessageDataTypes::Profiles => 2,
            FAMessageDataTypes::Aliases => 3,
        }
    }
}

#[derive(Clone, Debug, PartialEq)]
pub struct TickAttrib {
    pub can_auto_execute: bool,
    pub past_limit: bool,
    pub pre_open: bool,
}

#[derive(Clone, Debug, PartialEq)]
pub struct TickAttribBidAsk {
    pub bid_past_low: bool,
    pub ask_past_high: bool,
}

#[derive(Clone, Debug, PartialEq)]
pub struct TickAttribLast {
    pub past_limit: bool,
    pub unreported: bool,
}

/// The contract header fields that inbound messages spell out.  Prices and
/// other floating fields hold their wire text.
#[derive(Clone, Debug, PartialEq)]
pub struct Contract {
    pub con_id: i32,
    pub symbol: String,
    pub sec_type: String,
    pub last_trade_date_or_contract_month: String,
    pub strike: String,
    pub right: String,
    pub multiplier: String,
    pub exchange: String,
    pub primary_exchange: String,
    pub currency: String,
    pub local_symbol: String,
    pub trading_class: String,
}

#[derive(Clone, Debug, PartialEq)]
pub struct TagValue {
    pub tag: String,
    pub value: String,
}

#[derive(Clone, Debug, PartialEq)]
pub struct ContractDetails {
    pub contract: Contract,
    pub market_name: String,
    pub min_tick: String,
    pub order_types: String,
    pub valid_exchanges: String,
    pub price_magnifier: i32,
    pub under_con_id: i32,
    pub long_name: String,
    pub contract_month: String,
    pub industry: String,
    pub category: String,
    pub subcategory: String,
    pub time_zone_id: String,
    pub trading_hours: String,
    pub liquid_hours: String,
    pub ev_rule: String,
    pub ev_multiplier: String,
    pub md_size_multiplier: i32,
    pub agg_group: i32,
    pub under_symbol: String,
    pub under_sec_type: String,
    pub market_rule_ids: String,
    pub real_expiration_date: String,
    pub sec_id_list: Vec<TagValue>,
    pub last_trade_time: String,
    // bond-specific fields
    pub cusip: String,
    pub ratings: String,
    pub desc_append: String,
    pub bond_type: String,
    pub coupon_type: String,
    pub callable: bool,
    pub putable: bool,
    pub coupon: String,
    pub convertible: bool,
    pub maturity: String,
    pub issue_date: String,
    pub next_option_date: String,
    pub next_option_type: String,
    pub next_option_partial: bool,
    pub notes: String,
}

#[derive(Clone, Debug, PartialEq)]
pub struct Execution {
    pub order_id: i32,
    pub exec_id: String,
    pub time: String,
    pub acct_number: String,
    pub exchange: String,
    pub side: String,
    pub shares: String,
    pub price: String,
    pub perm_id: i32,
    pub client_id: i32,
    pub liquidation: i32,
    pub cum_qty: String,
    pub avg_price: String,
    pub order_ref: String,
    pub ev_rule: String,
    pub ev_multiplier: String,
    pub model_code: String,
    pub last_liquidity: i32,
}

#[derive(Clone, Debug, PartialEq)]
pub struct BarData {
    pub date: String,
    pub open: String,
    pub high: String,
    pub low: String,
    pub close: String,
    pub average: String,
    pub volume: i64,
    pub bar_count: i32,
}

#[derive(Clone, Debug, PartialEq)]
pub struct RealTimeBar {
    pub date_time: String,
    pub open: String,
    pub high: String,
    pub low: String,
    pub close: String,
    pub volume: i64,
    pub wap: String,
    pub count: i32,
}

#[derive(Clone, Debug, PartialEq)]
pub struct HistogramData {
    pub price: String,
    pub count: i32,
}

#[derive(Clone, Debug, PartialEq)]
pub struct HistoricalTick {
    pub time: i32,
    pub price: String,
    pub size: i32,
}

#[derive(Clone, Debug, PartialEq)]
pub struct HistoricalTickBidAsk {
    pub time: i32,
    pub tick_attrib_bid_ask: TickAttribBidAsk,
    pub price_bid: String,
    pub price_ask: String,
    pub size_bid: i32,
    pub size_ask: i32,
}

#[derive(Clone, Debug, PartialEq)]
pub struct HistoricalTickLast {
    pub time: i32,
    pub tick_attrib_last: TickAttribLast,
    pub price: String,
    pub size: i32,
    pub exchange: String,
    pub special_conditions: String,
}

#[derive(Clone, Debug, PartialEq)]
pub struct DeltaNeutralContract {
    pub con_id: i32,
    pub delta: String,
    pub price: String,
}

#[derive(Clone, Debug, PartialEq)]
pub struct CommissionReport {
    pub exec_id: String,
    pub commission: String,
    pub currency: String,
    pub realized_pnl: String,
    pub yield_: String,
    pub yield_redemption_date: String,
}

#[derive(Clone, Debug, PartialEq)]
pub struct FamilyCode {
    pub account_id: String,
    pub family_code_str: String,
}

#[derive(Clone, Debug, PartialEq)]
pub struct NewsProvider {
    pub code: String,
    pub name: String,
}

#[derive(Clone, Debug, PartialEq)]
pub struct PriceIncrement {
    pub low_edge: String,
    pub increment: String,
}

#[derive(Clone, Debug, PartialEq)]
pub struct SmartComponent {
    pub bit_number: i32,
    pub exchange: String,
    pub exchange_letter: String,
}

#[derive(Clone, Debug, PartialEq)]
pub struct DepthMktDataDescription {
    pub exchange: String,
    pub sec_type: String,
    pub listing_exch: String,
    pub service_data_type: String,
    pub agg_group: i32,
}

#[derive(Clone, Debug, PartialEq)]
pub struct SoftDollarTier {
    pub name: String,
    pub val: String,
    pub display_name: String,
}

#[derive(Clone, Debug, PartialEq)]
pub struct ContractDescription {
    pub contract: Contract,
    pub derivative_sec_types: Vec<String>,
}

/// The payload of a tick-by-tick message, by its tick kind.
#[derive(Clone, Debug, PartialEq)]
pub enum TickMsgType {
    AllLast {
        price: String,
        size: i32,
        tick_attrib_last: TickAttribLast,
        exchange: String,
        special_conditions: String,
    },
    BidAsk {
        bid_price: String,
        ask_price: String,
        bid_size: i32,
        ask_size: i32,
        tick_attrib_bid_ask: TickAttribBidAsk,
    },
    MidPoint { mid_point: String },
}

/// The response message kinds, in the order of their wire ids.
#[derive(Clone, Copy, Debug, PartialEq, Eq, Structural)]
pub enum ServerRspMsgDiscriminants {
    TickPrice,
    TickSize,
    OrderStatus,
    ErrMsg,
    OpenOrder,
    AcctValue,
    PortfolioValue,
    AcctUpdateTime,
    NextValidId,
    ContractData,
    ExecutionData,
    MarketDepth,
    MarketDepthL2,
    NewsBulletins,
    ManagedAccts,
    ReceiveFa,
    HistoricalData,
    BondContractData,
    ScannerParameters,
    ScannerData,
    TickOptionComputation,
    TickGeneric,
    TickString,
    TickEfp,
    CurrentTime,
    RealTimeBars,
    FundamentalData,
    ContractDataEnd,
    OpenOrderEnd,
    AcctDownloadEnd,
    ExecutionDataEnd,
    DeltaNeutralValidation,
    TickSnapshotEnd,
    MarketDataType,
    CommissionReport,
    PositionData,
    PositionEnd,
    AccountSummary,
    AccountSummaryEnd,
    VerifyMessageApi,
    VerifyCompleted,
    DisplayGroupList,
    DisplayGroupUpdated,
    VerifyAndAuthMessageApi,
    VerifyAndAuthCompleted,
    PositionMulti,
    PositionMultiEnd,
    AccountUpdateMulti,
    AccountUpdateMultiEnd,
    SecurityDefinitionOptionParameter,
    SecurityDefinitionOptionParameterEnd,
    SoftDollarTiers,
    FamilyCodes,
    SymbolSamples,
    MktDepthExchanges,
    TickReqParams,
    SmartComponents,
    NewsArticle,
    TickNews,
    NewsProviders,
    HistoricalNews,
    HistoricalNewsEnd,
    HeadTimestamp,
    HistogramData,
    HistoricalDataUpdate,
    RerouteMktDataReq,
    RerouteMktDepthReq,
    MarketRule,
    Pnl,
    PnlSingle,
    HistoricalTicks,
    HistoricalTicksBidAsk,
    HistoricalTicksLast,
    TickByTick,
    OrderBound,
    CompletedOrder,
    CompletedOrdersEnd,
}

/// The response kind a wire message-id denotes, if any.
pub open spec fn rsp_kind_of(id: int) -> Option<ServerRspMsgDiscriminants> {
    if id == 1 { Some(ServerRspMsgDiscriminants::TickPrice) }
    else if id == 2 { Some(ServerRspMsgDiscriminants::TickSize) }
    else if id == 3 { Some(ServerRspMsgDiscriminants::OrderStatus) }
    else if id == 4 { Some(ServerRspMsgDiscriminants::ErrMsg) }
    else if id == 5 { Some(ServerRspMsgDiscriminants::OpenOrder) }
    else if id == 6 { Some(ServerRspMsgDiscriminants::AcctValue) }
    else if id == 7 { Some(ServerRspMsgDiscriminants::PortfolioValue) }
    else if id == 8 { Some(ServerRspMsgDiscriminants::AcctUpdateTime) }
    else if id == 9 { Some(ServerRspMsgDiscriminants::NextValidId) }
    else if id == 10 { Some(ServerRspMsgDiscriminants::ContractData) }
    else if id == 11 { Some(ServerRspMsgDiscriminants::ExecutionData) }
    else if id == 12 { Some(ServerRspMsgDiscriminants::MarketDepth) }
    else if id == 13 { Some(ServerRspMsgDiscriminants::MarketDepthL2) }
    else if id == 14 { Some(ServerRspMsgDiscriminants::NewsBulletins) }
    else if id == 15 { Some(ServerRspMsgDiscriminants::ManagedAccts) }
    else if id == 16 { Some(ServerRspMsgDiscriminants::ReceiveFa) }
    else if id == 17 { Some(ServerRspMsgDiscriminants::HistoricalData) }
    else if id == 18 { Some(ServerRspMsgDiscriminants::BondContractData) }
    else if id == 19 { Some(ServerRspMsgDiscriminants::ScannerParameters) }
    else if id == 20 { Some(ServerRspMsgDiscriminants::ScannerData) }
    else if id == 21 { Some(ServerRspMsgDiscriminants::TickOptionComputation) }
    else if id == 45 { Some(ServerRspMsgDiscriminants::TickGeneric) }
    else if id == 46 { Some(ServerRspMsgDiscriminants::TickString) }
    else if id == 47 { Some(ServerRspMsgDiscriminants::TickEfp) }
    else if id == 49 { Some(ServerRspMsgDiscriminants::CurrentTime) }
    else if id == 50 { Some(ServerRspMsgDiscriminants::RealTimeBars) }
    else if id == 51 { Some(ServerRspMsgDiscriminants::FundamentalData) }
    else if id == 52 { Some(ServerRspMsgDiscriminants::ContractDataEnd) }
    else if id == 53 { Some(ServerRspMsgDiscriminants::OpenOrderEnd) }
    else if id == 54 { Some(ServerRspMsgDiscriminants::AcctDownloadEnd) }
    else if id == 55 { Some(ServerRspMsgDiscriminants::ExecutionDataEnd) }
    else if id == 56 { Some(ServerRspMsgDiscriminants::DeltaNeutralValidation) }
    else if id == 57 { Some(ServerRspMsgDiscriminants::TickSnapshotEnd) }
    else if id == 58 { Some(ServerRspMsgDiscriminants::MarketDataType) }
    else if id == 59 { Some(ServerRspMsgDiscriminants::CommissionReport) }
    else if id == 61 { Some(ServerRspMsgDiscriminants::PositionData) }
    else if id == 62 { Some(ServerRspMsgDiscriminants::PositionEnd) }
    else if id == 63 { Some(ServerRspMsgDiscriminants::AccountSummary) }
    else if id == 64 { Some(ServerRspMsgDiscriminants::AccountSummaryEnd) }
    else if id == 65 { Some(ServerRspMsgDiscriminants::VerifyMessageApi) }
    else if id == 66 { Some(ServerRspMsgDiscriminants::VerifyCompleted) }
    else if id == 67 { Some(ServerRspMsgDiscriminants::DisplayGroupList) }
    else if id == 68 { Some(ServerRspMsgDiscriminants::DisplayGroupUpdated) }
    else if id == 69 { Some(ServerRspMsgDiscriminants::VerifyAndAuthMessageApi) }
    else if id == 70 { Some(ServerRspMsgDiscriminants::VerifyAndAuthCompleted) }
    else if id == 71 { Some(ServerRspMsgDiscriminants::PositionMulti) }
    else if id == 72 { Some(ServerRspMsgDiscriminants::PositionMultiEnd) }
    else if id == 73 { Some(ServerRspMsgDiscriminants::AccountUpdateMulti) }
    else if id == 74 { Some(ServerRspMsgDiscriminants::AccountUpdateMultiEnd) }
    else if id == 75 { Some(ServerRspMsgDiscriminants::SecurityDefinitionOptionParameter) }
    else if id == 76 { Some(ServerRspMsgDiscriminants::SecurityDefinitionOptionParameterEnd) }
    else if id == 77 { Some(ServerRspMsgDiscriminants::SoftDollarTiers) }
    else if id == 78 { Some(ServerRspMsgDiscriminants::FamilyCodes) }
    else if id == 79 { Some(ServerRspMsgDiscriminants::SymbolSamples) }
    else if id == 80 { Some(ServerRspMsgDiscriminants::MktDepthExchanges) }
    else if id == 81 { Some(ServerRspMsgDiscriminants::TickReqParams) }
    else if id == 82 { Some(ServerRspMsgDiscriminants::SmartComponents) }
    else if id == 83 { Some(ServerRspMsgDiscriminants::NewsArticle) }
    else if id == 84 { Some(ServerRspMsgDiscriminants::TickNews) }
    else if id == 85 { Some(ServerRspMsgDiscriminants::NewsProviders) }
    else if id == 86 { Some(ServerRspMsgDiscriminants::HistoricalNews) }
    else if id == 87 { Some(ServerRspMsgDiscriminants::HistoricalNewsEnd) }
    else if id == 88 { Some(ServerRspMsgDiscriminants::HeadTimestamp) }
    else if id == 89 { Some(ServerRspMsgDiscriminants::HistogramData) }
    else if id == 90 { Some(ServerRspMsgDiscriminants::HistoricalDataUpdate) }
    else if id == 91 { Some(ServerRspMsgDiscriminants::RerouteMktDataReq) }
    else if id == 92 { Some(ServerRspMsgDiscriminants::RerouteMktDepthReq) }
    else if id == 93 { Some(ServerRspMsgDiscriminants::MarketRule) }
    else if id == 94 { Some(ServerRspMsgDiscriminants::Pnl) }
    else if id == 95 { Some(ServerRspMsgDiscriminants::PnlSingle) }
    else if id == 96 { Some(ServerRspMsgDiscriminants::HistoricalTicks) }
    else if id == 97 { Some(ServerRspMsgDiscriminants::HistoricalTicksBidAsk) }
    else if id == 98 { Some(ServerRspMsgDiscriminants::HistoricalTicksLast) }
    else if id == 99 { Some(ServerRspMsgDiscriminants::TickByTick) }
    else if id == 100 { Some(ServerRspMsgDiscriminants::OrderBound) }
    else if id == 101 { Some(ServerRspMsgDiscriminants::CompletedOrder) }
    else if id == 102 { Some(ServerRspMsgDiscriminants::CompletedOrdersEnd) }
    else { None }
}

impl ServerRspMsgDiscriminants {
    /// The response kind a wire message-id denotes, if any.
    pub fn from_i32(id: i32) -> (r: Option<ServerRspMsgDiscriminants>)
        ensures
            r == rsp_kind_of(id as int),
    {
        match id {
            1 => Some(ServerRspMsgDiscriminants::TickPrice),
            2 => Some(ServerRspMsgDiscriminants::TickSize),
            3 => Some(ServerRspMsgDiscriminants::OrderStatus),
            4 => Some(ServerRspMsgDiscriminants::ErrMsg),
            5 => Some(ServerRspMsgDiscriminants::OpenOrder),
            6 => Some(ServerRspMsgDiscriminants::AcctValue),
            7 => Some(ServerRspMsgDiscriminants::PortfolioValue),
            8 => Some(ServerRspMsgDiscriminants::AcctUpdateTime),
            9 => Some(ServerRspMsgDiscriminants::NextValidId),
            10 => Some(ServerRspMsgDiscriminants::ContractData),
            11 => Some(ServerRspMsgDiscriminants::ExecutionData),
            12 => Some(ServerRspMsgDiscriminants::MarketDepth),
            13 => Some(ServerRspMsgDiscriminants::MarketDepthL2),
            14 => Some(ServerRspMsgDiscriminants::NewsBulletins),
            15 => Some(ServerRspMsgDiscriminants::ManagedAccts),
            16 => Some(ServerRspMsgDiscriminants::ReceiveFa),
            17 => Some(ServerRspMsgDiscriminants::HistoricalData),
            18 => Some(ServerRspMsgDiscriminants::BondContractData),
            19 => Some(ServerRspMsgDiscriminants::ScannerParameters),
            20 => Some(ServerRspMsgDiscriminants::ScannerData),
            21 => Some(ServerRspMsgDiscriminants::TickOptionComputation),
            45 => Some(ServerRspMsgDiscriminants::TickGeneric),
            46 => Some(ServerRspMsgDiscriminants::TickString),
            47 => Some(ServerRspMsgDiscriminants::TickEfp),
            49 => Some(ServerRspMsgDiscriminants::CurrentTime),
            50 => Some(ServerRspMsgDiscriminants::RealTimeBars),
            51 => Some(ServerRspMsgDiscriminants::FundamentalData),
            52 => Some(ServerRspMsgDiscriminants::ContractDataEnd),
            53 => Some(ServerRspMsgDiscriminants::OpenOrderEnd),
            54 => Some(ServerRspMsgDiscriminants::AcctDownloadEnd),
            55 => Some(ServerRspMsgDiscriminants::ExecutionDataEnd),
            56 => Some(ServerRspMsgDiscriminants::DeltaNeutralValidation),
            57 => Some(ServerRspMsgDiscriminants::TickSnapshotEnd),
            58 => Some(ServerRspMsgDiscriminants::MarketDataType),
            59 => Some(ServerRspMsgDiscriminants::CommissionReport),
            61 => Some(ServerRspMsgDiscriminants::PositionData),
            62 => Some(ServerRspMsgDiscriminants::PositionEnd),
            63 => Some(ServerRspMsgDiscriminants::AccountSummary),
            64 => Some(ServerRspMsgDiscriminants::AccountSummaryEnd),
            65 => Some(ServerRspMsgDiscriminants::VerifyMessageApi),
            66 => Some(ServerRspMsgDiscriminants::VerifyCompleted),
            67 => Some(ServerRspMsgDiscriminants::DisplayGroupList),
            68 => Some(ServerRspMsgDiscriminants::DisplayGroupUpdated),
            69 => Some(ServerRspMsgDiscriminants::VerifyAndAuthMessageApi),
            70 => Some(ServerRspMsgDiscriminants::VerifyAndAuthCompleted),
            71 => Some(ServerRspMsgDiscriminants::PositionMulti),
            72 => Some(ServerRspMsgDiscriminants::PositionMultiEnd),
            73 => Some(ServerRspMsgDiscriminants::AccountUpdateMulti),
            74 => Some(ServerRspMsgDiscriminants::AccountUpdateMultiEnd),
            75 => Some(ServerRspMsgDiscriminants::SecurityDefinitionOptionParameter),
            76 => Some(ServerRspMsgDiscriminants::SecurityDefinitionOptionParameterEnd),
            77 => Some(ServerRspMsgDiscriminants::SoftDollarTiers),
            78 => Some(ServerRspMsgDiscriminants::FamilyCodes),
            79 => Some(ServerRspMsgDiscriminants::SymbolSamples),
            80 => Some(ServerRspMsgDiscriminants::MktDepthExchanges),
            81 => Some(ServerRspMsgDiscriminants::TickReqParams),
            82 => Some(ServerRspMsgDiscriminants::SmartComponents),
            83 => Some(ServerRspMsgDiscriminants::NewsArticle),
            84 => Some(ServerRspMsgDiscriminants::TickNews),
            85 => Some(ServerRspMsgDiscriminants::NewsProviders),
            86 => Some(ServerRspMsgDiscriminants::HistoricalNews),
            87 => Some(ServerRspMsgDiscriminants::HistoricalNewsEnd),
            88 => Some(ServerRspMsgDiscriminants::HeadTimestamp),
            89 => Some(ServerRspMsgDiscriminants::HistogramData),
            90 => Some(ServerRspMsgDiscriminants::HistoricalDataUpdate),
            91 => Some(ServerRspMsgDiscriminants::RerouteMktDataReq),
            92 => Some(ServerRspMsgDiscriminants::RerouteMktDepthReq),
            93 => Some(ServerRspMsgDiscriminants::MarketRule),
            94 => Some(ServerRspMsgDiscriminants::Pnl),
            95 => Some(ServerRspMsgDiscriminants::PnlSingle),
            96 => Some(ServerRspMsgDiscriminants::HistoricalTicks),
            97 => Some(ServerRspMsgDiscriminants::HistoricalTicksBidAsk),
            98 => Some(ServerRspMsgDiscriminants::HistoricalTicksLast),
            99 => Some(ServerRspMsgDiscriminants::TickByTick),
            100 => Some(ServerRspMsgDiscriminants::OrderBound),
            101 => Some(ServerRspMsgDiscriminants::CompletedOrder),
            102 => Some(ServerRspMsgDiscriminants::CompletedOrdersEnd),
            _ => None,
        }
    }
}

/// A decoded response message.  Floating fields hold their wire text; the
/// order payloads of `OpenOrder` and `CompletedOrder` are carried raw, since
/// the order object is an opaque domain value to this codec.
#[derive(Clone, Debug, PartialEq)]
pub enum ServerRspMsg {
    TickPrice { req_id: i32, tick_type: i32, price: String, tick_attr: TickAttrib },
    TickSize { req_id: i32, tick_type: i32, size: i32 },
    OrderStatus {
        order_id: i32,
        status: String,
        filled: String,
        remaining: String,
        avg_fill_price: String,
        perm_id: i32,
        parent_id: i32,
        last_fill_price: String,
        client_id: i32,
        why_held: String,
        mkt_cap_price: String,
    },
    ErrMsg { req_id: i32, error_code: i32, error_str: String },
    OpenOrder { version: i32, fields: Vec<String> },
    AcctValue { key: String, val: String, currency: String, account_name: String },
    PortfolioValue {
        contract: Contract,
        position: String,
        market_price: String,
        market_value: String,
        average_cost: String,
        unrealized_pnl: String,
        realized_pnl: String,
        account_name: String,
    },
    AcctUpdateTime { time_stamp: String },
    NextValidId { order_id: i32 },
    ContractData { req_id: i32, contract_details: ContractDetails },
    ExecutionData { req_id: i32, contract: Contract, execution: Execution },
    MarketDepth {
        req_id: i32,
        position: i32,
        operation: i32,
        side: i32,
        price: String,
        size: i32,
    },
    MarketDepthL2 {
        req_id: i32,
        position: i32,
        market_maker: String,
        operation: i32,
        side: i32,
        price: String,
        size: i32,
        is_smart_depth: bool,
    },
    NewsBulletins { msg_id: i32, msg_type: i32, news_message: String, origin_exch: String },
    ManagedAccts { accounts_list: String },
    ReceiveFa { fa_data: i32, cxml: String },
    HistoricalData { req_id: i32, bar: BarData },
    HistoricalDataEnd { req_id: i32, start: String, end: String },
    BondContractData { req_id: i32, contract_details: ContractDetails },
    ScannerParameters { xml: String },
    ScannerData {
        req_id: i32,
        rank: i32,
        contract_details: ContractDetails,
        distance: String,
        benchmark: String,
        projection: String,
        legs_str: String,
    },
    ScannerDataEnd { req_id: i32 },
    TickOptionComputation {
        ticker_id: i32,
        tick_type: i32,
        implied_vol: DoubleValue,
        delta: DoubleValue,
        opt_price: DoubleValue,
        pv_dividend: DoubleValue,
        gamma: DoubleValue,
        vega: DoubleValue,
        theta: DoubleValue,
        und_price: DoubleValue,
    },
    TickGeneric { ticker_id: i32, tick_type: i32, value: String },
    TickString { req_id: i32, tick_type: i32, value: String },
    TickEfp {
        ticker_id: i32,
        tick_type: i32,
        basis_points: String,
        formatted_basis_points: String,
        implied_futures_price: String,
        hold_days: i32,
        future_last_trade_date: String,
        dividend_impact: String,
        dividends_to_last_trade_date: String,
    },
    CurrentTime { time: i64 },
    RealTimeBars { req_id: i32, bar: RealTimeBar },
    FundamentalData { req_id: i32, data: String },
    ContractDataEnd { req_id: i32 },
    OpenOrderEnd,
    AcctDownloadEnd { account_name: String },
    ExecutionDataEnd { req_id: i32 },
    DeltaNeutralValidation { req_id: i32, delta_neutral_contract: DeltaNeutralContract },
    TickSnapshotEnd { req_id: i32 },
    MarketDataType { req_id: i32, market_data_type: i32 },
    CommissionReport { commission_report: CommissionReport },
    PositionData { account: String, contract: Contract, position: String, avg_cost: String },
    PositionEnd,
    AccountSummary {
        req_id: i32,
        account: String,
        tag: String,
        value: String,
        currency: String,
    },
    AccountSummaryEnd { req_id: i32 },
    VerifyMessageApi { api_data: String },
    VerifyCompleted { is_successful: bool, error_text: String },
    DisplayGroupList { req_id: i32, groups: String },
    DisplayGroupUpdated { req_id: i32, contract_info: String },
    VerifyAndAuthMessageApi { api_data: String, xyz_challenge: String },
    VerifyAndAuthCompleted { is_successful: bool, error_text: String },
    PositionMulti {
        req_id: i32,
        account: String,
        model_code: String,
        contract: Contract,
        position: String,
        avg_cost: String,
    },
    PositionMultiEnd { req_id: i32 },
    AccountUpdateMulti {
        req_id: i32,
        account: String,
        model_code: String,
        key: String,
        value: String,
        currency: String,
    },
    AccountUpdateMultiEnd { req_id: i32 },
    SecurityDefinitionOptionParameter {
        req_id: i32,
        exchange: String,
        underlying_con_id: i32,
        trading_class: String,
        multiplier: String,
        expirations: Vec<String>,
        strikes: Vec<String>,
    },
    SecurityDefinitionOptionParameterEnd { req_id: i32 },
    SoftDollarTiers { req_id: i32, tiers: Vec<SoftDollarTier> },
    FamilyCodes { family_codes: Vec<FamilyCode> },
    SymbolSamples { req_id: i32, contract_descriptions: Vec<ContractDescription> },
    MktDepthExchanges { depth_mkt_data_descriptions: Vec<DepthMktDataDescription> },
    TickReqParams {
        ticker_id: i32,
        min_tick: String,
        bbo_exchange: String,
        snapshot_permissions: i32,
    },
    SmartComponents { req_id: i32, smart_components: Vec<SmartComponent> },
    NewsArticle { req_id: i32, article_type: i32, article_text: String },
    TickNews {
        ticker_id: i32,
        time_stamp: i32,
        provider_code: String,
        article_id: String,
        headline: String,
        extra_data: String,
    },
    NewsProviders { news_providers: Vec<NewsProvider> },
    HistoricalNews {
        req_id: i32,
        time: String,
        provider_code: String,
        article_id: String,
        headline: String,
    },
    HistoricalNewsEnd { req_id: i32, has_more: bool },
    HeadTimestamp { req_id: i32, head_timestamp: String },
    HistogramData { req_id: i32, items: Vec<HistogramData> },
    HistoricalDataUpdate { req_id: i32, bar: BarData },
    RerouteMktDataReq { req_id: i32, con_id: i32, exchange: String },
    RerouteMktDepthReq { req_id: i32, con_id: i32, exchange: String },
    MarketRule { market_rule_id: i32, price_increments: Vec<PriceIncrement> },
    Pnl { req_id: i32, daily_pnl: String, unrealized_pnl: String, realized_pnl: String },
    PnlSingle {
        req_id: i32,
        pos: i32,
        daily_pnl: String,
        unrealized_pnl: String,
        realized_pnl: String,
        value: String,
    },
    HistoricalTicks { req_id: i32, ticks: Vec<HistoricalTick>, done: bool },
    HistoricalTicksBidAsk { req_id: i32, ticks: Vec<HistoricalTickBidAsk>, done: bool },
    HistoricalTicksLast { req_id: i32, ticks: Vec<HistoricalTickLast>, done: bool },
    TickByTick { req_id: i32, tick_type: i32, time: i64, tick_msg: TickMsgType },
    OrderBound { req_id: i32, api_client_id: i32, api_order_id: i32 },
    CompletedOrder { fields: Vec<String> },
    CompletedOrdersEnd,
}

/// Decoding an encoded frame yields the payload's byte length, the payload
/// itself, and an empty remainder.
pub proof fn lemma_frame_round_trip(payload: Seq<char>)
    requires
        vstd::utf8::encode_utf8(payload).len() <= 0x7fffffff,
    ensures
        frame_decode_spec(frame_of(payload)) == (
            vstd::utf8::encode_utf8(payload).len(),
            payload,
            Seq::<u8>::empty(),
        ),
{
    broadcast use vstd::utf8::encode_utf8_decode_utf8;

    let bs = vstd::utf8::encode_utf8(payload);
    let fr = frame_of(payload);
    assert(fr.subrange(0, 4) =~= be_bytes_of(bs.len()));
    lemma_be32_roundtrip(bs.len());
    assert(fr.subrange(4, 4 + bs.len() as int) =~= bs);
    assert(fr.subrange(4 + bs.len() as int, fr.len() as int) =~= Seq::<u8>::empty());
}

} // verus!
