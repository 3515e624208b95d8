//! Decimal text: the numeric grammar of wire fields.
//!
//! Integer fields are parsed and printed by verified routines below.  Floating
//! fields are kept as their wire text throughout the library; this module
//! classifies such text (is it a well-formed number, does it denote zero, does
//! it denote a small negative integer) so that the decoder can apply the
//! protocol's sentinel rules without floating-point arithmetic.

use vstd::prelude::*;

verus! {

// ------------------------------------------------------------------
// Decimal digits
// ------------------------------------------------------------------

pub open spec fn is_dec_digit(c: char) -> bool {
    48 <= c as u32 && c as u32 <= 57
}

pub open spec fn digit_val(c: char) -> int {
    c as u32 - 48
}

pub open spec fn all_dec_digits(s: Seq<char>) -> bool {
    forall|i: int| 0 <= i < s.len() ==> is_dec_digit(#[trigger] s[i])
}

/// Value of a digit string read as base-10, most significant first.
pub open spec fn dec_val(s: Seq<char>) -> int
    decreases s.len(),
{
    if s.len() == 0 {
        0
    } else {
        dec_val(s.drop_last()) * 10 + digit_val(s.last())
    }
}

pub proof fn lemma_dec_val_nonneg(s: Seq<char>)
    requires
        all_dec_digits(s),
    ensures
        dec_val(s) >= 0,
    decreases s.len(),
{
    if s.len() > 0 {
        lemma_dec_val_nonneg(s.drop_last());
    }
}

/// A longer digit string is worth at least as much as any of its prefixes.
pub proof fn lemma_dec_val_prefix(s: Seq<char>, k: int)
    requires
        all_dec_digits(s),
        0 <= k <= s.len(),
    ensures
        dec_val(s) >= dec_val(s.take(k)),
    decreases s.len() - k,
{
    if k < s.len() {
        assert(s.take(k + 1).drop_last() =~= s.take(k));
        assert(s.take(k + 1).last() == s[k]);
        lemma_dec_val_nonneg(s.take(k));
        lemma_dec_val_prefix(s, k + 1);
    } else {
        assert(s.take(k) =~= s);
    }
}

// ------------------------------------------------------------------
// Integer text: optional sign, then one or more digits (the grammar of
// Rust's integer parsing, which the wire format relies on).
// ------------------------------------------------------------------

pub open spec fn int_text_body(s: Seq<char>) -> Seq<char> {
    if s.len() > 0 && (s[0] == '-' || s[0] == '+') {
        s.skip(1)
    } else {
        s
    }
}

pub open spec fn int_text_neg(s: Seq<char>) -> bool {
    s.len() > 0 && s[0] == '-'
}

pub open spec fn is_int_text(s: Seq<char>) -> bool {
    int_text_body(s).len() > 0 && all_dec_digits(int_text_body(s))
}

pub open spec fn int_text_val(s: Seq<char>) -> int {
    if int_text_neg(s) {
        -dec_val(int_text_body(s))
    } else {
        dec_val(int_text_body(s))
    }
}

pub open spec fn parse_i64_spec(s: Seq<char>) -> Option<i64> {
    if is_int_text(s) && i64::MIN <= int_text_val(s) && int_text_val(s) <= i64::MAX {
        Some(int_text_val(s) as i64)
    } else {
        None
    }
}

pub open spec fn parse_i32_spec(s: Seq<char>) -> Option<i32> {
    if is_int_text(s) && i32::MIN <= int_text_val(s) && int_text_val(s) <= i32::MAX {
        Some(int_text_val(s) as i32)
    } else {
        None
    }
}

/// Parse an optionally signed decimal integer, exactly when the text fits the
/// grammar and the value fits in an `i64`.
pub fn parse_i64(s: &str) -> (r: Option<i64>)
    ensures
        r == parse_i64_spec(s@),
{
    let n = s.unicode_len();
    if n == 0 {
        return None;
    }
    let first = s.get_char(0);
    let neg = first == '-';
    let has_sign = neg || first == '+';
    let start: usize = if has_sign {
        1
    } else {
        0
    };
    proof {
        assert(int_text_body(s@) =~= s@.subrange(start as int, n as int));
    }
    if start == n {
        return None;
    }
    let mut acc: u128 = 0;
    let mut i: usize = start;
    while i < n
        invariant
            start <= i <= n,
            n == s@.len(),
            start == (if s@.len() > 0 && (s@[0] == '-' || s@[0] == '+') {
                1int
            } else {
                0int
            }),
            all_dec_digits(s@.subrange(start as int, i as int)),
            acc == dec_val(s@.subrange(start as int, i as int)),
            acc <= 0x8000_0000_0000_0000,
        decreases n - i,
    {
        let c = s.get_char(i);
        let cu = c as u32;
        if cu < 48 || cu > 57 {
            proof {
                assert(int_text_body(s@)[i - start] == s@[i as int]);
                assert(!is_dec_digit(int_text_body(s@)[i - start]));
            }
            return None;
        }
        let d = (cu - 48) as u128;
        proof {
            assert(s@.subrange(start as int, i + 1).drop_last() =~= s@.subrange(
                start as int,
                i as int,
            ));
            assert(s@.subrange(start as int, i + 1).last() == s@[i as int]);
        }
        acc = acc * 10 + d;
        i = i + 1;
        if acc > 0x8000_0000_0000_0000u128 {
            // Any further digits only make the magnitude larger, so the value
            // cannot fit in an i64 whatever follows.
            proof {
                if is_int_text(s@) {
                    let body = int_text_body(s@);
                    lemma_dec_val_prefix(body, i - start);
                    assert(body.take(i - start) =~= s@.subrange(start as int, i as int));
                    assert(dec_val(body) > 0x8000_0000_0000_0000);
                }
            }
            return None;
        }
    }
    proof {
        assert(s@.subrange(start as int, n as int) =~= int_text_body(s@));
        assert(is_int_text(s@));
    }
    if neg {
        if acc == 0x8000_0000_0000_0000u128 {
            Some(i64::MIN)
        } else {
            Some(-(acc as i64))
        }
    } else {
        if acc >= 0x8000_0000_0000_0000u128 {
            None
        } else {
            Some(acc as i64)
        }
    }
}

pub fn parse_i32(s: &str) -> (r: Option<i32>)
    ensures
        r == parse_i32_spec(s@),
{
    match parse_i64(s) {
        Some(v) => {
            if -2147483648i64 <= v && v <= 2147483647i64 {
                Some(v as i32)
            } else {
                None
            }
        },
        None => None,
    }
}

/// Does the text fit the integer grammar and denote exactly `target`?
/// Any admitted target is small enough that longer digit strings can be
/// rejected outright.
fn int_text_equals(s: &str, target: i128) -> (r: bool)
    requires
        -0x1_0000_0000_0000_0000 <= target <= 0x1_0000_0000_0000_0000,
    ensures
        r == (is_int_text(s@) && int_text_val(s@) == target),
{
    let n = s.unicode_len();
    if n == 0 {
        return false;
    }
    let first = s.get_char(0);
    let neg = first == '-';
    let has_sign = neg || first == '+';
    let start: usize = if has_sign {
        1
    } else {
        0
    };
    proof {
        assert(int_text_body(s@) =~= s@.subrange(start as int, n as int));
    }
    if start == n {
        return false;
    }
    let mut acc: u128 = 0;
    let mut i: usize = start;
    while i < n
        invariant
            start <= i <= n,
            n == s@.len(),
            start == (if s@.len() > 0 && (s@[0] == '-' || s@[0] == '+') {
                1int
            } else {
                0int
            }),
            all_dec_digits(s@.subrange(start as int, i as int)),
            acc == dec_val(s@.subrange(start as int, i as int)),
            acc <= 0x1_0000_0000_0000_0000,
            -0x1_0000_0000_0000_0000 <= target <= 0x1_0000_0000_0000_0000,
        decreases n - i,
    {
        let c = s.get_char(i);
        let cu = c as u32;
        if cu < 48 || cu > 57 {
            proof {
                assert(int_text_body(s@)[i - start] == s@[i as int]);
                assert(!is_dec_digit(int_text_body(s@)[i - start]));
            }
            return false;
        }
        let d = (cu - 48) as u128;
        proof {
            assert(s@.subrange(start as int, i + 1).drop_last() =~= s@.subrange(
                start as int,
                i as int,
            ));
            assert(s@.subrange(start as int, i + 1).last() == s@[i as int]);
        }
        acc = acc * 10 + d;
        i = i + 1;
        if acc > 0x1_0000_0000_0000_0000u128 {
            // the magnitude already exceeds any admitted target
            proof {
                if is_int_text(s@) {
                    let body = int_text_body(s@);
                    lemma_dec_val_prefix(body, i - start);
                    assert(body.take(i - start) =~= s@.subrange(start as int, i as int));
                    assert(dec_val(body) > 0x1_0000_0000_0000_0000);
                    if int_text_neg(s@) {
                        assert(int_text_val(s@) < target);
                    } else {
                        assert(int_text_val(s@) > target);
                    }
                }
            }
            return false;
        }
    }
    proof {
        assert(s@.subrange(start as int, n as int) =~= int_text_body(s@));
        assert(is_int_text(s@));
    }
    let v: i128 = if neg {
        -(acc as i128)
    } else {
        acc as i128
    };
    v == target
}

// ------------------------------------------------------------------
// Printing integers as decimal text
// ------------------------------------------------------------------

pub open spec fn digit_char(d: int) -> char {
    ((48 + d) as u8) as char
}

pub open spec fn dec_text(n: nat) -> Seq<char>
    decreases n,
{
    if n < 10 {
        seq![digit_char(n as int)]
    } else {
        dec_text((n / 10) as nat).push(digit_char((n % 10) as int))
    }
}

pub open spec fn int_text_of(v: int) -> Seq<char> {
    if v < 0 {
        seq!['-'] + dec_text((-v) as nat)
    } else {
        dec_text(v as nat)
    }
}

fn digit_str(d: u64) -> (r: &'static str)
    requires
        d < 10,
    ensures
        r@ =~= seq![digit_char(d as int)],
{
    proof {
        reveal_strlit("0");
        reveal_strlit("1");
        reveal_strlit("2");
        reveal_strlit("3");
        reveal_strlit("4");
        reveal_strlit("5");
        reveal_strlit("6");
        reveal_strlit("7");
        reveal_strlit("8");
        reveal_strlit("9");
    }
    match d {
        0 => "0",
        1 => "1",
        2 => "2",
        3 => "3",
        4 => "4",
        5 => "5",
        6 => "6",
        7 => "7",
        8 => "8",
        _ => "9",
    }
}

pub fn u64_text(n: u64) -> (r: String)
    ensures
        r@ == dec_text(n as nat),
    decreases n,
{
    if n < 10 {
        let d = digit_str(n);
        d.to_owned()
    } else {
        let mut s = u64_text(n / 10);
        s.append(digit_str(n % 10));
        proof {
            assert(s@ =~= dec_text((n / 10) as nat).push(digit_char((n as nat % 10) as int)));
        }
        s
    }
}

pub fn i64_text(v: i64) -> (r: String)
    ensures
        r@ == int_text_of(v as int),
{
    if v >= 0 {
        u64_text(v as u64)
    } else {
        let mag: u64 = if v == i64::MIN {
            0x8000_0000_0000_0000
        } else {
            (-v) as u64
        };
        let mut s = String::from_str("-");
        let digits = u64_text(mag);
        s.append(digits.as_str());
        proof {
            reveal_strlit("-");
            assert(s@ =~= seq!['-'] + dec_text((-(v as int)) as nat));
        }
        s
    }
}

pub fn i32_text(v: i32) -> (r: String)
    ensures
        r@ == int_text_of(v as int),
{
    i64_text(v as i64)
}

pub proof fn lemma_dec_text_digits(n: nat)
    ensures
        all_dec_digits(dec_text(n)),
        dec_text(n).len() >= 1,
        dec_val(dec_text(n)) == n,
    decreases n,
{
    assert(digit_char((n % 10) as int) as u32 == 48 + n % 10);
    if n < 10 {
        assert(dec_text(n) =~= seq![digit_char(n as int)]);
        assert(dec_text(n).drop_last() =~= Seq::<char>::empty());
        assert(digit_val(digit_char(n as int)) == n);
        assert(dec_val(Seq::<char>::empty()) == 0);
        assert(dec_text(n).last() == digit_char(n as int));
        assert(dec_val(dec_text(n)) == dec_val(dec_text(n).drop_last()) * 10 + digit_val(
            dec_text(n).last(),
        ));
        assert(dec_val(dec_text(n)) == n);
    } else {
        lemma_dec_text_digits((n / 10) as nat);
        let x = dec_text((n / 10) as nat);
        let c = digit_char((n % 10) as int);
        assert(dec_text(n).drop_last() =~= x);
        assert(dec_text(n).last() == c);
        assert((n / 10) * 10 + n % 10 == n) by (nonlinear_arith);
        assert(dec_val(dec_text(n)) == dec_val(x) * 10 + digit_val(c));
        assert forall|i: int| 0 <= i < dec_text(n).len() implies is_dec_digit(
            #[trigger] dec_text(n)[i],
        ) by {
            if i < x.len() {
                assert(dec_text(n)[i] == x[i]);
            }
        }
    }
}

/// Printing an integer and parsing it back yields the same value.
pub proof fn lemma_int_text_roundtrip(v: int)
    requires
        i64::MIN <= v <= i64::MAX,
    ensures
        parse_i64_spec(int_text_of(v)) == Some(v as i64),
{
    if v >= 0 {
        lemma_dec_text_digits(v as nat);
        let s = int_text_of(v);
        assert(is_dec_digit(s[0]));
        assert(int_text_body(s) =~= s);
    } else {
        let m = (-v) as nat;
        lemma_dec_text_digits(m);
        let s = int_text_of(v);
        assert(s[0] == '-');
        assert(int_text_body(s) =~= dec_text(m));
    }
}

pub proof fn lemma_int_text_roundtrip_i32(v: int)
    requires
        i32::MIN <= v <= i32::MAX,
    ensures
        parse_i32_spec(int_text_of(v)) == Some(v as i32),
{
    lemma_int_text_roundtrip(v);
}

// ------------------------------------------------------------------
// Floating-field text.  A floating field is well formed when it fits
// the decimal grammar `sign? (digits ('.' digits?)? | '.' digits)
// (('e'|'E') sign? digits)?`.  The library never computes with such a
// value; it only needs to recognise well-formed text and to detect the
// wire sentinels (zero, and the small negative integers used to mean
// "not yet computed").
// ------------------------------------------------------------------

pub open spec fn is_exp_char(c: char) -> bool {
    c == 'e' || c == 'E'
}

/// Index of the first exponent marker, or the length if there is none.
pub open spec fn exp_split(s: Seq<char>) -> int
    decreases s.len(),
{
    if s.len() == 0 {
        0
    } else if is_exp_char(s[0]) {
        0
    } else {
        1 + exp_split(s.skip(1))
    }
}

/// Index of the first decimal point, or the length if there is none.
pub open spec fn dot_split(s: Seq<char>) -> int
    decreases s.len(),
{
    if s.len() == 0 {
        0
    } else if s[0] == '.' {
        0
    } else {
        1 + dot_split(s.skip(1))
    }
}

pub open spec fn float_mant(s: Seq<char>) -> Seq<char> {
    let b = int_text_body(s);
    b.take(exp_split(b))
}

pub open spec fn float_exp_part(s: Seq<char>) -> Seq<char> {
    let b = int_text_body(s);
    b.skip(exp_split(b))
}

pub open spec fn mant_int_digits(s: Seq<char>) -> Seq<char> {
    let m = float_mant(s);
    m.take(dot_split(m))
}

pub open spec fn mant_frac_digits(s: Seq<char>) -> Seq<char> {
    let m = float_mant(s);
    if dot_split(m) < m.len() {
        m.skip(dot_split(m) + 1)
    } else {
        Seq::empty()
    }
}

/// All mantissa digits, the decimal point removed.
pub open spec fn mant_digits(s: Seq<char>) -> Seq<char> {
    mant_int_digits(s) + mant_frac_digits(s)
}

pub open spec fn is_float_text(s: Seq<char>) -> bool {
    &&& mant_digits(s).len() >= 1
    &&& all_dec_digits(mant_digits(s))
    &&& (float_exp_part(s).len() == 0 || is_int_text(float_exp_part(s).skip(1)))
}

pub open spec fn all_zero_digits(d: Seq<char>) -> bool {
    forall|i: int| 0 <= i < d.len() ==> #[trigger] d[i] == '0'
}

/// Well-formed text denoting the value zero (every mantissa digit is 0).
pub open spec fn float_text_zero(s: Seq<char>) -> bool {
    is_float_text(s) && all_zero_digits(mant_digits(s))
}

pub open spec fn leading_zeros(d: Seq<char>) -> int
    decreases d.len(),
{
    if d.len() > 0 && d[0] == '0' {
        1 + leading_zeros(d.skip(1))
    } else {
        0
    }
}

pub open spec fn trailing_zeros(d: Seq<char>) -> int
    decreases d.len(),
{
    if d.len() > 0 && d.last() == '0' {
        1 + trailing_zeros(d.drop_last())
    } else {
        0
    }
}

/// Decimal exponent once the fractional digits are absorbed into the mantissa.
pub open spec fn float_e10(s: Seq<char>) -> int {
    (if float_exp_part(s).len() == 0 {
        0
    } else {
        int_text_val(float_exp_part(s).skip(1))
    }) - mant_frac_digits(s).len()
}

/// Well-formed text denoting exactly the negative of the single digit `d`:
/// after stripping leading zeros the mantissa is `d` followed by some
/// zeros, and the exponent puts the decimal point right after `d`
/// ("-1", "-1.0", "-01.00", "-10e-1", "-0.01e2", ...).
pub open spec fn float_text_is_neg_int(s: Seq<char>, d: char) -> bool {
    &&& is_float_text(s)
    &&& int_text_neg(s)
    &&& {
        let md = mant_digits(s);
        let lz = leading_zeros(md);
        let tz = trailing_zeros(md.skip(lz));
        &&& md.len() - lz - tz == 1
        &&& md[lz] == d
        &&& float_e10(s) + tz == 0
    }
}

// ---- characterizations used to connect scanning loops to the spec ----

pub proof fn lemma_exp_split_is(s: Seq<char>, k: int)
    requires
        0 <= k <= s.len(),
        forall|j: int| 0 <= j < k ==> !is_exp_char(#[trigger] s[j]),
        k < s.len() ==> is_exp_char(s[k]),
    ensures
        exp_split(s) == k,
    decreases s.len(),
{
    if s.len() == 0 {
    } else if is_exp_char(s[0]) {
        assert(k == 0);
    } else {
        assert(k >= 1);
        let t = s.skip(1);
        assert forall|j: int| 0 <= j < k - 1 implies !is_exp_char(#[trigger] t[j]) by {
            assert(t[j] == s[j + 1]);
        }
        if k - 1 < t.len() {
            assert(t[k - 1] == s[k]);
        }
        lemma_exp_split_is(t, k - 1);
    }
}

pub proof fn lemma_dot_split_is(s: Seq<char>, k: int)
    requires
        0 <= k <= s.len(),
        forall|j: int| 0 <= j < k ==> #[trigger] s[j] != '.',
        k < s.len() ==> s[k] == '.',
    ensures
        dot_split(s) == k,
    decreases s.len(),
{
    if s.len() == 0 {
    } else if s[0] == '.' {
        assert(k == 0);
    } else {
        assert(k >= 1);
        let t = s.skip(1);
        assert forall|j: int| 0 <= j < k - 1 implies #[trigger] t[j] != '.' by {
            assert(t[j] == s[j + 1]);
        }
        if k - 1 < t.len() {
            assert(t[k - 1] == s[k]);
        }
        lemma_dot_split_is(t, k - 1);
    }
}

pub proof fn lemma_leading_zeros_is(d: Seq<char>, k: int)
    requires
        0 <= k <= d.len(),
        forall|j: int| 0 <= j < k ==> #[trigger] d[j] == '0',
        k < d.len() ==> d[k] != '0',
    ensures
        leading_zeros(d) == k,
    decreases d.len(),
{
    if d.len() == 0 {
    } else if d[0] != '0' {
        assert(k == 0);
    } else {
        assert(k >= 1);
        let t = d.skip(1);
        assert forall|j: int| 0 <= j < k - 1 implies #[trigger] t[j] == '0' by {
            assert(t[j] == d[j + 1]);
        }
        if k - 1 < t.len() {
            assert(t[k - 1] == d[k]);
        }
        lemma_leading_zeros_is(t, k - 1);
    }
}

pub proof fn lemma_trailing_zeros_is(d: Seq<char>, k: int)
    requires
        0 <= k <= d.len(),
        forall|j: int| d.len() - k <= j < d.len() ==> #[trigger] d[j] == '0',
        k < d.len() ==> d[d.len() - k - 1] != '0',
    ensures
        trailing_zeros(d) == k,
    decreases k,
{
    if k == 0 {
        if d.len() > 0 {
            assert(d.last() != '0');
        }
    } else {
        assert(d.last() == '0');
        let t = d.drop_last();
        assert forall|j: int| t.len() - (k - 1) <= j < t.len() implies #[trigger] t[j] == '0' by {
            assert(t[j] == d[j]);
        }
        if k - 1 < t.len() {
            assert(t[t.len() - (k - 1) - 1] == d[d.len() - k - 1]);
        }
        lemma_trailing_zeros_is(t, k - 1);
    }
}

// ---- exec scanning helpers ----

fn scan_exp(s: &str, from: usize, to: usize) -> (r: usize)
    requires
        from <= to,
        to <= s@.len(),
    ensures
        from <= r <= to,
        r - from == exp_split(s@.subrange(from as int, to as int)),
        forall|j: int| from <= j < r ==> !is_exp_char(#[trigger] s@[j]),
        r < to ==> is_exp_char(s@[r as int]),
{
    let mut i: usize = from;
    while i < to
        invariant
            from <= i <= to,
            to <= s@.len(),
            forall|j: int| from <= j < i ==> !is_exp_char(#[trigger] s@[j]),
        decreases to - i,
    {
        let c = s.get_char(i);
        if c == 'e' || c == 'E' {
            proof {
                assert forall|j: int| 0 <= j < i - from implies !is_exp_char(#[trigger] s@.subrange(from as int, to as int)[j]) by {
                    assert(s@.subrange(from as int, to as int)[j] == s@[from + j]);
                }
                assert(s@.subrange(from as int, to as int)[i - from] == s@[i as int]);
                lemma_exp_split_is(s@.subrange(from as int, to as int), i - from);
            }
            return i;
        }
        i = i + 1;
    }
    proof {
        assert forall|j: int| 0 <= j < to - from implies !is_exp_char(#[trigger] s@.subrange(from as int, to as int)[j]) by {
            assert(s@.subrange(from as int, to as int)[j] == s@[from + j]);
        }
        lemma_exp_split_is(s@.subrange(from as int, to as int), to - from);
    }
    to
}

fn scan_dot(s: &str, from: usize, to: usize) -> (r: usize)
    requires
        from <= to,
        to <= s@.len(),
    ensures
        from <= r <= to,
        r - from == dot_split(s@.subrange(from as int, to as int)),
        forall|j: int| from <= j < r ==> #[trigger] s@[j] != '.',
        r < to ==> s@[r as int] == '.',
{
    let mut i: usize = from;
    while i < to
        invariant
            from <= i <= to,
            to <= s@.len(),
            forall|j: int| from <= j < i ==> #[trigger] s@[j] != '.',
        decreases to - i,
    {
        let c = s.get_char(i);
        if c == '.' {
            proof {
                assert forall|j: int| 0 <= j < i - from implies #[trigger] s@.subrange(from as int, to as int)[j] != '.' by {
                    assert(s@.subrange(from as int, to as int)[j] == s@[from + j]);
                }
                assert(s@.subrange(from as int, to as int)[i - from] == s@[i as int]);
                lemma_dot_split_is(s@.subrange(from as int, to as int), i - from);
            }
            return i;
        }
        i = i + 1;
    }
    proof {
        assert forall|j: int| 0 <= j < to - from implies #[trigger] s@.subrange(from as int, to as int)[j] != '.' by {
            assert(s@.subrange(from as int, to as int)[j] == s@[from + j]);
        }
        lemma_dot_split_is(s@.subrange(from as int, to as int), to - from);
    }
    to
}

fn digits_range(s: &str, from: usize, to: usize) -> (r: bool)
    requires
        from <= to,
        to <= s@.len(),
    ensures
        r == all_dec_digits(s@.subrange(from as int, to as int)),
{
    let mut i: usize = from;
    while i < to
        invariant
            from <= i <= to,
            to <= s@.len(),
            forall|j: int| from <= j < i ==> is_dec_digit(#[trigger] s@[j]),
        decreases to - i,
    {
        let c = s.get_char(i);
        let cu = c as u32;
        if cu < 48 || cu > 57 {
            proof {
                assert(s@.subrange(from as int, to as int)[i - from] == s@[i as int]);
            }
            return false;
        }
        i = i + 1;
    }
    proof {
        assert forall|j: int| 0 <= j < s@.subrange(from as int, to as int).len() implies is_dec_digit(#[trigger] s@.subrange(from as int, to as int)[j]) by {
            assert(s@.subrange(from as int, to as int)[j] == s@[from + j]);
        }
    }
    true
}

fn zeros_range(s: &str, from: usize, to: usize) -> (r: bool)
    requires
        from <= to,
        to <= s@.len(),
    ensures
        r == all_zero_digits(s@.subrange(from as int, to as int)),
{
    let mut i: usize = from;
    while i < to
        invariant
            from <= i <= to,
            to <= s@.len(),
            forall|j: int| from <= j < i ==> #[trigger] s@[j] == '0',
        decreases to - i,
    {
        let c = s.get_char(i);
        if c != '0' {
            proof {
                assert(s@.subrange(from as int, to as int)[i - from] == s@[i as int]);
            }
            return false;
        }
        i = i + 1;
    }
    proof {
        assert forall|j: int| 0 <= j < s@.subrange(from as int, to as int).len() implies #[trigger] s@.subrange(from as int, to as int)[j] == '0' by {
            assert(s@.subrange(from as int, to as int)[j] == s@[from + j]);
        }
    }
    true
}

/// The sign offset, exponent-marker index and decimal-point index of a
/// floating field's text, with whether the text is well formed.
struct FloatShape {
    n: usize,
    start: usize,
    e_idx: usize,
    d_idx: usize,
    valid: bool,
}

#[verifier::rlimit(80)]
fn float_shape(s: &str) -> (r: FloatShape)
    ensures
        r.n == s@.len(),
        r.start <= r.d_idx <= r.e_idx <= r.n,
        r.start == (if int_text_neg(s@) || (s@.len() > 0 && s@[0] == '+') {
            1int
        } else {
            0int
        }),
        int_text_body(s@) =~= s@.subrange(r.start as int, r.n as int),
        float_mant(s@) =~= s@.subrange(r.start as int, r.e_idx as int),
        float_exp_part(s@) =~= s@.subrange(r.e_idx as int, r.n as int),
        mant_int_digits(s@) =~= s@.subrange(r.start as int, r.d_idx as int),
        mant_frac_digits(s@) =~= (if r.d_idx < r.e_idx {
            s@.subrange(r.d_idx + 1, r.e_idx as int)
        } else {
            Seq::<char>::empty()
        }),
        r.valid == is_float_text(s@),
{
    let n = s.unicode_len();
    let start: usize = if n > 0 {
        let c0 = s.get_char(0);
        if c0 == '-' || c0 == '+' {
            1
        } else {
            0
        }
    } else {
        0
    };
    proof {
        assert(int_text_body(s@) =~= s@.subrange(start as int, n as int));
    }
    let ghost body = s@.subrange(start as int, n as int);
    let e_idx = scan_exp(s, start, n);
    proof {
        assert(float_mant(s@) =~= s@.subrange(start as int, e_idx as int));
        assert(float_exp_part(s@) =~= s@.subrange(e_idx as int, n as int));
    }
    let ghost mant = s@.subrange(start as int, e_idx as int);
    let d_idx = scan_dot(s, start, e_idx);
    proof {
        assert(mant_int_digits(s@) =~= s@.subrange(start as int, d_idx as int));
        if d_idx < e_idx {
            assert(mant_frac_digits(s@) =~= s@.subrange(d_idx + 1, e_idx as int));
        } else {
            assert(mant_frac_digits(s@) =~= Seq::<char>::empty());
        }
    }
    // digits on both sides of the point
    let int_ok = digits_range(s, start, d_idx);
    let frac_ok = if d_idx < e_idx {
        digits_range(s, d_idx + 1, e_idx)
    } else {
        true
    };
    let digit_count: usize = (d_idx - start) + (if d_idx < e_idx {
        e_idx - d_idx - 1
    } else {
        0
    });
    // exponent: nothing at all, or the marker followed by a signed integer
    let exp_ok = if e_idx == n {
        true
    } else {
        let efrom = e_idx + 1;
        if efrom == n {
            false
        } else {
            let c1 = s.get_char(efrom);
            let dfrom: usize = if c1 == '-' || c1 == '+' {
                efrom + 1
            } else {
                efrom
            };
            proof {
                assert(float_exp_part(s@).skip(1) =~= s@.subrange(e_idx + 1, n as int));
                assert(int_text_body(float_exp_part(s@).skip(1)) =~= s@.subrange(
                    dfrom as int,
                    n as int,
                ));
            }
            if dfrom == n {
                false
            } else {
                digits_range(s, dfrom, n)
            }
        }
    };
    let valid = int_ok && frac_ok && digit_count > 0 && exp_ok;
    proof {
        lemma_all_digits_concat(mant_int_digits(s@), mant_frac_digits(s@));
    }
    FloatShape { n, start, e_idx, d_idx, valid }
}

proof fn lemma_all_digits_concat(a: Seq<char>, b: Seq<char>)
    ensures
        all_dec_digits(a + b) == (all_dec_digits(a) && all_dec_digits(b)),
        all_zero_digits(a + b) == (all_zero_digits(a) && all_zero_digits(b)),
{
    if all_dec_digits(a) && all_dec_digits(b) {
        assert forall|i: int| 0 <= i < (a + b).len() implies is_dec_digit(#[trigger] (a + b)[i]) by {
            if i < a.len() {
                assert((a + b)[i] == a[i]);
            } else {
                assert((a + b)[i] == b[i - a.len()]);
            }
        }
    }
    if all_dec_digits(a + b) {
        assert forall|i: int| 0 <= i < a.len() implies is_dec_digit(#[trigger] a[i]) by {
            assert((a + b)[i] == a[i]);
        }
        assert forall|i: int| 0 <= i < b.len() implies is_dec_digit(#[trigger] b[i]) by {
            assert((a + b)[a.len() + i] == b[i]);
        }
    }
    if all_zero_digits(a) && all_zero_digits(b) {
        assert forall|i: int| 0 <= i < (a + b).len() implies #[trigger] (a + b)[i] == '0' by {
            if i < a.len() {
                assert((a + b)[i] == a[i]);
            } else {
                assert((a + b)[i] == b[i - a.len()]);
            }
        }
    }
    if all_zero_digits(a + b) {
        assert forall|i: int| 0 <= i < a.len() implies #[trigger] a[i] == '0' by {
            assert((a + b)[i] == a[i]);
        }
        assert forall|i: int| 0 <= i < b.len() implies #[trigger] b[i] == '0' by {
            assert((a + b)[a.len() + i] == b[i]);
        }
    }
}

// ------------------------------------------------------------------
// Whitespace tokens.  A date-time field holds up to three tokens
// separated by runs of whitespace: date, time, time zone.
// ------------------------------------------------------------------

pub open spec fn is_space(c: char) -> bool {
    c == ' ' || c == '\t' || c == '\n' || c == '\r'
}

/// Index of the first non-whitespace character, or the length.
pub open spec fn ws_split(s: Seq<char>) -> int
    decreases s.len(),
{
    if s.len() == 0 {
        0
    } else if is_space(s[0]) {
        1 + ws_split(s.skip(1))
    } else {
        0
    }
}

/// Index of the first whitespace character, or the length.
pub open spec fn tok_split(s: Seq<char>) -> int
    decreases s.len(),
{
    if s.len() == 0 {
        0
    } else if is_space(s[0]) {
        0
    } else {
        1 + tok_split(s.skip(1))
    }
}

proof fn lemma_ws_split_is(s: Seq<char>, k: int)
    requires
        0 <= k <= s.len(),
        forall|j: int| 0 <= j < k ==> is_space(#[trigger] s[j]),
        k < s.len() ==> !is_space(s[k]),
    ensures
        ws_split(s) == k,
    decreases s.len(),
{
    if s.len() == 0 {
    } else if !is_space(s[0]) {
        assert(k == 0);
    } else {
        assert(k >= 1);
        let t = s.skip(1);
        assert forall|j: int| 0 <= j < k - 1 implies is_space(#[trigger] t[j]) by {
            assert(t[j] == s[j + 1]);
        }
        if k - 1 < t.len() {
            assert(t[k - 1] == s[k]);
        }
        lemma_ws_split_is(t, k - 1);
    }
}

proof fn lemma_tok_split_is(s: Seq<char>, k: int)
    requires
        0 <= k <= s.len(),
        forall|j: int| 0 <= j < k ==> !is_space(#[trigger] s[j]),
        k < s.len() ==> is_space(s[k]),
    ensures
        tok_split(s) == k,
    decreases s.len(),
{
    if s.len() == 0 {
    } else if is_space(s[0]) {
        assert(k == 0);
    } else {
        assert(k >= 1);
        let t = s.skip(1);
        assert forall|j: int| 0 <= j < k - 1 implies !is_space(#[trigger] t[j]) by {
            assert(t[j] == s[j + 1]);
        }
        if k - 1 < t.len() {
            assert(t[k - 1] == s[k]);
        }
        lemma_tok_split_is(t, k - 1);
    }
}

/// Start of the next token at or after `i`.
pub open spec fn token_start(s: Seq<char>, i: int) -> int
    recommends
        0 <= i <= s.len(),
{
    i + ws_split(s.skip(i))
}

/// End of the token starting at `i`.
pub open spec fn token_end(s: Seq<char>, i: int) -> int
    recommends
        0 <= i <= s.len(),
{
    i + tok_split(s.skip(i))
}

pub open spec fn ws_token0(s: Seq<char>) -> Seq<char> {
    let a = token_start(s, 0);
    s.subrange(a, token_end(s, a))
}

pub open spec fn ws_token1(s: Seq<char>) -> Seq<char> {
    let a0 = token_start(s, 0);
    let a1 = token_start(s, token_end(s, a0));
    s.subrange(a1, token_end(s, a1))
}

pub open spec fn ws_token2(s: Seq<char>) -> Seq<char> {
    let a0 = token_start(s, 0);
    let a1 = token_start(s, token_end(s, a0));
    let a2 = token_start(s, token_end(s, a1));
    s.subrange(a2, token_end(s, a2))
}

fn scan_nonws(s: &str, from: usize, to: usize) -> (r: usize)
    requires
        from <= to,
        to == s@.len(),
    ensures
        from <= r <= to,
        r == token_start(s@, from as int),
{
    let ghost sub = s@.skip(from as int);
    let mut i: usize = from;
    while i < to
        invariant
            from <= i <= to,
            to == s@.len(),
            forall|j: int| from <= j < i ==> is_space(#[trigger] s@[j]),
        decreases to - i,
    {
        let c = s.get_char(i);
        if !(c == ' ' || c == '\t' || c == '\n' || c == '\r') {
            proof {
                assert forall|j: int| 0 <= j < i - from implies is_space(
                    #[trigger] s@.skip(from as int)[j],
                ) by {
                    assert(s@.skip(from as int)[j] == s@[from + j]);
                }
                assert(s@.skip(from as int)[i - from] == s@[i as int]);
                lemma_ws_split_is(s@.skip(from as int), i - from);
            }
            return i;
        }
        i = i + 1;
    }
    proof {
        assert forall|j: int| 0 <= j < to - from implies is_space(
            #[trigger] s@.skip(from as int)[j],
        ) by {
            assert(s@.skip(from as int)[j] == s@[from + j]);
        }
        lemma_ws_split_is(s@.skip(from as int), to - from);
    }
    to
}

fn scan_ws(s: &str, from: usize, to: usize) -> (r: usize)
    requires
        from <= to,
        to == s@.len(),
    ensures
        from <= r <= to,
        r == token_end(s@, from as int),
{
    let mut i: usize = from;
    while i < to
        invariant
            from <= i <= to,
            to == s@.len(),
            forall|j: int| from <= j < i ==> !is_space(#[trigger] s@[j]),
        decreases to - i,
    {
        let c = s.get_char(i);
        if c == ' ' || c == '\t' || c == '\n' || c == '\r' {
            proof {
                assert forall|j: int| 0 <= j < i - from implies !is_space(
                    #[trigger] s@.skip(from as int)[j],
                ) by {
                    assert(s@.skip(from as int)[j] == s@[from + j]);
                }
                assert(s@.skip(from as int)[i - from] == s@[i as int]);
                lemma_tok_split_is(s@.skip(from as int), i - from);
            }
            return i;
        }
        i = i + 1;
    }
    proof {
        assert forall|j: int| 0 <= j < to - from implies !is_space(
            #[trigger] s@.skip(from as int)[j],
        ) by {
            assert(s@.skip(from as int)[j] == s@[from + j]);
        }
        lemma_tok_split_is(s@.skip(from as int), to - from);
    }
    to
}

/// The first three whitespace-separated tokens of a text; missing tokens
/// come back empty.
pub fn ws_tokens3(s: &str) -> (r: (String, String, String))
    ensures
        r.0@ == ws_token0(s@),
        r.1@ == ws_token1(s@),
        r.2@ == ws_token2(s@),
{
    let n = s.unicode_len();
    let a0 = scan_nonws(s, 0, n);
    let e0 = scan_ws(s, a0, n);
    let a1 = scan_nonws(s, e0, n);
    let e1 = scan_ws(s, a1, n);
    let a2 = scan_nonws(s, e1, n);
    let e2 = scan_ws(s, a2, n);
    let t0 = s.substring_char(a0, e0).to_owned();
    let t1 = s.substring_char(a1, e1).to_owned();
    let t2 = s.substring_char(a2, e2).to_owned();
    (t0, t1, t2)
}

/// The default floating-field text is itself well formed.
pub proof fn lemma_zero_is_float_text()
    ensures
        is_float_text(seq!['0']),
{
    let b = seq!['0'];
    assert(int_text_body(b) =~= b);
    assert(b.skip(1) =~= Seq::<char>::empty());
    assert(exp_split(Seq::<char>::empty()) == 0);
    assert(dot_split(Seq::<char>::empty()) == 0);
    assert('0' as u32 == 48);
    assert(!is_exp_char(b[0]));
    assert(b[0] != '.');
    assert(exp_split(b) == 1);
    assert(dot_split(b) == 1);
    assert(float_mant(b) =~= b);
    assert(mant_int_digits(b) =~= b);
    assert(mant_frac_digits(b) =~= Seq::<char>::empty());
    assert(mant_digits(b) =~= b);
    assert(float_exp_part(b) =~= Seq::<char>::empty());
    assert(is_dec_digit('0'));
}

/// Is the text a well-formed floating field?
pub fn is_float_text_exec(s: &str) -> (r: bool)
    ensures
        r == is_float_text(s@),
{
    float_shape(s).valid
}

/// Does the text denote zero?  (Used for the unset-sentinel remap.)
pub fn float_text_zero_exec(s: &str) -> (r: bool)
    ensures
        r == float_text_zero(s@),
{
    let shape = float_shape(s);
    if !shape.valid {
        return false;
    }
    let int_zeros = zeros_range(s, shape.start, shape.d_idx);
    let frac_zeros = if shape.d_idx < shape.e_idx {
        zeros_range(s, shape.d_idx + 1, shape.e_idx)
    } else {
        true
    };
    proof {
        lemma_all_digits_concat(mant_int_digits(s@), mant_frac_digits(s@));
    }
    int_zeros && frac_zeros
}

/// Does the text denote exactly the negative of the digit `d`?
/// (The wire uses -1 and -2 as "not yet computed" sentinels.)
pub fn float_text_is_neg_int_exec(s: &str, d: char) -> (r: bool)
    ensures
        r == float_text_is_neg_int(s@, d),
{
    let shape = float_shape(s);
    if !shape.valid {
        return false;
    }
    let neg = shape.n > 0 && s.get_char(0) == '-';
    if !neg {
        return false;
    }
    // materialize the mantissa digits, the point removed
    let mut md: Vec<char> = Vec::new();
    let mut i: usize = shape.start;
    while i < shape.d_idx
        invariant
            shape.start <= i <= shape.d_idx,
            shape.d_idx <= s@.len(),
            md@ =~= s@.subrange(shape.start as int, i as int),
        decreases shape.d_idx - i,
    {
        md.push(s.get_char(i));
        proof {
            assert(md@ =~= s@.subrange(shape.start as int, i + 1));
        }
        i = i + 1;
    }
    proof {
        assert(md@ =~= mant_int_digits(s@));
    }
    if shape.d_idx < shape.e_idx {
        let mut j: usize = shape.d_idx + 1;
        while j < shape.e_idx
            invariant
                shape.d_idx + 1 <= j <= shape.e_idx,
                shape.e_idx <= s@.len(),
                md@ =~= mant_int_digits(s@) + s@.subrange(shape.d_idx + 1, j as int),
            decreases shape.e_idx - j,
        {
            md.push(s.get_char(j));
            proof {
                assert(md@ =~= mant_int_digits(s@) + s@.subrange(shape.d_idx + 1, j + 1));
            }
            j = j + 1;
        }
    }
    proof {
        assert(md@ =~= mant_digits(s@));
    }
    // strip leading zeros
    let len = md.len();
    let mut lz: usize = 0;
    while lz < len && md[lz] ==  '0'
        invariant
            0 <= lz <= len,
            len == md@.len(),
            forall|j: int| 0 <= j < lz ==> #[trigger] md@[j] == '0',
        decreases len - lz,
    {
        lz = lz + 1;
    }
    proof {
        lemma_leading_zeros_is(md@, lz as int);
    }
    // count trailing zeros of what is left
    let ghost rest = md@.skip(lz as int);
    let mut tz: usize = 0;
    while lz + tz < len && md[len - 1 - tz] == '0'
        invariant
            0 <= tz <= len - lz,
            len == md@.len(),
            lz <= len,
            forall|j: int| len - tz <= j < len ==> #[trigger] md@[j] == '0',
        decreases len - lz - tz,
    {
        tz = tz + 1;
    }
    proof {
        assert forall|j: int| rest.len() - tz <= j < rest.len() implies #[trigger] rest[j]
            == '0' by {
            assert(rest[j] == md@[j + lz]);
        }
        if (tz as int) < rest.len() {
            assert(rest[rest.len() - tz - 1] == md@[len - 1 - tz]);
        }
        lemma_trailing_zeros_is(rest, tz as int);
    }
    // exactly one significant digit, equal to d
    if !(len - lz - tz == 1) {
        return false;
    }
    let core = md[lz];
    if core != d {
        return false;
    }
    // the exponent must put the decimal point right after the digit
    let frac_len: usize = if shape.d_idx < shape.e_idx {
        shape.e_idx - shape.d_idx - 1
    } else {
        0
    };
    let target: i128 = frac_len as i128 - tz as i128;
    if shape.e_idx == shape.n {
        proof {
            assert(float_e10(s@) == 0 - frac_len);
        }
        target == 0
    } else {
        let etext = s.substring_char(shape.e_idx + 1, shape.n);
        proof {
            assert(etext@ =~= float_exp_part(s@).skip(1));
            assert(is_int_text(float_exp_part(s@).skip(1)));
        }
        int_text_equals(etext, target)
    }
}

} // verus!
