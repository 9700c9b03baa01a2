//! Amounts in base units: parsing whole-unit text, the fee of a transfer and
//! the check that a balance covers amount and fee.
use vstd::prelude::*;
use vstd::arithmetic::div_mod::lemma_fundamental_div_mod_converse;
use vstd::arithmetic::power::{lemma_pow1, lemma_pow_adds, lemma_pow_positive, pow};
use vstd::utf8::is_ascii_chars;
use crate::error::TransferError;

verus! {

/// Base units in one whole unit: ten to the eighteenth.
pub const UNIT_SCALE: u128 = 1_000_000_000_000_000_000;

/// The number of decimal places that whole-unit text may carry.
pub const UNIT_DECIMALS: u64 = 18;

pub open spec fn is_decimal_digit(c: char) -> bool {
    '0' <= c && c <= '9'
}

pub open spec fn all_decimal_digits(s: Seq<char>) -> bool {
    forall|i: int| 0 <= i < s.len() ==> #[trigger] is_decimal_digit(s[i])
}

/// The number that the decimal digits `s` spell, most significant first.
pub open spec fn digits_value(s: Seq<char>) -> nat
    decreases s.len(),
{
    if s.len() == 0 {
        0
    } else {
        digits_value(s.drop_last()) * 10 + (s.last() as nat - '0' as nat) as nat
    }
}

/// Where the first `.` of `s` stands, or `s.len()` when there is none.
pub open spec fn dot_position(s: Seq<char>) -> nat
    decreases s.len(),
{
    if s.len() == 0 || s[0] == '.' {
        0
    } else {
        1 + dot_position(s.drop_first())
    }
}

/// The digits before the point.
pub open spec fn whole_digits(s: Seq<char>) -> Seq<char> {
    s.take(dot_position(s) as int)
}

/// The digits after the point (none when there is no point).
pub open spec fn fraction_digits(s: Seq<char>) -> Seq<char> {
    if dot_position(s) < s.len() {
        s.skip(dot_position(s) + 1int)
    } else {
        Seq::empty()
    }
}

pub open spec fn is_ascii_letter(c: char) -> bool {
    ('a' <= c && c <= 'z') || ('A' <= c && c <= 'Z')
}

/// Plain whole-unit text: digits, then at most one point and at most eighteen
/// digits after it (`"0.001"`, `"2"`, `"2."`).
pub open spec fn is_plain_unit_text(s: Seq<char>) -> bool {
    &&& is_ascii_chars(s)
    &&& whole_digits(s).len() > 0
    &&& all_decimal_digits(whole_digits(s))
    &&& all_decimal_digits(fraction_digits(s))
    &&& fraction_digits(s).len() <= UNIT_DECIMALS
}

/// The base units that plain whole-unit text stands for.
pub open spec fn plain_unit_value(s: Seq<char>) -> nat {
    digits_value(whole_digits(s)) * UNIT_SCALE as nat + digits_value(fraction_digits(s)) * pow(
        10,
        (UNIT_DECIMALS - fraction_digits(s).len()) as nat,
    ) as nat
}

/// What alloy's `parse_ether` makes of a text: `None` where it refuses the text,
/// else the absolute value in base units.
pub uninterp spec fn ether_units_of(s: Seq<char>) -> Option<nat>;

/// Relies on alloy's `utils::parse_ether`. It removes the first point and,
/// where more than eighteen characters follow it, cuts the excess by byte count,
/// which can split a character; ASCII text is therefore required. On plain
/// whole-unit text it parses the digits with ruint's `from_str_radix` and
/// multiplies by ten to the power of the missing decimal places, so the result
/// is exact. Where nothing is cut, the parsed text still holds every letter of
/// the input, which ruint refuses as a decimal digit. The result is kept when
/// it fits in 128 bits.
#[verifier::external_body]
fn ether_units(text: &str) -> (r: Option<u128>)
    requires
        is_ascii_chars(text@),
    ensures
        r == (match ether_units_of(text@) {
            Some(v) => if v <= u128::MAX { Some(v as u128) } else { None },
            None => None,
        }),
        is_plain_unit_text(text@) && plain_unit_value(text@) <= u128::MAX ==> r == Some(
            plain_unit_value(text@) as u128,
        ),
        fraction_digits(text@).len() <= UNIT_DECIMALS && (exists|i: int|
            0 <= i < text@.len() && #[trigger] is_ascii_letter(text@[i])) ==> r is None,
{
    match alloy::primitives::utils::parse_ether(text) {
        Ok(v) => u128::try_from(v).ok(),
        Err(_) => None,
    }
}

/// Parses an amount written in whole units (`"0.001"`) into base units. Only
/// ASCII text is read; any other is refused.
pub fn parse_amount(text: &str) -> (r: Result<u128, TransferError>)
    ensures
        r is Ok <==> (is_ascii_chars(text@) && ether_units_of(text@) is Some
            && ether_units_of(text@).unwrap() <= u128::MAX),
        r matches Ok(v) ==> ether_units_of(text@) == Some(v as nat),
        r matches Err(e) ==> (e matches TransferError::InvalidAmount { text: t } && t@ == text@),
        is_plain_unit_text(text@) && plain_unit_value(text@) <= u128::MAX ==> r == Ok::<
            u128,
            TransferError,
        >(plain_unit_value(text@) as u128),
        fraction_digits(text@).len() <= UNIT_DECIMALS && (exists|i: int|
            0 <= i < text@.len() && #[trigger] is_ascii_letter(text@[i])) ==> r is Err,
{
    if !text.is_ascii() {
        return Err(TransferError::InvalidAmount { text: text.to_string() });
    }
    match ether_units(text) {
        Some(v) => Ok(v),
        None => Err(TransferError::InvalidAmount { text: text.to_string() }),
    }
}

/// The fee a transfer may cost: price per gas times the gas limit, exactly, or
/// `None` when the product does not fit in 128 bits.
pub fn estimate_fee(gas_price: u128, gas_limit: u64) -> (r: Option<u128>)
    ensures
        r == (if gas_price * gas_limit <= u128::MAX {
            Some((gas_price * gas_limit) as u128)
        } else {
            None::<u128>
        }),
{
    gas_price.checked_mul(gas_limit as u128)
}

/// Two to the 128th: the weight of the high word of a wide fee.
pub open spec fn high_word_weight() -> int {
    0x1_0000_0000_0000_0000int * 0x1_0000_0000_0000_0000int
}

/// The fee of `gas_limit` gas at `gas_price` as a pair of words (high, low),
/// exact for every price and limit: the product never exceeds 192 bits.
pub fn estimate_fee_wide(gas_price: u128, gas_limit: u64) -> (r: (u64, u128))
    ensures
        r.0 as int * high_word_weight() + r.1 as int == gas_price as int * gas_limit as int,
{
    let w: u128 = 0x1_0000_0000_0000_0000;
    let ph: u128 = gas_price / w;
    let pl: u128 = gas_price % w;
    let l: u128 = gas_limit as u128;
    assert(ph < w && pl < w && l < w);
    assert(ph * l < w * w) by (nonlinear_arith)
        requires
            ph < w,
            l < w,
    ;
    assert(pl * l < w * w) by (nonlinear_arith)
        requires
            pl < w,
            l < w,
    ;
    assert(w * w == high_word_weight());
    let a: u128 = ph * l;
    let b: u128 = pl * l;
    let a_hi: u128 = a / w;
    let a_lo: u128 = a % w;
    assert(a_lo * w < w * w) by (nonlinear_arith)
        requires
            a_lo < w,
    ;
    let mid: u128 = a_lo * w;
    assert(a_hi < w) by (nonlinear_arith)
        requires
            a < w * w,
            a_hi == a / w,
            w > 0,
    ;
    assert(gas_price as int == ph * w + pl) by (nonlinear_arith)
        requires
            ph == gas_price / w,
            pl == gas_price % w,
            w > 0,
    ;
    assert(a as int == a_hi * w + a_lo) by (nonlinear_arith)
        requires
            a_hi == a / w,
            a_lo == a % w,
            w > 0,
    ;
    assert(gas_price as int * l == a_hi * (w * w) + mid + b) by (nonlinear_arith)
        requires
            gas_price as int == ph * w + pl,
            a as int == a_hi * w + a_lo,
            a == ph * l,
            b == pl * l,
            mid == a_lo * w,
    ;
    assert(a <= (w as int - 1) * (w as int - 1)) by (nonlinear_arith)
        requires
            a == ph * l,
            ph < w,
            l < w,
            ph >= 0,
            l >= 0,
    ;
    assert(a_hi < w - 1) by (nonlinear_arith)
        requires
            a as int == a_hi * w + a_lo,
            a_lo >= 0,
            a <= (w as int - 1) * (w as int - 1),
            w > 1,
    ;
    if b <= u128::MAX - mid {
        ((a_hi as u64), mid + b)
    } else {
        let lo: u128 = b - (u128::MAX - mid) - 1;
        ((a_hi + 1) as u64, lo)
    }
}

/// Checks that `balance` covers `amount` plus the fee of `gas_limit` gas at
/// `gas_price`, computed exactly; on success returns that fee. A fee beyond 128
/// bits exceeds any balance.
pub fn check_funds(balance: u128, amount: u128, gas_price: u128, gas_limit: u64) -> (r: Result<
    u128,
    TransferError,
>)
    ensures
        r is Ok <==> amount + gas_price * gas_limit <= balance,
        r matches Ok(fee) ==> fee == gas_price * gas_limit,
        r is Err ==> r == Err::<u128, TransferError>(
            TransferError::InsufficientFunds { amount, gas_price, gas_limit, available: balance },
        ),
{
    match estimate_fee(gas_price, gas_limit) {
        Some(fee) => {
            if amount <= balance && fee <= balance - amount {
                Ok(fee)
            } else {
                Err(TransferError::InsufficientFunds { amount, gas_price, gas_limit, available: balance })
            }
        },
        None => Err(TransferError::InsufficientFunds { amount, gas_price, gas_limit, available: balance }),
    }
}

/// Splits base units into whole units and the base units left over.
pub fn unit_parts(wei: u128) -> (r: (u128, u128))
    ensures
        r.0 == wei / UNIT_SCALE,
        r.1 == wei % UNIT_SCALE,
        r.0 * UNIT_SCALE + r.1 == wei,
        r.1 < UNIT_SCALE,
{
    let whole = wei / UNIT_SCALE;
    let rest = wei % UNIT_SCALE;
    assert(whole * UNIT_SCALE + rest == wei) by (nonlinear_arith)
        requires
            whole == wei / UNIT_SCALE,
            rest == wei % UNIT_SCALE,
            UNIT_SCALE > 0,
    ;
    (whole, rest)
}

/// Decimal digits spell a number below ten to the power of their count.
pub proof fn lemma_digits_value_bound(s: Seq<char>)
    requires
        all_decimal_digits(s),
    ensures
        digits_value(s) < pow(10, s.len()),
    decreases s.len(),
{
    if s.len() == 0 {
        reveal_with_fuel(pow, 1);
    } else {
        let t = s.drop_last();
        assert(is_decimal_digit(s[s.len() - 1]));
        assert forall|i: int| 0 <= i < t.len() implies #[trigger] is_decimal_digit(t[i]) by {
            assert(is_decimal_digit(s[i]));
        }
        lemma_digits_value_bound(t);
        lemma_pow_adds(10, t.len(), 1);
        lemma_pow1(10);
        let d = (s.last() as nat - '0' as nat) as nat;
        assert(d < 10);
        let p = pow(10, t.len());
        assert(digits_value(t) * 10 + d < p * 10) by (nonlinear_arith)
            requires
                digits_value(t) < p,
                d < 10,
        ;
    }
}

/// Reading plain whole-unit text and splitting the result into whole units and
/// the rest gives back the digits before the point, and the digits after it
/// scaled to base units: parsing loses nothing that display needs.
pub proof fn lemma_unit_text_round_trip(s: Seq<char>)
    requires
        is_plain_unit_text(s),
    ensures
        plain_unit_value(s) / UNIT_SCALE as nat == digits_value(whole_digits(s)),
        plain_unit_value(s) % UNIT_SCALE as nat == digits_value(fraction_digits(s)) * pow(
            10,
            (UNIT_DECIMALS - fraction_digits(s).len()) as nat,
        ),
{
    let f = fraction_digits(s);
    let k = f.len();
    let e = (UNIT_DECIMALS - k) as nat;
    lemma_digits_value_bound(f);
    lemma_pow_adds(10, k, e);
    assert(k + e == 18);
    reveal_with_fuel(pow, 19);
    assert(pow(10, 18) == UNIT_SCALE as int);
    lemma_pow_positive(10, e);
    let fv = digits_value(f) as int;
    let pe = pow(10, e);
    let pk = pow(10, k);
    assert(fv * pe < UNIT_SCALE as int) by (nonlinear_arith)
        requires
            fv < pk,
            pe > 0,
            pk * pe == UNIT_SCALE as int,
    ;
    assert(0 <= fv * pe) by (nonlinear_arith)
        requires
            fv >= 0,
            pe > 0,
    ;
    lemma_fundamental_div_mod_converse(
        plain_unit_value(s) as int,
        UNIT_SCALE as int,
        digits_value(whole_digits(s)) as int,
        fv * pe,
    );
}

} // verus!
