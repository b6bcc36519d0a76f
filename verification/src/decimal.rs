//! Amounts from and to the decimals of `rust_decimal`.

use vstd::prelude::*;
use rust_decimal::Decimal;
use crate::account::Account;
use crate::amount::Amount;

verus! {

/// `rust_decimal::Decimal`: a mantissa of at most 96 bits with a sign, and
/// the number of its digits that stand behind the decimal point. Proofs
/// see a value only through [`decimal_mantissa_of`] and [`decimal_scale_of`].
#[verifier::external_type_specification]
#[verifier::external_body]
pub struct ExDecimal(rust_decimal::Decimal);

/// `rust_decimal::Error`: why a decimal could not be made.
#[verifier::external_type_specification]
#[verifier::external_body]
pub struct ExDecimalError(rust_decimal::Error);

/// The mantissa of a decimal: the integer that `Decimal::mantissa` returns
/// for it.
pub uninterp spec fn decimal_mantissa_of(d: Decimal) -> int;

/// The scale of a decimal: the number of fractional digits that
/// `Decimal::scale` returns for it. The decimal stands for the number
/// `decimal_mantissa_of(d) / 10^decimal_scale_of(d)`.
pub uninterp spec fn decimal_scale_of(d: Decimal) -> nat;

/// The largest mantissa of a decimal: 2^96 - 1.
pub const MAX_MANTISSA: i128 = 79_228_162_514_264_337_593_543_950_335;

/// The largest scale of a decimal that can be made from its parts.
pub const MAX_SCALE: u32 = 28;

/// Ten to the power of `n`.
pub open spec fn pow10(n: nat) -> int
    decreases n,
{
    if n == 0 {
        1
    } else {
        10 * pow10((n - 1) as nat)
    }
}

/// `units` ten-thousandths are exactly the number `mantissa / 10^scale`.
pub open spec fn exact(mantissa: int, scale: nat, units: int) -> bool {
    units * pow10(scale) == mantissa * 10000
}

/// The decimal `d` stands for exactly `units` ten-thousandths and is written
/// in the shortest way: with at most four fractional digits, and with none,
/// or with a last one that is not zero.
pub open spec fn shows(d: Decimal, units: int) -> bool {
    &&& exact(decimal_mantissa_of(d), decimal_scale_of(d), units)
    &&& decimal_scale_of(d) <= 4
    &&& (decimal_scale_of(d) == 0 || decimal_mantissa_of(d) % 10 != 0)
}

/// `r` is the amount that equals `mantissa / 10^scale` exactly, or `None`
/// where no amount does.
pub open spec fn converts(mantissa: int, scale: nat, r: Option<Amount>) -> bool {
    match r {
        Some(a) => exact(mantissa, scale, a@),
        None => forall|u: int|
            i128::MIN <= u <= i128::MAX ==> !#[trigger] exact(mantissa, scale, u),
    }
}

/// Calls `Decimal::mantissa`, which puts the three 32-bit words of the
/// decimal together and gives the result the decimal's sign. Taken on
/// trust: the result is the decimal's mantissa, and its absolute value is
/// below 2^96.
#[verifier::external_body]
fn decimal_mantissa(d: &Decimal) -> (m: i128)
    ensures
        m == decimal_mantissa_of(*d),
        -MAX_MANTISSA <= m <= MAX_MANTISSA,
{
    d.mantissa()
}

/// Calls `Decimal::scale`, which reads the scale out of eight bits of the
/// decimal's flags. Taken on trust: the result is the decimal's scale, and
/// it fits in eight bits.
#[verifier::external_body]
fn decimal_scale(d: &Decimal) -> (s: u32)
    ensures
        s == decimal_scale_of(*d),
        s <= 255,
{
    d.scale()
}

/// Calls `Decimal::try_from_i128_with_scale`. Taken on trust: it fails
/// where the scale is above 28 or the number needs more than 96 bits, and
/// otherwise gives the decimal with `num` as its mantissa and `scale` as
/// its scale.
#[verifier::external_body]
fn decimal_from_scaled(num: i128, scale: u32) -> (r: Result<Decimal, rust_decimal::Error>)
    ensures
        match r {
            Ok(d) => {
                &&& scale <= MAX_SCALE && -MAX_MANTISSA <= num <= MAX_MANTISSA
                &&& decimal_mantissa_of(d) == num
                &&& decimal_scale_of(d) == scale
            },
            Err(_) => !(scale <= MAX_SCALE && -MAX_MANTISSA <= num <= MAX_MANTISSA),
        },
{
    Decimal::try_from_i128_with_scale(num, scale)
}

/// Calls `Decimal::normalize`, which divides the mantissa by ten and takes
/// one from the scale for as long as the scale is positive and the division
/// leaves no remainder, and gives zero the scale 0. Taken on trust: the
/// result stands for the same number, its scale is not larger, and it has
/// no fractional digits or a last one that is not zero.
#[verifier::external_body]
fn decimal_normalize(d: &Decimal) -> (r: Decimal)
    ensures
        decimal_mantissa_of(r) * pow10(decimal_scale_of(*d)) == decimal_mantissa_of(*d) * pow10(
            decimal_scale_of(r),
        ),
        decimal_scale_of(r) <= decimal_scale_of(*d),
        decimal_scale_of(r) == 0 || decimal_mantissa_of(r) % 10 != 0,
{
    d.normalize()
}

proof fn lemma_pow10_small()
    ensures
        pow10(0) == 1,
        pow10(1) == 10,
        pow10(2) == 100,
        pow10(3) == 1000,
        pow10(4) == 10000,
{
    reveal_with_fuel(pow10, 6);
}

proof fn lemma_pow10_positive(n: nat)
    ensures
        pow10(n) > 0,
    decreases n,
{
    if n > 0 {
        lemma_pow10_positive((n - 1) as nat);
    }
}

/// Reading a decimal that stands for exactly the amount `a` gives `a` back:
/// so `from_decimal` undoes `to_decimal` and `to_normalized_decimal`.
pub proof fn law_decimal_round_trip(a: Amount, d: Decimal, r: Option<Amount>)
    requires
        exact(decimal_mantissa_of(d), decimal_scale_of(d), a@),
        converts(decimal_mantissa_of(d), decimal_scale_of(d), r),
    ensures
        r == Some(a),
{
    let m = decimal_mantissa_of(d);
    let p = pow10(decimal_scale_of(d));
    lemma_pow10_positive(decimal_scale_of(d));
    match r {
        Some(b) => {
            assert(b@ == a@) by (nonlinear_arith)
                requires
                    b@ * p == m * 10000,
                    a@ * p == m * 10000,
                    p > 0,
            ;
        },
        None => {
            assert(false);
        },
    }
}

/// A last digit zero can be dropped together with one digit of the scale.
proof fn lemma_exact_strip(m: int, s: nat, u: int)
    requires
        s >= 1,
        m % 10 == 0,
    ensures
        exact(m, s, u) <==> exact(m / 10, (s - 1) as nat, u),
{
    let p = pow10((s - 1) as nat);
    let q = m / 10;
    assert(pow10(s) == 10 * p);
    assert(m == 10 * q);
    assert((u * (10 * p) == (10 * q) * 10000) <==> (u * p == q * 10000)) by (nonlinear_arith);
}

/// A number with a digit behind the fourth fractional place is no amount.
proof fn lemma_exact_needs_zero(m: int, s: nat, u: int)
    requires
        s >= 5,
        m % 10 != 0,
    ensures
        !exact(m, s, u),
{
    let p = pow10((s - 5) as nat);
    assert(pow10(s) == 100000 * p) by {
        reveal_with_fuel(pow10, 6);
    }
    if exact(m, s, u) {
        assert(u * (100000 * p) == m * 10000);
        assert(m == 10 * (u * p)) by (nonlinear_arith)
            requires
                u * (100000 * p) == m * 10000,
        ;
        assert(false);
    }
}

impl Amount {
    /// The amount that equals `mantissa / 10^scale`, where that number has
    /// at most four fractional digits and lies in the range of the type.
    pub fn from_parts(mantissa: i128, scale: u32) -> (r: Option<Amount>)
        ensures
            converts(mantissa as int, scale as nat, r),
    {
        if mantissa == 0 {
            assert(0 * pow10(scale as nat) == 0 * 10000) by (nonlinear_arith);
            return Some(Amount { units: 0 });
        }
        let mut m: i128 = mantissa;
        let mut s: u32 = scale;
        while s > 4
            invariant
                m != 0,
                forall|u: int|
                    #![trigger exact(mantissa as int, scale as nat, u)]
                    #![trigger exact(m as int, s as nat, u)]
                    exact(mantissa as int, scale as nat, u) <==> exact(m as int, s as nat, u),
            decreases s,
        {
            let rem = m.checked_rem_euclid(10);
            if rem != Some(0i128) {
                assert forall|u: int| !#[trigger] exact(m as int, s as nat, u) by {
                    lemma_exact_needs_zero(m as int, s as nat, u);
                }
                return None;
            }
            let q: i128 = match m.checked_div_euclid(10) {
                Some(q) => q,
                None => {
                    return None;
                },
            };
            assert forall|u: int|
                #![trigger exact(m as int, s as nat, u)]
                #![trigger exact(q as int, (s - 1) as nat, u)]
                exact(m as int, s as nat, u) <==> exact(q as int, (s - 1) as nat, u) by {
                lemma_exact_strip(m as int, s as nat, u);
            }
            m = q;
            s = s - 1;
        }
        let factor: i128 = match s {
            0 => 10000,
            1 => 1000,
            2 => 100,
            3 => 10,
            _ => 1,
        };
        proof {
            lemma_pow10_small();
            assert(factor * pow10(s as nat) == 10000);
        }
        let ghost p = pow10(s as nat);
        match m.checked_mul(factor) {
            Some(units) => {
                assert(units * p == m * 10000) by (nonlinear_arith)
                    requires
                        units == m * factor,
                        factor * p == 10000,
                ;
                Some(Amount { units })
            },
            None => {
                assert forall|u: int| i128::MIN <= u <= i128::MAX implies !#[trigger] exact(
                    m as int,
                    s as nat,
                    u,
                ) by {
                    if exact(m as int, s as nat, u) {
                        assert(u == m * factor) by (nonlinear_arith)
                            requires
                                u * p == m * 10000,
                                factor * p == 10000,
                                p > 0,
                        ;
                    }
                }
                None
            },
        }
    }

    /// The amount that equals the number `d` stands for: `None` where that
    /// number has a digit that is not zero behind the fourth fractional
    /// place.
    pub fn from_decimal(d: &Decimal) -> (r: Option<Amount>)
        ensures
            converts(decimal_mantissa_of(*d), decimal_scale_of(*d), r),
    {
        let mantissa = decimal_mantissa(d);
        let scale = decimal_scale(d);
        Amount::from_parts(mantissa, scale)
    }

    /// The decimal with this amount's count as mantissa and four fractional
    /// digits: `None` where the count needs more than 96 bits.
    pub fn to_decimal(&self) -> (r: Option<Decimal>)
        ensures
            r is Some <==> -MAX_MANTISSA <= self@ <= MAX_MANTISSA,
            r matches Some(d) ==> decimal_mantissa_of(d) == self@ && decimal_scale_of(d) == 4,
    {
        match decimal_from_scaled(self.units, crate::amount::SCALE) {
            Ok(d) => Some(d),
            Err(_) => None,
        }
    }

    /// The decimal that stands for this amount without trailing zeros
    /// behind the decimal point: `None` where the count needs more than 96
    /// bits.
    pub fn to_normalized_decimal(&self) -> (r: Option<Decimal>)
        ensures
            r is Some <==> -MAX_MANTISSA <= self@ <= MAX_MANTISSA,
            r matches Some(d) ==> shows(d, self@),
    {
        match self.to_decimal() {
            Some(d) => {
                proof {
                    lemma_pow10_small();
                }
                Some(decimal_normalize(&d))
            },
            None => None,
        }
    }
}

impl Account {
    /// The available, held and total funds as decimals without trailing
    /// zeros, in that order: `None` where one of them needs more than 96
    /// bits. The account itself stays as it is.
    pub fn normalize_values(&self) -> (r: Option<(Decimal, Decimal, Decimal)>)
        ensures
            r is Some <==> {
                &&& -MAX_MANTISSA <= self@.available <= MAX_MANTISSA
                &&& -MAX_MANTISSA <= self@.held <= MAX_MANTISSA
                &&& -MAX_MANTISSA <= self@.total <= MAX_MANTISSA
            },
            r matches Some(t) ==> shows(t.0, self@.available) && shows(t.1, self@.held) && shows(
                t.2,
                self@.total,
            ),
    {
        let available = match self.available().to_normalized_decimal() {
            Some(d) => d,
            None => {
                return None;
            },
        };
        let held = match self.held().to_normalized_decimal() {
            Some(d) => d,
            None => {
                return None;
            },
        };
        match self.total().to_normalized_decimal() {
            Some(total) => Some((available, held, total)),
            None => None,
        }
    }
}

} // verus!
