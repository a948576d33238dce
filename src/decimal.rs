//! Decimal quantities (flow rates, volumes, plan amounts) as plain values,
//! with their arithmetic carried out by `rust_decimal`.
use vstd::prelude::*;

verus! {

/// Largest magnitude of a decimal's mantissa: 96 bits.
pub const MAX_MANTISSA: i128 = 79228162514264337593543950335;

/// Largest number of digits after the decimal point.
pub const MAX_SCALE: u32 = 28;

/// The decimal number `mantissa * 10^(-scale)`.
#[derive(Clone, Copy, Debug, PartialEq, Eq, Structural)]
pub struct DecimalValue {
    pub mantissa: i128,
    pub scale: u32,
}

/// The representation of an optional decimal: its mantissa and scale.
pub open spec fn opt_view(d: Option<DecimalValue>) -> Option<(int, int)> {
    match d {
        Some(v) => Some(v@),
        None => None,
    }
}

impl View for DecimalValue {
    type V = (int, int);

    open spec fn view(&self) -> (int, int) {
        (self.mantissa as int, self.scale as int)
    }
}

impl DecimalValue {
    /// Within the range that a `rust_decimal::Decimal` can hold.
    pub open spec fn wf(self) -> bool {
        &&& -MAX_MANTISSA <= self.mantissa <= MAX_MANTISSA
        &&& self.scale <= MAX_SCALE
    }

    /// The decimal `0`.
    pub fn zero() -> (r: DecimalValue)
        ensures
            r@ == (0int, 0int),
            r.wf(),
    {
        DecimalValue { mantissa: 0, scale: 0 }
    }

    /// The whole number `n`.
    pub fn from_integer(n: i64) -> (r: DecimalValue)
        ensures
            r@ == (n as int, 0int),
            r.wf(),
    {
        DecimalValue { mantissa: n as i128, scale: 0 }
    }
}

/// What `rust_decimal::Decimal::checked_mul` returns for two decimals
/// (mantissa and scale of each), `None` when the product overflows.
pub uninterp spec fn decimal_product(a: (int, int), b: (int, int)) -> Option<(int, int)>;

/// What `rust_decimal::Decimal::checked_div` returns for two decimals,
/// `None` on overflow or division by zero.
pub uninterp spec fn decimal_quotient(a: (int, int), b: (int, int)) -> Option<(int, int)>;

/// What `rust_decimal::Decimal::checked_add` returns for two decimals,
/// `None` when the sum overflows.
pub uninterp spec fn decimal_sum(a: (int, int), b: (int, int)) -> Option<(int, int)>;

/// Relies on `rust_decimal::Decimal::checked_mul` for the rounded product;
/// every `Decimal` it returns is within the representable range.
#[verifier::external_body]
pub(crate) fn checked_mul(a: DecimalValue, b: DecimalValue) -> (r: Option<DecimalValue>)
    requires
        a.wf(),
        b.wf(),
    ensures
        opt_view(r) == decimal_product(a@, b@),
        r matches Some(v) ==> v.wf(),
{
    let x = rust_decimal::Decimal::from_i128_with_scale(a.mantissa, a.scale);
    let y = rust_decimal::Decimal::from_i128_with_scale(b.mantissa, b.scale);
    match x.checked_mul(y) {
        Some(d) => Some(DecimalValue { mantissa: d.mantissa(), scale: d.scale() }),
        None => None,
    }
}

/// Relies on `rust_decimal::Decimal::checked_div` for the rounded quotient;
/// every `Decimal` it returns is within the representable range.
#[verifier::external_body]
pub(crate) fn checked_div(a: DecimalValue, b: DecimalValue) -> (r: Option<DecimalValue>)
    requires
        a.wf(),
        b.wf(),
    ensures
        opt_view(r) == decimal_quotient(a@, b@),
        r matches Some(v) ==> v.wf(),
{
    let x = rust_decimal::Decimal::from_i128_with_scale(a.mantissa, a.scale);
    let y = rust_decimal::Decimal::from_i128_with_scale(b.mantissa, b.scale);
    match x.checked_div(y) {
        Some(d) => Some(DecimalValue { mantissa: d.mantissa(), scale: d.scale() }),
        None => None,
    }
}

/// Relies on `rust_decimal::Decimal::checked_add` for the rounded sum;
/// every `Decimal` it returns is within the representable range.
#[verifier::external_body]
pub(crate) fn checked_add(a: DecimalValue, b: DecimalValue) -> (r: Option<DecimalValue>)
    requires
        a.wf(),
        b.wf(),
    ensures
        opt_view(r) == decimal_sum(a@, b@),
        r matches Some(v) ==> v.wf(),
{
    let x = rust_decimal::Decimal::from_i128_with_scale(a.mantissa, a.scale);
    let y = rust_decimal::Decimal::from_i128_with_scale(b.mantissa, b.scale);
    match x.checked_add(y) {
        Some(d) => Some(DecimalValue { mantissa: d.mantissa(), scale: d.scale() }),
        None => None,
    }
}

} // verus!
