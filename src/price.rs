//! Exact fixed-point prices.

use vstd::prelude::*;

verus! {

/// The largest number of digits after the decimal point that a `Price` holds.
pub const MAX_SCALE: u32 = 18;

/// Ten to the power `n`.
pub open spec fn pow10(n: nat) -> int
    decreases n,
{
    if n == 0 {
        1
    } else {
        10 * pow10((n - 1) as nat)
    }
}

/// The value of `digits * 10^-scale` counted in units of `10^-MAX_SCALE`.
pub open spec fn units_of(digits: int, scale: nat) -> int {
    digits * pow10((MAX_SCALE - scale) as nat)
}

/// What a decimal text and its digits and scale mean as a price: the scale must
/// lie in `0..=MAX_SCALE`.
pub open spec fn price_units_of_parts(parts: Option<(i64, i64)>) -> Option<int> {
    match parts {
        Some((digits, scale)) => if 0 <= scale <= MAX_SCALE {
            Some(units_of(digits as int, scale as nat))
        } else {
            None
        },
        None => None,
    }
}

/// The digits and the scale (digits after the point) of the decimal number that
/// a text denotes, as bigdecimal reads it; `None` where it does not parse or the
/// digits do not fit in an `i64`.
pub uninterp spec fn decimal_parts_of(text: Seq<char>) -> Option<(i64, i64)>;

pub proof fn lemma_pow10_positive(n: nat)
    ensures
        pow10(n) >= 1,
    decreases n,
{
    if n > 0 {
        lemma_pow10_positive((n - 1) as nat);
    }
}

pub proof fn lemma_pow10_monotonic(a: nat, b: nat)
    requires
        a <= b,
    ensures
        pow10(a) <= pow10(b),
    decreases b,
{
    if a < b {
        lemma_pow10_monotonic(a, (b - 1) as nat);
        lemma_pow10_positive((b - 1) as nat);
    }
}

proof fn lemma_units_bounds(digits: i64, scale: nat)
    requires
        scale <= MAX_SCALE,
    ensures
        -10_000_000_000_000_000_000_000_000_000_000_000_000 < units_of(digits as int, scale),
        units_of(digits as int, scale) < 10_000_000_000_000_000_000_000_000_000_000_000_000,
{
    let p = pow10((MAX_SCALE - scale) as nat);
    lemma_pow10_positive((MAX_SCALE - scale) as nat);
    lemma_pow10_monotonic((MAX_SCALE - scale) as nat, MAX_SCALE as nat);
    reveal_with_fuel(pow10, 19);
    assert(pow10(MAX_SCALE as nat) == 1_000_000_000_000_000_000);
    let d = digits as int;
    assert(-10_000_000_000_000_000_000_000_000_000_000_000_000 < d * p
        && d * p < 10_000_000_000_000_000_000_000_000_000_000_000_000) by (nonlinear_arith)
        requires
            1 <= p <= 1_000_000_000_000_000_000,
            -9_223_372_036_854_775_808 <= d <= 9_223_372_036_854_775_807,
    ;
}

/// A price held exactly: `digits * 10^-scale`.
#[derive(Clone, Copy, Debug)]
pub struct Price {
    digits: i64,
    scale: u32,
}

impl View for Price {
    /// A price's value counted in units of `10^-MAX_SCALE`.
    type V = int;

    closed spec fn view(&self) -> int {
        units_of(self.digits as int, self.scale as nat)
    }
}

fn pow10_exec(n: u32) -> (r: i128)
    requires
        n <= MAX_SCALE,
    ensures
        r == pow10(n as nat),
{
    let mut r: i128 = 1;
    let mut i: u32 = 0;
    while i < n
        invariant
            i <= n <= MAX_SCALE,
            r == pow10(i as nat),
        decreases n - i,
    {
        proof {
            lemma_pow10_monotonic((i + 1) as nat, MAX_SCALE as nat);
            reveal_with_fuel(pow10, 19);
        }
        r = r * 10;
        i = i + 1;
    }
    r
}

/// Relies on bigdecimal's `FromStr` for `BigDecimal` (decimal text with an
/// optional sign, point and exponent), `BigDecimal::into_bigint_and_scale`, and
/// num-bigint's `ToPrimitive::to_i64` on the digits: the result depends on the
/// text alone.
#[verifier::external_body]
pub(crate) fn decimal_parts(text: &str) -> (r: Option<(i64, i64)>)
    ensures
        r == decimal_parts_of(text@),
{
    let d = text.parse::<bigdecimal::BigDecimal>().ok()?;
    let (digits, scale) = d.into_bigint_and_scale();
    bigdecimal::ToPrimitive::to_i64(&digits).map(|m| (m, scale))
}

impl Price {
    #[verifier::type_invariant]
    spec fn well_formed(self) -> bool {
        self.scale <= MAX_SCALE
    }

    /// The price `digits * 10^-scale`; `None` where `scale` exceeds `MAX_SCALE`.
    pub fn new(digits: i64, scale: u32) -> (r: Option<Price>)
        ensures
            r is Some <==> scale <= MAX_SCALE,
            r matches Some(p) ==> p@ == units_of(digits as int, scale as nat),
    {
        if scale <= MAX_SCALE {
            Some(Price { digits, scale })
        } else {
            None
        }
    }

    /// The price that a decimal's digits and scale denote: `None` where there
    /// are none or the scale lies outside `0..=MAX_SCALE`.
    pub fn from_parts(parts: Option<(i64, i64)>) -> (r: Option<Price>)
        ensures
            r is Some <==> price_units_of_parts(parts) is Some,
            r matches Some(p) ==> p@ == price_units_of_parts(parts)->Some_0,
    {
        match parts {
            Some((digits, scale)) => {
                if 0 <= scale && scale <= MAX_SCALE as i64 {
                    Price::new(digits, scale as u32)
                } else {
                    None
                }
            },
            None => None,
        }
    }

    /// Reads a decimal text such as `451.00` exactly, with no rounding.
    pub fn parse(text: &str) -> (r: Option<Price>)
        ensures
            r is Some <==> price_units_of_parts(decimal_parts_of(text@)) is Some,
            r matches Some(p) ==> p@ == price_units_of_parts(decimal_parts_of(text@))->Some_0,
    {
        Price::from_parts(decimal_parts(text))
    }

    /// The price's value as an integer count of `10^-MAX_SCALE` units.
    pub fn units(&self) -> (r: i128)
        ensures
            r == self@,
    {
        proof {
            use_type_invariant(self);
            lemma_units_bounds(self.digits, self.scale as nat);
        }
        let p = pow10_exec(MAX_SCALE - self.scale);
        proof {
            lemma_pow10_positive((MAX_SCALE - self.scale) as nat);
            lemma_pow10_monotonic((MAX_SCALE - self.scale) as nat, MAX_SCALE as nat);
            reveal_with_fuel(pow10, 19);
        }
        self.digits as i128 * p
    }

    /// Whether this price is at or below `other`, compared exactly.
    pub fn at_most(&self, other: &Price) -> (r: bool)
        ensures
            r == (self@ <= other@),
    {
        self.units() <= other.units()
    }
}

} // verus!
