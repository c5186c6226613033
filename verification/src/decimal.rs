//! Decimal numbers as `rust_decimal` holds them, a mantissa and a scale,
//! with parsing, printing and arithmetic delegated to `rust_decimal`, and the
//! rounding of amounts to whole cents.

use vstd::prelude::*;
use crate::numbers::nat_text;
use core::str::FromStr;

verus! {

/// Largest mantissa magnitude of a `rust_decimal::Decimal` (96 bits).
pub open spec fn max_mantissa() -> int {
    0xFFFF_FFFF_FFFF_FFFF_FFFF_FFFF
}

/// Largest scale of a `rust_decimal::Decimal`.
pub open spec fn max_scale() -> int {
    28
}

pub open spec fn valid_decimal(m: int, s: int) -> bool {
    -max_mantissa() <= m <= max_mantissa() && 0 <= s <= max_scale()
}

pub open spec fn pow10(n: nat) -> int
    decreases n,
{
    if n == 0 {
        1
    } else {
        10 * pow10((n - 1) as nat)
    }
}

/// What `rust_decimal::Decimal::from_str` yields for a text, as mantissa and
/// scale, or `None` where it reports an error.
pub uninterp spec fn decimal_from_text(text: Seq<char>) -> Option<(int, int)>;

/// The decimal digits of `|m|` (none for zero), with zeros in front up to at
/// least `s` digits.
pub open spec fn padded_digits(m: int, s: int) -> Seq<char> {
    let a = if m < 0 { -m } else { m };
    let d = if a == 0 { Seq::<char>::empty() } else { nat_text(a as nat) };
    if d.len() < s {
        Seq::new((s - d.len()) as nat, |i: int| '0') + d
    } else {
        d
    }
}

/// What the `Display` impl of `rust_decimal::Decimal` writes for the decimal
/// with mantissa `m` and scale `s`: the digits before the decimal point (`0`
/// where there are none), then, where any fractional digit is shown, `.` and
/// the fractional digits, as many as the precision asks (the scale where it
/// asks none), cut off or filled with zeros; `0` where nothing is shown; a
/// `-` in front of a negative number.
pub open spec fn decimal_display(m: int, s: int, precision: Option<int>) -> Seq<char> {
    let p = padded_digits(m, s);
    let whole = p.len() - s;
    let prec = match precision {
        Some(q) => q,
        None => s,
    };
    let frac = Seq::new(prec as nat, |i: int| if whole + i < p.len() { p[whole + i] } else { '0' });
    let body = if prec > 0 {
        (if whole == 0 { seq!['0'] } else { p.take(whole) }) + seq!['.'] + frac
    } else {
        p.take(whole)
    };
    let shown = if body.len() == 0 { seq!['0'] } else { body };
    if m < 0 { seq!['-'] + shown } else { shown }
}

/// What `rust_decimal::Decimal::checked_mul` yields, as mantissa and scale.
pub uninterp spec fn decimal_checked_mul(am: int, as_: int, bm: int, bs: int) -> Option<(int, int)>;

/// What `rust_decimal::Decimal::checked_add` yields, as mantissa and scale.
pub uninterp spec fn decimal_checked_add(am: int, as_: int, bm: int, bs: int) -> Option<(int, int)>;

/// A decimal number: `mantissa / 10^scale`.
#[derive(Clone, Copy, Debug, PartialEq, Eq, Hash, Structural)]
pub struct Dec {
    mantissa: i128,
    scale: u32,
}

impl View for Dec {
    type V = (int, int);

    closed spec fn view(&self) -> (int, int) {
        (self.mantissa as int, self.scale as int)
    }
}

impl Dec {
    #[verifier::type_invariant]
    closed spec fn inv(self) -> bool {
        valid_decimal(self.mantissa as int, self.scale as int)
    }

    /// The decimal `mantissa / 10^scale`, where `rust_decimal` can hold it.
    pub fn new(mantissa: i128, scale: u32) -> (r: Option<Dec>)
        ensures
            r is Some <==> valid_decimal(mantissa as int, scale as int),
            r matches Some(d) ==> d@ == (mantissa as int, scale as int),
    {
        if -0xFFFF_FFFF_FFFF_FFFF_FFFF_FFFFi128 <= mantissa && mantissa <= 0xFFFF_FFFF_FFFF_FFFF_FFFF_FFFFi128
            && scale <= 28 {
            Some(Dec { mantissa, scale })
        } else {
            None
        }
    }

    /// The whole number `n`.
    pub fn from_i64(n: i64) -> (r: Dec)
        ensures
            r@ == (n as int, 0int),
    {
        Dec { mantissa: n as i128, scale: 0 }
    }

    /// The amount of `cents / 100`.
    pub fn from_cents(cents: i64) -> (r: Dec)
        ensures
            r@ == (cents as int, 2int),
    {
        Dec { mantissa: cents as i128, scale: 2 }
    }

    pub fn mantissa(&self) -> (r: i128)
        ensures
            r as int == self@.0,
    {
        self.mantissa
    }

    pub fn scale(&self) -> (r: u32)
        ensures
            r as int == self@.1,
    {
        self.scale
    }

    pub fn is_positive(&self) -> (r: bool)
        ensures
            r == (self@.0 > 0),
    {
        self.mantissa > 0
    }
}

/// `rust_decimal::Decimal::from_str`: the decimal that `decimal_from_text`
/// names, `None` for its error.
#[verifier::external_body]
pub(crate) fn parse_decimal(text: &str) -> (r: Option<Dec>)
    ensures
        match r {
            Some(d) => decimal_from_text(text@) == Some(d@),
            None => decimal_from_text(text@) is None,
        },
{
    rust_decimal::Decimal::from_str(text).ok().map(|d| Dec { mantissa: d.mantissa(), scale: d.scale() })
}

/// `Decimal::to_string`: the digits of the mantissa with a decimal point
/// `scale` places from the right and a leading `-` for a negative number.
/// `Decimal::from_str` reads such a text back with the same mantissa and
/// scale.
#[verifier::external_body]
pub(crate) fn decimal_to_string(d: Dec) -> (r: String)
    ensures
        r@ == decimal_display(d@.0, d@.1, None),
        decimal_from_text(r@) == Some(d@),
{
    rust_decimal::Decimal::from_i128_with_scale(d.mantissa, d.scale).to_string()
}

/// `format!("{:.2}", d)` for a `Decimal`: the `Display` impl with a
/// precision of two places.
#[verifier::external_body]
pub(crate) fn decimal_to_string_2dp(d: Dec) -> (r: String)
    ensures
        r@ == decimal_display(d@.0, d@.1, Some(2)),
{
    format!("{:.2}", rust_decimal::Decimal::from_i128_with_scale(d.mantissa, d.scale))
}

/// `Decimal::checked_mul`.
#[verifier::external_body]
pub(crate) fn decimal_mul(a: Dec, b: Dec) -> (r: Option<Dec>)
    ensures
        match r {
            Some(c) => decimal_checked_mul(a@.0, a@.1, b@.0, b@.1) == Some(c@),
            None => decimal_checked_mul(a@.0, a@.1, b@.0, b@.1) is None,
        },
{
    let x = rust_decimal::Decimal::from_i128_with_scale(a.mantissa, a.scale);
    let y = rust_decimal::Decimal::from_i128_with_scale(b.mantissa, b.scale);
    x.checked_mul(y).map(|z| Dec { mantissa: z.mantissa(), scale: z.scale() })
}

/// `Decimal::checked_add`.
#[verifier::external_body]
pub(crate) fn decimal_add(a: Dec, b: Dec) -> (r: Option<Dec>)
    ensures
        match r {
            Some(c) => decimal_checked_add(a@.0, a@.1, b@.0, b@.1) == Some(c@),
            None => decimal_checked_add(a@.0, a@.1, b@.0, b@.1) is None,
        },
{
    let x = rust_decimal::Decimal::from_i128_with_scale(a.mantissa, a.scale);
    let y = rust_decimal::Decimal::from_i128_with_scale(b.mantissa, b.scale);
    x.checked_add(y).map(|z| Dec { mantissa: z.mantissa(), scale: z.scale() })
}

/// `n / d` rounded to a whole number, halves going to the even neighbour,
/// for `n >= 0` and `d > 0`.
pub open spec fn round_half_even_nonneg(n: int, d: int) -> int {
    let q = n / d;
    let r = n % d;
    if 2 * r < d {
        q
    } else if 2 * r > d {
        q + 1
    } else if q % 2 == 0 {
        q
    } else {
        q + 1
    }
}

/// `n / d` rounded to a whole number, halves going to the even neighbour
/// (a rule that is symmetric about zero), for `d > 0`.
pub open spec fn round_half_even(n: int, d: int) -> int {
    if n >= 0 {
        round_half_even_nonneg(n, d)
    } else {
        -round_half_even_nonneg(-n, d)
    }
}

/// The number of whole cents nearest to the decimal `m / 10^s`.
pub open spec fn cents_of(m: int, s: nat) -> int {
    round_half_even(m * 100, pow10(s))
}

fn pow10_u128(n: u32) -> (r: u128)
    requires
        n <= 28,
    ensures
        r as int == pow10(n as nat),
        r > 0,
        r <= 10_000_000_000_000_000_000_000_000_000u128,
{
    proof {
        reveal_with_fuel(pow10, 29);
        lemma_pow10_mono(0, 28);
    }
    let mut r: u128 = 1;
    let mut i: u32 = 0;
    while i < n
        invariant
            i <= n <= 28,
            r as int == pow10(i as nat),
            pow10(28) == 10_000_000_000_000_000_000_000_000_000int,
        decreases n - i,
    {
        proof {
            lemma_pow10_mono(i as nat + 1, 28);
        }
        r = r * 10;
        i = i + 1;
    }
    proof {
        lemma_pow10_mono(n as nat, 28);
    }
    r
}

proof fn lemma_pow10_mono(a: nat, b: nat)
    requires
        a <= b,
    ensures
        0 < pow10(a) <= pow10(b),
    decreases b,
{
    if b == 0 {
    } else if a == b {
        lemma_pow10_mono((a - 1) as nat, (b - 1) as nat);
    } else {
        lemma_pow10_mono(a, (b - 1) as nat);
    }
}

/// The amount `d` in whole cents, rounded half to even, or `None` where the
/// count of cents does not fit an `i64`.
pub fn to_cents(d: Dec) -> (r: Option<i64>)
    ensures
        match r {
            Some(c) => c as int == cents_of(d@.0, d@.1 as nat),
            None => !(i64::MIN <= cents_of(d@.0, d@.1 as nat) <= i64::MAX),
        },
{
    proof {
        use_type_invariant(&d);
    }
    let neg = d.mantissa < 0;
    let a: u128 = if neg { (0 - d.mantissa) as u128 } else { d.mantissa as u128 };
    assert(a <= 0xFFFF_FFFF_FFFF_FFFF_FFFF_FFFFu128);
    let num: u128 = a * 100;
    let den = pow10_u128(d.scale);
    let q = num / den;
    let rem = num % den;
    let rounded: u128 = if 2 * rem < den {
        q
    } else if 2 * rem > den {
        q + 1
    } else if q % 2 == 0 {
        q
    } else {
        q + 1
    };
    assert(rounded as int == round_half_even_nonneg(a * 100, den as int));
    if neg {
        if rounded <= 0x8000_0000_0000_0000u128 {
            let c: i128 = 0 - (rounded as i128);
            Some(c as i64)
        } else {
            None
        }
    } else {
        if rounded <= 0x7FFF_FFFF_FFFF_FFFFu128 {
            Some(rounded as i64)
        } else {
            None
        }
    }
}

} // verus!
