use vstd::prelude::*;

verus! {

/// A decimal amount (a price, a quantity or a balance): `mantissa` divided by
/// ten to the power `scale`.
#[derive(Debug, Clone, Copy, PartialEq, Eq, Structural)]
pub struct Amount {
    pub mantissa: i128,
    pub scale: u32,
}

/// The largest mantissa magnitude a decimal amount holds (96 bits).
pub const MAX_MANTISSA: i128 = 0x0000_0000_FFFF_FFFF_FFFF_FFFF_FFFF_FFFFi128;

/// The largest number of decimal places.
pub const MAX_SCALE: u32 = 28u32;

impl Amount {
    /// Whether the amount is one a decimal number can hold.
    pub open spec fn wf(self) -> bool {
        -MAX_MANTISSA <= self.mantissa <= MAX_MANTISSA && self.scale <= MAX_SCALE
    }

    /// Zero, with no decimal places (the default of every amount).
    pub fn zero() -> (res: Self)
        ensures
            res == Amount::spec_zero(),
            res.wf(),
    {
        Amount { mantissa: 0, scale: 0 }
    }

    pub open spec fn spec_zero() -> Self {
        Amount { mantissa: 0, scale: 0 }
    }
}

} // verus!

verus! {

/// The sum `rust_decimal` computes for two decimal numbers given as mantissa
/// and scale (`None` when it overflows).
pub uninterp spec fn decimal_checked_add(
    a_mantissa: i128,
    a_scale: u32,
    b_mantissa: i128,
    b_scale: u32,
) -> Option<(i128, u32)>;

/// The difference `rust_decimal` computes for two decimal numbers given as
/// mantissa and scale (`None` when it overflows).
pub uninterp spec fn decimal_checked_sub(
    a_mantissa: i128,
    a_scale: u32,
    b_mantissa: i128,
    b_scale: u32,
) -> Option<(i128, u32)>;

/// Ten to the power `n`.
pub open spec fn pow10(n: nat) -> int
    decreases n,
{
    if n == 0 {
        1
    } else {
        10 * pow10((n - 1) as nat)
    }
}

/// The larger of the two scales.
pub open spec fn larger_scale(a: Amount, b: Amount) -> u32 {
    if a.scale >= b.scale {
        a.scale
    } else {
        b.scale
    }
}

/// The mantissa of `a` written at the (not smaller) scale `scale`.
pub open spec fn aligned_mantissa(a: Amount, scale: u32) -> int {
    a.mantissa * pow10((scale - a.scale) as nat)
}

/// The exact sum of `a` and `b`, as a mantissa at their larger scale.
pub open spec fn exact_sum(a: Amount, b: Amount) -> int {
    aligned_mantissa(a, larger_scale(a, b)) + aligned_mantissa(b, larger_scale(a, b))
}

/// The exact difference `a - b`, as a mantissa at their larger scale.
pub open spec fn exact_difference(a: Amount, b: Amount) -> int {
    aligned_mantissa(a, larger_scale(a, b)) - aligned_mantissa(b, larger_scale(a, b))
}

/// Whether `a` and `b` are the same number, as decimal numbers compare
/// (5 and 5.00 are equal): their mantissas agree at the larger scale.
pub open spec fn same_value(a: Amount, b: Amount) -> bool {
    aligned_mantissa(a, larger_scale(a, b)) == aligned_mantissa(b, larger_scale(a, b))
}

/// Whether `x` is a mantissa a decimal number holds (below 2^96 in size).
pub open spec fn fits_decimal(x: int) -> bool {
    -0x1_0000_0000_0000_0000_0000_0000 < x < 0x1_0000_0000_0000_0000_0000_0000
}

/// Operands that `rust_decimal` adds and subtracts on its direct paths:
/// both non-zero, both mantissas below 2^64 in size, and scales at most 19
/// apart.
pub open spec fn direct_operands(a: Amount, b: Amount) -> bool {
    &&& a.mantissa != 0
    &&& b.mantissa != 0
    &&& -0x1_0000_0000_0000_0000 < a.mantissa < 0x1_0000_0000_0000_0000
    &&& -0x1_0000_0000_0000_0000 < b.mantissa < 0x1_0000_0000_0000_0000
    &&& a.scale - b.scale <= 19
    &&& b.scale - a.scale <= 19
}

/// Operands whose sum or difference `rust_decimal` computes exactly when it
/// fits: both non-zero, and either on its direct paths or of equal scale.
pub open spec fn exact_path(a: Amount, b: Amount) -> bool {
    direct_operands(a, b) || (a.mantissa != 0 && b.mantissa != 0 && a.scale == b.scale)
}

/// The sum `rust_decimal` gives where its source shows it plainly: adding to
/// zero gives the other operand as it is, adding zero gives the first
/// operand, and on an exact path a sum that fits is the exact sum at the
/// larger scale. `None` where the source's rounding paths decide.
pub open spec fn known_sum(a: Amount, b: Amount) -> Option<Amount> {
    if a.mantissa == 0 {
        Some(b)
    } else if b.mantissa == 0 {
        Some(a)
    } else if exact_path(a, b) && fits_decimal(exact_sum(a, b)) {
        Some(Amount { mantissa: exact_sum(a, b) as i128, scale: larger_scale(a, b) })
    } else {
        None
    }
}

/// The difference `rust_decimal` gives where its source shows it plainly:
/// zero minus `b` is `b` negated at its own scale, `a` minus zero is `a`, and
/// on an exact path a difference that fits is the exact difference at the
/// larger scale. `None` where the source's rounding paths decide.
pub open spec fn known_difference(a: Amount, b: Amount) -> Option<Amount> {
    if a.mantissa == 0 {
        Some(Amount { mantissa: (0 - b.mantissa) as i128, scale: b.scale })
    } else if b.mantissa == 0 {
        Some(a)
    } else if exact_path(a, b) && fits_decimal(exact_difference(a, b)) {
        Some(Amount { mantissa: exact_difference(a, b) as i128, scale: larger_scale(a, b) })
    } else {
        None
    }
}

/// The value of an amount written at scale 28, the finest a decimal holds.
pub open spec fn finest_mantissa(a: Amount) -> int {
    aligned_mantissa(a, MAX_SCALE)
}

proof fn lemma_pow10_add(m: nat, n: nat)
    ensures
        pow10(m + n) == pow10(m) * pow10(n),
    decreases m,
{
    if m > 0 {
        lemma_pow10_add((m - 1) as nat, n);
        assert(pow10(m + n) == 10 * pow10((m - 1 + n) as nat));
        assert(10 * (pow10((m - 1) as nat) * pow10(n)) == (10 * pow10((m - 1) as nat)) * pow10(n)) by (nonlinear_arith);
    }
}

/// Writing an amount at a finer scale keeps its value.
proof fn lemma_aligned_finest(a: Amount, scale: u32)
    requires
        a.scale <= scale <= MAX_SCALE,
    ensures
        finest_mantissa(a) == aligned_mantissa(a, scale) * pow10((MAX_SCALE - scale) as nat),
{
    lemma_pow10_add((scale - a.scale) as nat, (MAX_SCALE - scale) as nat);
    let x = a.mantissa;
    let p = pow10((scale - a.scale) as nat);
    let q = pow10((MAX_SCALE - scale) as nat);
    assert(x * (p * q) == (x * p) * q) by (nonlinear_arith);
}

/// The sums and differences `rust_decimal` gives where its source shows them
/// plainly are exact: in value, a known sum is the sum of the operands and a
/// known difference their difference; adding or subtracting zero gives the
/// other operand back.
pub proof fn lemma_known_results_are_exact(a: Amount, b: Amount)
    requires
        a.wf(),
        b.wf(),
    ensures
        known_sum(a, b) matches Some(x) ==> finest_mantissa(x) == finest_mantissa(a) + finest_mantissa(b),
        known_difference(a, b) matches Some(x) ==> finest_mantissa(x) == finest_mantissa(a) - finest_mantissa(b),
        b.mantissa == 0 ==> known_sum(a, b) is Some && same_value(known_sum(a, b).unwrap(), a),
        b.mantissa == 0 ==> known_difference(a, b) is Some && same_value(known_difference(a, b).unwrap(), a),
{
    let l = larger_scale(a, b);
    let q = pow10((MAX_SCALE - l) as nat);
    lemma_aligned_finest(a, l);
    lemma_aligned_finest(b, l);
    assert(pow10(0) == 1);
    let fa = finest_mantissa(a);
    let fb = finest_mantissa(b);
    assert(a.mantissa == 0 ==> fa == 0) by {
        if a.mantissa == 0 {
            assert(a.mantissa * pow10((MAX_SCALE - a.scale) as nat) == 0) by (nonlinear_arith)
                requires a.mantissa == 0;
        }
    }
    assert(b.mantissa == 0 ==> fb == 0) by {
        if b.mantissa == 0 {
            assert(b.mantissa * pow10((MAX_SCALE - b.scale) as nat) == 0) by (nonlinear_arith)
                requires b.mantissa == 0;
        }
    }
    if a.mantissa != 0 && b.mantissa != 0 {
        let am = aligned_mantissa(a, l);
        let bm = aligned_mantissa(b, l);
        if known_sum(a, b) is Some {
            let x = known_sum(a, b).unwrap();
            assert(x.scale == l);
            lemma_aligned_finest(x, l);
            assert(aligned_mantissa(x, l) == x.mantissa);
            assert((am + bm) * q == am * q + bm * q) by (nonlinear_arith);
        }
        if known_difference(a, b) is Some {
            let x = known_difference(a, b).unwrap();
            assert(x.scale == l);
            lemma_aligned_finest(x, l);
            assert(aligned_mantissa(x, l) == x.mantissa);
            assert((am - bm) * q == am * q - bm * q) by (nonlinear_arith);
        }
    } else if a.mantissa == 0 {
        if known_difference(a, b) is Some {
            let x = known_difference(a, b).unwrap();
            assert((0 - b.mantissa) * pow10((MAX_SCALE - b.scale) as nat) == 0 - b.mantissa * pow10((MAX_SCALE - b.scale) as nat)) by (nonlinear_arith);
        }
    }
    if b.mantissa == 0 {
        let x = known_sum(a, b).unwrap();
        let y = known_difference(a, b).unwrap();
        let lx = larger_scale(x, a);
        if a.mantissa == 0 {
            assert(x.mantissa == 0 && y.mantissa == 0);
            assert(x.mantissa * pow10((lx - x.scale) as nat) == 0) by (nonlinear_arith)
                requires x.mantissa == 0;
            assert(a.mantissa * pow10((lx - a.scale) as nat) == 0) by (nonlinear_arith)
                requires a.mantissa == 0;
            let ly = larger_scale(y, a);
            assert(y.mantissa * pow10((ly - y.scale) as nat) == 0) by (nonlinear_arith)
                requires y.mantissa == 0;
            assert(a.mantissa * pow10((ly - a.scale) as nat) == 0) by (nonlinear_arith)
                requires a.mantissa == 0;
        }
    }
}

pub open spec fn amount_of(p: Option<(i128, u32)>) -> Option<Amount> {
    match p {
        Some((m, s)) => Some(Amount { mantissa: m, scale: s }),
        None => None,
    }
}

/// Adds two amounts with `rust_decimal::Decimal::checked_add`, which returns
/// `None` on overflow. Besides naming the result, the contract states that a
/// result is a decimal number (at most 96 bits of mantissa and 28 decimal
/// places), which every `Decimal` is, and the result where the crate's
/// source shows it plainly (`known_sum`): a zero operand gives the other
/// one, and a sum of non-zero operands on its direct paths (mantissas below
/// 2^64, scales at most 19 apart) or of equal scale is exact when it fits.
/// What happens on the other paths (rounding by reducing the scale) is left
/// unsaid.
#[verifier::external_body]
pub(crate) fn checked_add(a: Amount, b: Amount) -> (res: Option<Amount>)
    requires
        a.wf(),
        b.wf(),
    ensures
        res == amount_of(decimal_checked_add(a.mantissa, a.scale, b.mantissa, b.scale)),
        res matches Some(r) ==> r.wf(),
        known_sum(a, b) matches Some(k) ==> res == Some(k),
{
    let x = rust_decimal::Decimal::from_i128_with_scale(a.mantissa, a.scale);
    let y = rust_decimal::Decimal::from_i128_with_scale(b.mantissa, b.scale);
    match x.checked_add(y) {
        Some(d) => Some(Amount { mantissa: d.mantissa(), scale: d.scale() }),
        None => None,
    }
}

/// Subtracts two amounts with `rust_decimal::Decimal::checked_sub`, which
/// returns `None` on overflow. Besides naming the result, the contract states
/// that a result is a decimal number, which every `Decimal` is, and the
/// result where the crate's source shows it plainly (`known_difference`):
/// zero minus a value is that value negated, a value minus zero is itself,
/// and a difference on the exact paths is exact when it fits. The other
/// paths are left unsaid.
#[verifier::external_body]
pub(crate) fn checked_sub(a: Amount, b: Amount) -> (res: Option<Amount>)
    requires
        a.wf(),
        b.wf(),
    ensures
        res == amount_of(decimal_checked_sub(a.mantissa, a.scale, b.mantissa, b.scale)),
        res matches Some(r) ==> r.wf(),
        known_difference(a, b) matches Some(k) ==> res == Some(k),
{
    let x = rust_decimal::Decimal::from_i128_with_scale(a.mantissa, a.scale);
    let y = rust_decimal::Decimal::from_i128_with_scale(b.mantissa, b.scale);
    match x.checked_sub(y) {
        Some(d) => Some(Amount { mantissa: d.mantissa(), scale: d.scale() }),
        None => None,
    }
}

} // verus!
