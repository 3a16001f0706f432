//! Exact fixed-point amounts of money.

use vstd::prelude::*;

verus! {

/// Number of fractional decimal digits that every amount carries.
pub const FRACTION_DIGITS: u32 = 4;

/// Whether `x` can be held by an `i128`.
pub open spec fn fits_i128(x: int) -> bool {
    i128::MIN <= x <= i128::MAX
}

/// Ten to the power `n`.
pub open spec fn pow10(n: nat) -> int
    decreases n,
{
    if n == 0 {
        1
    } else {
        10 * pow10((n - 1) as nat)
    }
}

/// Whether `units` ten-thousandths equal `mantissa * 10^-scale`.
pub open spec fn denotes(units: int, mantissa: int, scale: nat) -> bool {
    units * pow10(scale) == mantissa * pow10(FRACTION_DIGITS as nat)
}

proof fn lemma_pow10_positive(n: nat)
    ensures
        pow10(n) > 0,
    decreases n,
{
    if n > 0 {
        lemma_pow10_positive((n - 1) as nat);
    }
}

proof fn lemma_pow10_add(a: nat, b: nat)
    ensures
        pow10(a + b) == pow10(a) * pow10(b),
    decreases a,
{
    if a > 0 {
        lemma_pow10_add((a - 1) as nat, b);
        assert(pow10(a + b) == 10 * pow10((a - 1 + b) as nat));
        assert(10 * (pow10((a - 1) as nat) * pow10(b)) == (10 * pow10((a - 1) as nat)) * pow10(b))
            by (nonlinear_arith);
    }
}

/// `10^n`, or `None` when it exceeds `u128::MAX`.
fn checked_pow10(n: u32) -> (r: Option<u128>)
    ensures
        match r {
            Some(v) => v == pow10(n as nat),
            None => pow10(n as nat) > u128::MAX,
        },
{
    let mut v: u128 = 1;
    let mut i: u32 = 0;
    while i < n
        invariant
            i <= n,
            v == pow10(i as nat),
        decreases n - i,
    {
        match v.checked_mul(10) {
            Some(w) => v = w,
            None => {
                proof {
                    lemma_pow10_positive(n as nat);
                    lemma_pow10_add(i as nat, (n - i) as nat);
                    lemma_pow10_positive((n - i) as nat);
                    assert(pow10((i + 1) as nat) == 10 * v);
                    lemma_pow10_add((i + 1) as nat, (n - i - 1) as nat);
                    lemma_pow10_positive((n - i - 1) as nat);
                    assert(pow10(n as nat) >= pow10((i + 1) as nat)) by (nonlinear_arith)
                        requires
                            pow10(n as nat) == pow10((i + 1) as nat) * pow10((n - i - 1) as nat),
                            pow10((n - i - 1) as nat) > 0,
                            pow10((i + 1) as nat) > 0,
                    ;
                }
                return None;
            },
        }
        i = i + 1;
    }
    Some(v)
}

/// An amount of money, held exactly as a whole number of ten-thousandths of
/// a currency unit.
#[derive(Clone, Copy, Debug, PartialEq, Eq, Structural)]
pub struct MoneyAmount {
    /// The amount in units of 10^-4.
    pub units: i128,
}

impl MoneyAmount {
    /// The amount that is `units` ten-thousandths.
    pub fn from_units(units: i128) -> (r: MoneyAmount)
        ensures
            r.units == units,
    {
        MoneyAmount { units }
    }

    /// The amount zero.
    pub fn zero() -> (r: MoneyAmount)
        ensures
            r.units == 0,
    {
        MoneyAmount { units: 0 }
    }

    /// The amount `mantissa * 10^-scale`, or `None` when no amount equals it
    /// exactly (it has more than four nonzero fractional digits, or is out of
    /// range).
    pub fn from_decimal_parts(mantissa: i128, scale: u32) -> (r: Option<MoneyAmount>)
        ensures
            match r {
                Some(m) => denotes(m.units as int, mantissa as int, scale as nat),
                None => forall|u: i128| !denotes(u as int, mantissa as int, scale as nat),
            },
    {
        proof {
            lemma_pow10_positive(scale as nat);
        }
        if scale <= FRACTION_DIGITS {
            let f = checked_pow10(FRACTION_DIGITS - scale);
            proof {
                lemma_pow10_add((FRACTION_DIGITS - scale) as nat, scale as nat);
                reveal_with_fuel(pow10, 5);
                assert(pow10((FRACTION_DIGITS - scale) as nat) <= 10000) by (nonlinear_arith)
                    requires
                        pow10(4) == 10000,
                        pow10(4) == pow10((FRACTION_DIGITS - scale) as nat) * pow10(scale as nat),
                        pow10(scale as nat) > 0;
            }
            let f = f.unwrap() as i128;
            match mantissa.checked_mul(f) {
                Some(u) => {
                    proof {
                        assert(u * pow10(scale as nat) == mantissa * (f * pow10(scale as nat))) by (nonlinear_arith)
                            requires u == mantissa * f;
                    }
                    Some(MoneyAmount { units: u })
                },
                None => {
                    proof {
                        assert forall|u: i128| !denotes(u as int, mantissa as int, scale as nat) by {
                            let p = pow10(scale as nat);
                            if denotes(u as int, mantissa as int, scale as nat) {
                                assert(u == mantissa * f) by (nonlinear_arith)
                                    requires
                                        u * p == mantissa * (f * p),
                                        p > 0;
                            }
                        }
                    }
                    None
                },
            }
        } else {
            let d = scale - FRACTION_DIGITS;
            proof {
                lemma_pow10_add(d as nat, FRACTION_DIGITS as nat);
                lemma_pow10_positive(d as nat);
                lemma_pow10_positive(FRACTION_DIGITS as nat);
            }
            let negative = mantissa < 0;
            let mag: u128 = if negative { ((-(mantissa + 1)) as u128) + 1 } else { mantissa as u128 };
            assert(mag == if negative { -mantissa } else { mantissa as int });
            let ghost p4 = pow10(FRACTION_DIGITS as nat);
            match checked_pow10(d) {
                None => {
                    if mag == 0 {
                        proof {
                            assert(0 * pow10(scale as nat) == 0);
                        }
                        Some(MoneyAmount { units: 0 })
                    } else {
                        proof {
                            assert forall|u: i128| !denotes(u as int, mantissa as int, scale as nat) by {
                                let pd = pow10(d as nat);
                                if denotes(u as int, mantissa as int, scale as nat) {
                                    assert(u * pd == mantissa) by (nonlinear_arith)
                                        requires
                                            u * (pd * p4) == mantissa * p4,
                                            p4 > 0;
                                    assert(false) by (nonlinear_arith)
                                        requires
                                            u * pd == mantissa,
                                            mantissa != 0,
                                            pd > u128::MAX,
                                            -u128::MAX <= mantissa <= u128::MAX;
                                }
                            }
                        }
                        None
                    }
                },
                Some(div) => {
                    if mag % div != 0 {
                        proof {
                            assert forall|u: i128| !denotes(u as int, mantissa as int, scale as nat) by {
                                let pd = pow10(d as nat);
                                if denotes(u as int, mantissa as int, scale as nat) {
                                    assert(u * pd == mantissa) by (nonlinear_arith)
                                        requires
                                            u * (pd * p4) == mantissa * p4,
                                            p4 > 0;
                                    let q: int = if negative { -u } else { u as int };
                                    assert(mag == q * pd) by (nonlinear_arith)
                                        requires
                                            u * pd == mantissa,
                                            mag == if negative { -mantissa } else { mantissa as int },
                                            q == if negative { -u } else { u as int };
                                    vstd::arithmetic::div_mod::lemma_fundamental_div_mod_converse(
                                        mag as int, pd, q, 0);
                                }
                            }
                        }
                        None
                    } else {
                        let q = mag / div;
                        proof {
                            vstd::arithmetic::div_mod::lemma_fundamental_div_mod(mag as int, div as int);
                            assert(div >= 10) by {
                                reveal_with_fuel(pow10, 2);
                                lemma_pow10_positive((d - 1) as nat);
                            }
                            assert(q * 10 <= mag) by (nonlinear_arith)
                                requires
                                    mag == div * q,
                                    div >= 10,
                                    q >= 0;
                        }
                        let u: i128 = if negative { -(q as i128) } else { q as i128 };
                        proof {
                            assert(u * (div * p4) == mantissa * p4) by (nonlinear_arith)
                                requires
                                    mag == div * q,
                                    mag == if negative { -mantissa } else { mantissa as int },
                                    u == if negative { -q } else { q as int };
                        }
                        Some(MoneyAmount { units: u })
                    }
                },
            }
        }
    }

    /// The amount in ten-thousandths.
    pub fn units(&self) -> (r: i128)
        ensures
            r == self.units,
    {
        self.units
    }

    /// Whether the amount is strictly greater than zero.
    pub fn is_positive(&self) -> (r: bool)
        ensures
            r == (self.units > 0),
    {
        self.units > 0
    }

    /// The exact sum, or `None` when it cannot be held.
    pub fn checked_add(&self, other: &MoneyAmount) -> (r: Option<MoneyAmount>)
        ensures
            match r {
                Some(v) => v.units == self.units + other.units,
                None => !fits_i128(self.units + other.units),
            },
    {
        match self.units.checked_add(other.units) {
            Some(u) => Some(MoneyAmount { units: u }),
            None => None,
        }
    }

    /// The exact difference, or `None` when it cannot be held.
    pub fn checked_sub(&self, other: &MoneyAmount) -> (r: Option<MoneyAmount>)
        ensures
            match r {
                Some(v) => v.units == self.units - other.units,
                None => !fits_i128(self.units - other.units),
            },
    {
        match self.units.checked_sub(other.units) {
            Some(u) => Some(MoneyAmount { units: u }),
            None => None,
        }
    }
}

} // verus!
