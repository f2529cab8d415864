//! Exact rational magnitudes.
//!
//! Every numeric magnitude in this crate is a fraction `num / den` of
//! machine integers with `den >= 1`. Keeping magnitudes rational makes
//! the cascade arithmetic (scaling by 1.2, percentages, unit ratios)
//! exact, so contracts can state results as precise rational numbers.

use vstd::prelude::*;

verus! {

/// A rational magnitude `num / den` with `den >= 1`.
///
/// Fractions are not reduced to lowest terms; two fractions denote the
/// same rational number when `same_value` holds.
#[derive(Clone, Copy, Debug, PartialEq, Eq, Structural)]
pub struct Frac {
    pub num: i64,
    pub den: i64,
}

/// The product of two values in `[-2^63, 2^63 - 1]` stays within `i128`,
/// and when the second factor is a positive denominator the product is
/// small enough that two such products can still be summed in `i128`.
proof fn lemma_i64_product_fits_i128(x: int, y: int)
    requires
        i64::MIN <= x <= i64::MAX,
        i64::MIN <= y <= i64::MAX,
    ensures
        i128::MIN <= x * y <= i128::MAX,
        x >= 1 && y >= 1 ==> x * y >= 1,
        y >= 1 ==> -0x3fff_ffff_ffff_ffff_8000_0000_0000_0000 <= x * y
            <= 0x3fff_ffff_ffff_ffff_8000_0000_0000_0000,
{
    assert((i128::MIN <= x * y <= i128::MAX) && (x >= 1 && y >= 1 ==> x * y >= 1) && (y >= 1
        ==> -0x3fff_ffff_ffff_ffff_8000_0000_0000_0000 <= x * y
        <= 0x3fff_ffff_ffff_ffff_8000_0000_0000_0000)) by (nonlinear_arith)
        requires
            -0x8000_0000_0000_0000 <= x <= 0x7fff_ffff_ffff_ffff,
            -0x8000_0000_0000_0000 <= y <= 0x7fff_ffff_ffff_ffff,
    {}
}

impl Frac {
    /// Structural well-formedness: the denominator is positive.
    pub open spec fn wf(self) -> bool {
        self.den >= 1
    }

    /// `self` and `other` denote the same rational number.
    pub open spec fn same_value(self, other: Frac) -> bool {
        self.num * other.den == other.num * self.den
    }

    /// The rational `self` is strictly below the rational `other`
    /// (both well-formed, so cross-multiplication keeps the order).
    pub open spec fn below(self, other: Frac) -> bool {
        self.num * other.den < other.num * self.den
    }

    /// The exact product of `self` and `other` fits the field type.
    pub open spec fn mul_fits(self, other: Frac) -> bool {
        &&& i64::MIN <= self.num * other.num <= i64::MAX
        &&& self.den * other.den <= i64::MAX
    }

    /// The exact product of two fractions, defined when it fits.
    pub open spec fn spec_mul(self, other: Frac) -> Option<Frac> {
        if self.mul_fits(other) {
            Some(
                Frac {
                    num: (self.num * other.num) as i64,
                    den: (self.den * other.den) as i64,
                },
            )
        } else {
            None
        }
    }

    /// The exact sum of `self` and `other` fits the field type.
    pub open spec fn add_fits(self, other: Frac) -> bool {
        &&& i64::MIN <= self.num * other.den + other.num * self.den <= i64::MAX
        &&& self.den * other.den <= i64::MAX
    }

    /// The exact sum of two fractions, defined when it fits.
    pub open spec fn spec_add(self, other: Frac) -> Option<Frac> {
        if self.add_fits(other) {
            Some(
                Frac {
                    num: (self.num * other.den + other.num * self.den) as i64,
                    den: (self.den * other.den) as i64,
                },
            )
        } else {
            None
        }
    }

    pub fn new(num: i64, den: i64) -> (r: Frac)
        requires
            den >= 1,
        ensures
            r == (Frac { num, den }),
            r.wf(),
    {
        Frac { num, den }
    }

    /// Exact multiplication; `None` exactly when the result would not
    /// fit the machine representation.
    pub fn checked_mul(self, other: Frac) -> (r: Option<Frac>)
        requires
            self.wf(),
            other.wf(),
        ensures
            r == self.spec_mul(other),
            r is Some ==> r->Some_0.wf(),
    {
        proof {
            lemma_i64_product_fits_i128(self.num as int, other.num as int);
            lemma_i64_product_fits_i128(self.den as int, other.den as int);
        }
        let n: i128 = (self.num as i128) * (other.num as i128);
        let d: i128 = (self.den as i128) * (other.den as i128);
        if n >= i64::MIN as i128 && n <= i64::MAX as i128 && d <= i64::MAX as i128 {
            Some(Frac { num: n as i64, den: d as i64 })
        } else {
            None
        }
    }

    /// Exact addition; `None` exactly when the result would not fit the
    /// machine representation.
    pub fn checked_add(self, other: Frac) -> (r: Option<Frac>)
        requires
            self.wf(),
            other.wf(),
        ensures
            r == self.spec_add(other),
            r is Some ==> r->Some_0.wf(),
    {
        proof {
            lemma_i64_product_fits_i128(self.num as int, other.den as int);
            lemma_i64_product_fits_i128(other.num as int, self.den as int);
            lemma_i64_product_fits_i128(self.den as int, other.den as int);
        }
        let a: i128 = (self.num as i128) * (other.den as i128);
        let b: i128 = (other.num as i128) * (self.den as i128);
        let d: i128 = (self.den as i128) * (other.den as i128);
        let n: i128 = a + b;
        if n >= i64::MIN as i128 && n <= i64::MAX as i128 && d <= i64::MAX as i128 {
            Some(Frac { num: n as i64, den: d as i64 })
        } else {
            None
        }
    }
}

} // verus!
