//! The complex number type.
use vstd::prelude::*;

use crate::binary64::{equal, is_finite_bits, lemma_neg_neg, neg_bits, negate, numeric_eq};

verus! {

/// A complex number `re + im * i`, each part an IEEE-754 binary64 value held
/// as its bit pattern. Any pattern is allowed, NaN and the infinities
/// included.
#[derive(Debug, Clone, Copy)]
pub struct Complex {
    pub re: u64,
    pub im: u64,
}

/// The conjugate `(re, -im)`.
pub open spec fn conj_spec(c: Complex) -> Complex {
    Complex { re: c.re, im: neg_bits(c.im) }
}

/// Field-wise numeric equality of two complex numbers.
pub open spec fn complex_eq(a: Complex, b: Complex) -> bool {
    numeric_eq(a.re, b.re) && numeric_eq(a.im, b.im)
}

/// Both parts are finite.
pub open spec fn is_finite(c: Complex) -> bool {
    is_finite_bits(c.re) && is_finite_bits(c.im)
}

impl Complex {
    /// The complex number with exactly these parts.
    pub fn new(re: u64, im: u64) -> (r: Complex)
        ensures
            r.re == re,
            r.im == im,
    {
        Complex { re, im }
    }

    /// The complex conjugate: the real part kept, the imaginary part negated.
    pub fn conj(&self) -> (r: Complex)
        ensures
            r == conj_spec(*self),
    {
        Complex { re: self.re, im: negate(self.im) }
    }
}

impl PartialEq for Complex {
    fn eq(&self, other: &Complex) -> (r: bool) {
        equal(self.re, other.re) && equal(self.im, other.im)
    }

    fn ne(&self, other: &Complex) -> (r: bool) {
        !equal(self.re, other.re) || !equal(self.im, other.im)
    }
}

impl vstd::std_specs::cmp::PartialEqSpecImpl for Complex {
    open spec fn obeys_eq_spec() -> bool {
        true
    }

    open spec fn eq_spec(&self, other: &Complex) -> bool {
        complex_eq(*self, *other)
    }
}

/// Conjugating twice gives back the same number, bit for bit; so a number
/// with finite parts compares equal to its double conjugate.
pub proof fn lemma_conj_involutive(a: Complex)
    ensures
        conj_spec(conj_spec(a)) == a,
        is_finite(a) ==> complex_eq(conj_spec(conj_spec(a)), a),
{
    lemma_neg_neg(a.im);
}

} // verus!
