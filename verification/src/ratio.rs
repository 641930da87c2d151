//! Exact rational factors: the multipliers of the level tables and the
//! probabilities of the random events.

use vstd::prelude::*;

verus! {

/// A non-negative rational factor `numerator / denominator`.
#[derive(Clone, Copy, Debug, PartialEq, Eq, Structural)]
pub struct Multiplier {
    pub numerator: u64,
    pub denominator: u64,
}

impl Multiplier {
    /// The denominator is not zero.
    pub open spec fn wf(&self) -> bool {
        self.denominator > 0
    }

    /// `floor(base * numerator / denominator)`.
    pub open spec fn scaled(&self, base: u64) -> int {
        (base as int * self.numerator as int) / (self.denominator as int)
    }

    /// The scaled value can be held in a `u64`.
    pub open spec fn fits(&self, base: u64) -> bool {
        self.scaled(base) <= u64::MAX
    }

    /// Scaling never gives less than nothing.
    pub proof fn lemma_scaled_is_not_negative(self, base: u64)
        requires
            self.wf(),
        ensures
            self.scaled(base) >= 0,
    {
        let numerator = self.numerator as int;
        let denominator = self.denominator as int;
        assert((base * numerator) / denominator >= 0) by (nonlinear_arith)
            requires
                base >= 0,
                numerator >= 0,
                denominator > 0,
        ;
    }

    /// `base` scaled by this factor, rounded down, in a width that always
    /// holds it.
    fn scale_wide(&self, base: u64) -> (scaled: u128)
        requires
            self.wf(),
        ensures
            scaled == self.scaled(base),
    {
        assert(base as int * self.numerator as int <= 0xffff_ffff_ffff_ffff
            * 0xffff_ffff_ffff_ffff) by (nonlinear_arith)
            requires
                0 <= base as int <= 0xffff_ffff_ffff_ffff,
                0 <= self.numerator as int <= 0xffff_ffff_ffff_ffff,
        ;
        let product: u128 = (base as u128) * (self.numerator as u128);
        product / (self.denominator as u128)
    }

    /// Tells whether the factor is well formed and `base` scaled by it fits
    /// in a `u64`.
    pub fn is_valid_for(&self, base: u64) -> (valid: bool)
        ensures
            valid == (self.wf() && self.fits(base)),
    {
        self.denominator > 0 && self.scale_wide(base) <= u64::MAX as u128
    }

    /// Scales `base` by this factor, rounding down; `None` when the result
    /// does not fit in a `u64`.
    pub fn checked_scale(&self, base: u64) -> (scaled: Option<u64>)
        requires
            self.wf(),
        ensures
            self.fits(base) ==> scaled == Some(self.scaled(base) as u64),
            !self.fits(base) ==> scaled.is_none(),
    {
        let wide: u128 = self.scale_wide(base);
        if wide <= u64::MAX as u128 {
            Some(wide as u64)
        } else {
            None
        }
    }

    /// Scales `base` by this factor, rounding down.
    pub fn scale(&self, base: u64) -> (scaled: u64)
        requires
            self.wf(),
            self.fits(base),
        ensures
            scaled == self.scaled(base),
    {
        self.scale_wide(base) as u64
    }
}

/// A probability `numerator / denominator` between 0 and 1.
#[derive(Clone, Copy, Debug, PartialEq, Eq, Structural)]
pub struct Probability {
    pub numerator: u32,
    pub denominator: u32,
}

impl Probability {
    /// The ratio lies in `[0, 1]`.
    pub open spec fn wf(&self) -> bool {
        0 < self.denominator && self.numerator <= self.denominator
    }

    /// The probability is 0: a trial with it never succeeds.
    pub open spec fn is_never(&self) -> bool {
        self.numerator == 0
    }

    /// The probability is 1: a trial with it always succeeds.
    pub open spec fn is_always(&self) -> bool {
        self.numerator == self.denominator
    }

    /// Tells whether the ratio is a probability.
    pub fn is_valid(&self) -> (valid: bool)
        ensures
            valid == self.wf(),
    {
        0 < self.denominator && self.numerator <= self.denominator
    }
}

} // verus!
