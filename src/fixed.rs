use vstd::prelude::*;

verus! {

/// Fixed-point unit of a trigonometric reading: a reading `r` stands for
/// the real number `r / UNIT`, so a sine or cosine lies in `[-UNIT, UNIT]`.
pub const UNIT: i64 = 1_000_000;

/// Whether `r` is a valid sine or cosine reading, that is `-1 <= r / UNIT <= 1`.
pub open spec fn is_reading(r: int) -> bool {
    -UNIT <= r <= UNIT
}

/// An exact fraction `num / den`.
#[derive(Clone, Copy, Debug, PartialEq, Eq, Structural)]
pub struct Ratio {
    pub num: i128,
    pub den: u128,
}

impl Ratio {
    /// A fraction is well formed when its denominator is positive.
    pub open spec fn wf(&self) -> bool {
        self.den > 0
    }
}

} // verus!
