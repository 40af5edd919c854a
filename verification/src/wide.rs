//! Unsigned sums too large for 128 bits.

use vstd::prelude::*;

verus! {

/// Two to the power 128.
pub open spec fn two_128() -> int {
    0x1_0000_0000_0000_0000_0000_0000_0000_0000int
}

/// An unsigned number of up to 256 bits: `hi * 2^128 + lo`.
#[derive(Clone, Copy, Debug, PartialEq, Eq, Structural)]
pub struct Wide {
    pub hi: u128,
    pub lo: u128,
}

impl View for Wide {
    type V = int;

    open spec fn view(&self) -> int {
        self.hi * two_128() + self.lo
    }
}

impl Wide {
    /// The number `v`.
    pub fn from_u128(v: u128) -> (r: Wide)
        ensures
            r@ == v,
            r.hi == 0,
    {
        Wide { hi: 0, lo: v }
    }

    /// This number plus `t`.
    pub fn plus(self, t: u128) -> (r: Wide)
        requires
            self.hi < u128::MAX,
        ensures
            r@ == self@ + t,
            r.hi <= self.hi + 1,
    {
        if self.lo > u128::MAX - t {
            Wide { hi: self.hi + 1, lo: self.lo - (u128::MAX - t) - 1 }
        } else {
            Wide { hi: self.hi, lo: self.lo + t }
        }
    }

    /// Whether this number is below `other`.
    pub fn below(self, other: Wide) -> (b: bool)
        ensures
            b == (self@ < other@),
    {
        self.hi < other.hi || (self.hi == other.hi && self.lo < other.lo)
    }

    /// This number minus `other`, which is no larger.
    pub fn minus(self, other: Wide) -> (r: Wide)
        requires
            other@ <= self@,
        ensures
            r@ == self@ - other@,
    {
        if self.lo >= other.lo {
            Wide { hi: self.hi - other.hi, lo: self.lo - other.lo }
        } else {
            Wide { hi: self.hi - other.hi - 1, lo: (u128::MAX - other.lo) + self.lo + 1 }
        }
    }
}

} // verus!
