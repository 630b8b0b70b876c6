use vstd::prelude::*;

verus! {

/// An exact fixed-point monetary amount with four fractional digits.
///
/// A value is a count of 1/10000 currency units, held in an `i128`, so
/// balance arithmetic is exact integer arithmetic and never drifts the way
/// binary floating point would. The view of an `Amount` is that count as a
/// mathematical integer.
#[derive(Clone, Copy, Debug, PartialEq, Eq, Structural)]
pub struct Amount {
    pub units: i128,
}

/// Whether a mathematical value still fits the machine representation of
/// `Amount`; arithmetic whose result falls outside is ruled out by
/// preconditions rather than performed.
pub open spec fn in_amount_range(v: int) -> bool {
    i128::MIN <= v <= i128::MAX
}

impl View for Amount {
    type V = int;

    open spec fn view(&self) -> int {
        self.units as int
    }
}

impl Amount {
    /// The zero amount.
    pub fn zero() -> (r: Amount)
        ensures
            r@ == 0,
    {
        Amount { units: 0 }
    }

    /// The amount counting `units` of 1/10000 of a currency unit.
    pub fn from_units(units: i128) -> (r: Amount)
        ensures
            r@ == units,
    {
        Amount { units }
    }

    /// The count of 1/10000 units this amount stands for.
    pub fn units(&self) -> (r: i128)
        ensures
            r == self@,
    {
        self.units
    }

    /// Whether this amount is strictly below zero.
    pub fn is_sign_negative(&self) -> (r: bool)
        ensures
            r == (self@ < 0),
    {
        self.units < 0
    }

    /// Exact sum of two amounts.
    pub fn plus(&self, other: &Amount) -> (r: Amount)
        requires
            in_amount_range(self@ + other@),
        ensures
            r@ == self@ + other@,
    {
        Amount { units: self.units + other.units }
    }

    /// Exact difference of two amounts.
    pub fn minus(&self, other: &Amount) -> (r: Amount)
        requires
            in_amount_range(self@ - other@),
        ensures
            r@ == self@ - other@,
    {
        Amount { units: self.units - other.units }
    }
}

/// Whether the sum `x + y` fits the machine range of `Amount`.
pub fn sum_in_range(x: i128, y: i128) -> (b: bool)
    ensures
        b == in_amount_range(x + y),
{
    if y >= 0 {
        x <= i128::MAX - y
    } else {
        x >= i128::MIN - y
    }
}

/// Whether the difference `x - y` fits the machine range of `Amount`.
pub fn difference_in_range(x: i128, y: i128) -> (b: bool)
    ensures
        b == in_amount_range(x - y),
{
    if y >= 0 {
        x >= i128::MIN + y
    } else {
        x <= i128::MAX + y
    }
}

} // verus!
