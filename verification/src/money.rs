//! Exact fixed-point money values with four fractional digits.
//!
//! A `Money` value is a signed count of minor units, where one whole unit is
//! `MINOR_PER_UNIT` minor units. All balance arithmetic in the ledger is done
//! on these counts, so it is exact: no binary floating point is involved.

use vstd::prelude::*;

verus! {

/// Minor units (ten-thousandths) per whole unit: four fractional digits.
pub const MINOR_PER_UNIT: i64 = 10_000;

/// Largest whole-unit value that `Money::from_units` accepts,
/// i64::MAX / MINOR_PER_UNIT rounded towards zero.
pub const MAX_UNITS: i64 = 922_337_203_685_477;

/// An exact decimal amount with four fractional digits, stored as a signed
/// count of minor units (`minor == 12_500` means 1.25).
#[derive(Clone, Copy, Debug, PartialEq, Eq, Structural)]
pub struct Money {
    pub minor: i64,
}

impl View for Money {
    type V = int;

    open spec fn view(&self) -> int {
        self.minor as int
    }
}

impl Money {
    /// The zero amount.
    pub fn zero() -> (r: Money)
        ensures
            r@ == 0,
    {
        Money { minor: 0 }
    }

    /// The amount of `minor` ten-thousandths of a unit.
    pub fn from_minor(minor: i64) -> (r: Money)
        ensures
            r@ == minor,
    {
        Money { minor }
    }

    /// The amount of `units` whole units.
    pub fn from_units(units: i64) -> (r: Money)
        requires
            -MAX_UNITS <= units <= MAX_UNITS,
        ensures
            r@ == units * MINOR_PER_UNIT,
    {
        Money { minor: units * MINOR_PER_UNIT }
    }

    /// True iff this amount is strictly positive.
    pub fn is_positive(&self) -> (r: bool)
        ensures
            r == (self@ > 0),
    {
        self.minor > 0
    }

    /// True iff this amount is strictly negative.
    pub fn is_negative(&self) -> (r: bool)
        ensures
            r == (self@ < 0),
    {
        self.minor < 0
    }

    /// True iff this amount is strictly below `other`.
    pub fn lt(&self, other: &Money) -> (r: bool)
        ensures
            r == (self@ < other@),
    {
        self.minor < other.minor
    }

    /// Exact sum, or `None` where it would leave the representable range.
    pub fn checked_add(&self, other: &Money) -> (r: Option<Money>)
        ensures
            match r {
                Some(m) => m@ == self@ + other@,
                None => !(i64::MIN <= self@ + other@ <= i64::MAX),
            },
    {
        match self.minor.checked_add(other.minor) {
            Some(minor) => Some(Money { minor }),
            None => None,
        }
    }

    /// Exact difference, or `None` where it would leave the representable
    /// range.
    pub fn checked_sub(&self, other: &Money) -> (r: Option<Money>)
        ensures
            match r {
                Some(m) => m@ == self@ - other@,
                None => !(i64::MIN <= self@ - other@ <= i64::MAX),
            },
    {
        match self.minor.checked_sub(other.minor) {
            Some(minor) => Some(Money { minor }),
            None => None,
        }
    }
}

} // verus!
