//! The values the oracle publishes: a fixed-point decimal price and a
//! timestamped snapshot pairing it with the moment it was observed.

use vstd::prelude::*;

verus! {

/// Number of fixed-point subunits ("attos") in one whole unit.
pub const ATTOS_PER_UNIT: i128 = 1_000_000_000_000_000_000;

/// A signed fixed-point decimal with eighteen fractional digits, stored as a
/// count of attos.  This is the number type in which prices are published and
/// asset quantities are measured.
#[derive(Clone, Copy, Debug, PartialEq, Eq, Structural)]
pub struct Decimal {
    /// The value, in units of `1 / ATTOS_PER_UNIT`.
    pub attos: i128,
}

impl Decimal {
    /// The mathematical value of this decimal, measured in attos.
    pub open spec fn value(self) -> int {
        self.attos as int
    }

    /// The decimal zero.
    pub fn zero() -> (r: Decimal)
        ensures
            r.value() == 0,
    {
        Decimal { attos: 0 }
    }

    /// The decimal holding exactly `attos` attos.
    pub fn from_attos(attos: i128) -> (r: Decimal)
        ensures
            r.value() == attos,
    {
        Decimal { attos }
    }

    /// The decimal holding exactly `units` whole units.
    pub fn from_units(units: i32) -> (r: Decimal)
        ensures
            r.value() == units * ATTOS_PER_UNIT,
    {
        let attos: i128 = (units as i128) * ATTOS_PER_UNIT;
        Decimal { attos }
    }

    /// Whether this decimal is strictly below zero.
    pub fn is_negative(&self) -> (r: bool)
        ensures
            r == (self.value() < 0),
    {
        self.attos < 0
    }

    /// The sum of two decimals, or `None` where it does not fit.
    pub fn checked_add(&self, other: &Decimal) -> (r: Option<Decimal>)
        ensures
            self.value() + other.value() <= i128::MAX && self.value() + other.value()
                >= i128::MIN ==> (r matches Some(s) && s.value() == self.value() + other.value()),
            self.value() + other.value() > i128::MAX || self.value() + other.value() < i128::MIN
                ==> r is None,
    {
        match self.attos.checked_add(other.attos) {
            Some(attos) => Some(Decimal { attos }),
            None => None,
        }
    }
}

/// One reading published by the oracle: a price and the integer timestamp at
/// which the oracle observed it.  Immutable once returned.
#[derive(Clone, Copy, Debug, PartialEq, Eq, Structural)]
pub struct PriceData {
    /// The observed price.
    pub price: Decimal,
    /// When the oracle observed it.
    pub timestamp: i64,
}

} // verus!
