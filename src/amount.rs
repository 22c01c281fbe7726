//! Amounts in minor units and the conversion strategy the connector uses.
use vstd::prelude::*;

use crate::types::Currency;

verus! {

/// An amount in the smallest unit of its currency (cents for USD).
#[derive(Debug, Clone, Copy, PartialEq, Eq, Structural)]
pub struct MinorUnit(pub i64);

impl MinorUnit {
    pub fn new(value: i64) -> (r: MinorUnit)
        ensures
            r.0 == value,
    {
        MinorUnit(value)
    }

    pub fn get_amount_as_i64(&self) -> (r: i64)
        ensures
            r == self.0,
    {
        self.0
    }
}

/// An amount together with its currency.
#[derive(Debug, Clone, Copy, PartialEq, Eq, Structural)]
pub struct Amount {
    pub value: MinorUnit,
    pub currency: Currency,
}

/// The strategy for a processor that takes amounts in minor units, as integers:
/// both directions hand the amount over unchanged, whatever the currency.
#[derive(Debug, Clone, Copy, PartialEq, Eq, Structural)]
pub struct MinorUnitForConnector;

/// What the processor is sent for `amount` in `currency`.
pub open spec fn to_connector_amount(amount: MinorUnit, currency: Currency) -> MinorUnit {
    amount
}

/// The minor units that the processor's `amount` in `currency` stands for.
pub open spec fn from_connector_amount(amount: MinorUnit, currency: Currency) -> MinorUnit {
    amount
}

impl MinorUnitForConnector {
    /// The amount as the processor expects it.
    pub fn convert(&self, amount: MinorUnit, currency: Currency) -> (r: MinorUnit)
        ensures
            r == to_connector_amount(amount, currency),
    {
        amount
    }

    /// The processor's amount back in minor units.
    pub fn convert_back(&self, amount: MinorUnit, currency: Currency) -> (r: MinorUnit)
        ensures
            r == from_connector_amount(amount, currency),
    {
        amount
    }
}

/// Converting an amount for the processor and back gives the amount again,
/// in every currency.
pub proof fn lemma_conversion_round_trip(amount: Amount)
    ensures
        from_connector_amount(to_connector_amount(amount.value, amount.currency), amount.currency)
            == amount.value,
{
}

} // verus!
