//! A gas meter that accumulates consumed gas against a fixed limit.

use vstd::prelude::*;

use crate::error::NanoError;

verus! {

/// An amount of gas with its unit tag.
#[derive(PartialEq, Eq, Debug, Clone, Copy, Structural)]
pub struct Unit {
    pub utype: i32,
    pub amount: u64,
}

/// Meters gas consumption: gas may be consumed only while the total
/// stays strictly below the limit.
pub struct GasMeter {
    limited_gas: Unit,
    consumed_gas: Unit,
}

impl GasMeter {
    /// The configured limit.
    pub closed spec fn spec_limit(&self) -> Unit {
        self.limited_gas
    }

    /// The gas consumed so far.
    pub closed spec fn spec_consumed(&self) -> Unit {
        self.consumed_gas
    }

    /// Builds a meter with the given limit and nothing consumed.
    pub fn new(limited_gas: Unit) -> (r: GasMeter)
        ensures
            r.spec_limit() == limited_gas,
            r.spec_consumed() == (Unit { utype: 0, amount: 0 }),
    {
        GasMeter { limited_gas, consumed_gas: Unit { utype: 0, amount: 0 } }
    }

    /// Whether the meter has reached its limit: out of gas as soon as
    /// the consumed amount is no longer strictly below the limit.
    pub fn is_out_of_gas(&self) -> (r: bool)
        ensures
            r == !(self.spec_consumed().amount < self.spec_limit().amount),
    {
        !(self.consumed_gas.amount < self.limited_gas.amount)
    }

    /// Consumes gas: succeeds exactly when the new total stays strictly
    /// below the limit, and leaves the meter unchanged otherwise.
    pub fn consume_gas(&mut self, amount: Unit) -> (r: Result<(), NanoError>)
        ensures
            r is Ok <==> old(self).spec_consumed().amount + amount.amount < old(
                self,
            ).spec_limit().amount,
            final (self).spec_limit() == old(self).spec_limit(),
            r is Ok ==> final (self).spec_consumed() == (Unit {
                utype: old(self).spec_consumed().utype,
                amount: (old(self).spec_consumed().amount + amount.amount) as u64,
            }),
            r is Err ==> final (self).spec_consumed() == old(self).spec_consumed(),
            (r matches Err(e) ==> e == NanoError::OutOfGasError),
    {
        if amount.amount <= u64::MAX - self.consumed_gas.amount {
            let new_amount = self.consumed_gas.amount + amount.amount;
            if new_amount < self.limited_gas.amount {
                self.consumed_gas = Unit { utype: self.consumed_gas.utype, amount: new_amount };
                return Ok(());
            }
        }
        Err(NanoError::OutOfGasError)
    }
}

} // verus!
