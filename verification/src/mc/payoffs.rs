//! The contracts that are priced.

use vstd::prelude::*;
use crate::ieee::floor_at_zero;
use crate::ieee::zero;
use crate::ieee::Double;

verus! {

/// A contract, with its strike `k` and, where it has one, its barrier `h`.
#[derive(Clone, Copy, Debug, PartialEq, Eq, Structural)]
pub enum Payoff {
    /// Pays what the last price exceeds the strike by.
    EuropeanCall { k: Double },
    /// Pays what the strike exceeds the last price by.
    EuropeanPut { k: Double },
    /// Pays what the average price exceeds the strike by.
    AsianCall { k: Double },
    /// A call that pays nothing once a price has reached the barrier.
    BarrierCallUpAndOut { k: Double, h: Double },
    /// A put that pays nothing once a price has reached the barrier.
    BarrierPutUpAndOut { k: Double, h: Double },
}

/// Whether some price of the path is at the level or above it.
pub open spec fn reaches(path: Seq<Double>, level: Double) -> bool {
    exists|i: int| 0 <= i < path.len() && (#[trigger] path[i]).ge_spec(level)
}

impl Payoff {
    /// The barrier of a barrier contract.
    pub open spec fn barrier_spec(self) -> Option<Double> {
        match self {
            Payoff::BarrierCallUpAndOut { k, h } => Some(h),
            Payoff::BarrierPutUpAndOut { k, h } => Some(h),
            _ => None,
        }
    }

    /// The strike of the European call that serves as control variate for
    /// this contract: a European call controls itself, and an Asian call is
    /// controlled by the European call with its strike. The other contracts
    /// have no control.
    pub open spec fn control_strike_spec(self) -> Option<Double> {
        match self {
            Payoff::EuropeanCall { k } => Some(k),
            Payoff::AsianCall { k } => Some(k),
            _ => None,
        }
    }

    /// The strike, where the contract is a European call.
    pub open spec fn european_call_strike_spec(self) -> Option<Double> {
        match self {
            Payoff::EuropeanCall { k } => Some(k),
            _ => None,
        }
    }

    /// Whether the path knocks the contract out: it is a barrier contract,
    /// and some price of the path is at the barrier or above it.
    pub open spec fn knocked_out_spec(self, path: Seq<Double>) -> bool {
        self.barrier_spec() matches Some(h) && reaches(path, h)
    }

    /// What the contract pays on a path, given the excess: by how much the
    /// price that the contract reads lies on the paying side of the strike.
    /// It pays the excess where that is above zero and the path does not
    /// knock the contract out, and nothing otherwise.
    pub open spec fn settled(self, path: Seq<Double>, excess: Double) -> Double {
        if !self.knocked_out_spec(path) && excess.gt_spec(zero()) {
            excess
        } else {
            zero()
        }
    }

    /// Whether the contract reads the average of the prices of the path,
    /// as an Asian contract does, and not the last price.
    pub fn reads_average(&self) -> (r: bool)
        ensures
            r == (*self is AsianCall),
    {
        match *self {
            Payoff::AsianCall { k: _ } => true,
            _ => false,
        }
    }

    /// Whether the contract is a put: it pays what the strike exceeds the
    /// price by, where a call pays what the price exceeds the strike by.
    pub fn is_put(&self) -> (r: bool)
        ensures
            r == (*self is EuropeanPut || *self is BarrierPutUpAndOut),
    {
        match *self {
            Payoff::EuropeanPut { k: _ } => true,
            Payoff::BarrierPutUpAndOut { k: _, h: _ } => true,
            _ => false,
        }
    }

    /// The strike of the contract.
    pub fn strike(&self) -> (r: Double)
        ensures
            r == match *self {
                Payoff::EuropeanCall { k } => k,
                Payoff::EuropeanPut { k } => k,
                Payoff::AsianCall { k } => k,
                Payoff::BarrierCallUpAndOut { k, h } => k,
                Payoff::BarrierPutUpAndOut { k, h } => k,
            },
    {
        match *self {
            Payoff::EuropeanCall { k } => k,
            Payoff::EuropeanPut { k } => k,
            Payoff::AsianCall { k } => k,
            Payoff::BarrierCallUpAndOut { k, h: _ } => k,
            Payoff::BarrierPutUpAndOut { k, h: _ } => k,
        }
    }

    /// The barrier of a barrier contract.
    pub fn barrier(&self) -> (r: Option<Double>)
        ensures
            r == self.barrier_spec(),
    {
        match *self {
            Payoff::BarrierCallUpAndOut { k: _, h } => Some(h),
            Payoff::BarrierPutUpAndOut { k: _, h } => Some(h),
            _ => None,
        }
    }

    /// The strike of the European call that serves as control variate for
    /// this contract, where it has one.
    pub fn control_strike(&self) -> (r: Option<Double>)
        ensures
            r == self.control_strike_spec(),
    {
        match *self {
            Payoff::EuropeanCall { k } => Some(k),
            Payoff::AsianCall { k } => Some(k),
            _ => None,
        }
    }

    /// The strike, where the contract is a European call: the pathwise
    /// sensitivities are those of a European call, and zero for any other
    /// contract.
    pub fn european_call_strike(&self) -> (r: Option<Double>)
        ensures
            r == self.european_call_strike_spec(),
    {
        match *self {
            Payoff::EuropeanCall { k } => Some(k),
            _ => None,
        }
    }

    /// Whether the path knocks the contract out: it is a barrier contract,
    /// and some price of the path is at the barrier or above it. A
    /// contract that is knocked out pays nothing.
    pub fn knocked_out(&self, path: &[Double]) -> (r: bool)
        ensures
            r == self.knocked_out_spec(path@),
    {
        match self.barrier() {
            None => false,
            Some(h) => {
                let mut i: usize = 0;
                while i < path.len()
                    invariant
                        i <= path.len(),
                        self.barrier_spec() == Some(h),
                        forall|j: int| 0 <= j < i ==> !(#[trigger] path@[j]).ge_spec(h),
                    decreases path.len() - i,
                {
                    if path[i].ge(h) {
                        assert(path@[i as int].ge_spec(h));
                        return true;
                    }
                    i = i + 1;
                }
                false
            },
        }
    }
}

/// Whether a call is in the money at the end of a path: the last price is
/// above the strike. Only then does the path count towards a pathwise
/// sensitivity.
pub fn in_the_money(terminal: Double, strike: Double) -> (r: bool)
    ensures
        r == terminal.gt_spec(strike),
{
    terminal.gt(strike)
}

impl Payoff {
    /// What the contract pays on a path, given the excess of the price
    /// that it reads over the strike (of the strike over the price, for a
    /// put). The payment is never below zero and never a NaN.
    pub fn settle(&self, path: &[Double], excess: Double) -> (r: Double)
        ensures
            r == self.settled(path@, excess),
            r.ge_spec(zero()),
    {
        if self.knocked_out(path) {
            Double::from_bits(0)
        } else {
            floor_at_zero(excess)
        }
    }
}

} // verus!
