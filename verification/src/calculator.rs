//! The estimator itself.

use crate::binary64::Binary64;
use crate::binary64::POSITIVE_ZERO;
use crate::footprint::FootprintInput;
use crate::footprint::FootprintResult;
use crate::footprint::CAR_MILES_COEFFICIENT;
use crate::footprint::ELECTRICITY_COEFFICIENT;
use crate::footprint::FLIGHTS_COEFFICIENT;
use crate::footprint::GAS_COEFFICIENT;
use vstd::prelude::*;

verus! {

/// A stateless estimator: any two of them are interchangeable.
#[derive(Clone, Copy, Debug)]
pub struct Calculator;

impl Calculator {
    /// An estimator. It holds nothing, so there is nothing to set up.
    pub fn new() -> (calculator: Calculator) {
        Calculator
    }

    /// The footprint of `input`: the weighted sum of its four figures, with
    /// nothing rounded off or clamped afterwards. Four zeros give zero.
    pub fn calculate(&self, input: &FootprintInput) -> (result: FootprintResult)
        ensures
            result.footprint@ == input.footprint(),
            input.is_zero() ==> result.footprint@ == POSITIVE_ZERO,
    {
        let electricity = input.electricity.times(Binary64::from_bits(ELECTRICITY_COEFFICIENT));
        let gas = input.gas.times(Binary64::from_bits(GAS_COEFFICIENT));
        let car_miles = input.car_miles.times(Binary64::from_bits(CAR_MILES_COEFFICIENT));
        let flights = input.flights.times(Binary64::from_bits(FLIGHTS_COEFFICIENT));
        FootprintResult { footprint: electricity.plus(gas).plus(car_miles).plus(flights) }
    }
}

/// Figures with the same four encodings have the same footprint, bit for bit.
pub proof fn lemma_equal_figures_equal_footprint(first: FootprintInput, second: FootprintInput)
    requires
        first.electricity@ == second.electricity@,
        first.gas@ == second.gas@,
        first.car_miles@ == second.car_miles@,
        first.flights@ == second.flights@,
    ensures
        first.footprint() == second.footprint(),
{
}

} // verus!
