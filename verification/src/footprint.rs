//! The records that go into and come out of the estimate, and its formula.

use crate::binary64::binary64_product;
use crate::binary64::binary64_sum;
use crate::binary64::Binary64;
use crate::binary64::POSITIVE_ZERO;
use vstd::prelude::*;

verus! {

/// Footprint per unit of electricity: the encoding of the binary64 number
/// nearest 0.0005.
pub const ELECTRICITY_COEFFICIENT: u64 = 0x3F40_624D_D2F1_A9FC;

/// Footprint per unit of gas: the encoding of the binary64 number nearest
/// 0.005.
pub const GAS_COEFFICIENT: u64 = 0x3F74_7AE1_47AE_147B;

/// Footprint per mile driven: the encoding of the binary64 number nearest
/// 0.000404.
pub const CAR_MILES_COEFFICIENT: u64 = 0x3F3A_79FE_C99F_1AE3;

/// Footprint per flight: the encoding of the binary64 number nearest 0.24.
pub const FLIGHTS_COEFFICIENT: u64 = 0x3FCE_B851_EB85_1EB8;

/// The four usage figures of one estimate. All four are required; no sign or
/// range is asked of any of them.
#[derive(Clone, Copy, Debug)]
pub struct FootprintInput {
    pub electricity: Binary64,
    pub gas: Binary64,
    pub car_miles: Binary64,
    pub flights: Binary64,
}

/// The outcome of one estimate.
#[derive(Clone, Copy, Debug)]
pub struct FootprintResult {
    pub footprint: Binary64,
}

/// The encoding of the footprint of the four encoded figures: each figure
/// times its coefficient, the four products summed from left to right, every
/// step rounded as binary64 arithmetic rounds it.
pub open spec fn weighted_sum(electricity: u64, gas: u64, car_miles: u64, flights: u64) -> u64 {
    binary64_sum(
        binary64_sum(
            binary64_sum(
                binary64_product(electricity, ELECTRICITY_COEFFICIENT),
                binary64_product(gas, GAS_COEFFICIENT),
            ),
            binary64_product(car_miles, CAR_MILES_COEFFICIENT),
        ),
        binary64_product(flights, FLIGHTS_COEFFICIENT),
    )
}

impl FootprintInput {
    /// All four figures are positive zero.
    pub open spec fn is_zero(&self) -> bool {
        &&& self.electricity@ == POSITIVE_ZERO
        &&& self.gas@ == POSITIVE_ZERO
        &&& self.car_miles@ == POSITIVE_ZERO
        &&& self.flights@ == POSITIVE_ZERO
    }

    /// The encoding of the footprint that these figures give.
    pub open spec fn footprint(&self) -> u64 {
        weighted_sum(self.electricity@, self.gas@, self.car_miles@, self.flights@)
    }
}

} // verus!
