//! Decoding: from what was found under the four keys of a structured value to
//! the four figures, or to the reason why there are none.

use crate::binary64::Binary64;
use crate::footprint::FootprintInput;
use vstd::prelude::*;

verus! {

/// The four fields, in the order in which they are looked at.
#[derive(Clone, Copy, Debug, PartialEq, Eq, Structural)]
pub enum FieldName {
    Electricity,
    Gas,
    CarMiles,
    Flights,
}

/// What a structured value holds under one key.
#[derive(Clone, Copy, Debug)]
pub enum FieldValue {
    /// The key is not there.
    Missing,
    /// A number.
    Number(Binary64),
    /// Something that is not a number: a text, a list, nothing.
    NotANumber,
}

/// A structured value as the decoder sees it: what it holds under each of the
/// four keys. Whatever else it holds is not looked at.
#[derive(Clone, Copy, Debug)]
pub struct InputRecord {
    pub electricity: FieldValue,
    pub gas: FieldValue,
    pub car_miles: FieldValue,
    pub flights: FieldValue,
}

/// Why a structured value does not decode.
#[derive(Clone, Copy, Debug, PartialEq, Eq, Structural)]
pub enum DecodeError {
    /// Every field that is there holds a number, and this is the first that
    /// is not there.
    MissingField(FieldName),
    /// This is the first field that holds something that is not a number.
    NotANumber(FieldName),
}

impl FieldName {
    /// The place of the field in the order in which the fields are looked at.
    pub open spec fn position(self) -> int {
        match self {
            FieldName::Electricity => 0,
            FieldName::Gas => 1,
            FieldName::CarMiles => 2,
            FieldName::Flights => 3,
        }
    }

    /// The key of the field, as a sequence of characters.
    pub open spec fn key_text(self) -> Seq<char> {
        match self {
            FieldName::Electricity => "electricity"@,
            FieldName::Gas => "gas"@,
            FieldName::CarMiles => "car_miles"@,
            FieldName::Flights => "flights"@,
        }
    }

    /// The key under which a structured value holds this field.
    pub fn key(self) -> (key: &'static str)
        ensures
            key@ == self.key_text(),
    {
        match self {
            FieldName::Electricity => "electricity",
            FieldName::Gas => "gas",
            FieldName::CarMiles => "car_miles",
            FieldName::Flights => "flights",
        }
    }
}

impl DecodeError {
    /// The field that the error is about.
    pub open spec fn spec_field(self) -> FieldName {
        match self {
            DecodeError::MissingField(name) => name,
            DecodeError::NotANumber(name) => name,
        }
    }

    /// The field that the error is about.
    #[verifier::when_used_as_spec(spec_field)]
    pub fn field(self) -> (name: FieldName)
        ensures
            name == self.spec_field(),
    {
        match self {
            DecodeError::MissingField(name) => name,
            DecodeError::NotANumber(name) => name,
        }
    }
}

impl InputRecord {
    /// What the record holds under the key of `name`.
    pub open spec fn at(&self, name: FieldName) -> FieldValue {
        match name {
            FieldName::Electricity => self.electricity,
            FieldName::Gas => self.gas,
            FieldName::CarMiles => self.car_miles,
            FieldName::Flights => self.flights,
        }
    }

    /// Every field holds a number.
    pub open spec fn complete(&self) -> bool {
        forall|name: FieldName| #[trigger] self.at(name) is Number
    }

    /// No field holds something that is not a number.
    pub open spec fn well_typed(&self) -> bool {
        forall|name: FieldName| !(#[trigger] self.at(name) is NotANumber)
    }

    /// `name` is the first field that holds something that is not a number.
    pub open spec fn first_mistyped(&self, name: FieldName) -> bool {
        &&& self.at(name) is NotANumber
        &&& forall|earlier: FieldName|
            earlier.position() < name.position() ==> !(#[trigger] self.at(earlier) is NotANumber)
    }

    /// `name` is the first field that is missing.
    pub open spec fn first_missing(&self, name: FieldName) -> bool {
        &&& self.at(name) is Missing
        &&& forall|earlier: FieldName|
            earlier.position() < name.position() ==> !(#[trigger] self.at(earlier) is Missing)
    }

    /// `error` is what is wrong with the record: a field that holds something
    /// that is not a number comes before any that is missing, and of several
    /// fields with the same fault the first is named.
    pub open spec fn fault(&self, error: DecodeError) -> bool {
        match error {
            DecodeError::NotANumber(name) => self.first_mistyped(name),
            DecodeError::MissingField(name) => self.well_typed() && self.first_missing(name),
        }
    }

    /// The four fields hold the four numbers of `input`.
    pub open spec fn holds(&self, input: FootprintInput) -> bool {
        &&& self.electricity == FieldValue::Number(input.electricity)
        &&& self.gas == FieldValue::Number(input.gas)
        &&& self.car_miles == FieldValue::Number(input.car_miles)
        &&& self.flights == FieldValue::Number(input.flights)
    }

    /// The first field that holds something that is not a number, if there is
    /// one.
    fn first_mistyped_field(&self) -> (found: Option<FieldName>)
        ensures
            match found {
                Some(name) => self.first_mistyped(name),
                None => self.well_typed(),
            },
    {
        if let FieldValue::NotANumber = self.electricity {
            Some(FieldName::Electricity)
        } else if let FieldValue::NotANumber = self.gas {
            Some(FieldName::Gas)
        } else if let FieldValue::NotANumber = self.car_miles {
            Some(FieldName::CarMiles)
        } else if let FieldValue::NotANumber = self.flights {
            Some(FieldName::Flights)
        } else {
            None
        }
    }

    /// The first field that is missing, if there is one.
    fn first_missing_field(&self) -> (found: Option<FieldName>)
        ensures
            match found {
                Some(name) => self.first_missing(name),
                None => forall|name: FieldName| !(#[trigger] self.at(name) is Missing),
            },
    {
        if let FieldValue::Missing = self.electricity {
            Some(FieldName::Electricity)
        } else if let FieldValue::Missing = self.gas {
            Some(FieldName::Gas)
        } else if let FieldValue::Missing = self.car_miles {
            Some(FieldName::CarMiles)
        } else if let FieldValue::Missing = self.flights {
            Some(FieldName::Flights)
        } else {
            None
        }
    }
}

impl FieldValue {
    /// The number that the field holds.
    fn number(self) -> (number: Binary64)
        requires
            self is Number,
        ensures
            self == FieldValue::Number(number),
    {
        match self {
            FieldValue::Number(number) => number,
            _ => vstd::pervasive::unreached(),
        }
    }
}

impl FootprintInput {
    /// The four figures of `record`, if it holds a number under each of the
    /// four keys. A field that is missing is an error, never a zero, and so is
    /// a field that holds something else than a number.
    pub fn decode(record: &InputRecord) -> (result: Result<FootprintInput, DecodeError>)
        ensures
            result is Ok <==> record.complete(),
            forall|name: FieldName| #[trigger] record.at(name) is Missing ==> result is Err,
            forall|name: FieldName| #[trigger] record.at(name) is NotANumber ==> result is Err,
            match result {
                Ok(input) => record.holds(input),
                Err(error) => record.fault(error),
            },
    {
        if let Some(name) = record.first_mistyped_field() {
            return Err(DecodeError::NotANumber(name));
        }
        if let Some(name) = record.first_missing_field() {
            return Err(DecodeError::MissingField(name));
        }
        assert(record.complete());
        assert(record.at(FieldName::Electricity) is Number);
        assert(record.at(FieldName::Gas) is Number);
        assert(record.at(FieldName::CarMiles) is Number);
        assert(record.at(FieldName::Flights) is Number);
        Ok(
            FootprintInput {
                electricity: record.electricity.number(),
                gas: record.gas.number(),
                car_miles: record.car_miles.number(),
                flights: record.flights.number(),
            },
        )
    }
}

} // verus!
