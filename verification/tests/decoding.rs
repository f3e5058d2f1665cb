use carbon_footprint_calculator::Binary64;
use carbon_footprint_calculator::Calculator;
use carbon_footprint_calculator::DecodeError;
use carbon_footprint_calculator::FieldName;
use carbon_footprint_calculator::FieldValue;
use carbon_footprint_calculator::FootprintInput;
use carbon_footprint_calculator::InputRecord;

const NAMES: [FieldName; 4] =
    [FieldName::Electricity, FieldName::Gas, FieldName::CarMiles, FieldName::Flights];

fn number(value: f64) -> FieldValue {
    FieldValue::Number(Binary64::from_bits(value.to_bits()))
}

fn reference_record() -> InputRecord {
    InputRecord {
        electricity: number(100.0),
        gas: number(50.0),
        car_miles: number(1000.0),
        flights: number(2.0),
    }
}

fn with(mut record: InputRecord, name: FieldName, value: FieldValue) -> InputRecord {
    match name {
        FieldName::Electricity => record.electricity = value,
        FieldName::Gas => record.gas = value,
        FieldName::CarMiles => record.car_miles = value,
        FieldName::Flights => record.flights = value,
    }
    record
}

#[test]
fn complete_record_decodes_to_its_numbers() {
    let input = FootprintInput::decode(&reference_record()).unwrap();
    assert_eq!(f64::from_bits(input.electricity.to_bits()), 100.0);
    assert_eq!(f64::from_bits(input.gas.to_bits()), 50.0);
    assert_eq!(f64::from_bits(input.car_miles.to_bits()), 1000.0);
    assert_eq!(f64::from_bits(input.flights.to_bits()), 2.0);
}

#[test]
fn decoded_record_gives_the_reference_footprint() {
    let input = FootprintInput::decode(&reference_record()).unwrap();
    let result = Calculator::new().calculate(&input);
    assert_eq!(f64::from_bits(result.footprint.to_bits()), 1.184);
}

#[test]
fn negative_and_odd_numbers_decode_unchanged() {
    let record = InputRecord {
        electricity: number(-100.0),
        gas: number(-0.0),
        car_miles: number(f64::INFINITY),
        flights: number(f64::NAN),
    };
    let input = FootprintInput::decode(&record).unwrap();
    assert_eq!(input.electricity.to_bits(), (-100.0f64).to_bits());
    assert_eq!(input.gas.to_bits(), (-0.0f64).to_bits());
    assert_eq!(input.car_miles.to_bits(), f64::INFINITY.to_bits());
    assert_eq!(input.flights.to_bits(), f64::NAN.to_bits());
}

#[test]
fn a_missing_field_is_an_error() {
    for name in NAMES {
        let record = with(reference_record(), name, FieldValue::Missing);
        assert_eq!(FootprintInput::decode(&record).unwrap_err(), DecodeError::MissingField(name));
    }
}

#[test]
fn a_missing_field_is_not_taken_for_zero() {
    for name in NAMES {
        let missing = with(reference_record(), name, FieldValue::Missing);
        let zero = with(reference_record(), name, number(0.0));
        assert!(FootprintInput::decode(&missing).is_err());
        assert!(FootprintInput::decode(&zero).is_ok());
    }
}

#[test]
fn a_field_that_is_not_a_number_is_an_error() {
    for name in NAMES {
        let record = with(reference_record(), name, FieldValue::NotANumber);
        assert_eq!(FootprintInput::decode(&record).unwrap_err(), DecodeError::NotANumber(name));
    }
}

#[test]
fn an_empty_record_names_its_first_field() {
    let record = InputRecord {
        electricity: FieldValue::Missing,
        gas: FieldValue::Missing,
        car_miles: FieldValue::Missing,
        flights: FieldValue::Missing,
    };
    assert_eq!(
        FootprintInput::decode(&record).unwrap_err(),
        DecodeError::MissingField(FieldName::Electricity)
    );
}

#[test]
fn the_first_of_several_faults_is_named() {
    let record = with(
        with(reference_record(), FieldName::Flights, FieldValue::Missing),
        FieldName::Gas,
        FieldValue::Missing,
    );
    assert_eq!(FootprintInput::decode(&record).unwrap_err(), DecodeError::MissingField(FieldName::Gas));
    let record = with(
        with(reference_record(), FieldName::Flights, FieldValue::NotANumber),
        FieldName::CarMiles,
        FieldValue::NotANumber,
    );
    assert_eq!(
        FootprintInput::decode(&record).unwrap_err(),
        DecodeError::NotANumber(FieldName::CarMiles)
    );
}

#[test]
fn what_is_not_a_number_is_named_before_what_is_missing() {
    let record = with(
        with(reference_record(), FieldName::Electricity, FieldValue::Missing),
        FieldName::Flights,
        FieldValue::NotANumber,
    );
    assert_eq!(
        FootprintInput::decode(&record).unwrap_err(),
        DecodeError::NotANumber(FieldName::Flights)
    );
}

#[test]
fn fields_have_their_keys() {
    assert_eq!(FieldName::Electricity.key(), "electricity");
    assert_eq!(FieldName::Gas.key(), "gas");
    assert_eq!(FieldName::CarMiles.key(), "car_miles");
    assert_eq!(FieldName::Flights.key(), "flights");
}

#[test]
fn an_error_names_its_field() {
    for name in NAMES {
        assert_eq!(DecodeError::MissingField(name).field(), name);
        assert_eq!(DecodeError::NotANumber(name).field(), name);
    }
}
