use stellar_insure::oracle::{FlightOracle, OracleProvider, SmartContractOracle, WeatherOracle};

#[test]
fn weather_oracle_confirms() {
    let result = WeatherOracle::verify_condition("rainfall").unwrap();
    assert!(result.is_verified);
    assert_eq!(result.details, "Weather conditions verified safely");
}

#[test]
fn flight_oracle_confirms() {
    let result = FlightOracle::verify_condition("delay").unwrap();
    assert!(result.is_verified);
    assert_eq!(result.details, "Flight condition verified");
}

#[test]
fn smart_contract_oracle_confirms() {
    let result = SmartContractOracle::verify_condition("exploit").unwrap();
    assert!(result.is_verified);
    assert_eq!(result.details, "Telemetry confirms valid state");
}
