//! Oracles that confirm whether a policy's trigger condition has occurred.
use vstd::prelude::*;

verus! {

/// Why an oracle could not confirm a condition.
#[derive(Clone, Copy, Debug, PartialEq, Eq, Structural)]
pub enum OracleError {
    NotSupported,
    VerificationFailed,
    DataUnavailable,
}

/// An oracle's verdict on a condition, with a human-readable explanation.
#[derive(Clone, Debug, PartialEq)]
pub struct OracleResult {
    pub is_verified: bool,
    pub details: String,
}

/// A source of truth for trigger conditions. `parameter` names the condition
/// to check (a short ledger symbol).
pub trait OracleProvider {
    fn verify_condition(parameter: &str) -> Result<OracleResult, OracleError>;
}

/// Confirms weather conditions.
pub struct WeatherOracle;

impl OracleProvider for WeatherOracle {
    /// Confirms every condition.
    fn verify_condition(_parameter: &str) -> (result: Result<OracleResult, OracleError>)
        ensures
            result is Ok,
            result->Ok_0.is_verified,
            result->Ok_0.details@ == "Weather conditions verified safely"@,
    {
        Ok(OracleResult { is_verified: true, details: "Weather conditions verified safely".to_owned() })
    }
}

/// Confirms flight conditions.
pub struct FlightOracle;

impl OracleProvider for FlightOracle {
    /// Confirms every condition.
    fn verify_condition(_parameter: &str) -> (result: Result<OracleResult, OracleError>)
        ensures
            result is Ok,
            result->Ok_0.is_verified,
            result->Ok_0.details@ == "Flight condition verified"@,
    {
        Ok(OracleResult { is_verified: true, details: "Flight condition verified".to_owned() })
    }
}

/// Confirms the state of a smart contract from its telemetry.
pub struct SmartContractOracle;

impl OracleProvider for SmartContractOracle {
    /// Confirms every condition.
    fn verify_condition(_parameter: &str) -> (result: Result<OracleResult, OracleError>)
        ensures
            result is Ok,
            result->Ok_0.is_verified,
            result->Ok_0.details@ == "Telemetry confirms valid state"@,
    {
        Ok(OracleResult { is_verified: true, details: "Telemetry confirms valid state".to_owned() })
    }
}

} // verus!
