use vstd::prelude::*;

verus! {

/// The kind of risk a policy covers; it selects the actuarial base rate.
#[derive(Clone, Copy, Debug, PartialEq, Eq, Structural)]
pub enum PolicyType {
    Weather,
    SmartContract,
    Flight,
    Health,
    Asset,
}

/// Life-cycle state of a policy.
#[derive(Clone, Copy, Debug, PartialEq, Eq, Structural)]
pub enum PolicyStatus {
    Active,
    Expired,
    Cancelled,
    ClaimPending,
    ClaimApproved,
    ClaimRejected,
}

/// Errors reported by the contract logic.
#[derive(Clone, Copy, Debug, PartialEq, Eq, Structural)]
pub enum Error {
    /// A coverage amount is not positive, or the premium arithmetic overflows.
    InvalidAmount,
    /// A policy duration is zero.
    InvalidDuration,
    /// No policy is stored under the requested id.
    PolicyNotFound,
    /// No claim is stored for the requested policy id.
    ClaimNotFound,
}

/// An insurance policy as it is kept in contract storage.
///
/// Ledger handles are held by their text: `policyholder` is the strkey of the
/// holder's address (`G...` or `C...`).
#[derive(Clone, Debug)]
pub struct Policy {
    pub id: u64,
    pub policyholder: String,
    pub policy_type: PolicyType,
    pub coverage_amount: i128,
    pub premium: i128,
    pub start_time: u64,
    pub end_time: u64,
    pub trigger_condition: String,
    pub status: PolicyStatus,
    pub claim_amount: i128,
}

/// A claim filed against a policy.
#[derive(Clone, Debug)]
pub struct Claim {
    pub policy_id: u64,
    pub claim_amount: i128,
    pub proof: String,
    pub timestamp: u64,
    pub approved: bool,
}

} // verus!
