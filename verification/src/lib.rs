//! Policy records, actuarial premium pricing, ledger key layout and
//! condition oracles for a parametric insurance contract on Stellar.

pub mod types;
pub mod premium;
pub mod storage;
pub mod oracle;
