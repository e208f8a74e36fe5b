pub mod batch;
pub mod contract;
pub mod errors;
pub mod expiry;
pub mod laws;
pub mod multisig;
pub mod prerequisites;
pub mod state;
pub mod types;
pub mod validation;
