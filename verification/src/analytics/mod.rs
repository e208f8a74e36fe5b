pub mod engine;
pub mod errors;
pub mod gas;
pub mod laws;
pub mod reports;
pub mod storage;
pub mod types;
