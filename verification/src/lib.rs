pub mod analytics;
pub mod certificate;
pub mod common;
pub mod community;
