pub mod analytics;
pub mod community_events;
pub mod contract;
pub mod errors;
pub mod forum;
pub mod governance;
pub mod knowledge;
pub mod laws;
pub mod mentorship;
pub mod moderation;
pub mod state;
pub mod types;
