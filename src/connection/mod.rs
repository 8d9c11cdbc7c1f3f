//! Where the charger is reached, and what is written to it.
pub mod http;
pub mod write;
