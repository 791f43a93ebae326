pub mod config;
pub mod structs;
pub mod common;
pub mod heartbeat;
pub mod errors;
pub mod messages;
