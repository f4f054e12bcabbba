//! Synthesis of proxy-client configuration documents from stored upstream
//! server credentials and a client platform tag.

pub mod text;
pub mod models;
pub mod platform;
pub mod policy;
pub mod outbound;
pub mod config;
pub mod connection;
