//! Control-plane client core for a media server's HTTP API: endpoint
//! resolution, response classification, and the credential lifecycle that
//! turns a password login into a durable API key.

pub mod endpoint;
pub mod text;
pub mod commands;
pub mod config;
pub mod dispatch;
pub mod entities;
pub mod lifecycle;
pub mod media;
pub mod server_info;
pub mod json;
