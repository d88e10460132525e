//! Signed remote deployment: the verified core of the agent and its client.

pub mod auth;
pub mod client;
pub mod config;
pub mod deploy;
pub mod deploy_log;
pub mod digest;
pub mod engine;
pub mod error;
pub mod laws;
pub mod platform_functions;
pub mod protocol;
pub mod server;
pub mod service;
pub mod text;
pub mod watcher;
