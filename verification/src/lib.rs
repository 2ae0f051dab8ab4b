//! Verified core of a small peer-to-peer web node: configuration defaults,
//! key derivation, the network-status state machine, the actor's command
//! decisions and the HTTP replies of the web front end.

pub mod boot;
pub mod commands;
pub mod config;
pub mod event_laws;
pub mod events;
pub mod keys;
pub mod status;
pub mod text;
pub mod web_server;
