pub mod common;
pub mod configuration;
pub mod data;
pub mod http;
pub mod hub;
pub mod init;
pub mod messages;
pub mod previous;
pub mod server;
