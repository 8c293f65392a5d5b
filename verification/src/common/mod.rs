pub mod address;
pub mod channel;
pub mod channel_request;
pub mod cli;
pub mod configuration;
pub mod connection;
pub mod data_bridge;
pub mod ip_address;
pub mod logger;
pub mod strings;
pub mod tcp_client;
pub mod tcp_server;
pub mod text;
pub mod transport;
pub mod udp_client;
pub mod udp_server;
pub mod validate;
pub mod validate_rules;
