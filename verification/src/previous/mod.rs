pub mod server;
pub mod tunnel;
