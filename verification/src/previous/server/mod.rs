pub mod hub;
