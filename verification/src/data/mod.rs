pub mod tunnel;
