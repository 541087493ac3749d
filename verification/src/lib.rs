//! Human-readable byte quantities in the decimal and the binary unit base,
//! and a live counter of allocated bytes that feeds them.

pub mod prefix;
pub mod unit;
pub mod quantity;
pub mod render;
pub mod tracking;
pub mod config;
pub mod logger;
