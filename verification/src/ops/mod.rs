pub mod buffer;
pub mod config;
pub mod escrow;
pub mod vault;
