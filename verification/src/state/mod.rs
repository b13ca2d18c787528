pub mod escrow;
pub mod events;
pub mod multi_wallet;
pub mod seeds;
pub mod transaction_buffer;
pub mod vault_transaction;
