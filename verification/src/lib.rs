//! Authorization and execution engine for a shared-control account
//! ("multi-wallet"): a weighted group of members jointly governs a set of
//! vaults, stages large instruction batches through hash-sealed buffers, and
//! can trade control of the wallet itself through a conditional-payment
//! escrow protocol.
//!
//! Every operation is a pure transition on plain state values: it takes the
//! wallet (and, where relevant, a buffer or an escrow) together with the
//! signers of the current call, and returns either the new state with the
//! event mirroring it, or a typed fault. The host that owns the accounts
//! performs the side effects (account resizing, balance transfers,
//! cross-program calls) that the transitions plan.

pub mod codec;
pub mod crypto;
pub mod error;
pub mod executable;
pub mod laws;
pub mod ops;
pub mod pubkey;
pub mod state;

pub use error::MultisigError;
pub use executable::{
    AccountMeta, ExecutableTransactionMessage, ResolvedInstruction, ResolvedLookupTable,
};
pub use ops::buffer::{
    transaction_buffer_close, transaction_buffer_create, transaction_buffer_extend,
    TransactionBufferCreateArgs, TransactionBufferExtendArgs,
};
pub use ops::config::{change_config, create};
pub use ops::escrow::{
    cancel_escrow_as_non_owner, cancel_escrow_as_owner, execute_escrow_as_non_owner,
    execute_escrow_as_owner, initiate_escrow_as_non_owner, initiate_escrow_as_owner,
};
pub use ops::vault::{vault_transaction_execute, VaultExecutionPlan};
pub use pubkey::Pubkey;
pub use state::escrow::{Escrow, Recipient, TokenAccountInfo, TransferPlan};
pub use state::events::{ConfigEvent, EscrowEvent};
pub use state::multi_wallet::{
    ConfigAction, IntrospectedInstruction, Member, MultiWallet, Permission, Permissions,
    ReallocPlan,
};
pub use state::transaction_buffer::{TransactionBuffer, MAX_BUFFER_SIZE};
pub use state::vault_transaction::{
    CompiledInstruction, MessageAddressTableLookup, MultisigCompiledInstruction,
    MultisigMessageAddressTableLookup, TransactionMessage, VaultTransactionMessage,
};
