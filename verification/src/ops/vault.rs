//! Vault transaction execution: consumes a sealed transaction buffer,
//! decodes and validates its message, cross-checks the supplied accounts,
//! derives the wallet's vault authority, and produces the instruction batch
//! the host must issue, signed with the vault's derived seeds.

use vstd::bytes::{spec_u16_to_le_bytes, u16_to_le_bytes};
use vstd::prelude::*;

use crate::codec::parse_transaction_message;
use crate::crypto::{find_program_address, pda_of, sha256_of};
use crate::error::MultisigError;
use crate::executable::{
    effective_meta, spec_expected_metas, spec_new_validated_error, spec_resolved_instruction,
    AccountMeta, AccountMetaV, ExecutableTransactionMessage, ResolvedInstruction,
    ResolvedLookupTable, ResolvedLookupTableV,
};
use crate::pubkey::Pubkey;
use crate::state::multi_wallet::{
    count_members_with, count_with, signer_members, spec_is_durable_nonce,
    IntrospectedInstruction, MultiWallet, MultiWalletV, Permission,
};
use crate::state::seeds::{seed_multisig, seed_vault, spec_seed_multisig, spec_seed_vault};
use crate::state::transaction_buffer::TransactionBuffer;
use crate::state::vault_transaction::{
    spec_message_valid, TransactionMessage, TransactionMessageV, VaultTransactionMessage,
};

verus! {

/// What the host must perform after a successful execution decision: issue
/// each instruction in order as a cross-program call, signed with the
/// vault's derived seeds, then close the buffer, refund its rent payer, and
/// reload the wallet from storage (an invoked program may have re-entered).
pub struct VaultExecutionPlan {
    /// The wallet's derived vault address, the signing authority.
    pub vault_pubkey: Pubkey,
    /// The bump of the vault derivation; the last signer seed.
    pub vault_bump: u8,
    /// The batch to issue, in message order; all of it must succeed.
    pub instructions: Vec<ResolvedInstruction>,
}

/// The seeds of a wallet's vault: the wallet salt, the wallet's address,
/// the vault salt, and the vault index in little-endian bytes.
pub open spec fn spec_vault_seeds(wallet_address: Seq<u8>, vault_index: u16) -> Seq<Seq<u8>> {
    seq![
        spec_seed_multisig(),
        wallet_address,
        spec_seed_vault(),
        spec_u16_to_le_bytes(vault_index),
    ]
}

/// Builds the seeds of a wallet's vault.
pub fn vault_seeds(wallet_address: &Pubkey, vault_index: u16) -> (r: Vec<Vec<u8>>)
    ensures
        r.deep_view() == spec_vault_seeds(wallet_address@, vault_index),
{
    let mut seeds: Vec<Vec<u8>> = Vec::new();
    seeds.push(seed_multisig());
    seeds.push(wallet_address.dup().bytes);
    seeds.push(seed_vault());
    seeds.push(u16_to_le_bytes(vault_index));
    proof {
        assert(seeds.deep_view() =~~= spec_vault_seeds(wallet_address@, vault_index));
    }
    seeds
}

/// The effective flags of every position: declared flags limited to what
/// was supplied, with the vault position's signer authority substituted.
pub open spec fn effective_positions(
    declared: Seq<AccountMetaV>,
    supplied: Seq<AccountMetaV>,
    vault: Seq<u8>,
) -> Seq<AccountMetaV> {
    Seq::new(declared.len(), |p: int| effective_meta(declared[p], supplied[p], vault))
}

/// Why a vault execution is rejected, or `None` when it succeeds, testing
/// the conditions in the order the operation tests them: the buffer's seal
/// (hash, then size), the replay-risk check, the transaction-class quorum
/// of the signers, the escrow lock, the decode and validation of the
/// staged message, the vault derivation, and the account cross-check.
pub open spec fn spec_vault_execute_error(
    wallet: MultiWalletV,
    buffer: TransactionBuffer,
    vault_index: u16,
    signers: Seq<Seq<u8>>,
    ix: IntrospectedInstruction,
    tables: Seq<ResolvedLookupTableV>,
    supplied: Seq<AccountMetaV>,
    wallet_address: Seq<u8>,
    program_id: Seq<u8>,
) -> Option<MultisigError> {
    let signed = signer_members(wallet.members, signers);
    if sha256_of(buffer.buffer@) != buffer.final_buffer_hash@ {
        Some(MultisigError::FinalBufferHashMismatch)
    } else if buffer.buffer@.len() != buffer.final_buffer_size {
        Some(MultisigError::FinalBufferSizeMismatch)
    } else if spec_is_durable_nonce(ix) {
        Some(MultisigError::DurableNonceDetected)
    } else if wallet.threshold > count_with(signed, Permission::VoteTransaction) {
        Some(MultisigError::NotEnoughSigners)
    } else if count_with(signed, Permission::ExecuteTransaction) < 1 {
        Some(MultisigError::InsufficientSignerWithExecutePermission)
    } else if wallet.pending_offers.len() != 0 {
        Some(MultisigError::MultisigIsCurrentlyLocked)
    } else {
        match parse_transaction_message(buffer.buffer@) {
            None => Some(MultisigError::InvalidTransactionMessage),
            Some(m) => if !spec_message_valid(m) {
                Some(MultisigError::InvalidTransactionMessage)
            } else {
                match pda_of(spec_vault_seeds(wallet_address, vault_index), program_id) {
                    None => Some(MultisigError::MissingAccount),
                    Some(_) => spec_new_validated_error(m, supplied, tables),
                }
            },
        }
    }
}

/// Executes the sealed buffer's staged batch against the wallet's vault.
///
/// Only a buffer whose accumulated bytes match the declared final size and
/// hash is executable. The staged message is decoded and validated, the
/// supplied accounts are cross-checked position by position, and the
/// returned plan carries the exact instruction batch with the vault's
/// derived authority substituted where the message declares the vault as a
/// signer.
pub fn vault_transaction_execute(
    wallet: &MultiWallet,
    wallet_address: &Pubkey,
    program_id: &Pubkey,
    transaction_buffer: &TransactionBuffer,
    vault_index: u16,
    signer_keys: &Vec<Pubkey>,
    first_instruction: &IntrospectedInstruction,
    lookup_tables: &Vec<ResolvedLookupTable>,
    message_accounts: &Vec<AccountMeta>,
) -> (r: Result<VaultExecutionPlan, MultisigError>)
    requires
        program_id.wf(),
    ensures
        match r {
            Ok(plan) => {
                let m = parse_transaction_message(transaction_buffer.buffer@)->Some_0;
                let declared = spec_expected_metas(m, lookup_tables.deep_view())->Some_0;
                let positions = effective_positions(
                    declared,
                    message_accounts.deep_view(),
                    plan.vault_pubkey@,
                );
                &&& spec_vault_execute_error(
                    wallet@,
                    *transaction_buffer,
                    vault_index,
                    signer_keys.deep_view(),
                    *first_instruction,
                    lookup_tables.deep_view(),
                    message_accounts.deep_view(),
                    wallet_address@,
                    program_id@,
                ) is None
                &&& pda_of(spec_vault_seeds(wallet_address@, vault_index), program_id@) == Some(
                    (plan.vault_pubkey@, plan.vault_bump),
                )
                &&& plan.instructions.deep_view().len() == m.instructions.len()
                &&& forall|i: int|
                    0 <= i < m.instructions.len() ==> (#[trigger] plan.instructions.deep_view()[i])
                        == spec_resolved_instruction(m.instructions[i], positions)
            },
            Err(e) => Some(e) == spec_vault_execute_error(
                wallet@,
                *transaction_buffer,
                vault_index,
                signer_keys.deep_view(),
                *first_instruction,
                lookup_tables.deep_view(),
                message_accounts.deep_view(),
                wallet_address@,
                program_id@,
            ),
        },
{
    match transaction_buffer.validate_hash() {
        Ok(()) => {}
        Err(e) => {
            return Err(e);
        },
    }
    match transaction_buffer.validate_size() {
        Ok(()) => {}
        Err(e) => {
            return Err(e);
        },
    }
    match MultiWallet::durable_nonce_check(first_instruction) {
        Ok(()) => {}
        Err(e) => {
            return Err(e);
        },
    }
    let signed = wallet.get_unique_signers(signer_keys);
    if (wallet.threshold as usize) > count_members_with(&signed, Permission::VoteTransaction) {
        return Err(MultisigError::NotEnoughSigners);
    }
    if count_members_with(&signed, Permission::ExecuteTransaction) < 1 {
        return Err(MultisigError::InsufficientSignerWithExecutePermission);
    }
    if wallet.pending_offers.len() != 0 {
        return Err(MultisigError::MultisigIsCurrentlyLocked);
    }
    let transaction_message = match TransactionMessage::deserialize(&transaction_buffer.buffer) {
        Ok(m) => m,
        Err(e) => {
            return Err(e);
        },
    };
    let vault_transaction_message = match VaultTransactionMessage::try_from(transaction_message) {
        Ok(v) => v,
        Err(e) => {
            return Err(e);
        },
    };
    let seeds = vault_seeds(wallet_address, vault_index);
    let (vault_pubkey, vault_bump) = match find_program_address(&seeds, program_id) {
        Some(p) => p,
        None => {
            return Err(MultisigError::MissingAccount);
        },
    };
    let executable_message = match ExecutableTransactionMessage::new_validated(
        vault_transaction_message,
        message_accounts,
        lookup_tables,
        &vault_pubkey,
    ) {
        Ok(e) => e,
        Err(e) => {
            return Err(e);
        },
    };
    let instructions = executable_message.execute_message();
    proof {
        let m = parse_transaction_message(transaction_buffer.buffer@)->Some_0;
        let declared = spec_expected_metas(m, lookup_tables.deep_view())->Some_0;
        assert(executable_message.positions.deep_view() =~= effective_positions(
            declared,
            message_accounts.deep_view(),
            vault_pubkey@,
        ));
    }
    Ok(VaultExecutionPlan { vault_pubkey, vault_bump, instructions })
}

} // verus!
