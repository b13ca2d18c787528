//! The engine's cross-cutting guarantees, stated and proved over the same
//! spec functions the operations' contracts use.

use vstd::prelude::*;

use crate::error::MultisigError;
use crate::executable::{AccountMetaV, ResolvedLookupTableV};
use crate::ops::config::{apply_actions, config_of, spec_change_config_error};
use crate::ops::escrow::spec_initiate_escrow_as_owner_error;
use crate::ops::vault::spec_vault_execute_error;
use crate::state::escrow::{plan_amount, plan_dest, plan_source, TransferPlanV};
use crate::state::multi_wallet::{
    count_with, retain_offers, signer_members, spec_is_durable_nonce, spec_valid_config,
    ConfigAction, IntrospectedInstruction, MultiWallet, MultiWalletV, Permission,
};
use crate::state::transaction_buffer::TransactionBuffer;

verus! {

/// Invariant closure for the operations that only touch the pending-offer
/// bookkeeping: whatever happens to the offers, a wallet whose members and
/// threshold are untouched still satisfies the wallet invariant. Together
/// with the contracts of the operations that do edit the configuration —
/// creation and every configuration-installing transition re-validate it —
/// the invariant holds of every reachable wallet state.
pub proof fn lemma_offer_changes_preserve_validity(before: MultiWallet, after: MultiWallet)
    requires
        after@.members == before@.members,
        after@.threshold == before@.threshold,
        before.spec_valid(),
    ensures
        after.spec_valid(),
{
}

/// The quorum gate of a configuration change: once the replay-risk check,
/// the escrow lock and the validity of the edited configuration are out of
/// the way, the operation succeeds exactly when, among the members that
/// signed, at least one holds the initiate capability, at least the
/// threshold hold the vote capability, and at least one holds the execute
/// capability — for the transaction action class.
pub proof fn lemma_quorum_gate(
    wallet: MultiWalletV,
    actions: Seq<ConfigAction>,
    signers: Seq<Seq<u8>>,
    ix: IntrospectedInstruction,
)
    requires
        !spec_is_durable_nonce(ix),
        wallet.pending_offers.len() == 0,
        ({
            let s = apply_actions(config_of(wallet), actions);
            spec_valid_config(s.threshold, s.members)
        }),
    ensures
        ({
            let signed = signer_members(wallet.members, signers);
            spec_change_config_error(wallet, actions, signers, ix) is None <==> {
                &&& count_with(signed, Permission::InitiateTransaction) >= 1
                &&& count_with(signed, Permission::VoteTransaction) >= wallet.threshold
                &&& count_with(signed, Permission::ExecuteTransaction) >= 1
            }
        }),
{
}

/// The quorum gate of the escrow action class: once the replay-risk check
/// and the single-owner guard are out of the way, opening an escrow as the
/// owners succeeds exactly when, among the members that signed, at least
/// one holds the initiate capability, at least the threshold hold the vote
/// capability, and at least one holds the execute capability — for the
/// escrow action class.
pub proof fn lemma_quorum_gate_escrow(
    wallet: MultiWalletV,
    signers: Seq<Seq<u8>>,
    ix: IntrospectedInstruction,
)
    requires
        !spec_is_durable_nonce(ix),
        wallet.threshold > 1,
    ensures
        ({
            let signed = signer_members(wallet.members, signers);
            spec_initiate_escrow_as_owner_error(wallet, signers, ix) is None <==> {
                &&& count_with(signed, Permission::InitiateEscrow) >= 1
                &&& count_with(signed, Permission::VoteEscrow) >= wallet.threshold
                &&& count_with(signed, Permission::ExecuteEscrow) >= 1
            }
        }),
{
}

/// Escrow exclusivity, the locking direction: while any escrow's address
/// is among the wallet's pending offers, a configuration change and a
/// vault transaction execution both fail, whatever else is supplied. The
/// re-enabling direction is the operations' own contracts: their success
/// conditions mention the offer list only through its emptiness, so after
/// the last offer's terminal transition the lock is gone.
pub proof fn lemma_escrow_exclusivity(
    wallet: MultiWalletV,
    actions: Seq<ConfigAction>,
    signers: Seq<Seq<u8>>,
    ix: IntrospectedInstruction,
    buffer: TransactionBuffer,
    vault_index: u16,
    tables: Seq<ResolvedLookupTableV>,
    supplied: Seq<AccountMetaV>,
    wallet_address: Seq<u8>,
    program_id: Seq<u8>,
)
    requires
        wallet.pending_offers.len() > 0,
    ensures
        spec_change_config_error(wallet, actions, signers, ix) is Some,
        spec_vault_execute_error(
            wallet,
            buffer,
            vault_index,
            signers,
            ix,
            tables,
            supplied,
            wallet_address,
            program_id,
        ) is Some,
{
}

/// A cancelled escrow's address never survives in the offer list, and
/// cancelling the only outstanding offer empties it: together with the
/// terminal executes, which clear the list outright, a terminal transition
/// on the last outstanding escrow releases the lock that
/// [`lemma_escrow_exclusivity`] describes.
pub proof fn lemma_cancel_releases_lock(offers: Seq<Seq<u8>>, escrow_address: Seq<u8>)
    ensures
        forall|i: int|
            0 <= i < retain_offers(offers, escrow_address).len()
                ==> #[trigger] retain_offers(offers, escrow_address)[i] != escrow_address,
        (forall|j: int| 0 <= j < offers.len() ==> offers[j] == escrow_address) ==> retain_offers(
            offers,
            escrow_address,
        ).len() == 0,
    decreases offers.len(),
{
    if offers.len() > 0 {
        lemma_cancel_releases_lock(offers.drop_last(), escrow_address);
        let r = retain_offers(offers, escrow_address);
        let rest = retain_offers(offers.drop_last(), escrow_address);
        if offers.last() != escrow_address {
            assert forall|i: int| 0 <= i < r.len() implies r[i] != escrow_address by {
                if i < rest.len() {
                    assert(r[i] == rest[i]);
                } else {
                    assert(r[i] == offers.last());
                }
            }
        }
    }
}

/// A ledger of balances after a planned movement: the amount leaves the
/// source and reaches the destination.
pub open spec fn spec_apply_plan(
    balances: Map<Seq<u8>, int>,
    plan: TransferPlanV,
) -> Map<Seq<u8>, int> {
    let debited = balances.insert(plan_source(plan), balances[plan_source(plan)] - plan_amount(plan));
    debited.insert(plan_dest(plan), debited[plan_dest(plan)] + plan_amount(plan))
}

/// Escrow fund conservation: when a terminal transition's plan moves the
/// escrowed amount out of a vault that holds exactly that amount, the
/// vault ends at zero, the single destination gains the full amount, and
/// no other balance moves — no leftover, no double-spend.
pub proof fn lemma_escrow_fund_conservation(
    balances: Map<Seq<u8>, int>,
    plan: TransferPlanV,
    vault: Seq<u8>,
    destination: Seq<u8>,
    amount: u64,
)
    requires
        balances.dom().contains(vault),
        balances.dom().contains(destination),
        plan_source(plan) == vault,
        plan_dest(plan) == destination,
        plan_amount(plan) == amount,
        vault != destination,
        balances[vault] == amount,
    ensures
        spec_apply_plan(balances, plan)[vault] == 0,
        spec_apply_plan(balances, plan)[destination] == balances[destination] + amount,
        forall|k: Seq<u8>|
            balances.dom().contains(k) && k != vault && k != destination ==> spec_apply_plan(
                balances,
                plan,
            )[k] == balances[k],
{
}

/// A sealed buffer is the only executable one: execution gets past the
/// buffer at all only when the accumulated bytes' digest equals the
/// declared final hash and their length equals the declared final size.
pub proof fn lemma_only_sealed_buffer_executes(
    wallet: MultiWalletV,
    buffer: TransactionBuffer,
    vault_index: u16,
    signers: Seq<Seq<u8>>,
    ix: IntrospectedInstruction,
    tables: Seq<ResolvedLookupTableV>,
    supplied: Seq<AccountMetaV>,
    wallet_address: Seq<u8>,
    program_id: Seq<u8>,
)
    requires
        spec_vault_execute_error(
            wallet,
            buffer,
            vault_index,
            signers,
            ix,
            tables,
            supplied,
            wallet_address,
            program_id,
        ) != Some(MultisigError::FinalBufferHashMismatch),
        spec_vault_execute_error(
            wallet,
            buffer,
            vault_index,
            signers,
            ix,
            tables,
            supplied,
            wallet_address,
            program_id,
        ) != Some(MultisigError::FinalBufferSizeMismatch),
    ensures
        crate::crypto::sha256_of(buffer.buffer@) == buffer.final_buffer_hash@,
        buffer.buffer@.len() == buffer.final_buffer_size,
{
}

} // verus!
