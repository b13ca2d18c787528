//! Transaction-buffer operations: create a staged buffer, extend it chunk by
//! chunk without ever passing the declared final size, and close it.

use vstd::prelude::*;

use crate::error::MultisigError;
use crate::pubkey::Pubkey;
use crate::state::multi_wallet::{
    count_key_with, count_members_with_key, MultiWallet, MultiWalletV, Permission,
};
use crate::state::transaction_buffer::{TransactionBuffer, MAX_BUFFER_SIZE};

verus! {

/// Arguments of a buffer creation.
pub struct TransactionBufferCreateArgs {
    /// Index of the buffer account, to seed the account derivation.
    pub buffer_index: u8,
    /// Index of the vault this transaction belongs to.
    pub vault_index: u8,
    /// SHA-256 digest of the final assembled transaction message.
    pub final_buffer_hash: Vec<u8>,
    /// Final size of the buffer.
    pub final_buffer_size: u16,
    /// Initial slice of the buffer.
    pub buffer: Vec<u8>,
}

/// Arguments of a buffer extension.
pub struct TransactionBufferExtendArgs {
    /// Chunk to append to the buffer.
    pub buffer: Vec<u8>,
}

/// Why a buffer creation is rejected, or `None` when it succeeds: the
/// creator must be exactly one member holding the initiate-transaction
/// capability, the declared final size must respect the maximum, and the
/// initial chunk must already respect the declared final size.
pub open spec fn spec_buffer_create_error(
    wallet: MultiWalletV,
    creator: Seq<u8>,
    args: TransactionBufferCreateArgs,
) -> Option<MultisigError> {
    if count_key_with(wallet.members, creator, Permission::InitiateTransaction) != 1 {
        Some(MultisigError::InsufficientSignerWithInitiatePermission)
    } else if args.final_buffer_size > MAX_BUFFER_SIZE {
        Some(MultisigError::FinalBufferSizeExceeded)
    } else if args.buffer@.len() > args.final_buffer_size {
        Some(MultisigError::FinalBufferSizeExceeded)
    } else {
        None
    }
}

/// Creates a transaction buffer holding the initial chunk, sealed by the
/// declared final hash and size.
pub fn transaction_buffer_create(
    wallet: &MultiWallet,
    wallet_address: &Pubkey,
    creator: &Pubkey,
    rent_payer: &Pubkey,
    bump: u8,
    args: TransactionBufferCreateArgs,
) -> (r: Result<TransactionBuffer, MultisigError>)
    ensures
        match r {
            Ok(buffer) => {
                &&& spec_buffer_create_error(wallet@, creator@, args) is None
                &&& buffer.multi_wallet@ == wallet_address@
                &&& buffer.creator@ == creator@
                &&& buffer.rent_payer@ == rent_payer@
                &&& buffer.vault_index == args.vault_index
                &&& buffer.buffer_index == args.buffer_index
                &&& buffer.final_buffer_hash@ == args.final_buffer_hash@
                &&& buffer.final_buffer_size == args.final_buffer_size
                &&& buffer.buffer@ == args.buffer@
                &&& buffer.bump == bump
                &&& buffer.spec_invariant()
            },
            Err(e) => Some(e) == spec_buffer_create_error(wallet@, creator@, args),
        },
{
    if count_members_with_key(&wallet.members, creator, Permission::InitiateTransaction) != 1 {
        return Err(MultisigError::InsufficientSignerWithInitiatePermission);
    }
    if (args.final_buffer_size as usize) > MAX_BUFFER_SIZE {
        return Err(MultisigError::FinalBufferSizeExceeded);
    }
    let buffer = TransactionBuffer {
        multi_wallet: wallet_address.dup(),
        creator: creator.dup(),
        rent_payer: rent_payer.dup(),
        vault_index: args.vault_index,
        buffer_index: args.buffer_index,
        final_buffer_hash: args.final_buffer_hash,
        final_buffer_size: args.final_buffer_size,
        buffer: args.buffer,
        bump,
    };
    match buffer.check_invariant() {
        Ok(()) => Ok(buffer),
        Err(e) => Err(e),
    }
}

/// Why a buffer extension is rejected, or `None` when it succeeds: only the
/// creator may extend, and never past the declared final size.
pub open spec fn spec_buffer_extend_error(
    buffer: TransactionBuffer,
    creator: Seq<u8>,
    chunk: Seq<u8>,
) -> Option<MultisigError> {
    if buffer.creator@ != creator {
        Some(MultisigError::UnauthorisedToModifyBuffer)
    } else if buffer.buffer@.len() + chunk.len() > buffer.final_buffer_size {
        Some(MultisigError::FinalBufferSizeExceeded)
    } else {
        None
    }
}

/// Appends a chunk to the buffer. Never succeeds when the accumulated
/// length plus the chunk's length would exceed the declared final size, and
/// rejects before any byte is written.
pub fn transaction_buffer_extend(
    buffer: &mut TransactionBuffer,
    creator: &Pubkey,
    args: TransactionBufferExtendArgs,
) -> (r: Result<(), MultisigError>)
    requires
        old(buffer).spec_invariant(),
    ensures
        final(buffer).spec_invariant(),
        match r {
            Ok(()) => {
                &&& spec_buffer_extend_error(*old(buffer), creator@, args.buffer@) is None
                &&& final(buffer).buffer@ == old(buffer).buffer@ + args.buffer@
                &&& unchanged_but_content(*old(buffer), *final(buffer))
            },
            Err(e) => {
                &&& *final(buffer) == *old(buffer)
                &&& Some(e) == spec_buffer_extend_error(*old(buffer), creator@, args.buffer@)
            },
        },
{
    if !buffer.creator.eq_key(creator) {
        return Err(MultisigError::UnauthorisedToModifyBuffer);
    }
    let remaining = (buffer.final_buffer_size as usize) - buffer.buffer.len();
    if args.buffer.len() > remaining {
        return Err(MultisigError::FinalBufferSizeExceeded);
    }
    let mut chunk = args.buffer;
    buffer.buffer.append(&mut chunk);
    Ok(())
}

/// Everything but the accumulated bytes is unchanged.
pub open spec fn unchanged_but_content(
    before: TransactionBuffer,
    after: TransactionBuffer,
) -> bool {
    &&& after.multi_wallet == before.multi_wallet
    &&& after.creator == before.creator
    &&& after.rent_payer == before.rent_payer
    &&& after.vault_index == before.vault_index
    &&& after.buffer_index == before.buffer_index
    &&& after.final_buffer_hash == before.final_buffer_hash
    &&& after.final_buffer_size == before.final_buffer_size
    &&& after.bump == before.bump
}

/// Why closing a buffer is rejected, or `None` when it is permitted: only
/// the creator may close, and the refund must go to the recorded rent payer.
pub open spec fn spec_buffer_close_error(
    buffer: TransactionBuffer,
    creator: Seq<u8>,
    rent_payer: Seq<u8>,
) -> Option<MultisigError> {
    if buffer.creator@ != creator {
        Some(MultisigError::UnauthorisedToModifyBuffer)
    } else if buffer.rent_payer@ != rent_payer {
        Some(MultisigError::InvalidAccount)
    } else {
        None
    }
}

/// Authorizes closing the buffer: the host then releases the account and
/// refunds its rent to the recorded payer. May be called at any time before
/// execution.
pub fn transaction_buffer_close(
    buffer: &TransactionBuffer,
    creator: &Pubkey,
    rent_payer: &Pubkey,
) -> (r: Result<(), MultisigError>)
    ensures
        r is Ok <==> spec_buffer_close_error(*buffer, creator@, rent_payer@) is None,
        r matches Err(e) ==> Some(e) == spec_buffer_close_error(*buffer, creator@, rent_payer@),
{
    if !buffer.creator.eq_key(creator) {
        return Err(MultisigError::UnauthorisedToModifyBuffer);
    }
    if !buffer.rent_payer.eq_key(rent_payer) {
        return Err(MultisigError::InvalidAccount);
    }
    Ok(())
}

} // verus!
