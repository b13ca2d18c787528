//! The transaction buffer: a staging account into which an arbitrarily
//! large instruction batch is uploaded in chunks, sealed by a declared final
//! SHA-256 hash and byte length.

use vstd::prelude::*;

use crate::crypto::{sha256, sha256_of};
use crate::error::MultisigError;
use crate::pubkey::{eq_bytes, Pubkey};

verus! {

/// A buffer's declared final size may never exceed this many bytes.
pub const MAX_BUFFER_SIZE: usize = 4000;

/// A staged, chunk-uploaded instruction batch. Created by a member holding
/// the initiate-transaction capability, extended only by its creator, and
/// consumed exactly once by execution or closed by its creator.
pub struct TransactionBuffer {
    /// The wallet this buffer belongs to.
    pub multi_wallet: Pubkey,
    /// Who created the buffer; only they may extend or close it.
    pub creator: Pubkey,
    /// Who is refunded the account's rent when the buffer closes.
    pub rent_payer: Pubkey,
    /// Which of the wallet's vaults the staged batch targets.
    pub vault_index: u8,
    /// Disambiguates concurrent buffers of one creator.
    pub buffer_index: u8,
    /// Declared SHA-256 digest of the final content.
    pub final_buffer_hash: Vec<u8>,
    /// Declared final byte length.
    pub final_buffer_size: u16,
    /// The bytes accumulated so far.
    pub buffer: Vec<u8>,
    /// Storage bump of the buffer's derived address.
    pub bump: u8,
}

impl TransactionBuffer {
    /// Structurally sound buffer: 32-byte addresses and digest.
    pub open spec fn wf(&self) -> bool {
        &&& self.multi_wallet.wf()
        &&& self.creator.wf()
        &&& self.rent_payer.wf()
        &&& self.final_buffer_hash@.len() == 32
    }

    /// The buffer's invariant: the accumulated bytes never exceed the
    /// declared final length, and that length respects the fixed maximum.
    pub open spec fn spec_invariant(&self) -> bool {
        &&& self.buffer@.len() <= self.final_buffer_size
        &&& self.final_buffer_size <= MAX_BUFFER_SIZE
    }

    /// Bytes of storage a buffer account with the given declared final size
    /// occupies; rejected when the declared size exceeds the maximum.
    pub fn size(final_buffer_size: u16) -> (r: Result<usize, MultisigError>)
        ensures
            final_buffer_size <= MAX_BUFFER_SIZE <==> r is Ok,
            r matches Ok(n) ==> n == 145 + final_buffer_size,
            r matches Err(e) ==> e == MultisigError::FinalBufferSizeExceeded,
    {
        if (final_buffer_size as usize) > MAX_BUFFER_SIZE {
            return Err(MultisigError::FinalBufferSizeExceeded);
        }
        Ok(
            8  // account discriminator
             + 32  // multi_wallet
             + 32  // creator
             + 32  // rent_payer
             + 1  // vault_index
             + 1  // buffer_index
             + 32  // final_buffer_hash
             + 2  // final_buffer_size
             + 4  // buffer vector length
             + (final_buffer_size as usize)  // buffer
             + 1,  // bump
        )
    }

    /// Re-checks the buffer's invariant after a mutation.
    pub fn check_invariant(&self) -> (r: Result<(), MultisigError>)
        ensures
            r is Ok <==> self.spec_invariant(),
            r is Err ==> r->Err_0 == MultisigError::FinalBufferSizeExceeded,
    {
        if self.buffer.len() > (self.final_buffer_size as usize) {
            return Err(MultisigError::FinalBufferSizeExceeded);
        }
        if (self.final_buffer_size as usize) > MAX_BUFFER_SIZE {
            return Err(MultisigError::FinalBufferSizeExceeded);
        }
        Ok(())
    }

    /// Checks that the accumulated content's SHA-256 digest equals the
    /// declared final hash. Only a buffer that passes is executable.
    pub fn validate_hash(&self) -> (r: Result<(), MultisigError>)
        ensures
            r is Ok <==> sha256_of(self.buffer@) == self.final_buffer_hash@,
            r is Err ==> r->Err_0 == MultisigError::FinalBufferHashMismatch,
    {
        let digest = sha256(&self.buffer);
        if eq_bytes(&digest, &self.final_buffer_hash) {
            Ok(())
        } else {
            Err(MultisigError::FinalBufferHashMismatch)
        }
    }

    /// Checks that the accumulated length equals the declared final size.
    /// Only a buffer that passes is executable.
    pub fn validate_size(&self) -> (r: Result<(), MultisigError>)
        ensures
            r is Ok <==> self.buffer@.len() == self.final_buffer_size,
            r is Err ==> r->Err_0 == MultisigError::FinalBufferSizeMismatch,
    {
        if self.buffer.len() == (self.final_buffer_size as usize) {
            Ok(())
        } else {
            Err(MultisigError::FinalBufferSizeMismatch)
        }
    }
}

} // verus!
