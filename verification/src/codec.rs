//! The wire format of a staged transaction message, and its decoder.
//!
//! The format is little-endian and length-prefixed: three count bytes, then
//! the static account keys (a 32-bit count, then 32 bytes each), then the
//! instructions (a 32-bit count; each a program index byte and two
//! length-prefixed byte strings), then the address-table lookups (a 32-bit
//! count; each a 32-byte table key and two length-prefixed index strings).
//! The `parse_*` functions are the format's definition; the decoder is
//! proved to return exactly what they say. Trailing bytes after the message
//! are ignored, as the staged buffer is sealed by its declared size and
//! hash rather than by the message's extent.

use vstd::bytes::{spec_u32_from_le_bytes, u32_from_le_bytes};
use vstd::prelude::*;
use vstd::slice::{slice_subrange, slice_to_vec};

use crate::error::MultisigError;
use crate::pubkey::Pubkey;
use crate::state::vault_transaction::{
    CompiledInstruction, CompiledInstructionV, MessageAddressTableLookup,
    MessageAddressTableLookupV, TransactionMessage, TransactionMessageV,
};

verus! {

/// One byte at `i`.
pub open spec fn parse_u8(b: Seq<u8>, i: int) -> Option<(u8, int)> {
    if 0 <= i && i + 1 <= b.len() {
        Some((b[i], i + 1))
    } else {
        None
    }
}

/// A little-endian 32-bit integer at `i`.
pub open spec fn parse_u32(b: Seq<u8>, i: int) -> Option<(u32, int)> {
    if 0 <= i && i + 4 <= b.len() {
        Some((spec_u32_from_le_bytes(b.subrange(i, i + 4)), i + 4))
    } else {
        None
    }
}

/// Exactly `n` bytes at `i`.
pub open spec fn parse_fixed(b: Seq<u8>, i: int, n: int) -> Option<(Seq<u8>, int)> {
    if 0 <= i && 0 <= n && i + n <= b.len() {
        Some((b.subrange(i, i + n), i + n))
    } else {
        None
    }
}

/// A length-prefixed byte string at `i`.
pub open spec fn parse_bytes_vec(b: Seq<u8>, i: int) -> Option<(Seq<u8>, int)> {
    match parse_u32(b, i) {
        Some((n, j)) => parse_fixed(b, j, n as int),
        None => None,
    }
}

/// `n` consecutive 32-byte keys at `i`.
pub open spec fn parse_keys(b: Seq<u8>, i: int, n: nat) -> Option<(Seq<Seq<u8>>, int)>
    decreases n,
{
    if n == 0 {
        Some((Seq::empty(), i))
    } else {
        match parse_fixed(b, i, 32) {
            Some((k, j)) => match parse_keys(b, j, (n - 1) as nat) {
                Some((rest, end)) => Some((seq![k] + rest, end)),
                None => None,
            },
            None => None,
        }
    }
}

/// One compiled instruction at `i`.
pub open spec fn parse_instruction(b: Seq<u8>, i: int) -> Option<(CompiledInstructionV, int)> {
    match parse_u8(b, i) {
        Some((pix, j)) => match parse_bytes_vec(b, j) {
            Some((idxs, k)) => match parse_bytes_vec(b, k) {
                Some((data, end)) => Some(
                    (
                        CompiledInstructionV {
                            program_id_index: pix,
                            account_indexes: idxs,
                            data,
                        },
                        end,
                    ),
                ),
                None => None,
            },
            None => None,
        },
        None => None,
    }
}

/// `n` consecutive compiled instructions at `i`.
pub open spec fn parse_instructions(b: Seq<u8>, i: int, n: nat) -> Option<
    (Seq<CompiledInstructionV>, int),
>
    decreases n,
{
    if n == 0 {
        Some((Seq::empty(), i))
    } else {
        match parse_instruction(b, i) {
            Some((ins, j)) => match parse_instructions(b, j, (n - 1) as nat) {
                Some((rest, end)) => Some((seq![ins] + rest, end)),
                None => None,
            },
            None => None,
        }
    }
}

/// One address-table lookup at `i`.
pub open spec fn parse_lookup(b: Seq<u8>, i: int) -> Option<(MessageAddressTableLookupV, int)> {
    match parse_fixed(b, i, 32) {
        Some((key, j)) => match parse_bytes_vec(b, j) {
            Some((writable, k)) => match parse_bytes_vec(b, k) {
                Some((readonly, end)) => Some(
                    (
                        MessageAddressTableLookupV {
                            account_key: key,
                            writable_indexes: writable,
                            readonly_indexes: readonly,
                        },
                        end,
                    ),
                ),
                None => None,
            },
            None => None,
        },
        None => None,
    }
}

/// `n` consecutive address-table lookups at `i`.
pub open spec fn parse_lookups(b: Seq<u8>, i: int, n: nat) -> Option<
    (Seq<MessageAddressTableLookupV>, int),
>
    decreases n,
{
    if n == 0 {
        Some((Seq::empty(), i))
    } else {
        match parse_lookup(b, i) {
            Some((l, j)) => match parse_lookups(b, j, (n - 1) as nat) {
                Some((rest, end)) => Some((seq![l] + rest, end)),
                None => None,
            },
            None => None,
        }
    }
}

/// The whole message, starting at byte 0. Trailing bytes are ignored.
pub open spec fn parse_transaction_message(b: Seq<u8>) -> Option<TransactionMessageV> {
    match parse_u8(b, 0) {
        Some((num_signers, i1)) => match parse_u8(b, i1) {
            Some((num_writable_signers, i2)) => match parse_u8(b, i2) {
                Some((num_writable_non_signers, i3)) => match parse_u32(b, i3) {
                    Some((num_keys, i4)) => match parse_keys(b, i4, num_keys as nat) {
                        Some((account_keys, i5)) => match parse_u32(b, i5) {
                            Some((num_instructions, i6)) => match parse_instructions(
                                b,
                                i6,
                                num_instructions as nat,
                            ) {
                                Some((instructions, i7)) => match parse_u32(b, i7) {
                                    Some((num_lookups, i8)) => match parse_lookups(
                                        b,
                                        i8,
                                        num_lookups as nat,
                                    ) {
                                        Some((address_table_lookups, _end)) => Some(
                                            TransactionMessageV {
                                                num_signers,
                                                num_writable_signers,
                                                num_writable_non_signers,
                                                account_keys,
                                                instructions,
                                                address_table_lookups,
                                            },
                                        ),
                                        None => None,
                                    },
                                    None => None,
                                },
                                None => None,
                            },
                            None => None,
                        },
                        None => None,
                    },
                    None => None,
                },
                None => None,
            },
            None => None,
        },
        None => None,
    }
}

/// Reads one byte.
fn read_u8(bytes: &Vec<u8>, pos: usize) -> (r: Option<(u8, usize)>)
    ensures
        match r {
            Some(p) => parse_u8(bytes@, pos as int) == Some((p.0, p.1 as int)) && pos < p.1
                <= bytes@.len(),
            None => parse_u8(bytes@, pos as int) is None,
        },
{
    if pos < bytes.len() {
        Some((bytes[pos], pos + 1))
    } else {
        None
    }
}

/// Reads a little-endian 32-bit integer.
fn read_u32(bytes: &Vec<u8>, pos: usize) -> (r: Option<(u32, usize)>)
    requires
        pos <= bytes@.len(),
    ensures
        match r {
            Some(p) => parse_u32(bytes@, pos as int) == Some((p.0, p.1 as int)) && pos < p.1
                <= bytes@.len(),
            None => parse_u32(bytes@, pos as int) is None,
        },
{
    if bytes.len() - pos >= 4 {
        let s = slice_subrange(bytes.as_slice(), pos, pos + 4);
        let x = u32_from_le_bytes(s);
        Some((x, pos + 4))
    } else {
        None
    }
}

/// Reads exactly `n` bytes.
fn read_fixed(bytes: &Vec<u8>, pos: usize, n: usize) -> (r: Option<(Vec<u8>, usize)>)
    requires
        pos <= bytes@.len(),
    ensures
        match r {
            Some(p) => parse_fixed(bytes@, pos as int, n as int) == Some((p.0@, p.1 as int)) && pos
                <= p.1 <= bytes@.len() && p.0@.len() == n,
            None => parse_fixed(bytes@, pos as int, n as int) is None,
        },
{
    if n <= bytes.len() - pos {
        let s = slice_subrange(bytes.as_slice(), pos, pos + n);
        Some((slice_to_vec(s), pos + n))
    } else {
        None
    }
}

/// Reads a length-prefixed byte string.
fn read_bytes_vec(bytes: &Vec<u8>, pos: usize) -> (r: Option<(Vec<u8>, usize)>)
    requires
        pos <= bytes@.len(),
    ensures
        match r {
            Some(p) => parse_bytes_vec(bytes@, pos as int) == Some((p.0@, p.1 as int)) && pos <= p.1
                <= bytes@.len(),
            None => parse_bytes_vec(bytes@, pos as int) is None,
        },
{
    match read_u32(bytes, pos) {
        Some((n, j)) => read_fixed(bytes, j, n as usize),
        None => None,
    }
}

/// Reads `n` consecutive 32-byte keys.
fn read_keys(bytes: &Vec<u8>, pos: usize, n: u32) -> (r: Option<(Vec<Pubkey>, usize)>)
    requires
        pos <= bytes@.len(),
    ensures
        match r {
            Some(p) => parse_keys(bytes@, pos as int, n as nat) == Some(
                (p.0.deep_view(), p.1 as int),
            ) && pos <= p.1 <= bytes@.len() && p.0@.len() == n,
            None => parse_keys(bytes@, pos as int, n as nat) is None,
        },
{
    let mut acc: Vec<Pubkey> = Vec::new();
    let mut cur: usize = pos;
    let mut m: u32 = 0;
    while m < n
        invariant
            pos <= cur <= bytes@.len(),
            0 <= m <= n,
            acc@.len() == m,
            ({
                let full = parse_keys(bytes@, pos as int, n as nat);
                match parse_keys(bytes@, cur as int, (n - m) as nat) {
                    Some(t) => full == Some((acc.deep_view() + t.0, t.1)),
                    None => full is None,
                }
            }),
        decreases n - m,
    {
        let ghost full = parse_keys(bytes@, pos as int, n as nat);
        let ghost acc_before = acc.deep_view();
        match read_fixed(bytes, cur, 32) {
            Some((kb, next)) => {
                let ghost k = kb@;
                acc.push(Pubkey::new(kb));
                proof {
                    assert(acc.deep_view() =~= acc_before.push(k));
                    assert forall|t0: Seq<Seq<u8>>| true implies acc_before + (seq![k] + t0)
                        =~= acc_before.push(k) + t0 by {}
                }
                cur = next;
            },
            None => {
                proof {
                    assert(parse_keys(bytes@, cur as int, (n - m) as nat) is None);
                }
                return None;
            },
        }
        m = m + 1;
    }
    proof {
        assert(parse_keys(bytes@, cur as int, 0nat) == Some((Seq::<Seq<u8>>::empty(), cur as int)));
        assert(acc.deep_view() + Seq::<Seq<u8>>::empty() =~= acc.deep_view());
    }
    Some((acc, cur))
}

/// Reads one compiled instruction.
fn read_instruction(bytes: &Vec<u8>, pos: usize) -> (r: Option<(CompiledInstruction, usize)>)
    requires
        pos <= bytes@.len(),
    ensures
        match r {
            Some(p) => parse_instruction(bytes@, pos as int) == Some((p.0@, p.1 as int)) && pos
                <= p.1 <= bytes@.len(),
            None => parse_instruction(bytes@, pos as int) is None,
        },
{
    let (program_id_index, i1) = match read_u8(bytes, pos) {
        Some(p) => p,
        None => {
            return None;
        },
    };
    let (account_indexes, i2) = match read_bytes_vec(bytes, i1) {
        Some(p) => p,
        None => {
            return None;
        },
    };
    let (data, end) = match read_bytes_vec(bytes, i2) {
        Some(p) => p,
        None => {
            return None;
        },
    };
    Some((CompiledInstruction { program_id_index, account_indexes, data }, end))
}

/// Reads `n` consecutive compiled instructions.
fn read_instructions(bytes: &Vec<u8>, pos: usize, n: u32) -> (r: Option<
    (Vec<CompiledInstruction>, usize),
>)
    requires
        pos <= bytes@.len(),
    ensures
        match r {
            Some(p) => parse_instructions(bytes@, pos as int, n as nat) == Some(
                (p.0.deep_view(), p.1 as int),
            ) && pos <= p.1 <= bytes@.len(),
            None => parse_instructions(bytes@, pos as int, n as nat) is None,
        },
{
    let mut acc: Vec<CompiledInstruction> = Vec::new();
    let mut cur: usize = pos;
    let mut m: u32 = 0;
    while m < n
        invariant
            pos <= cur <= bytes@.len(),
            0 <= m <= n,
            ({
                let full = parse_instructions(bytes@, pos as int, n as nat);
                match parse_instructions(bytes@, cur as int, (n - m) as nat) {
                    Some(t) => full == Some((acc.deep_view() + t.0, t.1)),
                    None => full is None,
                }
            }),
        decreases n - m,
    {
        let ghost acc_before = acc.deep_view();
        match read_instruction(bytes, cur) {
            Some((ins, next)) => {
                let ghost insv = ins@;
                acc.push(ins);
                proof {
                    assert(acc.deep_view() =~= acc_before.push(insv));
                    assert forall|t0: Seq<CompiledInstructionV>| true implies acc_before + (
                    seq![insv] + t0) =~= acc_before.push(insv) + t0 by {}
                }
                cur = next;
            },
            None => {
                return None;
            },
        }
        m = m + 1;
    }
    proof {
        assert(parse_instructions(bytes@, cur as int, 0nat) == Some(
            (Seq::<CompiledInstructionV>::empty(), cur as int),
        ));
        assert(acc.deep_view() + Seq::<CompiledInstructionV>::empty() =~= acc.deep_view());
    }
    Some((acc, cur))
}

/// Reads one address-table lookup.
fn read_lookup(bytes: &Vec<u8>, pos: usize) -> (r: Option<(MessageAddressTableLookup, usize)>)
    requires
        pos <= bytes@.len(),
    ensures
        match r {
            Some(p) => parse_lookup(bytes@, pos as int) == Some((p.0@, p.1 as int)) && pos <= p.1
                <= bytes@.len(),
            None => parse_lookup(bytes@, pos as int) is None,
        },
{
    let (key_bytes, i1) = match read_fixed(bytes, pos, 32) {
        Some(p) => p,
        None => {
            return None;
        },
    };
    let (writable_indexes, i2) = match read_bytes_vec(bytes, i1) {
        Some(p) => p,
        None => {
            return None;
        },
    };
    let (readonly_indexes, end) = match read_bytes_vec(bytes, i2) {
        Some(p) => p,
        None => {
            return None;
        },
    };
    Some(
        (
            MessageAddressTableLookup {
                account_key: Pubkey::new(key_bytes),
                writable_indexes,
                readonly_indexes,
            },
            end,
        ),
    )
}

/// Reads `n` consecutive address-table lookups.
fn read_lookups(bytes: &Vec<u8>, pos: usize, n: u32) -> (r: Option<
    (Vec<MessageAddressTableLookup>, usize),
>)
    requires
        pos <= bytes@.len(),
    ensures
        match r {
            Some(p) => parse_lookups(bytes@, pos as int, n as nat) == Some(
                (p.0.deep_view(), p.1 as int),
            ) && pos <= p.1 <= bytes@.len(),
            None => parse_lookups(bytes@, pos as int, n as nat) is None,
        },
{
    let mut acc: Vec<MessageAddressTableLookup> = Vec::new();
    let mut cur: usize = pos;
    let mut m: u32 = 0;
    while m < n
        invariant
            pos <= cur <= bytes@.len(),
            0 <= m <= n,
            ({
                let full = parse_lookups(bytes@, pos as int, n as nat);
                match parse_lookups(bytes@, cur as int, (n - m) as nat) {
                    Some(t) => full == Some((acc.deep_view() + t.0, t.1)),
                    None => full is None,
                }
            }),
        decreases n - m,
    {
        let ghost acc_before = acc.deep_view();
        match read_lookup(bytes, cur) {
            Some((l, next)) => {
                let ghost lv = l@;
                acc.push(l);
                proof {
                    assert(acc.deep_view() =~= acc_before.push(lv));
                    assert forall|t0: Seq<MessageAddressTableLookupV>| true implies acc_before + (
                    seq![lv] + t0) =~= acc_before.push(lv) + t0 by {}
                }
                cur = next;
            },
            None => {
                return None;
            },
        }
        m = m + 1;
    }
    proof {
        assert(parse_lookups(bytes@, cur as int, 0nat) == Some(
            (Seq::<MessageAddressTableLookupV>::empty(), cur as int),
        ));
        assert(acc.deep_view() + Seq::<MessageAddressTableLookupV>::empty() =~= acc.deep_view());
    }
    Some((acc, cur))
}

impl TransactionMessage {
    /// Decodes a raw message from the staged bytes: a pure, total function
    /// from bytes to a message or the malformed-message fault, exactly as
    /// the `parse_*` functions define the format.
    pub fn deserialize(bytes: &Vec<u8>) -> (r: Result<TransactionMessage, MultisigError>)
        ensures
            match r {
                Ok(m) => parse_transaction_message(bytes@) == Some(m@),
                Err(e) => parse_transaction_message(bytes@) is None && e
                    == MultisigError::InvalidTransactionMessage,
            },
    {
        let (num_signers, i1) = match read_u8(bytes, 0) {
            Some(p) => p,
            None => {
                return Err(MultisigError::InvalidTransactionMessage);
            },
        };
        let (num_writable_signers, i2) = match read_u8(bytes, i1) {
            Some(p) => p,
            None => {
                return Err(MultisigError::InvalidTransactionMessage);
            },
        };
        let (num_writable_non_signers, i3) = match read_u8(bytes, i2) {
            Some(p) => p,
            None => {
                return Err(MultisigError::InvalidTransactionMessage);
            },
        };
        let (num_keys, i4) = match read_u32(bytes, i3) {
            Some(p) => p,
            None => {
                return Err(MultisigError::InvalidTransactionMessage);
            },
        };
        let (account_keys, i5) = match read_keys(bytes, i4, num_keys) {
            Some(p) => p,
            None => {
                return Err(MultisigError::InvalidTransactionMessage);
            },
        };
        let (num_instructions, i6) = match read_u32(bytes, i5) {
            Some(p) => p,
            None => {
                return Err(MultisigError::InvalidTransactionMessage);
            },
        };
        let (instructions, i7) = match read_instructions(bytes, i6, num_instructions) {
            Some(p) => p,
            None => {
                return Err(MultisigError::InvalidTransactionMessage);
            },
        };
        let (num_lookups, i8) = match read_u32(bytes, i7) {
            Some(p) => p,
            None => {
                return Err(MultisigError::InvalidTransactionMessage);
            },
        };
        let (address_table_lookups, _end) = match read_lookups(bytes, i8, num_lookups) {
            Some(p) => p,
            None => {
                return Err(MultisigError::InvalidTransactionMessage);
            },
        };
        Ok(
            TransactionMessage {
                num_signers,
                num_writable_signers,
                num_writable_non_signers,
                account_keys,
                instructions,
                address_table_lookups,
            },
        )
    }
}

} // verus!
