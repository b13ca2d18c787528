//! Decoding the staged message from raw bytes, validating it, and
//! cross-checking the supplied accounts into an executable batch.

use multi_wallet::{
    AccountMeta, CompiledInstruction, ExecutableTransactionMessage, MessageAddressTableLookup,
    MultisigCompiledInstruction, MultisigError, MultisigMessageAddressTableLookup, Pubkey,
    ResolvedLookupTable, TransactionMessage, VaultTransactionMessage,
};

fn key(tag: u8) -> Pubkey {
    let mut bytes = vec![0u8; 32];
    bytes[31] = tag;
    Pubkey::new(bytes)
}

fn push_u32(out: &mut Vec<u8>, x: u32) {
    out.extend_from_slice(&x.to_le_bytes());
}

fn push_bytes_vec(out: &mut Vec<u8>, bytes: &[u8]) {
    push_u32(out, bytes.len() as u32);
    out.extend_from_slice(bytes);
}

struct RawInstruction {
    program_id_index: u8,
    account_indexes: Vec<u8>,
    data: Vec<u8>,
}

struct RawLookup {
    account_key: u8,
    writable_indexes: Vec<u8>,
    readonly_indexes: Vec<u8>,
}

fn encode_message(
    counts: (u8, u8, u8),
    keys: &[u8],
    instructions: &[RawInstruction],
    lookups: &[RawLookup],
) -> Vec<u8> {
    let mut out = Vec::new();
    out.push(counts.0);
    out.push(counts.1);
    out.push(counts.2);
    push_u32(&mut out, keys.len() as u32);
    for tag in keys {
        out.extend_from_slice(&key(*tag).bytes);
    }
    push_u32(&mut out, instructions.len() as u32);
    for ins in instructions {
        out.push(ins.program_id_index);
        push_bytes_vec(&mut out, &ins.account_indexes);
        push_bytes_vec(&mut out, &ins.data);
    }
    push_u32(&mut out, lookups.len() as u32);
    for l in lookups {
        out.extend_from_slice(&key(l.account_key).bytes);
        push_bytes_vec(&mut out, &l.writable_indexes);
        push_bytes_vec(&mut out, &l.readonly_indexes);
    }
    out
}

#[test]
fn decode_reads_all_sections() {
    let bytes = encode_message(
        (2, 1, 1),
        &[1, 2, 3, 4],
        &[RawInstruction { program_id_index: 3, account_indexes: vec![0, 1], data: vec![9, 8, 7] }],
        &[RawLookup { account_key: 60, writable_indexes: vec![0], readonly_indexes: vec![1, 2] }],
    );
    let m = TransactionMessage::deserialize(&bytes).unwrap();
    assert_eq!(m.num_signers, 2);
    assert_eq!(m.num_writable_signers, 1);
    assert_eq!(m.num_writable_non_signers, 1);
    assert_eq!(m.account_keys.len(), 4);
    assert_eq!(m.account_keys[2].bytes, key(3).bytes);
    assert_eq!(m.instructions.len(), 1);
    assert_eq!(m.instructions[0].program_id_index, 3);
    assert_eq!(m.instructions[0].account_indexes, vec![0, 1]);
    assert_eq!(m.instructions[0].data, vec![9, 8, 7]);
    assert_eq!(m.address_table_lookups.len(), 1);
    assert_eq!(m.address_table_lookups[0].account_key.bytes, key(60).bytes);
    assert_eq!(m.address_table_lookups[0].writable_indexes, vec![0]);
    assert_eq!(m.address_table_lookups[0].readonly_indexes, vec![1, 2]);
}

#[test]
fn decode_ignores_trailing_bytes() {
    let mut bytes = encode_message((1, 1, 0), &[1], &[], &[]);
    bytes.extend_from_slice(&[0xaa, 0xbb]);
    assert!(TransactionMessage::deserialize(&bytes).is_ok());
}

#[test]
fn decode_rejects_truncated_input() {
    let bytes = encode_message(
        (2, 1, 1),
        &[1, 2, 3, 4],
        &[RawInstruction { program_id_index: 3, account_indexes: vec![0, 1], data: vec![9, 8, 7] }],
        &[],
    );
    let truncated = bytes[..bytes.len() - 1].to_vec();
    assert_eq!(
        TransactionMessage::deserialize(&truncated).err().unwrap(),
        MultisigError::InvalidTransactionMessage
    );
    assert_eq!(
        TransactionMessage::deserialize(&Vec::new()).err().unwrap(),
        MultisigError::InvalidTransactionMessage
    );
}

#[test]
fn validation_rejects_more_writable_signers_than_signers() {
    // Two signers but three writable signers: structurally invalid.
    let bytes = encode_message((2, 3, 0), &[1, 2, 3, 4], &[], &[]);
    let m = TransactionMessage::deserialize(&bytes).unwrap();
    assert_eq!(
        VaultTransactionMessage::try_from(m).err().unwrap(),
        MultisigError::InvalidTransactionMessage
    );
}

#[test]
fn validation_rejects_signer_count_over_keys() {
    let bytes = encode_message((5, 0, 0), &[1, 2], &[], &[]);
    let m = TransactionMessage::deserialize(&bytes).unwrap();
    assert_eq!(
        VaultTransactionMessage::try_from(m).err().unwrap(),
        MultisigError::InvalidTransactionMessage
    );
}

#[test]
fn validation_rejects_out_of_bounds_indexes() {
    // Two static keys and one lookup-loaded key: indices 0..=2 are valid.
    let lookups = vec![RawLookup { account_key: 60, writable_indexes: vec![0], readonly_indexes: vec![] }];
    let bad_program = encode_message(
        (1, 1, 0),
        &[1, 2],
        &[RawInstruction { program_id_index: 3, account_indexes: vec![], data: vec![] }],
        &lookups,
    );
    let m = TransactionMessage::deserialize(&bad_program).unwrap();
    assert!(VaultTransactionMessage::try_from(m).is_err());

    let bad_account = encode_message(
        (1, 1, 0),
        &[1, 2],
        &[RawInstruction { program_id_index: 1, account_indexes: vec![0, 3], data: vec![] }],
        &[RawLookup { account_key: 60, writable_indexes: vec![0], readonly_indexes: vec![] }],
    );
    let m = TransactionMessage::deserialize(&bad_account).unwrap();
    assert!(VaultTransactionMessage::try_from(m).is_err());

    let good = encode_message(
        (1, 1, 0),
        &[1, 2],
        &[RawInstruction { program_id_index: 1, account_indexes: vec![0, 2], data: vec![] }],
        &[RawLookup { account_key: 60, writable_indexes: vec![0], readonly_indexes: vec![] }],
    );
    let m = TransactionMessage::deserialize(&good).unwrap();
    assert!(VaultTransactionMessage::try_from(m).is_ok());
}

fn validated(bytes: &Vec<u8>) -> VaultTransactionMessage {
    VaultTransactionMessage::try_from(TransactionMessage::deserialize(bytes).unwrap()).unwrap()
}

#[test]
fn key_layout_flags() {
    // Keys: [writable signer, readonly signer, writable, readonly], plus
    // one writable and one readonly key from a lookup.
    let bytes = encode_message(
        (2, 1, 1),
        &[1, 2, 3, 4],
        &[],
        &[RawLookup { account_key: 60, writable_indexes: vec![0], readonly_indexes: vec![1] }],
    );
    let v = validated(&bytes);
    assert_eq!(v.num_all_account_keys(), 6);
    assert!(v.is_signer_index(0));
    assert!(v.is_signer_index(1));
    assert!(!v.is_signer_index(2));
    assert!(v.is_static_writable_index(0));
    assert!(!v.is_static_writable_index(1));
    assert!(v.is_static_writable_index(2));
    assert!(!v.is_static_writable_index(3));
    assert!(!v.is_static_writable_index(4));
    assert!(!v.is_static_writable_index(5));
}

fn supplied(tag: u8, is_signer: bool, is_writable: bool) -> AccountMeta {
    AccountMeta { pubkey: key(tag), is_signer, is_writable }
}

#[test]
fn new_validated_checks_counts_addresses_and_escalation() {
    let bytes = encode_message(
        (1, 1, 1),
        &[1, 2, 3],
        &[RawInstruction { program_id_index: 2, account_indexes: vec![0, 1], data: vec![5] }],
        &[],
    );
    let vault = key(1);

    // Too few accounts.
    let accounts = vec![supplied(1, false, true), supplied(2, false, true)];
    let r = ExecutableTransactionMessage::new_validated(validated(&bytes), &accounts, &Vec::new(), &vault);
    assert_eq!(r.err().unwrap(), MultisigError::InvalidNumberOfAccounts);

    // Address mismatch at position 1.
    let accounts = vec![supplied(1, false, true), supplied(9, false, true), supplied(3, false, false)];
    let r = ExecutableTransactionMessage::new_validated(validated(&bytes), &accounts, &Vec::new(), &vault);
    assert_eq!(r.err().unwrap(), MultisigError::InvalidAccount);

    // Writable escalation at the readonly position 2.
    let accounts = vec![supplied(1, false, true), supplied(2, false, true), supplied(3, false, true)];
    let r = ExecutableTransactionMessage::new_validated(validated(&bytes), &accounts, &Vec::new(), &vault);
    assert_eq!(r.err().unwrap(), MultisigError::InvalidAccount);

    // Signer escalation at the non-signer position 1.
    let accounts = vec![supplied(1, false, true), supplied(2, true, true), supplied(3, false, false)];
    let r = ExecutableTransactionMessage::new_validated(validated(&bytes), &accounts, &Vec::new(), &vault);
    assert_eq!(r.err().unwrap(), MultisigError::InvalidAccount);

    // All positions match; the declared signer is the vault, supplied
    // without an external signature: its authority is substituted.
    let accounts = vec![supplied(1, false, true), supplied(2, false, true), supplied(3, false, false)];
    let e = ExecutableTransactionMessage::new_validated(validated(&bytes), &accounts, &Vec::new(), &vault)
        .unwrap();
    let batch = e.execute_message();
    assert_eq!(batch.len(), 1);
    assert_eq!(batch[0].program_id.bytes, key(3).bytes);
    assert_eq!(batch[0].data, vec![5]);
    assert_eq!(batch[0].accounts.len(), 2);
    assert_eq!(batch[0].accounts[0].pubkey.bytes, key(1).bytes);
    assert!(batch[0].accounts[0].is_signer);
    assert!(batch[0].accounts[0].is_writable);
    assert_eq!(batch[0].accounts[1].pubkey.bytes, key(2).bytes);
    assert!(!batch[0].accounts[1].is_signer);
    assert!(batch[0].accounts[1].is_writable);
}

#[test]
fn new_validated_declared_signer_without_signature_or_vault_is_kept_unsigned() {
    // The declared signer is not the vault and did not sign: validation
    // passes (fewer privileges are allowed) and the position stays
    // unsigned, so the issued sub-instruction would fail in its target.
    let bytes = encode_message(
        (1, 1, 0),
        &[1, 2],
        &[RawInstruction { program_id_index: 1, account_indexes: vec![0], data: vec![] }],
        &[],
    );
    let vault = key(50);
    let accounts = vec![supplied(1, false, true), supplied(2, false, false)];
    let e = ExecutableTransactionMessage::new_validated(validated(&bytes), &accounts, &Vec::new(), &vault)
        .unwrap();
    let batch = e.execute_message();
    assert!(!batch[0].accounts[0].is_signer);
}

#[test]
fn lookup_tables_resolve_in_declared_order() {
    let bytes = encode_message(
        (1, 1, 0),
        &[1],
        &[RawInstruction { program_id_index: 0, account_indexes: vec![1, 2, 3], data: vec![] }],
        &[RawLookup { account_key: 60, writable_indexes: vec![2], readonly_indexes: vec![0, 1] }],
    );
    let table = ResolvedLookupTable {
        key: key(60),
        addresses: vec![key(70), key(71), key(72)],
    };
    let vault = key(1);
    let accounts = vec![
        supplied(1, false, true),
        // Lookup expansion: writable entry first (table[2]), then the
        // readonly entries (table[0], table[1]).
        supplied(72, false, true),
        supplied(70, false, false),
        supplied(71, false, false),
    ];
    let e = ExecutableTransactionMessage::new_validated(
        validated(&bytes),
        &accounts,
        &vec![table],
        &vault,
    )
    .unwrap();
    let batch = e.execute_message();
    assert_eq!(batch[0].accounts[0].pubkey.bytes, key(72).bytes);
    assert!(batch[0].accounts[0].is_writable);
    assert!(!batch[0].accounts[0].is_signer);
    assert_eq!(batch[0].accounts[1].pubkey.bytes, key(70).bytes);
    assert!(!batch[0].accounts[1].is_writable);
    assert_eq!(batch[0].accounts[2].pubkey.bytes, key(71).bytes);
}

#[test]
fn lookup_validation_failures() {
    let bytes = encode_message(
        (1, 1, 0),
        &[1],
        &[],
        &[RawLookup { account_key: 60, writable_indexes: vec![5], readonly_indexes: vec![] }],
    );
    // Index 5 is outside the two-entry table.
    let table = ResolvedLookupTable { key: key(60), addresses: vec![key(70), key(71)] };
    let accounts = vec![supplied(1, false, true), supplied(70, false, true)];
    let r = ExecutableTransactionMessage::new_validated(
        validated(&bytes),
        &accounts,
        &vec![table],
        &key(1),
    );
    assert_eq!(r.err().unwrap(), MultisigError::InvalidAccount);

    // The supplied table is not the one the message names.
    let wrong_table = ResolvedLookupTable { key: key(61), addresses: vec![key(70)] };
    let bytes = encode_message(
        (1, 1, 0),
        &[1],
        &[],
        &[RawLookup { account_key: 60, writable_indexes: vec![0], readonly_indexes: vec![] }],
    );
    let accounts = vec![supplied(1, false, true), supplied(70, false, true)];
    let r = ExecutableTransactionMessage::new_validated(
        validated(&bytes),
        &accounts,
        &vec![wrong_table],
        &key(1),
    );
    assert_eq!(r.err().unwrap(), MultisigError::InvalidAccount);

    // No table supplied for the declared lookup.
    let bytes = encode_message(
        (1, 1, 0),
        &[1],
        &[],
        &[RawLookup { account_key: 60, writable_indexes: vec![0], readonly_indexes: vec![] }],
    );
    let accounts = vec![supplied(1, false, true), supplied(70, false, true)];
    let r = ExecutableTransactionMessage::new_validated(
        validated(&bytes),
        &accounts,
        &Vec::new(),
        &key(1),
    );
    assert_eq!(r.err().unwrap(), MultisigError::InvalidNumberOfAccounts);
}

#[test]
fn conversion_keeps_instruction_fields() {
    let c = CompiledInstruction { program_id_index: 7, account_indexes: vec![1, 2], data: vec![3] };
    let m = MultisigCompiledInstruction::from(c);
    assert_eq!(m.program_id_index, 7);
    assert_eq!(m.account_indexes, vec![1, 2]);
    assert_eq!(m.data, vec![3]);
    let l = MessageAddressTableLookup {
        account_key: key(5),
        writable_indexes: vec![0],
        readonly_indexes: vec![1],
    };
    let m = MultisigMessageAddressTableLookup::from(l);
    assert_eq!(m.account_key.bytes, key(5).bytes);
    assert_eq!(m.writable_indexes, vec![0]);
    assert_eq!(m.readonly_indexes, vec![1]);
}
