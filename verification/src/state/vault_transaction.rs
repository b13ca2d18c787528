//! The staged transaction message: a compact, fully untrusted description
//! of an instruction batch, decoded from buffer bytes and validated so that
//! every index it declares stays inside the account key space it announces.

use vstd::prelude::*;

use crate::error::MultisigError;
use crate::pubkey::Pubkey;

verus! {

/// One instruction of the batch, in the compact wire schema: a program
/// index, the indices of the accounts to pass, and opaque data.
pub struct CompiledInstruction {
    pub program_id_index: u8,
    /// Indices into the transaction's account key list.
    pub account_indexes: Vec<u8>,
    /// Instruction data.
    pub data: Vec<u8>,
}

/// Abstract value of a compiled instruction, shared by the raw and the
/// validated schema.
pub struct CompiledInstructionV {
    pub program_id_index: u8,
    pub account_indexes: Seq<u8>,
    pub data: Seq<u8>,
}

impl View for CompiledInstruction {
    type V = CompiledInstructionV;

    open spec fn view(&self) -> CompiledInstructionV {
        CompiledInstructionV {
            program_id_index: self.program_id_index,
            account_indexes: self.account_indexes@,
            data: self.data@,
        }
    }
}

impl DeepView for CompiledInstruction {
    type V = CompiledInstructionV;

    open spec fn deep_view(&self) -> CompiledInstructionV {
        self@
    }
}

/// One address-lookup-table reference: the table's address and the indices
/// of the writable and readonly entries to load from it.
pub struct MessageAddressTableLookup {
    /// Address lookup table account key.
    pub account_key: Pubkey,
    /// Indices of the writable account addresses to load.
    pub writable_indexes: Vec<u8>,
    /// Indices of the readonly account addresses to load.
    pub readonly_indexes: Vec<u8>,
}

/// Abstract value of an address-table lookup, shared by the raw and the
/// validated schema.
pub struct MessageAddressTableLookupV {
    pub account_key: Seq<u8>,
    pub writable_indexes: Seq<u8>,
    pub readonly_indexes: Seq<u8>,
}

impl View for MessageAddressTableLookup {
    type V = MessageAddressTableLookupV;

    open spec fn view(&self) -> MessageAddressTableLookupV {
        MessageAddressTableLookupV {
            account_key: self.account_key@,
            writable_indexes: self.writable_indexes@,
            readonly_indexes: self.readonly_indexes@,
        }
    }
}

impl DeepView for MessageAddressTableLookup {
    type V = MessageAddressTableLookupV;

    open spec fn deep_view(&self) -> MessageAddressTableLookupV {
        self@
    }
}

/// The raw decoded message. Untrusted until validated.
pub struct TransactionMessage {
    /// The number of signer keys at the front of `account_keys`.
    pub num_signers: u8,
    /// How many of the signer keys are writable.
    pub num_writable_signers: u8,
    /// How many of the non-signer keys are writable.
    pub num_writable_non_signers: u8,
    /// The static account keys, signers first.
    pub account_keys: Vec<Pubkey>,
    /// The instructions to execute.
    pub instructions: Vec<CompiledInstruction>,
    /// Address table lookups that load additional accounts.
    pub address_table_lookups: Vec<MessageAddressTableLookup>,
}

/// Abstract value of a message, shared by the raw and the validated schema.
pub struct TransactionMessageV {
    pub num_signers: u8,
    pub num_writable_signers: u8,
    pub num_writable_non_signers: u8,
    pub account_keys: Seq<Seq<u8>>,
    pub instructions: Seq<CompiledInstructionV>,
    pub address_table_lookups: Seq<MessageAddressTableLookupV>,
}

impl View for TransactionMessage {
    type V = TransactionMessageV;

    open spec fn view(&self) -> TransactionMessageV {
        TransactionMessageV {
            num_signers: self.num_signers,
            num_writable_signers: self.num_writable_signers,
            num_writable_non_signers: self.num_writable_non_signers,
            account_keys: self.account_keys.deep_view(),
            instructions: self.instructions.deep_view(),
            address_table_lookups: self.address_table_lookups.deep_view(),
        }
    }
}

/// One instruction of the validated batch; same wire schema as
/// [`CompiledInstruction`].
pub struct MultisigCompiledInstruction {
    pub program_id_index: u8,
    /// Indices into the transaction's account key list.
    pub account_indexes: Vec<u8>,
    /// Instruction data.
    pub data: Vec<u8>,
}

impl View for MultisigCompiledInstruction {
    type V = CompiledInstructionV;

    open spec fn view(&self) -> CompiledInstructionV {
        CompiledInstructionV {
            program_id_index: self.program_id_index,
            account_indexes: self.account_indexes@,
            data: self.data@,
        }
    }
}

impl DeepView for MultisigCompiledInstruction {
    type V = CompiledInstructionV;

    open spec fn deep_view(&self) -> CompiledInstructionV {
        self@
    }
}

impl MultisigCompiledInstruction {
    /// Carries a raw instruction into the validated schema unchanged.
    pub fn from(compiled_instruction: CompiledInstruction) -> (r: Self)
        ensures
            r@ == compiled_instruction@,
    {
        Self {
            program_id_index: compiled_instruction.program_id_index,
            account_indexes: compiled_instruction.account_indexes,
            data: compiled_instruction.data,
        }
    }
}

/// One address-table lookup of the validated batch; same wire schema as
/// [`MessageAddressTableLookup`].
pub struct MultisigMessageAddressTableLookup {
    /// Address lookup table account key.
    pub account_key: Pubkey,
    /// Indices of the writable account addresses to load.
    pub writable_indexes: Vec<u8>,
    /// Indices of the readonly account addresses to load.
    pub readonly_indexes: Vec<u8>,
}

impl View for MultisigMessageAddressTableLookup {
    type V = MessageAddressTableLookupV;

    open spec fn view(&self) -> MessageAddressTableLookupV {
        MessageAddressTableLookupV {
            account_key: self.account_key@,
            writable_indexes: self.writable_indexes@,
            readonly_indexes: self.readonly_indexes@,
        }
    }
}

impl DeepView for MultisigMessageAddressTableLookup {
    type V = MessageAddressTableLookupV;

    open spec fn deep_view(&self) -> MessageAddressTableLookupV {
        self@
    }
}

impl MultisigMessageAddressTableLookup {
    /// Carries a raw lookup into the validated schema unchanged.
    pub fn from(m: MessageAddressTableLookup) -> (r: Self)
        ensures
            r@ == m@,
    {
        Self {
            account_key: m.account_key,
            writable_indexes: m.writable_indexes,
            readonly_indexes: m.readonly_indexes,
        }
    }
}

/// How many account keys the lookups load.
pub open spec fn spec_lookup_key_count(lookups: Seq<MessageAddressTableLookupV>) -> nat
    decreases lookups.len(),
{
    if lookups.len() == 0 {
        0
    } else {
        spec_lookup_key_count(lookups.drop_last()) + lookups.last().writable_indexes.len()
            + lookups.last().readonly_indexes.len()
    }
}

/// How many account keys the message declares in total: the static keys
/// plus every key a lookup loads.
pub open spec fn spec_num_all_account_keys(m: TransactionMessageV) -> nat {
    m.account_keys.len() + spec_lookup_key_count(m.address_table_lookups)
}

/// Whether every program index and account index of the instructions stays
/// below the declared total key count.
pub open spec fn spec_indexes_in_bounds(
    instructions: Seq<CompiledInstructionV>,
    num_all: nat,
) -> bool {
    forall|i: int|
        0 <= i < instructions.len() ==> {
            &&& (#[trigger] instructions[i]).program_id_index < num_all
            &&& forall|j: int|
                0 <= j < instructions[i].account_indexes.len()
                    ==> (#[trigger] instructions[i].account_indexes[j]) < num_all
        }
}

/// The structural validity of a message: the signer counts are consistent
/// with the static key list, every declared index is in bounds, and the
/// declared total key count fits the machine.
pub open spec fn spec_message_valid(m: TransactionMessageV) -> bool {
    &&& m.num_signers <= m.account_keys.len()
    &&& m.num_writable_signers <= m.num_signers
    &&& m.num_writable_non_signers <= m.account_keys.len() - m.num_signers
    &&& spec_num_all_account_keys(m) <= usize::MAX
    &&& spec_indexes_in_bounds(m.instructions, spec_num_all_account_keys(m))
}

/// The validated message. Its key layout: signer keys first (writable then
/// readonly), then non-signer keys (writable then readonly, programs among
/// them); lookup-loaded keys follow the static ones, per lookup writable
/// entries then readonly entries.
pub struct VaultTransactionMessage {
    /// The number of signer keys at the front of `account_keys`.
    pub num_signers: u8,
    /// How many of the signer keys are writable.
    pub num_writable_signers: u8,
    /// How many of the non-signer keys are writable.
    pub num_writable_non_signers: u8,
    /// The static account keys, signers first.
    pub account_keys: Vec<Pubkey>,
    /// The instructions of the batch.
    pub instructions: Vec<MultisigCompiledInstruction>,
    /// Address table lookups that load additional accounts.
    pub address_table_lookups: Vec<MultisigMessageAddressTableLookup>,
}

impl View for VaultTransactionMessage {
    type V = TransactionMessageV;

    open spec fn view(&self) -> TransactionMessageV {
        TransactionMessageV {
            num_signers: self.num_signers,
            num_writable_signers: self.num_writable_signers,
            num_writable_non_signers: self.num_writable_non_signers,
            account_keys: self.account_keys.deep_view(),
            instructions: self.instructions.deep_view(),
            address_table_lookups: self.address_table_lookups.deep_view(),
        }
    }
}

impl VaultTransactionMessage {
    /// A validated message satisfies the structural validity predicate.
    pub open spec fn spec_valid(&self) -> bool {
        spec_message_valid(self@)
    }

    /// The number of account keys (static and lookup-loaded) the message
    /// declares; the executor must be supplied exactly this many message
    /// accounts.
    pub fn num_all_account_keys(&self) -> (r: usize)
        requires
            spec_num_all_account_keys(self@) <= usize::MAX,
        ensures
            r == spec_num_all_account_keys(self@),
    {
        let n = self.address_table_lookups.len();
        let mut total: usize = self.account_keys.len();
        let mut i: usize = 0;
        while i < n
            invariant
                n == self.address_table_lookups@.len(),
                0 <= i <= n,
                spec_num_all_account_keys(self@) <= usize::MAX,
                total == self@.account_keys.len() + spec_lookup_key_count(
                    self@.address_table_lookups.subrange(0, i as int),
                ),
            decreases n - i,
        {
            proof {
                assert(self@.address_table_lookups.subrange(0, i + 1 as int).drop_last() =~= self@
                    .address_table_lookups
                    .subrange(0, i as int));
                assert(self@.address_table_lookups.subrange(0, i + 1 as int).last() == self
                    .address_table_lookups@[i as int]@);
                lemma_lookup_key_count_prefix(self@.address_table_lookups, i + 1);
                lemma_lookup_key_count_monotonic(self@.address_table_lookups, i + 1);
            }
            total = total + self.address_table_lookups[i].writable_indexes.len();
            total = total + self.address_table_lookups[i].readonly_indexes.len();
            i = i + 1;
        }
        proof {
            assert(self@.address_table_lookups.subrange(0, n as int) =~= self@
                .address_table_lookups);
        }
        total
    }

    /// Whether the key at `key_index` is a static key the message asks to
    /// be writable.
    pub fn is_static_writable_index(&self, key_index: usize) -> (r: bool)
        ensures
            r == spec_is_static_writable_index(self@, key_index as int),
    {
        let num_account_keys = self.account_keys.len();
        let num_signers = self.num_signers as usize;
        let num_writable_signers = self.num_writable_signers as usize;
        let num_writable_non_signers = self.num_writable_non_signers as usize;
        if key_index >= num_account_keys {
            // Not a static key.
            return false;
        }
        if key_index < num_writable_signers {
            // Within the writable signer keys.
            return true;
        }
        if key_index >= num_signers {
            // A non-signer key; writable ones come first.
            let index_into_non_signers = key_index - num_signers;
            return index_into_non_signers < num_writable_non_signers;
        }
        false
    }

    /// Whether the key at `key_index` is asked to be a signer.
    pub fn is_signer_index(&self, key_index: usize) -> (r: bool)
        ensures
            r == spec_is_signer_index(self@, key_index as int),
    {
        key_index < (self.num_signers as usize)
    }

    /// Validates a raw message: the signer counts must be consistent with
    /// the static key list and every declared index must stay inside the
    /// declared total key space. Any violation is the single
    /// malformed-message fault; nothing is partially accepted.
    pub fn try_from(message: TransactionMessage) -> (r: Result<
        VaultTransactionMessage,
        MultisigError,
    >)
        ensures
            r is Ok <==> spec_message_valid(message@),
            r matches Ok(v) ==> v@ == message@ && v.spec_valid(),
            r matches Err(e) ==> e == MultisigError::InvalidTransactionMessage,
    {
        if (message.num_signers as usize) > message.account_keys.len() {
            return Err(MultisigError::InvalidTransactionMessage);
        }
        if message.num_writable_signers > message.num_signers {
            return Err(MultisigError::InvalidTransactionMessage);
        }
        if (message.num_writable_non_signers as usize) > message.account_keys.len() - (
        message.num_signers as usize) {
            return Err(MultisigError::InvalidTransactionMessage);
        }
        let num_all = match checked_total_keys(&message) {
            Some(n) => n,
            None => {
                return Err(MultisigError::InvalidTransactionMessage);
            },
        };
        if !instruction_indexes_in_bounds(&message.instructions, num_all) {
            return Err(MultisigError::InvalidTransactionMessage);
        }
        let TransactionMessage {
            num_signers,
            num_writable_signers,
            num_writable_non_signers,
            account_keys,
            instructions,
            address_table_lookups,
        } = message;
        let mut converted_instructions: Vec<MultisigCompiledInstruction> = Vec::new();
        let mut rest = instructions;
        let ghost all_instructions = rest.deep_view();
        while rest.len() > 0
            invariant
                converted_instructions.deep_view() + rest.deep_view() =~= all_instructions,
            decreases rest.len(),
        {
            let ghost before = converted_instructions.deep_view();
            let ghost rest_before = rest.deep_view();
            let c = rest.remove(0);
            converted_instructions.push(MultisigCompiledInstruction::from(c));
            proof {
                assert(converted_instructions.deep_view() =~= before.push(rest_before[0]));
                assert(rest.deep_view() =~= rest_before.subrange(1, rest_before.len() as int));
                assert(converted_instructions.deep_view() + rest.deep_view() =~= all_instructions);
            }
        }
        let mut converted_lookups: Vec<MultisigMessageAddressTableLookup> = Vec::new();
        let mut rest_lookups = address_table_lookups;
        let ghost all_lookups = rest_lookups.deep_view();
        while rest_lookups.len() > 0
            invariant
                converted_lookups.deep_view() + rest_lookups.deep_view() =~= all_lookups,
            decreases rest_lookups.len(),
        {
            let ghost before = converted_lookups.deep_view();
            let ghost rest_before = rest_lookups.deep_view();
            let l = rest_lookups.remove(0);
            converted_lookups.push(MultisigMessageAddressTableLookup::from(l));
            proof {
                assert(converted_lookups.deep_view() =~= before.push(rest_before[0]));
                assert(rest_lookups.deep_view() =~= rest_before.subrange(
                    1,
                    rest_before.len() as int,
                ));
                assert(converted_lookups.deep_view() + rest_lookups.deep_view() =~= all_lookups);
            }
        }
        let v = VaultTransactionMessage {
            num_signers,
            num_writable_signers,
            num_writable_non_signers,
            account_keys,
            instructions: converted_instructions,
            address_table_lookups: converted_lookups,
        };
        proof {
            assert(converted_instructions.deep_view() =~= all_instructions);
            assert(converted_lookups.deep_view() =~= all_lookups);
            assert(v@ == message@);
        }
        Ok(v)
    }
}

/// Whether the key at `key_index` is a static key the message asks to be
/// writable: a writable signer, or a writable non-signer.
pub open spec fn spec_is_static_writable_index(m: TransactionMessageV, key_index: int) -> bool {
    &&& 0 <= key_index < m.account_keys.len()
    &&& {
        ||| key_index < m.num_writable_signers
        ||| (key_index >= m.num_signers && key_index - m.num_signers < m.num_writable_non_signers)
    }
}

/// Whether the key at `key_index` is asked to be a signer.
pub open spec fn spec_is_signer_index(m: TransactionMessageV, key_index: int) -> bool {
    key_index < m.num_signers
}

/// A prefix's key count plus its last element's contribution.
proof fn lemma_lookup_key_count_prefix(lookups: Seq<MessageAddressTableLookupV>, i: int)
    requires
        0 < i <= lookups.len(),
    ensures
        spec_lookup_key_count(lookups.subrange(0, i)) == spec_lookup_key_count(
            lookups.subrange(0, i - 1),
        ) + lookups[i - 1].writable_indexes.len() + lookups[i - 1].readonly_indexes.len(),
{
    assert(lookups.subrange(0, i).drop_last() =~= lookups.subrange(0, i - 1));
    assert(lookups.subrange(0, i).last() == lookups[i - 1]);
}

/// The total key count also bounds every prefix's count.
pub proof fn lemma_lookup_key_count_monotonic(lookups: Seq<MessageAddressTableLookupV>, i: int)
    requires
        0 <= i <= lookups.len(),
    ensures
        spec_lookup_key_count(lookups.subrange(0, i)) <= spec_lookup_key_count(lookups),
    decreases lookups.len() - i,
{
    if i == lookups.len() {
        assert(lookups.subrange(0, i) =~= lookups);
    } else {
        lemma_lookup_key_count_prefix(lookups, i + 1);
        lemma_lookup_key_count_monotonic(lookups, i + 1);
    }
}

/// Sums the key counts of the lookups, refusing machine overflow.
fn checked_total_keys(message: &TransactionMessage) -> (r: Option<usize>)
    ensures
        match r {
            Some(n) => n == spec_num_all_account_keys(message@) && spec_num_all_account_keys(
                message@,
            ) <= usize::MAX,
            None => spec_num_all_account_keys(message@) > usize::MAX,
        },
{
    let n = message.address_table_lookups.len();
    let mut total: usize = message.account_keys.len();
    let mut i: usize = 0;
    while i < n
        invariant
            n == message.address_table_lookups@.len(),
            0 <= i <= n,
            total == message@.account_keys.len() + spec_lookup_key_count(
                message@.address_table_lookups.subrange(0, i as int),
            ),
        decreases n - i,
    {
        proof {
            lemma_lookup_key_count_prefix(message@.address_table_lookups, i + 1);
            assert(message@.address_table_lookups.subrange(0, i + 1 as int)[i as int] == message
                .address_table_lookups@[i as int]@);
        }
        let w = message.address_table_lookups[i].writable_indexes.len();
        let ro = message.address_table_lookups[i].readonly_indexes.len();
        let step = match total.checked_add(w) {
            Some(t) => t.checked_add(ro),
            None => None,
        };
        match step {
            Some(t) => {
                total = t;
            },
            None => {
                proof {
                    lemma_lookup_key_count_monotonic_from(
                        message@.address_table_lookups,
                        i + 1 as int,
                    );
                }
                return None;
            },
        }
        i = i + 1;
    }
    proof {
        assert(message@.address_table_lookups.subrange(0, n as int) =~= message@
            .address_table_lookups);
    }
    Some(total)
}

/// A later prefix's key count never falls below an earlier one's.
proof fn lemma_lookup_key_count_monotonic_from(lookups: Seq<MessageAddressTableLookupV>, i: int)
    requires
        0 <= i <= lookups.len(),
    ensures
        spec_lookup_key_count(lookups) >= spec_lookup_key_count(lookups.subrange(0, i)),
{
    lemma_lookup_key_count_monotonic(lookups, i);
}

/// Whether every program index and account index of the instructions stays
/// below `num_all`.
fn instruction_indexes_in_bounds(instructions: &Vec<CompiledInstruction>, num_all: usize) -> (r:
    bool)
    ensures
        r == spec_indexes_in_bounds(instructions.deep_view(), num_all as nat),
{
    let n = instructions.len();
    let mut i: usize = 0;
    while i < n
        invariant
            n == instructions@.len(),
            0 <= i <= n,
            forall|a: int|
                0 <= a < i ==> {
                    &&& (#[trigger] instructions.deep_view()[a]).program_id_index < num_all
                    &&& forall|j: int|
                        0 <= j < instructions.deep_view()[a].account_indexes.len() ==> (
                        #[trigger] instructions.deep_view()[a].account_indexes[j]) < num_all
                },
        decreases n - i,
    {
        if (instructions[i].program_id_index as usize) >= num_all {
            assert(instructions.deep_view()[i as int].program_id_index >= num_all);
            return false;
        }
        let m = instructions[i].account_indexes.len();
        let mut j: usize = 0;
        while j < m
            invariant
                n == instructions@.len(),
                0 <= i < n,
                m == instructions@[i as int].account_indexes@.len(),
                0 <= j <= m,
                forall|b: int|
                    0 <= b < j ==> (#[trigger] instructions.deep_view()[i as int].account_indexes[b])
                        < num_all,
            decreases m - j,
        {
            if (instructions[i].account_indexes[j] as usize) >= num_all {
                assert(instructions.deep_view()[i as int].account_indexes[j as int] >= num_all);
                return false;
            }
            j = j + 1;
        }
        i = i + 1;
    }
    true
}

} // verus!
