//! The executable message engine: cross-checks a validated message against
//! the accounts actually supplied at execution time, resolves lookup-table
//! entries to concrete addresses, enforces that no account is escalated
//! beyond what the message declares, substitutes the vault's derived
//! signing authority for an external signature, and produces the exact
//! instruction batch the host must issue as cross-program calls.

use vstd::prelude::*;

use crate::error::MultisigError;
use crate::pubkey::Pubkey;
use crate::state::vault_transaction::{
    spec_is_signer_index, spec_is_static_writable_index, spec_lookup_key_count,
    spec_num_all_account_keys, MessageAddressTableLookupV, TransactionMessageV,
    VaultTransactionMessage,
};

verus! {

/// An account position of the batch: its address and its signer/writable
/// flags. Used both for the accounts supplied at execution time and for
/// the accounts of an issued instruction.
pub struct AccountMeta {
    pub pubkey: Pubkey,
    pub is_signer: bool,
    pub is_writable: bool,
}

/// Abstract value of an [`AccountMeta`].
pub struct AccountMetaV {
    pub pubkey: Seq<u8>,
    pub is_signer: bool,
    pub is_writable: bool,
}

impl View for AccountMeta {
    type V = AccountMetaV;

    open spec fn view(&self) -> AccountMetaV {
        AccountMetaV {
            pubkey: self.pubkey@,
            is_signer: self.is_signer,
            is_writable: self.is_writable,
        }
    }
}

impl DeepView for AccountMeta {
    type V = AccountMetaV;

    open spec fn deep_view(&self) -> AccountMetaV {
        self@
    }
}

/// The resolved contents of one address lookup table account: its address
/// and the addresses stored in it, in table order.
pub struct ResolvedLookupTable {
    pub key: Pubkey,
    pub addresses: Vec<Pubkey>,
}

/// Abstract value of a [`ResolvedLookupTable`].
pub struct ResolvedLookupTableV {
    pub key: Seq<u8>,
    pub addresses: Seq<Seq<u8>>,
}

impl View for ResolvedLookupTable {
    type V = ResolvedLookupTableV;

    open spec fn view(&self) -> ResolvedLookupTableV {
        ResolvedLookupTableV { key: self.key@, addresses: self.addresses.deep_view() }
    }
}

impl DeepView for ResolvedLookupTable {
    type V = ResolvedLookupTableV;

    open spec fn deep_view(&self) -> ResolvedLookupTableV {
        self@
    }
}

/// One instruction of the batch, ready to issue: a concrete program
/// address, the designated accounts with their effective flags, and the
/// opaque data.
pub struct ResolvedInstruction {
    pub program_id: Pubkey,
    pub accounts: Vec<AccountMeta>,
    pub data: Vec<u8>,
}

/// Abstract value of a [`ResolvedInstruction`].
pub struct ResolvedInstructionV {
    pub program_id: Seq<u8>,
    pub accounts: Seq<AccountMetaV>,
    pub data: Seq<u8>,
}

impl View for ResolvedInstruction {
    type V = ResolvedInstructionV;

    open spec fn view(&self) -> ResolvedInstructionV {
        ResolvedInstructionV {
            program_id: self.program_id@,
            accounts: self.accounts.deep_view(),
            data: self.data@,
        }
    }
}

impl DeepView for ResolvedInstruction {
    type V = ResolvedInstructionV;

    open spec fn deep_view(&self) -> ResolvedInstructionV {
        self@
    }
}

/// The addresses a table holds at the given indices, or `None` when an
/// index falls outside the table.
pub open spec fn resolve_indexes(idxs: Seq<u8>, table: Seq<Seq<u8>>) -> Option<Seq<Seq<u8>>>
    decreases idxs.len(),
{
    if idxs.len() == 0 {
        Some(Seq::empty())
    } else if idxs[0] < table.len() {
        match resolve_indexes(idxs.drop_first(), table) {
            Some(rest) => Some(seq![table[idxs[0] as int]] + rest),
            None => None,
        }
    } else {
        None
    }
}

/// The account positions one lookup contributes, writable entries first,
/// then readonly ones; lookup-loaded accounts are never signers. `None`
/// when the supplied table is not the one the lookup names, or an index
/// falls outside it.
pub open spec fn expected_of_lookup(
    l: MessageAddressTableLookupV,
    t: ResolvedLookupTableV,
) -> Option<Seq<AccountMetaV>> {
    if l.account_key != t.key {
        None
    } else {
        match (resolve_indexes(l.writable_indexes, t.addresses), resolve_indexes(
            l.readonly_indexes,
            t.addresses,
        )) {
            (Some(w), Some(r)) => Some(
                w.map_values(
                    |k: Seq<u8>| AccountMetaV { pubkey: k, is_signer: false, is_writable: true },
                ) + r.map_values(
                    |k: Seq<u8>| AccountMetaV { pubkey: k, is_signer: false, is_writable: false },
                ),
            ),
            _ => None,
        }
    }
}

/// The account positions all lookups contribute, in lookup order.
pub open spec fn expected_of_lookups(
    lookups: Seq<MessageAddressTableLookupV>,
    tables: Seq<ResolvedLookupTableV>,
) -> Option<Seq<AccountMetaV>>
    recommends
        lookups.len() == tables.len(),
    decreases lookups.len(),
{
    if lookups.len() == 0 {
        Some(Seq::empty())
    } else {
        match expected_of_lookup(lookups[0], tables[0]) {
            Some(head) => match expected_of_lookups(lookups.drop_first(), tables.drop_first()) {
                Some(rest) => Some(head + rest),
                None => None,
            },
            None => None,
        }
    }
}

/// The full list of account positions the message declares, with the
/// declared flags: the static keys first (their signer/writable flags from
/// the message header), then the lookup-loaded keys.
pub open spec fn spec_expected_metas(
    m: TransactionMessageV,
    tables: Seq<ResolvedLookupTableV>,
) -> Option<Seq<AccountMetaV>> {
    match expected_of_lookups(m.address_table_lookups, tables) {
        Some(dynamic) => Some(
            Seq::new(
                m.account_keys.len(),
                |i: int|
                    AccountMetaV {
                        pubkey: m.account_keys[i],
                        is_signer: spec_is_signer_index(m, i),
                        is_writable: spec_is_static_writable_index(m, i),
                    },
            ) + dynamic,
        ),
        None => None,
    }
}

/// The effective flags of a position: an account keeps the privileges it
/// was both declared and supplied with — it may be supplied with fewer
/// (the affected instruction then fails in its target program), never with
/// more — and a declared signer position holding the vault's address is a
/// signer through the vault's derived authority, without an external
/// signature.
pub open spec fn effective_meta(
    declared: AccountMetaV,
    supplied: AccountMetaV,
    vault: Seq<u8>,
) -> AccountMetaV {
    AccountMetaV {
        pubkey: declared.pubkey,
        is_signer: declared.is_signer && (supplied.is_signer || declared.pubkey == vault),
        is_writable: declared.is_writable && supplied.is_writable,
    }
}

/// Whether every supplied account matches its declared position: same
/// address, and no flag the message did not declare.
pub open spec fn supplied_match(declared: Seq<AccountMetaV>, supplied: Seq<AccountMetaV>) -> bool {
    forall|p: int|
        0 <= p < declared.len() ==> {
            &&& (#[trigger] supplied[p]).pubkey == declared[p].pubkey
            &&& (supplied[p].is_signer ==> declared[p].is_signer)
            &&& (supplied[p].is_writable ==> declared[p].is_writable)
        }
}

/// Why building the executable message is rejected, or `None` when it
/// succeeds: the supplied lookup tables and message accounts must match
/// the declared counts, every lookup must resolve, and every supplied
/// account must match its declared position without privilege escalation.
pub open spec fn spec_new_validated_error(
    m: TransactionMessageV,
    supplied: Seq<AccountMetaV>,
    tables: Seq<ResolvedLookupTableV>,
) -> Option<MultisigError> {
    if tables.len() != m.address_table_lookups.len() {
        Some(MultisigError::InvalidNumberOfAccounts)
    } else if supplied.len() != spec_num_all_account_keys(m) {
        Some(MultisigError::InvalidNumberOfAccounts)
    } else {
        match spec_expected_metas(m, tables) {
            None => Some(MultisigError::InvalidAccount),
            Some(declared) => if !supplied_match(declared, supplied) {
                Some(MultisigError::InvalidAccount)
            } else {
                None
            },
        }
    }
}

/// A validated message together with its fully resolved account positions
/// and their effective flags, ready to be issued instruction by
/// instruction.
pub struct ExecutableTransactionMessage {
    pub message: VaultTransactionMessage,
    pub positions: Vec<AccountMeta>,
}

impl ExecutableTransactionMessage {
    /// The positions cover exactly the declared key space of a valid
    /// message.
    pub open spec fn wf(&self) -> bool {
        &&& self.message.spec_valid()
        &&& self.positions@.len() == spec_num_all_account_keys(self.message@)
    }

    /// Cross-checks the supplied accounts against the message and builds
    /// the executable form.
    ///
    /// The declared position list is resolved from the static keys and the
    /// lookup tables; a supplied account whose address differs from its
    /// declared position, or that carries a signer or writable flag the
    /// message did not declare, is fatal, never reordered or downgraded.
    #[verifier::loop_isolation(false)]
    pub fn new_validated(
        message: VaultTransactionMessage,
        message_accounts: &Vec<AccountMeta>,
        lookup_tables: &Vec<ResolvedLookupTable>,
        vault_pubkey: &Pubkey,
    ) -> (r: Result<ExecutableTransactionMessage, MultisigError>)
        requires
            message.spec_valid(),
        ensures
            match r {
                Ok(e) => {
                    &&& spec_new_validated_error(
                        message@,
                        message_accounts.deep_view(),
                        lookup_tables.deep_view(),
                    ) is None
                    &&& e.wf()
                    &&& e.message == message
                    &&& spec_expected_metas(message@, lookup_tables.deep_view())->Some_0.len()
                        == spec_num_all_account_keys(message@)
                    &&& {
                        let declared = spec_expected_metas(
                            message@,
                            lookup_tables.deep_view(),
                        )->Some_0;
                        forall|p: int|
                            0 <= p < e.positions@.len() ==> (#[trigger] e.positions.deep_view()[p])
                                == effective_meta(
                                declared[p],
                                message_accounts.deep_view()[p],
                                vault_pubkey@,
                            )
                    }
                },
                Err(err) => Some(err) == spec_new_validated_error(
                    message@,
                    message_accounts.deep_view(),
                    lookup_tables.deep_view(),
                ),
            },
    {
        if lookup_tables.len() != message.address_table_lookups.len() {
            return Err(MultisigError::InvalidNumberOfAccounts);
        }
        let num_all = message.num_all_account_keys();
        if message_accounts.len() != num_all {
            return Err(MultisigError::InvalidNumberOfAccounts);
        }
        let declared = match expected_metas(&message, lookup_tables) {
            Some(d) => d,
            None => {
                return Err(MultisigError::InvalidAccount);
            },
        };
        proof {
            lemma_expected_metas_len(message@, lookup_tables.deep_view());
        }
        let n = declared.len();
        let mut positions: Vec<AccountMeta> = Vec::new();
        let mut p: usize = 0;
        while p < n
            invariant
                n == declared@.len(),
                0 <= p <= n,
                n == message_accounts@.len(),
                spec_expected_metas(message@, lookup_tables.deep_view()) == Some(
                    declared.deep_view(),
                ),
                positions@.len() == p,
                forall|q: int|
                    0 <= q < p ==> {
                        &&& (#[trigger] message_accounts.deep_view()[q]).pubkey == declared
                            .deep_view()[q].pubkey
                        &&& (message_accounts.deep_view()[q].is_signer ==> declared.deep_view()[q]
                            .is_signer)
                        &&& (message_accounts.deep_view()[q].is_writable ==> declared.deep_view()[q]
                            .is_writable)
                        &&& positions.deep_view()[q] == effective_meta(
                            declared.deep_view()[q],
                            message_accounts.deep_view()[q],
                            vault_pubkey@,
                        )
                    },
            decreases n - p,
        {
            let d = &declared[p];
            let s = &message_accounts[p];
            if !s.pubkey.eq_key(&d.pubkey) {
                proof {
                    assert(message_accounts.deep_view()[p as int].pubkey != declared.deep_view()[p as int].pubkey);
                }
                return Err(MultisigError::InvalidAccount);
            }
            if s.is_signer && !d.is_signer {
                proof {
                    assert(message_accounts.deep_view()[p as int].is_signer && !declared.deep_view()[p as int].is_signer);
                }
                return Err(MultisigError::InvalidAccount);
            }
            if s.is_writable && !d.is_writable {
                proof {
                    assert(message_accounts.deep_view()[p as int].is_writable && !declared.deep_view()[p as int].is_writable);
                }
                return Err(MultisigError::InvalidAccount);
            }
            let is_signer = d.is_signer && (s.is_signer || d.pubkey.eq_key(vault_pubkey));
            let is_writable = d.is_writable && s.is_writable;
            positions.push(AccountMeta { pubkey: d.pubkey.dup(), is_signer, is_writable });
            p = p + 1;
        }
        Ok(ExecutableTransactionMessage { message, positions })
    }

    /// The instruction batch to issue, in message order: each instruction's
    /// program and accounts are looked up among the resolved positions, so
    /// the host passes exactly the accounts the instruction designates,
    /// with their effective flags, signed by the vault's derived authority.
    /// Execution is sequential and the whole batch must succeed; the host's
    /// transaction atomicity reverts everything on a failure.
    #[verifier::loop_isolation(false)]
    pub fn execute_message(&self) -> (r: Vec<ResolvedInstruction>)
        requires
            self.wf(),
        ensures
            r.deep_view().len() == self.message@.instructions.len(),
            forall|i: int|
                0 <= i < r.deep_view().len() ==> (#[trigger] r.deep_view()[i])
                    == spec_resolved_instruction(
                    self.message@.instructions[i],
                    self.positions.deep_view(),
                ),
    {
        let n = self.message.instructions.len();
        let mut out: Vec<ResolvedInstruction> = Vec::new();
        let mut i: usize = 0;
        while i < n
            invariant
                n == self.message.instructions@.len(),
                0 <= i <= n,
                self.wf(),
                out.deep_view().len() == i,
                forall|a: int|
                    0 <= a < i ==> (#[trigger] out.deep_view()[a]) == spec_resolved_instruction(
                        self.message@.instructions[a],
                        self.positions.deep_view(),
                    ),
            decreases n - i,
        {
            proof {
                assert(spec_indexes_ok(self.message@, i as int));
            }
            let ins = &self.message.instructions[i];
            let m = ins.account_indexes.len();
            let mut accounts: Vec<AccountMeta> = Vec::new();
            let mut j: usize = 0;
            while j < m
                invariant
                    n == self.message.instructions@.len(),
                    0 <= i < n,
                    m == self.message.instructions@[i as int].account_indexes@.len(),
                    0 <= j <= m,
                    self.wf(),
                    ins == &self.message.instructions[i as int],
                    accounts.deep_view().len() == j,
                    forall|b: int|
                        0 <= b < j ==> (#[trigger] accounts.deep_view()[b]) == self
                            .positions
                            .deep_view()[self.message@.instructions[i as int].account_indexes[b] as int],
                decreases m - j,
            {
                proof {
                    assert(spec_indexes_ok(self.message@, i as int));
                    assert(self.message@.instructions[i as int].account_indexes[j as int]
                        < spec_num_all_account_keys(self.message@));
                }
                let idx = ins.account_indexes[j] as usize;
                let meta = &self.positions[idx];
                let ghost accounts_before = accounts.deep_view();
                accounts.push(
                    AccountMeta {
                        pubkey: meta.pubkey.dup(),
                        is_signer: meta.is_signer,
                        is_writable: meta.is_writable,
                    },
                );
                proof {
                    assert(accounts.deep_view() =~= accounts_before.push(
                        self.positions.deep_view()[idx as int],
                    ));
                }
                j = j + 1;
            }
            let pid = &self.positions[ins.program_id_index as usize];
            let mut data: Vec<u8> = Vec::new();
            let mut k: usize = 0;
            let dlen = ins.data.len();
            while k < dlen
                invariant
                    ins == &self.message.instructions[i as int],
                    n == self.message.instructions@.len(),
                    0 <= i < n,
                    dlen == ins.data@.len(),
                    0 <= k <= dlen,
                    data@ =~= ins.data@.subrange(0, k as int),
                decreases dlen - k,
            {
                data.push(ins.data[k]);
                k = k + 1;
            }
            proof {
                assert(data@ =~= ins.data@);
            }
            let resolved = ResolvedInstruction { program_id: pid.pubkey.dup(), accounts, data };
            let ghost before = out.deep_view();
            out.push(resolved);
            proof {
                assert(out.deep_view() =~= before.push(resolved@));
                assert(resolved@.accounts =~= self.message@.instructions[i as int]
                    .account_indexes
                    .map_values(
                    |x: u8|
                        self.positions.deep_view()[x as int],
                ));
            }
            i = i + 1;
        }
        out
    }
}

/// Whether every index of instruction `i` is inside the declared key space.
pub open spec fn spec_indexes_ok(m: TransactionMessageV, i: int) -> bool {
    &&& m.instructions[i].program_id_index < spec_num_all_account_keys(m)
    &&& forall|j: int|
        0 <= j < m.instructions[i].account_indexes.len() ==> (#[trigger] m.instructions[i]
            .account_indexes[j]) < spec_num_all_account_keys(m)
}

/// What one instruction resolves to: the program address at its program
/// index, the positions its index list designates, and its data.
pub open spec fn spec_resolved_instruction(
    ins: crate::state::vault_transaction::CompiledInstructionV,
    metas: Seq<AccountMetaV>,
) -> ResolvedInstructionV {
    ResolvedInstructionV {
        program_id: metas[ins.program_id_index as int].pubkey,
        accounts: ins.account_indexes.map_values(|x: u8| metas[x as int]),
        data: ins.data,
    }
}

/// A resolved declared-position list covers exactly the declared key space.
proof fn lemma_expected_metas_len(m: TransactionMessageV, tables: Seq<ResolvedLookupTableV>)
    requires
        m.address_table_lookups.len() == tables.len(),
        spec_expected_metas(m, tables) is Some,
    ensures
        spec_expected_metas(m, tables)->Some_0.len() == spec_num_all_account_keys(m),
{
    lemma_expected_of_lookups_len(m.address_table_lookups, tables);
}

/// A resolved lookup list contributes exactly its declared key count.
proof fn lemma_expected_of_lookups_len(
    lookups: Seq<MessageAddressTableLookupV>,
    tables: Seq<ResolvedLookupTableV>,
)
    requires
        lookups.len() == tables.len(),
        expected_of_lookups(lookups, tables) is Some,
    ensures
        expected_of_lookups(lookups, tables)->Some_0.len() == spec_lookup_key_count(lookups),
    decreases lookups.len(),
{
    if lookups.len() > 0 {
        lemma_expected_of_lookups_len(lookups.drop_first(), tables.drop_first());
        lemma_resolve_indexes_len(lookups[0].writable_indexes, tables[0].addresses);
        lemma_resolve_indexes_len(lookups[0].readonly_indexes, tables[0].addresses);
        lemma_lookup_key_count_first(lookups);
    }
}

/// Resolving indices keeps their count.
proof fn lemma_resolve_indexes_len(idxs: Seq<u8>, table: Seq<Seq<u8>>)
    requires
        resolve_indexes(idxs, table) is Some,
    ensures
        resolve_indexes(idxs, table)->Some_0.len() == idxs.len(),
    decreases idxs.len(),
{
    if idxs.len() > 0 {
        lemma_resolve_indexes_len(idxs.drop_first(), table);
    }
}

/// The key count of a lookup list is its first lookup's contribution plus
/// the rest's.
proof fn lemma_lookup_key_count_first(lookups: Seq<MessageAddressTableLookupV>)
    requires
        lookups.len() > 0,
    ensures
        spec_lookup_key_count(lookups) == lookups[0].writable_indexes.len()
            + lookups[0].readonly_indexes.len() + spec_lookup_key_count(lookups.drop_first()),
    decreases lookups.len(),
{
    if lookups.len() == 1 {
        assert(lookups.drop_first() =~= Seq::<MessageAddressTableLookupV>::empty());
        assert(lookups.drop_last() =~= Seq::<MessageAddressTableLookupV>::empty());
    } else {
        lemma_lookup_key_count_first(lookups.drop_last());
        assert(lookups.drop_last().drop_first() =~= lookups.drop_first().drop_last());
        assert(lookups.drop_last()[0] == lookups[0]);
        assert(lookups.drop_first().last() == lookups.last());
    }
}

/// The addresses a table holds at the given indices.
fn resolve_indexes_exec(idxs: &Vec<u8>, table: &ResolvedLookupTable) -> (r: Option<Vec<Pubkey>>)
    ensures
        match r {
            Some(keys) => resolve_indexes(idxs@, table@.addresses) == Some(keys.deep_view()),
            None => resolve_indexes(idxs@, table@.addresses) is None,
        },
{
    let n = idxs.len();
    let mut out: Vec<Pubkey> = Vec::new();
    proof {
        assert(idxs@.subrange(0, n as int) =~= idxs@);
        assert(out.deep_view() =~= Seq::<Seq<u8>>::empty());
        match resolve_indexes(idxs@, table@.addresses) {
            Some(t) => {
                assert(Seq::<Seq<u8>>::empty() + t =~= t);
            },
            None => {},
        }
    }
    let mut i: usize = 0;
    while i < n
        invariant
            n == idxs@.len(),
            0 <= i <= n,
            out@.len() == i,
            ({
                let full = resolve_indexes(idxs@, table@.addresses);
                match resolve_indexes(idxs@.subrange(i as int, n as int), table@.addresses) {
                    Some(tail) => full == Some(out.deep_view() + tail),
                    None => full is None,
                }
            }),
        decreases n - i,
    {
        proof {
            assert(idxs@.subrange(i as int, n as int).len() > 0);
            assert(idxs@.subrange(i as int, n as int)[0] == idxs@[i as int]);
            assert(idxs@.subrange(i as int, n as int).drop_first() =~= idxs@.subrange(
                i + 1 as int,
                n as int,
            ));
        }
        let idx = idxs[i] as usize;
        if idx >= table.addresses.len() {
            return None;
        }
        let ghost before = out.deep_view();
        let ghost k = table.addresses@[idx as int]@;
        out.push(table.addresses[idx].dup());
        proof {
            assert(out.deep_view() =~= before.push(k));
            assert forall|t0: Seq<Seq<u8>>| true implies before + (seq![k] + t0) =~= before.push(k)
                + t0 by {}
        }
        i = i + 1;
    }
    proof {
        assert(idxs@.subrange(n as int, n as int) =~= Seq::<u8>::empty());
        assert(out.deep_view() + Seq::<Seq<u8>>::empty() =~= out.deep_view());
    }
    Some(out)
}

/// Builds the declared position list: static keys with their header flags,
/// then each lookup's writable and readonly entries.
#[verifier::loop_isolation(false)]
fn expected_metas(
    message: &VaultTransactionMessage,
    lookup_tables: &Vec<ResolvedLookupTable>,
) -> (r: Option<Vec<AccountMeta>>)
    requires
        message.spec_valid(),
        lookup_tables@.len() == message.address_table_lookups@.len(),
    ensures
        match r {
            Some(d) => spec_expected_metas(message@, lookup_tables.deep_view()) == Some(
                d.deep_view(),
            ),
            None => spec_expected_metas(message@, lookup_tables.deep_view()) is None,
        },
{
    let n_static = message.account_keys.len();
    let mut out: Vec<AccountMeta> = Vec::new();
    let mut i: usize = 0;
    while i < n_static
        invariant
            n_static == message.account_keys@.len(),
            0 <= i <= n_static,
            out.deep_view() =~= Seq::new(
                i as nat,
                |q: int|
                    AccountMetaV {
                        pubkey: message@.account_keys[q],
                        is_signer: spec_is_signer_index(message@, q),
                        is_writable: spec_is_static_writable_index(message@, q),
                    },
            ),
        decreases n_static - i,
    {
        let is_signer = message.is_signer_index(i);
        let is_writable = message.is_static_writable_index(i);
        let ghost before = out.deep_view();
        out.push(AccountMeta { pubkey: message.account_keys[i].dup(), is_signer, is_writable });
        proof {
            assert(out.deep_view() =~= before.push(
                AccountMetaV {
                    pubkey: message@.account_keys[i as int],
                    is_signer: spec_is_signer_index(message@, i as int),
                    is_writable: spec_is_static_writable_index(message@, i as int),
                },
            ));
            assert(out.deep_view() =~= Seq::new(
                (i + 1) as nat,
                |q: int|
                    AccountMetaV {
                        pubkey: message@.account_keys[q],
                        is_signer: spec_is_signer_index(message@, q),
                        is_writable: spec_is_static_writable_index(message@, q),
                    },
            ));
        }
        i = i + 1;
    }
    let ghost static_metas = out.deep_view();
    let n_lookups = lookup_tables.len();
    proof {
        let lookups = message@.address_table_lookups;
        let tables = lookup_tables.deep_view();
        assert(lookups.subrange(0, n_lookups as int) =~= lookups);
        assert(tables.subrange(0, n_lookups as int) =~= tables);
        assert(out.deep_view().subrange(static_metas.len() as int, out.deep_view().len() as int)
            =~= Seq::<AccountMetaV>::empty());
        match expected_of_lookups(lookups, tables) {
            Some(t) => {
                assert(Seq::<AccountMetaV>::empty() + t =~= t);
            },
            None => {},
        }
        assert(out.deep_view().subrange(0, static_metas.len() as int) =~= static_metas);
    }
    let mut li: usize = 0;
    while li < n_lookups
        invariant
            n_lookups == lookup_tables@.len(),
            n_lookups == message.address_table_lookups@.len(),
            0 <= li <= n_lookups,
            ({
                let lookups = message@.address_table_lookups;
                let tables = lookup_tables.deep_view();
                let full = expected_of_lookups(lookups, tables);
                match expected_of_lookups(
                    lookups.subrange(li as int, n_lookups as int),
                    tables.subrange(li as int, n_lookups as int),
                ) {
                    Some(tail) => full == Some(
                        (out.deep_view().subrange(
                            static_metas.len() as int,
                            out.deep_view().len() as int,
                        )) + tail,
                    ),
                    None => full is None,
                }
            }),
            out.deep_view().subrange(0, static_metas.len() as int) =~= static_metas,
            out.deep_view().len() >= static_metas.len(),
        decreases n_lookups - li,
    {
        proof {
            let lookups = message@.address_table_lookups;
            let tables = lookup_tables.deep_view();
            assert(lookups.subrange(li as int, n_lookups as int).len() > 0);
            assert(lookups.subrange(li as int, n_lookups as int)[0] == lookups[li as int]);
            assert(tables.subrange(li as int, n_lookups as int)[0] == tables[li as int]);
            assert(lookups.subrange(li as int, n_lookups as int).drop_first() =~= lookups.subrange(
                li + 1 as int,
                n_lookups as int,
            ));
            assert(tables.subrange(li as int, n_lookups as int).drop_first() =~= tables.subrange(
                li + 1 as int,
                n_lookups as int,
            ));
        }
        let lookup = &message.address_table_lookups[li];
        let table = &lookup_tables[li];
        if !lookup.account_key.eq_key(&table.key) {
            return None;
        }
        let writable = match resolve_indexes_exec(&lookup.writable_indexes, table) {
            Some(w) => w,
            None => {
                return None;
            },
        };
        let readonly = match resolve_indexes_exec(&lookup.readonly_indexes, table) {
            Some(ro) => ro,
            None => {
                return None;
            },
        };
        let ghost head = expected_of_lookup(
            message@.address_table_lookups[li as int],
            lookup_tables.deep_view()[li as int],
        )->Some_0;
        let ghost dynamic_before = out.deep_view().subrange(
            static_metas.len() as int,
            out.deep_view().len() as int,
        );
        proof {
            assert(out.deep_view() =~= dynamic_prefix_frame(static_metas, dynamic_before));
        }
        let wn = writable.len();
        let mut wi: usize = 0;
        while wi < wn
            invariant
                wn == writable@.len(),
                0 <= wi <= wn,
                out.deep_view() =~= dynamic_prefix_frame(static_metas, dynamic_before)
                    + writable.deep_view().subrange(0, wi as int).map_values(
                    |k: Seq<u8>| AccountMetaV { pubkey: k, is_signer: false, is_writable: true },
                ),
            decreases wn - wi,
        {
            let ghost before = out.deep_view();
            out.push(
                AccountMeta { pubkey: writable[wi].dup(), is_signer: false, is_writable: true },
            );
            proof {
                assert(out.deep_view() =~= before.push(
                    AccountMetaV {
                        pubkey: writable.deep_view()[wi as int],
                        is_signer: false,
                        is_writable: true,
                    },
                ));
                assert(out.deep_view() =~= dynamic_prefix_frame(static_metas, dynamic_before)
                    + writable.deep_view().subrange(0, wi + 1 as int).map_values(
                    |k: Seq<u8>| AccountMetaV { pubkey: k, is_signer: false, is_writable: true },
                ));
            }
            wi = wi + 1;
        }
        proof {
            assert(writable.deep_view().subrange(0, wn as int) =~= writable.deep_view());
        }
        let ghost after_writable = out.deep_view();
        let rn = readonly.len();
        let mut ri: usize = 0;
        while ri < rn
            invariant
                rn == readonly@.len(),
                0 <= ri <= rn,
                out.deep_view() =~= after_writable + readonly.deep_view().subrange(
                    0,
                    ri as int,
                ).map_values(
                    |k: Seq<u8>| AccountMetaV { pubkey: k, is_signer: false, is_writable: false },
                ),
            decreases rn - ri,
        {
            let ghost before = out.deep_view();
            out.push(
                AccountMeta { pubkey: readonly[ri].dup(), is_signer: false, is_writable: false },
            );
            proof {
                assert(out.deep_view() =~= before.push(
                    AccountMetaV {
                        pubkey: readonly.deep_view()[ri as int],
                        is_signer: false,
                        is_writable: false,
                    },
                ));
                assert(out.deep_view() =~= after_writable + readonly.deep_view().subrange(
                    0,
                    ri + 1 as int,
                ).map_values(
                    |k: Seq<u8>| AccountMetaV { pubkey: k, is_signer: false, is_writable: false },
                ));
            }
            ri = ri + 1;
        }
        proof {
            assert(readonly.deep_view().subrange(0, rn as int) =~= readonly.deep_view());
            assert(head =~= writable.deep_view().map_values(
                |k: Seq<u8>| AccountMetaV { pubkey: k, is_signer: false, is_writable: true },
            ) + readonly.deep_view().map_values(
                |k: Seq<u8>| AccountMetaV { pubkey: k, is_signer: false, is_writable: false },
            ));
            assert(out.deep_view() =~= static_metas + (dynamic_before + head));
            assert(out.deep_view().subrange(0, static_metas.len() as int) =~= static_metas);
            assert(out.deep_view().subrange(static_metas.len() as int, out.deep_view().len() as int)
                =~= dynamic_before + head);
        }
        li = li + 1;
    }
    proof {
        let lookups = message@.address_table_lookups;
        let tables = lookup_tables.deep_view();
        assert(lookups.subrange(n_lookups as int, n_lookups as int)
            =~= Seq::<MessageAddressTableLookupV>::empty());
        assert(tables.subrange(n_lookups as int, n_lookups as int)
            =~= Seq::<ResolvedLookupTableV>::empty());
        let dynamic = out.deep_view().subrange(
            static_metas.len() as int,
            out.deep_view().len() as int,
        );
        assert(dynamic + Seq::<AccountMetaV>::empty() =~= dynamic);
        assert(static_metas =~= Seq::new(
            message@.account_keys.len(),
            |q: int|
                AccountMetaV {
                    pubkey: message@.account_keys[q],
                    is_signer: spec_is_signer_index(message@, q),
                    is_writable: spec_is_static_writable_index(message@, q),
                },
        ));
        assert(out.deep_view() =~= static_metas + dynamic);
    }
    Some(out)
}

/// The positions accumulated so far: the static part and the dynamic part
/// built from the lookups already processed.
pub open spec fn dynamic_prefix_frame(
    static_metas: Seq<AccountMetaV>,
    dynamic_before: Seq<AccountMetaV>,
) -> Seq<AccountMetaV> {
    static_metas + dynamic_before
}

} // verus!
