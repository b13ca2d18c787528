//! The escrow: a conditional-payment contract that trades control of the
//! wallet (its member set and threshold) for a deposit. Its payment leg is
//! planned here and performed by the host: a checked token transfer when
//! the escrow declares a mint, a native transfer otherwise.

use vstd::prelude::*;

use crate::error::MultisigError;
use crate::pubkey::{opt_key_view, Pubkey};
use crate::state::multi_wallet::{Member, MemberV};

verus! {

/// Where an escrow's payment goes: the amount, the receiving party (fixed
/// at creation for owner-initiated escrows), and the token mint (`None`
/// means the native token).
pub struct Recipient {
    pub amount: u64,
    pub pubkey: Option<Pubkey>,
    pub mint: Option<Pubkey>,
}

/// Abstract value of a [`Recipient`].
pub struct RecipientV {
    pub amount: u64,
    pub pubkey: Option<Seq<u8>>,
    pub mint: Option<Seq<u8>>,
}

impl View for Recipient {
    type V = RecipientV;

    open spec fn view(&self) -> RecipientV {
        RecipientV {
            amount: self.amount,
            pubkey: opt_key_view(self.pubkey),
            mint: opt_key_view(self.mint),
        }
    }
}

/// An owned copy of a recipient.
pub fn dup_recipient(r: &Recipient) -> (out: Recipient)
    ensures
        out@ == r@,
{
    Recipient {
        amount: r.amount,
        pubkey: crate::pubkey::dup_opt_key(&r.pubkey),
        mint: crate::pubkey::dup_opt_key(&r.mint),
    }
}

/// A pending wallet-control trade. Owner-initiated escrows (`proposer` is
/// `None`) fix the receiving party and wait for a counterparty to claim;
/// non-owner-initiated ones record the depositing proposer and the
/// replacement configuration they offer.
pub struct Escrow {
    /// The owning wallet's identity seed.
    pub create_key: Pubkey,
    /// Disambiguates concurrent escrows of one wallet.
    pub identifier: u64,
    /// Storage bump of the escrow's derived address.
    pub bump: u8,
    /// The depositing proposer; `None` for owner-initiated escrows.
    pub proposer: Option<Pubkey>,
    /// Bump of the escrow's own vault; present only when a deposit is held.
    pub vault_bump: Option<u8>,
    /// The payment leg.
    pub recipient: Recipient,
    /// The replacement member list a non-owner proposer offers.
    pub new_members: Option<Vec<Member>>,
    /// The replacement threshold a non-owner proposer offers.
    pub threshold: Option<u8>,
}

/// Abstract value of an [`Escrow`].
pub struct EscrowV {
    pub create_key: Seq<u8>,
    pub identifier: u64,
    pub bump: u8,
    pub proposer: Option<Seq<u8>>,
    pub vault_bump: Option<u8>,
    pub recipient: RecipientV,
    pub new_members: Option<Seq<MemberV>>,
    pub threshold: Option<u8>,
}

impl View for Escrow {
    type V = EscrowV;

    open spec fn view(&self) -> EscrowV {
        EscrowV {
            create_key: self.create_key@,
            identifier: self.identifier,
            bump: self.bump,
            proposer: opt_key_view(self.proposer),
            vault_bump: self.vault_bump,
            recipient: self.recipient@,
            new_members: match self.new_members {
                Some(ref v) => Some(v.deep_view()),
                None => None,
            },
            threshold: self.threshold,
        }
    }
}

impl Escrow {
    /// The two shapes the engine creates: a non-owner-initiated escrow
    /// carries its deposit vault and the offered replacement
    /// configuration; an owner-initiated one carries neither but fixes
    /// the receiving party.
    pub open spec fn spec_shape(&self) -> bool {
        match self.proposer {
            Some(_) => {
                &&& self.vault_bump is Some
                &&& self.new_members is Some
                &&& self.threshold is Some
            },
            None => {
                &&& self.vault_bump is None
                &&& self.new_members is None
                &&& self.threshold is None
                &&& self.recipient.pubkey is Some
            },
        }
    }

    /// Bytes of storage an escrow account with the given replacement
    /// member count occupies.
    pub fn size(new_members_length: usize) -> (r: usize)
        requires
            new_members_length * 34 + 170 <= usize::MAX,
        ensures
            r == 170 + new_members_length * 34,
    {
        8  // account discriminator
         + 32  // create_key
         + 8  // identifier
         + 1  // bump
         + 1  // proposer option tag
         + 32  // proposer
         + 1  // vault bump
         + 80  // recipient
         + 1  // members option tag
         + 4  // members vector length
         + new_members_length * 34  // members
         + 2  // threshold
    }

    /// Plans this escrow's payment leg.
    ///
    /// Nothing moves for a zero amount. When the escrow declares a mint,
    /// the supplied mint, the two token accounts and the token program are
    /// all required and the mint must match; the plan is then a checked
    /// token transfer, closing the source account afterwards when the
    /// supplied source reports a zero balance. Without a declared mint the
    /// two native parties are required and the plan is a native transfer.
    /// Either plan is authorized by the escrow's own vault when one is
    /// supplied, and by `payer` otherwise.
    pub fn escrow_transfer(
        &self,
        mint: &Option<Pubkey>,
        from: &Option<TokenAccountInfo>,
        to: &Option<TokenAccountInfo>,
        from_native: &Option<Pubkey>,
        to_native: &Option<Pubkey>,
        escrow_vault: &Option<Pubkey>,
        payer: &Pubkey,
        token_program: bool,
    ) -> (r: Result<Option<TransferPlan>, MultisigError>)
        ensures
            match r {
                Ok(plan) => spec_transfer_error(
                    self@.recipient,
                    opt_key_view(*mint),
                    opt_token_view(*from),
                    opt_token_view(*to),
                    opt_key_view(*from_native),
                    opt_key_view(*to_native),
                    token_program,
                ) is None && opt_plan_view(plan) == spec_transfer_plan(
                    self@.recipient,
                    opt_token_view(*from),
                    opt_token_view(*to),
                    opt_key_view(*from_native),
                    opt_key_view(*to_native),
                    escrow_vault is Some,
                ),
                Err(e) => Some(e) == spec_transfer_error(
                    self@.recipient,
                    opt_key_view(*mint),
                    opt_token_view(*from),
                    opt_token_view(*to),
                    opt_key_view(*from_native),
                    opt_key_view(*to_native),
                    token_program,
                ),
            },
    {
        if self.recipient.amount == 0 {
            return Ok(None);
        }
        let vault_authority = escrow_vault.is_some();
        match &self.recipient.mint {
            Some(expected_mint) => {
                let mint_key = match mint {
                    Some(k) => k,
                    None => {
                        return Err(MultisigError::MissingAccount);
                    },
                };
                let from_account = match from {
                    Some(a) => a,
                    None => {
                        return Err(MultisigError::MissingAccount);
                    },
                };
                let to_account = match to {
                    Some(a) => a,
                    None => {
                        return Err(MultisigError::MissingAccount);
                    },
                };
                if !token_program {
                    return Err(MultisigError::MissingAccount);
                }
                if !expected_mint.eq_key(mint_key) {
                    return Err(MultisigError::MissingAccount);
                }
                Ok(
                    Some(
                        TransferPlan::Token {
                            mint: expected_mint.dup(),
                            from: from_account.key.dup(),
                            to: to_account.key.dup(),
                            amount: self.recipient.amount,
                            vault_authority,
                            close_source: from_account.amount == 0,
                        },
                    ),
                )
            },
            None => {
                let from_key = match from_native {
                    Some(k) => k,
                    None => {
                        return Err(MultisigError::MissingAccount);
                    },
                };
                let to_key = match to_native {
                    Some(k) => k,
                    None => {
                        return Err(MultisigError::MissingAccount);
                    },
                };
                Ok(
                    Some(
                        TransferPlan::Native {
                            from: from_key.dup(),
                            to: to_key.dup(),
                            amount: self.recipient.amount,
                            vault_authority,
                        },
                    ),
                )
            },
        }
    }
}

/// What the planner reads of a supplied token account: its address and its
/// reported balance.
pub struct TokenAccountInfo {
    pub key: Pubkey,
    pub amount: u64,
}

/// Abstract value of a [`TokenAccountInfo`].
pub struct TokenAccountInfoV {
    pub key: Seq<u8>,
    pub amount: u64,
}

impl View for TokenAccountInfo {
    type V = TokenAccountInfoV;

    open spec fn view(&self) -> TokenAccountInfoV {
        TokenAccountInfoV { key: self.key@, amount: self.amount }
    }
}

/// View of an optional token account.
pub open spec fn opt_token_view(t: Option<TokenAccountInfo>) -> Option<TokenAccountInfoV> {
    match t {
        Some(a) => Some(a@),
        None => None,
    }
}

/// One balance movement the host must perform.
pub enum TransferPlan {
    /// Move `amount` native units from `from` to `to`. When
    /// `vault_authority` holds, the source is the escrow's vault and the
    /// host signs with the escrow's derived seeds.
    Native { from: Pubkey, to: Pubkey, amount: u64, vault_authority: bool },
    /// Move `amount` units of `mint` between the token accounts, by a
    /// checked token transfer; close the source token account afterwards
    /// when `close_source` holds. When `vault_authority` holds the host
    /// signs with the escrow's derived seeds.
    Token {
        mint: Pubkey,
        from: Pubkey,
        to: Pubkey,
        amount: u64,
        vault_authority: bool,
        close_source: bool,
    },
}

/// Abstract value of a [`TransferPlan`].
pub enum TransferPlanV {
    Native { from: Seq<u8>, to: Seq<u8>, amount: u64, vault_authority: bool },
    Token {
        mint: Seq<u8>,
        from: Seq<u8>,
        to: Seq<u8>,
        amount: u64,
        vault_authority: bool,
        close_source: bool,
    },
}

impl View for TransferPlan {
    type V = TransferPlanV;

    open spec fn view(&self) -> TransferPlanV {
        match self {
            TransferPlan::Native { from, to, amount, vault_authority } => TransferPlanV::Native {
                from: from@,
                to: to@,
                amount: *amount,
                vault_authority: *vault_authority,
            },
            TransferPlan::Token {
                mint,
                from,
                to,
                amount,
                vault_authority,
                close_source,
            } => TransferPlanV::Token {
                mint: mint@,
                from: from@,
                to: to@,
                amount: *amount,
                vault_authority: *vault_authority,
                close_source: *close_source,
            },
        }
    }
}

/// View of an optional transfer plan.
pub open spec fn opt_plan_view(p: Option<TransferPlan>) -> Option<TransferPlanV> {
    match p {
        Some(plan) => Some(plan@),
        None => None,
    }
}

/// The amount a plan moves.
pub open spec fn plan_amount(p: TransferPlanV) -> u64 {
    match p {
        TransferPlanV::Native { amount, .. } => amount,
        TransferPlanV::Token { amount, .. } => amount,
    }
}

/// The account a plan debits.
pub open spec fn plan_source(p: TransferPlanV) -> Seq<u8> {
    match p {
        TransferPlanV::Native { from, .. } => from,
        TransferPlanV::Token { from, .. } => from,
    }
}

/// The account a plan credits.
pub open spec fn plan_dest(p: TransferPlanV) -> Seq<u8> {
    match p {
        TransferPlanV::Native { to, .. } => to,
        TransferPlanV::Token { to, .. } => to,
    }
}

/// Why planning a payment is rejected, or `None` when it succeeds: once a
/// field of the escrow declares a counterpart account, that account is
/// contractually required.
pub open spec fn spec_transfer_error(
    recipient: RecipientV,
    mint: Option<Seq<u8>>,
    from: Option<TokenAccountInfoV>,
    to: Option<TokenAccountInfoV>,
    from_native: Option<Seq<u8>>,
    to_native: Option<Seq<u8>>,
    token_program: bool,
) -> Option<MultisigError> {
    if recipient.amount == 0 {
        None
    } else {
        match recipient.mint {
            Some(expected) => {
                if mint is None || from is None || to is None || !token_program {
                    Some(MultisigError::MissingAccount)
                } else if expected != mint->Some_0 {
                    Some(MultisigError::MissingAccount)
                } else {
                    None
                }
            },
            None => {
                if from_native is None || to_native is None {
                    Some(MultisigError::MissingAccount)
                } else {
                    None
                }
            },
        }
    }
}

/// The plan a successful payment produces: none for a zero amount, a
/// checked token transfer when a mint is declared, a native transfer
/// otherwise. Meaningful only when [`spec_transfer_error`] is `None`.
pub open spec fn spec_transfer_plan(
    recipient: RecipientV,
    from: Option<TokenAccountInfoV>,
    to: Option<TokenAccountInfoV>,
    from_native: Option<Seq<u8>>,
    to_native: Option<Seq<u8>>,
    vault_authority: bool,
) -> Option<TransferPlanV> {
    if recipient.amount == 0 {
        None
    } else {
        match recipient.mint {
            Some(expected) => Some(
                TransferPlanV::Token {
                    mint: expected,
                    from: from->Some_0.key,
                    to: to->Some_0.key,
                    amount: recipient.amount,
                    vault_authority,
                    close_source: from->Some_0.amount == 0,
                },
            ),
            None => Some(
                TransferPlanV::Native {
                    from: from_native->Some_0,
                    to: to_native->Some_0,
                    amount: recipient.amount,
                    vault_authority,
                },
            ),
        }
    }
}

/// An owned copy of an optional member list.
pub fn dup_opt_members(m: &Option<Vec<Member>>) -> (r: Option<Vec<Member>>)
    ensures
        match (r, m) {
            (Some(a), Some(b)) => a.deep_view() == b.deep_view(),
            (None, None) => true,
            _ => false,
        },
{
    match m {
        Some(v) => Some(crate::state::multi_wallet::dup_members(v)),
        None => None,
    }
}

} // verus!
