//! The records that claim processing reads and writes.

use vstd::prelude::*;
use crate::bytes::{bytes32_eq, u64_le_bytes, u64_to_le, Pubkey};
use crate::error::ErrorCode;

verus! {

/// Thirty days, the usual length of a period.
pub const DEFAULT_MONTH_SECONDS: i64 = 2_592_000;

/// The bytes `grant`, first seed of a grant's address.
pub const GRANT_SEED: [u8; 5] = [0x67, 0x72, 0x61, 0x6e, 0x74];

/// What is wrong with the terms of a grant, if anything is: it has to pay
/// something, and its periods have to have a length.
pub open spec fn terms_error(amount_per_period: u64, period_seconds: i64) -> Option<ErrorCode> {
    if amount_per_period == 0 {
        Some(ErrorCode::InvalidAmount)
    } else if period_seconds <= 0 {
        Some(ErrorCode::InvalidPeriod)
    } else {
        None
    }
}

/// A distribution campaign: a fixed amount of one token, paid once per
/// period to each recipient.
#[derive(Clone, Copy, Debug, PartialEq, Eq)]
pub struct Grant {
    /// Who created the grant and may administer it.
    pub authority: Pubkey,
    /// The token that is paid out.
    pub mint: Pubkey,
    /// The token account that holds the funds.
    pub vault: Pubkey,
    /// Number that tells apart the grants of one authority and mint.
    pub grant_id: u64,
    /// Amount paid per period, in the token's smallest unit.
    pub amount_per_period: u64,
    /// Length of a period in seconds.
    pub period_seconds: i64,
    /// Unix time at which period 0 starts.
    pub start_ts: i64,
    /// Unix time after which nothing is paid; 0 for no expiry.
    pub expires_at: i64,
    /// Root of the allowlist; all zero when the grant has none.
    pub merkle_root: [u8; 32],
    /// Whether claims are suspended.
    pub paused: bool,
    /// Bump of the grant's derived address.
    pub bump: u8,
}

impl Grant {
    /// What holds of every grant once it was created: it pays something, and
    /// its periods have a length.
    pub open spec fn wf(&self) -> bool {
        self.amount_per_period > 0 && self.period_seconds > 0
    }

    /// The seeds with which the grant signs for its vault: the word `grant`,
    /// authority, mint, the grant's number in eight bytes least significant
    /// first, and the bump.
    pub open spec fn signer_seeds_spec(&self) -> Seq<Seq<u8>> {
        seq![
            GRANT_SEED@,
            self.authority@,
            self.mint@,
            u64_to_le(self.grant_id),
            seq![self.bump],
        ]
    }

    /// Checks that the grant meets [`Grant::wf`], and tells what is wrong
    /// with its terms where it does not.
    pub fn require_wf(&self) -> (r: Result<(), ErrorCode>)
        ensures
            r == (match terms_error(self.amount_per_period, self.period_seconds) {
                Some(e) => Err::<(), ErrorCode>(e),
                None => Ok::<(), ErrorCode>(()),
            }),
            r is Ok == self.wf(),
    {
        if self.amount_per_period == 0 {
            return Err(ErrorCode::InvalidAmount);
        }
        if self.period_seconds <= 0 {
            return Err(ErrorCode::InvalidPeriod);
        }
        Ok(())
    }

    /// The seeds with which the grant signs for its vault.
    pub fn signer_seeds(&self) -> (seeds: Vec<Vec<u8>>)
        ensures
            seeds@.len() == 5,
            forall|i: int| 0 <= i < 5 ==> (#[trigger] seeds@[i])@ == self.signer_seeds_spec()[i],
    {
        let id_bytes: [u8; 8] = u64_le_bytes(self.grant_id);
        let mut word: Vec<u8> = Vec::new();
        word.extend_from_slice(GRANT_SEED.as_slice());
        let mut authority: Vec<u8> = Vec::new();
        authority.extend_from_slice(self.authority.as_slice());
        let mut mint: Vec<u8> = Vec::new();
        mint.extend_from_slice(self.mint.as_slice());
        let mut id: Vec<u8> = Vec::new();
        id.extend_from_slice(id_bytes.as_slice());
        let mut bump: Vec<u8> = Vec::new();
        bump.push(self.bump);
        let mut seeds: Vec<Vec<u8>> = Vec::new();
        seeds.push(word);
        seeds.push(authority);
        seeds.push(mint);
        seeds.push(id);
        seeds.push(bump);
        assert(seeds@[4]@ =~= seq![self.bump]);
        seeds
    }
}

/// Proof that one recipient has drawn the amount of one period.
#[derive(Clone, Copy, Debug, PartialEq, Eq)]
pub struct ClaimReceipt {
    /// The grant that paid.
    pub grant: Pubkey,
    /// The recipient.
    pub claimer: Pubkey,
    /// The period that was paid for.
    pub period_index: u64,
    /// Unix time of the claim.
    pub claimed_at: i64,
}

impl ClaimReceipt {
    /// Whether the receipt is the one for this grant, recipient and period.
    pub open spec fn is_for(&self, grant: Pubkey, claimer: Pubkey, period_index: u64) -> bool {
        self.grant == grant && self.claimer == claimer && self.period_index == period_index
    }
}

/// The key that an authority trusts to sign proofs of process.
#[derive(Clone, Copy, Debug, PartialEq, Eq)]
pub struct PopConfig {
    /// The authority that registered the signer.
    pub authority: Pubkey,
    /// The trusted signer.
    pub signer_pubkey: Pubkey,
    /// Bump of the record's derived address.
    pub bump: u8,
}

/// Where the proof chain of a grant stands.
#[derive(Clone, Copy, Debug, PartialEq, Eq)]
pub struct PopState {
    /// The grant that the chain belongs to, once initialized.
    pub grant: Pubkey,
    /// Entry hash of the last accepted message, global chain.
    pub last_global_hash: [u8; 32],
    /// Entry hash of the last accepted message, recipient stream.
    pub last_stream_hash: [u8; 32],
    /// Period of the last accepted message.
    pub last_period_index: u64,
    /// Issuance time of the last accepted message.
    pub last_issued_at: i64,
    /// Whether any message was accepted yet.
    pub initialized: bool,
    /// Bump of the record's derived address.
    pub bump: u8,
}

/// All receipts written so far. A receipt is found by its grant, recipient
/// and period, and a second one for the same three is refused.
#[derive(Clone, Debug, PartialEq, Eq)]
pub struct ReceiptStore {
    receipts: Vec<ClaimReceipt>,
}

impl View for ReceiptStore {
    type V = Seq<ClaimReceipt>;

    /// The receipts in the order in which they were written.
    closed spec fn view(&self) -> Seq<ClaimReceipt> {
        self.receipts@
    }
}

/// Whether `receipts` has one for this grant, recipient and period.
pub open spec fn has_receipt(
    receipts: Seq<ClaimReceipt>,
    grant: Pubkey,
    claimer: Pubkey,
    period_index: u64,
) -> bool {
    exists|i: int|
        0 <= i < receipts.len() && (#[trigger] receipts[i]).is_for(grant, claimer, period_index)
}

/// Whether no two of `receipts` are for the same grant, recipient and
/// period.
pub open spec fn receipts_unique(receipts: Seq<ClaimReceipt>) -> bool {
    forall|i: int, j: int|
        0 <= i < j < receipts.len() ==> !(#[trigger] receipts[i]).is_for(
            (#[trigger] receipts[j]).grant,
            receipts[j].claimer,
            receipts[j].period_index,
        )
}

impl ReceiptStore {
    /// A store without receipts.
    pub fn new() -> (store: ReceiptStore)
        ensures
            store@ == Seq::<ClaimReceipt>::empty(),
            receipts_unique(store@),
    {
        ReceiptStore { receipts: Vec::new() }
    }

    /// The receipt for this grant, recipient and period, if there is one.
    pub fn find(&self, grant: &Pubkey, claimer: &Pubkey, period_index: u64) -> (found: Option<
        ClaimReceipt,
    >)
        ensures
            found is Some == has_receipt(self@, *grant, *claimer, period_index),
            found matches Some(receipt) ==> self@.contains(receipt) && receipt.is_for(
                *grant,
                *claimer,
                period_index,
            ),
    {
        let mut i: usize = 0;
        while i < self.receipts.len()
            invariant
                i <= self.receipts.len(),
                forall|j: int|
                    0 <= j < i ==> !(#[trigger] self.receipts@[j]).is_for(
                        *grant,
                        *claimer,
                        period_index,
                    ),
            decreases self.receipts.len() - i,
        {
            let receipt: ClaimReceipt = self.receipts[i];
            if receipt.period_index == period_index && bytes32_eq(&receipt.grant, grant)
                && bytes32_eq(&receipt.claimer, claimer) {
                assert(self@[i as int].is_for(*grant, *claimer, period_index));
                return Some(receipt);
            }
            i = i + 1;
        }
        None
    }

    /// Writes `receipt`, unless the store has one for the same grant,
    /// recipient and period already: then the store stays as it is.
    pub fn create(&mut self, receipt: ClaimReceipt) -> (r: Result<(), ErrorCode>)
        ensures
            r == (if has_receipt(
                old(self)@,
                receipt.grant,
                receipt.claimer,
                receipt.period_index,
            ) {
                Err::<(), ErrorCode>(ErrorCode::AlreadyClaimed)
            } else {
                Ok::<(), ErrorCode>(())
            }),
            r is Ok ==> final(self)@ == old(self)@.push(receipt),
            r is Err ==> *final(self) == *old(self),
            receipts_unique(old(self)@) ==> receipts_unique(final(self)@),
    {
        match self.find(&receipt.grant, &receipt.claimer, receipt.period_index) {
            Some(_) => Err(ErrorCode::AlreadyClaimed),
            None => {
                self.receipts.push(receipt);
                Ok(())
            },
        }
    }

    /// The number of receipts.
    pub fn len(&self) -> (n: usize)
        ensures
            n == self@.len(),
    {
        self.receipts.len()
    }
}

} // verus!
