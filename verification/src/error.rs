use vstd::prelude::*;

verus! {

/// Every reason for which a request is turned down.
///
/// A rejection is final for the request that caused it: nothing is retried,
/// and no state is changed.
#[derive(Clone, Copy, Debug, PartialEq, Eq, Structural)]
pub enum ErrorCode {
    /// The caller does not own the account it acts on.
    Unauthorized,
    /// The vault holds less than the amount to pay out.
    InsufficientFunds,
    /// An amount of zero.
    InvalidAmount,
    /// A period length that is not positive.
    InvalidPeriod,
    /// A start time more than a year after the present.
    InvalidStartTs,
    /// The period index of the request is not the period that is running.
    InvalidPeriodIndex,
    /// A token account of another mint than the grant's.
    MintMismatch,
    /// The grant is paused.
    Paused,
    /// The grant's expiry time has passed.
    GrantExpired,
    /// The grant's start time is still ahead.
    GrantNotStarted,
    /// A timestamp or offset computation left the range of its type.
    MathOverflow,
    /// Not returned by any function of this library: a claim without a
    /// membership proof on a grant with an allowlist is refused with
    /// `NotInAllowlist`. The variant keeps its place among the others.
    AllowlistRequired,
    /// The request carries a membership proof, and the grant has no allowlist.
    AllowlistNotEnabled,
    /// The grant has an allowlist, and the request carries no membership
    /// proof or one that does not lead to the grant's allowlist root.
    NotInAllowlist,
    /// The signer registration belongs to another authority than the grant's.
    InvalidPopConfigAuthority,
    /// No instruction stands right before the claim in its transaction.
    MissingPopSignatureInstruction,
    /// The instruction before the claim is not addressed to the signature
    /// verification program.
    InvalidPopSignatureProgram,
    /// The signature instruction's data does not have the supported layout.
    InvalidPopSignatureData,
    /// The proof was signed by another key than the registered one.
    InvalidPopSigner,
    /// The proof message starts with an unknown version byte.
    InvalidPopMessageVersion,
    /// The proof message does not have the length of its version.
    InvalidPopMessageLength,
    /// The proof message names another grant.
    PopProofGrantMismatch,
    /// The proof message names another recipient.
    PopProofClaimerMismatch,
    /// The proof message names another period.
    PopProofPeriodMismatch,
    /// The proof was issued too long before, or after, the present.
    PopProofExpired,
    /// The entry hash of the proof message is not the hash of its fields.
    PopEntryHashMismatch,
    /// The proof message does not continue the recorded global chain.
    PopHashChainBroken,
    /// The proof message does not continue the recorded stream chain.
    PopStreamChainBroken,
    /// The first proof message of a chain names a predecessor.
    PopGenesisMismatch,
    /// The recorded chain belongs to another grant.
    PopStateGrantMismatch,
    /// A version 2 proof message without an audit hash.
    PopAuditHashMissing,
    /// A receipt for this grant, recipient and period exists already.
    AlreadyClaimed,
}

impl ErrorCode {
    /// The text that tells a user what went wrong.
    pub open spec fn message_spec(self) -> Seq<char> {
        match self {
            ErrorCode::Unauthorized => "Unauthorized"@,
            ErrorCode::InsufficientFunds => "Insufficient funds"@,
            ErrorCode::InvalidAmount => "Invalid amount"@,
            ErrorCode::InvalidPeriod => "Invalid period"@,
            ErrorCode::InvalidStartTs => "Invalid start timestamp"@,
            ErrorCode::InvalidPeriodIndex => "Invalid period index"@,
            ErrorCode::MintMismatch => "Mint mismatch"@,
            ErrorCode::Paused => "Grant is paused"@,
            ErrorCode::GrantExpired => "Grant expired"@,
            ErrorCode::GrantNotStarted => "Grant not started"@,
            ErrorCode::MathOverflow => "Math overflow"@,
            ErrorCode::AllowlistRequired => "Allowlist is required for this grant"@,
            ErrorCode::AllowlistNotEnabled => "Allowlist is not enabled"@,
            ErrorCode::NotInAllowlist => "Claimer is not in allowlist"@,
            ErrorCode::InvalidPopConfigAuthority => "PoP config authority mismatch"@,
            ErrorCode::MissingPopSignatureInstruction => "Missing PoP signature instruction"@,
            ErrorCode::InvalidPopSignatureProgram => "Invalid PoP signature program"@,
            ErrorCode::InvalidPopSignatureData => "Invalid PoP signature data"@,
            ErrorCode::InvalidPopSigner => "Invalid PoP signer"@,
            ErrorCode::InvalidPopMessageVersion => "Invalid PoP message version"@,
            ErrorCode::InvalidPopMessageLength => "Invalid PoP message length"@,
            ErrorCode::PopProofGrantMismatch => "PoP proof grant mismatch"@,
            ErrorCode::PopProofClaimerMismatch => "PoP proof claimer mismatch"@,
            ErrorCode::PopProofPeriodMismatch => "PoP proof period mismatch"@,
            ErrorCode::PopProofExpired => "PoP proof expired"@,
            ErrorCode::PopEntryHashMismatch => "PoP entry hash mismatch"@,
            ErrorCode::PopHashChainBroken => "PoP hash chain continuity is broken"@,
            ErrorCode::PopStreamChainBroken => "PoP stream chain continuity is broken"@,
            ErrorCode::PopGenesisMismatch => "PoP genesis hash mismatch"@,
            ErrorCode::PopStateGrantMismatch => "PoP state grant mismatch"@,
            ErrorCode::PopAuditHashMissing => "PoP audit hash is missing"@,
            ErrorCode::AlreadyClaimed => "Already claimed for this period"@,
        }
    }

    /// The text that tells a user what went wrong.
    pub fn message(&self) -> (text: &'static str)
        ensures
            text@ == self.message_spec(),
    {
        match self {
            ErrorCode::Unauthorized => "Unauthorized",
            ErrorCode::InsufficientFunds => "Insufficient funds",
            ErrorCode::InvalidAmount => "Invalid amount",
            ErrorCode::InvalidPeriod => "Invalid period",
            ErrorCode::InvalidStartTs => "Invalid start timestamp",
            ErrorCode::InvalidPeriodIndex => "Invalid period index",
            ErrorCode::MintMismatch => "Mint mismatch",
            ErrorCode::Paused => "Grant is paused",
            ErrorCode::GrantExpired => "Grant expired",
            ErrorCode::GrantNotStarted => "Grant not started",
            ErrorCode::MathOverflow => "Math overflow",
            ErrorCode::AllowlistRequired => "Allowlist is required for this grant",
            ErrorCode::AllowlistNotEnabled => "Allowlist is not enabled",
            ErrorCode::NotInAllowlist => "Claimer is not in allowlist",
            ErrorCode::InvalidPopConfigAuthority => "PoP config authority mismatch",
            ErrorCode::MissingPopSignatureInstruction => "Missing PoP signature instruction",
            ErrorCode::InvalidPopSignatureProgram => "Invalid PoP signature program",
            ErrorCode::InvalidPopSignatureData => "Invalid PoP signature data",
            ErrorCode::InvalidPopSigner => "Invalid PoP signer",
            ErrorCode::InvalidPopMessageVersion => "Invalid PoP message version",
            ErrorCode::InvalidPopMessageLength => "Invalid PoP message length",
            ErrorCode::PopProofGrantMismatch => "PoP proof grant mismatch",
            ErrorCode::PopProofClaimerMismatch => "PoP proof claimer mismatch",
            ErrorCode::PopProofPeriodMismatch => "PoP proof period mismatch",
            ErrorCode::PopProofExpired => "PoP proof expired",
            ErrorCode::PopEntryHashMismatch => "PoP entry hash mismatch",
            ErrorCode::PopHashChainBroken => "PoP hash chain continuity is broken",
            ErrorCode::PopStreamChainBroken => "PoP stream chain continuity is broken",
            ErrorCode::PopGenesisMismatch => "PoP genesis hash mismatch",
            ErrorCode::PopStateGrantMismatch => "PoP state grant mismatch",
            ErrorCode::PopAuditHashMissing => "PoP audit hash is missing",
            ErrorCode::AlreadyClaimed => "Already claimed for this period",
        }
    }
}

} // verus!
