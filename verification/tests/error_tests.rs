use grant_program::ErrorCode;

#[test]
fn every_error_has_its_text() {
    let expected: [(ErrorCode, &str); 32] = [
        (ErrorCode::Unauthorized, "Unauthorized"),
        (ErrorCode::InsufficientFunds, "Insufficient funds"),
        (ErrorCode::InvalidAmount, "Invalid amount"),
        (ErrorCode::InvalidPeriod, "Invalid period"),
        (ErrorCode::InvalidStartTs, "Invalid start timestamp"),
        (ErrorCode::InvalidPeriodIndex, "Invalid period index"),
        (ErrorCode::MintMismatch, "Mint mismatch"),
        (ErrorCode::Paused, "Grant is paused"),
        (ErrorCode::GrantExpired, "Grant expired"),
        (ErrorCode::GrantNotStarted, "Grant not started"),
        (ErrorCode::MathOverflow, "Math overflow"),
        (ErrorCode::AllowlistRequired, "Allowlist is required for this grant"),
        (ErrorCode::AllowlistNotEnabled, "Allowlist is not enabled"),
        (ErrorCode::NotInAllowlist, "Claimer is not in allowlist"),
        (ErrorCode::InvalidPopConfigAuthority, "PoP config authority mismatch"),
        (ErrorCode::MissingPopSignatureInstruction, "Missing PoP signature instruction"),
        (ErrorCode::InvalidPopSignatureProgram, "Invalid PoP signature program"),
        (ErrorCode::InvalidPopSignatureData, "Invalid PoP signature data"),
        (ErrorCode::InvalidPopSigner, "Invalid PoP signer"),
        (ErrorCode::InvalidPopMessageVersion, "Invalid PoP message version"),
        (ErrorCode::InvalidPopMessageLength, "Invalid PoP message length"),
        (ErrorCode::PopProofGrantMismatch, "PoP proof grant mismatch"),
        (ErrorCode::PopProofClaimerMismatch, "PoP proof claimer mismatch"),
        (ErrorCode::PopProofPeriodMismatch, "PoP proof period mismatch"),
        (ErrorCode::PopProofExpired, "PoP proof expired"),
        (ErrorCode::PopEntryHashMismatch, "PoP entry hash mismatch"),
        (ErrorCode::PopHashChainBroken, "PoP hash chain continuity is broken"),
        (ErrorCode::PopStreamChainBroken, "PoP stream chain continuity is broken"),
        (ErrorCode::PopGenesisMismatch, "PoP genesis hash mismatch"),
        (ErrorCode::PopStateGrantMismatch, "PoP state grant mismatch"),
        (ErrorCode::PopAuditHashMissing, "PoP audit hash is missing"),
        (ErrorCode::AlreadyClaimed, "Already claimed for this period"),
    ];
    for (code, text) in expected {
        assert_eq!(code.message(), text);
    }
    for (i, (a, _)) in expected.iter().enumerate() {
        for (j, (b, _)) in expected.iter().enumerate() {
            assert_eq!(a == b, i == j);
        }
    }
}
