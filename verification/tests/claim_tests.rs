use grant_program::merkle::{allowlist_leaf, hash_sorted_pair};
use grant_program::message::{pop_entry_hash, PopProofMessage};
use grant_program::signature::{Instruction, InstructionsSysvar};
use grant_program::{
    check_pop_proof, claim_grant, claim_grant_with_proof, transfer_from_vault,
    verify_and_record_pop_proof, ClaimGrant, ClaimReceipt, ErrorCode, Grant, PopConfig, PopState,
    ReceiptStore,
};

const GRANT_KEY: [u8; 32] = [0x71; 32];
const CLAIMER: [u8; 32] = [0x72; 32];
const SIGNER: [u8; 32] = [0x73; 32];
const START: i64 = 1_700_000_000;
const PERIOD: i64 = 2_592_000;
const AMOUNT: u64 = 5_000;

fn ed25519_id() -> [u8; 32] {
    anchor_lang::solana_program::ed25519_program::ID.to_bytes()
}

fn sealed(mut m: PopProofMessage) -> PopProofMessage {
    m.entry_hash = pop_entry_hash(
        m.version,
        &m.prev_hash,
        &m.stream_prev_hash,
        &m.audit_hash,
        &m.grant,
        &m.claimer,
        m.period_index,
        m.issued_at,
    )
    .unwrap();
    m
}

fn message(version: u8, period_index: u64, previous: [u8; 32], issued_at: i64) -> PopProofMessage {
    sealed(PopProofMessage {
        version,
        grant: GRANT_KEY,
        claimer: CLAIMER,
        period_index,
        prev_hash: previous,
        stream_prev_hash: previous,
        audit_hash: if version == 2 { [0x0a; 32] } else { [0; 32] },
        entry_hash: [0; 32],
        issued_at,
    })
}

fn wire(m: &PopProofMessage) -> Vec<u8> {
    let mut out: Vec<u8> = vec![m.version];
    out.extend_from_slice(&m.grant);
    out.extend_from_slice(&m.claimer);
    out.extend_from_slice(&m.period_index.to_le_bytes());
    out.extend_from_slice(&m.prev_hash);
    out.extend_from_slice(&m.stream_prev_hash);
    if m.version == 2 {
        out.extend_from_slice(&m.audit_hash);
    }
    out.extend_from_slice(&m.entry_hash);
    out.extend_from_slice(&m.issued_at.to_le_bytes());
    out
}

fn signature_instruction(signer: &[u8; 32], message: &[u8]) -> Instruction {
    let mut data: Vec<u8> = vec![1, 0];
    for field in [48u16, u16::MAX, 16, u16::MAX, 112, message.len() as u16, u16::MAX] {
        data.extend_from_slice(&field.to_le_bytes());
    }
    data.extend_from_slice(signer);
    data.extend_from_slice(&[0xee; 64]);
    data.extend_from_slice(message);
    Instruction {
        program_id: ed25519_id(),
        data,
    }
}

fn claim_instruction() -> Instruction {
    Instruction {
        program_id: [0x55; 32],
        data: vec![9, 9, 9],
    }
}

fn transaction(m: &PopProofMessage) -> InstructionsSysvar {
    InstructionsSysvar {
        current_index: Some(1),
        preceding: Some(signature_instruction(&SIGNER, &wire(m))),
    }
}

fn grant() -> Grant {
    Grant {
        authority: [0x74; 32],
        mint: [0x75; 32],
        vault: [0x76; 32],
        grant_id: 1,
        amount_per_period: AMOUNT,
        period_seconds: PERIOD,
        start_ts: START,
        expires_at: 0,
        merkle_root: [0; 32],
        paused: false,
        bump: 255,
    }
}

fn fresh_state() -> PopState {
    PopState {
        grant: [0; 32],
        last_global_hash: [0; 32],
        last_stream_hash: [0; 32],
        last_period_index: 0,
        last_issued_at: 0,
        initialized: false,
        bump: 0,
    }
}

fn context(m: &PopProofMessage) -> ClaimGrant {
    ClaimGrant {
        grant_key: GRANT_KEY,
        grant: grant(),
        vault_amount: 1_000_000,
        claimer: CLAIMER,
        receipts: ReceiptStore::new(),
        pop_state: fresh_state(),
        pop_config: PopConfig {
            authority: [0x74; 32],
            signer_pubkey: SIGNER,
            bump: 254,
        },
        instructions_sysvar: transaction(m),
    }
}

fn refused(mut ctx: ClaimGrant, period_index: u64, now: i64) -> ErrorCode {
    let before = ctx.clone();
    let error = claim_grant(&mut ctx, period_index, now, 9).unwrap_err();
    assert_eq!(ctx, before);
    error
}

#[test]
fn first_claim_is_admitted_and_a_second_for_the_period_is_not() {
    let now: i64 = START + 10;
    let first = message(1, 0, [0; 32], now);
    let mut ctx = context(&first);

    assert_eq!(claim_grant(&mut ctx, 0, now, 9), Ok(AMOUNT));
    assert!(ctx.pop_state.initialized);
    assert_eq!(ctx.pop_state.last_global_hash, first.entry_hash);
    assert_eq!(ctx.pop_state.last_stream_hash, first.entry_hash);
    assert_eq!(ctx.pop_state.grant, GRANT_KEY);
    assert_eq!(ctx.pop_state.bump, 9);
    assert_eq!(ctx.pop_state.last_period_index, 0);
    assert_eq!(ctx.pop_state.last_issued_at, now);
    assert_eq!(
        ctx.receipts.find(&GRANT_KEY, &CLAIMER, 0),
        Some(ClaimReceipt {
            grant: GRANT_KEY,
            claimer: CLAIMER,
            period_index: 0,
            claimed_at: now,
        })
    );
    assert_eq!(ctx.receipts.len(), 1);

    let second = message(1, 0, first.entry_hash, now + 1);
    ctx.instructions_sysvar = transaction(&second);
    let before = ctx.clone();
    assert_eq!(
        claim_grant(&mut ctx, 0, now + 1, 9),
        Err(ErrorCode::AlreadyClaimed)
    );
    assert_eq!(ctx, before);
    assert_eq!(ctx.pop_state.last_global_hash, first.entry_hash);
}

#[test]
fn the_same_request_again_is_refused_and_changes_nothing() {
    let now: i64 = START + 10;
    let first = message(1, 0, [0; 32], now);
    let mut ctx = context(&first);
    assert_eq!(claim_grant(&mut ctx, 0, now, 9), Ok(AMOUNT));
    let before = ctx.clone();
    assert_eq!(
        claim_grant(&mut ctx, 0, now, 9),
        Err(ErrorCode::PopHashChainBroken)
    );
    assert_eq!(ctx, before);
}

#[test]
fn version_2_claim_is_admitted() {
    let now: i64 = START + PERIOD * 2 + 5;
    let m = message(2, 2, [0; 32], now - 600);
    let mut ctx = context(&m);
    assert_eq!(claim_grant(&mut ctx, 2, now, 3), Ok(AMOUNT));
    assert_eq!(ctx.pop_state.last_global_hash, m.entry_hash);
    assert_eq!(ctx.pop_state.last_period_index, 2);
    assert_eq!(ctx.pop_state.last_issued_at, now - 600);
}

#[test]
fn each_period_is_paid_once_along_the_chain() {
    let mut previous: [u8; 32] = [0; 32];
    let first = message(1, 0, previous, START);
    let mut ctx = context(&first);
    for period in 0..4u64 {
        let now: i64 = START + PERIOD * (period as i64) + 100;
        let m = message(1, period, previous, now);
        ctx.instructions_sysvar = transaction(&m);
        assert_eq!(claim_grant(&mut ctx, period, now, 9), Ok(AMOUNT));
        assert_eq!(ctx.pop_state.last_global_hash, m.entry_hash);
        previous = m.entry_hash;

        let again = message(1, period, previous, now);
        ctx.instructions_sysvar = transaction(&again);
        assert_eq!(
            claim_grant(&mut ctx, period, now, 9),
            Err(ErrorCode::AlreadyClaimed)
        );
    }
    assert_eq!(ctx.receipts.len(), 4);
    assert_eq!(ctx.pop_state.last_period_index, 3);
}

#[test]
fn two_recipients_share_the_chain_and_claim_once_each() {
    let now: i64 = START + 50;
    let first = message(1, 0, [0; 32], now);
    let mut ctx = context(&first);
    assert_eq!(claim_grant(&mut ctx, 0, now, 9), Ok(AMOUNT));

    let other: [u8; 32] = [0x7f; 32];
    let stale = sealed(PopProofMessage {
        claimer: other,
        ..message(1, 0, [0; 32], now)
    });
    ctx.claimer = other;
    ctx.instructions_sysvar = transaction(&stale);
    let before = ctx.clone();
    assert_eq!(
        claim_grant(&mut ctx, 0, now, 9),
        Err(ErrorCode::PopHashChainBroken)
    );
    assert_eq!(ctx, before);

    let chained = sealed(PopProofMessage {
        claimer: other,
        ..message(1, 0, first.entry_hash, now)
    });
    ctx.instructions_sysvar = transaction(&chained);
    assert_eq!(claim_grant(&mut ctx, 0, now, 9), Ok(AMOUNT));
    assert_eq!(ctx.receipts.len(), 2);
    assert_eq!(ctx.pop_state.last_global_hash, chained.entry_hash);
}

#[test]
fn paused_grant_pays_nothing() {
    let now: i64 = START + 10;
    let mut ctx = context(&message(1, 0, [0; 32], now));
    ctx.grant.paused = true;
    assert_eq!(refused(ctx.clone(), 0, now), ErrorCode::Paused);
    ctx.grant.merkle_root = [1; 32];
    assert_eq!(refused(ctx, 0, now), ErrorCode::Paused);
}

#[test]
fn allowlisted_grant_needs_a_membership_proof() {
    let now: i64 = START + 10;
    let mut ctx = context(&message(1, 0, [0; 32], now));
    ctx.grant.merkle_root[31] = 1;
    assert_eq!(refused(ctx.clone(), 0, now), ErrorCode::NotInAllowlist);
    ctx.grant.merkle_root = [0xff; 32];
    assert_eq!(refused(ctx.clone(), 0, now), ErrorCode::NotInAllowlist);
    ctx.grant.merkle_root = [0; 32];
    assert_eq!(claim_grant(&mut ctx, 0, now, 9), Ok(AMOUNT));
}

#[test]
fn open_grant_takes_no_membership_proof() {
    let now: i64 = START + 10;
    let mut ctx = context(&message(1, 0, [0; 32], now));
    let before = ctx.clone();
    assert_eq!(
        claim_grant_with_proof(&mut ctx, 0, Vec::new(), now, 9),
        Err(ErrorCode::AllowlistNotEnabled)
    );
    assert_eq!(
        claim_grant_with_proof(&mut ctx, 0, vec![[1; 32]], now, 9),
        Err(ErrorCode::AllowlistNotEnabled)
    );
    assert_eq!(ctx, before);
}

#[test]
fn member_claims_with_a_proof_and_others_do_not() {
    let now: i64 = START + 10;
    let mine = allowlist_leaf(CLAIMER);
    let sibling = allowlist_leaf([0x01; 32]);
    let uncle = allowlist_leaf([0x02; 32]);
    let root = hash_sorted_pair(&hash_sorted_pair(&mine, &sibling), &uncle);

    let m = message(1, 0, [0; 32], now);
    let mut ctx = context(&m);
    ctx.grant.merkle_root = root;
    let before = ctx.clone();

    assert_eq!(
        claim_grant_with_proof(&mut ctx, 0, vec![uncle, sibling], now, 9),
        Err(ErrorCode::NotInAllowlist)
    );
    assert_eq!(
        claim_grant_with_proof(&mut ctx, 0, Vec::new(), now, 9),
        Err(ErrorCode::NotInAllowlist)
    );
    let mut flipped = sibling;
    flipped[0] ^= 1;
    assert_eq!(
        claim_grant_with_proof(&mut ctx, 0, vec![flipped, uncle], now, 9),
        Err(ErrorCode::NotInAllowlist)
    );
    assert_eq!(ctx, before);

    let mut stranger = ctx.clone();
    stranger.claimer = [0x03; 32];
    assert_eq!(
        claim_grant_with_proof(&mut stranger, 0, vec![sibling, uncle], now, 9),
        Err(ErrorCode::NotInAllowlist)
    );

    assert_eq!(
        claim_grant_with_proof(&mut ctx, 0, vec![sibling, uncle], now, 9),
        Ok(AMOUNT)
    );
    assert_eq!(ctx.pop_state.last_global_hash, m.entry_hash);
    assert_eq!(ctx.receipts.len(), 1);

    let again = message(1, 0, m.entry_hash, now);
    ctx.instructions_sysvar = transaction(&again);
    assert_eq!(
        claim_grant_with_proof(&mut ctx, 0, vec![sibling, uncle], now, 9),
        Err(ErrorCode::AlreadyClaimed)
    );
}

#[test]
fn claim_needs_the_signature_instruction_before_it() {
    let now: i64 = START + 10;
    let m = message(1, 0, [0; 32], now);
    let mut first = context(&m);
    first.instructions_sysvar.current_index = Some(0);
    assert_eq!(
        refused(first, 0, now),
        ErrorCode::MissingPopSignatureInstruction
    );

    let mut apart = context(&m);
    apart.instructions_sysvar = InstructionsSysvar {
        current_index: Some(2),
        preceding: Some(claim_instruction()),
    };
    assert_eq!(refused(apart, 0, now), ErrorCode::InvalidPopSignatureProgram);

    let mut unknown = context(&m);
    unknown.instructions_sysvar.current_index = None;
    unknown.grant.paused = true;
    assert_eq!(refused(unknown.clone(), 0, now), ErrorCode::Paused);
    unknown.grant.paused = false;
    assert_eq!(
        refused(unknown, 0, now),
        ErrorCode::MissingPopSignatureInstruction
    );

    let mut unread = context(&m);
    unread.instructions_sysvar.preceding = None;
    assert_eq!(
        refused(unread, 0, now),
        ErrorCode::MissingPopSignatureInstruction
    );
}

#[test]
fn claim_refuses_signature_data_it_cannot_read() {
    let now: i64 = START + 10;
    let m = message(1, 0, [0; 32], now);
    let mut ctx = context(&m);
    let mut data = signature_instruction(&SIGNER, &wire(&m));
    data.data[0] = 2;
    ctx.instructions_sysvar.preceding = Some(data);
    assert_eq!(refused(ctx, 0, now), ErrorCode::InvalidPopSignatureData);
}

#[test]
fn claim_refuses_another_signer() {
    let now: i64 = START + 10;
    let m = message(1, 0, [0; 32], now);
    let mut ctx = context(&m);
    ctx.instructions_sysvar.preceding = Some(signature_instruction(&[0x01; 32], &wire(&m)));
    assert_eq!(refused(ctx.clone(), 0, now), ErrorCode::InvalidPopSigner);
    ctx.instructions_sysvar.preceding = Some(signature_instruction(&[0x01; 32], &[1, 2, 3]));
    assert_eq!(refused(ctx, 0, now), ErrorCode::InvalidPopSigner);
}

#[test]
fn claim_refuses_a_message_it_cannot_decode() {
    let now: i64 = START + 10;
    let m = message(1, 0, [0; 32], now);
    let mut ctx = context(&m);
    ctx.instructions_sysvar.preceding = Some(signature_instruction(&SIGNER, &[]));
    assert_eq!(refused(ctx.clone(), 0, now), ErrorCode::InvalidPopMessageLength);
    let mut bytes = wire(&m);
    bytes.pop();
    ctx.instructions_sysvar.preceding = Some(signature_instruction(&SIGNER, &bytes));
    assert_eq!(refused(ctx.clone(), 0, now), ErrorCode::InvalidPopMessageLength);
    let mut bytes = wire(&m);
    bytes[0] = 3;
    ctx.instructions_sysvar.preceding = Some(signature_instruction(&SIGNER, &bytes));
    assert_eq!(refused(ctx, 0, now), ErrorCode::InvalidPopMessageVersion);
}

#[test]
fn claim_refuses_a_proof_for_someone_or_something_else() {
    let now: i64 = START + 10;
    let m = message(1, 0, [0; 32], now);

    let mut other_grant = context(&m);
    other_grant.grant_key = [0x01; 32];
    assert_eq!(refused(other_grant, 0, now), ErrorCode::PopProofGrantMismatch);

    let mut other_claimer = context(&m);
    other_claimer.claimer = [0x01; 32];
    assert_eq!(
        refused(other_claimer, 0, now),
        ErrorCode::PopProofClaimerMismatch
    );

    assert_eq!(
        refused(context(&m), 1, now),
        ErrorCode::PopProofPeriodMismatch
    );

    let mut both = context(&m);
    both.grant_key = [0x01; 32];
    both.claimer = [0x01; 32];
    assert_eq!(refused(both, 1, now), ErrorCode::PopProofGrantMismatch);
}

#[test]
fn claim_refuses_a_message_with_a_wrong_entry_hash() {
    let now: i64 = START + 10;
    let mut m = message(1, 0, [0; 32], now);
    m.entry_hash[7] ^= 0x10;
    assert_eq!(refused(context(&m), 0, now), ErrorCode::PopEntryHashMismatch);

    let mut late = message(1, 0, [0; 32], now);
    late.issued_at += 1;
    assert_eq!(
        refused(context(&late), 0, now),
        ErrorCode::PopEntryHashMismatch
    );
}

#[test]
fn claim_refuses_version_2_without_audit_hash() {
    let now: i64 = START + 10;
    let m = sealed(PopProofMessage {
        audit_hash: [0; 32],
        ..message(2, 0, [0; 32], now)
    });
    assert_eq!(refused(context(&m), 0, now), ErrorCode::PopAuditHashMissing);
}

#[test]
fn claim_refuses_a_first_message_that_names_a_predecessor() {
    let now: i64 = START + 10;
    let m = message(1, 0, [0x01; 32], now);
    assert_eq!(refused(context(&m), 0, now), ErrorCode::PopGenesisMismatch);
}

#[test]
fn claim_refuses_a_message_off_the_recorded_chain() {
    let now: i64 = START + 10;
    let recorded = PopState {
        grant: GRANT_KEY,
        last_global_hash: [0x21; 32],
        last_stream_hash: [0x22; 32],
        last_period_index: 0,
        last_issued_at: START,
        initialized: true,
        bump: 1,
    };
    let fits = sealed(PopProofMessage {
        prev_hash: [0x21; 32],
        stream_prev_hash: [0x22; 32],
        ..message(1, 0, [0; 32], now)
    });
    let mut ctx = context(&fits);
    ctx.pop_state = recorded;
    assert_eq!(claim_grant(&mut ctx, 0, now, 9), Ok(AMOUNT));
    assert_eq!(ctx.pop_state.bump, 1);
    assert_eq!(ctx.pop_state.last_stream_hash, fits.entry_hash);

    let off_global = sealed(PopProofMessage {
        prev_hash: [0x20; 32],
        stream_prev_hash: [0x22; 32],
        ..message(1, 0, [0; 32], now)
    });
    let mut ctx = context(&off_global);
    ctx.pop_state = recorded;
    assert_eq!(refused(ctx, 0, now), ErrorCode::PopHashChainBroken);

    let off_stream = sealed(PopProofMessage {
        prev_hash: [0x21; 32],
        stream_prev_hash: [0x20; 32],
        ..message(1, 0, [0; 32], now)
    });
    let mut ctx = context(&off_stream);
    ctx.pop_state = recorded;
    assert_eq!(refused(ctx, 0, now), ErrorCode::PopStreamChainBroken);

    let mut ctx = context(&fits);
    ctx.pop_state = PopState {
        grant: [0x01; 32],
        ..recorded
    };
    assert_eq!(refused(ctx, 0, now), ErrorCode::PopStateGrantMismatch);
}

#[test]
fn proof_is_fresh_for_600_seconds_either_way() {
    let now: i64 = START + 10_000;
    for issued_at in [now - 600, now + 600, now] {
        let m = message(1, 0, [0; 32], issued_at);
        let mut ctx = context(&m);
        assert_eq!(claim_grant(&mut ctx, 0, now, 9), Ok(AMOUNT));
    }
    for issued_at in [now - 601, now + 601, START - 1_000_000] {
        let m = message(1, 0, [0; 32], issued_at);
        assert_eq!(refused(context(&m), 0, now), ErrorCode::PopProofExpired);
    }
    let m = message(1, 0, [0; 32], i64::MIN);
    assert_eq!(refused(context(&m), 0, now), ErrorCode::MathOverflow);
}

#[test]
fn broken_chain_is_told_before_a_stale_proof() {
    let now: i64 = START + 10_000;
    let m = message(1, 0, [0x01; 32], now - 601);
    assert_eq!(refused(context(&m), 0, now), ErrorCode::PopGenesisMismatch);
}

#[test]
fn claim_has_to_name_the_running_period() {
    let now: i64 = START + PERIOD * 3 + 500;
    for wrong in [2u64, 4] {
        let m = message(1, wrong, [0; 32], now);
        assert_eq!(
            refused(context(&m), wrong, now),
            ErrorCode::InvalidPeriodIndex
        );
    }
    let m = message(1, 3, [0; 32], now);
    let mut ctx = context(&m);
    assert_eq!(claim_grant(&mut ctx, 3, now, 9), Ok(AMOUNT));
}

#[test]
fn claim_comes_between_start_and_expiry() {
    let early: i64 = START - 1;
    let m = message(1, 0, [0; 32], early);
    assert_eq!(refused(context(&m), 0, early), ErrorCode::GrantNotStarted);

    let late: i64 = START + 100;
    let m = message(1, 0, [0; 32], late);
    let mut ctx = context(&m);
    ctx.grant.expires_at = START + 99;
    assert_eq!(refused(ctx.clone(), 0, late), ErrorCode::GrantExpired);
    ctx.grant.expires_at = START + 100;
    assert_eq!(claim_grant(&mut ctx, 0, late, 9), Ok(AMOUNT));
}

#[test]
fn claim_needs_a_vault_that_holds_the_amount() {
    let now: i64 = START + 10;
    let m = message(1, 0, [0; 32], now);
    let mut ctx = context(&m);
    ctx.vault_amount = AMOUNT - 1;
    assert_eq!(refused(ctx.clone(), 0, now), ErrorCode::InsufficientFunds);
    ctx.vault_amount = AMOUNT;
    assert_eq!(claim_grant(&mut ctx, 0, now, 9), Ok(AMOUNT));
    assert_eq!(ctx.vault_amount, AMOUNT);
}

#[test]
fn empty_vault_is_told_before_the_receipt() {
    let now: i64 = START + 10;
    let m = message(1, 0, [0; 32], now);
    let mut ctx = context(&m);
    ctx.receipts
        .create(ClaimReceipt {
            grant: GRANT_KEY,
            claimer: CLAIMER,
            period_index: 0,
            claimed_at: START,
        })
        .unwrap();
    assert_eq!(refused(ctx.clone(), 0, now), ErrorCode::AlreadyClaimed);
    ctx.vault_amount = 0;
    assert_eq!(refused(ctx, 0, now), ErrorCode::InsufficientFunds);
}

#[test]
fn transfer_moves_what_the_vault_holds_at_most() {
    assert_eq!(transfer_from_vault(100, 100), Ok(100));
    assert_eq!(transfer_from_vault(101, 100), Ok(100));
    assert_eq!(transfer_from_vault(99, 100), Err(ErrorCode::InsufficientFunds));
    assert_eq!(transfer_from_vault(0, 0), Ok(0));
    assert_eq!(transfer_from_vault(u64::MAX, u64::MAX), Ok(u64::MAX));
    assert_eq!(transfer_from_vault(0, 1), Err(ErrorCode::InsufficientFunds));
}

#[test]
fn proof_check_tells_the_next_record_and_changes_nothing() {
    let now: i64 = START + 10;
    let m = message(1, 0, [0; 32], now);
    let ctx = context(&m);
    let before = ctx.clone();
    assert_eq!(
        check_pop_proof(&ctx, 0, now, 17),
        Ok(PopState {
            grant: GRANT_KEY,
            last_global_hash: m.entry_hash,
            last_stream_hash: m.entry_hash,
            last_period_index: 0,
            last_issued_at: now,
            initialized: true,
            bump: 17,
        })
    );
    assert_eq!(ctx, before);
    assert_eq!(
        check_pop_proof(&ctx, 1, now, 17),
        Err(ErrorCode::PopProofPeriodMismatch)
    );
}

#[test]
fn proof_is_recorded_without_regard_to_period_and_vault() {
    let now: i64 = START - 50;
    let m = message(1, 7, [0; 32], now);
    let mut ctx = context(&m);
    ctx.vault_amount = 0;
    ctx.grant.paused = true;
    let before = ctx.clone();
    assert_eq!(verify_and_record_pop_proof(&mut ctx, 7, now, 4), Ok(()));
    assert_eq!(ctx.pop_state.last_global_hash, m.entry_hash);
    assert_eq!(ctx.pop_state.bump, 4);
    assert_eq!(ctx.receipts, before.receipts);
    assert_eq!(ctx.grant, before.grant);
    assert_eq!(ctx.instructions_sysvar, before.instructions_sysvar);

    let recorded = ctx.clone();
    assert_eq!(
        verify_and_record_pop_proof(&mut ctx, 7, now, 4),
        Err(ErrorCode::PopHashChainBroken)
    );
    assert_eq!(ctx, recorded);
    assert_eq!(
        verify_and_record_pop_proof(&mut ctx, 7, now + 601, 4),
        Err(ErrorCode::PopHashChainBroken)
    );
    let next = message(1, 8, m.entry_hash, now);
    ctx.instructions_sysvar = transaction(&next);
    assert_eq!(
        verify_and_record_pop_proof(&mut ctx, 8, now + 601, 4),
        Err(ErrorCode::PopProofExpired)
    );
    assert_eq!(ctx.pop_state, recorded.pop_state);
}

#[test]
fn message_that_follows_itself_gets_as_far_as_the_receipt() {
    let now: i64 = START + 10;
    let m = message(1, 0, [0; 32], now);
    let mut ctx = context(&m);
    assert_eq!(claim_grant(&mut ctx, 0, now, 9), Ok(AMOUNT));
    ctx.pop_state.last_global_hash = [0; 32];
    ctx.pop_state.last_stream_hash = [0; 32];
    let before = ctx.clone();
    assert_eq!(claim_grant(&mut ctx, 0, now, 9), Err(ErrorCode::AlreadyClaimed));
    assert_eq!(ctx, before);
}
