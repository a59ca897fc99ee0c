//! What a grant's authority does: create, fund, pause, set the allowlist,
//! register the proof signer, close.
//!
//! These functions decide and edit records. Moving tokens is the caller's
//! part: where tokens are to move, the function returns the amount.

use vstd::prelude::*;
use crate::bytes::{all_zero, bytes32_eq, Pubkey};
use crate::error::ErrorCode;
use crate::state::{terms_error, Grant, PopConfig};

verus! {

/// The farthest that a start time may lie ahead when a grant is created: 365
/// days, in seconds.
pub const MAX_START_AHEAD_SECONDS: i64 = 365 * 24 * 60 * 60;

/// What the creation of a grant reads and writes.
#[derive(Clone, Copy, Debug, PartialEq, Eq)]
pub struct CreateGrant {
    /// The grant record to fill.
    pub grant: Grant,
    /// The token to pay out.
    pub mint: Pubkey,
    /// The token account that will hold the funds.
    pub vault: Pubkey,
    /// Who creates the grant.
    pub authority: Pubkey,
    /// Bump of the grant's derived address.
    pub grant_bump: u8,
}

/// What the funding of a grant reads.
#[derive(Clone, Copy, Debug, PartialEq, Eq)]
pub struct FundGrant {
    /// The grant to fund.
    pub grant: Grant,
    /// The token that is paid in.
    pub mint: Pubkey,
    /// The token that the vault holds.
    pub vault_mint: Pubkey,
}

/// What the registration of a proof signer reads and writes.
#[derive(Clone, Copy, Debug, PartialEq, Eq)]
pub struct UpsertPopConfig {
    /// The registration to fill.
    pub pop_config: PopConfig,
    /// Who registers the signer.
    pub authority: Pubkey,
    /// Bump of the registration's derived address.
    pub pop_config_bump: u8,
}

/// What the closing of a grant reads.
#[derive(Clone, Copy, Debug, PartialEq, Eq)]
pub struct CloseGrant {
    /// The grant to close.
    pub grant: Grant,
    /// Balance of the grant's vault.
    pub vault_amount: u64,
}

/// What pausing and resuming reads and writes.
#[derive(Clone, Copy, Debug, PartialEq, Eq)]
pub struct SetPaused {
    /// The grant to pause or resume.
    pub grant: Grant,
}

/// What setting the allowlist reads and writes.
#[derive(Clone, Copy, Debug, PartialEq, Eq)]
pub struct SetAllowlistRoot {
    /// The grant whose allowlist is set.
    pub grant: Grant,
}

/// Why a grant with these terms is not created at `now`, if it is not: it
/// has to pay something, its periods have to have a length, and it may not
/// start more than `MAX_START_AHEAD_SECONDS` after `now`.
pub open spec fn create_grant_error(
    amount_per_period: u64,
    period_seconds: i64,
    start_ts: i64,
    now: i64,
) -> Option<ErrorCode> {
    if terms_error(amount_per_period, period_seconds) is Some {
        terms_error(amount_per_period, period_seconds)
    } else if now + MAX_START_AHEAD_SECONDS > i64::MAX {
        Some(ErrorCode::MathOverflow)
    } else if start_ts > now + MAX_START_AHEAD_SECONDS {
        Some(ErrorCode::InvalidStartTs)
    } else {
        None
    }
}

/// Creates a grant, or sets an existing one up anew: it comes out without an
/// allowlist and not paused. Terms that are refused leave the record as it
/// is.
pub fn create_grant(
    ctx: &mut CreateGrant,
    grant_id: u64,
    amount_per_period: u64,
    period_seconds: i64,
    start_ts: i64,
    expires_at: i64,
    now: i64,
) -> (r: Result<(), ErrorCode>)
    ensures
        match create_grant_error(amount_per_period, period_seconds, start_ts, now) {
            Some(e) => r == Err::<(), ErrorCode>(e) && *final(ctx) == *old(ctx),
            None => r is Ok && final(ctx).grant.wf() && all_zero(final(ctx).grant.merkle_root@)
                && *final(ctx) == (CreateGrant {
                grant: Grant {
                    authority: old(ctx).authority,
                    mint: old(ctx).mint,
                    vault: old(ctx).vault,
                    grant_id,
                    amount_per_period,
                    period_seconds,
                    start_ts,
                    expires_at,
                    merkle_root: final(ctx).grant.merkle_root,
                    paused: false,
                    bump: old(ctx).grant_bump,
                },
                ..*old(ctx)
            }),
        },
{
    if amount_per_period == 0 {
        return Err(ErrorCode::InvalidAmount);
    }
    if period_seconds <= 0 {
        return Err(ErrorCode::InvalidPeriod);
    }
    let latest_start: i64 = match now.checked_add(MAX_START_AHEAD_SECONDS) {
        Some(latest_start) => latest_start,
        None => {
            return Err(ErrorCode::MathOverflow);
        },
    };
    if start_ts > latest_start {
        return Err(ErrorCode::InvalidStartTs);
    }
    ctx.grant.authority = ctx.authority;
    ctx.grant.mint = ctx.mint;
    ctx.grant.vault = ctx.vault;
    ctx.grant.grant_id = grant_id;
    ctx.grant.amount_per_period = amount_per_period;
    ctx.grant.period_seconds = period_seconds;
    ctx.grant.start_ts = start_ts;
    ctx.grant.expires_at = expires_at;
    ctx.grant.merkle_root = [0u8; 32];
    ctx.grant.paused = false;
    ctx.grant.bump = ctx.grant_bump;
    Ok(())
}

/// The amount to move into the vault of a grant, or why nothing is moved:
/// the amount is zero, or grant, vault and payment are not all of one
/// token.
pub fn fund_grant(ctx: &FundGrant, amount: u64) -> (r: Result<u64, ErrorCode>)
    ensures
        r == (if amount == 0 {
            Err::<u64, ErrorCode>(ErrorCode::InvalidAmount)
        } else if ctx.grant.mint != ctx.mint || ctx.vault_mint != ctx.mint {
            Err::<u64, ErrorCode>(ErrorCode::MintMismatch)
        } else {
            Ok::<u64, ErrorCode>(amount)
        }),
{
    if amount == 0 {
        return Err(ErrorCode::InvalidAmount);
    }
    if !bytes32_eq(&ctx.grant.mint, &ctx.mint) {
        return Err(ErrorCode::MintMismatch);
    }
    if !bytes32_eq(&ctx.vault_mint, &ctx.mint) {
        return Err(ErrorCode::MintMismatch);
    }
    Ok(amount)
}

/// The amount to return to the authority before the vault of a grant is
/// closed: all that the vault holds, if it holds anything.
pub fn close_grant(ctx: &CloseGrant) -> (r: Result<Option<u64>, ErrorCode>)
    ensures
        r == Ok::<Option<u64>, ErrorCode>(
            if ctx.vault_amount > 0 {
                Some(ctx.vault_amount)
            } else {
                None
            },
        ),
{
    let remaining: u64 = ctx.vault_amount;
    if remaining > 0 {
        Ok(Some(remaining))
    } else {
        Ok(None)
    }
}

/// Pauses or resumes a grant.
pub fn set_paused(ctx: &mut SetPaused, paused: bool) -> (r: Result<(), ErrorCode>)
    ensures
        r is Ok,
        final(ctx).grant == (Grant { paused, ..old(ctx).grant }),
{
    ctx.grant.paused = paused;
    Ok(())
}

/// Sets the allowlist root of a grant. An all-zero root takes the allowlist
/// away.
pub fn set_allowlist_root(ctx: &mut SetAllowlistRoot, merkle_root: [u8; 32]) -> (r: Result<
    (),
    ErrorCode,
>)
    ensures
        r is Ok,
        final(ctx).grant == (Grant { merkle_root, ..old(ctx).grant }),
{
    ctx.grant.merkle_root = merkle_root;
    Ok(())
}

/// Registers, or replaces, the signer that the authority trusts for proofs
/// of process.
pub fn upsert_pop_config(ctx: &mut UpsertPopConfig, signer_pubkey: Pubkey) -> (r: Result<
    (),
    ErrorCode,
>)
    ensures
        r is Ok,
        *final(ctx) == (UpsertPopConfig {
            pop_config: PopConfig {
                authority: old(ctx).authority,
                signer_pubkey,
                bump: old(ctx).pop_config_bump,
            },
            ..*old(ctx)
        }),
{
    ctx.pop_config.authority = ctx.authority;
    ctx.pop_config.signer_pubkey = signer_pubkey;
    ctx.pop_config.bump = ctx.pop_config_bump;
    Ok(())
}

} // verus!
