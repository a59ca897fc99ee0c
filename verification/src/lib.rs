//! Claim admission for periodic token grants.
//!
//! A grant pays a fixed amount once per period to each recipient. A claim is
//! admitted when its hash-chained proof of process extends the recorded
//! chain, when the recipient is on the grant's allowlist (if it has one), and
//! when no receipt exists yet for the same grant, recipient and period.
//!
//! The library decides and keeps the records. Reading the clock and the
//! transaction, and moving tokens, is the caller's part.

pub mod admin;
pub mod bytes;
pub mod chain;
pub mod claim;
pub mod error;
pub mod hashing;
pub mod merkle;
pub mod message;
pub mod signature;
pub mod state;
pub mod timing;

pub use admin::{
    close_grant, create_grant, fund_grant, set_allowlist_root, set_paused, upsert_pop_config,
    CloseGrant, CreateGrant, FundGrant, SetAllowlistRoot, SetPaused, UpsertPopConfig,
};
pub use bytes::Pubkey;
pub use claim::{
    check_pop_proof, claim_grant, claim_grant_with_proof, record_receipt, transfer_from_vault,
    verify_and_record_pop_proof, ClaimGrant,
};
pub use error::ErrorCode;
pub use state::{ClaimReceipt, Grant, PopConfig, PopState, ReceiptStore, DEFAULT_MONTH_SECONDS};
