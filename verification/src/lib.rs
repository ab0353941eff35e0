//! Milestone escrow between a client and a freelancer, with arbiter-backed
//! disputes, protocol fees, reputation and admin emergency controls.
//!
//! [`Escrow`] holds the whole state; each operation checks its inputs in a
//! fixed order, fails without any change with the first error it meets,
//! and otherwise applies its effect. Token movements are handed back as
//! [`Transfer`] values for the host to carry out.

pub mod admin;
pub mod amounts;
pub mod book;
pub mod create;
pub mod deposit;
pub mod dispute;
pub mod laws;
pub mod lifecycle;
pub mod migration;
pub mod queries;
pub mod refund;
pub mod release;
pub mod reputation;
pub mod state;
pub mod ttl;
pub mod types;

pub use amounts::{calculate_protocol_fee, safe_add_amounts, safe_subtract_amounts};
pub use dispute::{final_status_after_resolution, resolution_payouts, DisputeResolution};
pub use lifecycle::ResolutionReceipt;
pub use refund::{check_no_duplicates, RefundReceipt};
pub use release::ReleaseReceipt;
pub use state::{ContractRecord, Escrow, EscrowView};
pub use ttl::{
    compute_expiry, ADMIN_ROTATION_MIN_DELAY_LEDGERS, LEDGERS_PER_DAY,
    PENDING_APPROVAL_TTL_LEDGERS, PENDING_MIGRATION_TTL_LEDGERS,
};
pub use types::{
    Address, Contract, ContractStatus, ContractSummary, DepositMode, Error, FinalizationRecord,
    GovernedParameters, Ledger, Milestone, MilestoneApprovals, MilestoneSummary,
    PendingAdminProposal, PendingClientMigration, ReadinessChecklist, ReleaseAuthorization,
    Reputation, StoredApprovals, Transfer, CONTRACT_SUMMARY_SCHEMA_VERSION,
};
