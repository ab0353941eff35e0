use vstd::prelude::*;

verus! {

/// Version of the layout of [`ContractSummary`] handed to indexers.
pub const CONTRACT_SUMMARY_SCHEMA_VERSION: u32 = 1;

/// A ledger address: a 32-byte account key or contract hash, split into two
/// 128-bit halves, with a flag telling contract addresses from accounts.
/// The escrow logic only ever compares addresses for equality.
#[derive(Clone, Copy, Debug, PartialEq, Eq, Structural)]
pub struct Address {
    pub is_contract: bool,
    pub key_hi: u128,
    pub key_lo: u128,
}

impl Address {
    /// An account address whose key is `key` (high half zero).
    pub fn account(key: u128) -> (r: Address)
        ensures
            r == (Address { is_contract: false, key_hi: 0, key_lo: key }),
    {
        Address { is_contract: false, key_hi: 0, key_lo: key }
    }

    /// A contract address whose hash is `key` (high half zero).
    pub fn contract(key: u128) -> (r: Address)
        ensures
            r == (Address { is_contract: true, key_hi: 0, key_lo: key }),
    {
        Address { is_contract: true, key_hi: 0, key_lo: key }
    }
}

/// The ledger position at which an operation runs.
#[derive(Clone, Copy, Debug, PartialEq, Eq, Structural)]
pub struct Ledger {
    pub sequence: u32,
    pub timestamp: u64,
}

/// Contract lifecycle states.
#[derive(Clone, Copy, Debug, PartialEq, Eq, Structural)]
pub enum ContractStatus {
    Created,
    Accepted,
    Funded,
    Completed,
    Disputed,
    Cancelled,
    Refunded,
    PartiallyFunded,
}

/// Defines who can approve milestone releases.
#[derive(Clone, Copy, Debug, PartialEq, Eq, Structural)]
pub enum ReleaseAuthorization {
    /// Only client can approve.
    ClientOnly,
    /// Either client or arbiter can approve.
    ClientAndArbiter,
    /// Only arbiter can approve.
    ArbiterOnly,
    /// Both client and freelancer must approve; only either of them may release
    /// after both approvals are present.
    MultiSig,
}

/// How deposits toward a contract are expected to arrive.
#[derive(Clone, Copy, Debug, PartialEq, Eq, Structural)]
pub enum DepositMode {
    ExactTotal,
    Incremental,
}

/// Main escrow contract state.
#[derive(Clone, Copy, Debug, PartialEq, Eq, Structural)]
pub struct Contract {
    pub client: Address,
    pub freelancer: Address,
    pub arbiter: Option<Address>,
    pub status: ContractStatus,
    pub total_deposited: i128,
    pub funded_amount: i128,
    pub released_amount: i128,
    pub refunded_amount: i128,
    pub release_authorization: ReleaseAuthorization,
    pub reputation_issued: bool,
}

/// One milestone of an escrow contract.
#[derive(Clone, Debug)]
pub struct Milestone {
    pub amount: i128,
    pub funded_amount: i128,
    pub released: bool,
    pub refunded: bool,
    /// Deliverable reference (UTF-8 bytes) submitted by the freelancer.
    pub work_evidence: Option<Vec<u8>>,
    pub refunded_amount: i128,
}

/// Mathematical model of a [`Milestone`].
pub struct MilestoneView {
    pub amount: i128,
    pub funded_amount: i128,
    pub released: bool,
    pub refunded: bool,
    pub work_evidence: Option<Seq<u8>>,
    pub refunded_amount: i128,
}

pub open spec fn opt_bytes_view(o: Option<Vec<u8>>) -> Option<Seq<u8>> {
    match o {
        Some(v) => Some(v@),
        None => None,
    }
}

impl View for Milestone {
    type V = MilestoneView;

    open spec fn view(&self) -> MilestoneView {
        MilestoneView {
            amount: self.amount,
            funded_amount: self.funded_amount,
            released: self.released,
            refunded: self.refunded,
            work_evidence: opt_bytes_view(self.work_evidence),
            refunded_amount: self.refunded_amount,
        }
    }
}

/// Per-milestone line of a [`ContractSummary`].
#[derive(Clone, Copy, Debug, PartialEq, Eq, Structural)]
pub struct MilestoneSummary {
    pub index: u32,
    pub amount: i128,
    pub released: bool,
    pub refunded: bool,
}

/// Indexer-facing snapshot of a contract and its milestones.
#[derive(Clone, Debug)]
pub struct ContractSummary {
    pub schema_version: u32,
    pub client: Address,
    pub freelancer: Address,
    pub arbiter: Option<Address>,
    pub status: ContractStatus,
    pub reputation_issued: bool,
    pub total_amount: i128,
    pub funded_amount: i128,
    pub released_amount: i128,
    pub refundable_balance: i128,
    pub released_milestone_count: u32,
    pub milestones: Vec<MilestoneSummary>,
}

/// Mathematical model of a [`ContractSummary`].
pub struct ContractSummaryView {
    pub schema_version: u32,
    pub client: Address,
    pub freelancer: Address,
    pub arbiter: Option<Address>,
    pub status: ContractStatus,
    pub reputation_issued: bool,
    pub total_amount: i128,
    pub funded_amount: i128,
    pub released_amount: i128,
    pub refundable_balance: i128,
    pub released_milestone_count: u32,
    pub milestones: Seq<MilestoneSummary>,
}

impl View for ContractSummary {
    type V = ContractSummaryView;

    open spec fn view(&self) -> ContractSummaryView {
        ContractSummaryView {
            schema_version: self.schema_version,
            client: self.client,
            freelancer: self.freelancer,
            arbiter: self.arbiter,
            status: self.status,
            reputation_issued: self.reputation_issued,
            total_amount: self.total_amount,
            funded_amount: self.funded_amount,
            released_amount: self.released_amount,
            refundable_balance: self.refundable_balance,
            released_milestone_count: self.released_milestone_count,
            milestones: self.milestones@,
        }
    }
}

/// Immutable metadata written when an escrow contract is closed.
#[derive(Clone, Debug)]
pub struct FinalizationRecord {
    /// Authorized client, freelancer, or assigned arbiter that finalized.
    pub finalizer: Address,
    /// Ledger timestamp at finalization time.
    pub timestamp: u64,
    /// Snapshot of participant, milestone, and accounting state.
    pub summary: ContractSummary,
}

/// Mathematical model of a [`FinalizationRecord`].
pub struct FinalizationRecordView {
    pub finalizer: Address,
    pub timestamp: u64,
    pub summary: ContractSummaryView,
}

impl View for FinalizationRecord {
    type V = FinalizationRecordView;

    open spec fn view(&self) -> FinalizationRecordView {
        FinalizationRecordView {
            finalizer: self.finalizer,
            timestamp: self.timestamp,
            summary: self.summary@,
        }
    }
}

/// Tracks approval status for a milestone.
#[derive(Clone, Copy, Debug, PartialEq, Eq, Structural)]
pub struct MilestoneApprovals {
    pub client_approved: bool,
    pub freelancer_approved: bool,
    pub arbiter_approved: bool,
}

/// An approval record together with the last ledger at which it is live.
#[derive(Clone, Copy, Debug, PartialEq, Eq, Structural)]
pub struct StoredApprovals {
    pub approvals: MilestoneApprovals,
    pub live_until_ledger: u32,
}

/// A proposed hand-over of the client role to another address.
#[derive(Clone, Copy, Debug, PartialEq, Eq, Structural)]
pub struct PendingClientMigration {
    pub current_client: Address,
    pub proposed_client: Address,
    /// Last ledger at which the proposal can still be accepted.
    pub expires_at_ledger: u32,
}

/// A proposed governance admin and the ledger at which it was proposed.
#[derive(Clone, Copy, Debug, PartialEq, Eq, Structural)]
pub struct PendingAdminProposal {
    pub proposed: Address,
    pub proposed_at_ledger: u32,
}

/// Mainnet readiness checklist.
#[derive(Clone, Copy, Debug, PartialEq, Eq, Structural)]
pub struct ReadinessChecklist {
    /// `true` after `initialize` has been called successfully.
    pub initialized: bool,
    /// `true` after protocol governance parameters have been set.
    pub governed_params_set: bool,
    /// `true` after an emergency control operation has been invoked.
    pub emergency_controls_enabled: bool,
}

impl Default for ReadinessChecklist {
    fn default() -> (r: Self)
        ensures
            r == (ReadinessChecklist {
                initialized: false,
                governed_params_set: false,
                emergency_controls_enabled: false,
            }),
    {
        ReadinessChecklist {
            initialized: false,
            governed_params_set: false,
            emergency_controls_enabled: false,
        }
    }
}

/// Governance parameters set by the admin.
#[derive(Clone, Copy, Debug, PartialEq, Eq, Structural)]
pub struct GovernedParameters {
    pub protocol_fee_bps: u32,
    pub max_escrow_total_stroops: i128,
}

/// Aggregated reputation of a freelancer.
#[derive(Clone, Copy, Debug, PartialEq, Eq, Structural)]
pub struct Reputation {
    pub completed_contracts: i128,
    pub total_rating: i128,
    pub last_rating: i128,
}

/// A token movement that the escrow asks its host to perform in the
/// settlement token.
#[derive(Clone, Copy, Debug, PartialEq, Eq, Structural)]
pub enum Transfer {
    /// Pull `amount` from `from` into the escrow's own account.
    ToEscrow { token: Address, from: Address, amount: i128 },
    /// Push `amount` from the escrow's own account to `to`.
    FromEscrow { token: Address, to: Address, amount: i128 },
}

/// Canonical contract error type for all entrypoint-facing errors.
#[derive(Clone, Copy, Debug, PartialEq, Eq, Structural, PartialOrd, Ord, Hash)]
pub enum Error {
    /// The specified milestone index is out of bounds.
    IndexOutOfBounds,
    /// The milestone has already been released.
    AlreadyReleased,
    /// The refund request is empty.
    EmptyRefundRequest,
    /// Duplicate milestone indices specified in the refund request.
    DuplicateMilestoneInRefund,
    /// The milestone has already been refunded.
    AlreadyRefunded,
    /// Insufficient funds available to perform the operation.
    InsufficientFunds,
    /// The requested contract was not found.
    ContractNotFound,
    /// The caller is not authorized for this operation.
    UnauthorizedRole,
    /// The contract requires an arbiter address but none was provided.
    MissingArbiter,
    /// The provided arbiter address is invalid (e.g. same as client or freelancer).
    InvalidArbiter,
    /// The client and freelancer addresses are identical or invalid.
    InvalidParticipants,
    /// The amount must be strictly greater than zero.
    AmountMustBePositive,
    /// The contract is in an invalid state for this operation.
    InvalidState,
    /// The milestone has already been released.
    MilestoneAlreadyReleased,
    /// The milestone has already been approved.
    AlreadyApproved,
    /// The milestone has not received sufficient approvals to release.
    InsufficientApprovals,
    /// The freelancer address does not match the stored freelancer.
    FreelancerMismatch,
    /// The rating value is outside the allowed range (1 to 5).
    InvalidRating,
    /// Reputation has already been issued for this contract.
    ReputationAlreadyIssued,
    /// The milestone list cannot be empty.
    EmptyMilestones,
    /// The milestone amount is invalid.
    InvalidMilestoneAmount,
    /// A contract with the specified ID already exists.
    ContractIdCollision,
    /// The contract ID has overflowed the maximum limit.
    ContractIdOverflow,
    /// The comment string is empty.
    EmptyComment,
    /// The comment string exceeds the maximum length limit.
    CommentTooLong,
    /// The participant address is invalid.
    InvalidParticipant,
    /// The deposit amount is invalid.
    InvalidDepositAmount,
    /// The milestone configuration is invalid.
    InvalidMilestone,
    /// The contract has already been initialized.
    AlreadyInitialized,
    /// Insufficient accumulated fees available for extraction.
    InsufficientAccumulatedFees,
    /// The contract has not been initialized.
    NotInitialized,
    /// The contract is currently paused.
    ContractPaused,
    /// Emergency mode is currently active.
    EmergencyActive,
    /// Self-rating is not allowed.
    SelfRating,
    /// The contract has not been completed.
    NotCompleted,
    /// The requested contract status transition is invalid.
    InvalidStatusTransition,
    /// An arbiter is required for this operation.
    ArbiterRequired,
    /// The dispute split percentage is invalid.
    InvalidDisputeSplit,
    /// The operation would violate the core accounting invariant.
    AccountingInvariantViolated,
    /// Checked arithmetic operation resulted in an overflow.
    PotentialOverflow,
    /// The contract has already been finalized.
    AlreadyFinalized,
    /// The work evidence string exceeds the maximum length limit.
    EvidenceTooLong,
    /// The governance admin rotation timelock has not elapsed.
    TimelockNotElapsed,
    /// The provided protocol parameters are invalid.
    InvalidProtocolParameters,
    /// The milestone total exceeds the governed escrow cap.
    EscrowCapExceeded,
    /// No settlement token has been configured.
    SettlementTokenNotConfigured,
    /// A settlement token is already bound.
    SettlementTokenAlreadyBound,
}

/// The stable numeric code of each error.
pub open spec fn error_code(e: Error) -> u32 {
    match e {
        Error::IndexOutOfBounds => 3,
        Error::AlreadyReleased => 4,
        Error::EmptyRefundRequest => 6,
        Error::DuplicateMilestoneInRefund => 7,
        Error::AlreadyRefunded => 8,
        Error::InsufficientFunds => 9,
        Error::ContractNotFound => 10,
        Error::UnauthorizedRole => 11,
        Error::MissingArbiter => 12,
        Error::InvalidArbiter => 13,
        Error::InvalidParticipants => 14,
        Error::AmountMustBePositive => 15,
        Error::InvalidState => 16,
        Error::MilestoneAlreadyReleased => 17,
        Error::AlreadyApproved => 18,
        Error::InsufficientApprovals => 20,
        Error::FreelancerMismatch => 21,
        Error::InvalidRating => 22,
        Error::ReputationAlreadyIssued => 23,
        Error::EmptyMilestones => 25,
        Error::InvalidMilestoneAmount => 26,
        Error::ContractIdCollision => 27,
        Error::ContractIdOverflow => 28,
        Error::EmptyComment => 29,
        Error::CommentTooLong => 30,
        Error::InvalidParticipant => 31,
        Error::InvalidDepositAmount => 32,
        Error::InvalidMilestone => 33,
        Error::AlreadyInitialized => 34,
        Error::InsufficientAccumulatedFees => 35,
        Error::NotInitialized => 36,
        Error::ContractPaused => 37,
        Error::EmergencyActive => 38,
        Error::SelfRating => 39,
        Error::NotCompleted => 40,
        Error::InvalidStatusTransition => 41,
        Error::ArbiterRequired => 42,
        Error::InvalidDisputeSplit => 43,
        Error::AccountingInvariantViolated => 44,
        Error::PotentialOverflow => 45,
        Error::AlreadyFinalized => 46,
        Error::EvidenceTooLong => 47,
        Error::TimelockNotElapsed => 48,
        Error::InvalidProtocolParameters => 49,
        Error::EscrowCapExceeded => 50,
        Error::SettlementTokenNotConfigured => 51,
        Error::SettlementTokenAlreadyBound => 52,
    }
}

impl Error {
    /// The stable numeric code under which the host reports this error.
    pub fn code(self) -> (r: u32)
        ensures
            r == error_code(self),
    {
        match self {
            Error::IndexOutOfBounds => 3,
            Error::AlreadyReleased => 4,
            Error::EmptyRefundRequest => 6,
            Error::DuplicateMilestoneInRefund => 7,
            Error::AlreadyRefunded => 8,
            Error::InsufficientFunds => 9,
            Error::ContractNotFound => 10,
            Error::UnauthorizedRole => 11,
            Error::MissingArbiter => 12,
            Error::InvalidArbiter => 13,
            Error::InvalidParticipants => 14,
            Error::AmountMustBePositive => 15,
            Error::InvalidState => 16,
            Error::MilestoneAlreadyReleased => 17,
            Error::AlreadyApproved => 18,
            Error::InsufficientApprovals => 20,
            Error::FreelancerMismatch => 21,
            Error::InvalidRating => 22,
            Error::ReputationAlreadyIssued => 23,
            Error::EmptyMilestones => 25,
            Error::InvalidMilestoneAmount => 26,
            Error::ContractIdCollision => 27,
            Error::ContractIdOverflow => 28,
            Error::EmptyComment => 29,
            Error::CommentTooLong => 30,
            Error::InvalidParticipant => 31,
            Error::InvalidDepositAmount => 32,
            Error::InvalidMilestone => 33,
            Error::AlreadyInitialized => 34,
            Error::InsufficientAccumulatedFees => 35,
            Error::NotInitialized => 36,
            Error::ContractPaused => 37,
            Error::EmergencyActive => 38,
            Error::SelfRating => 39,
            Error::NotCompleted => 40,
            Error::InvalidStatusTransition => 41,
            Error::ArbiterRequired => 42,
            Error::InvalidDisputeSplit => 43,
            Error::AccountingInvariantViolated => 44,
            Error::PotentialOverflow => 45,
            Error::AlreadyFinalized => 46,
            Error::EvidenceTooLong => 47,
            Error::TimelockNotElapsed => 48,
            Error::InvalidProtocolParameters => 49,
            Error::EscrowCapExceeded => 50,
            Error::SettlementTokenNotConfigured => 51,
            Error::SettlementTokenAlreadyBound => 52,
        }
    }
}

} // verus!
