//! Core data structures of the multisig treasury.

use vstd::prelude::*;

verus! {

/// An account identity. The host's address representation and its signature
/// checks live outside the engine; inside it an account is an opaque number
/// that is only ever compared for equality.
pub type Address = u64;

/// A memo or short symbol attached to a record.
pub type Symbol = String;

/// A 32-byte hash (bridge addresses, transaction hashes).
pub type Hash32 = [u8; 32];

/// The host clock as the engine sees it during one call.
#[derive(Clone, Copy, Debug, PartialEq, Eq, Structural)]
pub struct LedgerInfo {
    /// Monotonic ledger sequence number
    pub sequence: u64,
    /// Wall-clock-like timestamp in seconds
    pub timestamp: u64,
}

/// Errors returned by the engine's operations.
#[derive(Clone, Copy, Debug, PartialEq, Eq, Structural)]
pub enum VaultError {
    NotInitialized,
    AlreadyInitialized,
    Unauthorized,
    ProposalNotFound,
    InvalidState,
    InvalidAmount,
    InvalidThreshold,
    LimitExceeded,
    RecipientBlocked,
    TimelockNotElapsed,
    ConditionsNotMet,
    InsufficientInsurance,
    BridgeNotConfigured,
}

/// Initialization configuration.
pub struct InitConfig {
    /// Authorized signers
    pub signers: Vec<Address>,
    /// Required number of approvals (M in M-of-N)
    pub threshold: u32,
    /// Maximum amount per proposal
    pub spending_limit: i128,
    /// Maximum aggregate daily spending
    pub daily_limit: i128,
    /// Maximum aggregate weekly spending
    pub weekly_limit: i128,
    /// Amount at or above which a timelock applies
    pub timelock_threshold: i128,
    /// Delay in ledgers for timelocked proposals
    pub timelock_delay: u64,
    pub velocity_limit: VelocityConfig,
    pub threshold_strategy: ThresholdStrategy,
}

/// Vault configuration.
pub struct Config {
    /// Authorized signers
    pub signers: Vec<Address>,
    /// Required number of approvals (M in M-of-N)
    pub threshold: u32,
    /// Maximum amount per proposal
    pub spending_limit: i128,
    /// Maximum aggregate daily spending
    pub daily_limit: i128,
    /// Maximum aggregate weekly spending
    pub weekly_limit: i128,
    /// Amount at or above which a timelock applies
    pub timelock_threshold: i128,
    /// Delay in ledgers for timelocked proposals
    pub timelock_delay: u64,
    pub velocity_limit: VelocityConfig,
    pub threshold_strategy: ThresholdStrategy,
}

impl Config {
    /// Signers non-empty and unique, fixed threshold within [1, signer count],
    /// caps non-negative.
    pub open spec fn wf(&self) -> bool {
        &&& 1 <= self.signers@.len() <= u32::MAX
        &&& self.signers@.no_duplicates()
        &&& 1 <= self.threshold <= self.signers@.len()
        &&& self.spending_limit >= 0
        &&& self.daily_limit >= 0
        &&& self.weekly_limit >= 0
    }
}

/// Dynamic approval requirement.
pub enum ThresholdStrategy {
    /// The configured fixed threshold
    Fixed,
    /// ceil(signers * percentage / 100)
    Percentage(u32),
    /// The tier with the greatest amount not above the proposal amount
    AmountBased(Vec<AmountTier>),
    /// A threshold that is reduced once a delay has elapsed
    TimeBased(TimeBasedThreshold),
}

/// Amount-based threshold tier.
#[derive(Clone, Copy, Debug, PartialEq, Eq, Structural)]
pub struct AmountTier {
    /// Amount from which this tier applies
    pub amount: i128,
    /// Required approvals for this tier
    pub approvals: u32,
}

/// Time-based threshold configuration.
#[derive(Clone, Copy, Debug, PartialEq, Eq, Structural)]
pub struct TimeBasedThreshold {
    /// Threshold before the delay has elapsed
    pub initial_threshold: u32,
    /// Threshold once the delay has elapsed
    pub reduced_threshold: u32,
    /// Ledgers to wait before the reduction
    pub reduction_delay: u64,
}

/// Permissions assigned to vault participants.
#[derive(Clone, Copy, Debug, PartialEq, Eq, Structural)]
pub enum Role {
    /// Read-only access (default for non-signers)
    Member,
    /// May initiate and approve transfer proposals
    Treasurer,
    /// Full operational control
    Admin,
}

/// The lifecycle states of a proposal.
#[derive(Clone, Copy, Debug, PartialEq, Eq, Structural)]
pub enum ProposalStatus {
    /// Awaiting approvals
    Pending,
    /// Threshold met; ready for execution
    Approved,
    /// Funds transferred, record final
    Executed,
    /// Cancelled by an admin or the proposer
    Rejected,
    /// Expiry reached before execution
    Expired,
}

impl ProposalStatus {
    pub open spec fn is_terminal(self) -> bool {
        self == ProposalStatus::Executed || self == ProposalStatus::Rejected || self
            == ProposalStatus::Expired
    }
}

/// Proposal urgency level.
#[derive(Clone, Copy, Debug, PartialEq, Eq, Structural)]
pub enum Priority {
    Low,
    Normal,
    High,
    Critical,
}

impl Priority {
    /// Rank of the tier, Low = 0 up to Critical = 3.
    pub open spec fn rank(self) -> nat {
        match self {
            Priority::Low => 0,
            Priority::Normal => 1,
            Priority::High => 2,
            Priority::Critical => 3,
        }
    }

    pub fn level(&self) -> (r: u32)
        ensures
            r == self.rank(),
    {
        match self {
            Priority::Low => 0,
            Priority::Normal => 1,
            Priority::High => 2,
            Priority::Critical => 3,
        }
    }
}

/// Execution condition.
#[derive(Clone, Copy, Debug, PartialEq, Eq, Structural)]
pub enum Condition {
    /// Balance strictly above the value
    BalanceAbove(i128),
    /// Ledger sequence strictly after the value
    DateAfter(u64),
    /// Ledger sequence strictly before the value
    DateBefore(u64),
}

/// How multiple conditions combine.
#[derive(Clone, Copy, Debug, PartialEq, Eq, Structural)]
pub enum ConditionLogic {
    /// All conditions must hold
    And,
    /// At least one condition must hold
    Or,
}

/// Recipient list access mode.
#[derive(Clone, Copy, Debug, PartialEq, Eq, Structural)]
pub enum ListMode {
    /// No restriction on recipients
    Disabled,
    /// Only listed recipients are allowed
    Whitelist,
    /// Listed recipients are blocked
    Blacklist,
}

/// Transfer proposal.
pub struct Proposal {
    pub id: u64,
    pub proposer: Address,
    pub recipient: Address,
    /// Token contract
    pub token: Address,
    pub amount: i128,
    pub memo: Symbol,
    /// Approvers, in the order they approved
    pub approvals: Vec<Address>,
    /// Signers that explicitly abstained
    pub abstentions: Vec<Address>,
    /// Content hashes of supporting documents
    pub attachments: Vec<String>,
    pub status: ProposalStatus,
    pub priority: Priority,
    pub conditions: Vec<Condition>,
    pub condition_logic: ConditionLogic,
    /// Ledger sequence at creation
    pub created_at: u64,
    /// Ledger sequence after which the proposal expires
    pub expires_at: u64,
    /// Earliest ledger sequence of execution (0: no timelock)
    pub unlock_ledger: u64,
    /// Insurance stake held for the proposer (0: none)
    pub insurance_amount: i128,
}

impl Proposal {
    /// Amount positive, stake non-negative, approvers and abstainers unique
    /// and disjoint.
    pub open spec fn wf(&self) -> bool {
        &&& self.amount > 0
        &&& self.insurance_amount >= 0
        &&& self.approvals@.no_duplicates()
        &&& self.abstentions@.no_duplicates()
        &&& forall|a: Address| #[trigger]
            self.approvals@.contains(a) ==> !self.abstentions@.contains(a)
    }
}

/// Comment on a proposal.
pub struct Comment {
    pub id: u64,
    pub proposal_id: u64,
    pub author: Address,
    pub text: Symbol,
    /// Parent comment (0: top level)
    pub parent_id: u64,
    pub created_at: u64,
    pub edited_at: u64,
}

/// Recurring payment schedule.
pub struct RecurringPayment {
    pub id: u64,
    pub proposer: Address,
    pub recipient: Address,
    pub token: Address,
    pub amount: i128,
    pub memo: Symbol,
    /// Interval in ledgers
    pub interval: u64,
    /// Ledger of the next payment
    pub next_payment_ledger: u64,
    /// Payments made so far
    pub payment_count: u32,
    pub is_active: bool,
}

/// Sliding-window limit on the number of proposals per proposer.
#[derive(Clone, Copy, Debug, PartialEq, Eq, Structural)]
pub struct VelocityConfig {
    /// Transfers allowed in the window
    pub limit: u32,
    /// Window length in seconds
    pub window: u64,
}

/// Neutral reputation score.
pub const NEUTRAL_SCORE: u32 = 500;

/// Highest reputation score.
pub const MAX_SCORE: u32 = 1000;

/// Proposer and approver track record.
#[derive(Clone, Copy, Debug, PartialEq, Eq, Structural)]
pub struct Reputation {
    /// Composite score in [0, 1000]
    pub score: u32,
    pub proposals_executed: u32,
    pub proposals_rejected: u32,
    pub proposals_created: u32,
    pub approvals_given: u32,
    /// Ledger of the last decay (0: never)
    pub last_decay_ledger: u64,
}

impl Reputation {
    pub open spec fn wf(&self) -> bool {
        self.score <= MAX_SCORE
    }

    /// A fresh record: neutral score, all counters zero.
    pub fn default() -> (r: Self)
        ensures
            r.score == NEUTRAL_SCORE,
            r.proposals_executed == 0,
            r.proposals_rejected == 0,
            r.proposals_created == 0,
            r.approvals_given == 0,
            r.last_decay_ledger == 0,
            r.wf(),
    {
        Reputation {
            score: NEUTRAL_SCORE,
            proposals_executed: 0,
            proposals_rejected: 0,
            proposals_created: 0,
            approvals_given: 0,
            last_decay_ledger: 0,
        }
    }
}

/// Insurance configuration.
#[derive(Clone, Copy, Debug, PartialEq, Eq, Structural)]
pub struct InsuranceConfig {
    /// Whether a stake is required from `min_amount` on
    pub enabled: bool,
    /// Smallest proposal amount that requires a stake
    pub min_amount: i128,
    /// Minimum stake in basis points of the proposal amount
    pub min_insurance_bps: u32,
    /// Percentage of the stake forfeited on rejection
    pub slash_percentage: u32,
}

/// Per-user notification preferences.
#[derive(Clone, Copy, Debug, PartialEq, Eq, Structural)]
pub struct NotificationPreferences {
    pub notify_on_proposal: bool,
    pub notify_on_approval: bool,
    pub notify_on_execution: bool,
    pub notify_on_rejection: bool,
    pub notify_on_expiry: bool,
}

impl NotificationPreferences {
    /// Everything on but expiry notices.
    pub fn default() -> (r: Self)
        ensures
            r.notify_on_proposal,
            r.notify_on_approval,
            r.notify_on_execution,
            r.notify_on_rejection,
            !r.notify_on_expiry,
    {
        NotificationPreferences {
            notify_on_proposal: true,
            notify_on_approval: true,
            notify_on_execution: true,
            notify_on_rejection: true,
            notify_on_expiry: false,
        }
    }
}

/// Supported external networks.
#[derive(Clone, Copy, Debug, PartialEq, Eq, Structural)]
pub enum ChainId {
    Ethereum,
    Polygon,
    BSC,
}

impl ChainId {
    pub open spec fn code_spec(self) -> u32 {
        match self {
            ChainId::Ethereum => 1,
            ChainId::Polygon => 137,
            ChainId::BSC => 56,
        }
    }

    /// The network's numeric chain id.
    pub fn code(&self) -> (r: u32)
        ensures
            r == self.code_spec(),
    {
        match self {
            ChainId::Ethereum => 1,
            ChainId::Polygon => 137,
            ChainId::BSC => 56,
        }
    }
}

/// Bridge configuration.
pub struct BridgeConfig {
    pub enabled_chains: Vec<ChainId>,
    pub bridge_addresses: Vec<BridgeAddress>,
    pub min_confirmations: Vec<ChainConfirmations>,
    pub fee_bps: u32,
    pub max_bridge_amount: i128,
}

/// Bridge address on a chain.
#[derive(Clone, Copy, Debug)]
pub struct BridgeAddress {
    pub chain_id: ChainId,
    pub address_hash: Hash32,
}

/// Confirmations required on a chain.
#[derive(Clone, Copy, Debug, PartialEq, Eq, Structural)]
pub struct ChainConfirmations {
    pub chain_id: ChainId,
    pub confirmations: u32,
}

/// Transfer proposal towards another chain.
pub struct CrossChainProposal {
    pub id: u64,
    pub proposer: Address,
    pub target_chain: ChainId,
    pub recipient_hash: Hash32,
    pub token: Address,
    pub amount: i128,
    pub memo: Symbol,
    pub approvals: Vec<Address>,
    pub status: ProposalStatus,
    pub priority: Priority,
    pub created_at: u64,
    pub expires_at: u64,
    pub unlock_ledger: u64,
    pub bridge_tx_hash: Option<Hash32>,
}

/// Asset in transit over a bridge.
pub struct CrossChainAsset {
    pub id: u64,
    pub source_chain: Symbol,
    pub target_chain: ChainId,
    pub token: Address,
    pub amount: i128,
    pub bridge_tx_hash: Hash32,
    pub confirmations: u32,
    pub required_confirmations: u32,
    pub status: u32,
    pub timestamp: u64,
}

/// Parameters of a cross-chain transfer proposal.
pub struct CrossChainTransferParams {
    pub target_chain: ChainId,
    pub recipient_hash: Hash32,
    pub token: Address,
    pub amount: i128,
    pub memo: Symbol,
    pub priority: Priority,
}

} // verus!
