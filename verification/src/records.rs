//! The persisted record types and their invariants.
//!
//! Every record lives in an external store at an address derived from its
//! logical key (the listing from its asset, the contribution from its
//! listing and wallet, and so on).  Identities and addresses are plain
//! 64-bit ids here; `0` stands for the all-zero identity that no real
//! caller holds, which is what a freshly allocated, zero-filled record
//! carries before its first use.

use vstd::prelude::*;

verus! {

/// How many basis points make up the whole: 10000 bps = 100%.
pub const BPS_DENOMINATOR: u64 = 10000;

/// The one custody fee rate the engine accepts, in basis points (1%).
pub const REQUIRED_CUSTODY_FEE_BPS: u16 = 100;

/// Seconds a fully funded listing stays executable before contributors
/// may take refunds instead.
pub const EXECUTION_WINDOW_SECS: i64 = 86400;

/// Safety margin before a deadline within which contributions and votes
/// are no longer accepted.
pub const DEADLINE_MARGIN_SECS: i64 = 60;

/// Smallest accepted deadline offset, in seconds (one hour).
pub const MIN_DEADLINE_OFFSET: i64 = 3600;

/// Largest accepted deadline offset, in seconds (one week).
pub const MAX_DEADLINE_OFFSET: i64 = 604800;

/// Strict-majority threshold: a proposal is approved the moment its
/// yes-share exceeds this many basis points.
pub const APPROVAL_THRESHOLD_BPS: u16 = 5000;

/// Where a listing stands in its lifecycle.
///
/// `Refunded` and `Sold` are reserved terminal states: no operation of
/// this engine currently produces them, but stored records may carry them.
#[derive(Clone, Copy, Debug, PartialEq, Eq, Structural)]
pub enum ListingStatus {
    Open,
    Funded,
    Custodied,
    Expired,
    Refunded,
    Sold,
}

/// Where a proposal stands.
///
/// Only `Active` and `Approved` are currently produced; the remaining
/// states are reserved.  A proposal whose deadline passes below the
/// approval threshold stays `Active` forever: the engine has no
/// finalize-after-deadline path, by design.
#[derive(Clone, Copy, Debug, PartialEq, Eq, Structural)]
pub enum ProposalStatus {
    Active,
    Approved,
    Rejected,
    Expired,
    Executed,
}

/// A voter's choice on a proposal.
#[derive(Clone, Copy, Debug, PartialEq, Eq, Structural)]
pub enum Vote {
    Yes,
    No,
}

/// Why an operation was refused.  Every operation either returns one of
/// these and leaves every record exactly as it was, or succeeds.
#[derive(Clone, Copy, Debug, PartialEq, Eq, Structural)]
pub enum ErrorCode {
    MathOverflow,
    InvalidFee,
    InvalidAmount,
    InvalidDeadline,
    InvalidNftOwnership,
    InvalidMint,
    InvalidListingStatus,
    InvalidBps,
    ListingExpired,
    ExceedsAvailable,
    Unauthorized,
    AlreadyRefunded,
    ListingNotExpired,
    NoVotingPower,
    InvalidProposalStatus,
    VotingEnded,
    InvalidVault,
    InvalidFeeVault,
    InvalidProposal,
    InvalidRewardRegistry,
    NothingToClaim,
    InvalidContribution,
    NotRefundable,
    ExecutionWindowExpired,
    ExecutionWindowNotExpired,
    InsufficientListingLamports,
    InvalidClaimRecord,
}

/// The process-wide configuration singleton, written once at
/// initialization and immutable thereafter.
///
/// `authority` is stored for operational tooling but grants no power over
/// escrowed assets or funds; no operation of this engine reads it.
#[derive(Clone, Copy, Debug, PartialEq, Eq, Structural)]
pub struct Config {
    pub authority: u64,
    pub custody_fee_bps: u16,
    pub fee_vault: u64,
}

impl Config {
    /// A configuration the engine accepts: the custody fee rate is the
    /// one fixed rate.
    pub open spec fn wf(self) -> bool {
        self.custody_fee_bps == REQUIRED_CUSTODY_FEE_BPS
    }
}

/// One listed asset and the state machine around its sale.
#[derive(Clone, Copy, Debug, PartialEq, Eq, Structural)]
pub struct Listing {
    pub nft_mint: u64,
    pub nft_seller: u64,
    pub price_lamports: u64,
    pub custody_fee_lamports: u64,
    pub total_raise_lamports: u64,
    pub bps_sold: u16,
    pub deadline: i64,
    pub funded_at: i64,
    pub status: ListingStatus,
    pub vault: u64,
    pub proposal_count: u32,
}

impl Listing {
    /// The listing invariant, established at creation and preserved by
    /// every operation: the price is positive, no more than the whole
    /// 10000 bps are ever sold, the custody fee is exactly 1% of the
    /// price rounded down, and the raise target is exactly price plus
    /// fee (in particular their sum fits in a `u64`).
    pub open spec fn wf(self) -> bool {
        &&& self.price_lamports >= 1
        &&& self.bps_sold <= BPS_DENOMINATOR
        &&& self.custody_fee_lamports
            == self.price_lamports * REQUIRED_CUSTODY_FEE_BPS / BPS_DENOMINATOR as int
        &&& self.total_raise_lamports == self.price_lamports + self.custody_fee_lamports
    }
}

/// The cumulative stake of one wallet in one listing.
#[derive(Clone, Copy, Debug, PartialEq, Eq, Structural)]
pub struct Contribution {
    pub listing: u64,
    pub wallet: u64,
    pub bps: u16,
    pub principal_lamports: u64,
    pub fee_lamports: u64,
    pub refund_claimed: bool,
}

impl Contribution {
    /// No single wallet can hold more than the whole.
    pub open spec fn wf(self) -> bool {
        self.bps <= BPS_DENOMINATOR
    }
}

/// A proposed onward sale of a custodied asset, put to a vote.
#[derive(Clone, Copy, Debug, PartialEq, Eq, Structural)]
pub struct Proposal {
    pub listing: u64,
    pub proposer: u64,
    pub proposal_id: u32,
    pub sale_price_lamports: u64,
    pub vote_deadline: i64,
    pub yes_bps: u16,
    pub no_bps: u16,
    pub status: ProposalStatus,
}

/// One wallet's vote on one proposal, weighted by its stake at cast
/// time.  The store's create-once guarantee at the (proposal, voter)
/// address is the sole defence against double voting.
#[derive(Clone, Copy, Debug, PartialEq, Eq, Structural)]
pub struct VoteRecord {
    pub proposal: u64,
    pub voter: u64,
    pub bps_voted: u16,
    pub vote: Vote,
}

/// The running totals of rewards deposited for, and paid out of, one
/// listing in one reward asset.
#[derive(Clone, Copy, Debug, PartialEq, Eq, Structural)]
pub struct RewardRegistry {
    pub listing: u64,
    pub reward_mint: u64,
    pub total_amount: u64,
    pub claimed_amount: u64,
}

impl RewardRegistry {
    /// Never more is paid out than was deposited.
    pub open spec fn wf(self) -> bool {
        self.claimed_amount <= self.total_amount
    }
}

/// One claimant's running total of rewards already paid out of one
/// registry.
#[derive(Clone, Copy, Debug, PartialEq, Eq, Structural)]
pub struct ClaimRecord {
    pub registry: u64,
    pub claimer: u64,
    pub claimed_amount: u64,
}

} // verus!
