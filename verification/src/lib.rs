//! An escrow-and-governance engine for the collective purchase of a
//! non-fungible asset.
//!
//! A seller lists an asset at a price; contributors buy fractional shares
//! of it in basis points; once the full 10000 bps are sold the pooled funds
//! buy the asset into joint custody; contributors then vote on proposals
//! and claim proportional shares of deposited rewards.
//!
//! The crate is the accounting core alone: every operation is a function
//! from the records it touches, the caller's identity and the current
//! time to the new records and the value transfer it authorises.  Durable
//! storage of the records, the actual movement of assets and funds, and
//! the clock are the surrounding runtime's concern; identities and record
//! addresses appear here as plain 64-bit ids.

pub mod governance;
pub mod ledger;
pub mod lifecycle;
pub mod math;
pub mod records;
pub mod rewards;
