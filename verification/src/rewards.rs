//! Reward distribution: deposits into a per-listing registry and
//! proportional, monotonic, replay-safe claims against it.
//!
//! A registry accumulates every deposit ever made for a listing in one
//! reward asset.  A contributor's entitlement is a floor share of that
//! entire historical total, so it grows retroactively with each deposit;
//! what a claim pays is the entitlement minus what the claimant was
//! already paid, capped by what the registry still holds.  Both running
//! counters only ever grow.

use vstd::prelude::*;

verus! {

use crate::math::bps_share;
use crate::math::lemma_bps_share_bounds;
use crate::math::lemma_bps_share_monotonic;
use crate::math::share;
use crate::records::ClaimRecord;
use crate::records::Contribution;
use crate::records::ErrorCode;
use crate::records::Listing;
use crate::records::ListingStatus;
use crate::records::RewardRegistry;

/// What `register_reward` does to the registry at the
/// (`listing_key`, `reward_mint`) address — zero-filled when freshly
/// allocated.  The caller moves `amount` reward units into the
/// registry's vault atomically with this accounting.
pub open spec fn spec_register_reward(
    listing: Listing,
    registry: RewardRegistry,
    listing_key: u64,
    reward_mint: u64,
    depositor: u64,
    depositor_token_mint: u64,
    depositor_token_owner: u64,
    amount: u64,
) -> Result<RewardRegistry, ErrorCode> {
    if depositor_token_mint != reward_mint {
        Err(ErrorCode::InvalidMint)
    } else if depositor_token_owner != depositor {
        Err(ErrorCode::Unauthorized)
    } else if listing.status != ListingStatus::Custodied {
        Err(ErrorCode::InvalidListingStatus)
    } else if amount == 0 {
        Err(ErrorCode::InvalidAmount)
    } else if registry.total_amount + amount > u64::MAX {
        Err(ErrorCode::MathOverflow)
    } else {
        Ok((RewardRegistry {
            listing: listing_key,
            reward_mint,
            total_amount: (registry.total_amount + amount) as u64,
            claimed_amount: registry.claimed_amount,
        }))
    }
}

/// Deposit `amount` reward units for a custodied listing.  Deposits
/// accumulate across calls, so rewards can be funded in stages; the
/// registry's total never decreases.
pub fn register_reward(
    listing: &Listing,
    registry: &mut RewardRegistry,
    listing_key: u64,
    reward_mint: u64,
    depositor: u64,
    depositor_token_mint: u64,
    depositor_token_owner: u64,
    amount: u64,
) -> (r: Result<(), ErrorCode>)
    requires
        old(registry).wf(),
    ensures
        (match spec_register_reward(
            *listing,
            *old(registry),
            listing_key,
            reward_mint,
            depositor,
            depositor_token_mint,
            depositor_token_owner,
            amount,
        ) {
            Ok(step) => r == Ok::<(), ErrorCode>(()) && *final(registry) == step,
            Err(e) => r == Err::<(), ErrorCode>(e) && *final(registry) == *old(registry),
        }),
        final(registry).wf(),
        final(registry).total_amount >= old(registry).total_amount,
        final(registry).claimed_amount == old(registry).claimed_amount,
        r is Ok ==> final(registry).total_amount == old(registry).total_amount + amount,
        r is Err ==> *final(registry) == *old(registry),
{
    if depositor_token_mint != reward_mint {
        return Err(ErrorCode::InvalidMint);
    }
    if depositor_token_owner != depositor {
        return Err(ErrorCode::Unauthorized);
    }
    if listing.status != ListingStatus::Custodied {
        return Err(ErrorCode::InvalidListingStatus);
    }
    if amount == 0 {
        return Err(ErrorCode::InvalidAmount);
    }
    let new_total = match registry.total_amount.checked_add(amount) {
        Some(t) => t,
        None => { return Err(ErrorCode::MathOverflow); },
    };
    registry.listing = listing_key;
    registry.reward_mint = reward_mint;
    registry.total_amount = new_total;
    Ok(())
}

/// What `claim_reward` does to the registry and to the claimant's
/// record at the (`registry_key`, `claimer`) address — zero-filled when
/// freshly allocated, which the all-zero `claimer` field marks.  The
/// entitlement is a floor share of the registry's whole historical
/// total; the payout is what is still owed of it, capped by what the
/// registry has left, and must be positive.
pub open spec fn spec_claim_reward(
    listing: Listing,
    c: Contribution,
    registry: RewardRegistry,
    record: ClaimRecord,
    listing_key: u64,
    registry_key: u64,
    claimer: u64,
) -> Result<(RewardRegistry, ClaimRecord, u64), ErrorCode> {
    if c.wallet != claimer {
        Err(ErrorCode::Unauthorized)
    } else if registry.listing != listing_key {
        Err(ErrorCode::InvalidRewardRegistry)
    } else if listing.status != ListingStatus::Custodied {
        Err(ErrorCode::InvalidListingStatus)
    } else if c.bps == 0 {
        Err(ErrorCode::NoVotingPower)
    } else if record.claimer != 0 && record.registry != registry_key {
        Err(ErrorCode::InvalidClaimRecord)
    } else if record.claimer != 0 && record.claimer != claimer {
        Err(ErrorCode::InvalidClaimRecord)
    } else if registry.total_amount * c.bps > u64::MAX {
        Err(ErrorCode::MathOverflow)
    } else {
        let already_claimed = if record.claimer == 0 {
            0
        } else {
            record.claimed_amount as int
        };
        let claimable_total = bps_share(registry.total_amount as int, c.bps as int);
        if claimable_total <= already_claimed {
            Err(ErrorCode::NothingToClaim)
        } else {
            let owed = claimable_total - already_claimed;
            let remaining_global = registry.total_amount - registry.claimed_amount;
            let payout = if owed <= remaining_global {
                owed
            } else {
                remaining_global
            };
            if payout <= 0 {
                Err(ErrorCode::NothingToClaim)
            } else {
                Ok((
                    (RewardRegistry {
                        claimed_amount: (registry.claimed_amount + payout) as u64,
                        ..registry
                    }),
                    (ClaimRecord {
                        registry: registry_key,
                        claimer,
                        claimed_amount: (already_claimed + payout) as u64,
                    }),
                    payout as u64,
                ))
            }
        }
    }
}

/// Pay a contributor their share of everything deposited so far, minus
/// what they were already paid.  Fails with `NothingToClaim` when
/// nothing new is owed.  Both the registry's and the claimant's running
/// totals only grow, and the claimant's never exceeds their entitlement
/// `total_amount * bps / 10000`.  The caller pays the returned amount
/// out of the registry's vault, under the registry's own authority.
pub fn claim_reward(
    listing: &Listing,
    c: &Contribution,
    registry: &mut RewardRegistry,
    record: &mut ClaimRecord,
    listing_key: u64,
    registry_key: u64,
    claimer: u64,
) -> (r: Result<u64, ErrorCode>)
    requires
        old(registry).wf(),
        c.wf(),
        c.listing == listing_key,
        old(record).claimer == 0 ==> old(record).claimed_amount == 0,
    ensures
        (match spec_claim_reward(
            *listing,
            *c,
            *old(registry),
            *old(record),
            listing_key,
            registry_key,
            claimer,
        ) {
            Ok(step) => r == Ok::<u64, ErrorCode>(step.2) && *final(registry) == step.0
                && *final(record) == step.1,
            Err(e) => r == Err::<u64, ErrorCode>(e) && *final(registry) == *old(registry)
                && *final(record) == *old(record),
        }),
        final(registry).wf(),
        final(registry).claimed_amount >= old(registry).claimed_amount,
        final(registry).total_amount == old(registry).total_amount,
        final(record).claimed_amount >= old(record).claimed_amount,
        r is Ok ==> final(record).claimed_amount <= bps_share(
            final(registry).total_amount as int,
            c.bps as int,
        ),
        r is Ok ==> final(registry).claimed_amount == old(registry).claimed_amount + r->Ok_0
            && final(record).claimed_amount == (if old(record).claimer == 0 {
            0int
        } else {
            old(record).claimed_amount as int
        }) + r->Ok_0 && r->Ok_0 >= 1,
        r is Err ==> *final(registry) == *old(registry) && *final(record) == *old(record),
{
    if c.wallet != claimer {
        return Err(ErrorCode::Unauthorized);
    }
    if registry.listing != listing_key {
        return Err(ErrorCode::InvalidRewardRegistry);
    }
    if listing.status != ListingStatus::Custodied {
        return Err(ErrorCode::InvalidListingStatus);
    }
    if c.bps == 0 {
        return Err(ErrorCode::NoVotingPower);
    }
    if record.claimer != 0 {
        if record.registry != registry_key {
            return Err(ErrorCode::InvalidClaimRecord);
        }
        if record.claimer != claimer {
            return Err(ErrorCode::InvalidClaimRecord);
        }
    }
    let already_claimed: u64 = if record.claimer == 0 {
        0
    } else {
        record.claimed_amount
    };
    let claimable_total = match share(registry.total_amount, c.bps) {
        Ok(t) => t,
        Err(e) => { return Err(e); },
    };
    proof {
        lemma_bps_share_bounds(registry.total_amount as int, c.bps as int);
    }
    if claimable_total <= already_claimed {
        return Err(ErrorCode::NothingToClaim);
    }
    let owed = claimable_total - already_claimed;
    let remaining_global = registry.total_amount - registry.claimed_amount;
    let payout = if owed <= remaining_global {
        owed
    } else {
        remaining_global
    };
    if payout == 0 {
        return Err(ErrorCode::NothingToClaim);
    }
    record.registry = registry_key;
    record.claimer = claimer;
    record.claimed_amount = already_claimed + payout;
    registry.claimed_amount = registry.claimed_amount + payout;
    Ok(payout)
}

/// A claimant's running total never outgrows their entitlement.
/// `claim_reward` leaves a successful claimant at or below
/// `total_amount * bps / 10000` (its postcondition), and this law
/// closes the other half: a deposit only raises that cap, so a record
/// once under its cap stays under it across any sequence of deposits
/// and claims.
pub proof fn lemma_claim_cap_survives_deposit(
    record: ClaimRecord,
    before: RewardRegistry,
    after: RewardRegistry,
    bps: u16,
)
    requires
        record.claimed_amount <= bps_share(before.total_amount as int, bps as int),
        before.total_amount <= after.total_amount,
    ensures
        record.claimed_amount <= bps_share(after.total_amount as int, bps as int),
{
    lemma_bps_share_monotonic(before.total_amount as int, after.total_amount as int, bps as int);
}

} // verus!
