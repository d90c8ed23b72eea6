//! The listing lifecycle: configuration, creation, contribution intake,
//! purchase execution, refunds and asset reclamation.
//!
//! Each operation is given as a spec-level transition on the records it
//! touches, and as an executable function proved to either perform
//! exactly that transition or return its error with every record
//! unchanged.  The caller (the surrounding runtime) reads the clock,
//! fetches the records from the store at their derived addresses, and
//! performs the value transfer an operation returns; a transfer failure
//! there aborts the whole operation before any record is written back.

use vstd::prelude::*;

verus! {

use crate::math::bps_share;
use crate::math::lemma_bps_share_bounds;
use crate::math::lemma_bps_share_split;
use crate::math::share;
use crate::records::BPS_DENOMINATOR;
use crate::records::Config;
use crate::records::Contribution;
use crate::records::DEADLINE_MARGIN_SECS;
use crate::records::ErrorCode;
use crate::records::EXECUTION_WINDOW_SECS;
use crate::records::Listing;
use crate::records::ListingStatus;
use crate::records::MAX_DEADLINE_OFFSET;
use crate::records::MIN_DEADLINE_OFFSET;
use crate::records::REQUIRED_CUSTODY_FEE_BPS;

/// What `initialize_config` produces: the configuration record, or the
/// one error it can raise.  Creation-once at the config address is the
/// store's guarantee, so re-initialization never reaches this logic.
pub open spec fn spec_initialize_config(authority: u64, fee_vault: u64, custody_fee_bps: u16)
    -> Result<Config, ErrorCode>
{
    if custody_fee_bps != REQUIRED_CUSTODY_FEE_BPS {
        Err(ErrorCode::InvalidFee)
    } else {
        Ok((Config { authority, custody_fee_bps, fee_vault }))
    }
}

/// Create the configuration singleton.  Accepts exactly the one fixed
/// custody fee rate and records the caller as its (operational, not
/// custodial) authority.
pub fn initialize_config(authority: u64, fee_vault: u64, custody_fee_bps: u16)
    -> (r: Result<Config, ErrorCode>)
    ensures
        r == spec_initialize_config(authority, fee_vault, custody_fee_bps),
        custody_fee_bps == REQUIRED_CUSTODY_FEE_BPS ==> (r matches Ok(c)
            && c.wf()
            && c.authority == authority
            && c.fee_vault == fee_vault
            && c.custody_fee_bps == custody_fee_bps),
        custody_fee_bps != REQUIRED_CUSTODY_FEE_BPS
            ==> r == Err::<Config, ErrorCode>(ErrorCode::InvalidFee),
{
    if custody_fee_bps != REQUIRED_CUSTODY_FEE_BPS {
        return Err(ErrorCode::InvalidFee);
    }
    Ok(Config { authority, custody_fee_bps, fee_vault })
}

/// What `create_listing` produces from the seller's asset holding and
/// the parameters: the fresh `Open` listing, or the first error in
/// validation order.  The caller escrows the one asset unit into the
/// vault atomically with creating the record.
pub open spec fn spec_create_listing(
    config: Config,
    nft_mint: u64,
    seller: u64,
    vault: u64,
    seller_nft_mint: u64,
    seller_nft_owner: u64,
    seller_nft_amount: u64,
    price_lamports: u64,
    deadline_offset: i64,
    now: int,
) -> Result<Listing, ErrorCode> {
    if seller_nft_mint != nft_mint {
        Err(ErrorCode::InvalidMint)
    } else if seller_nft_owner != seller {
        Err(ErrorCode::InvalidNftOwnership)
    } else if price_lamports == 0 {
        Err(ErrorCode::InvalidAmount)
    } else if !(MIN_DEADLINE_OFFSET <= deadline_offset <= MAX_DEADLINE_OFFSET) {
        Err(ErrorCode::InvalidDeadline)
    } else if seller_nft_amount != 1 {
        Err(ErrorCode::InvalidNftOwnership)
    } else if price_lamports * config.custody_fee_bps > u64::MAX {
        Err(ErrorCode::MathOverflow)
    } else if price_lamports + bps_share(price_lamports as int, config.custody_fee_bps as int)
        > u64::MAX {
        Err(ErrorCode::MathOverflow)
    } else if now + deadline_offset > i64::MAX {
        Err(ErrorCode::MathOverflow)
    } else {
        let custody_fee = bps_share(price_lamports as int, config.custody_fee_bps as int) as u64;
        Ok((Listing {
            nft_mint,
            nft_seller: seller,
            price_lamports,
            custody_fee_lamports: custody_fee,
            total_raise_lamports: (price_lamports + custody_fee) as u64,
            bps_sold: 0,
            deadline: (now + deadline_offset) as i64,
            funded_at: 0,
            status: ListingStatus::Open,
            vault,
            proposal_count: 0,
        }))
    }
}

/// Create a listing for one unit of an asset.  The seller must hold
/// exactly that unit; the price must be positive and the deadline offset
/// between one hour and one week.  The custody fee is 1% of the price
/// rounded down, and the raise target is price plus fee, exactly.
pub fn create_listing(
    config: &Config,
    nft_mint: u64,
    seller: u64,
    vault: u64,
    seller_nft_mint: u64,
    seller_nft_owner: u64,
    seller_nft_amount: u64,
    price_lamports: u64,
    deadline_offset: i64,
    now: i64,
) -> (r: Result<Listing, ErrorCode>)
    requires
        config.wf(),
    ensures
        r == spec_create_listing(
            *config,
            nft_mint,
            seller,
            vault,
            seller_nft_mint,
            seller_nft_owner,
            seller_nft_amount,
            price_lamports,
            deadline_offset,
            now as int,
        ),
        r matches Ok(l) ==> l.wf()
            && l.custody_fee_lamports == bps_share(
            price_lamports as int,
            REQUIRED_CUSTODY_FEE_BPS as int,
        )
            && l.total_raise_lamports == price_lamports + l.custody_fee_lamports
            && l.status is Open
            && l.bps_sold == 0
            && l.funded_at == 0
            && l.proposal_count == 0
            && l.deadline == now + deadline_offset
            && l.price_lamports == price_lamports
            && l.nft_mint == nft_mint
            && l.nft_seller == seller
            && l.vault == vault,
{
    if seller_nft_mint != nft_mint {
        return Err(ErrorCode::InvalidMint);
    }
    if seller_nft_owner != seller {
        return Err(ErrorCode::InvalidNftOwnership);
    }
    if price_lamports == 0 {
        return Err(ErrorCode::InvalidAmount);
    }
    if !(MIN_DEADLINE_OFFSET <= deadline_offset && deadline_offset <= MAX_DEADLINE_OFFSET) {
        return Err(ErrorCode::InvalidDeadline);
    }
    if seller_nft_amount != 1 {
        return Err(ErrorCode::InvalidNftOwnership);
    }
    let custody_fee = match share(price_lamports, config.custody_fee_bps) {
        Ok(fee) => fee,
        Err(e) => { return Err(e); },
    };
    let total_raise = match price_lamports.checked_add(custody_fee) {
        Some(t) => t,
        None => { return Err(ErrorCode::MathOverflow); },
    };
    let deadline = match now.checked_add(deadline_offset) {
        Some(d) => d,
        None => { return Err(ErrorCode::MathOverflow); },
    };
    Ok(Listing {
        nft_mint,
        nft_seller: seller,
        price_lamports,
        custody_fee_lamports: custody_fee,
        total_raise_lamports: total_raise,
        bps_sold: 0,
        deadline,
        funded_at: 0,
        status: ListingStatus::Open,
        vault,
        proposal_count: 0,
    })
}

/// What `contribute` does to the listing and to the contributor's
/// record.  `c` is the record at the address derived from
/// (`listing_key`, `contributor`): zero-filled when freshly allocated,
/// the wallet's accumulated stake otherwise.  On success the result
/// carries the payment (principal plus fee share) the contributor owes
/// the listing's pool.
pub open spec fn spec_contribute(
    listing: Listing,
    c: Contribution,
    listing_key: u64,
    contributor: u64,
    now: int,
    bps: u16,
) -> Result<(Listing, Contribution, u64), ErrorCode> {
    if listing.status != ListingStatus::Open {
        Err(ErrorCode::InvalidListingStatus)
    } else if !(1 <= bps <= BPS_DENOMINATOR) {
        Err(ErrorCode::InvalidBps)
    } else if !(now < listing.deadline - DEADLINE_MARGIN_SECS) {
        Err(ErrorCode::ListingExpired)
    } else if bps > BPS_DENOMINATOR - listing.bps_sold {
        Err(ErrorCode::ExceedsAvailable)
    } else if listing.price_lamports * bps > u64::MAX {
        Err(ErrorCode::MathOverflow)
    } else if listing.custody_fee_lamports * bps > u64::MAX {
        Err(ErrorCode::MathOverflow)
    } else {
        let principal = bps_share(listing.price_lamports as int, bps as int);
        let fee_share = bps_share(listing.custody_fee_lamports as int, bps as int);
        if principal + fee_share > u64::MAX {
            Err(ErrorCode::MathOverflow)
        } else if c.bps != 0 && c.listing != listing_key {
            Err(ErrorCode::InvalidContribution)
        } else if c.bps != 0 && c.wallet != contributor {
            Err(ErrorCode::InvalidContribution)
        } else if c.bps != 0 && c.refund_claimed {
            Err(ErrorCode::AlreadyRefunded)
        } else if c.bps + bps > u16::MAX {
            Err(ErrorCode::MathOverflow)
        } else if c.principal_lamports + principal > u64::MAX {
            Err(ErrorCode::MathOverflow)
        } else if c.fee_lamports + fee_share > u64::MAX {
            Err(ErrorCode::MathOverflow)
        } else {
            let new_sold = (listing.bps_sold + bps) as u16;
            let funded = new_sold == BPS_DENOMINATOR;
            Ok((
                (Listing {
                    bps_sold: new_sold,
                    status: if funded {
                        ListingStatus::Funded
                    } else {
                        ListingStatus::Open
                    },
                    funded_at: if funded {
                        now as i64
                    } else {
                        listing.funded_at
                    },
                    ..listing
                }),
                (Contribution {
                    listing: listing_key,
                    wallet: contributor,
                    bps: (c.bps + bps) as u16,
                    principal_lamports: (c.principal_lamports + principal) as u64,
                    fee_lamports: (c.fee_lamports + fee_share) as u64,
                    refund_claimed: false,
                }),
                (principal + fee_share) as u64,
            ))
        }
    }
}

/// Buy `bps` basis points of an `Open` listing, before the 60-second
/// safety margin ahead of its deadline and within the share still
/// unsold.  The payment returned on success is the contributor's
/// principal plus the matching share of the custody fee, both floor
/// shares of the listing's totals; repeated calls from the same wallet
/// top up one record until it is refunded.  The listing flips to
/// `Funded`, stamped with the current time, the instant the full 10000
/// bps are sold.  On any error both records are unchanged.
///
/// The caller hands in the contribution record the store keeps at the
/// (`listing_key`, `contributor`) address; the precondition that its
/// stake does not exceed the listing's sold share is the store's
/// bookkeeping invariant (see `ledger`).
pub fn contribute(
    listing: &mut Listing,
    c: &mut Contribution,
    listing_key: u64,
    contributor: u64,
    now: i64,
    bps: u16,
) -> (r: Result<u64, ErrorCode>)
    requires
        old(listing).wf(),
        old(c).wf(),
        old(c).bps > 0 && old(c).listing == listing_key && old(c).wallet == contributor
            ==> old(c).bps <= old(listing).bps_sold,
    ensures
        (match spec_contribute(*old(listing), *old(c), listing_key, contributor, now as int, bps) {
            Ok(step) => r == Ok::<u64, ErrorCode>(step.2) && *final(listing) == step.0 && *final(c)
                == step.1,
            Err(e) => r == Err::<u64, ErrorCode>(e) && *final(listing) == *old(listing) && *final(c)
                == *old(c),
        }),
        final(listing).wf(),
        final(c).wf(),
        r is Ok ==> final(listing).bps_sold == old(listing).bps_sold + bps && final(c).bps == old(
            c,
        ).bps + bps,
        r is Ok ==> final(listing).status == (if old(listing).bps_sold + bps == BPS_DENOMINATOR {
            ListingStatus::Funded
        } else {
            ListingStatus::Open
        }),
        r is Err ==> *final(listing) == *old(listing) && *final(c) == *old(c),
{
    if listing.status != ListingStatus::Open {
        return Err(ErrorCode::InvalidListingStatus);
    }
    if !(1 <= bps && bps as u64 <= BPS_DENOMINATOR) {
        return Err(ErrorCode::InvalidBps);
    }
    if !((now as i128) < (listing.deadline as i128) - (DEADLINE_MARGIN_SECS as i128)) {
        return Err(ErrorCode::ListingExpired);
    }
    let remaining: u16 = (BPS_DENOMINATOR as u16) - listing.bps_sold;
    if bps > remaining {
        return Err(ErrorCode::ExceedsAvailable);
    }
    let principal = match share(listing.price_lamports, bps) {
        Ok(p) => p,
        Err(e) => { return Err(e); },
    };
    let fee_share = match share(listing.custody_fee_lamports, bps) {
        Ok(f) => f,
        Err(e) => { return Err(e); },
    };
    let total_payment = match principal.checked_add(fee_share) {
        Some(t) => t,
        None => { return Err(ErrorCode::MathOverflow); },
    };
    if c.bps != 0 {
        if c.listing != listing_key {
            return Err(ErrorCode::InvalidContribution);
        }
        if c.wallet != contributor {
            return Err(ErrorCode::InvalidContribution);
        }
        if c.refund_claimed {
            return Err(ErrorCode::AlreadyRefunded);
        }
    }
    let new_c_bps = match c.bps.checked_add(bps) {
        Some(b) => b,
        None => { return Err(ErrorCode::MathOverflow); },
    };
    let new_principal = match c.principal_lamports.checked_add(principal) {
        Some(p) => p,
        None => { return Err(ErrorCode::MathOverflow); },
    };
    let new_fee = match c.fee_lamports.checked_add(fee_share) {
        Some(f) => f,
        None => { return Err(ErrorCode::MathOverflow); },
    };
    c.listing = listing_key;
    c.wallet = contributor;
    c.refund_claimed = false;
    c.bps = new_c_bps;
    c.principal_lamports = new_principal;
    c.fee_lamports = new_fee;
    listing.bps_sold = listing.bps_sold + bps;
    if listing.bps_sold as u64 == BPS_DENOMINATOR {
        listing.status = ListingStatus::Funded;
        listing.funded_at = now;
    }
    Ok(total_payment)
}

/// Two successive contributions from the same wallet at the same clock
/// reading, composed at the spec level.  The third component is the
/// total paid across both calls.
pub open spec fn spec_contribute_twice(
    listing: Listing,
    c: Contribution,
    listing_key: u64,
    contributor: u64,
    now: int,
    bps1: u16,
    bps2: u16,
) -> Result<(Listing, Contribution, int), ErrorCode> {
    match spec_contribute(listing, c, listing_key, contributor, now, bps1) {
        Err(e) => Err(e),
        Ok(step1) => match spec_contribute(
            step1.0,
            step1.1,
            listing_key,
            contributor,
            now,
            bps2,
        ) {
            Err(e) => Err(e),
            Ok(step2) => Ok((step2.0, step2.1, step1.2 + step2.2)),
        },
    }
}

/// Buying a stake in increments comes to the same thing as buying it in
/// one piece.  Whenever a single contribution of `bps1 + bps2` would
/// succeed, contributing `bps1` and then `bps2` (under the same clock
/// reading, so the deadline margin gates both identically) succeeds
/// too, leaves the listing in exactly the same state — including the
/// flip to `Funded` when the last basis point sells — and leaves the
/// wallet with exactly the same stake.  Only the amounts paid may
/// differ, by at most one unit per floor-divided amount in the split's
/// favour.
pub proof fn lemma_contribute_in_increments(
    listing: Listing,
    c: Contribution,
    listing_key: u64,
    contributor: u64,
    now: int,
    bps1: u16,
    bps2: u16,
)
    requires
        listing.wf(),
        c.wf(),
        c.bps > 0 && c.listing == listing_key && c.wallet == contributor ==> c.bps
            <= listing.bps_sold,
        1 <= bps1,
        1 <= bps2,
        bps1 + bps2 <= BPS_DENOMINATOR,
        spec_contribute(listing, c, listing_key, contributor, now, (bps1 + bps2) as u16) is Ok,
    ensures
        spec_contribute_twice(listing, c, listing_key, contributor, now, bps1, bps2) is Ok,
        ({
            let once = spec_contribute(
                listing,
                c,
                listing_key,
                contributor,
                now,
                (bps1 + bps2) as u16,
            )->Ok_0;
            let twice = spec_contribute_twice(
                listing,
                c,
                listing_key,
                contributor,
                now,
                bps1,
                bps2,
            )->Ok_0;
            &&& twice.0 == once.0
            &&& twice.1.bps == once.1.bps
            &&& twice.1.wallet == once.1.wallet
            &&& twice.1.listing == once.1.listing
            &&& twice.1.refund_claimed == once.1.refund_claimed
            &&& once.1.principal_lamports - 1 <= twice.1.principal_lamports
                <= once.1.principal_lamports
            &&& once.1.fee_lamports - 1 <= twice.1.fee_lamports <= once.1.fee_lamports
            &&& once.2 - 2 <= twice.2 <= once.2
        }),
{
    let price = listing.price_lamports as int;
    let fee = listing.custody_fee_lamports as int;
    lemma_bps_share_split(price, bps1 as int, bps2 as int);
    lemma_bps_share_split(fee, bps1 as int, bps2 as int);
    lemma_bps_share_bounds(price, bps1 as int);
    lemma_bps_share_bounds(price, bps2 as int);
    lemma_bps_share_bounds(price, bps1 + bps2);
    lemma_bps_share_bounds(fee, bps1 as int);
    lemma_bps_share_bounds(fee, bps2 as int);
    lemma_bps_share_bounds(fee, bps1 + bps2);
    assert(price * bps1 <= price * (bps1 + bps2) && price * bps2 <= price * (bps1 + bps2))
        by (nonlinear_arith)
        requires
            0 <= price,
            0 <= bps1,
            0 <= bps2,
    ;
    assert(fee * bps1 <= fee * (bps1 + bps2) && fee * bps2 <= fee * (bps1 + bps2))
        by (nonlinear_arith)
        requires
            0 <= fee,
            0 <= bps1,
            0 <= bps2,
    ;
}

/// What `execute_purchase` does: close the sale of a `Funded` listing
/// within its 24-hour execution window.  On success the result carries
/// the two payouts the caller must make from the listing's pool — the
/// price to the seller and the custody fee to the fee vault — and the
/// listing is permanently `Custodied`.  A listing funded at a
/// non-positive clock reading skips the window check, exactly as stored.
pub open spec fn spec_execute_purchase(
    config: Config,
    listing: Listing,
    seller: u64,
    fee_vault: u64,
    listing_lamports: u64,
    now: int,
) -> Result<(Listing, u64, u64), ErrorCode> {
    if seller != listing.nft_seller {
        Err(ErrorCode::Unauthorized)
    } else if fee_vault != config.fee_vault {
        Err(ErrorCode::InvalidFeeVault)
    } else if listing.status != ListingStatus::Funded {
        Err(ErrorCode::InvalidListingStatus)
    } else if listing.funded_at > 0 && now > listing.funded_at + EXECUTION_WINDOW_SECS {
        Err(ErrorCode::ExecutionWindowExpired)
    } else if listing_lamports < listing.price_lamports + listing.custody_fee_lamports {
        Err(ErrorCode::InsufficientListingLamports)
    } else {
        Ok((
            (Listing { status: ListingStatus::Custodied, ..listing }),
            listing.price_lamports,
            listing.custody_fee_lamports,
        ))
    }
}

/// Execute the purchase of a fully funded listing: pay the seller the
/// price and the fee vault the custody fee out of the pooled funds, and
/// take the asset into joint custody.  Fails once the execution window
/// has elapsed — the listing then stays `Funded` and only the refund
/// path reacts to the lapse, on demand.  `listing_lamports` is the
/// pool's current balance, checked defensively against the payout.
pub fn execute_purchase(
    config: &Config,
    listing: &mut Listing,
    seller: u64,
    fee_vault: u64,
    listing_lamports: u64,
    now: i64,
) -> (r: Result<(u64, u64), ErrorCode>)
    requires
        old(listing).wf(),
    ensures
        (match spec_execute_purchase(
            *config,
            *old(listing),
            seller,
            fee_vault,
            listing_lamports,
            now as int,
        ) {
            Ok(step) => r == Ok::<(u64, u64), ErrorCode>((step.1, step.2)) && *final(listing)
                == step.0,
            Err(e) => r == Err::<(u64, u64), ErrorCode>(e) && *final(listing) == *old(listing),
        }),
        final(listing).wf(),
        r is Ok ==> final(listing).status is Custodied && old(listing).status is Funded && (r
            matches Ok(pay) && pay.0 == old(listing).price_lamports && pay.1 == old(
            listing,
        ).custody_fee_lamports),
        r is Err ==> *final(listing) == *old(listing),
{
    if seller != listing.nft_seller {
        return Err(ErrorCode::Unauthorized);
    }
    if fee_vault != config.fee_vault {
        return Err(ErrorCode::InvalidFeeVault);
    }
    if listing.status != ListingStatus::Funded {
        return Err(ErrorCode::InvalidListingStatus);
    }
    if listing.funded_at > 0 && (now as i128) > (listing.funded_at as i128) + (
    EXECUTION_WINDOW_SECS as i128) {
        return Err(ErrorCode::ExecutionWindowExpired);
    }
    let payout = listing.price_lamports + listing.custody_fee_lamports;
    if listing_lamports < payout {
        return Err(ErrorCode::InsufficientListingLamports);
    }
    listing.status = ListingStatus::Custodied;
    Ok((listing.price_lamports, listing.custody_fee_lamports))
}

/// When a contributor may take their money back: an `Open` listing past
/// its deadline, an `Expired` listing, or a `Funded` listing whose
/// 24-hour execution window has elapsed.  A custodied listing is never
/// refundable.
pub open spec fn refund_eligible(listing: Listing, now: int) -> bool {
    match listing.status {
        ListingStatus::Open => now >= listing.deadline,
        ListingStatus::Expired => true,
        ListingStatus::Funded => listing.funded_at > 0 && now >= listing.funded_at
            + EXECUTION_WINDOW_SECS,
        _ => false,
    }
}

/// What `process_refund` does: pay a contributor back their principal
/// plus fee share, once, when the listing is refund-eligible.  The first
/// refund against a still-`Open` listing past its deadline flips it to
/// `Expired` for everyone.
pub open spec fn spec_process_refund(
    listing: Listing,
    c: Contribution,
    contributor: u64,
    listing_lamports: u64,
    now: int,
) -> Result<(Listing, Contribution, u64), ErrorCode> {
    if c.wallet != contributor {
        Err(ErrorCode::Unauthorized)
    } else if c.refund_claimed {
        Err(ErrorCode::AlreadyRefunded)
    } else if !refund_eligible(listing, now) {
        Err(ErrorCode::NotRefundable)
    } else if c.principal_lamports + c.fee_lamports > u64::MAX {
        Err(ErrorCode::MathOverflow)
    } else if listing_lamports < c.principal_lamports + c.fee_lamports {
        Err(ErrorCode::InsufficientListingLamports)
    } else {
        Ok((
            (Listing {
                status: if listing.status is Open {
                    ListingStatus::Expired
                } else {
                    listing.status
                },
                ..listing
            }),
            (Contribution { refund_claimed: true, ..c }),
            (c.principal_lamports + c.fee_lamports) as u64,
        ))
    }
}

/// Refund a contributor everything they paid in — principal and fee
/// share — when the listing never completed its sale.  Idempotent per
/// contributor: a second call finds `refund_claimed` set and fails with
/// `AlreadyRefunded`, changing nothing.  `listing_lamports` is the
/// pool's current balance; the caller pays the returned amount back to
/// the contributor.
pub fn process_refund(
    listing: &mut Listing,
    c: &mut Contribution,
    contributor: u64,
    listing_lamports: u64,
    now: i64,
) -> (r: Result<u64, ErrorCode>)
    requires
        old(listing).wf(),
    ensures
        (match spec_process_refund(
            *old(listing),
            *old(c),
            contributor,
            listing_lamports,
            now as int,
        ) {
            Ok(step) => r == Ok::<u64, ErrorCode>(step.2) && *final(listing) == step.0 && *final(c)
                == step.1,
            Err(e) => r == Err::<u64, ErrorCode>(e) && *final(listing) == *old(listing) && *final(c)
                == *old(c),
        }),
        final(listing).wf(),
        old(c).wallet == contributor && old(c).refund_claimed ==> r == Err::<u64, ErrorCode>(
            ErrorCode::AlreadyRefunded,
        ) && *final(listing) == *old(listing) && *final(c) == *old(c),
        r is Ok ==> final(c).refund_claimed && final(c).bps == old(c).bps && r == Ok::<
            u64,
            ErrorCode,
        >((old(c).principal_lamports + old(c).fee_lamports) as u64),
        r is Ok && old(listing).status is Open ==> final(listing).status is Expired,
        r is Ok && !(old(listing).status is Open) ==> final(listing).status == old(listing).status,
        r is Err ==> *final(listing) == *old(listing) && *final(c) == *old(c),
{
    if c.wallet != contributor {
        return Err(ErrorCode::Unauthorized);
    }
    if c.refund_claimed {
        return Err(ErrorCode::AlreadyRefunded);
    }
    let eligible: bool = match listing.status {
        ListingStatus::Open => now >= listing.deadline,
        ListingStatus::Expired => true,
        ListingStatus::Funded => listing.funded_at > 0 && (now as i128) >= (
        listing.funded_at as i128) + (EXECUTION_WINDOW_SECS as i128),
        _ => false,
    };
    if !eligible {
        return Err(ErrorCode::NotRefundable);
    }
    let refund_amount = match c.principal_lamports.checked_add(c.fee_lamports) {
        Some(a) => a,
        None => { return Err(ErrorCode::MathOverflow); },
    };
    if listing_lamports < refund_amount {
        return Err(ErrorCode::InsufficientListingLamports);
    }
    c.refund_claimed = true;
    if listing.status == ListingStatus::Open {
        listing.status = ListingStatus::Expired;
    }
    Ok(refund_amount)
}

/// Whether `reclaim_nft` lets the seller take the escrowed asset back:
/// never once custodied, and for a still-`Open` or `Funded` listing only
/// after its deadline or execution window has passed.
pub open spec fn spec_reclaim_nft(
    listing: Listing,
    vault: u64,
    seller_nft_mint: u64,
    seller_nft_owner: u64,
    now: int,
) -> Result<(), ErrorCode> {
    if vault != listing.vault {
        Err(ErrorCode::InvalidVault)
    } else if seller_nft_mint != listing.nft_mint {
        Err(ErrorCode::InvalidMint)
    } else if seller_nft_owner != listing.nft_seller {
        Err(ErrorCode::InvalidNftOwnership)
    } else if !(listing.status is Open || listing.status is Expired || listing.status is Funded) {
        Err(ErrorCode::InvalidListingStatus)
    } else if listing.status is Open && now < listing.deadline {
        Err(ErrorCode::ListingNotExpired)
    } else if listing.status is Funded && !(listing.funded_at > 0 && now >= listing.funded_at
        + EXECUTION_WINDOW_SECS) {
        Err(ErrorCode::ExecutionWindowNotExpired)
    } else {
        Ok(())
    }
}

/// Authorise returning the escrowed asset to the seller after a failed
/// sale.  The transfer itself is signed by the listing's own escrow
/// authority, not by any human key; success here is the engine's
/// go-ahead for it.  The listing record is not modified.
pub fn reclaim_nft(
    listing: &Listing,
    vault: u64,
    seller_nft_mint: u64,
    seller_nft_owner: u64,
    now: i64,
) -> (r: Result<(), ErrorCode>)
    ensures
        r == spec_reclaim_nft(*listing, vault, seller_nft_mint, seller_nft_owner, now as int),
        r is Ok ==> !(listing.status is Custodied),
{
    if vault != listing.vault {
        return Err(ErrorCode::InvalidVault);
    }
    if seller_nft_mint != listing.nft_mint {
        return Err(ErrorCode::InvalidMint);
    }
    if seller_nft_owner != listing.nft_seller {
        return Err(ErrorCode::InvalidNftOwnership);
    }
    let status_ok: bool = match listing.status {
        ListingStatus::Open => true,
        ListingStatus::Expired => true,
        ListingStatus::Funded => true,
        _ => false,
    };
    if !status_ok {
        return Err(ErrorCode::InvalidListingStatus);
    }
    if listing.status == ListingStatus::Open && now < listing.deadline {
        return Err(ErrorCode::ListingNotExpired);
    }
    if listing.status == ListingStatus::Funded && !(listing.funded_at > 0 && (now as i128) >= (
    listing.funded_at as i128) + (EXECUTION_WINDOW_SECS as i128)) {
        return Err(ErrorCode::ExecutionWindowNotExpired);
    }
    Ok(())
}

} // verus!
