use fractional_custody::ledger::ContributionLedger;
use fractional_custody::lifecycle::create_listing;
use fractional_custody::lifecycle::initialize_config;
use fractional_custody::records::ErrorCode;
use fractional_custody::records::Listing;
use fractional_custody::records::ListingStatus;

const NFT_MINT: u64 = 501;
const SELLER: u64 = 7;
const VAULT: u64 = 601;
const LISTING_KEY: u64 = 1000;
const ALICE: u64 = 41;
const BOB: u64 = 42;
const CAROL: u64 = 43;

fn open_listing(now: i64) -> Listing {
    let config = initialize_config(11, 22, 100).unwrap();
    create_listing(
        &config,
        NFT_MINT,
        SELLER,
        VAULT,
        NFT_MINT,
        SELLER,
        1,
        10_000_000_000,
        86400,
        now,
    )
    .unwrap()
}

#[test]
fn the_books_stay_balanced_across_wallets() {
    let mut ledger = ContributionLedger::new(LISTING_KEY, open_listing(1_000));
    ledger.contribute(ALICE, 1_000, 3000).unwrap();
    ledger.contribute(BOB, 1_000, 2500).unwrap();
    ledger.contribute(CAROL, 1_000, 500).unwrap();
    assert_eq!(ledger.listing.bps_sold, 6000);
    assert_eq!(ledger.stake_of(ALICE), 3000);
    assert_eq!(ledger.stake_of(BOB), 2500);
    assert_eq!(ledger.stake_of(CAROL), 500);
    assert_eq!(ledger.stake_of(999), 0);
    let total: u32 = ledger.contributions.iter().map(|c| c.bps as u32).sum();
    assert_eq!(total, ledger.listing.bps_sold as u32);
}

#[test]
fn top_ups_stay_in_one_record_per_wallet() {
    let mut ledger = ContributionLedger::new(LISTING_KEY, open_listing(1_000));
    ledger.contribute(ALICE, 1_000, 3000).unwrap();
    ledger.contribute(ALICE, 1_000, 4000).unwrap();
    assert_eq!(ledger.contributions.len(), 1);
    assert_eq!(ledger.stake_of(ALICE), 7000);
    assert_eq!(ledger.listing.bps_sold, 7000);
}

#[test]
fn the_last_basis_point_funds_the_listing() {
    let mut ledger = ContributionLedger::new(LISTING_KEY, open_listing(1_000));
    ledger.contribute(ALICE, 1_000, 9999).unwrap();
    assert_eq!(ledger.listing.status, ListingStatus::Open);
    ledger.contribute(BOB, 2_000, 1).unwrap();
    assert_eq!(ledger.listing.status, ListingStatus::Funded);
    assert_eq!(ledger.listing.funded_at, 2_000);
    assert_eq!(ledger.listing.bps_sold, 10000);
}

#[test]
fn a_failed_contribution_leaves_no_trace() {
    let mut ledger = ContributionLedger::new(LISTING_KEY, open_listing(1_000));
    ledger.contribute(ALICE, 1_000, 3000).unwrap();
    let r = ledger.contribute(BOB, 1_000, 8000);
    assert_eq!(r, Err(ErrorCode::ExceedsAvailable));
    assert_eq!(ledger.contributions.len(), 1);
    assert_eq!(ledger.listing.bps_sold, 3000);
}

#[test]
fn refunds_through_the_ledger_are_idempotent() {
    let mut ledger = ContributionLedger::new(LISTING_KEY, open_listing(1_000));
    let payment = ledger.contribute(ALICE, 1_000, 2500).unwrap();
    assert_eq!(payment, 2_525_000_000);
    let deadline: i64 = 1_000 + 86400;
    let refunded = ledger.process_refund(ALICE, payment, deadline).unwrap();
    assert_eq!(refunded, payment);
    assert_eq!(ledger.listing.status, ListingStatus::Expired);
    let again = ledger.process_refund(ALICE, payment, deadline);
    assert_eq!(again, Err(ErrorCode::AlreadyRefunded));
    assert_eq!(ledger.stake_of(ALICE), 2500);
}

#[test]
fn a_stranger_cannot_draw_a_refund() {
    let mut ledger = ContributionLedger::new(LISTING_KEY, open_listing(1_000));
    ledger.contribute(ALICE, 1_000, 2500).unwrap();
    let r = ledger.process_refund(BOB, 2_525_000_000, 1_000 + 86400);
    assert_eq!(r, Err(ErrorCode::Unauthorized));
}

#[test]
fn an_expired_listing_takes_no_more_contributions() {
    let mut ledger = ContributionLedger::new(LISTING_KEY, open_listing(1_000));
    ledger.contribute(ALICE, 1_000, 2500).unwrap();
    ledger.process_refund(ALICE, 2_525_000_000, 1_000 + 86400).unwrap();
    let r = ledger.contribute(BOB, 1_000 + 86400, 100);
    assert_eq!(r, Err(ErrorCode::InvalidListingStatus));
}
