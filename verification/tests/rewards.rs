use fractional_custody::records::ClaimRecord;
use fractional_custody::records::Contribution;
use fractional_custody::records::ErrorCode;
use fractional_custody::records::Listing;
use fractional_custody::records::ListingStatus;
use fractional_custody::records::RewardRegistry;
use fractional_custody::rewards::claim_reward;
use fractional_custody::rewards::register_reward;

const LISTING_KEY: u64 = 1000;
const REGISTRY_KEY: u64 = 3000;
const REWARD_MINT: u64 = 700;
const DEPOSITOR: u64 = 60;
const ALICE: u64 = 41;
const BOB: u64 = 42;

fn custodied_listing() -> Listing {
    Listing {
        nft_mint: 501,
        nft_seller: 7,
        price_lamports: 10_000_000_000,
        custody_fee_lamports: 100_000_000,
        total_raise_lamports: 10_100_000_000,
        bps_sold: 10000,
        deadline: 1_000 + 86400,
        funded_at: 2_000,
        status: ListingStatus::Custodied,
        vault: 601,
        proposal_count: 0,
    }
}

fn fresh_registry() -> RewardRegistry {
    RewardRegistry { listing: 0, reward_mint: 0, total_amount: 0, claimed_amount: 0 }
}

fn fresh_claim_record() -> ClaimRecord {
    ClaimRecord { registry: 0, claimer: 0, claimed_amount: 0 }
}

fn stake(wallet: u64, bps: u16) -> Contribution {
    Contribution {
        listing: LISTING_KEY,
        wallet,
        bps,
        principal_lamports: 0,
        fee_lamports: 0,
        refund_claimed: false,
    }
}

fn deposit(registry: &mut RewardRegistry, amount: u64) {
    let listing = custodied_listing();
    register_reward(
        &listing,
        registry,
        LISTING_KEY,
        REWARD_MINT,
        DEPOSITOR,
        REWARD_MINT,
        DEPOSITOR,
        amount,
    )
    .unwrap();
}

#[test]
fn deposits_accumulate_in_the_registry() {
    let mut registry = fresh_registry();
    deposit(&mut registry, 1_000);
    deposit(&mut registry, 500);
    assert_eq!(registry.total_amount, 1_500);
    assert_eq!(registry.claimed_amount, 0);
    assert_eq!(registry.listing, LISTING_KEY);
    assert_eq!(registry.reward_mint, REWARD_MINT);
}

#[test]
fn register_reward_rejects_bad_inputs() {
    let mut listing = custodied_listing();
    let mut registry = fresh_registry();
    let wrong_mint = register_reward(
        &listing,
        &mut registry,
        LISTING_KEY,
        REWARD_MINT,
        DEPOSITOR,
        999,
        DEPOSITOR,
        1_000,
    );
    assert_eq!(wrong_mint, Err(ErrorCode::InvalidMint));
    let wrong_owner = register_reward(
        &listing,
        &mut registry,
        LISTING_KEY,
        REWARD_MINT,
        DEPOSITOR,
        REWARD_MINT,
        999,
        1_000,
    );
    assert_eq!(wrong_owner, Err(ErrorCode::Unauthorized));
    let nothing = register_reward(
        &listing,
        &mut registry,
        LISTING_KEY,
        REWARD_MINT,
        DEPOSITOR,
        REWARD_MINT,
        DEPOSITOR,
        0,
    );
    assert_eq!(nothing, Err(ErrorCode::InvalidAmount));
    listing.status = ListingStatus::Open;
    let not_custodied = register_reward(
        &listing,
        &mut registry,
        LISTING_KEY,
        REWARD_MINT,
        DEPOSITOR,
        REWARD_MINT,
        DEPOSITOR,
        1_000,
    );
    assert_eq!(not_custodied, Err(ErrorCode::InvalidListingStatus));
    assert_eq!(registry.total_amount, 0);
}

#[test]
fn scenario_staged_deposits_grow_the_entitlement() {
    let listing = custodied_listing();
    let mut registry = fresh_registry();
    deposit(&mut registry, 1_000);
    deposit(&mut registry, 500);
    let mut record = fresh_claim_record();
    let paid = claim_reward(
        &listing,
        &stake(ALICE, 4000),
        &mut registry,
        &mut record,
        LISTING_KEY,
        REGISTRY_KEY,
        ALICE,
    )
    .unwrap();
    assert_eq!(paid, 600);
    assert_eq!(record.claimed_amount, 600);
    assert_eq!(registry.claimed_amount, 600);
    deposit(&mut registry, 1_000);
    assert_eq!(registry.total_amount, 2_500);
    let paid_again = claim_reward(
        &listing,
        &stake(ALICE, 4000),
        &mut registry,
        &mut record,
        LISTING_KEY,
        REGISTRY_KEY,
        ALICE,
    )
    .unwrap();
    assert_eq!(paid_again, 400);
    assert_eq!(record.claimed_amount, 1_000);
    assert_eq!(registry.claimed_amount, 1_000);
}

#[test]
fn a_settled_claim_yields_nothing_more() {
    let listing = custodied_listing();
    let mut registry = fresh_registry();
    deposit(&mut registry, 1_000);
    let mut record = fresh_claim_record();
    claim_reward(
        &listing,
        &stake(ALICE, 4000),
        &mut registry,
        &mut record,
        LISTING_KEY,
        REGISTRY_KEY,
        ALICE,
    )
    .unwrap();
    let registry_before = registry;
    let record_before = record;
    let again = claim_reward(
        &listing,
        &stake(ALICE, 4000),
        &mut registry,
        &mut record,
        LISTING_KEY,
        REGISTRY_KEY,
        ALICE,
    );
    assert_eq!(again, Err(ErrorCode::NothingToClaim));
    assert_eq!(registry, registry_before);
    assert_eq!(record, record_before);
}

#[test]
fn a_tiny_stake_of_a_tiny_pot_rounds_to_nothing() {
    let listing = custodied_listing();
    let mut registry = fresh_registry();
    deposit(&mut registry, 2);
    let mut record = fresh_claim_record();
    let r = claim_reward(
        &listing,
        &stake(ALICE, 4000),
        &mut registry,
        &mut record,
        LISTING_KEY,
        REGISTRY_KEY,
        ALICE,
    );
    assert_eq!(r, Err(ErrorCode::NothingToClaim));
    assert_eq!(record.claimed_amount, 0);
}

#[test]
fn claim_reward_rejects_bad_callers_and_records() {
    let mut listing = custodied_listing();
    let mut registry = fresh_registry();
    deposit(&mut registry, 1_000);
    let mut record = fresh_claim_record();
    let someone_else = claim_reward(
        &listing,
        &stake(ALICE, 4000),
        &mut registry,
        &mut record,
        LISTING_KEY,
        REGISTRY_KEY,
        BOB,
    );
    assert_eq!(someone_else, Err(ErrorCode::Unauthorized));
    let no_stake = claim_reward(
        &listing,
        &stake(BOB, 0),
        &mut registry,
        &mut record,
        LISTING_KEY,
        REGISTRY_KEY,
        BOB,
    );
    assert_eq!(no_stake, Err(ErrorCode::NoVotingPower));
    let mut foreign_registry = registry;
    foreign_registry.listing = LISTING_KEY + 1;
    let misrouted = claim_reward(
        &listing,
        &stake(ALICE, 4000),
        &mut foreign_registry,
        &mut record,
        LISTING_KEY,
        REGISTRY_KEY,
        ALICE,
    );
    assert_eq!(misrouted, Err(ErrorCode::InvalidRewardRegistry));
    let mut someone_elses_record =
        ClaimRecord { registry: REGISTRY_KEY, claimer: BOB, claimed_amount: 10 };
    let stolen = claim_reward(
        &listing,
        &stake(ALICE, 4000),
        &mut registry,
        &mut someone_elses_record,
        LISTING_KEY,
        REGISTRY_KEY,
        ALICE,
    );
    assert_eq!(stolen, Err(ErrorCode::InvalidClaimRecord));
    let mut foreign_record =
        ClaimRecord { registry: REGISTRY_KEY + 1, claimer: ALICE, claimed_amount: 10 };
    let misfiled = claim_reward(
        &listing,
        &stake(ALICE, 4000),
        &mut registry,
        &mut foreign_record,
        LISTING_KEY,
        REGISTRY_KEY,
        ALICE,
    );
    assert_eq!(misfiled, Err(ErrorCode::InvalidClaimRecord));
    listing.status = ListingStatus::Funded;
    let not_custodied = claim_reward(
        &listing,
        &stake(ALICE, 4000),
        &mut registry,
        &mut record,
        LISTING_KEY,
        REGISTRY_KEY,
        ALICE,
    );
    assert_eq!(not_custodied, Err(ErrorCode::InvalidListingStatus));
    assert_eq!(registry.claimed_amount, 0);
}

#[test]
fn a_vast_pot_overflows_the_entitlement_arithmetic() {
    let listing = custodied_listing();
    let mut registry = fresh_registry();
    registry.listing = LISTING_KEY;
    registry.reward_mint = REWARD_MINT;
    registry.total_amount = u64::MAX;
    let mut record = fresh_claim_record();
    let r = claim_reward(
        &listing,
        &stake(ALICE, 4000),
        &mut registry,
        &mut record,
        LISTING_KEY,
        REGISTRY_KEY,
        ALICE,
    );
    assert_eq!(r, Err(ErrorCode::MathOverflow));
}

#[test]
fn the_pool_cap_holds_when_stakes_overlap() {
    let listing = custodied_listing();
    let mut registry = fresh_registry();
    deposit(&mut registry, 1_000);
    let mut alice_record = fresh_claim_record();
    let paid_alice = claim_reward(
        &listing,
        &stake(ALICE, 9_000),
        &mut registry,
        &mut alice_record,
        LISTING_KEY,
        REGISTRY_KEY,
        ALICE,
    )
    .unwrap();
    assert_eq!(paid_alice, 900);
    let mut bob_record = fresh_claim_record();
    let paid_bob = claim_reward(
        &listing,
        &stake(BOB, 9_000),
        &mut registry,
        &mut bob_record,
        LISTING_KEY,
        REGISTRY_KEY,
        BOB,
    )
    .unwrap();
    assert_eq!(paid_bob, 100);
    assert_eq!(registry.claimed_amount, 1_000);
    assert_eq!(registry.claimed_amount <= registry.total_amount, true);
}
