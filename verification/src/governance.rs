//! Governance over a custodied asset: proposals and share-weighted
//! voting.
//!
//! Any contributor with a positive stake in a custodied listing may
//! propose an onward sale; votes are weighted by the voter's stake at
//! cast time, and a proposal is approved the instant its yes-share
//! crosses a strict majority of the 10000-bps universe.  One vote per
//! wallet per proposal is enforced by the store's create-once guarantee
//! at the (proposal, voter) address.

use vstd::prelude::*;

verus! {

use crate::records::APPROVAL_THRESHOLD_BPS;
use crate::records::Contribution;
use crate::records::DEADLINE_MARGIN_SECS;
use crate::records::ErrorCode;
use crate::records::Listing;
use crate::records::ListingStatus;
use crate::records::MAX_DEADLINE_OFFSET;
use crate::records::MIN_DEADLINE_OFFSET;
use crate::records::Proposal;
use crate::records::ProposalStatus;
use crate::records::Vote;
use crate::records::VoteRecord;

/// What `create_proposal` produces: the listing with its proposal
/// counter advanced, and the fresh `Active` proposal under the id the
/// counter held.  Ids are per-listing, monotonic and never reused.
pub open spec fn spec_create_proposal(
    listing: Listing,
    c: Contribution,
    listing_key: u64,
    proposer: u64,
    sale_price_lamports: u64,
    vote_deadline_offset: i64,
    now: int,
) -> Result<(Listing, Proposal), ErrorCode> {
    if c.wallet != proposer {
        Err(ErrorCode::Unauthorized)
    } else if listing.status != ListingStatus::Custodied {
        Err(ErrorCode::InvalidListingStatus)
    } else if c.bps == 0 {
        Err(ErrorCode::NoVotingPower)
    } else if sale_price_lamports == 0 {
        Err(ErrorCode::InvalidAmount)
    } else if !(MIN_DEADLINE_OFFSET <= vote_deadline_offset <= MAX_DEADLINE_OFFSET) {
        Err(ErrorCode::InvalidDeadline)
    } else if now + vote_deadline_offset > i64::MAX {
        Err(ErrorCode::MathOverflow)
    } else if listing.proposal_count + 1 > u32::MAX {
        Err(ErrorCode::MathOverflow)
    } else {
        Ok((
            (Listing { proposal_count: (listing.proposal_count + 1) as u32, ..listing }),
            (Proposal {
                listing: listing_key,
                proposer,
                proposal_id: listing.proposal_count,
                sale_price_lamports,
                vote_deadline: (now + vote_deadline_offset) as i64,
                yes_bps: 0,
                no_bps: 0,
                status: ProposalStatus::Active,
            }),
        ))
    }
}

/// Propose an onward sale of a custodied listing.  `c` is the
/// proposer's contribution record for this listing, fetched by the
/// caller from its derived address; a positive stake is the only
/// qualification.  The new proposal is created at the address derived
/// from (`listing_key`, id).
pub fn create_proposal(
    listing: &mut Listing,
    c: &Contribution,
    listing_key: u64,
    proposer: u64,
    sale_price_lamports: u64,
    vote_deadline_offset: i64,
    now: i64,
) -> (r: Result<Proposal, ErrorCode>)
    requires
        old(listing).wf(),
        c.listing == listing_key,
    ensures
        (match spec_create_proposal(
            *old(listing),
            *c,
            listing_key,
            proposer,
            sale_price_lamports,
            vote_deadline_offset,
            now as int,
        ) {
            Ok(step) => r == Ok::<Proposal, ErrorCode>(step.1) && *final(listing) == step.0,
            Err(e) => r == Err::<Proposal, ErrorCode>(e) && *final(listing) == *old(listing),
        }),
        final(listing).wf(),
        final(listing).proposal_count >= old(listing).proposal_count,
        r matches Ok(p) ==> p.proposal_id == old(listing).proposal_count
            && final(listing).proposal_count == old(listing).proposal_count + 1
            && p.status is Active && p.yes_bps == 0
            && p.no_bps == 0 && p.vote_deadline == now + vote_deadline_offset,
        r is Err ==> *final(listing) == *old(listing),
{
    if c.wallet != proposer {
        return Err(ErrorCode::Unauthorized);
    }
    if listing.status != ListingStatus::Custodied {
        return Err(ErrorCode::InvalidListingStatus);
    }
    if c.bps == 0 {
        return Err(ErrorCode::NoVotingPower);
    }
    if sale_price_lamports == 0 {
        return Err(ErrorCode::InvalidAmount);
    }
    if !(MIN_DEADLINE_OFFSET <= vote_deadline_offset && vote_deadline_offset
        <= MAX_DEADLINE_OFFSET) {
        return Err(ErrorCode::InvalidDeadline);
    }
    let vote_deadline = match now.checked_add(vote_deadline_offset) {
        Some(d) => d,
        None => { return Err(ErrorCode::MathOverflow); },
    };
    let new_count = match listing.proposal_count.checked_add(1) {
        Some(n) => n,
        None => { return Err(ErrorCode::MathOverflow); },
    };
    let proposal = Proposal {
        listing: listing_key,
        proposer,
        proposal_id: listing.proposal_count,
        sale_price_lamports,
        vote_deadline,
        yes_bps: 0,
        no_bps: 0,
        status: ProposalStatus::Active,
    };
    listing.proposal_count = new_count;
    Ok(proposal)
}

/// What `cast_vote` does to the proposal, and the vote record it
/// creates.  The voter's current stake is snapshotted into the record
/// and added to the chosen tally; the proposal flips to `Approved` the
/// moment the yes-tally exceeds the strict-majority threshold — never at
/// the deadline, which no operation revisits.
pub open spec fn spec_cast_vote(
    proposal: Proposal,
    c: Contribution,
    listing_key: u64,
    proposal_key: u64,
    voter: u64,
    choice: Vote,
    now: int,
) -> Result<(Proposal, VoteRecord), ErrorCode> {
    if proposal.listing != listing_key {
        Err(ErrorCode::InvalidProposal)
    } else if c.wallet != voter {
        Err(ErrorCode::Unauthorized)
    } else if proposal.status != ProposalStatus::Active {
        Err(ErrorCode::InvalidProposalStatus)
    } else if c.bps == 0 {
        Err(ErrorCode::NoVotingPower)
    } else if !(now < proposal.vote_deadline - DEADLINE_MARGIN_SECS) {
        Err(ErrorCode::VotingEnded)
    } else {
        let yes_tally = if choice is Yes {
            proposal.yes_bps + c.bps
        } else {
            proposal.yes_bps as int
        };
        let no_tally = if choice is No {
            proposal.no_bps + c.bps
        } else {
            proposal.no_bps as int
        };
        if yes_tally > u16::MAX || no_tally > u16::MAX {
            Err(ErrorCode::MathOverflow)
        } else {
            Ok((
                (Proposal {
                    yes_bps: yes_tally as u16,
                    no_bps: no_tally as u16,
                    status: if yes_tally > APPROVAL_THRESHOLD_BPS {
                        ProposalStatus::Approved
                    } else {
                        ProposalStatus::Active
                    },
                    ..proposal
                }),
                (VoteRecord { proposal: proposal_key, voter, bps_voted: c.bps, vote: choice }),
            ))
        }
    }
}

/// Cast a yes or no vote on an active proposal, weighted by the voter's
/// current stake in the listing.  The returned record must be created at
/// the (proposal, voter) address; the store refusing a second creation
/// there is what prevents double voting.  On any error the proposal is
/// unchanged.
pub fn cast_vote(
    proposal: &mut Proposal,
    c: &Contribution,
    listing_key: u64,
    proposal_key: u64,
    voter: u64,
    choice: Vote,
    now: i64,
) -> (r: Result<VoteRecord, ErrorCode>)
    requires
        c.listing == listing_key,
    ensures
        (match spec_cast_vote(
            *old(proposal),
            *c,
            listing_key,
            proposal_key,
            voter,
            choice,
            now as int,
        ) {
            Ok(step) => r == Ok::<VoteRecord, ErrorCode>(step.1) && *final(proposal) == step.0,
            Err(e) => r == Err::<VoteRecord, ErrorCode>(e) && *final(proposal) == *old(proposal),
        }),
        final(proposal).yes_bps >= old(proposal).yes_bps
            && final(proposal).no_bps >= old(proposal).no_bps,
        r is Ok && choice is Yes ==> final(proposal).yes_bps == old(proposal).yes_bps + c.bps
            && final(proposal).no_bps == old(proposal).no_bps,
        r is Ok && choice is No ==> final(proposal).no_bps == old(proposal).no_bps + c.bps
            && final(proposal).yes_bps == old(proposal).yes_bps,
        r is Ok ==> (final(proposal).status is Approved <==> final(proposal).yes_bps
            > APPROVAL_THRESHOLD_BPS),
        r matches Ok(v) ==> v.bps_voted == c.bps && v.voter == voter && v.proposal == proposal_key
            && v.vote == choice,
        r is Err ==> *final(proposal) == *old(proposal),
{
    if proposal.listing != listing_key {
        return Err(ErrorCode::InvalidProposal);
    }
    if c.wallet != voter {
        return Err(ErrorCode::Unauthorized);
    }
    if proposal.status != ProposalStatus::Active {
        return Err(ErrorCode::InvalidProposalStatus);
    }
    if c.bps == 0 {
        return Err(ErrorCode::NoVotingPower);
    }
    if !((now as i128) < (proposal.vote_deadline as i128) - (DEADLINE_MARGIN_SECS as i128)) {
        return Err(ErrorCode::VotingEnded);
    }
    let record = VoteRecord { proposal: proposal_key, voter, bps_voted: c.bps, vote: choice };
    match choice {
        Vote::Yes => {
            proposal.yes_bps = match proposal.yes_bps.checked_add(c.bps) {
                Some(y) => y,
                None => { return Err(ErrorCode::MathOverflow); },
            };
        },
        Vote::No => {
            proposal.no_bps = match proposal.no_bps.checked_add(c.bps) {
                Some(n) => n,
                None => { return Err(ErrorCode::MathOverflow); },
            };
        },
    }
    if proposal.yes_bps > APPROVAL_THRESHOLD_BPS {
        proposal.status = ProposalStatus::Approved;
    }
    Ok(record)
}

} // verus!
