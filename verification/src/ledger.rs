//! The contribution ledger of one listing: every contribution record
//! the store holds for it, together with the listing itself.
//!
//! The store keeps at most one contribution record per wallet (the
//! record's address is derived from the listing and the wallet), and
//! creates records zero-filled.  Under those two guarantees this module
//! proves the book-keeping invariant the rest of the engine leans on:
//! the sold share of a listing is at all times exactly the sum of its
//! contributors' shares, each contributor holding between 1 and 10000
//! bps — and hence no single record can ever hold more than the listing
//! has sold.

use vstd::prelude::*;

verus! {

use crate::lifecycle::contribute;
use crate::lifecycle::process_refund;
use crate::lifecycle::spec_contribute;
use crate::lifecycle::spec_process_refund;
use crate::records::BPS_DENOMINATOR;
use crate::records::Contribution;
use crate::records::ErrorCode;
use crate::records::Listing;
use crate::records::ListingStatus;

/// The total stake, in basis points, held across a sequence of
/// contribution records.
pub open spec fn sum_bps(s: Seq<Contribution>) -> int
    decreases s.len(),
{
    if s.len() == 0 {
        0
    } else {
        sum_bps(s.drop_last()) + s.last().bps
    }
}

pub proof fn lemma_sum_bps_nonneg(s: Seq<Contribution>)
    ensures
        sum_bps(s) >= 0,
    decreases s.len(),
{
    if s.len() > 0 {
        lemma_sum_bps_nonneg(s.drop_last());
    }
}

pub proof fn lemma_sum_bps_push(s: Seq<Contribution>, c: Contribution)
    ensures
        sum_bps(s.push(c)) == sum_bps(s) + c.bps,
{
    assert(s.push(c).drop_last() =~= s);
    assert(s.push(c).last() == c);
}

pub proof fn lemma_sum_bps_update(s: Seq<Contribution>, i: int, c: Contribution)
    requires
        0 <= i < s.len(),
    ensures
        sum_bps(s.update(i, c)) == sum_bps(s) - s[i].bps + c.bps,
    decreases s.len(),
{
    if i == s.len() - 1 {
        assert(s.update(i, c).drop_last() =~= s.drop_last());
        assert(s.update(i, c).last() == c);
    } else {
        assert(s.update(i, c).drop_last() =~= s.drop_last().update(i, c));
        assert(s.update(i, c).last() == s.last());
        lemma_sum_bps_update(s.drop_last(), i, c);
    }
}

/// The zero-filled record the store hands out at a freshly derived
/// address, before any contribution touches it.
pub open spec fn fresh_record() -> Contribution {
    Contribution {
        listing: 0,
        wallet: 0,
        bps: 0,
        principal_lamports: 0,
        fee_lamports: 0,
        refund_claimed: false,
    }
}

/// Whether some record in the book belongs to the wallet.
pub open spec fn has_wallet(s: Seq<Contribution>, wallet: u64) -> bool {
    exists|i: int| 0 <= i < s.len() && (#[trigger] s[i]).wallet == wallet
}

pub open spec fn index_of_wallet(s: Seq<Contribution>, wallet: u64) -> int {
    choose|i: int| 0 <= i < s.len() && (#[trigger] s[i]).wallet == wallet
}

/// The record the store holds for the wallet — the one at the address
/// derived from the listing and the wallet — or the zero-filled record
/// it would freshly allocate when there is none.  Well-defined on a
/// book that keeps one record per wallet.
pub open spec fn record_of(s: Seq<Contribution>, wallet: u64) -> Contribution {
    if has_wallet(s, wallet) {
        s[index_of_wallet(s, wallet)]
    } else {
        fresh_record()
    }
}

/// On a book with one record per wallet, the record found at `i` is
/// the record `record_of` denotes.
pub proof fn lemma_record_of_at(s: Seq<Contribution>, i: int, wallet: u64)
    requires
        0 <= i < s.len(),
        s[i].wallet == wallet,
        forall|j: int, k: int| 0 <= j < k < s.len() ==> s[j].wallet != s[k].wallet,
    ensures
        has_wallet(s, wallet),
        record_of(s, wallet) == s[i],
{
    assert(has_wallet(s, wallet));
    let j = index_of_wallet(s, wallet);
    assert(0 <= j < s.len() && s[j].wallet == wallet);
    if j < i {
        assert(s[j].wallet != s[i].wallet);
    } else if i < j {
        assert(s[i].wallet != s[j].wallet);
    }
}

pub proof fn lemma_record_of_absent(s: Seq<Contribution>, wallet: u64)
    requires
        forall|i: int| 0 <= i < s.len() ==> (#[trigger] s[i]).wallet != wallet,
    ensures
        !has_wallet(s, wallet),
        record_of(s, wallet) == fresh_record(),
{
}

/// The stake, in basis points, that one wallet holds across a sequence
/// of contribution records.
pub open spec fn stake_in(s: Seq<Contribution>, wallet: u64) -> int
    decreases s.len(),
{
    if s.len() == 0 {
        0
    } else {
        stake_in(s.drop_last(), wallet) + if s.last().wallet == wallet {
            s.last().bps as int
        } else {
            0
        }
    }
}

pub proof fn lemma_stake_in_absent(s: Seq<Contribution>, wallet: u64)
    requires
        forall|i: int| 0 <= i < s.len() ==> (#[trigger] s[i]).wallet != wallet,
    ensures
        stake_in(s, wallet) == 0,
    decreases s.len(),
{
    if s.len() > 0 {
        lemma_stake_in_absent(s.drop_last(), wallet);
    }
}

/// With no wallet on two records, a wallet's stake is just its one
/// record's.
pub proof fn lemma_stake_in_is_the_record(s: Seq<Contribution>, i: int, wallet: u64)
    requires
        0 <= i < s.len(),
        s[i].wallet == wallet,
        forall|j: int, k: int| 0 <= j < k < s.len() ==> s[j].wallet != s[k].wallet,
    ensures
        stake_in(s, wallet) == s[i].bps,
    decreases s.len(),
{
    if i == s.len() - 1 {
        assert forall|j: int| 0 <= j < s.drop_last().len() implies (#[trigger] s.drop_last()[j]).wallet
            != wallet by {
            assert(s[j].wallet != s[i].wallet);
        }
        lemma_stake_in_absent(s.drop_last(), wallet);
    } else {
        lemma_stake_in_is_the_record(s.drop_last(), i, wallet);
    }
}

pub proof fn lemma_stake_in_update(s: Seq<Contribution>, i: int, c: Contribution, wallet: u64)
    requires
        0 <= i < s.len(),
    ensures
        stake_in(s.update(i, c), wallet) == stake_in(s, wallet) - (if s[i].wallet == wallet {
            s[i].bps as int
        } else {
            0
        }) + (if c.wallet == wallet {
            c.bps as int
        } else {
            0
        }),
    decreases s.len(),
{
    if i == s.len() - 1 {
        assert(s.update(i, c).drop_last() =~= s.drop_last());
        assert(s.update(i, c).last() == c);
    } else {
        assert(s.update(i, c).drop_last() =~= s.drop_last().update(i, c));
        assert(s.update(i, c).last() == s.last());
        lemma_stake_in_update(s.drop_last(), i, c, wallet);
    }
}

pub proof fn lemma_stake_in_push(s: Seq<Contribution>, c: Contribution, wallet: u64)
    ensures
        stake_in(s.push(c), wallet) == stake_in(s, wallet) + (if c.wallet == wallet {
            c.bps as int
        } else {
            0
        }),
{
    assert(s.push(c).drop_last() =~= s);
    assert(s.push(c).last() == c);
}

/// No record holds more than the whole book: each entry's stake is at
/// most the sum.
pub proof fn lemma_sum_bps_element_le(s: Seq<Contribution>, i: int)
    requires
        0 <= i < s.len(),
    ensures
        s[i].bps <= sum_bps(s),
    decreases s.len(),
{
    lemma_sum_bps_nonneg(s.drop_last());
    if i < s.len() - 1 {
        lemma_sum_bps_element_le(s.drop_last(), i);
    }
}

/// The accounting law the ledger maintains, spelled out: at all times a
/// well-formed ledger's listing has sold between 0 and 10000 basis
/// points, that figure is exactly the sum of its contributors' stakes,
/// and no single contributor holds more than the listing has sold.
pub proof fn lemma_ledger_accounting(ledger: ContributionLedger)
    requires
        ledger.wf(),
    ensures
        0 <= ledger.listing.bps_sold <= BPS_DENOMINATOR,
        sum_bps(ledger.contributions@) == ledger.listing.bps_sold,
        forall|i: int|
            0 <= i < ledger.contributions@.len() ==> (#[trigger] ledger.contributions@[i]).bps
                <= ledger.listing.bps_sold,
{
    assert forall|i: int|
        0 <= i < ledger.contributions@.len() implies (#[trigger] ledger.contributions@[i]).bps
        <= ledger.listing.bps_sold by {
        lemma_sum_bps_element_le(ledger.contributions@, i);
    }
}

/// One listing and all of its contribution records.
pub struct ContributionLedger {
    pub listing_key: u64,
    pub listing: Listing,
    pub contributions: Vec<Contribution>,
}

impl ContributionLedger {
    /// The book-keeping invariant: the listing is well-formed, every
    /// record belongs to it, holds a positive stake, no wallet appears
    /// twice, and the stakes sum to exactly the listing's sold share.
    pub open spec fn wf(self) -> bool {
        &&& self.listing.wf()
        &&& forall|i: int|
            0 <= i < self.contributions@.len() ==> (#[trigger] self.contributions@[i]).wf()
        &&& forall|i: int|
            0 <= i < self.contributions@.len() ==> (#[trigger] self.contributions@[i]).listing
                == self.listing_key
        &&& forall|i: int|
            0 <= i < self.contributions@.len() ==> (#[trigger] self.contributions@[i]).bps >= 1
        &&& forall|i: int, j: int|
            0 <= i < j < self.contributions@.len() ==> self.contributions@[i].wallet
                != self.contributions@[j].wallet
        &&& sum_bps(self.contributions@) == self.listing.bps_sold
    }

    /// Open a ledger for a freshly created listing, which has no
    /// contributors yet.
    pub fn new(listing_key: u64, listing: Listing) -> (ledger: Self)
        requires
            listing.wf(),
            listing.bps_sold == 0,
        ensures
            ledger.wf(),
            ledger.listing_key == listing_key,
            ledger.listing == listing,
            ledger.contributions@.len() == 0,
    {
        ContributionLedger { listing_key, listing, contributions: Vec::new() }
    }

    /// The index of the wallet's record, if the wallet has one.
    fn find_wallet(&self, wallet: u64) -> (found: Option<usize>)
        ensures
            match found {
                Some(i) => i < self.contributions@.len() && self.contributions@[i as int].wallet
                    == wallet,
                None => forall|i: int|
                    0 <= i < self.contributions@.len() ==> (#[trigger] self.contributions@[i]).wallet
                        != wallet,
            },
    {
        let mut i: usize = 0;
        while i < self.contributions.len()
            invariant
                i <= self.contributions@.len(),
                forall|j: int|
                    0 <= j < i ==> (#[trigger] self.contributions@[j]).wallet != wallet,
            decreases self.contributions@.len() - i,
        {
            if self.contributions[i].wallet == wallet {
                return Some(i);
            }
            i = i + 1;
        }
        None
    }

    /// Contribute `bps` basis points from `contributor`, finding or
    /// freshly allocating the wallet's record exactly as the store
    /// does.  The outcome — the payment owed on success, the error
    /// otherwise, and every field of the listing and of the wallet's
    /// record afterwards — is exactly the contribution transition
    /// applied to the wallet's current record, or to a zero-filled one
    /// when the wallet has none yet; so success is owed whenever that
    /// transition succeeds.  The books stay balanced: afterwards the
    /// sold share is still the sum of all stakes, and no other
    /// wallet's stake moves.  On any error the ledger is unchanged.
    pub fn contribute(&mut self, contributor: u64, now: i64, bps: u16) -> (r: Result<
        u64,
        ErrorCode,
    >)
        requires
            old(self).wf(),
        ensures
            final(self).wf(),
            final(self).listing_key == old(self).listing_key,
            (match spec_contribute(
                old(self).listing,
                record_of(old(self).contributions@, contributor),
                old(self).listing_key,
                contributor,
                now as int,
                bps,
            ) {
                Ok(step) => r == Ok::<u64, ErrorCode>(step.2) && final(self).listing == step.0
                    && has_wallet(final(self).contributions@, contributor) && record_of(
                    final(self).contributions@,
                    contributor,
                ) == step.1,
                Err(e) => r == Err::<u64, ErrorCode>(e) && final(self).listing == old(self).listing
                    && final(self).contributions@ == old(self).contributions@,
            }),
            r is Ok ==> final(self).listing.bps_sold == old(self).listing.bps_sold + bps,
            r is Ok ==> final(self).listing.status == (if old(self).listing.bps_sold + bps
                == BPS_DENOMINATOR {
                ListingStatus::Funded
            } else {
                ListingStatus::Open
            }),
            r is Ok ==> stake_in(final(self).contributions@, contributor) == stake_in(
                old(self).contributions@,
                contributor,
            ) + bps,
            forall|w: u64|
                w != contributor ==> stake_in(final(self).contributions@, w) == stake_in(
                    old(self).contributions@,
                    w,
                ),
            r is Err ==> final(self).listing == old(self).listing && final(self).contributions@
                == old(self).contributions@,
    {
        let found = self.find_wallet(contributor);
        match found {
            Some(i) => {
                proof {
                    lemma_sum_bps_element_le(self.contributions@, i as int);
                    lemma_record_of_at(self.contributions@, i as int, contributor);
                }
                let ghost before = self.contributions@;
                let r = contribute(
                    &mut self.listing,
                    &mut self.contributions[i],
                    self.listing_key,
                    contributor,
                    now,
                    bps,
                );
                proof {
                    lemma_sum_bps_update(before, i as int, self.contributions@[i as int]);
                    assert(self.contributions@ =~= before.update(
                        i as int,
                        self.contributions@[i as int],
                    ));
                    lemma_stake_in_update(
                        before,
                        i as int,
                        self.contributions@[i as int],
                        contributor,
                    );
                    assert forall|w: u64| w != contributor implies stake_in(
                        self.contributions@,
                        w,
                    ) == stake_in(before, w) by {
                        lemma_stake_in_update(before, i as int, self.contributions@[i as int], w);
                    }
                    if r is Err {
                        assert(self.contributions@ =~= before);
                    } else {
                        assert forall|j: int, k: int|
                            0 <= j < k < self.contributions@.len() implies self.contributions@[j].wallet
                            != self.contributions@[k].wallet by {
                            assert(before[j].wallet != before[k].wallet);
                        }
                        lemma_record_of_at(self.contributions@, i as int, contributor);
                    }
                }
                r
            },
            None => {
                proof {
                    lemma_record_of_absent(self.contributions@, contributor);
                }
                let mut fresh = Contribution {
                    listing: 0,
                    wallet: 0,
                    bps: 0,
                    principal_lamports: 0,
                    fee_lamports: 0,
                    refund_claimed: false,
                };
                let r = contribute(
                    &mut self.listing,
                    &mut fresh,
                    self.listing_key,
                    contributor,
                    now,
                    bps,
                );
                match r {
                    Ok(payment) => {
                        let ghost before = self.contributions@;
                        proof {
                            lemma_sum_bps_push(before, fresh);
                            lemma_stake_in_absent(before, contributor);
                        }
                        self.contributions.push(fresh);
                        proof {
                            lemma_stake_in_push(before, fresh, contributor);
                            assert forall|w: u64| w != contributor implies stake_in(
                                self.contributions@,
                                w,
                            ) == stake_in(before, w) by {
                                lemma_stake_in_push(before, fresh, w);
                            }
                            assert forall|j: int, k: int|
                                0 <= j < k < self.contributions@.len() implies self.contributions@[j].wallet
                                != self.contributions@[k].wallet by {
                                if k < before.len() {
                                    assert(before[j].wallet != before[k].wallet);
                                } else {
                                    assert(before[j].wallet != contributor);
                                }
                            }
                            lemma_record_of_at(
                                self.contributions@,
                                before.len() as int,
                                contributor,
                            );
                        }
                        Ok(payment)
                    },
                    Err(e) => Err(e),
                }
            },
        }
    }

    /// Refund `contributor` through their record.  A wallet without a
    /// record is turned away as unauthorized; for one with a record,
    /// the outcome — the refunded amount (the record's principal plus
    /// fee), the marking of the record as claimed, the Open→Expired
    /// flip of the listing, or the error — is exactly the refund
    /// transition applied to that record, so success is owed whenever
    /// that transition succeeds.  A refund does not return the stake
    /// to the pool, so every wallet's stake and the sum invariant are
    /// untouched.  `listing_lamports` is the pool's current balance.
    pub fn process_refund(&mut self, contributor: u64, listing_lamports: u64, now: i64) -> (r:
        Result<u64, ErrorCode>)
        requires
            old(self).wf(),
        ensures
            final(self).wf(),
            final(self).listing_key == old(self).listing_key,
            forall|w: u64|
                stake_in(final(self).contributions@, w) == stake_in(old(self).contributions@, w),
            !has_wallet(old(self).contributions@, contributor) ==> r == Err::<u64, ErrorCode>(
                ErrorCode::Unauthorized,
            ) && final(self).listing == old(self).listing && final(self).contributions@ == old(
                self,
            ).contributions@,
            has_wallet(old(self).contributions@, contributor) ==> (match spec_process_refund(
                old(self).listing,
                record_of(old(self).contributions@, contributor),
                contributor,
                listing_lamports,
                now as int,
            ) {
                Ok(step) => r == Ok::<u64, ErrorCode>(step.2) && final(self).listing == step.0
                    && has_wallet(final(self).contributions@, contributor) && record_of(
                    final(self).contributions@,
                    contributor,
                ) == step.1,
                Err(e) => r == Err::<u64, ErrorCode>(e) && final(self).listing == old(self).listing
                    && final(self).contributions@ == old(self).contributions@,
            }),
            r is Err ==> final(self).listing == old(self).listing && final(self).contributions@
                == old(self).contributions@,
    {
        let found = self.find_wallet(contributor);
        match found {
            Some(i) => {
                proof {
                    lemma_record_of_at(self.contributions@, i as int, contributor);
                }
                let ghost before = self.contributions@;
                let r = process_refund(
                    &mut self.listing,
                    &mut self.contributions[i],
                    contributor,
                    listing_lamports,
                    now,
                );
                proof {
                    lemma_sum_bps_update(before, i as int, self.contributions@[i as int]);
                    assert(self.contributions@ =~= before.update(
                        i as int,
                        self.contributions@[i as int],
                    ));
                    assert forall|w: u64|
                        stake_in(self.contributions@, w) == stake_in(before, w) by {
                        lemma_stake_in_update(before, i as int, self.contributions@[i as int], w);
                    }
                    if r is Err {
                        assert(self.contributions@ =~= before);
                    } else {
                        assert forall|j: int, k: int|
                            0 <= j < k < self.contributions@.len() implies self.contributions@[j].wallet
                            != self.contributions@[k].wallet by {
                            assert(before[j].wallet != before[k].wallet);
                        }
                        lemma_record_of_at(self.contributions@, i as int, contributor);
                    }
                }
                r
            },
            None => {
                proof {
                    lemma_record_of_absent(self.contributions@, contributor);
                }
                Err(ErrorCode::Unauthorized)
            },
        }
    }

    /// The stake the wallet currently holds in this listing: its
    /// record's bps, or zero when it has none.
    pub fn stake_of(&self, wallet: u64) -> (bps: u16)
        requires
            self.wf(),
        ensures
            bps == stake_in(self.contributions@, wallet),
            bps <= self.listing.bps_sold,
    {
        let found = self.find_wallet(wallet);
        match found {
            Some(i) => {
                proof {
                    lemma_sum_bps_element_le(self.contributions@, i as int);
                    lemma_stake_in_is_the_record(self.contributions@, i as int, wallet);
                }
                self.contributions[i].bps
            },
            None => {
                proof {
                    lemma_stake_in_absent(self.contributions@, wallet);
                }
                0
            },
        }
    }
}

} // verus!
