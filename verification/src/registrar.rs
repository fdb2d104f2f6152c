use vstd::prelude::*;

use crate::assoc::assoc_find;
use crate::assoc::assoc_map;
use crate::assoc::lemma_assoc_find_skip_found;
use crate::assoc::lemma_assoc_find_skip_step;
use crate::assoc::lemma_assoc_map_push;
use crate::assoc::lemma_assoc_map_update;
use crate::assoc::unique_keys;
use crate::commit::commit;
use crate::model::spec_cancel_bid;
use crate::model::spec_finalize_auction;
use crate::model::spec_new_bid;
use crate::model::spec_renew;
use crate::model::spec_reveal_bid;
use crate::model::spec_start_auction;
use crate::model::RegistrarV;
use crate::types::account_eq;
use crate::types::bid_key_eq;
use crate::types::digest_eq;
use crate::types::AccountId;
use crate::types::BidKey;
use crate::types::Digest;
use crate::types::Entry;
use crate::types::Error;
use crate::types::NameMode;

verus! {

/// The sealed-bid name registrar: per-name entries and sealed pledges,
/// driven by one operation per call. The host hands each call a fresh
/// timestamp and the caller's identity; the registrar validates first and
/// mutates only after every check has passed.
pub struct Registrar {
    reveal_period_duration: u64,
    expiration_duration: u64,
    auction_duration: u64,
    min_price: u128,
    entries: Vec<(Digest, Entry)>,
    sealed_bids: Vec<(BidKey, u128)>,
}

impl View for Registrar {
    type V = RegistrarV;

    closed spec fn view(&self) -> RegistrarV {
        RegistrarV {
            reveal_period_duration: self.reveal_period_duration,
            expiration_duration: self.expiration_duration,
            auction_duration: self.auction_duration,
            min_price: self.min_price,
            entries: assoc_map(self.entries@),
            sealed_bids: assoc_map(self.sealed_bids@),
        }
    }
}

impl Registrar {
    /// Both stores hold each key at most once.
    pub closed spec fn wf(self) -> bool {
        unique_keys(self.entries@) && unique_keys(self.sealed_bids@)
    }

    /// A registrar with no entries and no bids, under the given timing
    /// windows and minimum pledge.
    pub fn new(
        reveal_period_duration: u64,
        auction_duration: u64,
        expiration_duration: u64,
        min_price: u128,
    ) -> (r: Self)
        ensures
            r.wf(),
            r@.reveal_period_duration == reveal_period_duration,
            r@.auction_duration == auction_duration,
            r@.expiration_duration == expiration_duration,
            r@.min_price == min_price,
            r@.entries == Map::<Seq<u8>, crate::types::EntryV>::empty(),
            r@.sealed_bids == Map::<(Seq<u8>, Seq<u8>), u128>::empty(),
    {
        let r = Registrar {
            reveal_period_duration,
            expiration_duration,
            auction_duration,
            min_price,
            entries: Vec::new(),
            sealed_bids: Vec::new(),
        };
        proof {
            assert(r@.entries =~= Map::<Seq<u8>, crate::types::EntryV>::empty());
            assert(r@.sealed_bids =~= Map::<(Seq<u8>, Seq<u8>), u128>::empty());
        }
        r
    }

    /// The index of the entry for `name`, if one exists.
    fn find_entry(&self, name: &Digest) -> (r: Option<usize>)
        ensures
            match r {
                Some(i) => {
                    &&& i < self.entries@.len()
                    &&& self.entries@[i as int].0@ == name@
                    &&& assoc_find(self.entries@, name@) == Some(self.entries@[i as int].1@)
                },
                None => assoc_find(self.entries@, name@) is None,
            },
    {
        let ghost s = self.entries@;
        let mut i: usize = 0;
        proof {
            assert(s.skip(0) =~= s);
        }
        while i < self.entries.len()
            invariant
                i <= s.len(),
                s == self.entries@,
                assoc_find(s, name@) == assoc_find(s.skip(i as int), name@),
            decreases s.len() - i,
        {
            if digest_eq(&self.entries[i].0, name) {
                proof {
                    lemma_assoc_find_skip_found(s, name@, i as int);
                }
                return Some(i);
            }
            proof {
                lemma_assoc_find_skip_step(s, name@, i as int);
            }
            i = i + 1;
        }
        proof {
            assert(s.skip(s.len() as int) =~= Seq::<(Digest, Entry)>::empty());
            assert(assoc_find(Seq::<(Digest, Entry)>::empty(), name@) is None);
        }
        None
    }

    /// The index of the pledge under `key`, if one exists.
    fn find_bid(&self, key: &BidKey) -> (r: Option<usize>)
        ensures
            match r {
                Some(i) => {
                    &&& i < self.sealed_bids@.len()
                    &&& self.sealed_bids@[i as int].0@ == key@
                    &&& assoc_find(self.sealed_bids@, key@) == Some(
                        self.sealed_bids@[i as int].1,
                    )
                },
                None => assoc_find(self.sealed_bids@, key@) is None,
            },
    {
        let ghost s = self.sealed_bids@;
        let mut i: usize = 0;
        proof {
            assert(s.skip(0) =~= s);
        }
        while i < self.sealed_bids.len()
            invariant
                i <= s.len(),
                s == self.sealed_bids@,
                assoc_find(s, key@) == assoc_find(s.skip(i as int), key@),
            decreases s.len() - i,
        {
            if bid_key_eq(&self.sealed_bids[i].0, key) {
                proof {
                    lemma_assoc_find_skip_found(s, key@, i as int);
                }
                return Some(i);
            }
            proof {
                lemma_assoc_find_skip_step(s, key@, i as int);
            }
            i = i + 1;
        }
        proof {
            assert(s.skip(s.len() as int) =~= Seq::<(BidKey, u128)>::empty());
            assert(assoc_find(Seq::<(BidKey, u128)>::empty(), key@) is None);
        }
        None
    }

    /// Opens an auction for `name`: fails with `AuctionStartedAlready` if
    /// any entry exists for it, whatever its mode; otherwise records a fresh
    /// auction entry at the minimum price with no owner.
    pub fn start_auction(&mut self, name: Digest, now: u64) -> (r: Result<(), Error>)
        requires
            old(self).wf(),
        ensures
            final(self).wf(),
            final(self)@ == spec_start_auction(old(self)@, name@, now).0,
            r == spec_start_auction(old(self)@, name@, now).1,
            r is Err ==> final(self)@ == old(self)@,
    {
        match self.find_entry(&name) {
            Some(_) => Err(Error::AuctionStartedAlready),
            None => {
                let entry = Entry {
                    registration_timestamp: now,
                    highest_bid_amount: self.min_price,
                    owner: None,
                    mode: NameMode::Auction,
                };
                proof {
                    lemma_assoc_map_push(self.entries@, (name, entry));
                }
                self.entries.push((name, entry));
                Ok(())
            },
        }
    }

    /// Seals a pledge of `value` under `sealed_bid` for `caller`: refused
    /// below the minimum price; otherwise stored, overwriting any earlier
    /// pledge under the same commitment and bidder.
    pub fn new_bid(&mut self, sealed_bid: Digest, value: u128, caller: AccountId) -> (r: Result<
        (),
        Error,
    >)
        requires
            old(self).wf(),
        ensures
            final(self).wf(),
            final(self)@ == spec_new_bid(old(self)@, sealed_bid@, value, caller@).0,
            r == spec_new_bid(old(self)@, sealed_bid@, value, caller@).1,
            r is Err ==> final(self)@ == old(self)@,
    {
        if value < self.min_price {
            return Err(Error::InvalidBidPrice);
        }
        let key = BidKey { commitment: sealed_bid, bidder: caller };
        match self.find_bid(&key) {
            Some(i) => {
                proof {
                    lemma_assoc_map_update(self.sealed_bids@, i as int, (key, value));
                }
                self.sealed_bids.set(i, (key, value));
            },
            None => {
                proof {
                    lemma_assoc_map_push(self.sealed_bids@, (key, value));
                }
                self.sealed_bids.push((key, value));
            },
        }
        Ok(())
    }

    /// Discloses the salt of a sealed bid on `name`. The window check
    /// accepts both boundaries; a pledge strictly above the current highest
    /// takes the lead and puts the entry in reveal mode, anything else
    /// leaves the entry as it was, though the call still succeeds.
    pub fn reveal_bid(&mut self, name: Digest, salt: Digest, now: u64, caller: AccountId) -> (r:
        Result<(), Error>)
        requires
            old(self).wf(),
        ensures
            final(self).wf(),
            final(self)@ == spec_reveal_bid(old(self)@, name@, salt@, caller@, now).0,
            r == spec_reveal_bid(old(self)@, name@, salt@, caller@, now).1,
            r is Err ==> final(self)@ == old(self)@,
    {
        let i = match self.find_entry(&name) {
            None => return Err(Error::InvalidNameHash),
            Some(i) => i,
        };
        let entry = self.entries[i].1;
        let revealable = match entry.mode {
            NameMode::Auction | NameMode::Reveal => true,
            _ => false,
        };
        if !revealable {
            return Err(Error::AuctionHasEnded);
        }
        if (now as u128) < (entry.registration_timestamp as u128) + (
        self.auction_duration as u128) {
            return Err(Error::AuctionInProgress);
        }
        if (now as u128) > (entry.registration_timestamp as u128) + (self.auction_duration as u128)
            + (self.reveal_period_duration as u128) {
            return Err(Error::RevealPeriodHasEnded);
        }
        let commitment = commit(&name, &salt);
        let key = BidKey { commitment, bidder: caller };
        let j = match self.find_bid(&key) {
            None => return Err(Error::InvalidBidReveal),
            Some(j) => j,
        };
        let amount = self.sealed_bids[j].1;
        if amount > entry.highest_bid_amount {
            let led = Entry {
                registration_timestamp: entry.registration_timestamp,
                highest_bid_amount: amount,
                owner: Some(caller),
                mode: NameMode::Reveal,
            };
            proof {
                lemma_assoc_map_update(self.entries@, i as int, (name, led));
            }
            self.entries.set(i, (name, led));
        }
        Ok(())
    }

    /// Withdraws the pledge under `sealed_bid` for `caller`: the stored
    /// amount becomes 0, but the slot stays.
    pub fn cancel_bid(&mut self, sealed_bid: Digest, caller: AccountId) -> (r: Result<(), Error>)
        requires
            old(self).wf(),
        ensures
            final(self).wf(),
            final(self)@ == spec_cancel_bid(old(self)@, sealed_bid@, caller@).0,
            r == spec_cancel_bid(old(self)@, sealed_bid@, caller@).1,
            r is Err ==> final(self)@ == old(self)@,
    {
        let key = BidKey { commitment: sealed_bid, bidder: caller };
        match self.find_bid(&key) {
            None => Err(Error::BidNonExistent),
            Some(i) => {
                proof {
                    lemma_assoc_map_update(self.sealed_bids@, i as int, (key, 0u128));
                }
                self.sealed_bids.set(i, (key, 0));
                Ok(())
            },
        }
    }

    /// Extends an owned or expired entry by the expiration duration. Only
    /// the entry's owner may renew; the mode stays as it was.
    pub fn renew(&mut self, name: Digest, caller: AccountId) -> (r: Result<(), Error>)
        requires
            old(self).wf(),
            old(self)@.entries.contains_key(name@) ==> old(self)@.entries[name@]
                .registration_timestamp + old(self)@.expiration_duration <= u64::MAX,
        ensures
            final(self).wf(),
            final(self)@ == spec_renew(old(self)@, name@, caller@).0,
            r == spec_renew(old(self)@, name@, caller@).1,
            r is Err ==> final(self)@ == old(self)@,
    {
        let i = match self.find_entry(&name) {
            None => return Err(Error::InvalidNameHash),
            Some(i) => i,
        };
        let entry = self.entries[i].1;
        let owned_or_expired = match entry.mode {
            NameMode::Owned | NameMode::Expired => true,
            _ => false,
        };
        if !owned_or_expired {
            return Err(Error::InvalidRenew);
        }
        let owner = match entry.owner {
            None => return Err(Error::InvalidRenew),
            Some(owner) => owner,
        };
        if !account_eq(&owner, &caller) {
            return Err(Error::InvalidRenew);
        }
        let renewed = Entry {
            registration_timestamp: entry.registration_timestamp + self.expiration_duration,
            ..entry
        };
        proof {
            lemma_assoc_map_update(self.entries@, i as int, (name, renewed));
        }
        self.entries.set(i, (name, renewed));
        Ok(())
    }

    /// Closes the auction on `name` once the reveal window has passed
    /// (strictly): the revealed leader becomes the owner, amount unchanged.
    pub fn finalize_auction(&mut self, name: Digest, now: u64) -> (r: Result<(), Error>)
        requires
            old(self).wf(),
        ensures
            final(self).wf(),
            final(self)@ == spec_finalize_auction(old(self)@, name@, now).0,
            r == spec_finalize_auction(old(self)@, name@, now).1,
            r is Err ==> final(self)@ == old(self)@,
    {
        let i = match self.find_entry(&name) {
            None => return Err(Error::InvalidNameHash),
            Some(i) => i,
        };
        let entry = self.entries[i].1;
        if entry.mode != NameMode::Reveal {
            return Err(Error::AuctionInProgress);
        }
        if (now as u128) > (entry.registration_timestamp as u128) + (self.auction_duration as u128)
            + (self.reveal_period_duration as u128) {
            let owned = Entry { mode: NameMode::Owned, ..entry };
            proof {
                lemma_assoc_map_update(self.entries@, i as int, (name, owned));
            }
            self.entries.set(i, (name, owned));
            Ok(())
        } else {
            Err(Error::AuctionInProgress)
        }
    }

    /// The entry recorded for `name`, if any.
    pub fn get_entry(&self, name: &Digest) -> (r: Option<Entry>)
        ensures
            match r {
                Some(entry) => self@.entries.contains_key(name@) && self@.entries[name@]
                    == entry@,
                None => !self@.entries.contains_key(name@),
            },
    {
        match self.find_entry(name) {
            Some(i) => Some(self.entries[i].1),
            None => None,
        }
    }

    /// The pledge stored under `sealed_bid` for `bidder`, if any.
    pub fn get_bid(&self, sealed_bid: &Digest, bidder: &AccountId) -> (r: Option<u128>)
        ensures
            match r {
                Some(amount) => self@.sealed_bids.contains_key((sealed_bid@, bidder@))
                    && self@.sealed_bids[(sealed_bid@, bidder@)] == amount,
                None => !self@.sealed_bids.contains_key((sealed_bid@, bidder@)),
            },
    {
        let key = BidKey { commitment: *sealed_bid, bidder: *bidder };
        match self.find_bid(&key) {
            Some(i) => Some(self.sealed_bids[i].1),
            None => None,
        }
    }

    /// The minimum pledge this registrar accepts.
    pub fn min_price(&self) -> (r: u128)
        ensures
            r == self@.min_price,
    {
        self.min_price
    }

    /// How long an auction accepts sealed bids.
    pub fn auction_duration(&self) -> (r: u64)
        ensures
            r == self@.auction_duration,
    {
        self.auction_duration
    }

    /// How long the reveal window stays open after the auction closes.
    pub fn reveal_period_duration(&self) -> (r: u64)
        ensures
            r == self@.reveal_period_duration,
    {
        self.reveal_period_duration
    }

    /// How far one renewal moves an entry's registration timestamp.
    pub fn expiration_duration(&self) -> (r: u64)
        ensures
            r == self@.expiration_duration,
    {
        self.expiration_duration
    }
}

impl Default for Registrar {
    /// The example configuration: 300-unit auction, reveal and expiration
    /// windows, minimum pledge 1.
    fn default() -> (r: Self)
        ensures
            r.wf(),
            r@.reveal_period_duration == 300,
            r@.auction_duration == 300,
            r@.expiration_duration == 300,
            r@.min_price == 1,
            r@.entries == Map::<Seq<u8>, crate::types::EntryV>::empty(),
            r@.sealed_bids == Map::<(Seq<u8>, Seq<u8>), u128>::empty(),
    {
        Registrar::new(300, 300, 300, 1)
    }
}

} // verus!
