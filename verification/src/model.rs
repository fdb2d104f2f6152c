use vstd::prelude::*;

use crate::commit::commitment_of;
use crate::types::EntryV;
use crate::types::Error;
use crate::types::NameMode;

verus! {

/// Mathematical image of a [`crate::registrar::Registrar`]: the two stores
/// abstracted to maps, keyed by the digests' byte sequences.
#[verifier::ext_equal]
pub struct RegistrarV {
    pub reveal_period_duration: u64,
    pub expiration_duration: u64,
    pub auction_duration: u64,
    pub min_price: u128,
    pub entries: Map<Seq<u8>, EntryV>,
    pub sealed_bids: Map<(Seq<u8>, Seq<u8>), u128>,
}

/// Outcome of `start_auction`: a duplicate name is refused whatever mode its
/// entry is in; otherwise a fresh entry opens an auction at the minimum
/// price, owned by nobody.
pub open spec fn spec_start_auction(s: RegistrarV, name: Seq<u8>, now: u64) -> (
    RegistrarV,
    Result<(), Error>,
) {
    if s.entries.contains_key(name) {
        (s, Err(Error::AuctionStartedAlready))
    } else {
        let entry = EntryV {
            registration_timestamp: now,
            highest_bid_amount: s.min_price,
            owner: None,
            mode: NameMode::Auction,
        };
        (RegistrarV { entries: s.entries.insert(name, entry), ..s }, Ok(()))
    }
}

/// Outcome of `new_bid`: a pledge below the minimum price is refused and
/// stores nothing; otherwise the pledge is stored under the commitment and
/// the bidder, overwriting any earlier pledge under that pair.
pub open spec fn spec_new_bid(
    s: RegistrarV,
    commitment: Seq<u8>,
    value: u128,
    bidder: Seq<u8>,
) -> (RegistrarV, Result<(), Error>) {
    if value < s.min_price {
        (s, Err(Error::InvalidBidPrice))
    } else {
        (
            RegistrarV { sealed_bids: s.sealed_bids.insert((commitment, bidder), value), ..s },
            Ok(()),
        )
    }
}

/// Outcome of `reveal_bid`. The entry must exist and the auction must not
/// be settled: auction mode and reveal mode both accept reveals, so a later
/// bidder can outbid the current leader, while an owned or expired entry
/// answers `AuctionHasEnded`. `now` must lie in the closed reveal window
/// `[registration + auction_duration, registration + auction_duration +
/// reveal_period_duration]` (both boundaries accepted); the commitment
/// recomputed from the name and the disclosed salt must have a stored
/// pledge by this caller. A strictly higher pledge takes the lead and puts
/// the entry in reveal mode; an equal or lower one changes nothing, yet the
/// call still succeeds.
pub open spec fn spec_reveal_bid(
    s: RegistrarV,
    name: Seq<u8>,
    salt: Seq<u8>,
    caller: Seq<u8>,
    now: u64,
) -> (RegistrarV, Result<(), Error>) {
    if !s.entries.contains_key(name) {
        (s, Err(Error::InvalidNameHash))
    } else {
        let entry = s.entries[name];
        if !(entry.mode == NameMode::Auction || entry.mode == NameMode::Reveal) {
            (s, Err(Error::AuctionHasEnded))
        } else if now < entry.registration_timestamp + s.auction_duration {
            (s, Err(Error::AuctionInProgress))
        } else if now > entry.registration_timestamp + s.auction_duration
            + s.reveal_period_duration {
            (s, Err(Error::RevealPeriodHasEnded))
        } else {
            let key = (commitment_of(name, salt), caller);
            if !s.sealed_bids.contains_key(key) {
                (s, Err(Error::InvalidBidReveal))
            } else if s.sealed_bids[key] > entry.highest_bid_amount {
                let led = EntryV {
                    registration_timestamp: entry.registration_timestamp,
                    highest_bid_amount: s.sealed_bids[key],
                    owner: Some(caller),
                    mode: NameMode::Reveal,
                };
                (RegistrarV { entries: s.entries.insert(name, led), ..s }, Ok(()))
            } else {
                (s, Ok(()))
            }
        }
    }
}

/// Outcome of `cancel_bid`: withdrawing a pledge that was never made is
/// refused; otherwise the stored amount becomes 0 while the slot stays.
pub open spec fn spec_cancel_bid(s: RegistrarV, commitment: Seq<u8>, caller: Seq<u8>) -> (
    RegistrarV,
    Result<(), Error>,
) {
    if !s.sealed_bids.contains_key((commitment, caller)) {
        (s, Err(Error::BidNonExistent))
    } else {
        (RegistrarV { sealed_bids: s.sealed_bids.insert((commitment, caller), 0), ..s }, Ok(()))
    }
}

/// Outcome of `renew`: the entry must exist, be owned or expired, and be
/// renewed by its owner; then its registration timestamp moves forward by
/// the expiration duration and nothing else changes.
pub open spec fn spec_renew(s: RegistrarV, name: Seq<u8>, caller: Seq<u8>) -> (
    RegistrarV,
    Result<(), Error>,
) {
    if !s.entries.contains_key(name) {
        (s, Err(Error::InvalidNameHash))
    } else {
        let entry = s.entries[name];
        if !(entry.mode == NameMode::Owned || entry.mode == NameMode::Expired) {
            (s, Err(Error::InvalidRenew))
        } else if entry.owner != Some(caller) {
            (s, Err(Error::InvalidRenew))
        } else {
            let renewed = EntryV {
                registration_timestamp: (entry.registration_timestamp
                    + s.expiration_duration) as u64,
                ..entry
            };
            (RegistrarV { entries: s.entries.insert(name, renewed), ..s }, Ok(()))
        }
    }
}

/// Outcome of `finalize_auction`: the entry must exist and hold a revealed
/// leader, and the reveal window must have passed (strictly); then the entry
/// becomes owned, owner and amount unchanged.
pub open spec fn spec_finalize_auction(s: RegistrarV, name: Seq<u8>, now: u64) -> (
    RegistrarV,
    Result<(), Error>,
) {
    if !s.entries.contains_key(name) {
        (s, Err(Error::InvalidNameHash))
    } else {
        let entry = s.entries[name];
        if entry.mode != NameMode::Reveal {
            (s, Err(Error::AuctionInProgress))
        } else if now > entry.registration_timestamp + s.auction_duration
            + s.reveal_period_duration {
            let owned = EntryV { mode: NameMode::Owned, ..entry };
            (RegistrarV { entries: s.entries.insert(name, owned), ..s }, Ok(()))
        } else {
            (s, Err(Error::AuctionInProgress))
        }
    }
}

} // verus!
