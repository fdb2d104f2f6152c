use vstd::prelude::*;

use crate::commit::commitment_of;
use crate::model::spec_cancel_bid;
use crate::model::spec_finalize_auction;
use crate::model::spec_new_bid;
use crate::model::spec_renew;
use crate::model::spec_reveal_bid;
use crate::model::spec_start_auction;
use crate::model::RegistrarV;
use crate::types::Error;
use crate::types::NameMode;

verus! {

/// Whatever the pledged value below the minimum price, `new_bid` answers
/// `InvalidBidPrice` and stores nothing: the state is exactly as before.
pub proof fn lemma_new_bid_below_min_stores_nothing(
    s: RegistrarV,
    commitment: Seq<u8>,
    value: u128,
    bidder: Seq<u8>,
)
    requires
        value < s.min_price,
    ensures
        spec_new_bid(s, commitment, value, bidder) == (s, Err::<(), Error>(Error::InvalidBidPrice)),
{
}

/// A reveal attempted the moment the auction window closes (`elapsed`
/// exactly the auction duration) passes both timing checks.
pub proof fn lemma_reveal_open_boundary_in_window(
    s: RegistrarV,
    name: Seq<u8>,
    salt: Seq<u8>,
    caller: Seq<u8>,
    now: u64,
)
    requires
        s.entries.contains_key(name),
        s.entries[name].mode == NameMode::Auction || s.entries[name].mode == NameMode::Reveal,
        now == s.entries[name].registration_timestamp + s.auction_duration,
    ensures
        spec_reveal_bid(s, name, salt, caller, now).1 != Err::<(), Error>(Error::AuctionInProgress),
        spec_reveal_bid(s, name, salt, caller, now).1 != Err::<(), Error>(
            Error::RevealPeriodHasEnded,
        ),
{
}

/// A reveal attempted the moment the reveal window closes (`elapsed` exactly
/// the auction duration plus the reveal period) is still accepted by both
/// timing checks: the window is closed on both ends.
pub proof fn lemma_reveal_close_boundary_in_window(
    s: RegistrarV,
    name: Seq<u8>,
    salt: Seq<u8>,
    caller: Seq<u8>,
    now: u64,
)
    requires
        s.entries.contains_key(name),
        s.entries[name].mode == NameMode::Auction || s.entries[name].mode == NameMode::Reveal,
        now == s.entries[name].registration_timestamp + s.auction_duration
            + s.reveal_period_duration,
    ensures
        spec_reveal_bid(s, name, salt, caller, now).1 != Err::<(), Error>(Error::AuctionInProgress),
        spec_reveal_bid(s, name, salt, caller, now).1 != Err::<(), Error>(
            Error::RevealPeriodHasEnded,
        ),
{
}

/// Revealing a commitment that was never bid by this caller fails
/// `InvalidBidReveal` and changes nothing, however well-timed the reveal.
pub proof fn lemma_reveal_unknown_commitment_rejected(
    s: RegistrarV,
    name: Seq<u8>,
    salt: Seq<u8>,
    caller: Seq<u8>,
    now: u64,
)
    requires
        s.entries.contains_key(name),
        s.entries[name].mode == NameMode::Auction || s.entries[name].mode == NameMode::Reveal,
        s.entries[name].registration_timestamp + s.auction_duration <= now,
        now <= s.entries[name].registration_timestamp + s.auction_duration
            + s.reveal_period_duration,
        !s.sealed_bids.contains_key((commitment_of(name, salt), caller)),
    ensures
        spec_reveal_bid(s, name, salt, caller, now) == (
            s,
            Err::<(), Error>(Error::InvalidBidReveal),
        ),
{
}

/// Starting an auction on a name that already has an entry always fails
/// `AuctionStartedAlready`, whatever mode that entry is in — even an
/// expired name can never be restarted.
pub proof fn lemma_start_auction_duplicate_rejected(s: RegistrarV, name: Seq<u8>, now: u64)
    requires
        s.entries.contains_key(name),
    ensures
        spec_start_auction(s, name, now) == (s, Err::<(), Error>(Error::AuctionStartedAlready)),
{
}

/// After a pledge is canceled, a reveal of that commitment by that bidder
/// can never take the lead: the zeroed amount would have to exceed the
/// entry's highest bid, and amounts are never negative. Whatever `now` and
/// whatever the entry holds, the state after the reveal is the state after
/// the cancel.
pub proof fn lemma_canceled_bid_never_leads(
    s: RegistrarV,
    name: Seq<u8>,
    salt: Seq<u8>,
    caller: Seq<u8>,
    now: u64,
)
    requires
        s.sealed_bids.contains_key((commitment_of(name, salt), caller)),
    ensures
        spec_reveal_bid(
            spec_cancel_bid(s, commitment_of(name, salt), caller).0,
            name,
            salt,
            caller,
            now,
        ).0 == spec_cancel_bid(s, commitment_of(name, salt), caller).0,
{
    let canceled = spec_cancel_bid(s, commitment_of(name, salt), caller).0;
    assert(canceled.sealed_bids[(commitment_of(name, salt), caller)] == 0);
}

/// Renewal is refused to anyone but the entry's owner: whoever calls with
/// an identity other than the recorded owner gets `InvalidRenew`, and the
/// state stays as it was.
pub proof fn lemma_renew_by_non_owner_rejected(s: RegistrarV, name: Seq<u8>, caller: Seq<u8>)
    requires
        s.entries.contains_key(name),
        s.entries[name].owner != Some(caller),
    ensures
        spec_renew(s, name, caller) == (s, Err::<(), Error>(Error::InvalidRenew)),
{
}

/// An entry, once created, is never deleted by any operation, only
/// transitioned: every name registered before a call is registered after
/// it, whatever the call and whatever its outcome.
pub proof fn lemma_no_entry_ever_removed(
    s: RegistrarV,
    name: Seq<u8>,
    salt: Seq<u8>,
    commitment: Seq<u8>,
    value: u128,
    caller: Seq<u8>,
    now: u64,
    registered: Seq<u8>,
)
    requires
        s.entries.contains_key(registered),
    ensures
        spec_start_auction(s, name, now).0.entries.contains_key(registered),
        spec_new_bid(s, commitment, value, caller).0.entries.contains_key(registered),
        spec_reveal_bid(s, name, salt, caller, now).0.entries.contains_key(registered),
        spec_cancel_bid(s, commitment, caller).0.entries.contains_key(registered),
        spec_renew(s, name, caller).0.entries.contains_key(registered),
        spec_finalize_auction(s, name, now).0.entries.contains_key(registered),
{
}

/// A sealed-bid slot, once created, is never removed either: cancellation
/// zeroes the amount but keeps the slot.
pub proof fn lemma_no_bid_slot_ever_removed(
    s: RegistrarV,
    name: Seq<u8>,
    salt: Seq<u8>,
    commitment: Seq<u8>,
    value: u128,
    caller: Seq<u8>,
    now: u64,
    slot: (Seq<u8>, Seq<u8>),
)
    requires
        s.sealed_bids.contains_key(slot),
    ensures
        spec_start_auction(s, name, now).0.sealed_bids.contains_key(slot),
        spec_new_bid(s, commitment, value, caller).0.sealed_bids.contains_key(slot),
        spec_reveal_bid(s, name, salt, caller, now).0.sealed_bids.contains_key(slot),
        spec_cancel_bid(s, commitment, caller).0.sealed_bids.contains_key(slot),
        spec_renew(s, name, caller).0.sealed_bids.contains_key(slot),
        spec_finalize_auction(s, name, now).0.sealed_bids.contains_key(slot),
{
}

/// An entry's highest bid never goes down through a reveal, and the entry
/// itself is never removed: only a strictly higher pledge replaces the
/// leader.
pub proof fn lemma_reveal_bid_monotone(
    s: RegistrarV,
    name: Seq<u8>,
    salt: Seq<u8>,
    caller: Seq<u8>,
    now: u64,
)
    requires
        s.entries.contains_key(name),
    ensures
        spec_reveal_bid(s, name, salt, caller, now).0.entries.contains_key(name),
        spec_reveal_bid(s, name, salt, caller, now).0.entries[name].highest_bid_amount
            >= s.entries[name].highest_bid_amount,
{
}

} // verus!
