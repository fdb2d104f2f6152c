use registrar::commit;
use registrar::AccountId;
use registrar::Digest;
use registrar::Entry;
use registrar::Error;
use registrar::NameMode;
use registrar::Registrar;

fn alice() -> AccountId {
    AccountId::from([7; 32])
}

fn bob() -> AccountId {
    AccountId::from([8; 32])
}

#[test]
fn start_auction() {
    let mut registrar = Registrar::default();
    assert_eq!(registrar.start_auction(Digest::from([1; 32]), 0), Ok(()));
}

#[test]
fn new_bid() {
    let name = [1; 32];
    let mut registrar = Registrar::default();
    assert_eq!(registrar.start_auction(Digest::from(name), 0), Ok(()));

    let sealed_bid = commit(&Digest::from(name), &Digest::from([2; 32]));

    assert_eq!(registrar.new_bid(sealed_bid, 1, alice()), Ok(()));
}

#[test]
fn new_bid_below_min_price_stores_nothing() {
    let mut registrar = Registrar::default();
    let sealed_bid = Digest::from([9; 32]);
    assert_eq!(
        registrar.new_bid(sealed_bid, 0, alice()),
        Err(Error::InvalidBidPrice)
    );
    assert_eq!(registrar.get_bid(&sealed_bid, &alice()), None);
}

#[test]
fn reveal_accepted_at_both_window_boundaries() {
    let mut registrar = Registrar::new(300, 300, 300, 1);
    let name_a = Digest::from([1; 32]);
    let name_b = Digest::from([2; 32]);
    let salt = Digest::from([3; 32]);
    assert_eq!(registrar.start_auction(name_a, 0), Ok(()));
    assert_eq!(registrar.start_auction(name_b, 0), Ok(()));
    assert_eq!(registrar.new_bid(commit(&name_a, &salt), 5, alice()), Ok(()));
    assert_eq!(registrar.new_bid(commit(&name_b, &salt), 5, alice()), Ok(()));
    // elapsed == auction_duration: the window has just opened.
    assert_eq!(registrar.reveal_bid(name_a, salt, 300, alice()), Ok(()));
    // elapsed == auction_duration + reveal_period_duration: still accepted.
    assert_eq!(registrar.reveal_bid(name_b, salt, 600, alice()), Ok(()));
}

#[test]
fn reveal_outside_window_rejected() {
    let mut registrar = Registrar::new(300, 300, 300, 1);
    let name = Digest::from([1; 32]);
    let salt = Digest::from([3; 32]);
    assert_eq!(registrar.start_auction(name, 0), Ok(()));
    assert_eq!(registrar.new_bid(commit(&name, &salt), 5, alice()), Ok(()));
    assert_eq!(
        registrar.reveal_bid(name, salt, 299, alice()),
        Err(Error::AuctionInProgress)
    );
    assert_eq!(
        registrar.reveal_bid(name, salt, 601, alice()),
        Err(Error::RevealPeriodHasEnded)
    );
}

#[test]
fn reveal_without_bid_rejected() {
    let mut registrar = Registrar::default();
    let name = Digest::from([1; 32]);
    assert_eq!(registrar.start_auction(name, 0), Ok(()));
    assert_eq!(
        registrar.reveal_bid(name, Digest::from([3; 32]), 300, alice()),
        Err(Error::InvalidBidReveal)
    );
}

#[test]
fn reveal_after_settlement_rejected() {
    let mut registrar = Registrar::default();
    let name = Digest::from([1; 32]);
    let salt = Digest::from([3; 32]);
    assert_eq!(registrar.start_auction(name, 0), Ok(()));
    assert_eq!(registrar.new_bid(commit(&name, &salt), 5, alice()), Ok(()));
    assert_eq!(registrar.reveal_bid(name, salt, 300, alice()), Ok(()));
    assert_eq!(registrar.finalize_auction(name, 700), Ok(()));
    // The entry is owned now; any further reveal finds the auction over.
    assert_eq!(
        registrar.reveal_bid(name, salt, 300, alice()),
        Err(Error::AuctionHasEnded)
    );
}

#[test]
fn reveal_of_lower_bid_keeps_leader() {
    let mut registrar = Registrar::new(300, 300, 300, 1);
    let name = Digest::from([1; 32]);
    let salt1 = Digest::from([11; 32]);
    let salt2 = Digest::from([22; 32]);
    assert_eq!(registrar.start_auction(name, 0), Ok(()));
    assert_eq!(registrar.new_bid(commit(&name, &salt1), 8, alice()), Ok(()));
    assert_eq!(registrar.new_bid(commit(&name, &salt2), 8, bob()), Ok(()));
    assert_eq!(registrar.reveal_bid(name, salt1, 300, alice()), Ok(()));
    // An equal pledge still succeeds but does not replace the leader.
    assert_eq!(registrar.reveal_bid(name, salt2, 310, bob()), Ok(()));
    assert_eq!(
        registrar.get_entry(&name),
        Some(Entry {
            registration_timestamp: 0,
            highest_bid_amount: 8,
            owner: Some(alice()),
            mode: NameMode::Reveal,
        })
    );
}

#[test]
fn reveal_on_missing_name_rejected() {
    let mut registrar = Registrar::default();
    assert_eq!(
        registrar.reveal_bid(Digest::from([1; 32]), Digest::from([3; 32]), 300, alice()),
        Err(Error::InvalidNameHash)
    );
}

#[test]
fn start_auction_twice_always_rejected() {
    let mut registrar = Registrar::default();
    let name = Digest::from([1; 32]);
    let salt = Digest::from([3; 32]);
    assert_eq!(registrar.start_auction(name, 0), Ok(()));
    // Entry in auction mode.
    assert_eq!(
        registrar.start_auction(name, 10),
        Err(Error::AuctionStartedAlready)
    );
    assert_eq!(registrar.new_bid(commit(&name, &salt), 5, alice()), Ok(()));
    assert_eq!(registrar.reveal_bid(name, salt, 300, alice()), Ok(()));
    // Entry in reveal mode.
    assert_eq!(
        registrar.start_auction(name, 310),
        Err(Error::AuctionStartedAlready)
    );
    assert_eq!(registrar.finalize_auction(name, 700), Ok(()));
    // Entry owned; even then the name can never restart.
    assert_eq!(
        registrar.start_auction(name, 710),
        Err(Error::AuctionStartedAlready)
    );
}

#[test]
fn scenario_two_bidders() {
    let mut registrar = Registrar::new(300, 300, 300, 1);
    let name_a = Digest::from([1; 32]);
    let salt1 = Digest::from([11; 32]);
    let salt2 = Digest::from([22; 32]);

    assert_eq!(registrar.start_auction(name_a, 0), Ok(()));
    assert_eq!(
        registrar.get_entry(&name_a),
        Some(Entry {
            registration_timestamp: 0,
            highest_bid_amount: 1,
            owner: None,
            mode: NameMode::Auction,
        })
    );

    assert_eq!(registrar.new_bid(commit(&name_a, &salt1), 5, alice()), Ok(()));
    assert_eq!(registrar.new_bid(commit(&name_a, &salt2), 8, bob()), Ok(()));

    assert_eq!(registrar.reveal_bid(name_a, salt1, 310, alice()), Ok(()));
    assert_eq!(
        registrar.get_entry(&name_a),
        Some(Entry {
            registration_timestamp: 0,
            highest_bid_amount: 5,
            owner: Some(alice()),
            mode: NameMode::Reveal,
        })
    );

    assert_eq!(registrar.reveal_bid(name_a, salt2, 320, bob()), Ok(()));
    assert_eq!(
        registrar.get_entry(&name_a),
        Some(Entry {
            registration_timestamp: 0,
            highest_bid_amount: 8,
            owner: Some(bob()),
            mode: NameMode::Reveal,
        })
    );
}

#[test]
fn finalize_inside_reveal_window_rejected_then_succeeds() {
    let mut registrar = Registrar::new(300, 300, 300, 1);
    let name_a = Digest::from([1; 32]);
    let salt = Digest::from([11; 32]);
    assert_eq!(registrar.start_auction(name_a, 0), Ok(()));
    assert_eq!(registrar.new_bid(commit(&name_a, &salt), 8, bob()), Ok(()));
    assert_eq!(registrar.reveal_bid(name_a, salt, 310, bob()), Ok(()));

    // Still inside the reveal window.
    assert_eq!(
        registrar.finalize_auction(name_a, 500),
        Err(Error::AuctionInProgress)
    );
    // The window's end itself is still inside.
    assert_eq!(
        registrar.finalize_auction(name_a, 600),
        Err(Error::AuctionInProgress)
    );
    assert_eq!(registrar.finalize_auction(name_a, 700), Ok(()));
    assert_eq!(
        registrar.get_entry(&name_a),
        Some(Entry {
            registration_timestamp: 0,
            highest_bid_amount: 8,
            owner: Some(bob()),
            mode: NameMode::Owned,
        })
    );
}

#[test]
fn finalize_before_any_reveal_rejected() {
    let mut registrar = Registrar::default();
    let name = Digest::from([1; 32]);
    assert_eq!(registrar.start_auction(name, 0), Ok(()));
    assert_eq!(
        registrar.finalize_auction(name, 700),
        Err(Error::AuctionInProgress)
    );
}

#[test]
fn finalize_on_missing_name_rejected() {
    let mut registrar = Registrar::default();
    assert_eq!(
        registrar.finalize_auction(Digest::from([1; 32]), 700),
        Err(Error::InvalidNameHash)
    );
}

#[test]
fn cancel_bid_nonexistent_rejected() {
    let mut registrar = Registrar::default();
    assert_eq!(
        registrar.cancel_bid(Digest::from([9; 32]), alice()),
        Err(Error::BidNonExistent)
    );
}

#[test]
fn cancel_bid_zeroes_the_pledge() {
    let mut registrar = Registrar::default();
    let sealed_bid = Digest::from([9; 32]);
    assert_eq!(registrar.new_bid(sealed_bid, 5, alice()), Ok(()));
    assert_eq!(registrar.cancel_bid(sealed_bid, alice()), Ok(()));
    // Soft-deleted: the slot stays, the amount is zero.
    assert_eq!(registrar.get_bid(&sealed_bid, &alice()), Some(0));
}

#[test]
fn canceled_bid_cannot_claim_leadership() {
    // Even with min_price == 0, a zeroed pledge never beats the entry's
    // highest bid: 0 > 0 does not hold.
    let mut registrar = Registrar::new(300, 300, 300, 0);
    let name = Digest::from([1; 32]);
    let salt = Digest::from([3; 32]);
    assert_eq!(registrar.start_auction(name, 0), Ok(()));
    assert_eq!(registrar.new_bid(commit(&name, &salt), 5, alice()), Ok(()));
    assert_eq!(registrar.cancel_bid(commit(&name, &salt), alice()), Ok(()));
    assert_eq!(registrar.reveal_bid(name, salt, 300, alice()), Ok(()));
    assert_eq!(
        registrar.get_entry(&name),
        Some(Entry {
            registration_timestamp: 0,
            highest_bid_amount: 0,
            owner: None,
            mode: NameMode::Auction,
        })
    );
}

#[test]
fn renew_by_non_owner_rejected() {
    let mut registrar = Registrar::new(300, 300, 300, 1);
    let name = Digest::from([1; 32]);
    let salt = Digest::from([3; 32]);
    assert_eq!(registrar.start_auction(name, 0), Ok(()));
    assert_eq!(registrar.new_bid(commit(&name, &salt), 5, alice()), Ok(()));
    assert_eq!(registrar.reveal_bid(name, salt, 300, alice()), Ok(()));
    assert_eq!(registrar.finalize_auction(name, 700), Ok(()));
    assert_eq!(registrar.renew(name, bob()), Err(Error::InvalidRenew));
    assert_eq!(
        registrar.get_entry(&name),
        Some(Entry {
            registration_timestamp: 0,
            highest_bid_amount: 5,
            owner: Some(alice()),
            mode: NameMode::Owned,
        })
    );
}

#[test]
fn renew_by_owner_extends_registration() {
    let mut registrar = Registrar::new(300, 300, 300, 1);
    let name = Digest::from([1; 32]);
    let salt = Digest::from([3; 32]);
    assert_eq!(registrar.start_auction(name, 0), Ok(()));
    assert_eq!(registrar.new_bid(commit(&name, &salt), 5, alice()), Ok(()));
    assert_eq!(registrar.reveal_bid(name, salt, 300, alice()), Ok(()));
    assert_eq!(registrar.finalize_auction(name, 700), Ok(()));
    assert_eq!(registrar.renew(name, alice()), Ok(()));
    assert_eq!(
        registrar.get_entry(&name),
        Some(Entry {
            registration_timestamp: 300,
            highest_bid_amount: 5,
            owner: Some(alice()),
            mode: NameMode::Owned,
        })
    );
}

#[test]
fn renew_in_auction_mode_rejected() {
    let mut registrar = Registrar::default();
    let name = Digest::from([1; 32]);
    assert_eq!(registrar.start_auction(name, 0), Ok(()));
    assert_eq!(registrar.renew(name, alice()), Err(Error::InvalidRenew));
}

#[test]
fn renew_on_missing_name_rejected() {
    let mut registrar = Registrar::default();
    assert_eq!(
        registrar.renew(Digest::from([1; 32]), alice()),
        Err(Error::InvalidNameHash)
    );
}

#[test]
fn commit_is_deterministic() {
    let name = Digest::from([1; 32]);
    let salt = Digest::from([2; 32]);
    assert_eq!(commit(&name, &salt), commit(&name, &salt));
}

#[test]
fn commit_binds_name_and_salt() {
    let name = Digest::from([1; 32]);
    let salt = Digest::from([2; 32]);
    let other_salt = Digest::from([3; 32]);
    // The digest is none of its inputs and changes with either of them.
    assert_ne!(commit(&name, &salt), name);
    assert_ne!(commit(&name, &salt), salt);
    assert_ne!(commit(&name, &salt), commit(&name, &other_salt));
    assert_ne!(commit(&name, &salt), commit(&salt, &name));
}
