use vstd::prelude::*;

verus! {

/// Lifecycle state of a name's registry entry.
///
/// An entry is created in `Auction` mode, moves to `Reveal` once a winning
/// bid is revealed, to `Owned` once the auction is finalized, and to
/// `Expired` when the host detects expiration; `renew` keeps an `Owned` or
/// `Expired` entry alive.
#[derive(Clone, Copy, PartialEq, Eq, Structural, Debug)]
pub enum NameMode {
    Auction,
    Reveal,
    Owned,
    Expired,
}

/// Errors that a registrar operation can return. Every operation returns
/// success or exactly one of these; a failing call never mutates state.
#[derive(Clone, Copy, PartialEq, Eq, Structural, Debug)]
pub enum Error {
    /// Returned if the name already has an entry upon registration.
    AuctionStartedAlready,
    /// Returned if a pledge is below the configured minimum price.
    InvalidBidPrice,
    /// Reserved; no operation currently returns it.
    InvalidSealedBidHash,
    AuctionInProgress,
    AuctionHasEnded,
    RevealPeriodHasEnded,
    BidNonExistent,
    InvalidNameHash,
    InvalidBidReveal,
    InvalidRenew,
}

/// An opaque 256-bit digest: a hashed name, a secret salt, or a bid
/// commitment. Only compared for equality, never inspected.
#[derive(Clone, Copy, PartialEq, Eq, Hash, Debug)]
pub struct Digest {
    pub bytes: [u8; 32],
}

impl View for Digest {
    type V = Seq<u8>;

    open spec fn view(&self) -> Seq<u8> {
        self.bytes@
    }
}

impl From<[u8; 32]> for Digest {
    fn from(bytes: [u8; 32]) -> (r: Self) {
        Digest { bytes }
    }
}

impl vstd::std_specs::convert::FromSpecImpl<[u8; 32]> for Digest {
    open spec fn obeys_from_spec() -> bool {
        true
    }

    open spec fn from_spec(bytes: [u8; 32]) -> Self {
        Digest { bytes }
    }
}

/// An opaque per-call caller identity, supplied by the host.
#[derive(Clone, Copy, PartialEq, Eq, Hash, Debug)]
pub struct AccountId {
    pub bytes: [u8; 32],
}

impl View for AccountId {
    type V = Seq<u8>;

    open spec fn view(&self) -> Seq<u8> {
        self.bytes@
    }
}

impl From<[u8; 32]> for AccountId {
    fn from(bytes: [u8; 32]) -> (r: Self) {
        AccountId { bytes }
    }
}

impl vstd::std_specs::convert::FromSpecImpl<[u8; 32]> for AccountId {
    open spec fn obeys_from_spec() -> bool {
        true
    }

    open spec fn from_spec(bytes: [u8; 32]) -> Self {
        AccountId { bytes }
    }
}

/// Equality of two 32-byte values, decided byte by byte.
pub fn bytes32_eq(a: &[u8; 32], b: &[u8; 32]) -> (r: bool)
    ensures
        r == (a@ == b@),
{
    let mut i: usize = 0;
    while i < 32
        invariant
            i <= 32,
            forall|j: int| 0 <= j < i ==> a@[j] == b@[j],
        decreases 32 - i,
    {
        if a[i] != b[i] {
            assert(a@ != b@);
            return false;
        }
        i = i + 1;
    }
    assert(a@ =~= b@);
    true
}

pub fn digest_eq(a: &Digest, b: &Digest) -> (r: bool)
    ensures
        r == (a@ == b@),
{
    bytes32_eq(&a.bytes, &b.bytes)
}

pub fn account_eq(a: &AccountId, b: &AccountId) -> (r: bool)
    ensures
        r == (a@ == b@),
{
    bytes32_eq(&a.bytes, &b.bytes)
}

/// The registration record kept for one name. Never deleted, only
/// transitioned between modes.
#[derive(Clone, Copy, PartialEq, Eq, Debug)]
pub struct Entry {
    pub registration_timestamp: u64,
    pub highest_bid_amount: u128,
    pub owner: Option<AccountId>,
    pub mode: NameMode,
}

/// Mathematical image of an [`Entry`]: the owner identity abstracted to its
/// byte sequence.
#[verifier::ext_equal]
pub struct EntryV {
    pub registration_timestamp: u64,
    pub highest_bid_amount: u128,
    pub owner: Option<Seq<u8>>,
    pub mode: NameMode,
}

impl View for Entry {
    type V = EntryV;

    open spec fn view(&self) -> EntryV {
        EntryV {
            registration_timestamp: self.registration_timestamp,
            highest_bid_amount: self.highest_bid_amount,
            owner: match self.owner {
                Some(account) => Some(account@),
                None => None,
            },
            mode: self.mode,
        }
    }
}

/// The key a sealed bid is stored under: re-bidding under the same
/// commitment and bidder overwrites the earlier pledge.
#[derive(Clone, Copy, PartialEq, Eq, Hash, Debug)]
pub struct BidKey {
    pub commitment: Digest,
    pub bidder: AccountId,
}

impl View for BidKey {
    type V = (Seq<u8>, Seq<u8>);

    open spec fn view(&self) -> (Seq<u8>, Seq<u8>) {
        (self.commitment@, self.bidder@)
    }
}

pub fn bid_key_eq(a: &BidKey, b: &BidKey) -> (r: bool)
    ensures
        r == (a@ == b@),
{
    digest_eq(&a.commitment, &b.commitment) && account_eq(&a.bidder, &b.bidder)
}

} // verus!
