use vstd::prelude::*;

use crate::types::Digest;

verus! {

/// The Keccak-256 digest of a byte sequence. The digest is a function of the
/// input bytes alone; nothing further is assumed of its value.
pub uninterp spec fn keccak256_of(input: Seq<u8>) -> Seq<u8>;

/// The commitment binding a name to a secret salt: the Keccak-256 digest of
/// the name's bytes followed by the salt's bytes. A bidder computes it
/// off-protocol before bidding and discloses the salt only at reveal.
pub open spec fn commitment_of(name: Seq<u8>, salt: Seq<u8>) -> Seq<u8> {
    keccak256_of(name + salt)
}

/// Relies on tiny_keccak's `Keccak::v256` with `Hasher::update` and
/// `Hasher::finalize`: Keccak-256 is deterministic in the input bytes alone
/// and fills the 32-byte output with the digest.
#[verifier::external_body]
fn keccak256(input: &Vec<u8>) -> (r: [u8; 32])
    ensures
        r@ == keccak256_of(input@),
{
    let mut output = [0u8; 32];
    let mut hasher = tiny_keccak::Keccak::v256();
    tiny_keccak::Hasher::update(&mut hasher, input.as_slice());
    tiny_keccak::Hasher::finalize(hasher, &mut output);
    output
}

/// Computes the commitment for `name` under `salt`. Both the submission path
/// (a bidder sealing a bid) and the verification path (`reveal_bid`) must go
/// through this one function, so no encoding divergence is possible.
pub fn commit(name: &Digest, salt: &Digest) -> (r: Digest)
    ensures
        r@ == commitment_of(name@, salt@),
{
    let mut input: Vec<u8> = Vec::new();
    let mut i: usize = 0;
    while i < 32
        invariant
            i <= 32,
            input@ == name@.take(i as int),
        decreases 32 - i,
    {
        input.push(name.bytes[i]);
        assert(input@ =~= name@.take(i + 1));
        i = i + 1;
    }
    assert(input@ =~= name@);
    let mut j: usize = 0;
    while j < 32
        invariant
            j <= 32,
            input@ == name@ + salt@.take(j as int),
        decreases 32 - j,
    {
        input.push(salt.bytes[j]);
        assert(input@ =~= name@ + salt@.take(j + 1));
        j = j + 1;
    }
    assert(input@ =~= name@ + salt@);
    Digest { bytes: keccak256(&input) }
}

} // verus!
