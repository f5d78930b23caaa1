use vstd::prelude::*;
use vstd::bytes::spec_u64_to_le_bytes;
use vstd::bytes::u64_to_le_bytes;

verus! {

/// The Keccak-256 digest of a byte string, as the hashing crate computes it.
/// The digest is a function of the input bytes alone; nothing else is assumed
/// of its value.
pub uninterp spec fn keccak_of(data: Seq<u8>) -> Seq<u8>;

/// Relies on solana_sdk::keccak::hash: the Keccak-256 digest of the given
/// bytes, 32 bytes long and depending on the bytes alone.
#[verifier::external_body]
fn keccak256(data: &[u8]) -> (r: [u8; 32])
    ensures
        r@ == keccak_of(data@),
{
    solana_sdk::keccak::hash(data).to_bytes()
}

/// The candidate digest a round tests against the difficulty target: the
/// digest of the round's seed followed by the nonce in little-endian bytes.
pub open spec fn mining_hash(seed: Seq<u8>, nonce: u64) -> Seq<u8> {
    keccak_of(seed + spec_u64_to_le_bytes(nonce))
}

/// Computes the candidate digest for one nonce.
pub fn compute_mining_hash(seed: &Vec<u8>, nonce: u64) -> (r: [u8; 32])
    ensures
        r@ == mining_hash(seed@, nonce),
        r@.len() == 32,
{
    let mut msg: Vec<u8> = Vec::new();
    let mut i: usize = 0;
    while i < seed.len()
        invariant
            0 <= i <= seed@.len(),
            msg@ == seed@.subrange(0, i as int),
        decreases seed@.len() - i,
    {
        proof {
            assert(seed@.subrange(0, i as int) + seq![seed@[i as int]] =~= seed@.subrange(
                0,
                i as int + 1,
            ));
        }
        msg.push(seed[i]);
        i = i + 1;
    }
    proof {
        assert(msg@ =~= seed@);
    }
    let tail = u64_to_le_bytes(nonce);
    let mut j: usize = 0;
    while j < tail.len()
        invariant
            0 <= j <= tail@.len(),
            tail@ == spec_u64_to_le_bytes(nonce),
            msg@ == seed@ + tail@.subrange(0, j as int),
        decreases tail@.len() - j,
    {
        proof {
            assert(seed@ + tail@.subrange(0, j as int) + seq![tail@[j as int]] =~= seed@
                + tail@.subrange(0, j as int + 1));
        }
        msg.push(tail[j]);
        j = j + 1;
    }
    proof {
        assert(msg@ =~= seed@ + spec_u64_to_le_bytes(nonce));
    }
    keccak256(msg.as_slice())
}

} // verus!
