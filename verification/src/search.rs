use vstd::prelude::*;
use crate::digest::compute_mining_hash;
use crate::digest::mining_hash;
use crate::hashcmp::hash_le;
use crate::hashcmp::hash_le_bytes;
use crate::hashcmp::lemma_hash_le_refl;
use crate::hashcmp::lemma_hash_le_total;
use crate::hashcmp::lemma_hash_le_trans;

verus! {

/// What one worker reports for its slice of the nonce space: the nonce whose
/// digest was the smallest seen, that digest, and whether it meets the
/// difficulty target.
#[derive(Clone, Copy, Debug)]
pub struct SearchResult {
    pub best_nonce: u64,
    pub best_hash: [u8; 32],
    pub satisfies_difficulty: bool,
}

/// A well-formed result for a round with this seed and target: the digest is
/// the digest of the reported nonce, and the flag states exactly whether it
/// meets the target.
pub open spec fn result_wf(r: SearchResult, seed: Seq<u8>, target: Seq<u8>) -> bool {
    &&& r.best_hash@ == mining_hash(seed, r.best_nonce)
    &&& r.satisfies_difficulty == hash_le(r.best_hash@, target)
}

/// The digest `h` is at most the candidate digest of every nonce in `[lo, hi)`.
pub open spec fn min_over(h: Seq<u8>, seed: Seq<u8>, lo: u64, hi: int) -> bool {
    forall|n: u64| lo <= n < hi ==> hash_le(h, mining_hash(seed, n))
}

/// Relies on std::time::SystemTime::now for the wall clock, reduced to
/// milliseconds since the Unix epoch, saturating at u64::MAX. Time is not a
/// function of the program's state, so nothing is assumed of the value.
#[verifier::external_body]
pub(crate) fn now_millis() -> u64 {
    match std::time::SystemTime::now().duration_since(std::time::UNIX_EPOCH) {
        Ok(d) => u64::try_from(d.as_millis()).unwrap_or(u64::MAX),
        Err(_) => 0,
    }
}

/// Searches the worker's slice `[range_start, range_end)` of the nonce space,
/// hashing seed-and-nonce candidates in order from `range_start`. It returns
/// the instant a qualifying digest appears, at the wall-clock deadline, or
/// when the slice is exhausted, whichever comes first; the result is the
/// minimum digest over the tested prefix of the slice. The slice is the
/// worker's own for the round: nothing shared is read or written.
pub fn search(
    seed: &Vec<u8>,
    target: &[u8; 32],
    range_start: u64,
    range_end: u64,
    deadline_millis: u64,
) -> (r: SearchResult)
    requires
        range_start < range_end,
    ensures
        result_wf(r, seed@, target@),
        range_start <= r.best_nonce < range_end,
        exists|tested: int|
            {
                &&& range_start < tested <= range_end
                &&& r.best_nonce < tested
                &&& min_over(r.best_hash@, seed@, range_start, tested)
            },
{
    let mut best_nonce = range_start;
    let mut best_hash = compute_mining_hash(seed, range_start);
    let mut satisfies = hash_le_bytes(&best_hash, target);
    let mut nonce = range_start + 1;
    proof {
        lemma_hash_le_refl(best_hash@);
    }
    loop
        invariant
            range_start < nonce <= range_end,
            range_start <= best_nonce < nonce,
            best_hash@ == mining_hash(seed@, best_nonce),
            satisfies == hash_le(best_hash@, target@),
            min_over(best_hash@, seed@, range_start, nonce as int),
        decreases range_end - nonce,
    {
        if satisfies || nonce >= range_end {
            break ;
        }
        if now_millis() >= deadline_millis {
            break ;
        }
        let h = compute_mining_hash(seed, nonce);
        if hash_le_bytes(&h, &best_hash) {
            proof {
                assert forall|n: u64| range_start <= n < nonce + 1 implies hash_le(
                    h@,
                    mining_hash(seed@, n),
                ) by {
                    if n < nonce {
                        lemma_hash_le_trans(h@, best_hash@, mining_hash(seed@, n));
                    } else {
                        lemma_hash_le_refl(h@);
                    }
                }
            }
            best_nonce = nonce;
            best_hash = h;
            satisfies = hash_le_bytes(&best_hash, target);
        } else {
            proof {
                lemma_hash_le_total(h@, best_hash@);
            }
        }
        nonce = nonce + 1;
    }
    let r = SearchResult { best_nonce, best_hash, satisfies_difficulty: satisfies };
    proof {
        assert(min_over(r.best_hash@, seed@, range_start, nonce as int));
    }
    r
}

} // verus!
