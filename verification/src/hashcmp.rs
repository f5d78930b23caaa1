use vstd::prelude::*;

verus! {

/// A digest qualifies as a proof of work when, read as a big-endian unsigned
/// integer over the full digest width, it is at most the difficulty target.
/// For equal-length byte strings that order is exactly the lexicographic
/// order, defined here byte by byte from the most significant end; a proper
/// prefix orders below any longer string, which makes the order total on all
/// byte strings.
pub open spec fn hash_le(a: Seq<u8>, b: Seq<u8>) -> bool
    decreases a.len(),
{
    if a.len() == 0 {
        true
    } else if b.len() == 0 {
        false
    } else if a[0] != b[0] {
        a[0] < b[0]
    } else {
        hash_le(a.skip(1), b.skip(1))
    }
}

pub proof fn lemma_hash_le_refl(a: Seq<u8>)
    ensures
        hash_le(a, a),
    decreases a.len(),
{
    if a.len() > 0 {
        lemma_hash_le_refl(a.skip(1));
    }
}

pub proof fn lemma_hash_le_total(a: Seq<u8>, b: Seq<u8>)
    ensures
        hash_le(a, b) || hash_le(b, a),
    decreases a.len(),
{
    if a.len() > 0 && b.len() > 0 && a[0] == b[0] {
        lemma_hash_le_total(a.skip(1), b.skip(1));
    }
}

pub proof fn lemma_hash_le_trans(a: Seq<u8>, b: Seq<u8>, c: Seq<u8>)
    requires
        hash_le(a, b),
        hash_le(b, c),
    ensures
        hash_le(a, c),
    decreases a.len(),
{
    if a.len() > 0 && b.len() > 0 && c.len() > 0 {
        if a[0] == b[0] && b[0] == c[0] {
            lemma_hash_le_trans(a.skip(1), b.skip(1), c.skip(1));
        }
    }
}

pub proof fn lemma_hash_le_antisym(a: Seq<u8>, b: Seq<u8>)
    requires
        hash_le(a, b),
        hash_le(b, a),
    ensures
        a == b,
    decreases a.len(),
{
    if a.len() == 0 {
        assert(a =~= b);
    } else {
        lemma_hash_le_antisym(a.skip(1), b.skip(1));
        assert forall|i: int| 0 <= i < a.len() implies a[i] == b[i] by {
            if i > 0 {
                assert(a[i] == a.skip(1)[i - 1]);
                assert(b[i] == b.skip(1)[i - 1]);
            }
        }
        assert(a =~= b);
    }
}

/// If two digests agree on their first `i` bytes, their order is decided by
/// the remainders.
proof fn lemma_hash_le_skip(a: Seq<u8>, b: Seq<u8>, i: int)
    requires
        0 <= i <= a.len(),
        i <= b.len(),
        forall|j: int| 0 <= j < i ==> a[j] == b[j],
    ensures
        hash_le(a, b) == hash_le(a.skip(i), b.skip(i)),
    decreases i,
{
    if i == 0 {
        assert(a.skip(0) =~= a);
        assert(b.skip(0) =~= b);
    } else {
        lemma_hash_le_skip(a.skip(1), b.skip(1), i - 1);
        assert(a.skip(1).skip(i - 1) =~= a.skip(i));
        assert(b.skip(1).skip(i - 1) =~= b.skip(i));
    }
}

/// Full-width unsigned comparison of two 32-byte digests: true when
/// `a`, read big-endian, is at most `b`.
pub fn hash_le_bytes(a: &[u8; 32], b: &[u8; 32]) -> (r: bool)
    ensures
        r == hash_le(a@, b@),
{
    let mut i: usize = 0;
    while i < 32
        invariant
            0 <= i <= 32,
            forall|j: int| 0 <= j < i ==> a@[j] == b@[j],
        decreases 32 - i,
    {
        let x = a[i];
        let y = b[i];
        if x < y {
            proof {
                lemma_hash_le_skip(a@, b@, i as int);
                assert(a@.skip(i as int)[0] == a@[i as int]);
                assert(b@.skip(i as int)[0] == b@[i as int]);
            }
            return true;
        }
        if x > y {
            proof {
                lemma_hash_le_skip(a@, b@, i as int);
                assert(a@.skip(i as int)[0] == a@[i as int]);
                assert(b@.skip(i as int)[0] == b@[i as int]);
            }
            return false;
        }
        i = i + 1;
    }
    proof {
        assert(a@ =~= b@);
        lemma_hash_le_refl(a@);
    }
    true
}

} // verus!
