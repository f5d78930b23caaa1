use vstd::prelude::*;
use vstd::arithmetic::div_mod::lemma_fundamental_div_mod;
use vstd::arithmetic::div_mod::lemma_mod_bound;
use vstd::arithmetic::mul::lemma_mul_inequality;
use crate::digest::mining_hash;
use crate::errors::MinerError;
use crate::hashcmp::hash_le;
use crate::hashcmp::hash_le_bytes;
use crate::hashcmp::lemma_hash_le_antisym;
use crate::hashcmp::lemma_hash_le_refl;
use crate::hashcmp::lemma_hash_le_total;
use crate::hashcmp::lemma_hash_le_trans;
use crate::search::SearchResult;
use crate::search::min_over;
use crate::search::now_millis;
use crate::search::result_wf;
use crate::search::search;

verus! {

/// The width of each worker's slice when the nonce space `[0, u64::MAX)` is
/// cut into `n` contiguous pieces; the last piece absorbs the remainder.
pub open spec fn part_width(n: u64) -> int {
    u64::MAX as int / n as int
}

/// The first nonce of slice `i` out of `n`.
pub open spec fn range_lo(n: u64, i: int) -> int {
    i * part_width(n)
}

/// One past the last nonce of slice `i` out of `n`.
pub open spec fn range_hi(n: u64, i: int) -> int {
    if i == n - 1 {
        u64::MAX as int
    } else {
        (i + 1) * part_width(n)
    }
}

/// The first nonce of slice `i`, as the machine word the workers take.
pub open spec fn range_lo_u64(n: u64, i: int) -> u64 {
    range_lo(n, i) as u64
}

proof fn lemma_width_facts(n: u64)
    requires
        1 <= n,
    ensures
        1 <= part_width(n),
        n as int * part_width(n) <= u64::MAX as int,
{
    let w = part_width(n);
    lemma_fundamental_div_mod(u64::MAX as int, n as int);
    lemma_mod_bound(u64::MAX as int, n as int);
    let r = u64::MAX as int % n as int;
    assert(u64::MAX as int == n as int * w + r);
    assert(1 <= w && n as int * w <= u64::MAX as int) by (nonlinear_arith)
        requires
            u64::MAX as int == n as int * w + r,
            0 <= r < n as int,
            1 <= n as int <= u64::MAX as int,
    ;
}

proof fn lemma_range_bounds(n: u64, i: int)
    requires
        1 <= n,
        0 <= i < n,
    ensures
        0 <= range_lo(n, i),
        range_lo(n, i) < range_hi(n, i),
        range_hi(n, i) <= u64::MAX as int,
        range_lo(n, i) + part_width(n) == (i + 1) * part_width(n),
        (i + 1) * part_width(n) <= n as int * part_width(n),
{
    let w = part_width(n);
    lemma_width_facts(n);
    assert(0 <= i * w && (i + 1) * w == i * w + w) by (nonlinear_arith)
        requires
            0 <= i,
            1 <= w,
    ;
    lemma_mul_inequality(i + 1, n as int, w);
    if i == n - 1 {
        assert(n as int * w == (n as int - 1) * w + w) by (nonlinear_arith);
    }
}

/// Cuts the nonce space `[0, u64::MAX)` into `thread_count` contiguous
/// slices: slice `i` is `[range_lo, range_hi)`, the slices are nonempty, and
/// consecutive slices meet exactly, so together they cover the space with no
/// gap and no overlap. A thread count of zero is a configuration error.
pub fn partition_ranges(thread_count: u64) -> (r: Result<Vec<(u64, u64)>, MinerError>)
    ensures
        thread_count == 0 <==> r is Err,
        r is Err ==> r->Err_0 == MinerError::InvalidConfig,
        r is Ok ==> {
            let v = r->Ok_0;
            &&& v@.len() == thread_count
            &&& forall|i: int|
                0 <= i < thread_count ==> (#[trigger] v@[i]).0 == range_lo(thread_count, i)
            &&& forall|i: int|
                0 <= i < thread_count ==> (#[trigger] v@[i]).1 == range_hi(thread_count, i)
            &&& forall|i: int| 0 <= i < thread_count ==> (#[trigger] v@[i]).0 < v@[i].1
        },
{
    if thread_count == 0 {
        return Err(MinerError::InvalidConfig);
    }
    proof {
        lemma_width_facts(thread_count);
    }
    let w: u64 = u64::MAX / thread_count;
    let mut v: Vec<(u64, u64)> = Vec::new();
    let mut start: u64 = 0;
    let mut i: u64 = 0;
    while i < thread_count
        invariant
            1 <= thread_count,
            0 <= i <= thread_count,
            w as int == part_width(thread_count),
            start as int == range_lo(thread_count, i as int),
            v@.len() == i,
            forall|k: int|
                0 <= k < i ==> (#[trigger] v@[k]).0 == range_lo(thread_count, k),
            forall|k: int|
                0 <= k < i ==> (#[trigger] v@[k]).1 == range_hi(thread_count, k),
            forall|k: int| 0 <= k < i ==> (#[trigger] v@[k]).0 < v@[k].1,
        decreases thread_count - i,
    {
        proof {
            lemma_range_bounds(thread_count, i as int);
            lemma_width_facts(thread_count);
        }
        let end: u64 = if i == thread_count - 1 {
            u64::MAX
        } else {
            start + w
        };
        v.push((start, end));
        start = start + w;
        i = i + 1;
    }
    Ok(v)
}

/// Every nonce below `u64::MAX` falls in exactly one of the `n` assigned
/// slices: the slices cover the whole search space, with no gap and no
/// overlap.
pub proof fn lemma_partition_covers(n: u64, nonce: u64)
    requires
        1 <= n,
        nonce < u64::MAX,
    ensures
        exists|i: int| 0 <= i < n && #[trigger] range_lo(n, i) <= nonce < range_hi(n, i),
        forall|i: int, j: int|
            (0 <= i < n && 0 <= j < n && #[trigger] range_lo(n, i) <= nonce < range_hi(n, i)
                && #[trigger] range_lo(n, j) <= nonce < range_hi(n, j)) ==> i == j,
{
    let w = part_width(n);
    lemma_width_facts(n);
    lemma_fundamental_div_mod(nonce as int, w);
    lemma_mod_bound(nonce as int, w);
    let q = nonce as int / w;
    let rm = nonce as int % w;
    assert(nonce as int == w * q + rm);
    assert(0 <= q) by (nonlinear_arith)
        requires
            nonce as int == w * q + rm,
            0 <= rm < w,
            0 <= nonce as int,
            1 <= w,
    ;
    assert(w * q <= nonce < w * q + w);
    if q <= n - 2 {
        let i = q;
        assert(range_lo(n, i) == i * w);
        assert(range_hi(n, i) == (i + 1) * w);
        assert(q * w == w * q && (q + 1) * w == w * q + w) by (nonlinear_arith);
        assert(0 <= i < n && range_lo(n, i) <= nonce < range_hi(n, i));
    } else {
        let i = n - 1;
        assert(range_lo(n, i) == i * w);
        assert(range_hi(n, i) == u64::MAX as int);
        assert((n as int - 1) * w <= q * w && q * w == w * q) by (nonlinear_arith)
            requires
                n as int - 1 <= q,
                1 <= w,
    ;
        assert(range_lo(n, i) <= nonce);
        assert(0 <= i < n && range_lo(n, i) <= nonce < range_hi(n, i));
    }
    assert forall|i: int, j: int|
        (0 <= i < n && 0 <= j < n && #[trigger] range_lo(n, i) <= nonce < range_hi(n, i)
            && #[trigger] range_lo(n, j) <= nonce < range_hi(n, j)) implies i == j by {
        if i < j {
            lemma_range_disjoint(n, i, j, nonce);
        }
        if j < i {
            lemma_range_disjoint(n, j, i, nonce);
        }
    }
}

proof fn lemma_range_disjoint(n: u64, i: int, j: int, nonce: u64)
    requires
        1 <= n,
        0 <= i < j < n,
        range_lo(n, i) <= nonce < range_hi(n, i),
    ensures
        !(range_lo(n, j) <= nonce < range_hi(n, j)),
{
    let w = part_width(n);
    lemma_width_facts(n);
    assert((i + 1) * w <= j * w) by (nonlinear_arith)
        requires
            i + 1 <= j,
            1 <= w,
    ;
    assert(nonce < range_hi(n, i));
    if i == n - 1 {
        assert(false);
    }
    assert(nonce < (i + 1) * w);
    assert(range_lo(n, j) == j * w);
}

/// Results are ordered by their digest, full-width unsigned, with the nonce
/// as the tie-break; this is a total order, so selection does not depend on
/// the order in which workers report.
pub open spec fn key_le(a: SearchResult, b: SearchResult) -> bool {
    if a.best_hash@ == b.best_hash@ {
        a.best_nonce <= b.best_nonce
    } else {
        hash_le(a.best_hash@, b.best_hash@)
    }
}

/// Two results that agree in every observable field.
pub open spec fn same_result(a: SearchResult, b: SearchResult) -> bool {
    &&& a.best_nonce == b.best_nonce
    &&& a.best_hash@ == b.best_hash@
    &&& a.satisfies_difficulty == b.satisfies_difficulty
}

/// The coordinator's choice among reported results: it is one of them, and
/// it orders at or below every one of them.
pub open spec fn is_selected(r: SearchResult, rs: Seq<SearchResult>) -> bool {
    &&& exists|j: int| 0 <= j < rs.len() && same_result(r, #[trigger] rs[j])
    &&& forall|j: int| 0 <= j < rs.len() ==> key_le(r, #[trigger] rs[j])
}

pub proof fn lemma_key_le_total(a: SearchResult, b: SearchResult)
    ensures
        key_le(a, b) || key_le(b, a),
{
    if a.best_hash@ != b.best_hash@ {
        lemma_hash_le_total(a.best_hash@, b.best_hash@);
    }
}

pub proof fn lemma_key_le_trans(a: SearchResult, b: SearchResult, c: SearchResult)
    requires
        key_le(a, b),
        key_le(b, c),
    ensures
        key_le(a, c),
{
    if a.best_hash@ == b.best_hash@ && b.best_hash@ == c.best_hash@ {
    } else if a.best_hash@ == b.best_hash@ {
    } else if b.best_hash@ == c.best_hash@ {
    } else {
        lemma_hash_le_trans(a.best_hash@, b.best_hash@, c.best_hash@);
        if a.best_hash@ == c.best_hash@ {
            lemma_hash_le_refl(a.best_hash@);
            lemma_hash_le_antisym(a.best_hash@, b.best_hash@);
        }
    }
}

pub proof fn lemma_key_le_antisym(a: SearchResult, b: SearchResult)
    requires
        key_le(a, b),
        key_le(b, a),
    ensures
        a.best_hash@ == b.best_hash@,
        a.best_nonce == b.best_nonce,
{
    if a.best_hash@ != b.best_hash@ {
        lemma_hash_le_antisym(a.best_hash@, b.best_hash@);
    }
}

/// Whether `a` orders at or below `b`: smaller digest first, nonce as the
/// tie-break.
pub fn key_le_exec(a: &SearchResult, b: &SearchResult) -> (r: bool)
    ensures
        r == key_le(*a, *b),
{
    let ab = hash_le_bytes(&a.best_hash, &b.best_hash);
    let ba = hash_le_bytes(&b.best_hash, &a.best_hash);
    if ab && ba {
        proof {
            lemma_hash_le_antisym(a.best_hash@, b.best_hash@);
        }
        a.best_nonce <= b.best_nonce
    } else {
        proof {
            if a.best_hash@ == b.best_hash@ {
                lemma_hash_le_refl(a.best_hash@);
            }
        }
        ab
    }
}

/// Picks the winner among the workers' results: any result whose digest is
/// at most every other digest, with the smallest nonce among digest ties.
/// Preferring qualifying results needs no separate rule: a digest at most
/// every other digest qualifies whenever any result does.
pub fn select_best(results: &Vec<SearchResult>) -> (r: SearchResult)
    requires
        results@.len() >= 1,
    ensures
        is_selected(r, results@),
{
    let mut best: SearchResult = results[0];
    proof {
        assert(same_result(best, results@[0]));
        assert(key_le(best, results@[0]));
    }
    let mut j: usize = 1;
    while j < results.len()
        invariant
            results@.len() >= 1,
            1 <= j <= results@.len(),
            exists|k: int| 0 <= k < j && same_result(best, #[trigger] results@[k]),
            forall|k: int| 0 <= k < j ==> key_le(best, #[trigger] results@[k]),
        decreases results@.len() - j,
    {
        let cand = results[j];
        if !key_le_exec(&best, &cand) {
            proof {
                lemma_key_le_total(best, cand);
                assert forall|k: int| 0 <= k < j + 1 implies key_le(cand, #[trigger] results@[k]) by {
                    if k < j {
                        lemma_key_le_trans(cand, best, results@[k]);
                    } else {
                        lemma_key_le_total(cand, cand);
                    }
                }
            }
            best = cand;
        }
        j = j + 1;
    }
    best
}

/// Joins a round's worker reports. A zero thread count is a configuration
/// error; a report count that does not match the thread count means a worker
/// was lost, and the round fails rather than trust a partial search;
/// otherwise the winner is selected.
pub fn aggregate_results(thread_count: u64, results: &Vec<SearchResult>) -> (r: Result<
    SearchResult,
    MinerError,
>)
    ensures
        thread_count == 0 ==> r is Err && r->Err_0 == MinerError::InvalidConfig,
        thread_count > 0 && results@.len() != thread_count ==> r is Err && r->Err_0
            == MinerError::WorkerFailure,
        thread_count > 0 && results@.len() == thread_count ==> r is Ok && is_selected(
            r->Ok_0,
            results@,
        ),
{
    if thread_count == 0 {
        return Err(MinerError::InvalidConfig);
    }
    if results.len() as u64 != thread_count {
        return Err(MinerError::WorkerFailure);
    }
    Ok(select_best(results))
}

/// Permuting the order in which worker results are aggregated never changes
/// the selection: two selections from report sequences that hold the same
/// results — the same multiset — agree on every observable field, provided
/// each report's qualifying flag states whether its digest meets the target.
pub proof fn lemma_selection_commutative(
    r1: SearchResult,
    r2: SearchResult,
    rs1: Seq<SearchResult>,
    rs2: Seq<SearchResult>,
    target: Seq<u8>,
)
    requires
        rs1.to_multiset() == rs2.to_multiset(),
        is_selected(r1, rs1),
        is_selected(r2, rs2),
        forall|j: int|
            0 <= j < rs1.len() ==> (#[trigger] rs1[j]).satisfies_difficulty == hash_le(
                rs1[j].best_hash@,
                target,
            ),
        forall|j: int|
            0 <= j < rs2.len() ==> (#[trigger] rs2[j]).satisfies_difficulty == hash_le(
                rs2[j].best_hash@,
                target,
            ),
    ensures
        same_result(r1, r2),
{
    let j1 = choose|j: int| 0 <= j < rs1.len() && same_result(r1, #[trigger] rs1[j]);
    let x1 = rs1[j1];
    let j2 = choose|j: int| 0 <= j < rs2.len() && same_result(r2, #[trigger] rs2[j]);
    let x2 = rs2[j2];
    vstd::seq_lib::to_multiset_contains(rs1, x1);
    vstd::seq_lib::to_multiset_contains(rs2, x1);
    vstd::seq_lib::to_multiset_contains(rs1, x2);
    vstd::seq_lib::to_multiset_contains(rs2, x2);
    assert(rs1.contains(x1));
    assert(rs2.contains(x1));
    assert(rs1.contains(x2));
    let k1 = choose|k: int| 0 <= k < rs2.len() && rs2[k] == x1;
    let k2 = choose|k: int| 0 <= k < rs1.len() && rs1[k] == x2;
    assert(key_le(r2, x1));
    assert(key_le(r1, x2));
    assert(key_le(x1, x2)) by {
        assert(key_le(r1, rs1[k2]));
    }
    assert(key_le(x2, x1)) by {
        assert(key_le(r2, rs2[k1]));
    }
    lemma_key_le_antisym(x1, x2);
    assert(x1.satisfies_difficulty == hash_le(x1.best_hash@, target));
    assert(x2.satisfies_difficulty == hash_le(x2.best_hash@, target));
}

/// Selection never discards a qualifying proof: if any reported result
/// meets the target, the selected result meets it too, provided each
/// report's qualifying flag states whether its digest meets the target.
pub proof fn lemma_selection_prefers_qualifying(
    r: SearchResult,
    rs: Seq<SearchResult>,
    target: Seq<u8>,
)
    requires
        is_selected(r, rs),
        forall|j: int|
            0 <= j < rs.len() ==> (#[trigger] rs[j]).satisfies_difficulty == hash_le(
                rs[j].best_hash@,
                target,
            ),
        exists|j: int| 0 <= j < rs.len() && (#[trigger] rs[j]).satisfies_difficulty,
    ensures
        r.satisfies_difficulty,
{
    let j = choose|j: int| 0 <= j < rs.len() && (#[trigger] rs[j]).satisfies_difficulty;
    let k = choose|k: int| 0 <= k < rs.len() && same_result(r, #[trigger] rs[k]);
    assert(key_le(r, rs[j]));
    assert(r.satisfies_difficulty == hash_le(r.best_hash@, target));
    if r.best_hash@ == rs[j].best_hash@ {
    } else {
        lemma_hash_le_trans(r.best_hash@, rs[j].best_hash@, target);
    }
}

/// Runs one mining round: cuts the nonce space across `thread_count` worker
/// slices, searches each slice until its deadline, and selects the winner.
/// The workers here run in turn over their disjoint slices; the selection
/// does not depend on that order. On success the result is well formed for
/// the round's seed and target, and its digest is the minimum candidate
/// digest over a tested nonempty prefix of every slice — every slice was
/// searched, and nothing tested beat the winner.
pub fn run_round(thread_count: u64, seed: &Vec<u8>, target: &[u8; 32], time_budget_millis: u64) -> (r:
    Result<SearchResult, MinerError>)
    ensures
        thread_count == 0 <==> r is Err,
        r is Err ==> r->Err_0 == MinerError::InvalidConfig,
        r is Ok ==> result_wf(r->Ok_0, seed@, target@),
        r is Ok ==> forall|i: int|
            0 <= i < thread_count ==> hash_le(
                (r->Ok_0).best_hash@,
                mining_hash(seed@, range_lo_u64(thread_count, i)),
            ),
        r is Ok ==> exists|ends: Seq<int>|
            {
                &&& ends.len() == thread_count
                &&& forall|i: int|
                    0 <= i < thread_count ==> range_lo(thread_count, i) < #[trigger] ends[i]
                        <= range_hi(thread_count, i)
                &&& forall|i: int|
                    0 <= i < thread_count ==> min_over(
                        (r->Ok_0).best_hash@,
                        seed@,
                        range_lo_u64(thread_count, i),
                        #[trigger] ends[i],
                    )
            },
{
    let ranges = match partition_ranges(thread_count) {
        Ok(v) => v,
        Err(e) => {
            return Err(e);
        },
    };
    let now = now_millis();
    let deadline = if time_budget_millis > u64::MAX - now {
        u64::MAX
    } else {
        now + time_budget_millis
    };
    let mut results: Vec<SearchResult> = Vec::new();
    let ghost mut ends: Seq<int> = Seq::empty();
    let mut i: usize = 0;
    while i < ranges.len()
        invariant
            thread_count >= 1,
            ranges@.len() == thread_count,
            forall|k: int|
                0 <= k < thread_count ==> (#[trigger] ranges@[k]).0 == range_lo(thread_count, k),
            forall|k: int|
                0 <= k < thread_count ==> (#[trigger] ranges@[k]).1 == range_hi(thread_count, k),
            forall|k: int| 0 <= k < thread_count ==> (#[trigger] ranges@[k]).0 < ranges@[k].1,
            0 <= i <= ranges@.len(),
            results@.len() == i,
            ends.len() == i,
            forall|k: int| 0 <= k < i ==> result_wf(#[trigger] results@[k], seed@, target@),
            forall|k: int|
                0 <= k < i ==> hash_le(
                    (#[trigger] results@[k]).best_hash@,
                    mining_hash(seed@, ranges@[k].0),
                ),
            forall|k: int| 0 <= k < i ==> ranges@[k].0 < #[trigger] ends[k] <= ranges@[k].1,
            forall|k: int|
                0 <= k < i ==> min_over(
                    (#[trigger] results@[k]).best_hash@,
                    seed@,
                    ranges@[k].0,
                    ends[k],
                ),
        decreases ranges@.len() - i,
    {
        let rg = ranges[i];
        let res = search(seed, target, rg.0, rg.1, deadline);
        proof {
            let tested = choose|tested: int|
                {
                    &&& rg.0 < tested <= rg.1
                    &&& res.best_nonce < tested
                    &&& min_over(res.best_hash@, seed@, rg.0, tested)
                };
            assert(hash_le(res.best_hash@, mining_hash(seed@, rg.0)));
            ends = ends.push(tested);
        }
        results.push(res);
        i = i + 1;
    }
    let winner = match aggregate_results(thread_count, &results) {
        Ok(wn) => wn,
        Err(e) => {
            proof {
                assert(false);
            }
            return Err(e);
        },
    };
    proof {
        let j = choose|j: int| 0 <= j < results@.len() && same_result(winner, #[trigger] results@[j]);
        assert(result_wf(winner, seed@, target@));
        assert forall|k: int|
            0 <= k < thread_count implies hash_le(
            winner.best_hash@,
            mining_hash(seed@, range_lo_u64(thread_count, k)),
        ) by {
            assert(key_le(winner, results@[k]));
            if winner.best_hash@ == results@[k].best_hash@ {
                assert(hash_le(winner.best_hash@, mining_hash(seed@, ranges@[k].0)));
            } else {
                lemma_hash_le_trans(
                    winner.best_hash@,
                    results@[k].best_hash@,
                    mining_hash(seed@, ranges@[k].0),
                );
            }
            assert(ranges@[k].0 == range_lo_u64(thread_count, k));
        }
        assert forall|k: int|
            0 <= k < thread_count implies min_over(
            winner.best_hash@,
            seed@,
            range_lo_u64(thread_count, k),
            ends[k],
        ) by {
            assert(key_le(winner, results@[k]));
            assert(ranges@[k].0 == range_lo_u64(thread_count, k));
            assert forall|n: u64|
                range_lo_u64(thread_count, k) <= n < ends[k] implies hash_le(
                winner.best_hash@,
                mining_hash(seed@, n),
            ) by {
                assert(hash_le(results@[k].best_hash@, mining_hash(seed@, n)));
                if winner.best_hash@ == results@[k].best_hash@ {
                } else {
                    lemma_hash_le_trans(
                        winner.best_hash@,
                        results@[k].best_hash@,
                        mining_hash(seed@, n),
                    );
                }
            }
        }
        assert(ends.len() == thread_count);
        assert(forall|k: int|
            0 <= k < thread_count ==> range_lo(thread_count, k) < #[trigger] ends[k] <= range_hi(
                thread_count,
                k,
            ));
    }
    Ok(winner)
}

} // verus!
