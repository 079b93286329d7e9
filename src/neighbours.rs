use vstd::prelude::*;
use crate::matrix::DistanceMatrix;

verus! {

/// `k` is the first position other than `own` whose key is the smallest among
/// all positions other than `own`. An `own` outside the sequence excludes nothing.
pub open spec fn is_first_min(keys: Seq<u64>, own: int, k: int) -> bool {
    &&& 0 <= k < keys.len()
    &&& k != own
    &&& forall|b: int| 0 <= b < keys.len() && b != own ==> keys[k] <= #[trigger] keys[b]
    &&& forall|b: int| 0 <= b < k && b != own ==> keys[k] < #[trigger] keys[b]
}

/// `k` is the first position other than `own` whose key is the largest among
/// all positions other than `own`.
pub open spec fn is_first_max(keys: Seq<u64>, own: int, k: int) -> bool {
    &&& 0 <= k < keys.len()
    &&& k != own
    &&& forall|b: int| 0 <= b < keys.len() && b != own ==> #[trigger] keys[b] <= keys[k]
    &&& forall|b: int| 0 <= b < k && b != own ==> #[trigger] keys[b] < keys[k]
}

/// Positions of the smallest and the largest key, skipping position `skip`;
/// a `skip` past the end skips nothing. Needs one position to remain.
fn scan_extremes(keys: &Vec<u64>, skip: usize) -> (r: (usize, usize))
    requires
        keys@.len() > 0,
        skip >= keys@.len() || keys@.len() >= 2,
    ensures
        is_first_min(keys@, skip as int, r.0 as int),
        is_first_max(keys@, skip as int, r.1 as int),
{
    let n = keys.len();
    let mut lo: usize = n;
    let mut hi: usize = n;
    let mut j: usize = 0;
    while j < n
        invariant
            n == keys@.len(),
            j <= n,
            n > 0,
            skip >= n || n >= 2,
            lo == n <==> (j == 0 || (j == 1 && skip == 0)),
            lo <= n && hi <= n,
            hi == n <==> lo == n,
            lo < n ==> lo < j && lo != skip && hi < j && hi != skip,
            lo < n ==> forall|b: int| 0 <= b < j && b != skip ==> keys@[lo as int] <= #[trigger] keys@[b],
            lo < n ==> forall|b: int| 0 <= b < lo && b != skip ==> keys@[lo as int] < #[trigger] keys@[b],
            lo < n ==> forall|b: int| 0 <= b < j && b != skip ==> #[trigger] keys@[b] <= keys@[hi as int],
            lo < n ==> forall|b: int| 0 <= b < hi && b != skip ==> #[trigger] keys@[b] < keys@[hi as int],
        decreases n - j,
    {
        if j != skip {
            if lo == n {
                lo = j;
                hi = j;
            } else {
                if keys[j] < keys[lo] {
                    lo = j;
                }
                if keys[j] > keys[hi] {
                    hi = j;
                }
            }
        }
        j = j + 1;
    }
    (lo, hi)
}

/// Positions of the smallest and the largest key of the whole sequence, ties to
/// the first; `None` for an empty sequence. Used for the catalog-wide summaries
/// over the per-star nearest and farthest distances.
pub fn arg_extremes(keys: &Vec<u64>) -> (r: Option<(usize, usize)>)
    ensures
        r is Some <==> keys@.len() > 0,
        r matches Some(p) ==> is_first_min(keys@, keys@.len() as int, p.0 as int) && is_first_max(
            keys@,
            keys@.len() as int,
            p.1 as int,
        ),
{
    if keys.len() == 0 {
        return None;
    }
    Some(scan_extremes(keys, keys.len()))
}

/// For every star of the table, the positions of its nearest and of its farthest
/// other star. `keys` holds an order key per pair (a smaller key is a smaller
/// distance); each row is read without its diagonal cell, ties go to the first
/// position.
pub fn sort_dist(keys: &DistanceMatrix<u64>) -> (r: Vec<(usize, usize)>)
    ensures
        r@.len() == keys@.len(),
        forall|i: int|
            0 <= i < keys@.len() ==> is_first_min(keys@[i], i, (#[trigger] r@[i]).0 as int)
                && is_first_max(keys@[i], i, r@[i].1 as int),
{
    let n = keys.size();
    let mut out: Vec<(usize, usize)> = Vec::new();
    let mut i: usize = 0;
    while i < n
        invariant
            n == keys@.len(),
            keys.wf(),
            i <= n,
            out@.len() == i,
            forall|k: int|
                0 <= k < i ==> is_first_min(keys@[k], k, (#[trigger] out@[k]).0 as int)
                    && is_first_max(keys@[k], k, out@[k].1 as int),
        decreases n - i,
    {
        let row = keys.row(i);
        out.push(scan_extremes(row, i));
        i = i + 1;
    }
    out
}

/// For every star, the distance to each other star lies between the distance
/// to its nearest and to its farthest neighbour; in particular the nearest is
/// no farther than the farthest.
pub proof fn lemma_nearest_within_farthest(keys: Seq<u64>, own: int, lo: int, hi: int)
    requires
        is_first_min(keys, own, lo),
        is_first_max(keys, own, hi),
    ensures
        keys[lo] <= keys[hi],
        forall|b: int|
            0 <= b < keys.len() && b != own ==> keys[lo] <= #[trigger] keys[b] <= keys[hi],
{
    assert(keys[lo] <= keys[hi]);
}

} // verus!
