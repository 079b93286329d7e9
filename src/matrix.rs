use vstd::prelude::*;
use crate::catalog::Source;
use crate::error::CalcError;

verus! {

/// Number of unordered pairs of distinct stars in a catalog of `n`.
pub open spec fn pair_count(n: nat) -> nat {
    n * (n - 1) as nat / 2
}

/// How many pair evaluations building the matrix of `n` stars takes, when that
/// number fits in a `u64` (the unit of progress reporting).
pub fn pair_total(n: usize) -> (r: Option<u64>)
    ensures
        r is Some <==> pair_count(n as nat) <= u64::MAX,
        r matches Some(t) ==> t == pair_count(n as nat),
{
    if n == 0 {
        return Some(0);
    }
    assert((n as int) * ((n - 1) as int) <= u64::MAX as int * u64::MAX as int) by (nonlinear_arith)
        requires
            0 < n <= u64::MAX,
    ;
    let wide: u128 = (n as u128) * ((n - 1) as u128) / 2;
    if wide <= u64::MAX as u128 {
        Some(wide as u64)
    } else {
        None
    }
}

/// Dense square table of pairwise values between the stars of a catalog.
/// Row and column `i` both belong to star `i`.
pub struct DistanceMatrix<T> {
    cells: Vec<Vec<T>>,
}

impl<T> DistanceMatrix<T> {
    pub closed spec fn view(&self) -> Seq<Seq<T>> {
        Seq::new(self.cells@.len(), |i: int| self.cells@[i]@)
    }

    /// Square, with at least two stars, and symmetric.
    pub open spec fn wf(&self) -> bool {
        &&& self@.len() >= 2
        &&& forall|i: int| 0 <= i < self@.len() ==> (#[trigger] self@[i]).len() == self@.len()
        &&& forall|i: int, j: int|
            0 <= i < self@.len() && 0 <= j < self@.len() ==> #[trigger] self@[i][j] == self@[j][i]
    }

    #[verifier::type_invariant]
    closed spec fn inv(&self) -> bool {
        self.wf()
    }

    /// Number of stars. Every table that exists is well formed.
    pub fn size(&self) -> (r: usize)
        ensures
            r == self@.len(),
            self.wf(),
    {
        proof {
            use_type_invariant(self);
        }
        self.cells.len()
    }

    /// Row `i` of the table, diagonal cell included.
    pub fn row(&self, i: usize) -> (r: &Vec<T>)
        requires
            i < self@.len(),
        ensures
            r@ == self@[i as int],
    {
        proof {
            use_type_invariant(self);
        }
        &self.cells[i]
    }
}

impl<T: Copy> DistanceMatrix<T> {
    /// The value between stars `i` and `j`.
    pub fn get(&self, i: usize, j: usize) -> (r: Result<T, CalcError>)
        ensures
            r is Ok <==> i < self@.len() && j < self@.len(),
            r matches Ok(x) ==> x == self@[i as int][j as int],
            r matches Err(e) ==> e == CalcError::IndexOutOfRange,
    {
        proof {
            use_type_invariant(self);
        }
        if i < self.cells.len() && j < self.cells.len() {
            proof {
                assert(self@[i as int] == self.cells@[i as int]@);
            }
            Ok(self.cells[i][j])
        } else {
            Err(CalcError::IndexOutOfRange)
        }
    }

    /// Column `j` of the table, from the first star to the last.
    pub fn column(&self, j: usize) -> (r: Result<Vec<T>, CalcError>)
        ensures
            r is Ok <==> j < self@.len(),
            r matches Ok(c) ==> c@.len() == self@.len() && forall|i: int|
                0 <= i < self@.len() ==> #[trigger] c@[i] == self@[i][j as int],
            r matches Err(e) ==> e == CalcError::IndexOutOfRange,
    {
        proof {
            use_type_invariant(self);
        }
        if j >= self.cells.len() {
            return Err(CalcError::IndexOutOfRange);
        }
        let n = self.cells.len();
        let mut out: Vec<T> = Vec::new();
        let mut i: usize = 0;
        while i < n
            invariant
                n == self@.len(),
                j < n,
                self.wf(),
                i <= n,
                out@.len() == i,
                forall|k: int| 0 <= k < i ==> #[trigger] out@[k] == self@[k][j as int],
            decreases n - i,
        {
            proof {
                assert(self@[i as int] == self.cells@[i as int]@);
            }
            out.push(self.cells[i][j]);
            i = i + 1;
        }
        Ok(out)
    }
}

impl<T: Copy> DistanceMatrix<T> {
    /// Row `i` without its diagonal cell: the values between star `i` and every
    /// other star, in catalog order. The self-distance is left out by position,
    /// so a zero between two different stars stays a candidate.
    pub fn neighbours(&self, i: usize) -> (r: Result<Vec<T>, CalcError>)
        ensures
            r is Ok <==> i < self@.len(),
            r matches Ok(v) ==> v@ == self@[i as int].remove(i as int),
            r matches Err(e) ==> e == CalcError::IndexOutOfRange,
    {
        proof {
            use_type_invariant(self);
        }
        if i >= self.cells.len() {
            return Err(CalcError::IndexOutOfRange);
        }
        let n = self.cells.len();
        let row = &self.cells[i];
        let ghost full = self@[i as int];
        proof {
            assert(full == row@);
        }
        let mut out: Vec<T> = Vec::new();
        let mut j: usize = 0;
        while j < n
            invariant
                n == full.len(),
                row@ == full,
                i < n,
                j <= n,
                j <= i ==> out@ == full.subrange(0, j as int),
                j > i ==> out@ == full.subrange(0, i as int) + full.subrange(i + 1, j as int),
            decreases n - j,
        {
            if j != i {
                out.push(row[j]);
            }
            proof {
                if j + 1 > i && j > i {
                    assert(full.subrange(i + 1, j + 1) == full.subrange(i + 1, j as int).push(full[j as int]));
                }
                if j == i {
                    assert(full.subrange(i + 1, j + 1) =~= Seq::<T>::empty());
                }
                if j < i {
                    assert(full.subrange(0, j + 1) == full.subrange(0, j as int).push(full[j as int]));
                }
            }
            j = j + 1;
        }
        proof {
            assert(full.subrange(i + 1, n as int) == full.subrange(i + 1, full.len() as int));
            assert(full.remove(i as int) =~= full.subrange(0, i as int) + full.subrange(i + 1, n as int));
        }
        Ok(out)
    }
}

/// A well-formed matrix reads the same across its diagonal: the value from
/// star `i` to star `j` is the value from `j` to `i`.
pub proof fn lemma_matrix_symmetric<T>(m: &DistanceMatrix<T>, i: int, j: int)
    requires
        m.wf(),
        0 <= i < m@.len(),
        0 <= j < m@.len(),
    ensures
        m@[i][j] == m@[j][i],
{
}

/// Builds the full table for the `n` stars of `source`. The value of each
/// unordered pair `i < j` comes from one call `pair(i, j)` and is written to both
/// `[i][j]` and `[j][i]`; the diagonal holds `diagonal`. `pair` is also where a
/// caller reports progress: it runs once per pair, `pair_count(n)` times in all.
/// A catalog whose columns differ in height gives `IndexOutOfRange`; one of
/// fewer than two stars gives `InsufficientData`, never a degenerate table.
pub fn calc_distances<S, T: Copy, F: Fn(usize, usize) -> T>(
    source: &Source<S>,
    diagonal: T,
    pair: F,
) -> (r: Result<DistanceMatrix<T>, CalcError>)
    requires
        forall|i: usize, j: usize| i < j < source.id@.len() ==> #[trigger] pair.requires((i, j)),
    ensures
        r is Ok <==> source.wf() && source.id@.len() >= 2,
        r matches Err(e) ==> if !source.wf() {
            e == CalcError::IndexOutOfRange
        } else {
            e == CalcError::InsufficientData
        },
        r matches Ok(m) ==> {
            let n = source.id@.len();
            &&& m.wf()
            &&& m@.len() == n
            &&& forall|i: int| 0 <= i < n ==> #[trigger] m@[i][i] == diagonal
            &&& forall|i: int, j: int|
                0 <= i < j < n ==> pair.ensures((i as usize, j as usize), #[trigger] m@[i][j])
        },
{
    if !source.is_consistent() {
        return Err(CalcError::IndexOutOfRange);
    }
    let n = source.len();
    if n < 2 {
        return Err(CalcError::InsufficientData);
    }
    let mut rows: Vec<Vec<T>> = Vec::new();
    let mut i: usize = 0;
    while i < n
        invariant
            2 <= n,
            i <= n,
            rows@.len() == i,
            forall|i: usize, j: usize| i < j < n ==> #[trigger] pair.requires((i, j)),
            forall|a: int| 0 <= a < i ==> (#[trigger] rows@[a]@).len() == n,
            forall|a: int| 0 <= a < i ==> #[trigger] rows@[a]@[a] == diagonal,
            forall|a: int, b: int|
                0 <= a < b < n && a < i ==> pair.ensures((a as usize, b as usize), #[trigger] rows@[a]@[b]),
            forall|a: int, b: int| 0 <= b < a < i ==> #[trigger] rows@[a]@[b] == rows@[b]@[a],
        decreases n - i,
    {
        let mut row: Vec<T> = Vec::new();
        let mut j: usize = 0;
        while j < n
            invariant
                2 <= n,
                i < n,
                j <= n,
                rows@.len() == i,
                row@.len() == j,
                forall|i: usize, j: usize| i < j < n ==> #[trigger] pair.requires((i, j)),
                forall|a: int| 0 <= a < i ==> (#[trigger] rows@[a]@).len() == n,
                forall|b: int| 0 <= b < j && b < i ==> #[trigger] row@[b] == rows@[b]@[i as int],
                j > i ==> row@[i as int] == diagonal,
                forall|b: int|
                    i < b < j ==> pair.ensures((i as usize, b as usize), #[trigger] row@[b]),
            decreases n - j,
        {
            if j < i {
                row.push(rows[j][i]);
            } else if j == i {
                row.push(diagonal);
            } else {
                let v = pair(i, j);
                row.push(v);
            }
            j = j + 1;
        }
        rows.push(row);
        i = i + 1;
    }
    let m = DistanceMatrix { cells: rows };
    assert(m@.len() == n);
    assert forall|a: int, b: int|
        0 <= a < n && 0 <= b < n implies #[trigger] m@[a][b] == m@[b][a] by {
        assert(m@[a] == rows@[a]@);
        assert(m@[b] == rows@[b]@);
    }
    assert forall|a: int| 0 <= a < n implies (#[trigger] m@[a]).len() == n by {
        assert(m@[a] == rows@[a]@);
    }
    assert forall|a: int| 0 <= a < n implies #[trigger] m@[a][a] == diagonal by {
        assert(m@[a] == rows@[a]@);
    }
    assert forall|a: int, b: int|
        0 <= a < b < n implies pair.ensures((a as usize, b as usize), #[trigger] m@[a][b]) by {
        assert(m@[a] == rows@[a]@);
    }
    Ok(m)
}

} // verus!
