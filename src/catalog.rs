use vstd::prelude::*;
use crate::column::{complete, first_missing, require_complete, unwrapped};
use crate::designation::{unquoted, vectorise_designations};
use crate::error::CalcError;

verus! {

/// The observed attributes of a star catalog, one column per attribute, one
/// row per star, rows in the order of the source table. `T` is the numeric
/// type the measurements are held in.
pub struct Source<T> {
    /// Designation of each star.
    pub id: Vec<Vec<char>>,
    /// Right ascension, in degrees.
    pub ra: Vec<T>,
    /// Declination, in degrees.
    pub dec: Vec<T>,
    /// Radial distance, in parsecs.
    pub rho: Vec<T>,
    /// Absolute magnitude, present only when luminosity work is asked for.
    pub g_abs: Option<Vec<T>>,
}

impl<T> Source<T> {
    /// Every column has one entry per star.
    pub open spec fn wf(&self) -> bool {
        &&& self.ra@.len() == self.id@.len()
        &&& self.dec@.len() == self.id@.len()
        &&& self.rho@.len() == self.id@.len()
        &&& self.g_abs matches Some(g) ==> g@.len() == self.id@.len()
    }

    /// Number of stars.
    pub fn len(&self) -> (r: usize)
        ensures
            r == self.id@.len(),
    {
        self.id.len()
    }

    /// Whether every column has one entry per star.
    pub fn is_consistent(&self) -> (r: bool)
        ensures
            r == self.wf(),
    {
        let n = self.id.len();
        let g_ok = match &self.g_abs {
            Some(g) => g.len() == n,
            None => true,
        };
        self.ra.len() == n && self.dec.len() == n && self.rho.len() == n && g_ok
    }
}

/// The first error that reading these columns meets, checking them in the
/// order designation, ra, dec, distance, magnitude.
pub open spec fn first_column_error<T>(
    ra: Seq<Option<T>>,
    dec: Seq<Option<T>>,
    rho: Seq<Option<T>>,
    g_abs: Option<Seq<Option<T>>>,
    e: CalcError,
) -> bool {
    if !complete(ra) {
        e matches CalcError::MissingValue { row } && first_missing(ra, row as int)
    } else if !complete(dec) {
        e matches CalcError::MissingValue { row } && first_missing(dec, row as int)
    } else if !complete(rho) {
        e matches CalcError::MissingValue { row } && first_missing(rho, row as int)
    } else {
        g_abs matches Some(g) && e matches CalcError::MissingValue { row } && first_missing(
            g,
            row as int,
        )
    }
}

/// Turns the cells of a loaded table into a catalog. Designations lose their
/// quoting; a missing numeric cell is an error naming its row; row order is kept.
/// Columns of different heights are refused with `IndexOutOfRange`.
pub fn restructure_data<T: Copy>(
    designation: &Vec<Vec<char>>,
    ra: &Vec<Option<T>>,
    dec: &Vec<Option<T>>,
    rho: &Vec<Option<T>>,
    g_abs: Option<&Vec<Option<T>>>,
) -> (r: Result<Source<T>, CalcError>)
    ensures
        ({
            let n = designation@.len();
            let heights = ra@.len() == n && dec@.len() == n && rho@.len() == n && (g_abs matches Some(
                g,
            ) ==> g@.len() == n);
            let filled = complete(ra@) && complete(dec@) && complete(rho@) && (g_abs matches Some(
                g,
            ) ==> complete(g@));
            &&& r is Ok <==> heights && filled
            &&& r matches Ok(s) ==> {
                &&& s.wf()
                &&& s.id@.len() == n
                &&& forall|i: int| 0 <= i < n ==> #[trigger] s.id@[i]@ == unquoted(designation@[i]@)
                &&& s.ra@ == unwrapped(ra@)
                &&& s.dec@ == unwrapped(dec@)
                &&& s.rho@ == unwrapped(rho@)
                &&& (g_abs matches Some(g) ==> s.g_abs matches Some(v) && v@ == unwrapped(g@))
                &&& (g_abs is None ==> s.g_abs is None)
            }
            &&& r matches Err(e) ==> if !heights {
                e == CalcError::IndexOutOfRange
            } else {
                first_column_error(
                    ra@,
                    dec@,
                    rho@,
                    match g_abs {
                        Some(g) => Some(g@),
                        None => None,
                    },
                    e,
                )
            }
        }),
{
    let n = designation.len();
    let g_height = match g_abs {
        Some(g) => g.len() == n,
        None => true,
    };
    if !(ra.len() == n && dec.len() == n && rho.len() == n && g_height) {
        return Err(CalcError::IndexOutOfRange);
    }
    let ra_v = require_complete(ra)?;
    let dec_v = require_complete(dec)?;
    let rho_v = require_complete(rho)?;
    let g_v = match g_abs {
        Some(g) => Some(require_complete(g)?),
        None => None,
    };
    let id = vectorise_designations(designation);
    Ok(Source { id, ra: ra_v, dec: dec_v, rho: rho_v, g_abs: g_v })
}

/// Every row before `row` holds a parallax that `distance` turned into a value.
pub open spec fn accepted_before<T, F: Fn(T) -> Option<T>>(
    parallax: Seq<Option<T>>,
    distance: F,
    row: int,
) -> bool {
    forall|k: int|
        0 <= k < row ==> (#[trigger] parallax[k]) is Some && exists|d: T|
            distance.ensures((parallax[k]->0,), Some(d))
}

/// Fills the distance column from the parallax column, row by row, with
/// `distance` (which answers `None` for a parallax it refuses). The first row
/// whose cell is empty gives `MissingValue`, the first whose parallax is
/// refused gives `InvalidParallax`; no row is skipped and none is reordered.
pub fn calc_rho<T: Copy, F: Fn(T) -> Option<T>>(parallax: &Vec<Option<T>>, distance: F) -> (r:
    Result<Vec<T>, CalcError>)
    requires
        forall|p: T| #[trigger] distance.requires((p,)),
    ensures
        r matches Ok(v) ==> {
            &&& complete(parallax@)
            &&& v@.len() == parallax@.len()
            &&& forall|i: int|
                0 <= i < parallax@.len() ==> distance.ensures((parallax@[i]->0,), Some(#[trigger] v@[i]))
        },
        r matches Err(e) ==> match e {
            CalcError::MissingValue { row } => row < parallax@.len() && parallax@[row as int] is None
                && accepted_before(parallax@, distance, row as int),
            CalcError::InvalidParallax { row } => row < parallax@.len() && parallax@[row as int] is Some
                && distance.ensures((parallax@[row as int]->0,), None) && accepted_before(
                parallax@,
                distance,
                row as int,
            ),
            _ => false,
        },
{
    let mut out: Vec<T> = Vec::new();
    let mut i: usize = 0;
    while i < parallax.len()
        invariant
            forall|p: T| #[trigger] distance.requires((p,)),
            i <= parallax@.len(),
            out@.len() == i,
            forall|k: int| 0 <= k < i ==> (#[trigger] parallax@[k]) is Some,
            forall|k: int|
                0 <= k < i ==> distance.ensures((parallax@[k]->0,), Some(#[trigger] out@[k])),
        decreases parallax@.len() - i,
    {
        assert forall|k: int| 0 <= k < i implies (#[trigger] parallax@[k]) is Some && exists|d: T|
            distance.ensures((parallax@[k]->0,), Some(d)) by {
            assert(distance.ensures((parallax@[k]->0,), Some(out@[k])));
        }
        match parallax[i] {
            Some(p) => match distance(p) {
                Some(d) => out.push(d),
                None => {
                    return Err(CalcError::InvalidParallax { row: i });
                },
            },
            None => {
                return Err(CalcError::MissingValue { row: i });
            },
        }
        i = i + 1;
    }
    Ok(out)
}

} // verus!
