use vstd::prelude::*;
use crate::error::CalcError;

verus! {

/// Every cell of the column holds a value.
pub open spec fn complete<T>(column: Seq<Option<T>>) -> bool {
    forall|i: int| 0 <= i < column.len() ==> (#[trigger] column[i]) is Some
}

/// `row` is the first cell of the column that holds no value.
pub open spec fn first_missing<T>(column: Seq<Option<T>>, row: int) -> bool {
    &&& 0 <= row < column.len()
    &&& column[row] is None
    &&& forall|k: int| 0 <= k < row ==> (#[trigger] column[k]) is Some
}

/// The values of a complete column, in row order.
pub open spec fn unwrapped<T>(column: Seq<Option<T>>) -> Seq<T> {
    Seq::new(column.len(), |i: int| column[i]->0)
}

/// Reads a required column, in row order. A missing cell is an error that
/// names the first row lacking a value; no row is ever skipped.
pub fn require_complete<T: Copy>(column: &Vec<Option<T>>) -> (r: Result<Vec<T>, CalcError>)
    ensures
        r is Ok <==> complete(column@),
        r matches Ok(v) ==> v@ == unwrapped(column@),
        r matches Err(e) ==> e matches CalcError::MissingValue { row } && first_missing(
            column@,
            row as int,
        ),
{
    let mut out: Vec<T> = Vec::new();
    let mut i: usize = 0;
    while i < column.len()
        invariant
            i <= column@.len(),
            out@.len() == i,
            forall|k: int| 0 <= k < i ==> (#[trigger] column@[k]) is Some,
            forall|k: int| 0 <= k < i ==> #[trigger] out@[k] == column@[k]->0,
        decreases column@.len() - i,
    {
        match column[i] {
            Some(x) => out.push(x),
            None => {
                return Err(CalcError::MissingValue { row: i });
            },
        }
        i = i + 1;
    }
    assert(out@ =~= unwrapped(column@));
    Ok(out)
}

} // verus!
