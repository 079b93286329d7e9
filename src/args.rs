use vstd::prelude::*;

verus! {

/// What a run is asked to do: the catalog file to read.
pub struct CalcArgs {
    /// Path of the input table.
    pub filename: String,
}

impl CalcArgs {
    /// Arguments naming `filename` as the input table.
    pub fn new(filename: String) -> (r: CalcArgs)
        ensures
            r.filename@ == filename@,
    {
        CalcArgs { filename }
    }
}

} // verus!
