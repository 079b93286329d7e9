use vstd::prelude::*;

verus! {

/// Index of the first `"` in `s` at or after `from`, or `s.len()` when none follows.
pub open spec fn next_quote(s: Seq<char>, from: int) -> int
    decreases s.len() - from,
{
    if from >= s.len() {
        s.len() as int
    } else if s[from] == '"' {
        from
    } else {
        next_quote(s, from + 1)
    }
}

/// A designation as the catalog means it: the text between the first quote and
/// the next one (or the end), or the whole cell when it holds no quote at all.
pub open spec fn unquoted(s: Seq<char>) -> Seq<char> {
    let open = next_quote(s, 0);
    if open >= s.len() {
        s
    } else {
        s.subrange(open + 1, next_quote(s, open + 1))
    }
}

/// Position of the first quote at or after `from`, or the length of `s`.
fn find_quote(s: &Vec<char>, from: usize) -> (r: usize)
    requires
        from <= s@.len(),
    ensures
        r == next_quote(s@, from as int),
        from <= r <= s@.len(),
{
    let mut i: usize = from;
    while i < s.len()
        invariant
            from <= i <= s@.len(),
            next_quote(s@, i as int) == next_quote(s@, from as int),
        decreases s@.len() - i,
    {
        if s[i] == '"' {
            return i;
        }
        i = i + 1;
    }
    i
}

/// Takes the quoting that delimited text leaves around an identifier off one cell.
pub fn strip_quotes(cell: &Vec<char>) -> (r: Vec<char>)
    ensures
        r@ == unquoted(cell@),
{
    let open = find_quote(cell, 0);
    if open >= cell.len() {
        return cell.clone();
    }
    let close = find_quote(cell, open + 1);
    let mut out: Vec<char> = Vec::new();
    let mut j: usize = open + 1;
    while j < close
        invariant
            open + 1 <= j <= close <= cell@.len(),
            out@ == cell@.subrange(open + 1, j as int),
        decreases close - j,
    {
        out.push(cell[j]);
        j = j + 1;
    }
    out
}

/// The designation of every row, in row order, with its quoting taken off.
pub fn vectorise_designations(cells: &Vec<Vec<char>>) -> (r: Vec<Vec<char>>)
    ensures
        r@.len() == cells@.len(),
        forall|i: int| 0 <= i < cells@.len() ==> #[trigger] r@[i]@ == unquoted(cells@[i]@),
{
    let mut out: Vec<Vec<char>> = Vec::new();
    let mut i: usize = 0;
    while i < cells.len()
        invariant
            i <= cells@.len(),
            out@.len() == i,
            forall|k: int| 0 <= k < i ==> #[trigger] out@[k]@ == unquoted(cells@[k]@),
        decreases cells@.len() - i,
    {
        out.push(strip_quotes(&cells[i]));
        i = i + 1;
    }
    out
}

} // verus!
