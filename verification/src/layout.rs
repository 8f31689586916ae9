//! How many cells of a grid fit in a row of the terminal.

use vstd::prelude::*;
use vstd::std_specs::cmp::PartialOrdIs;
use vstd::std_specs::cmp::PartialOrdSpec;

verus! {

/// The larger of two values; the second one when neither is greater.
pub fn max<T: Ord>(v1: T, v2: T) -> (r: T)
    ensures
        T::obeys_partial_cmp_spec() ==> r == (if v1.is_gt(&v2) { v1 } else { v2 }),
{
    if v1 > v2 {
        v1
    } else {
        v2
    }
}

/// Number of entries per row for a terminal of `col_width` columns when the
/// widest cell takes `longest_char` columns.
pub open spec fn spec_column_width(col_width: nat, longest_char: nat) -> nat {
    if col_width == 0 {
        1
    } else if longest_char > col_width / 2 {
        1
    } else {
        col_width / longest_char
    }
}

/// Calculate the number of entries to show per line.
pub fn calculate_column_width(col_width: usize, longest_char: usize) -> (r: usize)
    requires
        col_width > 0 ==> longest_char > 0,
    ensures
        r == spec_column_width(col_width as nat, longest_char as nat),
        r >= 1,
{
    if col_width == 0 {
        return 1;
    }
    if longest_char > (col_width / 2) {
        return 1;
    }
    let values_per_column: usize = col_width / longest_char;
    assert(values_per_column >= 1) by (nonlinear_arith)
        requires
            0 < longest_char <= col_width / 2,
            values_per_column == col_width / longest_char,
    ;
    values_per_column
}

} // verus!
