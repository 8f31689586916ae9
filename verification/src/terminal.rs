//! The size of the terminal that the listing is written to.

use vstd::prelude::*;

verus! {

/// Asks `term_size::dimensions` for the columns and rows of the terminal
/// behind the standard streams; `None` when none of them is a terminal
/// with a size. The answer depends on the process's surroundings, so
/// nothing is said of it.
#[verifier::external_body]
pub(crate) fn terminal_dimensions() -> (r: Option<(usize, usize)>) {
    term_size::dimensions()
}

} // verus!
