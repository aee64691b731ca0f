//! Text of diagnostic records.

use crate::text::{join, single_spaced, split_whitespace};
use vstd::prelude::*;

verus! {

/// The message on one line: its words with one space between neighbours.
pub fn single_line(value: &str) -> (line: String)
    ensures
        line@ == single_spaced(value@),
{
    proof {
        reveal_strlit(" ");
        assert(" "@ =~= seq![' ']);
    }
    let parts = split_whitespace(value);
    join(&parts, " ")
}

} // verus!
