//! hfst-priority-disjunct: the priority union of the transducers of two
//! streams, pairwise. What the tool says of each pair, and the name it
//! gives the result, stand here.

use vstd::prelude::*;
use crate::text::{concat2, concat3};

verus! {

/// What hfst-priority-disjunct does to each pair of transducers.
pub struct PriorityDisjunctOp;

impl PriorityDisjunctOp {
    /// The verbose line announcing one pair.
    pub fn verbose_begin(&self, firstname: &str, secondname: &str) -> (s: String)
        ensures
            s@ == "Disjuncting "@ + firstname@ + " and "@ + secondname@,
    {
        concat3(concat2("Disjuncting ", firstname).as_str(), " and ", secondname)
    }

    /// The operation's name in the result's name.
    pub fn name_op(&self) -> (s: &'static str)
        ensures
            s@ == "union"@,
    {
        "union"
    }

    /// The operation's symbol in the result's formula.
    pub fn formula(&self) -> (s: &'static str)
        ensures
            s@ == "\u{222a}"@,
    {
        "\u{222a}"
    }
}

} // verus!
