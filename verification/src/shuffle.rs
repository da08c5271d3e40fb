//! hfst-shuffle: shuffle the transducers of two streams pairwise. What the
//! tool says of each pair, and the name it gives the result, stand here.

use vstd::prelude::*;
use crate::text::{concat2, concat3};

verus! {

/// What hfst-shuffle does to each pair of transducers.
pub struct ShuffleOp;

impl ShuffleOp {
    /// The verbose line announcing one pair.
    pub fn verbose_begin(&self, firstname: &str, secondname: &str) -> (s: String)
        ensures
            s@ == "Shuffling "@ + firstname@ + " and "@ + secondname@,
    {
        concat3(concat2("Shuffling ", firstname).as_str(), " and ", secondname)
    }

    /// The operation's name in the result's name.
    pub fn name_op(&self) -> (s: &'static str)
        ensures
            s@ == "shuffle"@,
    {
        "shuffle"
    }

    /// The operation's symbol in the result's formula.
    pub fn formula(&self) -> (s: &'static str)
        ensures
            s@ == "shuffle"@,
    {
        "shuffle"
    }
}

} // verus!
