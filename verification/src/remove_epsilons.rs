//! hfst-remove-epsilons: remove the epsilon arcs of each transducer of a stream; the texts that name the operation.

use vstd::prelude::*;
use crate::text::concat2;

verus! {

/// What hfst-remove-epsilons does to each transducer.
pub struct RemoveEpsilonsOp;

impl RemoveEpsilonsOp {
    /// The verbose line announcing one transducer.
    pub fn verbose_begin(&self, inputname: &str) -> (s: String)
        ensures
            s@ == "Removing epsilons "@ + inputname@,
    {
        concat2("Removing epsilons ", inputname)
    }

    /// The operation's name in the result's name.
    pub fn name_op(&self) -> (s: &'static str)
        ensures
            s@ == "remove-epsilons"@,
    {
        "remove-epsilons"
    }

    /// The operation's symbol in the result's formula.
    pub fn formula(&self) -> (s: &'static str)
        ensures
            s@ == "Id"@,
    {
        "Id"
    }
}

} // verus!
