//! hfst-minimize: minimize each transducer of a stream; the texts that name the operation.

use vstd::prelude::*;
use crate::text::concat2;

verus! {

/// What hfst-minimize does to each transducer.
pub struct MinimizeOp {
    /// Whether weights are encoded when minimizing (`-E`).
    pub encode_weights: bool,
}

impl MinimizeOp {
    /// The verbose line announcing one transducer.
    pub fn verbose_begin(&self, inputname: &str) -> (s: String)
        ensures
            s@ == "Minimizing "@ + inputname@,
    {
        concat2("Minimizing ", inputname)
    }

    /// The operation's name in the result's name.
    pub fn name_op(&self) -> (s: &'static str)
        ensures
            s@ == "minimize"@,
    {
        "minimize"
    }

    /// The operation's symbol in the result's formula.
    pub fn formula(&self) -> (s: &'static str)
        ensures
            s@ == "M"@,
    {
        "M"
    }
}

} // verus!
