//! hfst-determinize: determinize each transducer of a stream; the texts that name the operation.

use vstd::prelude::*;
use crate::text::concat2;

verus! {

/// What hfst-determinize does to each transducer.
pub struct DeterminizeOp {
    /// Whether weights are encoded when determinizing (`-E`).
    pub encode_weights: bool,
}

impl DeterminizeOp {
    /// The verbose line announcing one transducer.
    pub fn verbose_begin(&self, inputname: &str) -> (s: String)
        ensures
            s@ == "Determinizing "@ + inputname@,
    {
        concat2("Determinizing ", inputname)
    }

    /// The operation's name in the result's name.
    pub fn name_op(&self) -> (s: &'static str)
        ensures
            s@ == "determinize"@,
    {
        "determinize"
    }

    /// The operation's symbol in the result's formula.
    pub fn formula(&self) -> (s: &'static str)
        ensures
            s@ == "\u{2336}"@,
    {
        "\u{2336}"
    }
}

} // verus!
