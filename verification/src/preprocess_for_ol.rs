//! hfst-preprocess-for-optimized-lookup-format: prepare the transducers of
//! a stream for the optimized-lookup format. What the tool says of each
//! transducer, and the name it gives the result, stand here.

use vstd::prelude::*;
use crate::text::{concat3, decimal, spec_decimal};

verus! {

/// The verbose line before the epsilons of the `n`th transducer (from 1),
/// named `name`, are removed.
pub open spec fn spec_removing(name: Seq<char>, n: int) -> Seq<char> {
    "Removing epsilons "@ + name + "..."@ + (if n == 1 { Seq::empty() } else { spec_decimal(n as nat) }) + "\n"@
}

/// The verbose line before the epsilons of the `n`th transducer are
/// removed.
pub fn removing(name: &str, n: u64) -> (s: String)
    ensures
        s@ == spec_removing(name@, n as int),
{
    let mut s = concat3("Removing epsilons ", name, "...");
    if n != 1 {
        s.append(decimal(n as u128).as_str());
    }
    s.append("\n");
    s
}

/// The verbose line before the `n`th transducer is rebuilt (the line for
/// the first transducer is worded otherwise than for the later ones).
pub open spec fn spec_rebuilding(name: Seq<char>, n: int) -> Seq<char> {
    if n == 1 {
        "Rebuilding and fixing "@ + name + "...\n"@
    } else {
        "Rebuilding and fisting "@ + name + "..."@ + spec_decimal(n as nat) + "\n"@
    }
}

/// The verbose line before the `n`th transducer is rebuilt.
pub fn rebuilding(name: &str, n: u64) -> (s: String)
    ensures
        s@ == spec_rebuilding(name@, n as int),
{
    if n == 1 {
        concat3("Rebuilding and fixing ", name, "...\n")
    } else {
        let mut s = concat3("Rebuilding and fisting ", name, "...");
        s.append(decimal(n as u128).as_str());
        s.append("\n");
        s
    }
}

/// The operation name and formula the result is given.
pub fn result_label() -> (l: (&'static str, &'static str))
    ensures
        l.0@ == "fu"@,
        l.1@ == "FU"@,
{
    ("fu", "FU")
}

} // verus!
