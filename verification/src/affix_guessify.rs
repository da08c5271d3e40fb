//! hfst-affix-guessify: make weighted affix guessers of the transducers of
//! a stream. The direction of guessing and what the tool says stand here;
//! the weight, a floating-point number, is read by the caller.

use vstd::prelude::*;
use crate::common::{CommonOptions, Report, SpecReport, fail_with, spec_fail_report};
use crate::text::{concat3, decimal, spec_decimal, spec_has_prefix, starts_with};

verus! {

/// The direction affixes are guessed in.
#[derive(Clone, Copy, PartialEq, Eq, Structural, Debug)]
pub enum GuessDirection {
    GuessPrefix,
    GuessSuffix,
}

/// The refusal of a `-D` argument that names no direction.
pub open spec fn spec_bad_direction(dir: Seq<char>) -> Seq<char> {
    "Unable to parse guessing direction from "@ + dir + ";\nplease use one of 'prefix' or 'suffix'"@
}

/// The direction `-D` gives: any argument starting with `prefix` or
/// `suffix`; suffixes without `-D`.
pub open spec fn spec_direction(program_name: Seq<char>, dir: Option<Seq<char>>) -> Result<GuessDirection, SpecReport> {
    match dir {
        None => Ok(GuessDirection::GuessSuffix),
        Some(d) => if spec_has_prefix(d, "prefix"@) {
            Ok(GuessDirection::GuessPrefix)
        } else if spec_has_prefix(d, "suffix"@) {
            Ok(GuessDirection::GuessSuffix)
        } else {
            Err(spec_fail_report(program_name, spec_bad_direction(d)))
        },
    }
}

/// The direction `-D` gives.
pub fn direction(c: &CommonOptions, dir: &Option<String>) -> (r: Result<GuessDirection, Report>)
    ensures
        match (r, spec_direction(c.program_name@, crate::getopt::opt_view(*dir))) {
            (Ok(x), Ok(y)) => x == y,
            (Err(x), Err(y)) => x@ == y,
            _ => false,
        },
{
    match dir {
        None => Ok(GuessDirection::GuessSuffix),
        Some(d) => {
            if starts_with(d.as_str(), "prefix") {
                Ok(GuessDirection::GuessPrefix)
            } else if starts_with(d.as_str(), "suffix") {
                Ok(GuessDirection::GuessSuffix)
            } else {
                let text = concat3(
                    "Unable to parse guessing direction from ",
                    d.as_str(),
                    ";\nplease use one of 'prefix' or 'suffix'",
                );
                Err(fail_with(c, text.as_str()))
            }
        },
    }
}

/// The verbose line announcing the `n`th transducer (from 1), named `name`.
pub open spec fn spec_guessifying(name: Seq<char>, n: int) -> Seq<char> {
    "Guessifying "@ + name + "..."@ + (if n < 2 { Seq::empty() } else { " "@ + spec_decimal(n as nat) }) + "\n"@
}

/// The verbose line announcing the `n`th transducer.
pub fn guessifying(name: &str, n: u64) -> (s: String)
    ensures
        s@ == spec_guessifying(name@, n as int),
{
    let mut s = concat3("Guessifying ", name, "...");
    if n >= 2 {
        s.append(" ");
        s.append(decimal(n as u128).as_str());
    }
    s.append("\n");
    s
}

} // verus!
