//! hfst-insert-freely: let a symbol pair occur anywhere in the first
//! transducer of a stream. The label `-a` gives, the refusals and the name
//! of the result stand here; splitting the label into a pair is the
//! backend's.

use vstd::prelude::*;
use crate::common::{CommonOptions, Report, SpecReport, fail_with, spec_fail_report};
use crate::substitute::{empty_source, spec_label};
use crate::text::{concat2, concat3, str_eq};

verus! {

/// The label `-a` gives, `@0@` standing for the epsilon symbol; none
/// without `-a`. An empty label is refused.
pub open spec fn spec_label_text(program_name: Seq<char>, symbol_pair: Option<Seq<char>>) -> Result<
    Option<Seq<char>>,
    SpecReport,
> {
    match symbol_pair {
        None => Ok(None),
        Some(a) => if spec_label(a).len() == 0 {
            Err(spec_fail_report(program_name, empty_source()))
        } else {
            Ok(Some(spec_label(a)))
        },
    }
}

/// The label `-a` gives.
pub fn label_text(c: &CommonOptions, symbol_pair: &Option<String>) -> (r: Result<Option<String>, Report>)
    ensures
        match (r, spec_label_text(c.program_name@, crate::getopt::opt_view(*symbol_pair))) {
            (Ok(x), Ok(y)) => crate::getopt::opt_view(x) == y,
            (Err(x), Err(y)) => x@ == y,
            _ => false,
        },
{
    match symbol_pair {
        None => Ok(None),
        Some(a) => {
            let l = if str_eq(a.as_str(), "@0@") { "@_EPSILON_SYMBOL_@".to_owned() } else { a.clone() };
            if l.as_str().unicode_len() == 0 {
                let text = concat2(
                    "argument of source label option is empty;\nif you REALLY want to replace epsilons with something, use @0@ or ",
                    "@_EPSILON_SYMBOL_@",
                );
                Err(fail_with(c, text.as_str()))
            } else {
                Ok(Some(l))
            }
        },
    }
}

/// The refusal when no symbol pair came of `-a`: none was given, or its
/// argument (as given) holds no pair.
pub open spec fn spec_no_pair(program_name: Seq<char>, symbol_pair: Option<Seq<char>>) -> SpecReport {
    spec_fail_report(
        program_name,
        match symbol_pair {
            None => "no symbol pair given; use -a SYM:SYM"@,
            Some(l) => "symbol pair '"@ + l + "' has no colon; give it as SYM:SYM"@,
        },
    )
}

/// The refusal when no symbol pair came of `-a`.
pub fn no_pair(c: &CommonOptions, symbol_pair: &Option<String>) -> (r: Report)
    ensures
        r@ == spec_no_pair(c.program_name@, crate::getopt::opt_view(*symbol_pair)),
{
    match symbol_pair {
        None => fail_with(c, "no symbol pair given; use -a SYM:SYM"),
        Some(l) => {
            let text = concat3("symbol pair '", l.as_str(), "' has no colon; give it as SYM:SYM");
            fail_with(c, text.as_str())
        },
    }
}

/// Whether flags are harmonised: `-H`, or `--harmonise` with any argument.
pub fn harmonise_flags(short: bool, long: &Option<String>) -> (r: bool)
    ensures
        r == (short || long is Some),
{
    short || long.is_some()
}

/// Whether the `n`th transducer (from 1) gets the pair inserted: only the
/// first does; the others are written as they are.
pub fn inserts_into(n: u64) -> (r: bool)
    ensures
        r == (n == 1),
{
    n == 1
}

/// The operation name and formula the result is given.
pub fn result_label() -> (l: (&'static str, &'static str))
    ensures
        l.0@ == "insert-freely"@,
        l.1@ == "Id"@,
{
    ("insert-freely", "Id")
}

} // verus!
