//! hfst-push-weights: push the weights of each transducer of a stream
//! towards its start or its end, as `-p` chooses.

use vstd::prelude::*;
use crate::common::{CommonOptions, Report, SpecReport, fail_with, spec_fail_report};
use crate::text::{concat2, concat3, first_char_eq_ignore_case, spec_first_char_eq_ignore_case};

verus! {

/// Whether a direction names the start: its first character is that of
/// start, initial or begin, in either case.
pub open spec fn names_start(a: Seq<char>) -> bool {
    spec_first_char_eq_ignore_case(a, "start"@) || spec_first_char_eq_ignore_case(a, "initial"@)
        || spec_first_char_eq_ignore_case(a, "begin"@)
}

/// Whether a direction names the end: its first character is that of end
/// or final, in either case.
pub open spec fn names_end(a: Seq<char>) -> bool {
    spec_first_char_eq_ignore_case(a, "end"@) || spec_first_char_eq_ignore_case(a, "final"@)
}

/// The refusal of a direction that names neither end.
pub open spec fn spec_unknown_direction(a: Seq<char>) -> Seq<char> {
    "unknown push direction "@ + a + "\nshould be one of start, initial, begin, end or final.\n"@
}

/// The direction `-p DIRECTION` chooses: towards the end without `-p`; an
/// unknown direction ends the tool.
pub open spec fn spec_push_initial(program_name: Seq<char>, direction: Option<Seq<char>>) -> Result<bool, SpecReport> {
    match direction {
        None => Ok(false),
        Some(a) => if names_start(a) {
            Ok(true)
        } else if names_end(a) {
            Ok(false)
        } else {
            Err(spec_fail_report(program_name, spec_unknown_direction(a)))
        },
    }
}

/// The direction `-p DIRECTION` chooses.
pub fn push_initial(common: &CommonOptions, direction: &Option<String>) -> (r: Result<bool, Report>)
    ensures
        match (r, spec_push_initial(common.program_name@, crate::getopt::opt_view(*direction))) {
            (Ok(x), Ok(y)) => x == y,
            (Err(x), Err(y)) => x@ == y,
            _ => false,
        },
{
    match direction {
        None => Ok(false),
        Some(a) => {
            let s = a.as_str();
            if first_char_eq_ignore_case(s, "start") || first_char_eq_ignore_case(s, "initial")
                || first_char_eq_ignore_case(s, "begin") {
                Ok(true)
            } else if first_char_eq_ignore_case(s, "end") || first_char_eq_ignore_case(s, "final") {
                Ok(false)
            } else {
                let t = concat3("unknown push direction ", s, "\nshould be one of start, initial, begin, end or final.\n");
                Err(fail_with(common, t.as_str()))
            }
        },
    }
}

/// What hfst-push-weights does to each transducer: push its weights towards
/// the start when `push_initial`, else towards the end.
pub struct PushWeightsOp {
    pub push_initial: bool,
}

impl PushWeightsOp {
    /// The verbose line announcing one transducer.
    pub fn verbose_begin(&self, inputname: &str) -> (s: String)
        ensures
            s@ == (if self.push_initial { "Pushing towards start "@ } else { "Pushing towards end "@ }) + inputname@,
    {
        if self.push_initial {
            concat2("Pushing towards start ", inputname)
        } else {
            concat2("Pushing towards end ", inputname)
        }
    }

    /// What follows the verbose line.
    pub fn verbose_sep(&self) -> (s: &'static str)
        ensures
            s@ == " "@,
    {
        " "
    }

    /// The operation's name in the result's name.
    pub fn name_op(&self) -> (s: &'static str)
        ensures
            s@ == (if self.push_initial { "push-weights-i"@ } else { "push-weights-f"@ }),
    {
        if self.push_initial {
            "push-weights-i"
        } else {
            "push-weights-f"
        }
    }

    /// The operation's symbol in the result's formula.
    pub fn formula(&self) -> (s: &'static str)
        ensures
            s@ == "Id"@,
    {
        "Id"
    }
}

} // verus!
