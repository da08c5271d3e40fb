//! hfst-eliminate-flags: eliminate the flag diacritics of each transducer
//! of a stream, all of them or those of one feature (`-F`); the texts that
//! name the operation.

use vstd::prelude::*;
use crate::common::{CommonOptions, Report, SpecReport, fail_with, spec_fail_report};
use crate::text::{concat2, concat3};

verus! {

/// What hfst-eliminate-flags does to each transducer: eliminate the flags of
/// the feature `flag`, or all flags without one; `flags` names them in the
/// verbose lines.
pub struct EliminateFlagsOp {
    pub flag: Option<String>,
    pub flags: String,
}

/// How the verbose lines name what is eliminated: `flags`, or `flag FLAG`.
pub open spec fn spec_flags(flag: Option<Seq<char>>) -> Seq<char> {
    match flag {
        None => "flags"@,
        Some(f) => "flag "@ + f,
    }
}

impl EliminateFlagsOp {
    /// The operation for `-F FLAG`, or for all flags.
    pub fn new(flag: Option<String>) -> (op: Self)
        ensures
            crate::getopt::opt_view(op.flag) == crate::getopt::opt_view(flag),
            op.flags@ == spec_flags(crate::getopt::opt_view(flag)),
    {
        let flags = match &flag {
            None => "flags".to_owned(),
            Some(f) => concat2("flag ", f.as_str()),
        };
        EliminateFlagsOp { flag, flags }
    }

    /// The verbose line announcing one transducer.
    pub fn verbose_begin(&self, inputname: &str) -> (s: String)
        ensures
            s@ == "Eliminating "@ + self.flags@ + " "@ + inputname@,
    {
        let mut s = concat3("Eliminating ", self.flags.as_str(), " ");
        s.append(inputname);
        s
    }

    /// The operation's name in the result's name.
    pub fn name_op(&self) -> (s: &'static str)
        ensures
            s@ == "eliminate-flags"@,
    {
        "eliminate-flags"
    }

    /// The operation's symbol in the result's formula.
    pub fn formula(&self) -> (s: &'static str)
        ensures
            s@ == "Id"@,
    {
        "Id"
    }
}

/// The failure when the feature does not occur in a transducer.
pub open spec fn spec_missing_feature(program_name: Seq<char>, f: Seq<char>) -> SpecReport {
    spec_fail_report(
        program_name,
        "flag feature "@ + f + " does not occur in the transducer\nonly the flag feature must be given, no value or operator"@,
    )
}

/// The failure when the feature does not occur in a transducer.
pub fn missing_feature(common: &CommonOptions, f: &str) -> (r: Report)
    ensures
        r@ == spec_missing_feature(common.program_name@, f@),
{
    let t = concat3(
        "flag feature ",
        f,
        " does not occur in the transducer\nonly the flag feature must be given, no value or operator",
    );
    fail_with(common, t.as_str())
}

} // verus!
