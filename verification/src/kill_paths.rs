//! hfst-kill-paths: remove the paths of each transducer of a stream that
//! use given symbols. The checks on the options, the symbols a rule file
//! lists and what the tool says stand here; the file is read, and the
//! paths killed, by the caller.

use vstd::prelude::*;
use crate::common::{CommonOptions, Report, SpecReport, fail_with, spec_fail_report};
use crate::text::{chars_of, concat2, concat3, decimal, find_char, find_char_from, spec_decimal, string_of_range};

verus! {

/// The refusal when neither `-S` nor `-T` is given.
pub open spec fn spec_neither(program_name: Seq<char>) -> SpecReport {
    spec_fail_report(program_name, "Either --symbol or --tsv-file is required"@)
}

/// The check on the options: `-S` or `-T` must be given.
pub fn check_options(c: &CommonOptions, symbol: &Option<String>, tsv: &Option<String>) -> (r: Option<Report>)
    ensures
        r is None <==> (symbol is Some || tsv is Some),
        r matches Some(x) ==> x@ == spec_neither(c.program_name@),
{
    if symbol.is_none() && tsv.is_none() {
        Some(fail_with(c, "Either --symbol or --tsv-file is required"))
    } else {
        None
    }
}

/// The refusal when the rule file does not open.
pub fn could_not_open(c: &CommonOptions, name: &str) -> (r: Report)
    ensures
        r@ == spec_fail_report(c.program_name@, "Could not open '"@ + name@ + "'"@),
{
    let text = concat3("Could not open '", name, "'");
    fail_with(c, text.as_str())
}

/// The verbose lines before the stream is read, after the one naming the
/// files: the announcement, and the symbol of `-S` when given.
pub open spec fn spec_plan_lines(symbol: Option<Seq<char>>) -> Seq<char> {
    "Killing paths\n"@ + match symbol {
        Some(s) => "only if arc has symbol "@ + s + "\n"@,
        None => Seq::empty(),
    }
}

/// The verbose lines before the stream is read.
pub fn plan_lines(symbol: &Option<String>) -> (s: String)
    ensures
        s@ == spec_plan_lines(crate::getopt::opt_view(*symbol)),
{
    match symbol {
        Some(sym) => concat3("Killing paths\n", "only if arc has symbol ", concat2(sym.as_str(), "\n").as_str()),
        None => "Killing paths\n".to_owned(),
    }
}

/// The verbose line announcing the `n`th transducer (from 1), named `name`.
pub open spec fn spec_killing(name: Seq<char>, n: int) -> Seq<char> {
    "Path killing "@ + name + "..."@ + (if n == 1 { Seq::empty() } else { spec_decimal(n as nat) }) + "\n"@
}

/// The verbose line announcing the `n`th transducer.
pub fn killing(name: &str, n: u64) -> (s: String)
    ensures
        s@ == spec_killing(name@, n as int),
{
    let mut s = concat3("Path killing ", name, "...");
    if n != 1 {
        s.append(decimal(n as u128).as_str());
    }
    s.append("\n");
    s
}

/// The verbose line before the rule file is read.
pub fn reading_rules(file: &str) -> (s: String)
    ensures
        s@ == "Reading reweights from "@ + file@ + "\n"@,
{
    concat3("Reading reweights from ", file, "\n")
}

/// The symbol a line (with its newline, if any) of the rule file names:
/// none for an empty line or one starting with `#`; otherwise what precedes
/// the newline.
pub open spec fn spec_rule_symbol(line: Seq<char>) -> Option<Seq<char>> {
    if line.len() > 0 && (line[0] == '\n' || line[0] == '#') {
        None
    } else {
        match find_char(line, '\n', 0) {
            Some(e) => Some(line.subrange(0, e)),
            None => Some(line),
        }
    }
}

/// The symbol a line of the rule file names.
pub fn rule_symbol(line: &str) -> (r: Option<String>)
    ensures
        crate::getopt::opt_view(r) == spec_rule_symbol(line@),
{
    let v = chars_of(line);
    if v.len() > 0 && (v[0] == '\n' || v[0] == '#') {
        return None;
    }
    match find_char_from(&v, '\n', 0) {
        Some(e) => Some(string_of_range(&v, 0, e)),
        None => {
            assert(v@.subrange(0, v@.len() as int) =~= v@);
            Some(string_of_range(&v, 0, v.len()))
        },
    }
}

/// The verbose line before the paths with a symbol are killed.
pub fn killing_symbol(sym: &str) -> (s: String)
    ensures
        s@ == "Killing patsh with symbol "@ + sym@ + "\n"@,
{
    concat3("Killing patsh with symbol ", sym, "\n")
}

/// The operation name and formula the result is given.
pub fn result_label() -> (l: (&'static str, &'static str))
    ensures
        l.0@ == "pathkill"@,
        l.1@ == "PK"@,
{
    ("pathkill", "PK")
}

} // verus!
