//! hfst-reweight: change the weights of arcs and end states. The weights
//! themselves are floating-point numbers and are computed by the caller;
//! which function is applied, which arcs and end states it applies to, how
//! a reweighting table is read, and what the tool says about it are decided
//! here.

use vstd::prelude::*;
use crate::common::{
    Channel, CommonOptions, Message, Report, SpecReport, messages_view, spec_fail_report, fail_with,
    to_stderr,
};
use crate::text::{chars_of, concat3, find_char, find_char_from, str_eq, string_of_range};

verus! {

/// The functions `-F` can name; `Id` when none is named.
#[derive(Clone, Copy, PartialEq, Eq, Structural)]
pub enum MathFunction {
    Id,
    Cos,
    Sin,
    Tan,
    Acos,
    Asin,
    Atan,
    Cosh,
    Sinh,
    Tanh,
    Exp,
    Log,
    Log10,
    Sqrt,
    Floor,
    Ceil,
}

/// The function a `-F` name names; `log` is the natural logarithm.
pub open spec fn spec_function(name: Seq<char>) -> Option<MathFunction> {
    if name == "cos"@ {
        Some(MathFunction::Cos)
    } else if name == "sin"@ {
        Some(MathFunction::Sin)
    } else if name == "tan"@ {
        Some(MathFunction::Tan)
    } else if name == "acos"@ {
        Some(MathFunction::Acos)
    } else if name == "asin"@ {
        Some(MathFunction::Asin)
    } else if name == "atan"@ {
        Some(MathFunction::Atan)
    } else if name == "cosh"@ {
        Some(MathFunction::Cosh)
    } else if name == "sinh"@ {
        Some(MathFunction::Sinh)
    } else if name == "tanh"@ {
        Some(MathFunction::Tanh)
    } else if name == "exp"@ {
        Some(MathFunction::Exp)
    } else if name == "log"@ {
        Some(MathFunction::Log)
    } else if name == "log10"@ {
        Some(MathFunction::Log10)
    } else if name == "sqrt"@ {
        Some(MathFunction::Sqrt)
    } else if name == "floor"@ {
        Some(MathFunction::Floor)
    } else if name == "ceil"@ {
        Some(MathFunction::Ceil)
    } else {
        None
    }
}

/// The function a `-F` name names.
pub fn function(name: &str) -> (r: Option<MathFunction>)
    ensures
        r == spec_function(name@),
{
    if str_eq(name, "cos") {
        Some(MathFunction::Cos)
    } else if str_eq(name, "sin") {
        Some(MathFunction::Sin)
    } else if str_eq(name, "tan") {
        Some(MathFunction::Tan)
    } else if str_eq(name, "acos") {
        Some(MathFunction::Acos)
    } else if str_eq(name, "asin") {
        Some(MathFunction::Asin)
    } else if str_eq(name, "atan") {
        Some(MathFunction::Atan)
    } else if str_eq(name, "cosh") {
        Some(MathFunction::Cosh)
    } else if str_eq(name, "sinh") {
        Some(MathFunction::Sinh)
    } else if str_eq(name, "tanh") {
        Some(MathFunction::Tanh)
    } else if str_eq(name, "exp") {
        Some(MathFunction::Exp)
    } else if str_eq(name, "log") {
        Some(MathFunction::Log)
    } else if str_eq(name, "log10") {
        Some(MathFunction::Log10)
    } else if str_eq(name, "sqrt") {
        Some(MathFunction::Sqrt)
    } else if str_eq(name, "floor") {
        Some(MathFunction::Floor)
    } else if str_eq(name, "ceil") {
        Some(MathFunction::Ceil)
    } else {
        None
    }
}

// ---------------------------------------------------------------------------
// Which weights change
// ---------------------------------------------------------------------------

/// The symbol conditions on the arcs whose weights change.
pub struct Matcher {
    pub input_symbol: Option<String>,
    pub output_symbol: Option<String>,
    pub symbol: Option<String>,
    pub ends_only: bool,
    pub arcs_only: bool,
}

/// The model of a [`Matcher`].
pub struct SpecMatcher {
    pub input_symbol: Option<Seq<char>>,
    pub output_symbol: Option<Seq<char>>,
    pub symbol: Option<Seq<char>>,
    pub ends_only: bool,
    pub arcs_only: bool,
}

impl View for Matcher {
    type V = SpecMatcher;

    open spec fn view(&self) -> SpecMatcher {
        SpecMatcher {
            input_symbol: crate::getopt::opt_view(self.input_symbol),
            output_symbol: crate::getopt::opt_view(self.output_symbol),
            symbol: crate::getopt::opt_view(self.symbol),
            ends_only: self.ends_only,
            arcs_only: self.arcs_only,
        }
    }
}

/// Whether a weight changes: it must lie within the bounds (`in_bounds`).
/// An end state (no symbols) is left alone with `-A`. An arc (both
/// symbols) is left alone with `-e`; with `-S` one of its symbols must be
/// the symbol; with `-I` and `-O` its input must be `-I`'s or its output
/// `-O`'s; with one of them alone that side must match.
pub open spec fn spec_applies(m: SpecMatcher, in_bounds: bool, i: Option<Seq<char>>, o: Option<Seq<char>>) -> bool {
    if !in_bounds {
        false
    } else if i is None && o is None {
        !m.arcs_only
    } else if i is Some && o is Some {
        let a = i->0;
        let b = o->0;
        if m.ends_only {
            false
        } else if m.symbol is Some && a != m.symbol->0 && b != m.symbol->0 {
            false
        } else if m.input_symbol is Some && m.output_symbol is Some {
            !(a != m.input_symbol->0 && b != m.output_symbol->0)
        } else if m.input_symbol is Some {
            a == m.input_symbol->0
        } else if m.output_symbol is Some {
            b == m.output_symbol->0
        } else {
            true
        }
    } else {
        true
    }
}

fn opt_eq(a: &Option<String>, b: &str) -> (r: bool)
    requires
        a is Some,
    ensures
        r == (crate::getopt::opt_view(*a)->0 == b@),
{
    match a {
        Some(s) => str_eq(s.as_str(), b),
        None => false,
    }
}

/// Whether a weight changes.
pub fn applies(m: &Matcher, in_bounds: bool, i: Option<&str>, o: Option<&str>) -> (r: bool)
    ensures
        r == spec_applies(
            m@,
            in_bounds,
            match i { Some(s) => Some(s@), None => None },
            match o { Some(s) => Some(s@), None => None },
        ),
{
    if !in_bounds {
        return false;
    }
    match (i, o) {
        (None, None) => !m.arcs_only,
        (Some(a), Some(b)) => {
            if m.ends_only {
                return false;
            }
            if m.symbol.is_some() && !opt_eq(&m.symbol, a) && !opt_eq(&m.symbol, b) {
                return false;
            }
            if m.input_symbol.is_some() && m.output_symbol.is_some() {
                !(!opt_eq(&m.input_symbol, a) && !opt_eq(&m.output_symbol, b))
            } else if m.input_symbol.is_some() {
                opt_eq(&m.input_symbol, a)
            } else if m.output_symbol.is_some() {
                opt_eq(&m.output_symbol, b)
            } else {
                true
            }
        },
        _ => true,
    }
}

/// Which weights change, condition by condition: nothing outside the
/// bounds; an end state unless `-A`; no arc with `-e`; every arc when no
/// symbol is named; with `-I` alone exactly the arcs whose input is `-I`'s
/// symbol, with `-O` alone exactly those whose output is `-O`'s, with both
/// those matching either side; with `-S` only arcs carrying the symbol on
/// some side, and on those `-S` changes nothing; an arc with one side
/// missing always.
pub proof fn lemma_which_weights_change(m: SpecMatcher, a: Seq<char>, b: Seq<char>, i: Option<Seq<char>>, o: Option<Seq<char>>)
    ensures
        !spec_applies(m, false, i, o),
        spec_applies(m, true, None, None) == !m.arcs_only,
        spec_applies(m, true, Some(a), None),
        spec_applies(m, true, None, Some(b)),
        m.ends_only ==> !spec_applies(m, true, Some(a), Some(b)),
        !m.ends_only && m.symbol is None && m.input_symbol is None && m.output_symbol is None
            ==> spec_applies(m, true, Some(a), Some(b)),
        !m.ends_only && m.symbol is None && m.input_symbol is Some && m.output_symbol is None
            ==> (spec_applies(m, true, Some(a), Some(b)) <==> a == m.input_symbol->0),
        !m.ends_only && m.symbol is None && m.input_symbol is None && m.output_symbol is Some
            ==> (spec_applies(m, true, Some(a), Some(b)) <==> b == m.output_symbol->0),
        !m.ends_only && m.symbol is None && m.input_symbol is Some && m.output_symbol is Some
            ==> (spec_applies(m, true, Some(a), Some(b)) <==> (a == m.input_symbol->0 || b == m.output_symbol->0)),
        m.symbol is Some && spec_applies(m, true, Some(a), Some(b)) ==> (a == m.symbol->0 || b == m.symbol->0),
        m.symbol is Some && (a == m.symbol->0 || b == m.symbol->0) ==> spec_applies(m, true, Some(a), Some(b))
            == spec_applies(SpecMatcher { symbol: None, ..m }, true, Some(a), Some(b)),
{
}

// ---------------------------------------------------------------------------
// Reweighting tables
// ---------------------------------------------------------------------------

/// One line of a reweighting table: a symbol, a tab, and a weight; a weight
/// written `+W` is added, any other multiplies. The weight is read by the
/// caller from `weight`.
pub struct TsvRule {
    pub symbol: String,
    pub additive: bool,
    pub weight: String,
}

/// What a table line is.
pub enum SpecTsvLine {
    /// An empty line or a `#` comment.
    Skip,
    /// A line without a tab.
    NoTab,
    /// A rule: the symbol, whether additive, and the weight text.
    Rule(Seq<char>, bool, Seq<char>),
}

/// What a table line (with its newline, if any) is: the symbol is what
/// precedes the first tab, the weight what follows it up to the newline.
pub open spec fn spec_tsv_line(line: Seq<char>) -> SpecTsvLine {
    if line.len() > 0 && (line[0] == '\n' || line[0] == '#') {
        SpecTsvLine::Skip
    } else {
        match find_char(line, '\t', 0) {
            None => SpecTsvLine::NoTab,
            Some(tab) => {
                let end = match find_char(line, '\n', tab + 1) {
                    Some(e) => e,
                    None => line.len() as int,
                };
                let spec = line.subrange(tab + 1, end);
                if spec.len() > 0 && spec[0] == '+' {
                    SpecTsvLine::Rule(line.subrange(0, tab), true, spec.drop_first())
                } else {
                    SpecTsvLine::Rule(line.subrange(0, tab), false, spec)
                }
            },
        }
    }
}

/// The exec counterpart of [`SpecTsvLine`].
pub enum TsvLine {
    Skip,
    NoTab,
    Rule(TsvRule),
}

/// Reads one line of a reweighting table.
pub fn tsv_line(line: &str) -> (r: TsvLine)
    ensures
        match (r, spec_tsv_line(line@)) {
            (TsvLine::Skip, SpecTsvLine::Skip) => true,
            (TsvLine::NoTab, SpecTsvLine::NoTab) => true,
            (TsvLine::Rule(x), SpecTsvLine::Rule(s, a, w)) => x.symbol@ == s && x.additive == a && x.weight@ == w,
            _ => false,
        },
{
    let v = chars_of(line);
    if v.len() > 0 && (v[0] == '\n' || v[0] == '#') {
        return TsvLine::Skip;
    }
    let tab = match find_char_from(&v, '\t', 0) {
        None => {
            return TsvLine::NoTab;
        },
        Some(t) => t,
    };
    let end = match find_char_from(&v, '\n', tab + 1) {
        Some(e) => e,
        None => v.len(),
    };
    let symbol = string_of_range(&v, 0, tab);
    if tab + 1 < end && v[tab + 1] == '+' {
        let weight = string_of_range(&v, tab + 2, end);
        assert(weight@ =~= line@.subrange(tab + 1, end as int).drop_first());
        TsvLine::Rule(TsvRule { symbol, additive: true, weight })
    } else {
        let weight = string_of_range(&v, tab + 1, end);
        TsvLine::Rule(TsvRule { symbol, additive: false, weight })
    }
}

/// The refusal of a table line without a tab, naming the table and the
/// line.
pub open spec fn spec_no_tab(program_name: Seq<char>, file: Seq<char>, linen: int) -> SpecReport {
    SpecReport {
        code: 1,
        messages: seq![
            (Channel::Stderr, program_name + ":"@ + file + ":"@ + crate::text::spec_int_text(linen)
                + ": at least one tab required per line\n"@),
        ],
    }
}

/// The refusal of a table line without a tab.
pub fn no_tab(common: &CommonOptions, file: &str, linen: u32) -> (r: Report)
    ensures
        r@ == spec_no_tab(common.program_name@, file@, linen as int),
{
    let mut s = concat3(common.program_name.as_str(), ":", file);
    s.append(":");
    s.append(crate::text::int_text(linen as i64).as_str());
    s.append(": at least one tab required per line\n");
    crate::common::end_with(1, to_stderr(s))
}

// ---------------------------------------------------------------------------
// The run
// ---------------------------------------------------------------------------

/// hfst-reweight's arguments other than the weights.
pub struct Args {
    pub function: Option<String>,
    pub input_symbol: Option<String>,
    pub output_symbol: Option<String>,
    pub symbol: Option<String>,
    pub end_states_only: bool,
    pub arcs_only: bool,
    pub tsv: Option<String>,
}

/// What hfst-reweight runs with: the function and its name for the verbose
/// lines, the conditions, and the reweighting table, if any.
pub struct Plan {
    pub function: MathFunction,
    pub funcname: String,
    pub matcher: Matcher,
    pub tsv: Option<String>,
}

/// The refusal of an unknown function name.
pub open spec fn spec_bad_function(name: Seq<char>) -> Seq<char> {
    "Cannot parse "@ + name + " as function name"@
}

/// The refusal of `-A` with `-e`.
pub open spec fn both_only() -> Seq<char> {
    "Options '--arcs-only' and '--end-states-only' cannot be used at the same time"@
}

/// What hfst-reweight decides from its arguments: the function (identity
/// when none is named, the run ends on an unknown name), then `-A` and `-e`
/// together end it.
pub open spec fn spec_run(program_name: Seq<char>, function: Option<Seq<char>>, end_states_only: bool, arcs_only: bool) -> Result<
    (MathFunction, Seq<char>),
    SpecReport,
> {
    match function {
        Some(name) => match spec_function(name) {
            None => Err(spec_fail_report(program_name, spec_bad_function(name))),
            Some(f) => if arcs_only && end_states_only {
                Err(spec_fail_report(program_name, both_only()))
            } else {
                Ok((f, name))
            },
        },
        None => if arcs_only && end_states_only {
            Err(spec_fail_report(program_name, both_only()))
        } else {
            Ok((MathFunction::Id, "id"@))
        },
    }
}

/// Decides what hfst-reweight runs with.
pub fn run(common: &CommonOptions, args: Args) -> (r: Result<Plan, Report>)
    ensures
        match (r, spec_run(common.program_name@, crate::getopt::opt_view(args.function), args.end_states_only, args.arcs_only)) {
            (Ok(p), Ok((f, n))) => p.function == f && p.funcname@ == n && p.matcher@ == (SpecMatcher {
                input_symbol: crate::getopt::opt_view(args.input_symbol),
                output_symbol: crate::getopt::opt_view(args.output_symbol),
                symbol: crate::getopt::opt_view(args.symbol),
                ends_only: args.end_states_only,
                arcs_only: args.arcs_only,
            }) && crate::getopt::opt_view(p.tsv) == crate::getopt::opt_view(args.tsv),
            (Err(x), Err(y)) => x@ == y,
            _ => false,
        },
{
    let (f, funcname) = match &args.function {
        Some(name) => match function(name.as_str()) {
            Some(f) => (f, name.clone()),
            None => {
                let t = concat3("Cannot parse ", name.as_str(), " as function name");
                return Err(fail_with(common, t.as_str()));
            },
        },
        None => (MathFunction::Id, "id".to_owned()),
    };
    if args.arcs_only && args.end_states_only {
        return Err(fail_with(common, "Options '--arcs-only' and '--end-states-only' cannot be used at the same time"));
    }
    Ok(Plan {
        function: f,
        funcname,
        matcher: Matcher {
            input_symbol: args.input_symbol,
            output_symbol: args.output_symbol,
            symbol: args.symbol,
            ends_only: args.end_states_only,
            arcs_only: args.arcs_only,
        },
        tsv: args.tsv,
    })
}

/// The verbose lines stating the conditions, in this order: the symbol,
/// the input symbol, the output symbol, end states only, arcs only.
pub open spec fn spec_condition_lines(m: SpecMatcher) -> Seq<(Channel, Seq<char>)> {
    (match m.symbol { Some(s) => seq![(Channel::Stderr, "only if arc has symbol "@ + s + "\n"@)], None => seq![] })
        + (match m.input_symbol { Some(s) => seq![(Channel::Stderr, "only if input symbol is "@ + s + "\n"@)], None => seq![] })
        + (match m.output_symbol { Some(s) => seq![(Channel::Stderr, "only if output symbol is "@ + s + "\n"@)], None => seq![] })
        + (if m.ends_only { seq![(Channel::Stderr, "only on final weights, no arcs\n"@)] } else { seq![] })
        + (if m.arcs_only { seq![(Channel::Stderr, "only on arc weights, no end states\n"@)] } else { seq![] })
}

fn push_if(log: &mut Vec<Message>, cond: bool, text: String)
    ensures
        messages_view(final(log)@) == messages_view(old(log)@) + (if cond { seq![(Channel::Stderr, text@)] } else { seq![] }),
{
    let ghost before = messages_view(log@);
    let ghost tv = text@;
    if cond {
        log.push(to_stderr(text));
        assert(messages_view(log@) =~= before + seq![(Channel::Stderr, tv)]);
    } else {
        assert(messages_view(log@) =~= before + Seq::<(Channel, Seq<char>)>::empty());
    }
}

fn opt_line(prefix: &str, o: &Option<String>) -> (s: String)
    ensures
        o is Some ==> s@ == prefix@ + crate::getopt::opt_view(*o)->0 + "\n"@,
{
    match o {
        Some(x) => concat3(prefix, x.as_str(), "\n"),
        None => String::new(),
    }
}

/// The verbose lines stating the conditions.
pub fn condition_lines(m: &Matcher) -> (v: Vec<Message>)
    ensures
        messages_view(v@) == spec_condition_lines(m@),
{
    let mut v: Vec<Message> = Vec::new();
    assert(messages_view(v@) =~= Seq::<(Channel, Seq<char>)>::empty());
    push_if(&mut v, m.symbol.is_some(), opt_line("only if arc has symbol ", &m.symbol));
    push_if(&mut v, m.input_symbol.is_some(), opt_line("only if input symbol is ", &m.input_symbol));
    push_if(&mut v, m.output_symbol.is_some(), opt_line("only if output symbol is ", &m.output_symbol));
    push_if(&mut v, m.ends_only, "only on final weights, no arcs\n".to_owned());
    push_if(&mut v, m.arcs_only, "only on arc weights, no end states\n".to_owned());
    assert(messages_view(v@) =~= spec_condition_lines(m@));
    v
}

/// The verbose line announcing the `n`-th transducer (counted from 1): the
/// first without its number.
pub open spec fn spec_reweighting_line(name: Seq<char>, n: int) -> Seq<char> {
    if n == 1 {
        "Reweighting "@ + name + "...\n"@
    } else {
        "Reweighting "@ + name + "..."@ + crate::text::spec_int_text(n) + "\n"@
    }
}

/// The verbose line announcing the `n`-th transducer.
pub fn reweighting_line(name: &str, n: u32) -> (s: String)
    ensures
        s@ == spec_reweighting_line(name@, n as int),
{
    if n == 1 {
        concat3("Reweighting ", name, "...\n")
    } else {
        let mut s = concat3("Reweighting ", name, "...");
        s.append(crate::text::int_text(n as i64).as_str());
        s.append("\n");
        s
    }
}

} // verus!
