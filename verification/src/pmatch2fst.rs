//! hfst-pmatch2fst: compile pmatch rules into a transducer archive. The
//! options, the directory included files are looked up in, whether there
//! is anything to compile, and the refusal of an empty ruleset stand here;
//! the compiling is the backend's.

use vstd::prelude::*;
use crate::common::{
    Channel, CommonOptions, Report, SpecCommon, SpecReport, argv0, check_unary, end_with, error_case,
    initial_common, outcome_is, spec_argv0, spec_check_unary, spec_common_options_help, spec_error_case,
    spec_initial_common, spec_unary_options_help, to_stderr, common_options_help, unary_options_help,
};
use crate::getopt::{HasArg, LongOpt, OptEvent, SpecEvent, SpecLongOpt, args_view, events_view, opt_view, scan, spec_scan, table_view};
use crate::text::{chars_of, concat2, concat3, str_eq, string_of_range, utf8_len_exec, utf8_size};
use crate::unary::{Shared, SpecShared, shared_step, spec_shared_step, spec_unary_table, unary_table};

verus! {

/// The tool's own settings.
#[derive(Debug)]
pub struct Options {
    /// `-e`: the name read as epsilon.
    pub epsilonname: Option<String>,
    /// `--flatten`: compile all RTNs in.
    pub flatten: bool,
    /// `--cosine-distances`: keep cosine distances of `Like()`.
    pub include_cosine_distances: bool,
}

/// The model of [`Options`].
pub struct SpecOptions {
    pub epsilonname: Option<Seq<char>>,
    pub flatten: bool,
    pub include_cosine_distances: bool,
}

impl View for Options {
    type V = SpecOptions;

    open spec fn view(&self) -> SpecOptions {
        SpecOptions {
            epsilonname: opt_view(self.epsilonname),
            flatten: self.flatten,
            include_cosine_distances: self.include_cosine_distances,
        }
    }
}

/// The option table: the shared options, `-e`, `--flatten` and
/// `--cosine-distances`.
pub open spec fn spec_table() -> Seq<SpecLongOpt> {
    spec_unary_table() + seq![
        SpecLongOpt { name: "epsilon"@, has_arg: HasArg::Required, val: 'e' },
        SpecLongOpt { name: "flatten"@, has_arg: HasArg::No, val: '1' },
        SpecLongOpt { name: "cosine-distances"@, has_arg: HasArg::No, val: '2' },
    ]
}

fn table() -> (t: Vec<LongOpt>)
    ensures
        table_view(t@) == spec_table(),
{
    let mut t = unary_table();
    t.push(crate::common::opt("epsilon", HasArg::Required, 'e'));
    t.push(crate::common::opt("flatten", HasArg::No, '1'));
    t.push(crate::common::opt("cosine-distances", HasArg::No, '2'));
    assert(table_view(t@) =~= spec_table());
    t
}

/// The help of the tool's own options.
pub open spec fn own_help() -> Seq<char> {
    "String and format options:\n  -e, --epsilon=EPS         Map EPS as zero\n      --flatten             Compile in all RTNs\n      --cosine-distances    When compiling Like() operations, include cosine distance info\n"@
}

/// The usage text of hfst-pmatch2fst.
pub open spec fn spec_usage(program_name: Seq<char>) -> Seq<char> {
    "Usage: "@ + program_name
        + " [OPTIONS...] [INFILE]\nCompile regular expressions into transducer(s)\n (Experimental version)\n"@
        + spec_common_options_help() + spec_unary_options_help() + own_help() + "\n"@
        + "If OUTFILE or INFILE is missing or -, standard streams will be used.\nIf EPS is not defined, the default representation of 0 is used\nWeights are currently not implemented.\n\n"@
        + "Examples:\n  echo \"Define TOP  UppercaseAlpha Alpha* LC({professor}) EndTag(ProfName);\" | "@ + program_name
        + " \n  create matcher that tags \"professor Chomsky\" as \"professor <ProfName>Chomsky</ProfName>\"\n\n\n"@
}

/// The usage text of hfst-pmatch2fst.
pub fn print_usage(common: &CommonOptions) -> (s: String)
    ensures
        s@ == spec_usage(common.program_name@),
{
    let pn = common.program_name.as_str();
    let mut s = concat3(
        "Usage: ",
        pn,
        " [OPTIONS...] [INFILE]\nCompile regular expressions into transducer(s)\n (Experimental version)\n",
    );
    s.append(common_options_help().as_str());
    s.append(unary_options_help().as_str());
    s.append(
        "String and format options:\n  -e, --epsilon=EPS         Map EPS as zero\n      --flatten             Compile in all RTNs\n      --cosine-distances    When compiling Like() operations, include cosine distance info\n",
    );
    s.append("\n");
    s.append(
        "If OUTFILE or INFILE is missing or -, standard streams will be used.\nIf EPS is not defined, the default representation of 0 is used\nWeights are currently not implemented.\n\n",
    );
    s.append("Examples:\n  echo \"Define TOP  UppercaseAlpha Alpha* LC({professor}) EndTag(ProfName);\" | ");
    s.append(pn);
    s.append(" \n  create matcher that tags \"professor Chomsky\" as \"professor <ProfName>Chomsky</ProfName>\"\n\n\n");
    s
}

/// The settings and options after the events `evs`, or the report the tool
/// ends with.
pub open spec fn spec_parse(c: SpecCommon, o: SpecOptions, evs: Seq<SpecEvent>, usage: Seq<char>) -> Result<
    (SpecCommon, SpecOptions),
    SpecReport,
>
    decreases evs.len(),
{
    if evs.len() == 0 {
        Ok((c, o))
    } else {
        match spec_shared_step(c, evs[0], usage) {
            SpecShared::Continue(n) => spec_parse(n, o, evs.drop_first(), usage),
            SpecShared::Stop(r) => Err(r),
            SpecShared::Own => match evs[0] {
                SpecEvent::Opt { val, arg } => if val == 'e' {
                    spec_parse(c, SpecOptions { epsilonname: arg, ..o }, evs.drop_first(), usage)
                } else if val == '1' {
                    spec_parse(c, SpecOptions { flatten: true, ..o }, evs.drop_first(), usage)
                } else if val == '2' {
                    spec_parse(c, SpecOptions { include_cosine_distances: true, ..o }, evs.drop_first(), usage)
                } else {
                    Err(spec_error_case(c, evs[0]))
                },
                _ => Err(spec_error_case(c, evs[0])),
            },
        }
    }
}

fn read_options(c: &mut CommonOptions, o: &mut Options, evs: &Vec<OptEvent>, usage: &str) -> (r: Option<Report>)
    ensures
        match spec_parse(old(c)@, old(o)@, events_view(evs@), usage@) {
            Ok(y) => r is None && final(c)@ == y.0 && final(o)@ == y.1,
            Err(y) => r matches Some(x) && x@ == y,
        },
{
    let ghost ev = events_view(evs@);
    let mut i: usize = 0;
    assert(ev.subrange(0, ev.len() as int) =~= ev);
    while i < evs.len()
        invariant
            ev == events_view(evs@),
            i <= evs@.len(),
            spec_parse(old(c)@, old(o)@, ev, usage@) == spec_parse(c@, o@, ev.subrange(i as int, ev.len() as int), usage@),
        decreases evs@.len() - i,
    {
        let ghost rest = ev.subrange(i as int, ev.len() as int);
        assert(rest[0] == evs@[i as int]@);
        assert(rest.drop_first() =~= ev.subrange(i + 1, ev.len() as int));
        match shared_step(c, &evs[i], usage) {
            Shared::Continue => {},
            Shared::Stop(r) => {
                return Some(r);
            },
            Shared::Own => {
                match &evs[i] {
                    OptEvent::Opt { val, arg } => {
                        if *val == 'e' {
                            o.epsilonname = arg.clone();
                        } else if *val == '1' {
                            o.flatten = true;
                        } else if *val == '2' {
                            o.include_cosine_distances = true;
                        } else {
                            return Some(error_case(c, &evs[i]));
                        }
                    },
                    _ => {
                        return Some(error_case(c, &evs[i]));
                    },
                }
            },
        }
        i = i + 1;
    }
    assert(ev.subrange(evs@.len() as int, ev.len() as int) =~= Seq::<SpecEvent>::empty());
    None
}

/// The settings hfst-pmatch2fst runs with.
pub struct Plan {
    pub common: CommonOptions,
    pub options: Options,
}

impl View for Plan {
    type V = (SpecCommon, SpecOptions);

    open spec fn view(&self) -> (SpecCommon, SpecOptions) {
        (self.common@, self.options@)
    }
}

/// The settings and options hfst-pmatch2fst runs with, or the report it
/// ends with.
pub open spec fn spec_run(args: Seq<Seq<char>>) -> Result<(SpecCommon, SpecOptions), SpecReport> {
    let c0 = spec_initial_common(spec_argv0(args));
    let sc = spec_scan(args, spec_table());
    let o0 = SpecOptions { epsilonname: None, flatten: false, include_cosine_distances: false };
    match spec_parse(c0, o0, sc.0, spec_usage(c0.program_name)) {
        Err(r) => Err(r),
        Ok((c, o)) => match spec_check_unary(c, sc.1) {
            Ok(c2) => Ok((c2, o)),
            Err(r) => Err(r),
        },
    }
}

/// Reads hfst-pmatch2fst's command line (`args[0]` is the program name).
pub fn run(args: &Vec<String>) -> (r: Result<Plan, Report>)
    ensures
        outcome_is(r, spec_run(args_view(args@))),
{
    let name = argv0(args);
    let mut c = initial_common(name.as_str());
    let usage = print_usage(&c);
    let t = table();
    let sc = scan(args, &t);
    let mut o = Options { epsilonname: None, flatten: false, include_cosine_distances: false };
    assert(o@.epsilonname == None::<Seq<char>>);
    if let Some(r) = read_options(&mut c, &mut o, &sc.events, usage.as_str()) {
        return Err(r);
    }
    match check_unary(c, &sc.operands) {
        Ok(c2) => Ok(Plan { common: c2, options: o }),
        Err(r) => Err(r),
    }
}

/// The last position where `s` holds `c`.
pub open spec fn rfind_char(s: Seq<char>, c: char) -> Option<int>
    decreases s.len(),
{
    if s.len() == 0 {
        None
    } else if s.last() == c {
        Some(s.len() - 1)
    } else {
        rfind_char(s.drop_last(), c)
    }
}

/// The directory files included by the rules are looked up in: that of
/// the input file, through the working directory `pwd` when its name is
/// relative, up to and with its last `/`; none when reading the standard
/// input.
pub open spec fn spec_include_dir(input: Seq<char>, pwd: Seq<char>) -> Seq<char> {
    if input == "<stdin>"@ || input.len() == 0 {
        Seq::empty()
    } else {
        let full = if input[0] == '/' { input } else { pwd + "/"@ + input };
        match rfind_char(full, '/') {
            None => Seq::empty(),
            Some(p) => full.subrange(0, p + 1),
        }
    }
}

/// The directory files included by the rules are looked up in.
pub fn include_dir(input: &str, pwd: &str) -> (s: String)
    ensures
        s@ == spec_include_dir(input@, pwd@),
{
    if str_eq(input, "<stdin>") || input.unicode_len() == 0 {
        return String::new();
    }
    let full = if input.get_char(0) == '/' { input.to_owned() } else { concat3(pwd, "/", input) };
    let v = chars_of(full.as_str());
    let mut k: usize = v.len();
    assert(v@.subrange(0, k as int) =~= v@);
    while k > 0 && v[k - 1] != '/'
        invariant
            k <= v@.len(),
            rfind_char(v@, '/') == rfind_char(v@.subrange(0, k as int), '/'),
        decreases k,
    {
        assert(v@.subrange(0, k as int).drop_last() =~= v@.subrange(0, k - 1));
        k = k - 1;
    }
    if k == 0 {
        String::new()
    } else {
        assert(v@.subrange(0, k as int).last() == v@[k - 1]);
        string_of_range(&v, 0, k)
    }
}

/// Whether there are rules to compile: more than one byte of input.
pub fn worth_compiling(contents: &str) -> (r: bool)
    ensures
        r == (utf8_size(contents@) > 1),
{
    let v = chars_of(contents);
    proof {
        crate::text::lemma_utf8_size_positive(v@);
    }
    if v.len() >= 2 {
        true
    } else if v.len() == 1 {
        assert(v@.drop_last() =~= Seq::<char>::empty());
        assert(utf8_size(v@.drop_last()) == 0);
        assert(v@.last() == v@[0]);
        utf8_len_exec(v[0]) > 1
    } else {
        assert(utf8_size(v@) == 0);
        false
    }
}

/// The refusal when no rule defines anything to write.
pub fn empty_ruleset(c: &CommonOptions) -> (r: Report)
    ensures
        r@ == (SpecReport {
            code: 1,
            messages: seq![(Channel::Stderr, c.program_name@ + ": Empty ruleset, nothing to write\n"@)],
        }),
{
    end_with(1, to_stderr(concat2(c.program_name.as_str(), ": Empty ruleset, nothing to write\n")))
}

} // verus!
