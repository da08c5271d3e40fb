//! hfst-lookup: look up strings in transducers. The command line is read by
//! the argument parser; the tool's own options are then replayed here in
//! the order they were given: a later option overwrites what an earlier one set, and the first refused
//! value ends the tool.

use vstd::prelude::*;
use crate::common::{
    Channel, CommonOptions, Message, Report, SpecReport, messages_view, outcome_is, spec_fail_report,
    fail_with, to_stderr,
};
use crate::numbers::{parse_i32, spec_parse_i32};
use crate::sorted::strings_view;
use crate::text::{chars_of, concat2, concat3, str_eq, string_of_range};

verus! {

/// How the results of several transducers are combined.
#[derive(Clone, Copy, PartialEq, Eq, Structural)]
pub enum Cascade {
    Union,
    PriorityUnion,
    Composition,
}

/// How lookup strings are split into symbols.
#[derive(Clone, Copy, PartialEq, Eq, Structural)]
pub enum InputFormat {
    Utf8Token,
    SpaceSeparatedToken,
    Apertium,
}

/// How result sets are printed.
#[derive(Clone, Copy, PartialEq, Eq, Structural)]
pub enum OutputFormat {
    Xerox,
    Cg,
    Apertium,
}

/// One occurrence of one of the tool's own options, with its argument. For
/// `-b` and `-t`, whose arguments are floating-point numbers, the event
/// carries whether the argument reads as a negative number.
pub enum Event {
    OutputFormat(String),
    InputFormat(String),
    EpsilonFormat(String),
    EpsilonFormat2(String),
    Beam { negative: bool },
    TimeCutoff { negative: bool },
    Xfst(String),
    Cycles(String),
    MaxNumber(String),
    PipeMode(String),
    Cascade(String),
}

/// The model of an [`Event`].
pub enum SpecEvent {
    OutputFormat(Seq<char>),
    InputFormat(Seq<char>),
    EpsilonFormat(Seq<char>),
    EpsilonFormat2(Seq<char>),
    Beam { negative: bool },
    TimeCutoff { negative: bool },
    Xfst(Seq<char>),
    Cycles(Seq<char>),
    MaxNumber(Seq<char>),
    PipeMode(Seq<char>),
    Cascade(Seq<char>),
}

impl View for Event {
    type V = SpecEvent;

    open spec fn view(&self) -> SpecEvent {
        match self {
            Event::OutputFormat(a) => SpecEvent::OutputFormat(a@),
            Event::InputFormat(a) => SpecEvent::InputFormat(a@),
            Event::EpsilonFormat(a) => SpecEvent::EpsilonFormat(a@),
            Event::EpsilonFormat2(a) => SpecEvent::EpsilonFormat2(a@),
            Event::Beam { negative } => SpecEvent::Beam { negative: *negative },
            Event::TimeCutoff { negative } => SpecEvent::TimeCutoff { negative: *negative },
            Event::Xfst(a) => SpecEvent::Xfst(a@),
            Event::Cycles(a) => SpecEvent::Cycles(a@),
            Event::MaxNumber(a) => SpecEvent::MaxNumber(a@),
            Event::PipeMode(a) => SpecEvent::PipeMode(a@),
            Event::Cascade(a) => SpecEvent::Cascade(a@),
        }
    }
}

pub open spec fn events_view(e: Seq<Event>) -> Seq<SpecEvent> {
    e.map_values(|x: Event| x@)
}

/// The tool's own arguments: `-x`, `-P`, `-I`, and the other own options in
/// the order they were given.
pub struct Args {
    pub statistics: bool,
    pub progress: bool,
    pub input_strings: Option<String>,
    pub events: Vec<Event>,
}

/// The options hfst-lookup runs with, other than the floating-point beam
/// and time cutoff.
pub struct Options {
    pub lookup_file_name: String,
    pub lookup_given: bool,
    pub pipe_input: bool,
    pub pipe_output: bool,
    pub infinite_cutoff: usize,
    pub max_number: isize,
    pub cascade: Cascade,
    pub input_format: InputFormat,
    pub output_format: OutputFormat,
    pub show_flags: bool,
    pub obey_flags: bool,
    pub print_pairs: bool,
    pub print_space: bool,
    pub quote_special: bool,
    pub epsilon_format: String,
    pub space_format: String,
    pub print_statistics: bool,
    pub show_progress_bar: bool,
}

/// The model of [`Options`].
pub struct SpecOptions {
    pub lookup_file_name: Seq<char>,
    pub lookup_given: bool,
    pub pipe_input: bool,
    pub pipe_output: bool,
    pub infinite_cutoff: usize,
    pub max_number: isize,
    pub cascade: Cascade,
    pub input_format: InputFormat,
    pub output_format: OutputFormat,
    pub show_flags: bool,
    pub obey_flags: bool,
    pub print_pairs: bool,
    pub print_space: bool,
    pub quote_special: bool,
    pub epsilon_format: Seq<char>,
    pub space_format: Seq<char>,
    pub print_statistics: bool,
    pub show_progress_bar: bool,
}

impl View for Options {
    type V = SpecOptions;

    open spec fn view(&self) -> SpecOptions {
        SpecOptions {
            lookup_file_name: self.lookup_file_name@,
            lookup_given: self.lookup_given,
            pipe_input: self.pipe_input,
            pipe_output: self.pipe_output,
            infinite_cutoff: self.infinite_cutoff,
            max_number: self.max_number,
            cascade: self.cascade,
            input_format: self.input_format,
            output_format: self.output_format,
            show_flags: self.show_flags,
            obey_flags: self.obey_flags,
            print_pairs: self.print_pairs,
            print_space: self.print_space,
            quote_special: self.quote_special,
            epsilon_format: self.epsilon_format@,
            space_format: self.space_format@,
            print_statistics: self.print_statistics,
            show_progress_bar: self.show_progress_bar,
        }
    }
}

/// The options before the replay: follow epsilon cycles 5 times, no limit
/// on results, union cascade, text input, Xerox output, obey flags.
pub open spec fn spec_initial(statistics: bool, progress: bool) -> SpecOptions {
    SpecOptions {
        lookup_file_name: Seq::empty(),
        lookup_given: false,
        pipe_input: false,
        pipe_output: false,
        infinite_cutoff: 5,
        max_number: -1isize,
        cascade: Cascade::Union,
        input_format: InputFormat::Utf8Token,
        output_format: OutputFormat::Xerox,
        show_flags: false,
        obey_flags: true,
        print_pairs: false,
        print_space: false,
        quote_special: false,
        epsilon_format: Seq::empty(),
        space_format: Seq::empty(),
        print_statistics: statistics,
        show_progress_bar: progress,
    }
}

fn initial(statistics: bool, progress: bool) -> (o: Options)
    ensures
        o@ == spec_initial(statistics, progress),
{
    Options {
        lookup_file_name: String::new(),
        lookup_given: false,
        pipe_input: false,
        pipe_output: false,
        infinite_cutoff: 5,
        max_number: -1,
        cascade: Cascade::Union,
        input_format: InputFormat::Utf8Token,
        output_format: OutputFormat::Xerox,
        show_flags: false,
        obey_flags: true,
        print_pairs: false,
        print_space: false,
        quote_special: false,
        epsilon_format: String::new(),
        space_format: String::new(),
        print_statistics: statistics,
        show_progress_bar: progress,
    }
}

/// The refusal of an unknown `-O` value.
pub open spec fn spec_bad_output_format(a: Seq<char>) -> Seq<char> {
    "Unknown output format "@ + a + "; valid values are: xerox, cg, apertium\n"@
}

/// The refusal of an unknown `-F` value.
pub open spec fn spec_bad_input_format(a: Seq<char>) -> Seq<char> {
    "Unknown input format "@ + a + "; valid values are:utf8, spaced, apertium\n"@
}

/// The refusal of an unknown `-X` value.
pub open spec fn spec_bad_xfst(a: Seq<char>) -> Seq<char> {
    "Xfst variable "@ + a + " unrecognised"@
}

/// The refusal of an unknown `-p` value.
pub open spec fn spec_bad_pipe(a: Seq<char>) -> Seq<char> {
    "--pipe-mode argument "@ + a + " unrecognised"@
}

/// The refusal of an unknown `-C` value.
pub open spec fn spec_bad_cascade(a: Seq<char>) -> Seq<char> {
    "--cascade argument "@ + a + " unrecognised, possible values are\n{ union, priority-union, composition }"@
}

/// A refusal printed without the program name.
pub open spec fn spec_plain_failure(text: Seq<char>) -> SpecReport {
    SpecReport { code: 1, messages: seq![(Channel::Stderr, text + "\n"@)] }
}

/// What `-O` does.
#[verifier::opaque]
pub open spec fn spec_output_format(program_name: Seq<char>, o: SpecOptions, a: Seq<char>) -> Result<SpecOptions, SpecReport> {
    if a == "xerox"@ {
        Ok(SpecOptions { output_format: OutputFormat::Xerox, ..o })
    } else if a == "cg"@ {
        Ok(SpecOptions { output_format: OutputFormat::Cg, ..o })
    } else if a == "apertium"@ {
        Ok(SpecOptions { output_format: OutputFormat::Apertium, input_format: InputFormat::Apertium, ..o })
    } else {
        Err(spec_fail_report(program_name, spec_bad_output_format(a)))
    }
}

/// What `-F` does.
#[verifier::opaque]
pub open spec fn spec_input_format(program_name: Seq<char>, o: SpecOptions, a: Seq<char>) -> Result<SpecOptions, SpecReport> {
    if a == "text"@ {
        Ok(SpecOptions { input_format: InputFormat::Utf8Token, ..o })
    } else if a == "spaced"@ {
        Ok(SpecOptions { input_format: InputFormat::SpaceSeparatedToken, ..o })
    } else if a == "apertium"@ {
        Ok(SpecOptions { input_format: InputFormat::Apertium, ..o })
    } else {
        Err(spec_fail_report(program_name, spec_bad_input_format(a)))
    }
}

/// What `-X` does.
#[verifier::opaque]
pub open spec fn spec_xfst(program_name: Seq<char>, o: SpecOptions, a: Seq<char>) -> Result<SpecOptions, SpecReport> {
    if a == "print-pairs"@ {
        Ok(SpecOptions { print_pairs: true, ..o })
    } else if a == "print-space"@ {
        Ok(SpecOptions { print_space: true, space_format: " "@, ..o })
    } else if a == "show-flags"@ {
        Ok(SpecOptions { show_flags: true, ..o })
    } else if a == "quote-special"@ {
        Ok(SpecOptions { quote_special: true, ..o })
    } else if a == "obey-flags"@ {
        Ok(SpecOptions { obey_flags: false, ..o })
    } else {
        Err(spec_fail_report(program_name, spec_bad_xfst(a)))
    }
}

/// What `-p` does.
#[verifier::opaque]
pub open spec fn spec_pipe_mode(program_name: Seq<char>, o: SpecOptions, a: Seq<char>) -> Result<SpecOptions, SpecReport> {
    if a == "both"@ || a == "BOTH"@ {
        Ok(SpecOptions { pipe_input: true, pipe_output: true, ..o })
    } else if a == "input"@ || a == "INPUT"@ || a == "in"@ || a == "IN"@ {
        Ok(SpecOptions { pipe_input: true, ..o })
    } else if a == "output"@ || a == "OUTPUT"@ || a == "out"@ || a == "OUT"@ {
        Ok(SpecOptions { pipe_output: true, ..o })
    } else {
        Err(spec_fail_report(program_name, spec_bad_pipe(a)))
    }
}

/// What `-C` does.
#[verifier::opaque]
pub open spec fn spec_cascade(program_name: Seq<char>, o: SpecOptions, a: Seq<char>) -> Result<SpecOptions, SpecReport> {
    if a == "union"@ {
        Ok(SpecOptions { cascade: Cascade::Union, ..o })
    } else if a == "priority-union"@ {
        Ok(SpecOptions { cascade: Cascade::PriorityUnion, ..o })
    } else if a == "composition"@ {
        Ok(SpecOptions { cascade: Cascade::Composition, ..o })
    } else {
        Err(spec_fail_report(program_name, spec_bad_cascade(a)))
    }
}

/// The epsilon-cycle bound `-c` gives: its argument read as an `i32`, 0
/// when it does not read as one, converted to `usize` as `as` converts.
pub open spec fn spec_cycles(a: Seq<char>) -> usize {
    (spec_parse_i32(a).unwrap_or(0i32)) as usize
}

/// The result limit `-n` gives: its argument read as an `i32`, 0 when it
/// does not read as one.
pub open spec fn spec_max_number(a: Seq<char>) -> isize {
    (spec_parse_i32(a).unwrap_or(0i32)) as isize
}

fn cycles(a: &str) -> (r: usize)
    ensures
        r == spec_cycles(a@),
{
    let n: i32 = match parse_i32(a) {
        Some(n) => n,
        None => 0,
    };
    n as usize
}

fn max_number(a: &str) -> (r: isize)
    ensures
        r == spec_max_number(a@),
{
    let n: i32 = match parse_i32(a) {
        Some(n) => n,
        None => 0,
    };
    n as isize
}

/// What one option occurrence does to the options.
pub open spec fn spec_apply(program_name: Seq<char>, o: SpecOptions, e: SpecEvent) -> Result<SpecOptions, SpecReport> {
    match e {
        SpecEvent::OutputFormat(a) => spec_output_format(program_name, o, a),
        SpecEvent::InputFormat(a) => spec_input_format(program_name, o, a),
        SpecEvent::EpsilonFormat(a) => Ok(SpecOptions { epsilon_format: a, ..o }),
        SpecEvent::EpsilonFormat2(a) => Ok(SpecOptions { epsilon_format: a, ..o }),
        SpecEvent::Beam { negative } => if negative {
            Err(spec_plain_failure("Invalid argument for --beam"@))
        } else {
            Ok(o)
        },
        SpecEvent::TimeCutoff { negative } => if negative {
            Err(spec_plain_failure("Invalid argument for --time-cutoff"@))
        } else {
            Ok(o)
        },
        SpecEvent::Xfst(a) => spec_xfst(program_name, o, a),
        SpecEvent::Cycles(a) => Ok(SpecOptions { infinite_cutoff: spec_cycles(a), ..o }),
        SpecEvent::MaxNumber(a) => Ok(SpecOptions { max_number: spec_max_number(a), ..o }),
        SpecEvent::PipeMode(a) => spec_pipe_mode(program_name, o, a),
        SpecEvent::Cascade(a) => spec_cascade(program_name, o, a),
    }
}

/// The replay of the occurrences `evs`, in order.
pub open spec fn spec_replay(program_name: Seq<char>, o: SpecOptions, evs: Seq<SpecEvent>) -> Result<SpecOptions, SpecReport>
    decreases evs.len(),
{
    if evs.len() == 0 {
        Ok(o)
    } else {
        match spec_apply(program_name, o, evs[0]) {
            Ok(n) => spec_replay(program_name, n, evs.drop_first()),
            Err(r) => Err(r),
        }
    }
}

/// Where the lookup strings come from: the `-I` file, else the standard
/// input.
pub open spec fn spec_lookup_source(o: SpecOptions, input_strings: Option<Seq<char>>) -> SpecOptions {
    match input_strings {
        Some(name) => SpecOptions { lookup_file_name: name, lookup_given: true, ..o },
        None => SpecOptions { lookup_file_name: "<stdin>"@, ..o },
    }
}

/// What hfst-lookup's own options come to, or the report it ends with.
pub open spec fn spec_resolve(
    program_name: Seq<char>,
    statistics: bool,
    progress: bool,
    input_strings: Option<Seq<char>>,
    evs: Seq<SpecEvent>,
) -> Result<SpecOptions, SpecReport> {
    match spec_replay(program_name, spec_initial(statistics, progress), evs) {
        Ok(o) => Ok(spec_lookup_source(o, input_strings)),
        Err(r) => Err(r),
    }
}

fn plain_failure(text: &str) -> (r: Report)
    ensures
        r@ == spec_plain_failure(text@),
{
    crate::common::end_with(1, to_stderr(concat2(text, "\n")))
}

fn apply_output_format(common: &CommonOptions, o: &mut Options, a: &String) -> (r: Option<Report>)
    ensures
        match spec_output_format(common.program_name@, old(o)@, a@) {
            Ok(n) => r is None && final(o)@ == n,
            Err(x) => r matches Some(y) && y@ == x,
        },
{
    proof {
        reveal(spec_output_format);
    }
        let s = a.as_str();
        if str_eq(s, "xerox") {
            o.output_format = OutputFormat::Xerox;
        } else if str_eq(s, "cg") {
            o.output_format = OutputFormat::Cg;
        } else if str_eq(s, "apertium") {
            o.output_format = OutputFormat::Apertium;
            o.input_format = InputFormat::Apertium;
        } else {
            let t = concat3("Unknown output format ", s, "; valid values are: xerox, cg, apertium\n");
            return Some(fail_with(common, t.as_str()));
        }
        None
}

fn apply_input_format(common: &CommonOptions, o: &mut Options, a: &String) -> (r: Option<Report>)
    ensures
        match spec_input_format(common.program_name@, old(o)@, a@) {
            Ok(n) => r is None && final(o)@ == n,
            Err(x) => r matches Some(y) && y@ == x,
        },
{
    proof {
        reveal(spec_input_format);
    }
        let s = a.as_str();
        if str_eq(s, "text") {
            o.input_format = InputFormat::Utf8Token;
        } else if str_eq(s, "spaced") {
            o.input_format = InputFormat::SpaceSeparatedToken;
        } else if str_eq(s, "apertium") {
            o.input_format = InputFormat::Apertium;
        } else {
            let t = concat3("Unknown input format ", s, "; valid values are:utf8, spaced, apertium\n");
            return Some(fail_with(common, t.as_str()));
        }
        None
}

fn apply_xfst(common: &CommonOptions, o: &mut Options, a: &String) -> (r: Option<Report>)
    ensures
        match spec_xfst(common.program_name@, old(o)@, a@) {
            Ok(n) => r is None && final(o)@ == n,
            Err(x) => r matches Some(y) && y@ == x,
        },
{
    proof {
        reveal(spec_xfst);
    }
        let s = a.as_str();
        if str_eq(s, "print-pairs") {
            o.print_pairs = true;
        } else if str_eq(s, "print-space") {
            o.print_space = true;
            o.space_format = " ".to_owned();
        } else if str_eq(s, "show-flags") {
            o.show_flags = true;
        } else if str_eq(s, "quote-special") {
            o.quote_special = true;
        } else if str_eq(s, "obey-flags") {
            o.obey_flags = false;
        } else {
            let t = concat3("Xfst variable ", s, " unrecognised");
            return Some(fail_with(common, t.as_str()));
        }
        None
}

fn apply_pipe_mode(common: &CommonOptions, o: &mut Options, a: &String) -> (r: Option<Report>)
    ensures
        match spec_pipe_mode(common.program_name@, old(o)@, a@) {
            Ok(n) => r is None && final(o)@ == n,
            Err(x) => r matches Some(y) && y@ == x,
        },
{
    proof {
        reveal(spec_pipe_mode);
    }
        let s = a.as_str();
        if str_eq(s, "both") || str_eq(s, "BOTH") {
            o.pipe_input = true;
            o.pipe_output = true;
        } else if str_eq(s, "input") || str_eq(s, "INPUT") || str_eq(s, "in") || str_eq(s, "IN") {
            o.pipe_input = true;
        } else if str_eq(s, "output") || str_eq(s, "OUTPUT") || str_eq(s, "out") || str_eq(s, "OUT") {
            o.pipe_output = true;
        } else {
            let t = concat3("--pipe-mode argument ", s, " unrecognised");
            return Some(fail_with(common, t.as_str()));
        }
        None
}

fn apply_cascade(common: &CommonOptions, o: &mut Options, a: &String) -> (r: Option<Report>)
    ensures
        match spec_cascade(common.program_name@, old(o)@, a@) {
            Ok(n) => r is None && final(o)@ == n,
            Err(x) => r matches Some(y) && y@ == x,
        },
{
    proof {
        reveal(spec_cascade);
    }
        let s = a.as_str();
        if str_eq(s, "union") {
            o.cascade = Cascade::Union;
        } else if str_eq(s, "priority-union") {
            o.cascade = Cascade::PriorityUnion;
        } else if str_eq(s, "composition") {
            o.cascade = Cascade::Composition;
        } else {
            let t = concat3(
                "--cascade argument ",
                s,
                " unrecognised, possible values are\n{ union, priority-union, composition }",
            );
            return Some(fail_with(common, t.as_str()));
        }
        None
}

#[verifier::rlimit(100)]
fn apply(common: &CommonOptions, o: &mut Options, e: &Event) -> (r: Option<Report>)
    ensures
        match spec_apply(common.program_name@, old(o)@, e@) {
            Ok(n) => r is None && final(o)@ == n,
            Err(x) => r matches Some(y) && y@ == x,
        },
{
    match e {
        Event::OutputFormat(a) => apply_output_format(common, o, a),
        Event::InputFormat(a) => apply_input_format(common, o, a),
        Event::EpsilonFormat(a) => {
            o.epsilon_format = a.clone();
            None
        },
        Event::EpsilonFormat2(a) => {
            o.epsilon_format = a.clone();
            None
        },
        Event::Beam { negative } => {
            if *negative {
                Some(plain_failure("Invalid argument for --beam"))
            } else {
                None
            }
        },
        Event::TimeCutoff { negative } => {
            if *negative {
                Some(plain_failure("Invalid argument for --time-cutoff"))
            } else {
                None
            }
        },
        Event::Xfst(a) => apply_xfst(common, o, a),
        Event::Cycles(a) => {
            o.infinite_cutoff = cycles(a.as_str());
            None
        },
        Event::MaxNumber(a) => {
            o.max_number = max_number(a.as_str());
            None
        },
        Event::PipeMode(a) => apply_pipe_mode(common, o, a),
        Event::Cascade(a) => apply_cascade(common, o, a),
    }
}

impl Args {
    /// Replays the tool's own options in the order they were given, then
    /// settles where the lookup strings come from.
    pub fn resolve(&self, common: &CommonOptions) -> (r: Result<Options, Report>)
        ensures
            outcome_is(
                r,
                spec_resolve(
                    common.program_name@,
                    self.statistics,
                    self.progress,
                    crate::getopt::opt_view(self.input_strings),
                    events_view(self.events@),
                ),
            ),
    {
        let ghost ev = events_view(self.events@);
        let ghost pn = common.program_name@;
        let mut o = initial(self.statistics, self.progress);
        let mut i: usize = 0;
        assert(ev.subrange(0, ev.len() as int) =~= ev);
        while i < self.events.len()
            invariant
                ev == events_view(self.events@),
                i <= self.events@.len(),
                spec_replay(pn, spec_initial(self.statistics, self.progress), ev) == spec_replay(
                    pn,
                    o@,
                    ev.subrange(i as int, ev.len() as int),
                ),
                pn == common.program_name@,
            decreases self.events@.len() - i,
        {
            let ghost rest = ev.subrange(i as int, ev.len() as int);
            assert(rest[0] == self.events@[i as int]@);
            assert(rest.drop_first() =~= ev.subrange(i + 1, ev.len() as int));
            if let Some(r) = apply(common, &mut o, &self.events[i]) {
                return Err(r);
            }
            i = i + 1;
        }
        assert(ev.subrange(self.events@.len() as int, ev.len() as int) =~= Seq::<SpecEvent>::empty());
        match &self.input_strings {
            Some(name) => {
                o.lookup_file_name = name.clone();
                o.lookup_given = true;
            },
            None => {
                o.lookup_file_name = "<stdin>".to_owned();
            },
        }
        Ok(o)
    }
}

/// The options hfst-lookup runs with and what it prints before it opens
/// its streams.
pub struct Plan {
    pub options: Options,
    pub messages: Vec<Message>,
}

impl View for Plan {
    type V = (SpecOptions, Seq<(Channel, Seq<char>)>);

    open spec fn view(&self) -> (SpecOptions, Seq<(Channel, Seq<char>)>) {
        (self.options@, messages_view(self.messages@))
    }
}

/// What hfst-lookup decides from its arguments: the options, then, when
/// verbose, where it reads and writes.
pub open spec fn spec_run(
    c: crate::common::SpecCommon,
    statistics: bool,
    progress: bool,
    input_strings: Option<Seq<char>>,
    evs: Seq<SpecEvent>,
) -> Result<(SpecOptions, Seq<(Channel, Seq<char>)>), SpecReport> {
    match spec_resolve(c.program_name, statistics, progress, input_strings, evs) {
        Err(r) => Err(r),
        Ok(o) => Ok((o, if c.verbose { seq![(Channel::Stderr, crate::unary::spec_reading_line(c))] } else { seq![] })),
    }
}

/// Decides hfst-lookup's options from its settings and arguments.
pub fn run(common: &CommonOptions, args: &Args) -> (r: Result<Plan, Report>)
    ensures
        outcome_is(
            r,
            spec_run(
                common@,
                args.statistics,
                args.progress,
                crate::getopt::opt_view(args.input_strings),
                events_view(args.events@),
            ),
        ),
{
    let options = match args.resolve(common) {
        Ok(o) => o,
        Err(r) => {
            return Err(r);
        },
    };
    let mut messages: Vec<Message> = Vec::new();
    assert(messages_view(messages@) =~= Seq::<(Channel, Seq<char>)>::empty());
    crate::common::verbose_print(common, &mut messages, crate::unary::reading_line(common));
    assert(messages_view(messages@) =~= (if common.verbose {
        seq![(Channel::Stderr, crate::unary::spec_reading_line(common@))]
    } else {
        seq![]
    }));
    Ok(Plan { options, messages })
}

/// Whether the interactive prompt is shown: not when quiet, not when
/// reading a pipe, not when the strings come from a file.
pub open spec fn spec_shows_prompt(silent: bool, o: SpecOptions) -> bool {
    !silent && !o.pipe_input && !o.lookup_given
}

/// The prompt hfst-lookup shows before each lookup string, if any.
pub fn print_prompt(common: &CommonOptions, o: &Options) -> (r: Option<Message>)
    ensures
        match r {
            Some(m) => spec_shows_prompt(common.silent, o@) && m@ == (Channel::Stderr, "> "@),
            None => !spec_shows_prompt(common.silent, o@),
        },
{
    if !common.silent && !o.pipe_input && !o.lookup_given {
        Some(to_stderr("> ".to_owned()))
    } else {
        None
    }
}

/// The first position of a line break (`\n` or `\r`) in `s`, if any.
pub open spec fn first_break(s: Seq<char>, k: int) -> Option<int>
    decreases s.len() - k,
{
    if k < 0 || k >= s.len() {
        None
    } else if s[k] == '\n' || s[k] == '\r' {
        Some(k)
    } else {
        first_break(s, k + 1)
    }
}

/// A lookup line without its end: cut at the first `\n` or `\r`.
pub open spec fn spec_strip_line(s: Seq<char>) -> Seq<char> {
    match first_break(s, 0) {
        Some(k) => s.subrange(0, k),
        None => s,
    }
}

proof fn lemma_first_break(s: Seq<char>, k: int)
    requires
        0 <= k <= s.len(),
        forall|j: int| 0 <= j < k ==> s[j] != '\n' && s[j] != '\r',
    ensures
        match first_break(s, k) {
            Some(e) => k <= e < s.len() && (s[e] == '\n' || s[e] == '\r')
                && forall|j: int| 0 <= j < e ==> s[j] != '\n' && s[j] != '\r',
            None => forall|j: int| 0 <= j < s.len() ==> s[j] != '\n' && s[j] != '\r',
        },
    decreases s.len() - k,
{
    if k < s.len() && s[k] != '\n' && s[k] != '\r' {
        lemma_first_break(s, k + 1);
    }
}

/// The line looked up is what precedes the first `\n` or `\r` of the input
/// line (all of it when there is none): a prefix of it holding neither,
/// and followed in it by one of them when shorter.
pub proof fn lemma_stripped_line(s: Seq<char>)
    ensures
        spec_strip_line(s).len() <= s.len(),
        spec_strip_line(s) == s.subrange(0, spec_strip_line(s).len() as int),
        forall|j: int| 0 <= j < spec_strip_line(s).len() ==> spec_strip_line(s)[j] != '\n' && spec_strip_line(s)[j] != '\r',
        spec_strip_line(s).len() < s.len() ==> (s[spec_strip_line(s).len() as int] == '\n' || s[spec_strip_line(s).len() as int] == '\r'),
{
    lemma_first_break(s, 0);
    let r = spec_strip_line(s);
    assert(r == s.subrange(0, r.len() as int));
}

/// A lookup line without its end.
pub fn strip_line(s: &str) -> (r: String)
    ensures
        r@ == spec_strip_line(s@),
{
    let v = chars_of(s);
    let mut k: usize = 0;
    while k < v.len()
        invariant
            v@ == s@,
            k <= v@.len(),
            first_break(s@, 0) == first_break(s@, k as int),
        decreases v@.len() - k,
    {
        if v[k] == '\n' || v[k] == '\r' {
            return string_of_range(&v, 0, k);
        }
        k = k + 1;
    }
    s.to_owned()
}

/// The verbose line before each lookup.
pub fn looking_up(line: &str) -> (s: String)
    ensures
        s@ == "Looking up "@ + line@ + "...\n"@,
{
    concat3("Looking up ", line, "...\n")
}

// ---------------------------------------------------------------------------
// Laws
// ---------------------------------------------------------------------------

/// The epsilon text after the occurrences `evs`, starting from `cur`: the
/// argument of the last `-e` or `-E`, whichever came last.
pub open spec fn last_epsilon(evs: Seq<SpecEvent>, cur: Seq<char>) -> Seq<char>
    decreases evs.len(),
{
    if evs.len() == 0 {
        cur
    } else {
        last_epsilon(
            evs.drop_first(),
            match evs[0] {
                SpecEvent::EpsilonFormat(a) => a,
                SpecEvent::EpsilonFormat2(a) => a,
                _ => cur,
            },
        )
    }
}

/// `-e` and `-E` write the same setting: when the replay succeeds, the
/// epsilon is the argument of the last of them given (and unchanged when
/// neither is).
pub proof fn lemma_last_epsilon_wins(program_name: Seq<char>, o: SpecOptions, evs: Seq<SpecEvent>)
    requires
        spec_replay(program_name, o, evs) is Ok,
    ensures
        spec_replay(program_name, o, evs)->Ok_0.epsilon_format == last_epsilon(evs, o.epsilon_format),
    decreases evs.len(),
{
    reveal(spec_output_format);
    reveal(spec_input_format);
    reveal(spec_xfst);
    reveal(spec_pipe_mode);
    reveal(spec_cascade);
    if evs.len() > 0 {
        let n = spec_apply(program_name, o, evs[0])->Ok_0;
        assert(n.epsilon_format == match evs[0] {
            SpecEvent::EpsilonFormat(a) => a,
            SpecEvent::EpsilonFormat2(a) => a,
            _ => o.epsilon_format,
        });
        lemma_last_epsilon_wins(program_name, n, evs.drop_first());
    }
}

} // verus!
