//! hfst-name: name the transducers of a stream, or print their names. Its
//! options, the checks on them and what happens to each transducer stand
//! here; reading and writing the transducers is the caller's.

use vstd::prelude::*;
use crate::common::{
    Channel, CommonOptions, Message, Report, SpecCommon, SpecReport, argv0, check_unary, error_case,
    initial_common, spec_argv0, spec_check_unary, spec_common_options_help, spec_error_case,
    spec_initial_common, spec_unary_instructions, spec_unary_options_help, to_stderr,
    common_options_help, unary_instructions, unary_options_help,
};
use crate::getopt::{
    HasArg, LongOpt, OptEvent, SpecEvent, SpecLongOpt, args_view, events_view, scan, spec_scan, table_view,
};
use crate::text::{concat3, int_text, spec_int_text, spec_truncate_bytes, truncate_bytes};
use crate::unary::{Shared, SpecShared, shared_step, spec_shared_step, spec_unary_table, unary_table};

verus! {

/// The tool's own settings.
#[derive(Debug)]
pub struct Options {
    /// `-n`: the name to give.
    pub transducer_name: String,
    /// Whether `-n` was given.
    pub name_option_given: bool,
    /// `-p`: only print the names.
    pub print_name: bool,
    /// `-t`: cut the name after this many bytes; 0 keeps it whole.
    pub truncate_length: u64,
}

/// The model of [`Options`].
pub struct SpecOptions {
    pub transducer_name: Seq<char>,
    pub name_option_given: bool,
    pub print_name: bool,
    pub truncate_length: u64,
}

impl View for Options {
    type V = SpecOptions;

    open spec fn view(&self) -> SpecOptions {
        SpecOptions {
            transducer_name: self.transducer_name@,
            name_option_given: self.name_option_given,
            print_name: self.print_name,
            truncate_length: self.truncate_length,
        }
    }
}

/// The settings before any option.
pub open spec fn spec_default_options() -> SpecOptions {
    SpecOptions { transducer_name: Seq::empty(), name_option_given: false, print_name: false, truncate_length: 0 }
}

/// The settings before any option.
pub fn default_options() -> (o: Options)
    ensures
        o@ == spec_default_options(),
{
    Options { transducer_name: String::new(), name_option_given: false, print_name: false, truncate_length: 0 }
}

/// The option table: the shared options, then `-n`, `-p` and `-t`.
pub open spec fn spec_table() -> Seq<SpecLongOpt> {
    spec_unary_table() + seq![
        SpecLongOpt { name: "name"@, has_arg: HasArg::Required, val: 'n' },
        SpecLongOpt { name: "print-name"@, has_arg: HasArg::No, val: 'p' },
        SpecLongOpt { name: "truncate_length"@, has_arg: HasArg::Required, val: 't' },
    ]
}

fn table() -> (t: Vec<LongOpt>)
    ensures
        table_view(t@) == spec_table(),
{
    let mut t = unary_table();
    t.push(crate::common::opt("name", HasArg::Required, 'n'));
    t.push(crate::common::opt("print-name", HasArg::No, 'p'));
    t.push(crate::common::opt("truncate_length", HasArg::Required, 't'));
    assert(table_view(t@) =~= spec_table());
    t
}

/// The help of the tool's own options.
pub open spec fn own_help() -> Seq<char> {
    "Name options:\n  -n, --name=NAME      Name the transducer NAME\n  -p, --print-name     Only print the current name\n  -t, --truncate_length=LEN   Truncate name length to LEN\n"@
}

/// The usage text of hfst-name: the tool's own options come first.
pub open spec fn spec_usage(program_name: Seq<char>) -> Seq<char> {
    "Usage: "@ + program_name + " [OPTIONS...] [INFILE]\nName a transducer\n\n"@ + own_help()
        + spec_common_options_help() + spec_unary_options_help() + "\n"@ + spec_unary_instructions() + "\n"@
}

/// The usage text of hfst-name.
pub fn print_usage(common: &CommonOptions) -> (s: String)
    ensures
        s@ == spec_usage(common.program_name@),
{
    let mut s = concat3("Usage: ", common.program_name.as_str(), " [OPTIONS...] [INFILE]\nName a transducer\n\n");
    s.append(
        "Name options:\n  -n, --name=NAME      Name the transducer NAME\n  -p, --print-name     Only print the current name\n  -t, --truncate_length=LEN   Truncate name length to LEN\n",
    );
    s.append(common_options_help().as_str());
    s.append(unary_options_help().as_str());
    s.append("\n");
    s.append(unary_instructions().as_str());
    s.append("\n");
    s
}

/// Where the option reading stops.
pub enum SpecPause {
    /// All events read; these are the settings.
    Done(SpecCommon, SpecOptions),
    /// The tool ends with this report.
    End(SpecReport),
    /// The event at `at` is `-t` with this argument, for the caller to read
    /// as a number; the settings read before it are these.
    Length { at: int, text: Seq<char>, common: SpecCommon, options: SpecOptions },
}

/// Reads the events from `i` on: the shared options first, then `-n`,
/// `-p` and `-t`.
pub open spec fn spec_read(c: SpecCommon, o: SpecOptions, evs: Seq<SpecEvent>, i: int) -> SpecPause
    decreases evs.len() - i,
{
    if i < 0 || i >= evs.len() {
        SpecPause::Done(c, o)
    } else {
        match spec_shared_step(c, evs[i], spec_usage(c.program_name)) {
            SpecShared::Continue(n) => spec_read(n, o, evs, i + 1),
            SpecShared::Stop(r) => SpecPause::End(r),
            SpecShared::Own => match evs[i] {
                SpecEvent::Opt { val, arg } => if val == 'n' {
                    spec_read(
                        c,
                        SpecOptions { transducer_name: arg.unwrap_or(Seq::empty()), name_option_given: true, ..o },
                        evs,
                        i + 1,
                    )
                } else if val == 'p' {
                    spec_read(c, SpecOptions { print_name: true, ..o }, evs, i + 1)
                } else if val == 't' {
                    SpecPause::Length { at: i, text: arg.unwrap_or(Seq::empty()), common: c, options: o }
                } else {
                    SpecPause::End(spec_error_case(c, evs[i]))
                },
                _ => SpecPause::End(spec_error_case(c, evs[i])),
            },
        }
    }
}

/// The exec counterpart of [`SpecPause`]; the settings read so far are in
/// those the reading was given.
pub enum Pause {
    Done,
    End(Report),
    Length { at: usize, text: String },
}

/// Reads the option events from `from` on into `c` and `o`, up to the end,
/// the end of the tool, or the next `-t`.
pub fn read_options(c: &mut CommonOptions, o: &mut Options, evs: &Vec<OptEvent>, from: usize) -> (r: Pause)
    ensures
        match spec_read(old(c)@, old(o)@, events_view(evs@), from as int) {
            SpecPause::Done(x, y) => r is Done && final(c)@ == x && final(o)@ == y,
            SpecPause::End(x) => r matches Pause::End(y) && y@ == x,
            SpecPause::Length { at, text, common, options } => r matches Pause::Length { at: a2, text: t2 }
                && a2 == at && t2@ == text && final(c)@ == common && final(o)@ == options,
        },
{
    let ghost ev = events_view(evs@);
    let mut i: usize = from;
    while i < evs.len()
        invariant
            ev == events_view(evs@),
            from <= i,
            spec_read(old(c)@, old(o)@, ev, from as int) == spec_read(c@, o@, ev, i as int),
        decreases evs@.len() - i,
    {
        assert(ev[i as int] == evs@[i as int]@);
        let usage = print_usage(c);
        match shared_step(c, &evs[i], usage.as_str()) {
            Shared::Continue => {},
            Shared::Stop(r) => {
                return Pause::End(r);
            },
            Shared::Own => {
                match &evs[i] {
                    OptEvent::Opt { val, arg } => {
                        let a = match arg {
                            Some(s) => s.clone(),
                            None => String::new(),
                        };
                        if *val == 'n' {
                            o.transducer_name = a;
                            o.name_option_given = true;
                        } else if *val == 'p' {
                            o.print_name = true;
                        } else if *val == 't' {
                            return Pause::Length { at: i, text: a };
                        } else {
                            return Pause::End(error_case(c, &evs[i]));
                        }
                    },
                    _ => {
                        return Pause::End(error_case(c, &evs[i]));
                    },
                }
            },
        }
        i = i + 1;
    }
    Pause::Done
}

/// The refusal when neither `-n` nor `-p` was given.
pub open spec fn spec_neither() -> SpecReport {
    SpecReport {
        code: 1,
        messages: seq![(Channel::Stderr, "Error: hfst-name: use either option --print-name  or --name\n"@)],
    }
}

/// The warning when both `-n` and `-p` were given.
pub open spec fn both_given() -> Seq<char> {
    "Warning: option --print-name overrides option --name\n"@
}

/// The checks after the options: the operand check of the one-input tools,
/// then one of `-n` and `-p` must be given. The messages are those the
/// tool writes before its stream work.
pub open spec fn spec_finish(c: SpecCommon, o: SpecOptions, operands: Seq<Seq<char>>) -> Result<
    (SpecCommon, Seq<(Channel, Seq<char>)>),
    SpecReport,
> {
    match spec_check_unary(c, operands) {
        Err(r) => Err(r),
        Ok(c2) => if !o.print_name && !o.name_option_given {
            Err(spec_neither())
        } else if o.print_name && o.name_option_given {
            Ok((c2, seq![(Channel::Stderr, both_given())]))
        } else {
            Ok((c2, seq![]))
        },
    }
}

/// Applies the checks after the options.
pub fn finish(c: CommonOptions, o: &Options, operands: &Vec<String>) -> (r: Result<(CommonOptions, Vec<Message>), Report>)
    ensures
        match (r, spec_finish(c@, o@, args_view(operands@))) {
            (Ok(x), Ok(y)) => x.0@ == y.0 && crate::common::messages_view(x.1@) == y.1,
            (Err(x), Err(y)) => x@ == y,
            _ => false,
        },
{
    match check_unary(c, operands) {
        Err(r) => Err(r),
        Ok(c2) => {
            if !o.print_name && !o.name_option_given {
                Err(crate::common::end_with(
                    1,
                    to_stderr("Error: hfst-name: use either option --print-name  or --name\n".to_owned()),
                ))
            } else if o.print_name && o.name_option_given {
                let mut m: Vec<Message> = Vec::new();
                m.push(to_stderr("Warning: option --print-name overrides option --name\n".to_owned()));
                assert(crate::common::messages_view(m@) =~= seq![(Channel::Stderr, both_given())]);
                Ok((c2, m))
            } else {
                let m: Vec<Message> = Vec::new();
                assert(crate::common::messages_view(m@) =~= Seq::<(Channel, Seq<char>)>::empty());
                Ok((c2, m))
            }
        },
    }
}

/// What the tool starts from: its settings, the options before any is read,
/// and the scanned command line.
pub struct Start {
    pub common: CommonOptions,
    pub options: Options,
    pub events: Vec<OptEvent>,
    pub operands: Vec<String>,
}

/// Scans hfst-name's command line (`args[0]` is the program name); the
/// options are then read with [`read_options`] from event 0, and checked
/// with [`finish`].
pub fn run(args: &Vec<String>) -> (r: Start)
    ensures
        r.common@ == spec_initial_common(spec_argv0(args_view(args@))),
        r.options@ == spec_default_options(),
        events_view(r.events@) == spec_scan(args_view(args@), spec_table()).0,
        args_view(r.operands@) == spec_scan(args_view(args@), spec_table()).1,
{
    let name = argv0(args);
    let common = initial_common(name.as_str());
    let t = table();
    let sc = scan(args, &t);
    Start { common, options: default_options(), events: sc.events, operands: sc.operands }
}

// ---------------------------------------------------------------------------
// The stream work
// ---------------------------------------------------------------------------

/// What the tool writes before reading the `n`th transducer (from 1): a
/// separator between printed names, then the verbose line.
pub open spec fn spec_before(c: SpecCommon, o: SpecOptions, n: int) -> Seq<(Channel, Seq<char>)> {
    let sep: Seq<(Channel, Seq<char>)> = if n > 1 && o.print_name { seq![(Channel::Stderr, "---\n"@)] } else { seq![] };
    let line = if n == 1 {
        "Naming "@ + c.input_filename + "...\n"@
    } else {
        "Naming "@ + c.input_filename + "..."@ + spec_int_text(n) + "\n"@
    };
    if c.verbose { sep.push((Channel::Stderr, line)) } else { sep }
}

/// What the tool writes before reading the `n`th transducer.
pub fn before(c: &CommonOptions, o: &Options, n: u64) -> (r: Vec<Message>)
    requires
        1 <= n <= i64::MAX,
    ensures
        crate::common::messages_view(r@) == spec_before(c@, o@, n as int),
{
    let mut r: Vec<Message> = Vec::new();
    if n > 1 && o.print_name {
        r.push(to_stderr("---\n".to_owned()));
    }
    let ghost sep = crate::common::messages_view(r@);
    assert(sep =~= (if n > 1 && o.print_name { seq![(Channel::Stderr, "---\n"@)] } else { Seq::<(Channel, Seq<char>)>::empty() }));
    if c.verbose {
        let line = if n == 1 {
            concat3("Naming ", c.input_filename.as_str(), "...\n")
        } else {
            let mut s = concat3("Naming ", c.input_filename.as_str(), "...");
            s.append(int_text(n as i64).as_str());
            s.append("\n");
            s
        };
        let ghost lv = line@;
        r.push(to_stderr(line));
        assert(crate::common::messages_view(r@) =~= sep.push((Channel::Stderr, lv)));
    }
    r
}

/// What happens to a transducer named `current`: with `-p` its name is
/// printed, quoted, on the standard error; otherwise it is given the `-n`
/// name, cut after `-t` bytes when that is not 0.
pub enum SpecAfter {
    Print(Seq<char>),
    Rename(Seq<char>),
}

/// What happens to a transducer named `current`.
pub open spec fn spec_after(o: SpecOptions, current: Seq<char>) -> SpecAfter {
    if o.print_name {
        SpecAfter::Print("\""@ + current + "\"\n"@)
    } else if o.truncate_length > 0 {
        SpecAfter::Rename(spec_truncate_bytes(o.transducer_name, o.truncate_length as int))
    } else {
        SpecAfter::Rename(o.transducer_name)
    }
}

/// The exec counterpart of [`SpecAfter`]: a message to write, or the new
/// name.
pub enum After {
    Print(Message),
    Rename(String),
}

/// What happens to a transducer named `current`.
pub fn after(o: &Options, current: &str) -> (r: After)
    ensures
        match spec_after(o@, current@) {
            SpecAfter::Print(t) => r matches After::Print(m) && m@ == (Channel::Stderr, t),
            SpecAfter::Rename(name) => r matches After::Rename(s) && s@ == name,
        },
{
    if o.print_name {
        After::Print(to_stderr(concat3("\"", current, "\"\n")))
    } else if o.truncate_length > 0 {
        After::Rename(truncate_bytes(o.transducer_name.as_str(), o.truncate_length))
    } else {
        After::Rename(o.transducer_name.clone())
    }
}

} // verus!
