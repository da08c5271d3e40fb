//! hfst-lexc: compile lexc files into a transducer. The command line is
//! read by the argument parser; the options it checks (`-f`, `-x`, `-X`,
//! `-W`, `--Werror`) are replayed here in the order they were given, and
//! what the tool decides before and around the compilation is stated here.

use vstd::prelude::*;
use crate::common::{
    Channel, CommonOptions, Message, Report, SpecReport, messages_view, spec_diagnostic, diagnostic, to_stderr,
    to_stdout,
};
use crate::sorted::strings_view;
use crate::text::{concat3, str_eq};

verus! {

/// The transducer implementations a format name can name.
#[derive(Clone, Copy, PartialEq, Eq, Structural)]
pub enum FormatType {
    Sfst,
    TropicalOpenfst,
    Foma,
    Xfsm,
    HfstOl,
    HfstOlw,
    Thfst,
    Hfst2,
    Unspecified,
    Error,
}

/// One occurrence of an option whose value is checked, with its argument;
/// `-f` carries the format its name was read as.
pub enum Event {
    Format(FormatType),
    XeroxComposition(String),
    Xfst(String),
    Warning(String),
    WerrorDeprecated,
}

/// The model of an [`Event`].
pub enum SpecEvent {
    Format(FormatType),
    XeroxComposition(Seq<char>),
    Xfst(Seq<char>),
    Warning(Seq<char>),
    WerrorDeprecated,
}

impl View for Event {
    type V = SpecEvent;

    open spec fn view(&self) -> SpecEvent {
        match self {
            Event::Format(f) => SpecEvent::Format(*f),
            Event::XeroxComposition(a) => SpecEvent::XeroxComposition(a@),
            Event::Xfst(a) => SpecEvent::Xfst(a@),
            Event::Warning(a) => SpecEvent::Warning(a@),
            Event::WerrorDeprecated => SpecEvent::WerrorDeprecated,
        }
    }
}

pub open spec fn events_view(e: Seq<Event>) -> Seq<SpecEvent> {
    e.map_values(|x: Event| x@)
}

/// hfst-lexc's own arguments: the plain switches, the input files, and the
/// checked options in the order they were given.
pub struct Args {
    pub align_strings: bool,
    pub encode_weights: bool,
    pub with_flags: bool,
    pub minimize_flags: bool,
    pub rename_flags: bool,
    pub split_characters: bool,
    pub infiles: Vec<String>,
    pub events: Vec<Event>,
}

/// The warning switches.
#[derive(Clone, Copy, PartialEq, Eq, Structural)]
pub struct Warnings {
    pub treat_warnings_as_errors: bool,
    pub warn_everything: bool,
    pub warn_missing_lexicons: bool,
    pub warn_unused_lexicons: bool,
    pub warn_repeated_lexicons: bool,
    pub warn_one_sided_flags: bool,
    pub warn_missing_alphabets: bool,
    pub warn_unnecessary_escapes: bool,
}

/// What the checked options come to, and the compiler switches.
#[derive(Clone, Copy, PartialEq, Eq, Structural)]
pub struct Settings {
    pub format: FormatType,
    pub align_strings: bool,
    pub with_flags: bool,
    pub minimize_flags: bool,
    pub rename_flags: bool,
    pub xerox_composition: bool,
    pub encode_weights: bool,
    pub flag_is_epsilon: bool,
    pub split_characters: bool,
    pub warnings: Warnings,
}

/// No warning switch set.
pub open spec fn no_warnings() -> Warnings {
    Warnings {
        treat_warnings_as_errors: false,
        warn_everything: false,
        warn_missing_lexicons: false,
        warn_unused_lexicons: false,
        warn_repeated_lexicons: false,
        warn_one_sided_flags: false,
        warn_missing_alphabets: false,
        warn_unnecessary_escapes: false,
    }
}

/// The settings before the replay: the switches as given, no format, Xerox
/// composition, no warning.
pub open spec fn spec_initial(a: &Args) -> Settings {
    Settings {
        format: FormatType::Unspecified,
        align_strings: a.align_strings,
        with_flags: a.with_flags,
        minimize_flags: a.minimize_flags,
        rename_flags: a.rename_flags,
        xerox_composition: true,
        encode_weights: a.encode_weights,
        flag_is_epsilon: false,
        split_characters: a.split_characters,
        warnings: no_warnings(),
    }
}

/// What `-W` does to the warning switches; `None` for an unknown switch.
pub open spec fn spec_warning(w: Warnings, a: Seq<char>) -> Option<Warnings> {
    if a == "error"@ {
        Some(Warnings { treat_warnings_as_errors: true, ..w })
    } else if a == "all"@ {
        Some(
            Warnings {
                warn_one_sided_flags: true,
                warn_everything: true,
                warn_missing_lexicons: true,
                warn_unused_lexicons: true,
                warn_repeated_lexicons: true,
                warn_missing_alphabets: true,
                warn_unnecessary_escapes: true,
                ..w
            },
        )
    } else if a == "one-sided-flags"@ {
        Some(Warnings { warn_one_sided_flags: true, ..w })
    } else if a == "no-one-sided-flags"@ {
        Some(Warnings { warn_one_sided_flags: false, ..w })
    } else if a == "unused-lexicons"@ {
        Some(Warnings { warn_unused_lexicons: true, ..w })
    } else if a == "no-unused-lexicons"@ {
        Some(Warnings { warn_unused_lexicons: false, ..w })
    } else if a == "repeated-lexicons"@ {
        Some(Warnings { warn_repeated_lexicons: true, ..w })
    } else if a == "no-repeated-lexicons"@ {
        Some(Warnings { warn_repeated_lexicons: false, ..w })
    } else if a == "missing-lexicons"@ {
        Some(Warnings { warn_missing_lexicons: true, ..w })
    } else if a == "no-missing-lexicons"@ {
        Some(Warnings { warn_missing_lexicons: false, ..w })
    } else if a == "missing-alphabets"@ {
        Some(Warnings { warn_missing_alphabets: true, ..w })
    } else if a == "no-missing-alphabets"@ {
        Some(Warnings { warn_missing_alphabets: false, ..w })
    } else if a == "unnecessary-escapes"@ {
        Some(Warnings { warn_unnecessary_escapes: true, ..w })
    } else if a == "no-unnecessary-escapes"@ {
        Some(Warnings { warn_unnecessary_escapes: false, ..w })
    } else {
        None
    }
}

/// What `--Werror` does: warnings are errors and the four lexicon and flag
/// warnings are on; the alphabet and escape warnings are off.
pub open spec fn spec_werror(w: Warnings) -> Warnings {
    Warnings {
        treat_warnings_as_errors: true,
        warn_one_sided_flags: true,
        warn_missing_lexicons: true,
        warn_unused_lexicons: true,
        warn_repeated_lexicons: true,
        warn_unnecessary_escapes: false,
        warn_missing_alphabets: false,
        ..w
    }
}

/// One step of the replay: the new settings and what it prints, or the
/// report the tool ends with.
pub open spec fn spec_apply(s: Settings, e: SpecEvent) -> Result<(Settings, Seq<(Channel, Seq<char>)>), SpecReport> {
    match e {
        SpecEvent::Format(f) => Ok((Settings { format: f, ..s }, seq![])),
        SpecEvent::XeroxComposition(a) => if a == "yes"@ || a == "true"@ || a == "ON"@ {
            Ok((Settings { xerox_composition: true, ..s }, seq![]))
        } else if a == "no"@ || a == "false"@ || a == "OFF"@ {
            Ok((Settings { xerox_composition: false, ..s }, seq![]))
        } else {
            Err(SpecReport {
                code: 1,
                messages: seq![(Channel::Stderr, "Error: unknown option to --xerox-composition: '"@ + a + "'\n"@)],
            })
        },
        SpecEvent::Xfst(a) => if a == "flag-is-epsilon"@ {
            Ok((Settings { flag_is_epsilon: true, ..s }, seq![]))
        } else {
            Err(SpecReport { code: 1, messages: seq![(Channel::Stderr, "Error: unknown option to --xfst: '"@ + a + "'\n"@)] })
        },
        SpecEvent::WerrorDeprecated => Ok(
            (
                Settings { warnings: spec_werror(s.warnings), ..s },
                seq![(Channel::Stderr, "Warning: --Werror is deprecated, use -Werror -Wall instead\n"@)],
            ),
        ),
        SpecEvent::Warning(a) => match spec_warning(s.warnings, a) {
            Some(w) => Ok((Settings { warnings: w, ..s }, seq![])),
            None => Err(SpecReport { code: 1, messages: seq![(Channel::Stderr, "Unknown warning option "@ + a + "\n"@)] }),
        },
    }
}

/// The replay of the occurrences `evs`: the settings and what was printed,
/// or the report the tool ends with (after what was printed before).
pub open spec fn spec_replay(s: Settings, log: Seq<(Channel, Seq<char>)>, evs: Seq<SpecEvent>) -> Result<
    (Settings, Seq<(Channel, Seq<char>)>),
    SpecReport,
>
    decreases evs.len(),
{
    if evs.len() == 0 {
        Ok((s, log))
    } else {
        match spec_apply(s, evs[0]) {
            Ok((n, out)) => spec_replay(n, log + out, evs.drop_first()),
            Err(r) => Err(SpecReport { code: r.code, messages: log + r.messages }),
        }
    }
}

fn warning(w: &mut Warnings, a: &str) -> (ok: bool)
    ensures
        match spec_warning(*old(w), a@) {
            Some(n) => ok && *final(w) == n,
            None => !ok,
        },
{
    if str_eq(a, "error") {
        w.treat_warnings_as_errors = true;
    } else if str_eq(a, "all") {
        w.warn_one_sided_flags = true;
        w.warn_everything = true;
        w.warn_missing_lexicons = true;
        w.warn_unused_lexicons = true;
        w.warn_repeated_lexicons = true;
        w.warn_missing_alphabets = true;
        w.warn_unnecessary_escapes = true;
    } else if str_eq(a, "one-sided-flags") {
        w.warn_one_sided_flags = true;
    } else if str_eq(a, "no-one-sided-flags") {
        w.warn_one_sided_flags = false;
    } else if str_eq(a, "unused-lexicons") {
        w.warn_unused_lexicons = true;
    } else if str_eq(a, "no-unused-lexicons") {
        w.warn_unused_lexicons = false;
    } else if str_eq(a, "repeated-lexicons") {
        w.warn_repeated_lexicons = true;
    } else if str_eq(a, "no-repeated-lexicons") {
        w.warn_repeated_lexicons = false;
    } else if str_eq(a, "missing-lexicons") {
        w.warn_missing_lexicons = true;
    } else if str_eq(a, "no-missing-lexicons") {
        w.warn_missing_lexicons = false;
    } else if str_eq(a, "missing-alphabets") {
        w.warn_missing_alphabets = true;
    } else if str_eq(a, "no-missing-alphabets") {
        w.warn_missing_alphabets = false;
    } else if str_eq(a, "unnecessary-escapes") {
        w.warn_unnecessary_escapes = true;
    } else if str_eq(a, "no-unnecessary-escapes") {
        w.warn_unnecessary_escapes = false;
    } else {
        return false;
    }
    true
}

fn push_message(log: &mut Vec<Message>, m: Message)
    ensures
        messages_view(final(log)@) == messages_view(old(log)@).push(m@),
{
    let ghost before = messages_view(log@);
    let ghost mv = m@;
    log.push(m);
    assert(messages_view(log@) =~= before.push(mv));
}

fn fail_after(log: &mut Vec<Message>, text: String) -> (r: Report)
    ensures
        r@ == (SpecReport { code: 1, messages: messages_view(old(log)@) + seq![(Channel::Stderr, text@)] }),
{
    let ghost before = messages_view(log@);
    let ghost tv = text@;
    let mut messages: Vec<Message> = Vec::new();
    std::mem::swap(&mut messages, log);
    messages.push(to_stderr(text));
    let r = Report { code: 1, messages };
    assert(r@.messages =~= before + seq![(Channel::Stderr, tv)]);
    r
}

fn apply(s: &mut Settings, log: &mut Vec<Message>, e: &Event) -> (r: Option<Report>)
    ensures
        match spec_apply(*old(s), e@) {
            Ok((n, out)) => r is None && *final(s) == n && messages_view(final(log)@) == messages_view(old(log)@) + out,
            Err(x) => r matches Some(y) && y@ == (SpecReport { code: x.code, messages: messages_view(old(log)@) + x.messages }),
        },
{
    let ghost before = messages_view(log@);
    match e {
        Event::Format(f) => {
            s.format = *f;
            assert(messages_view(log@) =~= before + Seq::<(Channel, Seq<char>)>::empty());
            None
        },
        Event::XeroxComposition(a) => {
            let t = a.as_str();
            if str_eq(t, "yes") || str_eq(t, "true") || str_eq(t, "ON") {
                s.xerox_composition = true;
            } else if str_eq(t, "no") || str_eq(t, "false") || str_eq(t, "OFF") {
                s.xerox_composition = false;
            } else {
                return Some(fail_after(log, concat3("Error: unknown option to --xerox-composition: '", t, "'\n")));
            }
            assert(messages_view(log@) =~= before + Seq::<(Channel, Seq<char>)>::empty());
            None
        },
        Event::Xfst(a) => {
            let t = a.as_str();
            if str_eq(t, "flag-is-epsilon") {
                s.flag_is_epsilon = true;
            } else {
                return Some(fail_after(log, concat3("Error: unknown option to --xfst: '", t, "'\n")));
            }
            assert(messages_view(log@) =~= before + Seq::<(Channel, Seq<char>)>::empty());
            None
        },
        Event::WerrorDeprecated => {
            s.warnings.treat_warnings_as_errors = true;
            s.warnings.warn_one_sided_flags = true;
            s.warnings.warn_missing_lexicons = true;
            s.warnings.warn_unused_lexicons = true;
            s.warnings.warn_repeated_lexicons = true;
            s.warnings.warn_unnecessary_escapes = false;
            s.warnings.warn_missing_alphabets = false;
            push_message(log, to_stderr("Warning: --Werror is deprecated, use -Werror -Wall instead\n".to_owned()));
            assert(messages_view(log@) =~= before + seq![(Channel::Stderr, "Warning: --Werror is deprecated, use -Werror -Wall instead\n"@)]);
            None
        },
        Event::Warning(a) => {
            let t = a.as_str();
            if !warning(&mut s.warnings, t) {
                return Some(fail_after(log, concat3("Unknown warning option ", t, "\n")));
            }
            assert(messages_view(log@) =~= before + Seq::<(Channel, Seq<char>)>::empty());
            None
        },
    }
}

impl Args {
    /// Replays the checked options in the order they were given: the
    /// settings and what the replay printed, or the report the tool ends
    /// with.
    pub fn resolve(&self) -> (r: Result<(Settings, Vec<Message>), Report>)
        ensures
            match (r, spec_replay(spec_initial(self), seq![], events_view(self.events@))) {
                (Ok((s, log)), Ok((t, l))) => s == t && messages_view(log@) == l,
                (Err(x), Err(y)) => x@ == y,
                _ => false,
            },
    {
        let ghost ev = events_view(self.events@);
        let mut s = Settings {
            format: FormatType::Unspecified,
            align_strings: self.align_strings,
            with_flags: self.with_flags,
            minimize_flags: self.minimize_flags,
            rename_flags: self.rename_flags,
            xerox_composition: true,
            encode_weights: self.encode_weights,
            flag_is_epsilon: false,
            split_characters: self.split_characters,
            warnings: Warnings {
                treat_warnings_as_errors: false,
                warn_everything: false,
                warn_missing_lexicons: false,
                warn_unused_lexicons: false,
                warn_repeated_lexicons: false,
                warn_one_sided_flags: false,
                warn_missing_alphabets: false,
                warn_unnecessary_escapes: false,
            },
        };
        let mut log: Vec<Message> = Vec::new();
        assert(messages_view(log@) =~= Seq::<(Channel, Seq<char>)>::empty());
        let mut i: usize = 0;
        assert(ev.subrange(0, ev.len() as int) =~= ev);
        while i < self.events.len()
            invariant
                ev == events_view(self.events@),
                i <= self.events@.len(),
                spec_replay(spec_initial(self), seq![], ev) == spec_replay(
                    s,
                    messages_view(log@),
                    ev.subrange(i as int, ev.len() as int),
                ),
            decreases self.events@.len() - i,
        {
            let ghost rest = ev.subrange(i as int, ev.len() as int);
            assert(rest[0] == self.events@[i as int]@);
            assert(rest.drop_first() =~= ev.subrange(i + 1, ev.len() as int));
            if let Some(r) = apply(&mut s, &mut log, &self.events[i]) {
                return Err(r);
            }
            i = i + 1;
        }
        assert(ev.subrange(self.events@.len() as int, ev.len() as int) =~= Seq::<SpecEvent>::empty());
        Ok((s, log))
    }
}

// ---------------------------------------------------------------------------
// After the replay
// ---------------------------------------------------------------------------

/// The lexc files to read: the operands, `-` standing for the standard
/// input; the standard input alone when there is none.
pub open spec fn spec_lexc_files(infiles: Seq<Seq<char>>) -> Seq<Seq<char>> {
    if infiles.len() == 0 {
        seq!["<stdin>"@]
    } else {
        infiles.map_values(|n: Seq<char>| if n == "-"@ { "<stdin>"@ } else { n })
    }
}

/// The lexc files to read.
pub fn lexc_files(infiles: &Vec<String>) -> (v: Vec<String>)
    ensures
        strings_view(v@) == spec_lexc_files(strings_view(infiles@)),
{
    let ghost iv = strings_view(infiles@);
    let mut v: Vec<String> = Vec::new();
    if infiles.len() == 0 {
        v.push("<stdin>".to_owned());
        assert(strings_view(v@) =~= seq!["<stdin>"@]);
        return v;
    }
    let mut i: usize = 0;
    while i < infiles.len()
        invariant
            iv == strings_view(infiles@),
            i <= infiles@.len(),
            infiles@.len() > 0,
            strings_view(v@) == iv.subrange(0, i as int).map_values(|n: Seq<char>| if n == "-"@ { "<stdin>"@ } else { n }),
        decreases infiles@.len() - i,
    {
        let ghost before = strings_view(v@);
        let name = if str_eq(infiles[i].as_str(), "-") { "<stdin>".to_owned() } else { infiles[i].clone() };
        let ghost nv = name@;
        v.push(name);
        assert(iv[i as int] == infiles@[i as int]@);
        assert(strings_view(v@) =~= before.push(nv));
        assert(strings_view(v@) =~= iv.subrange(0, i + 1).map_values(|n: Seq<char>| if n == "-"@ { "<stdin>"@ } else { n }));
        i = i + 1;
    }
    assert(iv.subrange(0, iv.len() as int) =~= iv);
    v
}

/// The warning when no format was given.
pub open spec fn default_format_warning() -> Seq<char> {
    "Defaulting to OpenFst tropical type"@
}

/// `Reading from ` and each file name followed by a comma and a space.
pub open spec fn spec_reading_prefix(files: Seq<Seq<char>>) -> Seq<char>
    decreases files.len(),
{
    if files.len() == 0 {
        "Reading from "@
    } else {
        spec_reading_prefix(files.drop_last()) + files.last() + ", "@
    }
}

/// The verbose line naming the inputs and the output.
pub fn reading_from(files: &Vec<String>, output: &str) -> (s: String)
    ensures
        s@ == spec_reading_prefix(strings_view(files@)) + "writing to "@ + output@ + "\n"@,
{
    let ghost fv = strings_view(files@);
    let mut s = "Reading from ".to_owned();
    let mut i: usize = 0;
    while i < files.len()
        invariant
            fv == strings_view(files@),
            i <= files@.len(),
            s@ == spec_reading_prefix(fv.subrange(0, i as int)),
        decreases files@.len() - i,
    {
        s.append(files[i].as_str());
        s.append(", ");
        assert(fv.subrange(0, i + 1).drop_last() =~= fv.subrange(0, i as int));
        assert(fv[i as int] == files@[i as int]@);
        i = i + 1;
    }
    assert(fv.subrange(0, fv.len() as int) =~= fv);
    s.append("writing to ");
    s.append(output);
    s.append("\n");
    s
}

/// What hfst-lexc compiles with, and what it prints before it opens its
/// files: the replay's messages, then the warning when no format was given.
pub struct Plan {
    pub settings: Settings,
    pub files: Vec<String>,
    pub messages: Vec<Message>,
}

/// What hfst-lexc decides before it opens its files: the settings (the
/// format defaults to tropical OpenFst, with a warning unless quiet), the
/// files to read, and what it printed; or the report it ends with.
pub open spec fn spec_run(c: crate::common::SpecCommon, a: &Args) -> Result<
    (Settings, Seq<Seq<char>>, Seq<(Channel, Seq<char>)>),
    SpecReport,
> {
    match spec_replay(spec_initial(a), seq![], events_view(a.events@)) {
        Err(r) => Err(r),
        Ok((s, log)) => if s.format == FormatType::Unspecified {
            Ok(
                (
                    Settings { format: FormatType::TropicalOpenfst, ..s },
                    spec_lexc_files(strings_view(a.infiles@)),
                    log + (if !c.silent {
                        seq![(Channel::Stderr, spec_diagnostic(c.program_name, default_format_warning()))]
                    } else {
                        seq![]
                    }),
                ),
            )
        } else {
            Ok((s, spec_lexc_files(strings_view(a.infiles@)), log))
        },
    }
}

/// Decides what hfst-lexc compiles with from its settings and arguments.
pub fn run(common: &CommonOptions, args: &Args) -> (r: Result<Plan, Report>)
    ensures
        match (r, spec_run(common@, args)) {
            (Ok(p), Ok((s, f, l))) => p.settings == s && strings_view(p.files@) == f && messages_view(p.messages@) == l,
            (Err(x), Err(y)) => x@ == y,
            _ => false,
        },
{
    let (mut settings, mut messages) = match args.resolve() {
        Ok(x) => x,
        Err(r) => {
            return Err(r);
        },
    };
    if settings.format == FormatType::Unspecified {
        if !common.silent {
            push_message(&mut messages, diagnostic(common, "Defaulting to OpenFst tropical type"));
        }
        settings.format = FormatType::TropicalOpenfst;
    }
    let files = lexc_files(&args.infiles);
    Ok(Plan { settings, files, messages })
}

/// How much the compiler reports: nothing when quiet, more when verbose.
pub open spec fn spec_verbosity(silent: bool, verbose: bool) -> u8 {
    if silent { 0 } else if verbose { 2 } else { 1 }
}

/// How much the compiler reports.
pub fn verbosity(common: &CommonOptions) -> (v: u8)
    ensures
        v == spec_verbosity(common.silent, common.verbose),
{
    if common.silent {
        0
    } else if common.verbose {
        2
    } else {
        1
    }
}

/// The line listing the warning switches in force, printed on the
/// standard output when verbose and not quiet.
pub open spec fn spec_warning_settings(w: Warnings) -> Seq<char> {
    "Warning settings: "@ + (if w.treat_warnings_as_errors { " -Werror (fail on all warnings)"@ } else { ""@ })
        + (if w.warn_one_sided_flags { " -Wone-sided-flags"@ } else { ""@ })
        + (if w.warn_unused_lexicons { " -Wunused-lexicons"@ } else { ""@ })
        + (if w.warn_repeated_lexicons { " -Wrepeated-lexicons"@ } else { ""@ })
        + (if w.warn_missing_lexicons { " -Wmissing-lexicons"@ } else { ""@ })
        + (if w.warn_missing_alphabets { " -Wmissing-alphabets"@ } else { ""@ })
        + (if w.warn_unnecessary_escapes { " -Wunnecessary-escapes"@ } else { ""@ }) + "\n"@
}

/// What the tool prints as the compiler is set up: the warning switches
/// (verbose, not quiet) and the character-splitting warning (`-9`).
pub open spec fn spec_setup_messages(silent: bool, verbose: bool, s: Settings) -> Seq<(Channel, Seq<char>)> {
    (if !silent && verbose { seq![(Channel::Stdout, spec_warning_settings(s.warnings))] } else { seq![] }) + (
    if s.split_characters {
        seq![(Channel::Stderr, "Warningn: Disabling unicode character tokenisation\n"@)]
    } else {
        seq![]
    })
}

fn warning_settings(w: &Warnings) -> (s: String)
    ensures
        s@ == spec_warning_settings(*w),
{
    let mut s = "Warning settings: ".to_owned();
    s.append(if w.treat_warnings_as_errors { " -Werror (fail on all warnings)" } else { "" });
    s.append(if w.warn_one_sided_flags { " -Wone-sided-flags" } else { "" });
    s.append(if w.warn_unused_lexicons { " -Wunused-lexicons" } else { "" });
    s.append(if w.warn_repeated_lexicons { " -Wrepeated-lexicons" } else { "" });
    s.append(if w.warn_missing_lexicons { " -Wmissing-lexicons" } else { "" });
    s.append(if w.warn_missing_alphabets { " -Wmissing-alphabets" } else { "" });
    s.append(if w.warn_unnecessary_escapes { " -Wunnecessary-escapes" } else { "" });
    s.append("\n");
    s
}

/// What the tool prints as the compiler is set up.
pub fn setup_messages(common: &CommonOptions, s: &Settings) -> (m: Vec<Message>)
    ensures
        messages_view(m@) == spec_setup_messages(common.silent, common.verbose, *s),
{
    let mut m: Vec<Message> = Vec::new();
    assert(messages_view(m@) =~= Seq::<(Channel, Seq<char>)>::empty());
    if !common.silent && common.verbose {
        push_message(&mut m, to_stdout(warning_settings(&s.warnings)));
    }
    if s.split_characters {
        push_message(&mut m, to_stderr("Warningn: Disabling unicode character tokenisation\n".to_owned()));
    }
    assert(messages_view(m@) =~= spec_setup_messages(common.silent, common.verbose, *s));
    m
}

/// The failure when the lexicon does not compile: it names the first file,
/// as a plural with an ellipsis when there are several.
pub open spec fn spec_compile_failure(files: Seq<Seq<char>>) -> Seq<char> {
    (if files.len() == 1 { "The file "@ } else { "The files "@ }) + files[0]
        + (if files.len() == 1 { ""@ } else { "..."@ })
        + " did not compile cleanly.\n(if there are no error messages above, try -v or -d to get more info)"@
}

/// The failure when the lexicon does not compile.
pub fn compile_failure(files: &Vec<String>) -> (s: String)
    requires
        files@.len() > 0,
    ensures
        s@ == spec_compile_failure(strings_view(files@)),
{
    assert(strings_view(files@)[0] == files@[0]@);
    let mut s = if files.len() == 1 { "The file ".to_owned() } else { "The files ".to_owned() };
    s.append(files[0].as_str());
    s.append(if files.len() == 1 { "" } else { "..." });
    s.append(" did not compile cleanly.\n(if there are no error messages above, try -v or -d to get more info)");
    s
}

/// The verbose line announcing one lexc file.
pub fn parsing_file(name: &str) -> (s: String)
    ensures
        s@ == "Parsing lexc file "@ + name@ + "\n"@,
{
    concat3("Parsing lexc file ", name, "\n")
}

} // verus!
