//! hfst-info: show or test the build's version and features. The tool reads
//! no transducers; everything it does is decided here.

use vstd::prelude::*;
use crate::common::{
    Channel, CommonOptions, Message, Report, SpecReport, messages_view, spec_diagnostic, diagnostic, initial_common,
    to_stderr, to_stdout, argv0, spec_argv0,
};
use crate::getopt::{
    HasArg, LongOpt, OptEvent, SpecEvent, SpecLongOpt, args_view, events_view, scan, spec_scan,
    table_view,
};
use crate::sorted::{lemma_ordered_set, ordered_set, spec_ordered_set, strings_view};
use crate::text::{concat2, concat3, int_text, spec_int_text, str_eq};
use crate::version::{
    all_digits, digits_value, parse_version_string, spec_parse_version, spec_version_error,
    version_component,
};

verus! {

/// What the build is: its version string and components, and whether it
/// carries the foma backend.
pub struct Build {
    pub version: String,
    pub major: String,
    pub minor: String,
    pub patch: String,
    pub foma: bool,
}

/// The build's version components are runs of digits whose packed form
/// fits an `i64`.
pub open spec fn build_ok(b: &Build) -> bool {
    &&& all_digits(b.major@)
    &&& all_digits(b.minor@)
    &&& all_digits(b.patch@)
    &&& digits_value(b.major@) * 100000000 + digits_value(b.minor@) * 10000 + digits_value(b.patch@)
        <= i64::MAX
}

/// The build's packed version, `major*10^8 + minor*10^4 + patch`.
pub open spec fn spec_long_version(b: &Build) -> int {
    (digits_value(b.major@) * 100000000 + digits_value(b.minor@) * 10000 + digits_value(b.patch@)) as int
}

/// The build's packed version.
pub fn long_version(b: &Build) -> (v: i64)
    requires
        build_ok(b),
    ensures
        v == spec_long_version(b),
{
    let major = version_component(b.major.as_str());
    let minor = version_component(b.minor.as_str());
    let patch = version_component(b.patch.as_str());
    major * 10000 * 10000 + minor * 10000 + patch
}

/// One backend, as `-f` tests it and the listing reports it.
pub struct Feature {
    pub label: String,
    pub names: Vec<String>,
    pub present: bool,
}

/// The model of a [`Feature`].
pub struct SpecFeature {
    pub label: Seq<char>,
    pub names: Seq<Seq<char>>,
    pub present: bool,
}

impl View for Feature {
    type V = SpecFeature;

    open spec fn view(&self) -> SpecFeature {
        SpecFeature { label: self.label@, names: strings_view(self.names@), present: self.present }
    }
}

pub open spec fn features_view(f: Seq<Feature>) -> Seq<SpecFeature> {
    f.map_values(|x: Feature| x@)
}

/// The backends, in listing order, with every spelling `-f` accepts.
pub open spec fn spec_features(foma: bool) -> Seq<SpecFeature> {
    seq![
        SpecFeature { label: "OpenFst (tropical)"@, names: seq!["openfst"@, "OPENFST"@, "HAVE_OPENFST"@], present: true },
        SpecFeature { label: "foma"@, names: seq!["foma"@, "FOMA"@, "HAVE_FOMA"@], present: foma },
        SpecFeature { label: "Unicode (ICU)"@, names: seq!["icu"@, "ICU"@, "USE_ICU_UNICODE"@], present: true },
        SpecFeature { label: "OpenFst (log)"@, names: seq!["openfst-log"@, "OPENFST_LOG"@, "HAVE_OPENFST_LOG"@], present: false },
        SpecFeature { label: "SFST"@, names: seq!["sfst"@, "SFST"@, "HAVE_SFST"@], present: false },
        SpecFeature { label: "xfsm"@, names: seq!["xfsm"@, "XFSM"@, "HAVE_XFSM"@], present: false },
    ]
}

fn names3(a: &str, b: &str, c: &str) -> (v: Vec<String>)
    ensures
        strings_view(v@) == seq![a@, b@, c@],
{
    let mut v: Vec<String> = Vec::new();
    v.push(a.to_owned());
    v.push(b.to_owned());
    v.push(c.to_owned());
    assert(strings_view(v@) =~= seq![a@, b@, c@]);
    v
}

fn feature(label: &str, a: &str, b: &str, c: &str, present: bool) -> (f: Feature)
    ensures
        f@ == (SpecFeature { label: label@, names: seq![a@, b@, c@], present }),
{
    Feature { label: label.to_owned(), names: names3(a, b, c), present }
}

/// The backend table of a build.
pub fn features(foma: bool) -> (t: Vec<Feature>)
    ensures
        features_view(t@) == spec_features(foma),
{
    let mut t: Vec<Feature> = Vec::new();
    t.push(feature("OpenFst (tropical)", "openfst", "OPENFST", "HAVE_OPENFST", true));
    t.push(feature("foma", "foma", "FOMA", "HAVE_FOMA", foma));
    t.push(feature("Unicode (ICU)", "icu", "ICU", "USE_ICU_UNICODE", true));
    t.push(feature("OpenFst (log)", "openfst-log", "OPENFST_LOG", "HAVE_OPENFST_LOG", false));
    t.push(feature("SFST", "sfst", "SFST", "HAVE_SFST", false));
    t.push(feature("xfsm", "xfsm", "XFSM", "HAVE_XFSM", false));
    assert(features_view(t@) =~= spec_features(foma));
    t
}

/// The first backend, from `k` on, that `name` spells.
pub open spec fn find_feature(t: Seq<SpecFeature>, name: Seq<char>, k: int) -> Option<int>
    decreases t.len() - k,
{
    if k < 0 || k >= t.len() {
        None
    } else if t[k].names.contains(name) {
        Some(k)
    } else {
        find_feature(t, name, k + 1)
    }
}

fn names_contain(names: &Vec<String>, name: &str) -> (r: bool)
    ensures
        r == strings_view(names@).contains(name@),
{
    let mut k: usize = 0;
    while k < names.len()
        invariant
            k <= names@.len(),
            forall|j: int| 0 <= j < k ==> names@[j]@ != name@,
        decreases names@.len() - k,
    {
        if str_eq(names[k].as_str(), name) {
            assert(strings_view(names@)[k as int] == name@);
            return true;
        }
        k = k + 1;
    }
    assert forall|j: int| 0 <= j < strings_view(names@).len() implies strings_view(names@)[j] != name@ by {
        assert(strings_view(names@)[j] == names@[j]@);
    }
    false
}

/// The backend that `name` spells, if any.
pub fn find_feature_exec(t: &Vec<Feature>, name: &str) -> (r: Option<usize>)
    ensures
        find_feature(features_view(t@), name@, 0) == match r {
            Some(k) => Some(k as int),
            None => None::<int>,
        },
        r matches Some(k) ==> k < t@.len(),
{
    let ghost tv = features_view(t@);
    let mut k: usize = 0;
    while k < t.len()
        invariant
            tv == features_view(t@),
            k <= t@.len(),
            find_feature(tv, name@, 0) == find_feature(tv, name@, k as int),
        decreases t@.len() - k,
    {
        assert(tv[k as int] == t@[k as int]@);
        if names_contain(&t[k].names, name) {
            return Some(k);
        }
        k = k + 1;
    }
    None
}

// ---------------------------------------------------------------------------
// Options
// ---------------------------------------------------------------------------

/// hfst-info's own options: the three version requirements (-1 when not
/// given) and the required features, as given.
pub struct Options {
    pub min_version: i64,
    pub exact_version: i64,
    pub max_version: i64,
    pub required_features: Vec<String>,
}

/// The model of [`Options`].
pub struct SpecOptions {
    pub min_version: i64,
    pub exact_version: i64,
    pub max_version: i64,
    pub required_features: Seq<Seq<char>>,
}

impl View for Options {
    type V = SpecOptions;

    open spec fn view(&self) -> SpecOptions {
        SpecOptions {
            min_version: self.min_version,
            exact_version: self.exact_version,
            max_version: self.max_version,
            required_features: strings_view(self.required_features@),
        }
    }
}

pub open spec fn spec_default_options() -> SpecOptions {
    SpecOptions { min_version: -1i64, exact_version: -1i64, max_version: -1i64, required_features: seq![] }
}

/// The options hfst-info starts from: no requirement.
pub fn default_options() -> (o: Options)
    ensures
        o@ == spec_default_options(),
{
    let o = Options { min_version: -1, exact_version: -1, max_version: -1, required_features: Vec::new() };
    assert(o@.required_features =~= Seq::<Seq<char>>::empty());
    o
}

/// The option table: the shared options, then `-a -e -m -f`.
pub open spec fn spec_info_table() -> Seq<SpecLongOpt> {
    seq![
        SpecLongOpt { name: "debug"@, has_arg: HasArg::No, val: 'd' },
        SpecLongOpt { name: "help"@, has_arg: HasArg::No, val: 'h' },
        SpecLongOpt { name: "version"@, has_arg: HasArg::No, val: 'V' },
        SpecLongOpt { name: "verbose"@, has_arg: HasArg::No, val: 'v' },
        SpecLongOpt { name: "quiet"@, has_arg: HasArg::No, val: 'q' },
        SpecLongOpt { name: "silent"@, has_arg: HasArg::No, val: 's' },
        SpecLongOpt { name: "atleast-version"@, has_arg: HasArg::Required, val: 'a' },
        SpecLongOpt { name: "exact-version"@, has_arg: HasArg::Required, val: 'e' },
        SpecLongOpt { name: "max-version"@, has_arg: HasArg::Required, val: 'm' },
        SpecLongOpt { name: "require-feature"@, has_arg: HasArg::Required, val: 'f' },
    ]
}

/// hfst-info's option table.
pub fn info_table() -> (t: Vec<LongOpt>)
    ensures
        table_view(t@) == spec_info_table(),
{
    let mut t: Vec<LongOpt> = Vec::new();
    t.push(crate::common::opt("debug", HasArg::No, 'd'));
    t.push(crate::common::opt("help", HasArg::No, 'h'));
    t.push(crate::common::opt("version", HasArg::No, 'V'));
    t.push(crate::common::opt("verbose", HasArg::No, 'v'));
    t.push(crate::common::opt("quiet", HasArg::No, 'q'));
    t.push(crate::common::opt("silent", HasArg::No, 's'));
    t.push(crate::common::opt("atleast-version", HasArg::Required, 'a'));
    t.push(crate::common::opt("exact-version", HasArg::Required, 'e'));
    t.push(crate::common::opt("max-version", HasArg::Required, 'm'));
    t.push(crate::common::opt("require-feature", HasArg::Required, 'f'));
    assert(table_view(t@) =~= spec_info_table());
    t
}

/// The usage text of hfst-info.
pub open spec fn spec_usage(program_name: Seq<char>) -> Seq<char> {
    "Usage: "@ + program_name + " [OPTIONS...] [INFILE]\nshow or test HFST versions and features\n\n"@
        + crate::common::spec_common_options_help()
        + "Test features:\n  -a, --atleast-version=MVER   require at least MVER version of HFST\n  -e, --exact-version=EVER     require exactly EVER version of HFST\n  -m, --max-version=UVER       require at most UVER version of HFST\n  -f, --requirefeature=FEAT    require named FEAT support from HFST\n\nMVER, EVER or UVER version vectors must be composed of one to three full stop separated runs of digits,\nand are compared against this build's own version, not against upstream HFST's.\nFEAT should be name of feature supported by HFST, such as openfst, foma or icu\n\n"@
}

/// The usage text of hfst-info.
pub fn print_usage(common: &CommonOptions) -> (s: String)
    ensures
        s@ == spec_usage(common.program_name@),
{
    let mut s = concat3("Usage: ", common.program_name.as_str(), " [OPTIONS...] [INFILE]\nshow or test HFST versions and features\n\n");
    s.append(crate::common::common_options_help().as_str());
    s.append("Test features:\n  -a, --atleast-version=MVER   require at least MVER version of HFST\n  -e, --exact-version=EVER     require exactly EVER version of HFST\n  -m, --max-version=UVER       require at most UVER version of HFST\n  -f, --requirefeature=FEAT    require named FEAT support from HFST\n\nMVER, EVER or UVER version vectors must be composed of one to three full stop separated runs of digits,\nand are compared against this build's own version, not against upstream HFST's.\nFEAT should be name of feature supported by HFST, such as openfst, foma or icu\n\n");
    s
}

/// The version this tool reports with `-V`.
pub open spec fn tool_version() -> Seq<char> {
    "0.1"@
}

/// What one option event does: new options, or the report the tool ends
/// with (`-h`, `-V`, an unreadable version vector).
pub open spec fn spec_step(program_name: Seq<char>, o: SpecOptions, e: SpecEvent) -> Result<SpecOptions, SpecReport> {
    match e {
        SpecEvent::Opt { val, arg } => {
            let a = arg.unwrap_or(Seq::empty());
            if val == 'a' || val == 'e' || val == 'm' {
                match spec_parse_version(a) {
                    Ok(v) => Ok(if val == 'a' {
                        SpecOptions { min_version: v, ..o }
                    } else if val == 'e' {
                        SpecOptions { exact_version: v, ..o }
                    } else {
                        SpecOptions { max_version: v, ..o }
                    }),
                    Err(rest) => Err(SpecReport { code: 1, messages: seq![(Channel::Stderr, spec_diagnostic(program_name, spec_version_error(rest)))] }),
                }
            } else if val == 'f' {
                Ok(SpecOptions { required_features: o.required_features.push(a), ..o })
            } else if val == 'h' {
                Err(SpecReport { code: 0, messages: seq![(Channel::Stdout, spec_usage(program_name))] })
            } else if val == 'V' {
                Err(SpecReport { code: 0, messages: seq![(Channel::Stdout, crate::common::spec_version_text(program_name, tool_version()))] })
            } else {
                Ok(o)
            }
        },
        _ => Ok(o),
    }
}

/// The options after the events `evs`, or the report the tool ends with.
pub open spec fn spec_parse(program_name: Seq<char>, o: SpecOptions, evs: Seq<SpecEvent>) -> Result<SpecOptions, SpecReport>
    decreases evs.len(),
{
    if evs.len() == 0 {
        Ok(o)
    } else {
        match spec_step(program_name, o, evs[0]) {
            Ok(n) => spec_parse(program_name, n, evs.drop_first()),
            Err(r) => Err(r),
        }
    }
}

fn step(common: &CommonOptions, o: Options, e: &OptEvent) -> (r: Result<Options, Report>)
    ensures
        match (r, spec_step(common.program_name@, o@, e@)) {
            (Ok(x), Ok(y)) => x@ == y,
            (Err(x), Err(y)) => x@ == y,
            _ => false,
        },
{
    match e {
        OptEvent::Opt { val, arg } => {
            let a = match arg {
                Some(s) => s.clone(),
                None => String::new(),
            };
            let v = *val;
            if v == 'a' || v == 'e' || v == 'm' {
                match parse_version_string(a.as_str()) {
                    Ok(x) => {
                        if v == 'a' {
                            Ok(Options { min_version: x, ..o })
                        } else if v == 'e' {
                            Ok(Options { exact_version: x, ..o })
                        } else {
                            Ok(Options { max_version: x, ..o })
                        }
                    },
                    Err(rest) => {
                        let text = concat2("cannot parse version string from ", rest.as_str());
                        Err(crate::common::fail_with(common, text.as_str()))
                    },
                }
            } else if v == 'f' {
                let mut o = o;
                let ghost before = strings_view(o.required_features@);
                let ghost av = a@;
                o.required_features.push(a);
                assert(strings_view(o.required_features@) =~= before.push(av));
                Ok(o)
            } else if v == 'h' {
                Err(crate::common::end_with(0, to_stdout(print_usage(common))))
            } else if v == 'V' {
                Err(crate::common::end_with(0, to_stdout(crate::common::version_text(common, "0.1"))))
            } else {
                Ok(o)
            }
        },
        _ => Ok(o),
    }
}

/// Reads hfst-info's options from the events; `Err` is the report the tool
/// ends with.
pub fn parse_options(common: &CommonOptions, evs: &Vec<OptEvent>) -> (r: Result<Options, Report>)
    ensures
        match (r, spec_parse(common.program_name@, spec_default_options(), events_view(evs@))) {
            (Ok(x), Ok(y)) => x@ == y,
            (Err(x), Err(y)) => x@ == y,
            _ => false,
        },
{
    let ghost ev = events_view(evs@);
    let mut o = default_options();
    let mut i: usize = 0;
    assert(ev.subrange(0, ev.len() as int) =~= ev);
    while i < evs.len()
        invariant
            ev == events_view(evs@),
            i <= evs@.len(),
            spec_parse(common.program_name@, spec_default_options(), ev) == spec_parse(
                common.program_name@,
                o@,
                ev.subrange(i as int, ev.len() as int),
            ),
        decreases evs@.len() - i,
    {
        let ghost rest = ev.subrange(i as int, ev.len() as int);
        assert(rest[0] == evs@[i as int]@);
        assert(rest.drop_first() =~= ev.subrange(i + 1, ev.len() as int));
        match step(common, o, &evs[i]) {
            Ok(n) => {
                o = n;
            },
            Err(r) => {
                return Err(r);
            },
        }
        i = i + 1;
    }
    Ok(o)
}

// ---------------------------------------------------------------------------
// Checking the requirements
// ---------------------------------------------------------------------------

/// The name the package goes by.
pub open spec fn package_name() -> Seq<char> {
    "Divvun HFST"@
}

/// The refusal when a version requirement fails.
pub open spec fn spec_not_met(version: Seq<char>, long: int) -> Seq<char> {
    "Version requirements not met: this is "@ + package_name() + " "@ + version + " (long version "@
        + spec_int_text(long)
        + "), an independent fork that does not carry an upstream HFST version"@
}

/// The refusal when a version requirement fails.
pub fn version_requirements_not_met(common: &CommonOptions, b: &Build, long: i64) -> (m: Message)
    ensures
        m@ == (Channel::Stderr, spec_diagnostic(common.program_name@, spec_not_met(b.version@, long as int))),
{
    let mut t = concat3("Version requirements not met: this is ", "Divvun HFST", " ");
    t.append(b.version.as_str());
    t.append(" (long version ");
    t.append(int_text(long).as_str());
    t.append("), an independent fork that does not carry an upstream HFST version");
    diagnostic(common, t.as_str())
}

/// The verbose line announcing a version requirement.
pub open spec fn spec_requiring(long: int, relation: Seq<char>, req: int) -> Seq<char> {
    "Requiring current version "@ + spec_int_text(long) + " to be "@ + relation + " "@ + spec_int_text(req) + "\n"@
}

/// One version requirement: `Err` is the failure report, after what was
/// already written.
pub open spec fn spec_gate(
    log: Seq<(Channel, Seq<char>)>,
    verbose: bool,
    program_name: Seq<char>,
    b_version: Seq<char>,
    long: int,
    req: i64,
    relation: Seq<char>,
    fails: bool,
) -> Result<Seq<(Channel, Seq<char>)>, SpecReport> {
    if req == -1 {
        Ok(log)
    } else {
        let log2 = if verbose { log.push((Channel::Stderr, spec_requiring(long, relation, req as int))) } else { log };
        if fails {
            Err(SpecReport { code: 1, messages: log2.push((Channel::Stderr, spec_diagnostic(program_name, spec_not_met(b_version, long)))) })
        } else {
            Ok(log2)
        }
    }
}

fn gate(
    common: &CommonOptions,
    b: &Build,
    log: &mut Vec<Message>,
    long: i64,
    req: i64,
    relation: &str,
    fails: bool,
) -> (r: Option<Report>)
    ensures
        match spec_gate(messages_view(old(log)@), common.verbose, common.program_name@, b.version@, long as int, req, relation@, fails) {
            Ok(l) => r is None && messages_view(final(log)@) == l,
            Err(x) => r matches Some(y) && y@ == x,
        },
{
    if req == -1 {
        return None;
    }
    let mut line = concat3("Requiring current version ", int_text(long).as_str(), " to be ");
    line.append(relation);
    line.append(" ");
    line.append(int_text(req).as_str());
    line.append("\n");
    assert(line@ == spec_requiring(long as int, relation@, req as int));
    let ghost l0 = messages_view(log@);
    crate::common::verbose_print(common, log, line);
    assert(messages_view(log@) == (if common.verbose { l0.push((Channel::Stderr, spec_requiring(long as int, relation@, req as int))) } else { l0 }));
    if fails {
        let ghost before = messages_view(log@);
        let m = version_requirements_not_met(common, b, long);
        let mut messages = Vec::new();
        std::mem::swap(&mut messages, log);
        messages.push(m);
        let r = Report { code: 1, messages };
        assert(r@.messages =~= before.push(m@));
        return Some(r);
    }
    None
}

/// The verbose line announcing a required backend.
pub open spec fn spec_requiring_feature(label: Seq<char>) -> Seq<char> {
    "Requiring "@ + label + " support from library\n"@
}

/// The refusal for a backend this build lacks.
pub open spec fn spec_not_present(label: Seq<char>) -> Seq<char> {
    "Required "@ + label + " support not present"@
}

/// The refusal for a name that spells no backend.
pub open spec fn spec_unrecognised(name: Seq<char>) -> Seq<char> {
    "Required "@ + name + " support is unrecognised and therefore assumed to be missing"@
}

/// The feature requirements `fs`, in order.
pub open spec fn spec_check_features(
    log: Seq<(Channel, Seq<char>)>,
    verbose: bool,
    program_name: Seq<char>,
    t: Seq<SpecFeature>,
    fs: Seq<Seq<char>>,
) -> Result<Seq<(Channel, Seq<char>)>, SpecReport>
    decreases fs.len(),
{
    if fs.len() == 0 {
        Ok(log)
    } else {
        match find_feature(t, fs[0], 0) {
            Some(k) => {
                let log2 = if verbose { log.push((Channel::Stderr, spec_requiring_feature(t[k].label))) } else { log };
                if !t[k].present {
                    Err(SpecReport { code: 1, messages: log2.push((Channel::Stderr, spec_diagnostic(program_name, spec_not_present(t[k].label)))) })
                } else {
                    spec_check_features(log2, verbose, program_name, t, fs.drop_first())
                }
            },
            None => Err(SpecReport { code: 1, messages: log.push((Channel::Stderr, spec_diagnostic(program_name, spec_unrecognised(fs[0])))) }),
        }
    }
}

fn take_report(log: &mut Vec<Message>, m: Message) -> (r: Report)
    ensures
        r@ == (SpecReport { code: 1, messages: messages_view(old(log)@).push(m@) }),
{
    let ghost before = messages_view(log@);
    let ghost mv = m@;
    let mut messages = Vec::new();
    std::mem::swap(&mut messages, log);
    messages.push(m);
    let r = Report { code: 1, messages };
    assert(r@.messages =~= before.push(mv));
    r
}

/// Checks the feature requirements `fs` in order, writing the verbose lines
/// to `log`; `Some` is the report the tool ends with.
pub fn check_features(
    common: &CommonOptions,
    t: &Vec<Feature>,
    log: &mut Vec<Message>,
    fs: &Vec<String>,
) -> (r: Option<Report>)
    ensures
        match spec_check_features(messages_view(old(log)@), common.verbose, common.program_name@, features_view(t@), strings_view(fs@)) {
            Ok(l) => r is None && messages_view(final(log)@) == l,
            Err(x) => r matches Some(y) && y@ == x,
        },
{
    let ghost tv = features_view(t@);
    let ghost fv = strings_view(fs@);
    let ghost start = messages_view(log@);
    let mut i: usize = 0;
    assert(fv.subrange(0, fv.len() as int) =~= fv);
    while i < fs.len()
        invariant
            tv == features_view(t@),
            fv == strings_view(fs@),
            start == messages_view(old(log)@),
            i <= fs@.len(),
            spec_check_features(start, common.verbose, common.program_name@, tv, fv) == spec_check_features(
                messages_view(log@),
                common.verbose,
                common.program_name@,
                tv,
                fv.subrange(i as int, fv.len() as int),
            ),
        decreases fs@.len() - i,
    {
        let ghost rest = fv.subrange(i as int, fv.len() as int);
        assert(rest[0] == fs@[i as int]@);
        assert(rest.drop_first() =~= fv.subrange(i + 1, fv.len() as int));
        let ghost l0 = messages_view(log@);
        match find_feature_exec(t, fs[i].as_str()) {
            Some(k) => {
                assert(tv[k as int] == t@[k as int]@);
                let line = concat3("Requiring ", t[k].label.as_str(), " support from library\n");
                assert(line@ == spec_requiring_feature(tv[k as int].label));
                crate::common::verbose_print(common, log, line);
                let ghost l2 = if common.verbose { l0.push((Channel::Stderr, spec_requiring_feature(tv[k as int].label))) } else { l0 };
                assert(messages_view(log@) == l2);
                if !t[k].present {
                    let text = concat3("Required ", t[k].label.as_str(), " support not present");
                    assert(text@ == spec_not_present(tv[k as int].label));
                    let m = diagnostic(common, text.as_str());
                    let r = take_report(log, m);
                    assert(r@ == SpecReport { code: 1, messages: l2.push((Channel::Stderr, spec_diagnostic(common.program_name@, spec_not_present(tv[k as int].label)))) });
                    assert(find_feature(tv, rest[0], 0) == Some(k as int));
                    assert(spec_check_features(l0, common.verbose, common.program_name@, tv, rest) == Err::<Seq<(Channel, Seq<char>)>, SpecReport>(r@));
                    return Some(r);
                }
            },
            None => {
                let text = concat3("Required ", fs[i].as_str(), " support is unrecognised and therefore assumed to be missing");
                assert(text@ == spec_unrecognised(rest[0]));
                let m = diagnostic(common, text.as_str());
                let r = take_report(log, m);
                assert(r@ == SpecReport { code: 1, messages: l0.push((Channel::Stderr, spec_diagnostic(common.program_name@, spec_unrecognised(rest[0])))) });
                assert(find_feature(tv, rest[0], 0) == None::<int>);
                assert(spec_check_features(l0, common.verbose, common.program_name@, tv, rest) == Err::<Seq<(Channel, Seq<char>)>, SpecReport>(r@));
                return Some(r);
            },
        }
        i = i + 1;
    }
    None
}

/// The verbose block describing the build.
pub open spec fn spec_build_block(program_name: Seq<char>, version: Seq<char>, long: int) -> Seq<char> {
    program_name + " "@ + tool_version() + "\nHFST packaging: "@ + package_name() + " "@ + version
        + "\nHFST version: "@ + version + "\nHFST long version: "@ + spec_int_text(long) + "\n"@
}

/// The verbose line for one backend.
pub open spec fn spec_feature_line(f: SpecFeature) -> Seq<char> {
    f.label + " "@ + (if f.present { "supported"@ } else { "not supported"@ }) + "\n"@
}

/// The listing of the backends, from `k` on.
pub open spec fn spec_feature_lines(t: Seq<SpecFeature>, k: int) -> Seq<(Channel, Seq<char>)>
    decreases t.len() - k,
{
    if k < 0 || k >= t.len() {
        seq![]
    } else {
        seq![(Channel::Stderr, spec_feature_line(t[k]))] + spec_feature_lines(t, k + 1)
    }
}

/// Whether no requirement was given.
pub open spec fn no_tests(o: SpecOptions) -> bool {
    o.min_version == -1 && o.max_version == -1 && o.exact_version == -1 && o.required_features.len() == 0
}

/// What hfst-info does once its options are read.
pub open spec fn spec_check(program_name: Seq<char>, o: SpecOptions, b: &Build) -> SpecReport {
    let long = spec_long_version(b);
    let verbose = no_tests(o);
    let log0: Seq<(Channel, Seq<char>)> = if verbose { seq![(Channel::Stderr, "No tests selected; printing known data\n"@)] } else { seq![] };
    match spec_gate(log0, verbose, program_name, b.version@, long, o.min_version, "at least"@, long < o.min_version) {
        Err(r) => r,
        Ok(log1) => match spec_gate(log1, verbose, program_name, b.version@, long, o.exact_version, "exactly"@, long != o.exact_version) {
            Err(r) => r,
            Ok(log2) => match spec_gate(log2, verbose, program_name, b.version@, long, o.max_version, "at most"@, long > o.max_version) {
                Err(r) => r,
                Ok(log3) => match spec_check_features(log3, verbose, program_name, spec_features(b.foma), spec_ordered_set(o.required_features)) {
                    Err(r) => r,
                    Ok(log4) => SpecReport {
                        code: 0,
                        messages: if verbose {
                            log4.push((Channel::Stderr, spec_build_block(program_name, b.version@, long))) + spec_feature_lines(spec_features(b.foma), 0)
                        } else {
                            log4
                        },
                    },
                },
            },
        },
    }
}

/// Whether the build meets a version requirement (`-1`: none given).
pub open spec fn meets(req: i64, ok: bool) -> bool {
    req == -1 || ok
}

/// The version requirements, tested in turn (at least, exactly, at most):
/// the first one the build's long version fails ends the run with code 1
/// and the "not met" diagnostic; `--exact-version` fails exactly when the
/// long version differs from it, a newer build included; a build meeting
/// every version requirement, with no feature required, ends with code 0.
pub proof fn lemma_version_requirements(program_name: Seq<char>, o: SpecOptions, b: &Build)
    ensures
        ({
            let long = spec_long_version(b);
            let r = spec_check(program_name, o, b);
            let not_met = (Channel::Stderr, spec_diagnostic(program_name, spec_not_met(b.version@, long)));
            &&& !meets(o.min_version, long >= o.min_version) ==> r.code == 1 && r.messages.last() == not_met
            &&& meets(o.min_version, long >= o.min_version) && o.exact_version != -1 && long != o.exact_version
                ==> r.code == 1 && r.messages.last() == not_met
            &&& meets(o.min_version, long >= o.min_version) && meets(o.exact_version, long == o.exact_version)
                && !meets(o.max_version, long <= o.max_version) ==> r.code == 1 && r.messages.last() == not_met
            &&& meets(o.min_version, long >= o.min_version) && meets(o.exact_version, long == o.exact_version)
                && meets(o.max_version, long <= o.max_version) && o.required_features.len() == 0 ==> r.code == 0
        }),
{
    if o.required_features.len() == 0 {
        assert(spec_ordered_set(o.required_features) =~= Seq::<Seq<char>>::empty());
    }
}

/// Whether `-f name` is met: the first backend that `name` spells is
/// present in the build.
pub open spec fn feature_met(t: Seq<SpecFeature>, name: Seq<char>) -> bool {
    exists|k: int|
        0 <= k < t.len() && #[trigger] t[k].names.contains(name) && t[k].present && forall|j: int|
            0 <= j < k ==> !t[j].names.contains(name)
}

proof fn lemma_find_feature(t: Seq<SpecFeature>, name: Seq<char>, k: int)
    requires
        0 <= k <= t.len(),
        forall|j: int| 0 <= j < k ==> !t[j].names.contains(name),
    ensures
        match find_feature(t, name, k) {
            Some(e) => k <= e < t.len() && t[e].names.contains(name) && forall|j: int| 0 <= j < e ==> !t[j].names.contains(name),
            None => forall|j: int| 0 <= j < t.len() ==> !t[j].names.contains(name),
        },
    decreases t.len() - k,
{
    if k < t.len() && !t[k].names.contains(name) {
        lemma_find_feature(t, name, k + 1);
    }
}

proof fn lemma_feature_met(t: Seq<SpecFeature>, name: Seq<char>)
    ensures
        feature_met(t, name) == match find_feature(t, name, 0) {
            Some(e) => t[e].present,
            None => false,
        },
{
    lemma_find_feature(t, name, 0);
    match find_feature(t, name, 0) {
        Some(e) => {
            if feature_met(t, name) {
                let k = choose|k: int|
                    0 <= k < t.len() && #[trigger] t[k].names.contains(name) && t[k].present && forall|j: int|
                        0 <= j < k ==> !t[j].names.contains(name);
                assert(!(k < e));
                assert(!(e < k));
            }
        },
        None => {},
    }
}

/// The feature requirements pass exactly when each named backend is met;
/// otherwise the run ends with code 1.
pub proof fn lemma_features_met(
    log: Seq<(Channel, Seq<char>)>,
    verbose: bool,
    program_name: Seq<char>,
    t: Seq<SpecFeature>,
    fs: Seq<Seq<char>>,
)
    ensures
        spec_check_features(log, verbose, program_name, t, fs) is Ok <==> forall|i: int|
            0 <= i < fs.len() ==> feature_met(t, #[trigger] fs[i]),
        spec_check_features(log, verbose, program_name, t, fs) matches Err(r) ==> r.code == 1,
    decreases fs.len(),
{
    if fs.len() > 0 {
        lemma_feature_met(t, fs[0]);
        let rest = fs.drop_first();
        match find_feature(t, fs[0], 0) {
            Some(k) => {
                let log2 = if verbose { log.push((Channel::Stderr, spec_requiring_feature(t[k].label))) } else { log };
                lemma_features_met(log2, verbose, program_name, t, rest);
                if forall|i: int| 0 <= i < fs.len() ==> feature_met(t, #[trigger] fs[i]) {
                    assert forall|i: int| 0 <= i < rest.len() implies feature_met(t, #[trigger] rest[i]) by {
                        assert(rest[i] == fs[i + 1]);
                    }
                    assert(feature_met(t, fs[0]));
                }
                if (forall|i: int| 0 <= i < rest.len() ==> feature_met(t, #[trigger] rest[i])) && t[k].present {
                    assert forall|i: int| 0 <= i < fs.len() implies feature_met(t, #[trigger] fs[i]) by {
                        if i > 0 {
                            assert(fs[i] == rest[i - 1]);
                        }
                    }
                }
            },
            None => {},
        }
    }
}

/// With every version requirement met, the run ends with code 0 exactly
/// when every backend required with `-f` is met.
pub proof fn lemma_required_features(program_name: Seq<char>, o: SpecOptions, b: &Build)
    requires
        meets(o.min_version, spec_long_version(b) >= o.min_version),
        meets(o.exact_version, spec_long_version(b) == o.exact_version),
        meets(o.max_version, spec_long_version(b) <= o.max_version),
    ensures
        spec_check(program_name, o, b).code == 0 <==> forall|i: int|
            0 <= i < o.required_features.len() ==> feature_met(spec_features(b.foma), #[trigger] o.required_features[i]),
{
    let long = spec_long_version(b);
    let verbose = no_tests(o);
    let log0: Seq<(Channel, Seq<char>)> = if verbose { seq![(Channel::Stderr, "No tests selected; printing known data\n"@)] } else { seq![] };
    let log1 = spec_gate(log0, verbose, program_name, b.version@, long, o.min_version, "at least"@, long < o.min_version)->Ok_0;
    let log2 = spec_gate(log1, verbose, program_name, b.version@, long, o.exact_version, "exactly"@, long != o.exact_version)->Ok_0;
    let log3 = spec_gate(log2, verbose, program_name, b.version@, long, o.max_version, "at most"@, long > o.max_version)->Ok_0;
    let t = spec_features(b.foma);
    let fs = spec_ordered_set(o.required_features);
    lemma_features_met(log3, verbose, program_name, t, fs);
    lemma_ordered_set(o.required_features);
    if forall|j: int| 0 <= j < o.required_features.len() ==> feature_met(t, #[trigger] o.required_features[j]) {
        assert forall|i: int| 0 <= i < fs.len() implies feature_met(t, #[trigger] fs[i]) by {
            assert(fs.to_set().contains(fs[i]));
            assert(o.required_features.to_set().contains(fs[i]));
            let j = choose|j: int| 0 <= j < o.required_features.len() && o.required_features[j] == fs[i];
            assert(feature_met(t, o.required_features[j]));
        }
    }
    if forall|i: int| 0 <= i < fs.len() ==> feature_met(t, #[trigger] fs[i]) {
        assert forall|j: int| 0 <= j < o.required_features.len() implies feature_met(t, #[trigger] o.required_features[j]) by {
            assert(o.required_features.to_set().contains(o.required_features[j]));
            assert(fs.to_set().contains(o.required_features[j]));
            let i = choose|i: int| 0 <= i < fs.len() && fs[i] == o.required_features[j];
            assert(feature_met(t, fs[i]));
        }
    }
}

/// What hfst-info does with a command line.
pub open spec fn spec_run(args: Seq<Seq<char>>, b: &Build) -> SpecReport {
    let program_name = spec_argv0(args);
    match spec_parse(program_name, spec_default_options(), spec_scan(args, spec_info_table()).0) {
        Err(r) => r,
        Ok(o) => spec_check(program_name, o, b),
    }
}

/// Appends the verbose listing of the backends to `log`.
pub fn feature_lines(t: &Vec<Feature>, log: &mut Vec<Message>)
    ensures
        messages_view(final(log)@) == messages_view(old(log)@) + spec_feature_lines(features_view(t@), 0),
{
    let ghost tv = features_view(t@);
    let ghost start = messages_view(log@);
    let mut k: usize = 0;
    while k < t.len()
        invariant
            tv == features_view(t@),
            k <= t@.len(),
            start + spec_feature_lines(tv, 0) == messages_view(log@) + spec_feature_lines(tv, k as int),
        decreases t@.len() - k,
    {
        assert(tv[k as int] == t@[k as int]@);
        let word = if t[k].present { "supported" } else { "not supported" };
        let line = concat3(t[k].label.as_str(), " ", word);
        let mut line = line;
        line.append("\n");
        let ghost before = messages_view(log@);
        let ghost lv = line@;
        log.push(to_stderr(line));
        assert(messages_view(log@) =~= before.push((Channel::Stderr, lv)));
        assert(spec_feature_lines(tv, k as int) =~= seq![(Channel::Stderr, lv)] + spec_feature_lines(tv, k + 1));
        assert(messages_view(log@) + spec_feature_lines(tv, k + 1) =~= before + spec_feature_lines(tv, k as int));
        k = k + 1;
    }
    assert(spec_feature_lines(tv, t@.len() as int) =~= Seq::<(Channel, Seq<char>)>::empty());
    assert(messages_view(log@) =~= messages_view(log@) + Seq::<(Channel, Seq<char>)>::empty());
}

/// Tests the requirements in `o` against the build `b`.
pub fn check(common: &CommonOptions, o: &Options, b: &Build) -> (r: Report)
    requires
        build_ok(b),
    ensures
        r@ == spec_check(common.program_name@, o@, b),
{
    let long = long_version(b);
    let tests = !(o.min_version == -1 && o.max_version == -1 && o.exact_version == -1 && o.required_features.len() == 0);
    let mut c = CommonOptions { program_name: common.program_name.clone(), verbose: !tests, silent: common.silent, debug: common.debug, input_filename: common.input_filename.clone(), output_filename: common.output_filename.clone(), input_named: common.input_named, output_named: common.output_named };
    let mut log: Vec<Message> = Vec::new();
    assert(messages_view(log@) =~= Seq::<(Channel, Seq<char>)>::empty());
    crate::common::verbose_print(&c, &mut log, "No tests selected; printing known data\n".to_owned());
    if let Some(r) = gate(&c, b, &mut log, long, o.min_version, "at least", long < o.min_version) {
        return r;
    }
    if let Some(r) = gate(&c, b, &mut log, long, o.exact_version, "exactly", long != o.exact_version) {
        return r;
    }
    if let Some(r) = gate(&c, b, &mut log, long, o.max_version, "at most", long > o.max_version) {
        return r;
    }
    let t = features(b.foma);
    let fs = ordered_set(&o.required_features);
    if let Some(r) = check_features(&c, &t, &mut log, &fs) {
        return r;
    }
    if c.verbose {
        let mut block = concat3(c.program_name.as_str(), " ", "0.1");
        block.append("\nHFST packaging: ");
        block.append("Divvun HFST");
        block.append(" ");
        block.append(b.version.as_str());
        block.append("\nHFST version: ");
        block.append(b.version.as_str());
        block.append("\nHFST long version: ");
        block.append(int_text(long).as_str());
        block.append("\n");
        let ghost before = messages_view(log@);
        let ghost bv = block@;
        log.push(to_stderr(block));
        assert(messages_view(log@) =~= before.push((Channel::Stderr, bv)));
        feature_lines(&t, &mut log);
    }
    Report { code: 0, messages: log }
}

/// hfst-info on a command line (`args[0]` is the program name): the exit
/// code and everything the tool writes.
pub fn run(args: &Vec<String>, b: &Build) -> (r: Report)
    requires
        build_ok(b),
    ensures
        r@ == spec_run(args_view(args@), b),
{
    let name = argv0(args);
    let common = initial_common(name.as_str());
    let table = info_table();
    let sc = scan(args, &table);
    match parse_options(&common, &sc.events) {
        Err(r) => r,
        Ok(o) => check(&common, &o, b),
    }
}

} // verus!
