//! hfst-info as the argument parser reads it: the version requirements are
//! met when either this build's own version or the upstream HFST version it
//! is interface-compatible with meets them.

use vstd::prelude::*;
use crate::common::{
    Channel, CommonOptions, Message, Report, SpecCommon, SpecReport, messages_view, spec_diagnostic,
    diagnostic, fail_with, spec_fail_report, to_stderr, verbose_print,
};
use crate::info::{
    Build, build_ok, check_features, feature_lines, features, long_version, package_name,
    spec_check_features, spec_feature_lines, spec_features, spec_long_version, tool_version,
};
use crate::sorted::{ordered_set, spec_ordered_set, strings_view};
use crate::text::{concat2, concat3, int_text, spec_int_text};
use crate::version::{parse_version_string, spec_parse_version, spec_version_error};

verus! {

/// The upstream HFST version this build is interface-compatible with.
pub open spec fn compat_version() -> Seq<char> {
    "3.17.1"@
}

/// The packed form of [`compat_version`].
pub open spec fn compat_long() -> int {
    300170001
}

/// The arguments: the three version vectors and the required features.
pub struct InfoArgs {
    pub atleast_version: Option<String>,
    pub exact_version: Option<String>,
    pub max_version: Option<String>,
    pub require_feature: Vec<String>,
}

/// A version vector given, packed, or -1 when none is.
pub open spec fn spec_requirement(v: Option<Seq<char>>) -> Result<i64, Seq<char>> {
    match v {
        None => Ok(-1i64),
        Some(s) => spec_parse_version(s),
    }
}

/// The refusal when a version requirement fails.
pub open spec fn spec_not_met(version: Seq<char>, long: int) -> Seq<char> {
    "Version requirements not met: this is "@ + package_name() + " "@ + version + " (long version "@
        + spec_int_text(long) + "), interface-compatible with upstream HFST "@ + compat_version() + " (long version "@
        + spec_int_text(compat_long()) + ")"@
}

/// The verbose line announcing a version requirement.
pub open spec fn spec_requiring(long: int, relation: Seq<char>, req: int) -> Seq<char> {
    "Requiring current version "@ + spec_int_text(long) + " (upstream-compatible "@ + spec_int_text(compat_long())
        + ") to be "@ + relation + " "@ + spec_int_text(req) + "\n"@
}

/// Whether a version fails a requirement: `relation` 0 is at least, 1
/// exactly, 2 at most.
pub open spec fn fails(relation: int, v: int, req: int) -> bool {
    if relation == 0 { v < req } else if relation == 1 { v != req } else { v > req }
}

/// The name of a relation in the verbose line.
pub open spec fn relation_name(relation: int) -> Seq<char> {
    if relation == 0 { "at least"@ } else if relation == 1 { "exactly"@ } else { "at most"@ }
}

/// One version requirement: nothing when not given; otherwise the verbose
/// line, then the refusal when both the build's and the compatible version
/// fail it.
pub open spec fn spec_gate(
    log: Seq<(Channel, Seq<char>)>,
    verbose: bool,
    program_name: Seq<char>,
    b_version: Seq<char>,
    long: int,
    req: i64,
    relation: int,
) -> Result<Seq<(Channel, Seq<char>)>, SpecReport> {
    if req == -1 {
        Ok(log)
    } else {
        let log2 = if verbose {
            log.push((Channel::Stderr, spec_requiring(long, relation_name(relation), req as int)))
        } else {
            log
        };
        if fails(relation, long, req as int) && fails(relation, compat_long(), req as int) {
            Err(SpecReport {
                code: 1,
                messages: log2.push((Channel::Stderr, spec_diagnostic(program_name, spec_not_met(b_version, long)))),
            })
        } else {
            Ok(log2)
        }
    }
}

/// The verbose block describing the build.
pub open spec fn spec_build_block(program_name: Seq<char>, version: Seq<char>, long: int) -> Seq<char> {
    program_name + " "@ + tool_version() + "\nHFST packaging: "@ + package_name() + " "@ + version
        + "\nHFST version: "@ + version + "\nHFST long version: "@ + spec_int_text(long)
        + "\nCompatible with upstream HFST: "@ + compat_version() + " (long version "@ + spec_int_text(compat_long())
        + ")\n"@
}

/// What hfst-info does: read the three version vectors (an unreadable one
/// ends it), then, printing what it does when verbose or when nothing is
/// tested, check each version requirement, the required features in order
/// of their names, and describe the build.
pub open spec fn spec_execute(
    c: SpecCommon,
    atleast: Option<Seq<char>>,
    exact: Option<Seq<char>>,
    max: Option<Seq<char>>,
    fs: Seq<Seq<char>>,
    b: &Build,
) -> SpecReport {
    match spec_requirement(atleast) {
        Err(rest) => spec_fail_report(c.program_name, spec_version_error(rest)),
        Ok(min_v) => match spec_requirement(exact) {
            Err(rest) => spec_fail_report(c.program_name, spec_version_error(rest)),
            Ok(exact_v) => match spec_requirement(max) {
                Err(rest) => spec_fail_report(c.program_name, spec_version_error(rest)),
                Ok(max_v) => {
                    let no_tests = min_v == -1 && max_v == -1 && exact_v == -1 && fs.len() == 0;
                    let verbose = c.verbose || no_tests;
                    let log0: Seq<(Channel, Seq<char>)> = if no_tests && !c.verbose {
                        seq![(Channel::Stderr, "No tests selected; printing known data\n"@)]
                    } else {
                        seq![]
                    };
                    let pn = c.program_name;
                    let long = spec_long_version(b);
                    match spec_gate(log0, verbose, pn, b.version@, long, min_v, 0) {
                        Err(r) => r,
                        Ok(log1) => match spec_gate(log1, verbose, pn, b.version@, long, exact_v, 1) {
                            Err(r) => r,
                            Ok(log2) => match spec_gate(log2, verbose, pn, b.version@, long, max_v, 2) {
                                Err(r) => r,
                                Ok(log3) => match spec_check_features(log3, verbose, pn, spec_features(b.foma), spec_ordered_set(fs)) {
                                    Err(r) => r,
                                    Ok(log4) => SpecReport {
                                        code: 0,
                                        messages: if verbose {
                                            log4.push((Channel::Stderr, spec_build_block(pn, b.version@, long)))
                                                + spec_feature_lines(spec_features(b.foma), 0)
                                        } else {
                                            log4
                                        },
                                    },
                                },
                            },
                        },
                    }
                },
            },
        },
    }
}

fn requirement(common: &CommonOptions, v: &Option<String>) -> (r: Result<i64, Report>)
    ensures
        match (r, spec_requirement(crate::getopt::opt_view(*v))) {
            (Ok(x), Ok(y)) => x == y,
            (Err(x), Err(rest)) => x@ == spec_fail_report(common.program_name@, spec_version_error(rest)),
            _ => false,
        },
{
    match v {
        None => Ok(-1),
        Some(s) => match parse_version_string(s.as_str()) {
            Ok(x) => Ok(x),
            Err(rest) => {
                let text = concat2("cannot parse version string from ", rest.as_str());
                Err(fail_with(common, text.as_str()))
            },
        },
    }
}

fn take_report(log: &mut Vec<Message>, m: Message) -> (r: Report)
    ensures
        r@ == (SpecReport { code: 1, messages: messages_view(old(log)@).push(m@) }),
{
    let ghost before = messages_view(log@);
    let ghost mv = m@;
    let mut messages = Vec::new();
    std::mem::swap(&mut messages, log);
    messages.push(m);
    let r = Report { code: 1, messages };
    assert(r@.messages =~= before.push(mv));
    r
}

/// Checks one version requirement, writing its verbose line to `log`;
/// `relation` 0 is at least, 1 exactly, 2 at most.
pub fn version_gate(common: &CommonOptions, b: &Build, log: &mut Vec<Message>, long: i64, req: i64, relation: u8) -> (r: Option<Report>)
    requires
        relation <= 2,
    ensures
        match spec_gate(messages_view(old(log)@), common.verbose, common.program_name@, b.version@, long as int, req, relation as int) {
            Ok(l) => r is None && messages_view(final(log)@) == l,
            Err(x) => r matches Some(y) && y@ == x,
        },
{
    if req == -1 {
        return None;
    }
    let name = if relation == 0 { "at least" } else if relation == 1 { "exactly" } else { "at most" };
    let mut line = concat3("Requiring current version ", int_text(long).as_str(), " (upstream-compatible ");
    line.append(int_text(300170001).as_str());
    line.append(") to be ");
    line.append(name);
    line.append(" ");
    line.append(int_text(req).as_str());
    line.append("\n");
    assert(line@ == spec_requiring(long as int, relation_name(relation as int), req as int));
    let ghost l0 = messages_view(log@);
    verbose_print(common, log, line);
    assert(messages_view(log@) == (if common.verbose {
        l0.push((Channel::Stderr, spec_requiring(long as int, relation_name(relation as int), req as int)))
    } else {
        l0
    }));
    let compat: i64 = 300170001;
    let own_fails = if relation == 0 { long < req } else if relation == 1 { long != req } else { long > req };
    let compat_fails = if relation == 0 { compat < req } else if relation == 1 { compat != req } else { compat > req };
    assert(own_fails == fails(relation as int, long as int, req as int));
    assert(compat_fails == fails(relation as int, compat_long(), req as int));
    if own_fails && compat_fails {
        let mut t = concat3("Version requirements not met: this is ", "Divvun HFST", " ");
        t.append(b.version.as_str());
        t.append(" (long version ");
        t.append(int_text(long).as_str());
        t.append("), interface-compatible with upstream HFST ");
        t.append("3.17.1");
        t.append(" (long version ");
        t.append(int_text(300170001).as_str());
        t.append(")");
        assert(t@ == spec_not_met(b.version@, long as int));
        let m = diagnostic(common, t.as_str());
        return Some(take_report(log, m));
    }
    None
}

/// Runs hfst-info on its settings and arguments for the build `b`.
pub fn execute(common: &CommonOptions, args: &InfoArgs, b: &Build) -> (r: Report)
    requires
        build_ok(b),
    ensures
        r@ == spec_execute(
            common@,
            crate::getopt::opt_view(args.atleast_version),
            crate::getopt::opt_view(args.exact_version),
            crate::getopt::opt_view(args.max_version),
            strings_view(args.require_feature@),
            b,
        ),
{
    let min_v = match requirement(common, &args.atleast_version) {
        Ok(v) => v,
        Err(r) => {
            return r;
        },
    };
    let exact_v = match requirement(common, &args.exact_version) {
        Ok(v) => v,
        Err(r) => {
            return r;
        },
    };
    let max_v = match requirement(common, &args.max_version) {
        Ok(v) => v,
        Err(r) => {
            return r;
        },
    };
    let no_tests = min_v == -1 && max_v == -1 && exact_v == -1 && args.require_feature.len() == 0;
    let c = CommonOptions {
        program_name: common.program_name.clone(),
        verbose: common.verbose || no_tests,
        silent: common.silent,
        debug: common.debug,
        input_filename: common.input_filename.clone(),
        output_filename: common.output_filename.clone(),
        input_named: common.input_named,
        output_named: common.output_named,
    };
    let mut log: Vec<Message> = Vec::new();
    assert(messages_view(log@) =~= Seq::<(Channel, Seq<char>)>::empty());
    if no_tests && !common.verbose {
        let m = to_stderr("No tests selected; printing known data\n".to_owned());
        let ghost mv = m@;
        log.push(m);
        assert(messages_view(log@) =~= seq![mv]);
    }
    let long = long_version(b);
    if let Some(r) = version_gate(&c, b, &mut log, long, min_v, 0) {
        return r;
    }
    if let Some(r) = version_gate(&c, b, &mut log, long, exact_v, 1) {
        return r;
    }
    if let Some(r) = version_gate(&c, b, &mut log, long, max_v, 2) {
        return r;
    }
    let t = features(b.foma);
    let fs = ordered_set(&args.require_feature);
    if let Some(r) = check_features(&c, &t, &mut log, &fs) {
        return r;
    }
    if c.verbose {
        let mut block = concat3(c.program_name.as_str(), " ", "0.1");
        block.append("\nHFST packaging: ");
        block.append("Divvun HFST");
        block.append(" ");
        block.append(b.version.as_str());
        block.append("\nHFST version: ");
        block.append(b.version.as_str());
        block.append("\nHFST long version: ");
        block.append(int_text(long).as_str());
        block.append("\nCompatible with upstream HFST: ");
        block.append("3.17.1");
        block.append(" (long version ");
        block.append(int_text(300170001).as_str());
        block.append(")\n");
        let ghost before = messages_view(log@);
        let ghost bv = block@;
        log.push(to_stderr(block));
        assert(messages_view(log@) =~= before.push((Channel::Stderr, bv)));
        feature_lines(&t, &mut log);
    }
    Report { code: 0, messages: log }
}

// ---------------------------------------------------------------------------
// Laws
// ---------------------------------------------------------------------------

/// Any version requirement that the compatible upstream version meets is
/// met, whatever this build's own version is.
pub proof fn lemma_compatible_version_suffices(
    log: Seq<(Channel, Seq<char>)>,
    verbose: bool,
    program_name: Seq<char>,
    b_version: Seq<char>,
    long: int,
    req: i64,
    relation: int,
)
    requires
        req != -1,
        !fails(relation, compat_long(), req as int),
    ensures
        spec_gate(log, verbose, program_name, b_version, long, req, relation) is Ok,
{
}

} // verus!
