use hfst_cli::common::{Channel, Report};
use hfst_cli::getopt::{scan, HasArg, LongOpt, OptEvent};
use hfst_cli::version::parse_version_string;

fn argv(words: &[&str]) -> Vec<String> {
    words.iter().map(|w| w.to_string()).collect()
}

fn texts(r: &Report) -> Vec<(Channel, String)> {
    r.messages.iter().map(|m| (m.channel, m.text.clone())).collect()
}

fn table() -> Vec<LongOpt> {
    vec![
        LongOpt { name: "verbose".to_string(), has_arg: HasArg::No, val: 'v' },
        LongOpt { name: "input".to_string(), has_arg: HasArg::Required, val: 'i' },
        LongOpt { name: "input-strings".to_string(), has_arg: HasArg::Required, val: 'I' },
        LongOpt { name: "pipe-mode".to_string(), has_arg: HasArg::Optional, val: 'p' },
        LongOpt { name: "resolve".to_string(), has_arg: HasArg::No, val: 'R' },
        LongOpt { name: "resolve-left".to_string(), has_arg: HasArg::No, val: 'R' },
    ]
}

fn opt(e: &OptEvent) -> Option<(char, Option<String>)> {
    match e {
        OptEvent::Opt { val, arg } => Some((*val, arg.clone())),
        _ => None,
    }
}

#[test]
fn plain_words_are_operands_in_order() {
    let s = scan(&argv(&["prog", "a", "-", "b"]), &table());
    assert!(s.events.is_empty());
    assert_eq!(s.operands, argv(&["a", "-", "b"]));
}

#[test]
fn operands_after_terminator() {
    let s = scan(&argv(&["prog", "x", "--", "-v", "--input=y"]), &table());
    assert!(s.events.is_empty());
    assert_eq!(s.operands, argv(&["x", "-v", "--input=y"]));
}

#[test]
fn options_and_operands_interleave() {
    let s = scan(&argv(&["prog", "a", "-v", "b", "-i", "f", "c"]), &table());
    assert_eq!(s.events.len(), 2);
    assert_eq!(opt(&s.events[0]), Some(('v', None)));
    assert_eq!(opt(&s.events[1]), Some(('i', Some("f".to_string()))));
    assert_eq!(s.operands, argv(&["a", "b", "c"]));
}

#[test]
fn clusters_and_attached_arguments() {
    let s = scan(&argv(&["prog", "-vifile"]), &table());
    assert_eq!(s.events.len(), 2);
    assert_eq!(opt(&s.events[0]), Some(('v', None)));
    assert_eq!(opt(&s.events[1]), Some(('i', Some("file".to_string()))));
}

#[test]
fn long_names_with_values_and_abbreviations() {
    let s = scan(&argv(&["prog", "--input=a", "--verb", "--input-s", "b"]), &table());
    assert_eq!(opt(&s.events[0]), Some(('i', Some("a".to_string()))));
    assert_eq!(opt(&s.events[1]), Some(('v', None)));
    assert_eq!(opt(&s.events[2]), Some(('I', Some("b".to_string()))));
}

#[test]
fn exact_name_wins_over_longer_names() {
    let s = scan(&argv(&["prog", "--input", "x"]), &table());
    assert_eq!(opt(&s.events[0]), Some(('i', Some("x".to_string()))));
}

#[test]
fn ambiguous_and_same_option_abbreviations() {
    let s = scan(&argv(&["prog", "--inp", "--res"]), &table());
    assert!(matches!(&s.events[0], OptEvent::AmbiguousLong { name } if name == "inp"));
    assert_eq!(opt(&s.events[1]), Some(('R', None)));
}

#[test]
fn getopt_errors() {
    let s = scan(&argv(&["prog", "-x", "--nope", "--verbose=1", "-i"]), &table());
    assert!(matches!(s.events[0], OptEvent::UnknownShort { c: 'x' }));
    assert!(matches!(&s.events[1], OptEvent::UnknownLong { name } if name == "nope"));
    assert!(matches!(s.events[2], OptEvent::UnexpectedArg { val: 'v' }));
    assert!(matches!(s.events[3], OptEvent::MissingArg { val: 'i' }));
}

#[test]
fn optional_arguments_only_attached() {
    let s = scan(&argv(&["prog", "-p", "x", "--pipe-mode=in", "-pout"]), &table());
    assert_eq!(opt(&s.events[0]), Some(('p', None)));
    assert_eq!(opt(&s.events[1]), Some(('p', Some("in".to_string()))));
    assert_eq!(opt(&s.events[2]), Some(('p', Some("out".to_string()))));
    assert_eq!(s.operands, argv(&["x"]));
}

// ---------------------------------------------------------------------------
// The one-input tools
// ---------------------------------------------------------------------------

#[test]
fn reverse_defaults_to_standard_streams() {
    let c = hfst_cli::reverse::run(&argv(&["hfst-reverse"])).ok().unwrap();
    assert_eq!(c.program_name, "hfst-reverse");
    assert_eq!(c.input_filename, "<stdin>");
    assert_eq!(c.output_filename, "<stdout>");
    assert!(!c.verbose && !c.silent);
}

#[test]
fn reverse_operand_names_input() {
    let c = hfst_cli::reverse::run(&argv(&["hfst-reverse", "in.hfst", "-o", "-"])).ok().unwrap();
    assert_eq!(c.input_filename, "in.hfst");
    assert!(c.input_named);
    assert_eq!(c.output_filename, "<stdout>");
    assert!(c.output_named);
}

#[test]
fn reverse_dash_operand_is_stdin() {
    let c = hfst_cli::reverse::run(&argv(&["hfst-reverse", "-"])).ok().unwrap();
    assert_eq!(c.input_filename, "<stdin>");
}

#[test]
fn reverse_two_operands_refused() {
    let r = hfst_cli::reverse::run(&argv(&["hfst-reverse", "a", "b"])).err().unwrap();
    assert_eq!(r.code, 1);
    assert_eq!(texts(&r), vec![(Channel::Stderr, "hfst-reverse: More than one input file given\n".to_string())]);
}

#[test]
fn reverse_operand_after_input_refused() {
    let r = hfst_cli::reverse::run(&argv(&["hfst-reverse", "-i", "a", "b"])).err().unwrap();
    assert_eq!(texts(&r), vec![(Channel::Stderr, "hfst-reverse: no more than one input file may be given\n".to_string())]);
}

#[test]
fn reverse_unknown_option() {
    let r = hfst_cli::reverse::run(&argv(&["hfst-reverse", "-z"])).err().unwrap();
    assert_eq!(r.code, 1);
    assert_eq!(
        texts(&r),
        vec![
            (Channel::Stderr, "hfst-reverse: invalid option -- 'z'\n".to_string()),
            (Channel::Stderr, "Try ``hfst-reverse --help'' for more information.\n".to_string()),
        ]
    );
}

#[test]
fn reverse_help_and_version() {
    let r = hfst_cli::reverse::run(&argv(&["hfst-reverse", "-h", "-z"])).err().unwrap();
    assert_eq!(r.code, 0);
    assert_eq!(r.messages.len(), 1);
    assert_eq!(r.messages[0].channel, Channel::Stdout);
    assert!(r.messages[0].text.starts_with("Usage: hfst-reverse [OPTIONS...] [INFILE]\nReverse a transducer\n\nCommon options:\n"));
    let v = hfst_cli::reverse::run(&argv(&["hfst-reverse", "--version"])).err().unwrap();
    assert_eq!(texts(&v), vec![(Channel::Stdout, "hfst-reverse 0.1\n".to_string())]);
}

#[test]
fn quiet_after_verbose() {
    let c = hfst_cli::reverse::run(&argv(&["hfst-reverse", "-v", "-q"])).ok().unwrap();
    assert!(!c.verbose && c.silent);
    let c = hfst_cli::reverse::run(&argv(&["hfst-reverse", "-s", "--verbose", "-d"])).ok().unwrap();
    assert!(c.verbose && !c.silent && c.debug);
}

#[test]
fn reverse_op_texts() {
    let op = hfst_cli::reverse::ReverseOp;
    assert_eq!(op.verbose_begin("a.hfst"), "Reversing a.hfst");
    assert_eq!(op.name_op(), "reverse");
    assert_eq!(op.formula(), "\u{21c6}");
}

#[test]
fn strip_header_reads_options() {
    let c = hfst_cli::strip_header::run(&argv(&["hfst-strip-header", "-o", "out"])).ok().unwrap();
    assert_eq!(c.output_filename, "out");
    assert_eq!(hfst_cli::unary::reading_line(&c), "Reading from <stdin>, writing to out\n");
}

#[test]
fn project_levels() {
    for (level, input) in [("upper", true), ("Input", true), ("f", true), ("analysis", true), ("lower", false), ("OUT", false), ("second", false), ("g", false)] {
        let p = hfst_cli::project::run(&argv(&["hfst-project", "-p", level])).ok().unwrap();
        assert_eq!(p.op.project_input, input, "{}", level);
    }
    let p = hfst_cli::project::run(&argv(&["hfst-project"])).ok().unwrap();
    assert!(!p.op.project_input);
    let p = hfst_cli::project::run(&argv(&["hfst-project", "-p", "lower", "--project=upper"])).ok().unwrap();
    assert!(p.op.project_input);
}

#[test]
fn project_unknown_level() {
    let r = hfst_cli::project::run(&argv(&["hfst-project", "-p", "middle"])).err().unwrap();
    assert_eq!(
        texts(&r),
        vec![(
            Channel::Stderr,
            "hfst-project: unknown project direction middle\nshould be one of upper, input, analysis, first, lower, output, second or generation\n\n".to_string()
        )]
    );
}

#[test]
fn project_op_texts() {
    let first = hfst_cli::project::ProjectOp { project_input: true };
    let second = hfst_cli::project::ProjectOp { project_input: false };
    assert_eq!(first.verbose_begin("x"), "Projecting first x");
    assert_eq!(second.verbose_begin("x"), "Projecting second x");
    assert_eq!(first.name_op(), "project-1st");
    assert_eq!(second.name_op(), "project-2nd");
    assert_eq!(first.formula(), "\u{00b9}");
    assert_eq!(second.formula(), "\u{00b2}");
    assert_eq!(first.verbose_sep(), " ");
}

#[test]
fn prune_alphabet_force_and_safe() {
    let p = hfst_cli::prune_alphabet::run(&argv(&["hfst-prune-alphabet", "-f"])).ok().unwrap();
    assert!(p.op.force_pruning);
    let p = hfst_cli::prune_alphabet::run(&argv(&["hfst-prune-alphabet", "-f", "--safe"])).ok().unwrap();
    assert!(!p.op.force_pruning);
    assert_eq!(p.op.verbose_begin("t"), "Pruning t");
    assert_eq!(p.op.name_op(), "prune-alphabet");
}

#[test]
fn push_labels_directions() {
    for (d, initial) in [("start", true), ("Initial", true), ("b", true), ("end", false), ("FINAL", false)] {
        let p = hfst_cli::push_labels::run(&argv(&["hfst-push-labels", "-p", d])).ok().unwrap();
        assert_eq!(p.op.push_initial, initial, "{}", d);
    }
    let r = hfst_cli::push_labels::run(&argv(&["hfst-push-labels", "--push=middle"])).err().unwrap();
    assert_eq!(
        texts(&r),
        vec![(
            Channel::Stderr,
            "hfst-push-labels: unknown push direction middle\nshould be one of start, initial, begin, end or final.\n\n".to_string()
        )]
    );
    let op = hfst_cli::push_labels::PushLabelsOp { push_initial: true };
    assert_eq!(op.verbose_begin("z"), "Pushing towards start z");
    assert_eq!(op.name_op(), "push-labels-i");
    assert_eq!(op.formula(), "Id");
}

#[test]
fn realign_boundary_option_is_refused() {
    let p = hfst_cli::realign::run(&argv(&["hfst-realign"])).ok().unwrap();
    assert_eq!(p.op.boundary_symbol, b'>');
    assert_eq!(p.op.verbose_begin("q"), "Pushing towards start q");
    let r = hfst_cli::realign::run(&argv(&["hfst-realign", "-b", ">"])).err().unwrap();
    assert_eq!(r.code, 1);
    assert_eq!(
        texts(&r),
        vec![
            (Channel::Stderr, "Try ``hfst-realign --help'' for more information.\n".to_string()),
            (Channel::Stderr, "hfst-realign: invalid option -b\n".to_string()),
        ]
    );
}

// ---------------------------------------------------------------------------
// hfst-info
// ---------------------------------------------------------------------------

fn build(foma: bool) -> hfst_cli::info::Build {
    hfst_cli::info::Build {
        version: "3.16.2".to_string(),
        major: "3".to_string(),
        minor: "16".to_string(),
        patch: "2".to_string(),
        foma,
    }
}

#[test]
fn info_long_version() {
    assert_eq!(hfst_cli::info::long_version(&build(true)), 300160002);
}

#[test]
fn info_version_requirements() {
    let ok = hfst_cli::info::run(&argv(&["hfst-info", "-a", "3.16", "-m", "4"]), &build(true));
    assert_eq!(ok.code, 0);
    assert!(ok.messages.is_empty());
    let exact = hfst_cli::info::run(&argv(&["hfst-info", "-e", "3.16.2"]), &build(true));
    assert_eq!(exact.code, 0);
    let fail = hfst_cli::info::run(&argv(&["hfst-info", "--atleast-version=3.17"]), &build(true));
    assert_eq!(fail.code, 1);
    assert_eq!(
        fail.messages[0].text,
        "hfst-info: Version requirements not met: this is Divvun HFST 3.16.2 (long version 300160002), an independent fork that does not carry an upstream HFST version\n"
    );
}

#[test]
fn info_bad_version_vector() {
    let r = hfst_cli::info::run(&argv(&["hfst-info", "-a", "3.x"]), &build(true));
    assert_eq!(r.code, 1);
    assert_eq!(r.messages[0].text, "hfst-info: cannot parse version string from x\n");
}

#[test]
fn info_features() {
    let r = hfst_cli::info::run(&argv(&["hfst-info", "-f", "foma", "-f", "openfst"]), &build(true));
    assert_eq!(r.code, 0);
    let r = hfst_cli::info::run(&argv(&["hfst-info", "-f", "FOMA"]), &build(false));
    assert_eq!(r.code, 1);
    assert_eq!(r.messages[0].text, "hfst-info: Required foma support not present\n");
    let r = hfst_cli::info::run(&argv(&["hfst-info", "-f", "bogus"]), &build(true));
    assert_eq!(r.messages[0].text, "hfst-info: Required bogus support is unrecognised and therefore assumed to be missing\n");
}

#[test]
fn info_without_tests_lists_everything() {
    let r = hfst_cli::info::run(&argv(&["hfst-info"]), &build(false));
    assert_eq!(r.code, 0);
    assert_eq!(r.messages[0].text, "No tests selected; printing known data\n");
    assert_eq!(
        r.messages[1].text,
        "hfst-info 0.1\nHFST packaging: Divvun HFST 3.16.2\nHFST version: 3.16.2\nHFST long version: 300160002\n"
    );
    assert_eq!(r.messages[2].text, "OpenFst (tropical) supported\n");
    assert_eq!(r.messages[3].text, "foma not supported\n");
    assert_eq!(r.messages.len(), 8);
}

#[test]
fn version_strings() {
    assert_eq!(parse_version_string("3"), Ok(300000000));
    assert_eq!(parse_version_string("3.16"), Ok(300160000));
    assert_eq!(parse_version_string("3.16.2"), Ok(300160002));
    assert_eq!(parse_version_string(""), Ok(0));
    assert_eq!(parse_version_string("3.16.2.1"), Err(".1".to_string()));
}

#[test]
fn ordered_sets() {
    let v = hfst_cli::sorted::ordered_set(&argv(&["b", "a", "b", "c", "a"]));
    assert_eq!(v, argv(&["a", "b", "c"]));
    assert!(hfst_cli::sorted::str_lt("ab", "b"));
    assert!(!hfst_cli::sorted::str_lt("b", "b"));
}
