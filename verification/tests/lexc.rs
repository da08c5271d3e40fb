use hfst_cli::common::{initial_common, Channel, CommonOptions, Report};
use hfst_cli::lexc_compiler::Event;
use hfst_cli::lexc_compiler::FormatType;
use hfst_cli::lexc_compiler::compile_failure;
use hfst_cli::lexc_compiler::reading_from;
use hfst_cli::lexc_compiler::run;
use hfst_cli::lexc_compiler::setup_messages;
use hfst_cli::lexc_compiler::verbosity;

fn argv(words: &[&str]) -> Vec<String> {
    words.iter().map(|w| w.to_string()).collect()
}

fn texts(r: &Report) -> Vec<(Channel, String)> {
    r.messages.iter().map(|m| (m.channel, m.text.clone())).collect()
}

fn common(name: &str) -> CommonOptions {
    initial_common(name)
}


fn lexc_args(events: Vec<hfst_cli::lexc_compiler::Event>, infiles: &[&str]) -> hfst_cli::lexc_compiler::Args {
    hfst_cli::lexc_compiler::Args {
        align_strings: false,
        encode_weights: false,
        with_flags: true,
        minimize_flags: false,
        rename_flags: false,
        split_characters: false,
        infiles: argv(infiles),
        events,
    }
}

#[test]
fn lexc_warning_switches_replay_in_order() {
    let a = lexc_args(
        vec![Event::Warning("all".to_string()), Event::Warning("no-missing-lexicons".to_string()), Event::Warning("error".to_string())],
        &[],
    );
    let (s, log) = a.resolve().ok().unwrap();
    assert!(s.warnings.warn_everything && !s.warnings.warn_missing_lexicons && s.warnings.treat_warnings_as_errors);
    assert!(log.is_empty());
    let a = lexc_args(vec![Event::Warning("all".to_string()), Event::WerrorDeprecated], &[]);
    let (s, log) = a.resolve().ok().unwrap();
    assert!(!s.warnings.warn_missing_alphabets && s.warnings.warn_repeated_lexicons);
    assert_eq!(log[0].text, "Warning: --Werror is deprecated, use -Werror -Wall instead\n");
}

#[test]
fn lexc_refusals() {
    let r = lexc_args(vec![Event::WerrorDeprecated, Event::Warning("loud".to_string())], &[]).resolve().err().unwrap();
    assert_eq!(r.code, 1);
    assert_eq!(r.messages.len(), 2);
    assert_eq!(r.messages[1].text, "Unknown warning option loud\n");
    let r = lexc_args(vec![Event::XeroxComposition("maybe".to_string())], &[]).resolve().err().unwrap();
    assert_eq!(r.messages[0].text, "Error: unknown option to --xerox-composition: 'maybe'\n");
    let r = lexc_args(vec![Event::Xfst("x".to_string())], &[]).resolve().err().unwrap();
    assert_eq!(r.messages[0].text, "Error: unknown option to --xfst: 'x'\n");
}

#[test]
fn lexc_run_defaults() {
    let c = common("hfst-lexc");
    let p = run(&c, &lexc_args(vec![Event::XeroxComposition("no".to_string())], &["a.lexc", "-"])).ok().unwrap();
    assert!(p.settings.format == FormatType::TropicalOpenfst);
    assert!(!p.settings.xerox_composition && p.settings.with_flags);
    assert_eq!(p.files, argv(&["a.lexc", "<stdin>"]));
    assert_eq!(p.messages[0].text, "hfst-lexc: Defaulting to OpenFst tropical type\n");
    let p = run(&c, &lexc_args(vec![Event::Format(FormatType::Foma)], &[])).ok().unwrap();
    assert!(p.settings.format == FormatType::Foma);
    assert_eq!(p.files, argv(&["<stdin>"]));
    assert!(p.messages.is_empty());
}

#[test]
fn lexc_texts() {
    assert_eq!(reading_from(&argv(&["a", "b"]), "o"), "Reading from a, b, writing to o\n");
    assert_eq!(
        compile_failure(&argv(&["a"])),
        "The file a did not compile cleanly.\n(if there are no error messages above, try -v or -d to get more info)"
    );
    assert!(compile_failure(&argv(&["a", "b"])).starts_with("The files a... did not"));
    let mut c = common("x");
    assert_eq!(verbosity(&c), 1);
    c.verbose = true;
    assert_eq!(verbosity(&c), 2);
    c.silent = true;
    assert_eq!(verbosity(&c), 0);
}

#[test]
fn lexc_setup_messages() {
    let mut c = common("hfst-lexc");
    c.verbose = true;
    let mut a = lexc_args(vec![Event::Warning("error".to_string()), Event::Warning("unused-lexicons".to_string())], &[]);
    a.split_characters = true;
    let p = run(&c, &a).ok().unwrap();
    let m = setup_messages(&c, &p.settings);
    assert_eq!(m[0].channel, Channel::Stdout);
    assert_eq!(m[0].text, "Warning settings:  -Werror (fail on all warnings) -Wunused-lexicons\n");
    assert_eq!(m[1].text, "Warningn: Disabling unicode character tokenisation\n");
}

