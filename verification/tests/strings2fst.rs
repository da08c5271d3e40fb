use hfst_cli::common::{initial_common, Channel, CommonOptions, Report};
use hfst_cli::lexc_compiler::FormatType;
use hfst_cli::strings2fst::NegativeWeight;
use hfst_cli::strings2fst::negative_weight;
use hfst_cli::strings2fst::parsing_line;
use hfst_cli::strings2fst::run;
use hfst_cli::strings2fst::split_line;
use hfst_cli::strings2fst::unescaped_colons;

fn argv(words: &[&str]) -> Vec<String> {
    words.iter().map(|w| w.to_string()).collect()
}

fn texts(r: &Report) -> Vec<(Channel, String)> {
    r.messages.iter().map(|m| (m.channel, m.text.clone())).collect()
}

fn common(name: &str) -> CommonOptions {
    initial_common(name)
}


fn s2f_args() -> hfst_cli::strings2fst::Args {
    hfst_cli::strings2fst::Args {
        format: None,
        disjunct_strings: false,
        norm: false,
        log: false,
        log10: false,
        pairstrings: false,
        has_spaces: false,
        epsilon: None,
        multichar_symbols: None,
        warning: None,
    }
}

#[test]
fn strings2fst_run() {
    let mut c = common("hfst-strings2fst");
    c.verbose = true;
    let p = run(&c, s2f_args()).ok().unwrap();
    assert!(p.settings.output_format == FormatType::TropicalOpenfst);
    assert_eq!(p.settings.epsilonname, "@0@");
    assert!(p.settings.warn_negative_weights && !p.settings.warnings_are_errors);
    assert_eq!(p.messages[0].text, "Output format not specified, defaulting to openfst tropical\n");
    let mut a = s2f_args();
    a.warning = Some("no-negative-weights".to_string());
    a.format = Some(FormatType::Sfst);
    let p = run(&c, a).ok().unwrap();
    assert!(!p.settings.warn_negative_weights && p.messages.is_empty());
    let mut a = s2f_args();
    a.warning = Some("all".to_string());
    assert_eq!(run(&c, a).err().unwrap().messages[0].text, "hfst-strings2fst: unrecognised warning option -Wall\n");
}

#[test]
fn strings2fst_lines() {
    assert_eq!(split_line("cat:dog\t0.5\r\n"), ("cat:dog".to_string(), Some("0.5".to_string())));
    assert_eq!(split_line("cat\n"), ("cat".to_string(), None));
    assert_eq!(split_line("a\tb\tc"), ("a".to_string(), Some("b\tc".to_string())));
}

#[test]
fn strings2fst_negative_weights() {
    let c = common("x");
    let p = run(&c, s2f_args()).ok().unwrap();
    assert!(negative_weight(true, &p.settings) == NegativeWeight::Warn);
    assert!(negative_weight(false, &p.settings) == NegativeWeight::Accept);
    let mut a = s2f_args();
    a.warning = Some("error".to_string());
    let p = run(&c, a).ok().unwrap();
    assert!(negative_weight(true, &p.settings) == NegativeWeight::Fail);
}

#[test]
fn strings2fst_multichar_file() {
    let mut c = common("x");
    c.verbose = true;
    let (syms, msgs) = hfst_cli::strings2fst::multichar_symbols(&c, "+N\n\n+Pl\r\n+Sg");
    assert_eq!(syms, argv(&["+N", "+Pl", "+Sg"]));
    assert_eq!(msgs.len(), 3);
    assert_eq!(msgs[1].text, "Defining multichar symbol +Pl\n");
}

#[test]
fn strings2fst_texts() {
    assert_eq!(parsing_line(7), "Parsing line 7...\n");
    assert!(unescaped_colons(false, "a:b:c").ends_with("If you are compiling pair strings, use option -p."));
    assert!(unescaped_colons(true, "a:b:c").starts_with("String `a:b:c' contains unescaped ':'-symbols"));
}

