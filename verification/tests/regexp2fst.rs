use hfst_cli::common::{initial_common, Channel, CommonOptions, Report};
use hfst_cli::regexp2fst::LineAction;
use hfst_cli::regexp2fst::Outcome;
use hfst_cli::regexp2fst::after_compile;
use hfst_cli::regexp2fst::at_end;
use hfst_cli::regexp2fst::compiling_expression;
use hfst_cli::regexp2fst::expression;
use hfst_cli::regexp2fst::line_start;
use hfst_cli::regexp2fst::next_line;
use hfst_cli::regexp2fst::run;
use hfst_cli::regexp2fst::semicolon_failure;

fn argv(words: &[&str]) -> Vec<String> {
    words.iter().map(|w| w.to_string()).collect()
}

fn texts(r: &Report) -> Vec<(Channel, String)> {
    r.messages.iter().map(|m| (m.channel, m.text.clone())).collect()
}

fn common(name: &str) -> CommonOptions {
    initial_common(name)
}


fn rx_args() -> hfst_cli::regexp2fst::Args {
    hfst_cli::regexp2fst::Args {
        format: None,
        disjunct: false,
        semicolon: false,
        epsilon: None,
        xerox_composition: None,
        xfst: None,
        do_not_harmonize: false,
        harmonize_flags: false,
        encode_weights: false,
        do_not_minimize: false,
    }
}

#[test]
fn regexp2fst_run() {
    let c = common("hfst-regexp2fst");
    let p = run(&c, &rx_args()).ok().unwrap();
    assert!(p.settings.line_separated && p.settings.harmonize && p.settings.minimize_result);
    assert!(!p.settings.xerox_composition && !p.settings.flag_is_epsilon);
    let mut a = rx_args();
    a.xerox_composition = Some("ON".to_string());
    a.xfst = Some("flag-is-epsilon".to_string());
    a.semicolon = true;
    let p = run(&c, &a).ok().unwrap();
    assert!(p.settings.xerox_composition && p.settings.flag_is_epsilon && !p.settings.line_separated);
    let mut a = rx_args();
    a.xerox_composition = Some("maybe".to_string());
    a.xfst = Some("nope".to_string());
    assert_eq!(run(&c, &a).err().unwrap().messages[0].text, "hfst-regexp2fst: unknown option to --xerox-composition: 'maybe'\n\n");
    let mut a = rx_args();
    a.xfst = Some("nope".to_string());
    assert_eq!(run(&c, &a).err().unwrap().messages[0].text, "hfst-regexp2fst: Error: unknown option to --xfst: 'nope'\n\n");
}

#[test]
fn regexp2fst_lines() {
    let mut c = common("hfst-regexp2fst");
    c.input_filename = "in.xre".to_string();
    assert_eq!(expression(" \r a b\n"), "a b\n");
    let mut s = line_start();
    match next_line(&mut s, "  \n") {
        LineAction::Skip(m) => assert_eq!(m.text, "Skipping whitespace expression #1"),
        _ => panic!("skip expected"),
    }
    match next_line(&mut s, "a:b\n") {
        LineAction::Compile(e, m) => {
            assert_eq!(e, "a:b\n");
            assert_eq!(m.text, "Compiling expression 2\n");
        }
        _ => panic!("compile expected"),
    }
    assert!(after_compile(&c, &mut s, Outcome::OnlyComments).is_none());
    assert_eq!(at_end(&c, &s).unwrap().messages[0].text, "hfst-regexp2fst: in.xre: XRE parsing failed: input contains only whitespace or comments\n");
    let r = after_compile(&c, &mut s, Outcome::Failed).unwrap();
    assert_eq!(r.messages[0].text, "hfst-regexp2fst:in.xre:2: XRE parsing failed\n\n");
    assert!(after_compile(&c, &mut s, Outcome::Compiled).is_none());
    assert!(at_end(&c, &s).is_none());
}

#[test]
fn regexp2fst_semicolons() {
    let mut c = common("hfst-regexp2fst");
    c.input_filename = "e".to_string();
    assert_eq!(compiling_expression(3), "Compiling expression #3\n");
    assert!(semicolon_failure(&c, 2, true).is_none());
    assert_eq!(
        semicolon_failure(&c, 1, true).unwrap().messages[0].text,
        "hfst-regexp2fst: e: XRE parsing failed: expression #1 contains only whitespace or comments\n"
    );
    assert_eq!(
        semicolon_failure(&c, 2, false).unwrap().messages[0].text,
        "hfst-regexp2fst: e: XRE parsing failed in expression #2 separated by semicolons\n"
    );
}

