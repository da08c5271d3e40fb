use hfst_cli::common::{initial_common, CommonOptions, Report};
use hfst_cli::substitute::{
    could_not_open, default_options, finish, mismatch, opened, performing, read_options, reading_substitutions,
    relabel_line, result_label, run, FileOption, Mismatch, Options, Pause, RelabelLine,
};

fn argv(words: &[&str]) -> Vec<String> {
    words.iter().map(|w| w.to_string()).collect()
}

/// Reads a command line the way the tool does; every named file opens
/// unless it is called "missing".
fn drive(words: &[&str]) -> Result<(CommonOptions, Options), Report> {
    let st = run(&argv(words));
    let mut c = st.common;
    let mut o = st.options;
    let mut from = 0;
    loop {
        match read_options(&mut c, &mut o, &st.events, from) {
            Pause::Done => break,
            Pause::End(r) => return Err(r),
            Pause::Open { at, option, name } => {
                if name == "missing" {
                    return Err(could_not_open(&c, &name));
                }
                opened(&mut o, option, name);
                from = at + 1;
            }
        }
    }
    let c = finish(c, &o, &st.operands)?;
    Ok((c, o))
}

#[test]
fn labels_and_input() {
    let (c, o) = drive(&["hfst-substitute", "-f", "a", "-t", "@0@", "-R", "-9", "in.hfst"]).unwrap();
    assert_eq!(c.input_filename, "in.hfst");
    assert_eq!(o.from_label.as_deref(), Some("a"));
    assert_eq!(o.to_label.as_deref(), Some("@_EPSILON_SYMBOL_@"));
    assert!(o.in_order && o.compose && o.convert);
}

#[test]
fn files_are_opened_by_the_caller() {
    let (_, o) = drive(&["hfst-substitute", "-F", "pairs.tsv", "-C"]).unwrap();
    assert_eq!(o.from_file_name.as_deref(), Some("pairs.tsv"));
    assert!(!o.convert);
    let (_, o) = drive(&["hfst-substitute", "-f", "a:b", "--to-transducer=repl.hfst"]).unwrap();
    assert_eq!(o.to_transducer_filename.as_deref(), Some("repl.hfst"));
    let r = drive(&["hfst-substitute", "-f", "a", "-T", "missing", "-t", "b"]).unwrap_err();
    assert_eq!(r.code, 1);
    assert_eq!(r.messages[0].text, "hfst-substitute: Could not open 'missing'\n");
}

#[test]
fn missing_labels_refused() {
    let r = drive(&["hfst-substitute", "-t", "b"]).unwrap_err();
    assert_eq!(r.messages[0].text, "hfst-substitute: Must state name of labels to rewrite with -f or -F\n");
    let r = drive(&["hfst-substitute", "-f", "a"]).unwrap_err();
    assert_eq!(r.messages[0].text, "hfst-substitute: Must give target labels with -t, -T or -F\n");
}

#[test]
fn empty_labels_refused() {
    let r = drive(&["hfst-substitute", "-f", ""]).unwrap_err();
    assert_eq!(
        r.messages[0].text,
        "hfst-substitute: argument of source label option is empty;\nif you REALLY want to replace epsilons with something, use @0@ or @_EPSILON_SYMBOL_@\n"
    );
    let r = drive(&["hfst-substitute", "-f", "a", "--to-label="]).unwrap_err();
    assert_eq!(
        r.messages[0].text,
        "hfst-substitute: argument of target label option is empty;\nif you want to substitute something with epsilons, use @0@ or @_EPSILON_SYMBOL_@\n"
    );
}

#[test]
fn help_lists_relabeling_options() {
    let r = drive(&["hfst-substitute", "--help"]).unwrap_err();
    assert_eq!(r.code, 0);
    let t = &r.messages[0].text;
    assert!(t.starts_with("Usage: hfst-substitute [OPTIONS...] [INFILE]\nRelabel transducer arcs\n\n"));
    assert!(t.contains("  -9, --compose                compose substitutions when possible\n\nIf OUTFILE"));
    assert!(t.ends_with("      replace all arcs 'a:b' with transducer repl.hfst\n\n"));
}

#[test]
fn relabel_file_lines() {
    let c = initial_common("hfst-substitute");
    match relabel_line(&c, "p.tsv", 1, "a\tb\n") {
        RelabelLine::Entry { from, to } => {
            assert_eq!(from, "a");
            assert_eq!(to, "b");
        }
        _ => panic!("entry expected"),
    }
    match relabel_line(&c, "p.tsv", 2, "a:b\tc:d\te") {
        RelabelLine::Entry { from, to } => {
            assert_eq!(from, "a:b");
            assert_eq!(to, "c:d\te");
        }
        _ => panic!("entry expected"),
    }
    assert!(matches!(relabel_line(&c, "p.tsv", 3, "\n"), RelabelLine::Skip));
    assert!(matches!(relabel_line(&c, "p.tsv", 4, "# note\n"), RelabelLine::Skip));
    match relabel_line(&c, "p.tsv", 5, "ab\n") {
        RelabelLine::Refused(r) => {
            assert_eq!(r.code, 1);
            assert_eq!(r.messages[0].text, "hfst-substitute:p.tsv:5: At least one tab required per line\n");
        }
        _ => panic!("refusal expected"),
    }
    match relabel_line(&c, "p.tsv", 6, "\tb\n") {
        RelabelLine::Refused(r) => assert!(r.messages[0].text.starts_with("hfst-substitute:p.tsv:6: First field is empty;")),
        _ => panic!("refusal expected"),
    }
    match relabel_line(&c, "p.tsv", 7, "a\t\n") {
        RelabelLine::Refused(r) => assert!(r.messages[0].text.starts_with("hfst-substitute:p.tsv:7: Second field seems empty;")),
        _ => panic!("refusal expected"),
    }
}

#[test]
fn substitution_verbose_lines() {
    assert_eq!(performing("in.hfst", 1), "performing substitutions in in.hfst...\n");
    assert_eq!(performing("in.hfst", 3), "performing substitutions in in.hfst... 3\n");
    assert_eq!(reading_substitutions("p.tsv"), "reading substitutions from p.tsv...\n");
}

#[test]
fn type_mismatch() {
    let mut c = initial_common("hfst-substitute");
    c.input_filename = "in.hfst".to_string();
    let o = default_options();
    match mismatch(&c, &o, "repl.hfst", 2, "openfst-tropical", "foma") {
        Mismatch::Warn { text, keep_input_type } => {
            assert_eq!(text, "Transducer type mismatch in in.hfst and repl.hfst; using latter type as output");
            assert!(!keep_input_type);
        }
        _ => panic!("warning expected"),
    }
    match mismatch(&c, &o, "repl.hfst", -1, "openfst-tropical", "foma") {
        Mismatch::Warn { keep_input_type, .. } => assert!(keep_input_type),
        _ => panic!("warning expected"),
    }
    let mut o = default_options();
    o.convert = false;
    match mismatch(&c, &o, "repl.hfst", 0, "openfst-tropical", "foma") {
        Mismatch::End(r) => assert_eq!(
            r.messages[0].text,
            "hfst-substitute: Transducer type mismatch in in.hfst and repl.hfst; formats openfst-tropical and foma are not compatible for substitution (--do-not-convert was requested)\n"
        ),
        _ => panic!("refusal expected"),
    }
}

#[test]
fn result_labels() {
    let (_, o) = drive(&["hfst-substitute", "-f", "a", "-t", "b"]).unwrap();
    assert_eq!(result_label(&o), Some(("substitute-a-with-b".to_string(), "a \u{2672} b".to_string())));
    let (_, o) = drive(&["hfst-substitute", "-f", "a:b", "-T", "n.hfst"]).unwrap();
    assert_eq!(result_label(&o), Some(("substitute-a:b-with-net-n.hfst".to_string(), "a:b \u{2672} n.hfst".to_string())));
    let (_, o) = drive(&["hfst-substitute", "-F", "p.tsv", "-f", "x"]).unwrap();
    assert_eq!(result_label(&o), Some(("substitute-from-p.tsv".to_string(), "\u{2672}p.tsv".to_string())));
    let _ = FileOption::From;
}
