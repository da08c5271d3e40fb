use hfst_cli::common::{CommonOptions, Report};
use hfst_cli::pmatch::{
    after_match, closing, could_not_open, cutoff_refusal, input, locate_weights, read_options, run, settings, Cutoff,
    Options, Pause, Records, VarVal,
};

fn argv(words: &[&str]) -> Vec<String> {
    words.iter().map(|w| w.to_string()).collect()
}

fn drive(words: &[&str]) -> Result<(CommonOptions, Options), Report> {
    let st = run(&argv(words));
    let mut c = st.common;
    let mut o = st.options;
    let mut from = 0;
    loop {
        match read_options(&mut c, &mut o, &st.events, from) {
            Pause::Done => break,
            Pause::End(r) => return Err(r),
            Pause::Cutoff { at, cutoff, text } => {
                let v: f64 = text.trim().parse().unwrap_or(0.0);
                if let Some(r) = cutoff_refusal(cutoff, v < 0.0) {
                    return Err(r);
                }
                from = at + 1;
            }
        }
    }
    let c = input(c, &st.operands)?;
    Ok((c, o))
}

#[test]
fn pmatch_options() {
    let (c, o) = drive(&["hfst-pmatch", "-n", "-l", "-w", "--max-context", " 7 ", "rules.pmatch"]).unwrap();
    assert_eq!(c.input_filename, "rules.pmatch");
    assert!(!o.blankline_separated);
    let s = settings(&o);
    assert_eq!(s.locate_mode, Some(true));
    assert_eq!(s.extract_patterns, None);
    assert_eq!(s.max_context, Some(7));
    assert_eq!(s.max_recursion, None);
    let (_, o) = drive(&["hfst-pmatch", "--no-mark-patterns", "--max-recursion=x", "t"]).unwrap();
    assert_eq!(settings(&o).mark_patterns, Some(false));
    assert_eq!(o.max_recursion, 0);
}

#[test]
fn pmatch_refusals() {
    let r = drive(&["hfst-pmatch", "--max-context=-2", "t"]).unwrap_err();
    assert_eq!(r.messages[0].text, "Invalid argument for --max-context\n");
    let r = drive(&["hfst-pmatch", "--weight-cutoff=-1", "t"]).unwrap_err();
    assert_eq!(r.messages[0].text, "Invalid argument for --weight-cutoff\n");
    let r = drive(&["hfst-pmatch", "-t", "-1", "t"]).unwrap_err();
    assert_eq!(r.messages[0].text, "Invalid argument for --time-cutoff\n");
    let r = drive(&["hfst-pmatch"]).unwrap_err();
    assert_eq!(r.messages[0].text, "No input file given\n");
    let r = drive(&["hfst-pmatch", "a", "b"]).unwrap_err();
    assert_eq!(r.messages[0].text, "More than one input file given\n");
    let r = drive(&["hfst-pmatch", "-i", "a", "b"]).unwrap_err();
    assert_eq!(r.messages[0].text, "More than one input file given\n");
    assert_eq!(could_not_open("t").messages[0].text, "Could not open file t\n");
    let (c, _) = drive(&["hfst-pmatch", "-"]).unwrap();
    assert_eq!(c.input_filename, "<stdin>");
}

#[test]
fn records_by_blank_lines() {
    let mut r = Records::new(true);
    assert_eq!(r.on_line("one\n"), None);
    assert_eq!(r.on_line("two\n"), None);
    assert_eq!(r.on_line("\n"), Some("one\ntwo".to_string()));
    assert_eq!(r.on_line("\n"), Some(String::new()));
    assert_eq!(r.on_line("three"), None);
    assert_eq!(r.at_end(), Some("three".to_string()));
}

#[test]
fn records_by_lines() {
    let mut r = Records::new(false);
    assert_eq!(r.on_line("one\n"), Some("one".to_string()));
    assert_eq!(r.on_line("\n"), Some(String::new()));
    assert_eq!(r.at_end(), None);
}

#[test]
fn pmatch_output_framing() {
    assert_eq!(after_match(true), "\n\n");
    assert_eq!(after_match(false), "\n");
    assert!(!locate_weights(VarVal::On));
    assert!(locate_weights(VarVal::NotDefined));
    let (_, o) = drive(&["hfst-pmatch", "-c", "-p", "t"]).unwrap();
    assert_eq!(closing(&o, "3 matches", "prof"), "\n3 matches\n\nprof\n");
    let (_, o) = drive(&["hfst-pmatch", "t"]).unwrap();
    assert_eq!(closing(&o, "3 matches", "prof"), "");
    let _ = Cutoff::Time;
}
