use hfst_cli::common::{check_unary, CommonOptions, Report};
use hfst_cli::repeat::{
    plan_line, read_options, repeating, resolve, result_label, run, set_bound, Bounds, Pause, Repetition,
};

fn argv(words: &[&str]) -> Vec<String> {
    words.iter().map(|w| w.to_string()).collect()
}

/// Reads a command line the way the tool does, with bounds read as
/// `strtod` reads plain numbers and "inf".
fn drive(words: &[&str]) -> Result<(CommonOptions, Repetition), Report> {
    let st = run(&argv(words));
    let mut c = st.common;
    let mut b: Bounds = st.bounds;
    let mut from = 0;
    loop {
        match read_options(&mut c, &st.events, from) {
            Pause::Done => break,
            Pause::End(r) => return Err(r),
            Pause::Number { at, bound, text } => {
                let v: f64 = text.parse().unwrap();
                set_bound(&mut b, bound, v as u64, v.is_infinite());
                from = at + 1;
            }
        }
    }
    let c = check_unary(c, &st.operands)?;
    let r = resolve(&c, &b)?;
    Ok((c, r))
}

#[test]
fn repeat_ranges() {
    let (_, r) = drive(&["hfst-repeat", "-f", "2", "-t", "5"]).unwrap();
    assert_eq!(r, Repetition::Range(2, 5));
    assert_eq!(plan_line(r), "Repeating from 2 to 5 times\n");
    assert_eq!(result_label(r), ("repeat-2-to-5".to_string(), "_2^5".to_string()));
    assert_eq!(repeating(r, "a.hfst", 1), "Repeating [2..5] a.hfst...\n");
    assert_eq!(repeating(r, "a.hfst", 2), "Repeating [2..5] a.hfst... 2\n");
}

#[test]
fn repeat_defaults_and_infinities() {
    let (_, r) = drive(&["hfst-repeat"]).unwrap();
    assert_eq!(r, Repetition::AtLeast(0));
    assert_eq!(plan_line(r), "Repeating from 0 to infinite times\n");
    assert_eq!(result_label(r), ("repeat-0-plus".to_string(), "_0^\u{221e}".to_string()));
    let (_, r) = drive(&["hfst-repeat", "-f", "inf", "--to=inf"]).unwrap();
    assert_eq!(r, Repetition::Star);
    assert_eq!(repeating(r, "x", 1), "Repeating star x...\n");
    assert_eq!(result_label(r), ("repeat-star".to_string(), "\u{22c6}".to_string()));
}

#[test]
fn repeat_bad_bounds() {
    let r = drive(&["hfst-repeat", "-f", "5", "-t", "2"]).unwrap_err();
    assert_eq!(r.code, 1);
    assert_eq!(r.messages[0].text, "hfst-repeat: Cannot repeat from 5 to 2 times\n\n");
    let r = drive(&["hfst-repeat", "-f", "3", "-t", "2", "a", "b"]).unwrap_err();
    assert_eq!(r.messages[0].text, "hfst-repeat: More than one input file given\n");
    let r = drive(&["hfst-repeat", "-x"]).unwrap_err();
    assert_eq!(r.code, 1);
}
