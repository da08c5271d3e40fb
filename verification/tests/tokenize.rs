use hfst_cli::common::{CommonOptions, Report};
use hfst_cli::tokenize::{
    carry_verbose, float_refusal, read_options, reading, ruleset, ruleset_kind, run, single_codepoint, Options,
    OutputFormat, Pause, Settings,
};

fn argv(words: &[&str]) -> Vec<String> {
    words.iter().map(|w| w.to_string()).collect()
}

fn defaults() -> Settings {
    Settings {
        print_all: false,
        print_weights: false,
        tokenize_multichar: false,
        dedupe: false,
        hack_uncompose: false,
        verbose: false,
        max_weight_classes: i32::MAX,
        output_format: OutputFormat::Tokenize,
    }
}

fn drive(words: &[&str]) -> Result<(CommonOptions, Options, String), Report> {
    let st = run(&argv(words), defaults());
    let mut c = st.common;
    let mut o = st.options;
    let mut from = 0;
    loop {
        match read_options(&mut c, &mut o, &st.events, from) {
            Pause::Done => break,
            Pause::End(r) => return Err(r),
            Pause::Float { at, option, text } => {
                let v: f64 = text.trim().parse().unwrap_or(0.0);
                if let Some(r) = float_refusal(option, v < 0.0) {
                    return Err(r);
                }
                carry_verbose(&c, &mut o);
                from = at + 1;
            }
        }
    }
    let f = ruleset(&st.operands)?;
    Ok((c, o, f))
}

#[test]
fn giella_cg_mode() {
    let (_, o, f) = drive(&["hfst-tokenize", "-g", "rules.pmhfst"]).unwrap();
    assert_eq!(f, "rules.pmhfst");
    assert_eq!(o.settings.output_format, OutputFormat::Giellacg);
    assert!(o.settings.print_weights && o.settings.print_all && o.settings.dedupe && o.settings.hack_uncompose);
    assert_eq!(o.settings.max_weight_classes, 2);
    let (_, o, _) = drive(&["hfst-tokenize", "-l", "5", "--gtd", "r"]).unwrap();
    assert_eq!(o.settings.max_weight_classes, 5);
    let (_, o, _) = drive(&["hfst-tokenize", "-g", "-W", "r"]).unwrap();
    assert!(!o.settings.print_weights);
}

#[test]
fn tokenize_modes_and_separators() {
    let (_, o, _) = drive(&["hfst-tokenize", "-k", "-S", "--xerox", "r"]).unwrap();
    assert!(o.keep_newlines && !o.blankline_separated && o.superblanks);
    assert_eq!(o.settings.output_format, OutputFormat::Xerox);
    let (_, o, _) = drive(&["hfst-tokenize", "-i", "r"]).unwrap();
    assert_eq!(o.settings.output_format, OutputFormat::SpaceSeparated);
    let (_, o, _) = drive(&["hfst-tokenize", "-L", "r"]).unwrap();
    assert_eq!(o.settings.output_format, OutputFormat::Visl);
    assert!(!o.settings.print_weights);
}

#[test]
fn verbose_reaches_tokenizer_after_own_option() {
    let (_, o, _) = drive(&["hfst-tokenize", "-v", "-a", "r"]).unwrap();
    assert!(o.settings.verbose);
    let (_, o, _) = drive(&["hfst-tokenize", "-a", "-v", "r"]).unwrap();
    assert!(!o.settings.verbose);
    let (_, o, _) = drive(&["hfst-tokenize", "-v", "-g", "r"]).unwrap();
    assert!(o.settings.verbose);
}

#[test]
fn tokenize_refusals() {
    let r = drive(&["hfst-tokenize", "-l", "0", "r"]).unwrap_err();
    assert_eq!(r.messages[0].text, "Invalid or no argument --weight-classes count\n");
    let r = drive(&["hfst-tokenize", "-b", "-1", "r"]).unwrap_err();
    assert_eq!(r.messages[0].text, "Invalid argument for --beam\n");
    let r = drive(&["hfst-tokenize"]).unwrap_err();
    assert_eq!(r.messages[0].text, "No input file given\n");
    let r = drive(&["hfst-tokenize", "a", "b"]).unwrap_err();
    assert_eq!(r.messages[0].text, "More than one input file given\n");
}

#[test]
fn ruleset_choices() {
    assert!(ruleset_kind(&Some("TOP".to_string())).0);
    assert_eq!(ruleset_kind(&None).1, "No TOP automaton found, using naive tokeniser?\n");
    assert!(single_codepoint(false, false));
    assert!(!single_codepoint(true, false));
    assert!(!single_codepoint(false, true));
    let (c, _, f) = drive(&["hfst-tokenize", "r"]).unwrap();
    assert_eq!(reading(&c, &f), "Reading from r, writing to <stdout>\n");
}
