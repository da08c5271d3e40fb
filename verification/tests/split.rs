use hfst_cli::common::{check_unary, CommonOptions, Report};
use hfst_cli::split::{could_not_open, file_name, opened, output_refused, read_options, reading, run, writing, Options, Pause};

fn argv(words: &[&str]) -> Vec<String> {
    words.iter().map(|w| w.to_string()).collect()
}

fn drive(words: &[&str]) -> Result<(CommonOptions, Options), Report> {
    let st = run(&argv(words));
    let mut c = st.common;
    let mut o = st.options;
    let mut from = 0;
    loop {
        match read_options(&mut c, &mut o, &st.events, from) {
            Pause::Done => break,
            Pause::End(r) => return Err(r),
            Pause::Open { at, name } => {
                if name == "missing" {
                    return Err(could_not_open(&c, &name));
                }
                opened(&mut c, name);
                from = at + 1;
            }
        }
    }
    let c = check_unary(c, &st.operands)?;
    Ok((c, o))
}

#[test]
fn split_file_names() {
    let (c, o) = drive(&["hfst-split", "-p", "rule", "-e", ".tr", "in.hfst"]).unwrap();
    assert_eq!(c.input_filename, "in.hfst");
    assert_eq!(file_name(&o, 1), "rule1.tr");
    assert_eq!(file_name(&o, 2), "rule2.tr");
    let (_, o) = drive(&["hfst-split"]).unwrap();
    assert_eq!(file_name(&o, 12), "12.hfst");
}

#[test]
fn split_input_option() {
    let (c, _) = drive(&["hfst-split", "-i", "a.hfst"]).unwrap();
    assert_eq!(c.input_filename, "a.hfst");
    assert!(c.input_named);
    let (c, _) = drive(&["hfst-split", "-i", "-"]).unwrap();
    assert_eq!(c.input_filename, "<stdin>");
    let r = drive(&["hfst-split", "-i", "missing"]).unwrap_err();
    assert_eq!(r.messages[0].text, "hfst-split: Could not open 'missing'. \n");
    let r = drive(&["hfst-split", "-i", "a.hfst", "b.hfst"]).unwrap_err();
    assert_eq!(r.code, 1);
}

#[test]
fn split_refuses_output() {
    let r = drive(&["hfst-split", "-o", "x"]).unwrap_err();
    assert_eq!(r.code, 1);
    let c = hfst_cli::common::initial_common("hfst-split");
    let r = output_refused(&c);
    assert_eq!(r.messages[0].text, "Try ``hfst-split --help'' for more information.\n");
    assert_eq!(r.messages[1].text, "hfst-split: Unknown option `-o'.\n\n");
}

#[test]
fn split_messages() {
    let (c, o) = drive(&["hfst-split", "-p", "r", "in.hfst"]).unwrap();
    assert_eq!(reading(&c, &o), "Reading from in.hfst, writing to r....hfst\n");
    assert_eq!(writing(&c, &o, 3), "Writing 3 of in.hfst to r3.hfst...\n");
    let r = drive(&["hfst-split", "--help"]).unwrap_err();
    assert_eq!(r.code, 0);
    assert!(r.messages[0].text.contains("  -e, --extension=EXT   Use the extension EXT in naming output files\n\nIf INFILE"));
}
