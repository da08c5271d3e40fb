use hfst_cli::common::check_unary;
use hfst_cli::invert::{run as invert_run, InvertOp};
use hfst_cli::multiply::{duplicating, read_options, run as multiply_run, Pause};

fn argv(words: &[&str]) -> Vec<String> {
    words.iter().map(|w| w.to_string()).collect()
}

#[test]
fn invert_reads_unary_options() {
    let c = invert_run(&argv(&["hfst-invert", "-v", "-o", "out.hfst", "in.hfst"])).unwrap();
    assert!(c.verbose);
    assert_eq!(c.output_filename, "out.hfst");
    assert_eq!(c.input_filename, "in.hfst");
    let r = invert_run(&argv(&["hfst-invert", "--help"])).err().unwrap();
    assert_eq!(r.code, 0);
    assert!(r.messages[0].text.starts_with("Usage: hfst-invert [OPTIONS...] [INFILE]\nInvert a transducer\n\n"));
}

#[test]
fn invert_texts() {
    assert_eq!(InvertOp.verbose_line("t", 1), "Inverting t...\n");
    assert_eq!(InvertOp.verbose_line("t", 4), "Inverting t...4\n");
    assert_eq!(InvertOp.name_op(), "invert");
    assert_eq!(InvertOp.formula(), "\u{207b}\u{00b9}");
}

#[test]
fn multiply_count_option() {
    let st = multiply_run(&argv(&["hfst-multiply", "-n", "3", "in.hfst"]));
    assert_eq!(st.dupe_count, 1);
    let mut c = st.common;
    let mut count = st.dupe_count;
    let mut from = 0;
    loop {
        match read_options(&mut c, &st.events, from) {
            Pause::Done => break,
            Pause::End(_) => panic!("no end expected"),
            Pause::Count { at, text } => {
                count = text.parse().unwrap();
                from = at + 1;
            }
        }
    }
    assert_eq!(count, 3);
    let c = check_unary(c, &st.operands).unwrap();
    assert_eq!(c.input_filename, "in.hfst");
    assert_eq!(duplicating("in.hfst", 3, 2), "Duplicate in.hfst times 3...2\n");
}

#[test]
fn multiply_unknown_option() {
    let st = multiply_run(&argv(&["hfst-multiply", "-z"]));
    let mut c = st.common;
    match read_options(&mut c, &st.events, 0) {
        Pause::End(r) => assert_eq!(r.code, 1),
        _ => panic!("refusal expected"),
    }
}
