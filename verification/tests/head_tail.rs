use hfst_cli::head::{count_warning, counting, forwarding, head_count, head_forward, short_stream};
use hfst_cli::tail::{counting as tail_counting, read_options, run as tail_run, tail_count, tail_forward, Pause};

#[test]
fn head_first_k() {
    assert_eq!(head_forward(2, 5), vec![(0, 1), (1, 2)]);
    assert_eq!(head_forward(9, 3), vec![(0, 1), (1, 2), (2, 3)]);
    assert_eq!(head_forward(head_count(None), 4), vec![(0, 1)]);
    assert!(head_forward(0, 4).is_empty());
    assert_eq!(count_warning(0).as_deref(), Some("Argument 0 for count is not sensible"));
    assert_eq!(count_warning(3), None);
}

#[test]
fn head_all_but_last_k() {
    assert_eq!(head_forward(-2, 5), vec![(0, 5), (1, 5), (2, 5)]);
    assert!(head_forward(-5, 5).is_empty());
    assert_eq!(short_stream("in.hfst", -5, 5), None);
    assert!(head_forward(-7, 5).is_empty());
    assert_eq!(
        short_stream("in.hfst", -7, 5).as_deref(),
        Some("Stream in in.hfst has less than 7 automata; Nothing will be written to output")
    );
    assert_eq!(counting(-2), "Counting all but last -2\n");
    assert_eq!(forwarding("a", 5), "Forwarding a...5\n");
}

#[test]
fn tail_last_k() {
    assert_eq!(tail_count(Some((false, 2))), 2);
    assert_eq!(tail_forward(2, 5), vec![(3, 3), (4, 4)]);
    assert_eq!(tail_forward(7, 3), vec![(0, 1), (1, 2), (2, 3)]);
    assert_eq!(tail_counting(2).as_deref(), Some("Counting last 2 transducers...\n"));
}

#[test]
fn tail_from_kth() {
    let k = tail_count(Some((true, 3)));
    assert_eq!(k, -3);
    assert_eq!(tail_forward(k, 5), vec![(2, 3), (3, 4), (4, 5)]);
    assert!(tail_forward(k, 2).is_empty());
    assert_eq!(tail_forward(tail_count(None), 3), vec![(0, 1), (1, 2), (2, 3)]);
    assert_eq!(tail_counting(k).as_deref(), Some("Skipping 3 transducers...\n"));
    assert_eq!(tail_counting(0), None);
}

fn tail_drive(words: &[&str]) -> Result<(hfst_cli::common::CommonOptions, i64), hfst_cli::common::Report> {
    let args: Vec<String> = words.iter().map(|w| w.to_string()).collect();
    let st = tail_run(&args);
    let mut c = st.common;
    let mut k = tail_count(None);
    let mut from = 0;
    loop {
        match read_options(&mut c, &st.events, from) {
            Pause::Done => break,
            Pause::End(r) => return Err(r),
            Pause::Count { at, text, plus } => {
                let v: i64 = text.trim_start_matches('+').parse().unwrap();
                k = tail_count(Some((plus, v)));
                from = at + 1;
            }
        }
    }
    let c = hfst_cli::common::check_unary(c, &st.operands)?;
    Ok((c, k))
}

#[test]
fn tail_command_line() {
    assert_eq!(tail_drive(&["hfst-tail", "in.hfst"]).unwrap().1, -1);
    assert_eq!(tail_drive(&["hfst-tail", "-n", "3"]).unwrap().1, 3);
    assert_eq!(tail_drive(&["hfst-tail", "--n-last=+2"]).unwrap().1, -2);
    let r = tail_drive(&["hfst-tail", "-V"]).unwrap_err();
    assert_eq!(r.code, 0);
    assert_eq!(r.messages[0].text, "hfst-tail 0.2\n");
    let r = tail_drive(&["hfst-tail", "-h"]).unwrap_err();
    assert!(r.messages[0].text.contains("use +K to print transducers starting from the Kth\n\nIf OUTFILE"));
}
