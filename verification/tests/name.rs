use hfst_cli::common::{Channel, CommonOptions, Message, Report};
use hfst_cli::name::{after, before, finish, read_options, run, After, Options, Pause};
use hfst_cli::text::truncate_bytes;

fn argv(words: &[&str]) -> Vec<String> {
    words.iter().map(|w| w.to_string()).collect()
}

fn drive(words: &[&str]) -> Result<(CommonOptions, Options, Vec<Message>), Report> {
    let st = run(&argv(words));
    let mut c = st.common;
    let mut o = st.options;
    let mut from = 0;
    loop {
        match read_options(&mut c, &mut o, &st.events, from) {
            Pause::Done => break,
            Pause::End(r) => return Err(r),
            Pause::Length { at, text } => {
                o.truncate_length = text.parse().unwrap();
                from = at + 1;
            }
        }
    }
    let (c, m) = finish(c, &o, &st.operands)?;
    Ok((c, o, m))
}

#[test]
fn name_option() {
    let (c, o, m) = drive(&["hfst-name", "-n", "fst", "in.hfst"]).unwrap();
    assert_eq!(c.input_filename, "in.hfst");
    assert_eq!(o.transducer_name, "fst");
    assert!(m.is_empty());
    match after(&o, "old") {
        After::Rename(n) => assert_eq!(n, "fst"),
        _ => panic!("rename expected"),
    }
}

#[test]
fn neither_option_refused() {
    let r = drive(&["hfst-name", "in.hfst"]).unwrap_err();
    assert_eq!(r.code, 1);
    assert_eq!(r.messages[0].text, "Error: hfst-name: use either option --print-name  or --name\n");
}

#[test]
fn print_overrides_name() {
    let (_, o, m) = drive(&["hfst-name", "--name=x", "-p"]).unwrap();
    assert_eq!(m[0].text, "Warning: option --print-name overrides option --name\n");
    match after(&o, "old") {
        After::Print(msg) => {
            assert_eq!(msg.channel, Channel::Stderr);
            assert_eq!(msg.text, "\"old\"\n");
        }
        _ => panic!("print expected"),
    }
    assert!(before(&c_verbose(), &o, 1).is_empty() == false);
    assert_eq!(before(&c_verbose(), &o, 2)[0].text, "---\n");
}

fn c_verbose() -> CommonOptions {
    let mut c = hfst_cli::common::initial_common("hfst-name");
    c.verbose = true;
    c
}

#[test]
fn naming_verbose_lines() {
    let (_, o, _) = drive(&["hfst-name", "-n", "x"]).unwrap();
    let m = before(&c_verbose(), &o, 1);
    assert_eq!(m.len(), 1);
    assert_eq!(m[0].text, "Naming <stdin>...\n");
    assert_eq!(before(&c_verbose(), &o, 3)[0].text, "Naming <stdin>...3\n");
}

#[test]
fn truncated_names() {
    let (_, o, _) = drive(&["hfst-name", "-n", "abcdef", "-t", "3"]).unwrap();
    match after(&o, "old") {
        After::Rename(n) => assert_eq!(n, "abc"),
        _ => panic!("rename expected"),
    }
    assert_eq!(truncate_bytes("h\u{e9}llo", 2), "h\u{fffd}");
    assert_eq!(truncate_bytes("h\u{e9}llo", 3), "h\u{e9}");
    assert_eq!(truncate_bytes("abc", 10), "abc");
}

#[test]
fn unknown_option_refused() {
    let r = drive(&["hfst-name", "-x"]).unwrap_err();
    assert_eq!(r.code, 1);
}
