use hfst_cli::common::{initial_common, Channel, CommonOptions, Report};
use hfst_cli::twolc::Format;
use hfst_cli::twolc::run;

fn argv(words: &[&str]) -> Vec<String> {
    words.iter().map(|w| w.to_string()).collect()
}

fn texts(r: &Report) -> Vec<(Channel, String)> {
    r.messages.iter().map(|m| (m.channel, m.text.clone())).collect()
}

fn common(name: &str) -> CommonOptions {
    initial_common(name)
}


#[test]
fn twolc_defaults() {
    let p = run(&argv(&["hfst-twolc", "rules.twolc"])).ok().unwrap();
    let cl = &p.command_line;
    assert!(cl.has_input_file);
    assert_eq!(cl.input_file_name, "rules.twolc");
    assert!(!cl.has_output_file);
    assert!(!cl.resolve_left_conflicts);
    assert!(cl.resolve_right_conflicts);
    assert!(cl.format == Format::TropicalOpenfst);
    assert_eq!(
        texts(&ok_messages(&p.messages)),
        vec![
            (Channel::Stderr, "Reading input from rules.twolc.\n".to_string()),
            (Channel::Stderr, "Writing output to STDOUT.\n".to_string()),
        ]
    );
    assert_eq!(hfst_cli::twolc::source_name(cl), "rules.twolc");
}

fn ok_messages(m: &Vec<hfst_cli::common::Message>) -> Report {
    Report {
        code: 0,
        messages: m
            .iter()
            .map(|x| hfst_cli::common::Message { channel: x.channel, text: x.text.clone() })
            .collect(),
    }
}

#[test]
fn twolc_switches() {
    let p = run(&argv(&["hfst-twolc", "-R", "-D", "-q", "-f", "foma", "-o", "out", "-i", "in"])).ok().unwrap();
    let cl = &p.command_line;
    assert!(cl.resolve_left_conflicts && !cl.resolve_right_conflicts && cl.be_quiet);
    assert!(cl.format == Format::Foma);
    assert_eq!(cl.output_file_name, "out");
    assert!(p.messages.is_empty());
    let p = run(&argv(&["hfst-twolc", "--resolve-left", "-v"])).ok().unwrap();
    assert!(p.command_line.resolve_left_conflicts);
    assert_eq!(hfst_cli::twolc::source_name(&p.command_line), "<twolc>");
    assert_eq!(p.messages.len(), 3);
    assert_eq!(p.messages[2].text, "Verbose mode.\n");
}

#[test]
fn twolc_tropical_is_refused() {
    let r = hfst_cli::twolc::run(&argv(&["hfst-twolc", "-f", "tropical"])).err().unwrap();
    assert_eq!(r.code, 1);
    assert_eq!(
        texts(&r),
        vec![(Channel::Stderr, "Unknown format \"tropical\".Try running with option -h or --help.\n".to_string())]
    );
    assert!(hfst_cli::twolc::format_name("tropical-weight").is_none());
    assert!(hfst_cli::twolc::format_name("openfst-log") == Some(hfst_cli::twolc::Format::LogOpenfst));
}

#[test]
fn twolc_errors() {
    let r = hfst_cli::twolc::run(&argv(&["hfst-twolc", "-i"])).err().unwrap();
    assert_eq!(r.messages[0].text, "Missing argument for -i. Try using --help.\n");
    let r = hfst_cli::twolc::run(&argv(&["hfst-twolc", "-z"])).err().unwrap();
    assert_eq!(r.messages[0].text, "Unknown commandline option: -z. Try using --help.\n");
    let r = hfst_cli::twolc::run(&argv(&["hfst-twolc", "a", "b"])).err().unwrap();
    assert_eq!(r.messages[0].text, "no more than one input rule file may be given\n");
    let r = hfst_cli::twolc::run(&argv(&["hfst-twolc", "-i", "a", "b"])).err().unwrap();
    assert_eq!(r.messages[0].text, "no more than one input rule file may be given\n");
}

#[test]
fn twolc_help_version_usage() {
    let r = hfst_cli::twolc::run(&argv(&["hfst-twolc", "-h", "-V"])).err().unwrap();
    assert_eq!(r.code, 0);
    assert_eq!(r.messages.len(), 2);
    assert!(r.messages[0].text.starts_with("\nhfst-twolc 0 ()\n"));
    assert!(r.messages[1].text.starts_with("\nUsage: hfst-twolc [OPTIONS...] INFILE\n"));
    let r = hfst_cli::twolc::run(&argv(&["hfst-twolc", "-u"])).err().unwrap();
    assert_eq!(r.messages.len(), 1);
    assert_eq!(r.messages[0].text, hfst_cli::twolc::print_usage());
}

#[test]
fn twolc_debug_file_names_input() {
    let p = hfst_cli::twolc::run(&argv(&["hfst-twolc", "-i", "a", "--debug_file=d"])).ok().unwrap();
    assert!(p.command_line.has_debug_file && p.command_line.has_input_file);
    assert_eq!(p.command_line.input_file_name, "d");
}

