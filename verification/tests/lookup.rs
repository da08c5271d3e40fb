use hfst_cli::common::{initial_common, Channel, CommonOptions, Report};
use hfst_cli::lookup::Cascade;
use hfst_cli::lookup::Event;
use hfst_cli::lookup::InputFormat;
use hfst_cli::lookup::OutputFormat;
use hfst_cli::numbers::parse_i32;
use hfst_cli::numbers::parse_u64;

fn argv(words: &[&str]) -> Vec<String> {
    words.iter().map(|w| w.to_string()).collect()
}

fn texts(r: &Report) -> Vec<(Channel, String)> {
    r.messages.iter().map(|m| (m.channel, m.text.clone())).collect()
}

fn common(name: &str) -> CommonOptions {
    initial_common(name)
}


fn lookup_args(events: Vec<hfst_cli::lookup::Event>) -> hfst_cli::lookup::Args {
    hfst_cli::lookup::Args { statistics: false, progress: false, input_strings: None, events }
}

#[test]
fn lookup_replay_last_writer_wins() {
    let c = common("hfst-lookup");
    let a = lookup_args(vec![
        Event::OutputFormat("apertium".to_string()),
        Event::InputFormat("spaced".to_string()),
        Event::EpsilonFormat("0".to_string()),
        Event::EpsilonFormat2("@".to_string()),
        Event::Xfst("print-space".to_string()),
        Event::Cycles("-1".to_string()),
        Event::MaxNumber("x".to_string()),
    ]);
    let o = a.resolve(&c).ok().unwrap();
    assert!(o.output_format == OutputFormat::Apertium);
    assert!(o.input_format == InputFormat::SpaceSeparatedToken);
    assert_eq!(o.epsilon_format, "@");
    assert!(o.print_space);
    assert_eq!(o.space_format, " ");
    assert_eq!(o.infinite_cutoff, usize::MAX);
    assert_eq!(o.max_number, 0);
    assert_eq!(o.lookup_file_name, "<stdin>");
    assert!(!o.lookup_given);
}

#[test]
fn lookup_defaults() {
    let o = lookup_args(vec![]).resolve(&common("hfst-lookup")).ok().unwrap();
    assert_eq!(o.infinite_cutoff, 5);
    assert_eq!(o.max_number, -1);
    assert!(o.cascade == Cascade::Union && o.input_format == InputFormat::Utf8Token && o.output_format == OutputFormat::Xerox);
    assert!(o.obey_flags);
}

#[test]
fn lookup_refusals() {
    let c = common("hfst-lookup");
    let r = lookup_args(vec![Event::Beam { negative: true }, Event::Cascade("bad".to_string())]).resolve(&c).err().unwrap();
    assert_eq!(texts(&r), vec![(Channel::Stderr, "Invalid argument for --beam\n".to_string())]);
    let r = lookup_args(vec![Event::Cascade("bad".to_string())]).resolve(&c).err().unwrap();
    assert_eq!(
        r.messages[0].text,
        "hfst-lookup: --cascade argument bad unrecognised, possible values are\n{ union, priority-union, composition }\n"
    );
    let r = lookup_args(vec![Event::OutputFormat("json".to_string())]).resolve(&c).err().unwrap();
    assert_eq!(r.messages[0].text, "hfst-lookup: Unknown output format json; valid values are: xerox, cg, apertium\n\n");
    let r = lookup_args(vec![Event::Xfst("foo".to_string())]).resolve(&c).err().unwrap();
    assert_eq!(r.messages[0].text, "hfst-lookup: Xfst variable foo unrecognised\n");
    let r = lookup_args(vec![Event::PipeMode("sideways".to_string())]).resolve(&c).err().unwrap();
    assert_eq!(r.messages[0].text, "hfst-lookup: --pipe-mode argument sideways unrecognised\n");
}

#[test]
fn lookup_run_and_prompt() {
    let mut c = common("hfst-lookup");
    c.verbose = true;
    let mut a = lookup_args(vec![]);
    a.input_strings = Some("words.txt".to_string());
    let p = hfst_cli::lookup::run(&c, &a).ok().unwrap();
    assert!(p.options.lookup_given);
    assert_eq!(p.messages[0].text, "Reading from <stdin>, writing to <stdout>\n");
    assert!(hfst_cli::lookup::print_prompt(&c, &p.options).is_none());
    let o = lookup_args(vec![]).resolve(&c).ok().unwrap();
    assert_eq!(hfst_cli::lookup::print_prompt(&c, &o).unwrap().text, "> ");
    assert_eq!(hfst_cli::lookup::strip_line("abc\r\n"), "abc");
    assert_eq!(hfst_cli::lookup::looking_up("abc"), "Looking up abc...\n");
}

#[test]
fn strict_integers() {
    assert_eq!(parse_i32("-12"), Some(-12));
    assert_eq!(parse_i32("+7"), Some(7));
    assert_eq!(parse_i32(" 7"), None);
    assert_eq!(parse_i32("7x"), None);
    assert_eq!(parse_i32("-"), None);
    assert_eq!(parse_i32("2147483648"), None);
    assert_eq!(parse_u64("18446744073709551615"), Some(u64::MAX));
    assert_eq!(parse_u64("18446744073709551616"), None);
    assert_eq!(parse_u64("-1"), None);
}

