use hfst_cli::common::{initial_common, Channel, CommonOptions, Report};
use hfst_cli::pair_test::ShownPair;
use hfst_cli::pair_test::case_label;
use hfst_cli::pair_test::check_counts;
use hfst_cli::pair_test::closing;
use hfst_cli::pair_test::harvest;
use hfst_cli::pair_test::is_empty_or_comment;
use hfst_cli::pair_test::is_negative_test_line;
use hfst_cli::pair_test::is_positive_test_line;
use hfst_cli::pair_test::overall;
use hfst_cli::pair_test::print_recognized_prefix;
use hfst_cli::pair_test::strip_space;
use hfst_cli::pair_test::test_case;
use hfst_cli::pair_test::verdict;
use hfst_cli::pair_test::verdict_text;

fn argv(words: &[&str]) -> Vec<String> {
    words.iter().map(|w| w.to_string()).collect()
}

fn texts(r: &Report) -> Vec<(Channel, String)> {
    r.messages.iter().map(|m| (m.channel, m.text.clone())).collect()
}

fn common(name: &str) -> CommonOptions {
    initial_common(name)
}


#[test]
fn pair_test_lines() {
    assert!(is_empty_or_comment(""));
    assert!(is_empty_or_comment(" \t "));
    assert!(is_empty_or_comment("  ! comment"));
    assert!(!is_empty_or_comment(" a b"));
    assert_eq!(strip_space(" \tk a t \t"), "k a t");
    assert_eq!(strip_space("  "), "");
    assert!(is_positive_test_line("  !!\u{20ac} kat:kat"));
    assert!(is_negative_test_line("!!$ x"));
    assert!(!is_positive_test_line("!! kat"));
    assert_eq!(test_case("  !!\u{20ac}  k a t  "), "k a t");
}

#[test]
fn pair_test_harvest() {
    let lines = argv(&["!!\u{20ac} kala\n", "rule\n", "!!$ kalo\n", "!!\u{20ac} kalat\n", "!!$ kalot"]);
    let h = harvest(true, &lines);
    assert_eq!(h.positive, argv(&["kala", "kalat"]));
    assert_eq!(h.negative, argv(&["kalo", "kalot"]));
    assert_eq!(h.messages[0].text, "Positive test case: kala...\n");
    assert_eq!(h.messages[1].text, "Negative test case: !!$ kalo kalo...\n");
    assert!(harvest(false, &lines).messages.is_empty());
}

#[test]
fn pair_test_odd_counts() {
    let c = common("hfst-pair-test");
    let h = harvest(false, &argv(&["!!$ a", "!!\u{20ac} b"]));
    let r = check_counts(&c, &h).unwrap();
    assert!(r.messages[0].text.starts_with("hfst-pair-test: Got an odd number of positive test cases."));
    let h = harvest(false, &argv(&["!!$ a", "!!$ b"]));
    assert!(check_counts(&c, &h).is_none());
}

#[test]
fn pair_test_verdicts() {
    assert_eq!(verdict(true, &vec![0, 0, 0]), 0);
    assert_eq!(verdict(true, &vec![0, 1, 0]), 1);
    assert_eq!(verdict(false, &vec![1, 1]), 1);
    assert_eq!(verdict(false, &vec![1, 0, 1]), 0);
    assert_eq!(verdict(true, &vec![]), 0);
    assert_eq!(verdict(false, &vec![]), 1);
}

#[test]
fn pair_test_texts() {
    let mut c = common("hfst-pair-test");
    assert_eq!(verdict_text(&c, true, 1, "k a"), "FAIL: k a REJECTED\n\n");
    assert_eq!(verdict_text(&c, false, 1, "k a"), "FAIL: k a PASSED\n\n");
    assert_eq!(verdict_text(&c, true, 0, "k a"), "");
    c.verbose = true;
    assert_eq!(verdict_text(&c, true, 0, "k a"), "k a PASSED\n\n");
    assert_eq!(case_label("kala", "kalat"), "kala : kalat");
    let pairs = vec![
        ShownPair { same: true, input: "k".to_string(), output: "k".to_string() },
        ShownPair { same: false, input: "a".to_string(), output: "e".to_string() },
    ];
    assert_eq!(print_recognized_prefix(&c, &pairs, 1, "R1"), "Rule R1 fails:\nk HERE ---> a:e \n\n");
    assert_eq!(closing(&c, 0), "Test passed.\n");
    assert_eq!(closing(&c, 1), "Test failed.\n");
    c.silent = true;
    assert_eq!(closing(&c, 1), "");
    assert_eq!(print_recognized_prefix(&c, &pairs, 1, "R1"), "");
}

#[test]
fn pair_test_run() {
    let mut c = common("hfst-pair-test");
    let r = hfst_cli::pair_test::run(&c, &None, false, false).err().unwrap();
    assert_eq!(r.messages[0].text, "hfst-pair-test: The rule transducer file needs to be given using option -i.\n");
    c.input_filename = "rules.hfst".to_string();
    let o = hfst_cli::pair_test::run(&c, &None, true, false).ok().unwrap();
    assert_eq!(o.pair_test_file_name, "<stdin>");
    assert!(!o.positive_test);
}


#[test]
fn run_exit_code_is_first_failed_verdict() {
    assert_eq!(overall(&vec![]), 0);
    assert_eq!(overall(&vec![0, 0, 0]), 0);
    assert_eq!(overall(&vec![0, 1, 0]), 1);
    assert_eq!(overall(&vec![0, 2, 1]), 2);
    assert_eq!(overall(&vec![1, 0]), 1);
}
