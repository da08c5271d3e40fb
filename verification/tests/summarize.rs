use hfst_cli::common::{initial_common, Channel, CommonOptions, Report};
use hfst_cli::lexc_compiler::FormatType;
use hfst_cli::summarize::PairCount;
use hfst_cli::summarize::Summary;
use hfst_cli::summarize::join;
use hfst_cli::summarize::missing;
use hfst_cli::summarize::pair_statistics;
use hfst_cli::summarize::report;
use hfst_cli::summarize::run;
use hfst_cli::summarize::summarizing;
use hfst_cli::summarize::symbol_listings;
use hfst_cli::summarize::threshold_text;
use hfst_cli::summarize::total;

fn argv(words: &[&str]) -> Vec<String> {
    words.iter().map(|w| w.to_string()).collect()
}

fn texts(r: &Report) -> Vec<(Channel, String)> {
    r.messages.iter().map(|m| (m.channel, m.text.clone())).collect()
}

fn common(name: &str) -> CommonOptions {
    initial_common(name)
}


#[test]
fn summarize_report() {
    let s = Summary {
        name: "t".to_string(),
        format: FormatType::Foma,
        states: 3,
        arcs: 4,
        final_states: 1,
        io_epsilons: 0,
        input_epsilons: 2,
        output_epsilons: 1,
        acceptor: true,
        input_deterministic: false,
        output_deterministic: true,
        cyclic: false,
        cyclic_at_initial_state: false,
    };
    let r = report(1, &s);
    assert!(r.starts_with("name: \"t\"\nfst type: foma\narc type: foma\ninput symbol table: yes\n"));
    assert!(r.contains("# of states: 3\n# of arcs: 4\ninitial state: 0\n# of final states: 1\n"));
    assert!(r.contains("mutable: yes\nacceptor: yes\ninput deterministic: no\noutput deterministic: yes\n"));
    assert!(r.contains("weighted: no\ncyclic: no\n"));
    assert!(r.ends_with("minimised: ???\n"));
    assert!(report(2, &s).starts_with("-- \nTransducer #2:\nname: \"t\"\n"));
}

#[test]
fn summarize_symbols() {
    let alphabet = argv(&["a", "b", "c"]);
    let found = argv(&["b"]);
    assert_eq!(missing(&alphabet, &found), argv(&["a", "c"]));
    assert_eq!(join(&alphabet), "a, b, c");
    assert_eq!(join(&argv(&[])), "");
    assert_eq!(
        symbol_listings(&alphabet, &found, &None),
        "sigma set:\na, b, c\narc symbols actually seen in transducer:\nb\nsigma symbols missing from transducer:\na, c\n"
    );
}

#[test]
fn summarize_pairs() {
    let v = vec![
        PairCount { input: "a".to_string(), output: "a".to_string(), count: 3 },
        PairCount { input: "a".to_string(), output: "b".to_string(), count: 1 },
    ];
    assert_eq!(pair_statistics(2, &v), "symbol pairs that occur at most 2 times:\na:b\t1\n\n");
    assert_eq!(pair_statistics(-1, &v), "symbol pairs:\na:a\t3\na:b\t1\n\n");
}

#[test]
fn summarize_threshold() {
    let c = common("hfst-summarize");
    assert_eq!(run(&c, None).ok().unwrap(), (false, -1));
    assert_eq!(run(&c, Some(None)).ok().unwrap(), (true, -1));
    assert_eq!(run(&c, Some(Some(5))).ok().unwrap(), (true, 5));
    assert_eq!(
        run(&c, Some(Some(0))).err().unwrap().messages[0].text,
        "hfst-summarize: 0 is not a valid argument for option --print-symbol-pair-statistics\n\n"
    );
    assert_eq!(
        run(&c, Some(Some(4294967295))).err().unwrap().messages[0].text,
        "hfst-summarize: 4294967295 is not a valid argument for option --print-symbol-pair-statistics\n\n"
    );
    assert_eq!(threshold_text("=5"), "5");
    assert_eq!(summarizing(1), "Summarizing...\n");
    assert_eq!(summarizing(2), "Summarizing... 2\n");
    assert_eq!(total(2), "\nRead 2 transducers in total.\n");
}
