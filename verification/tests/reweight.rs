use hfst_cli::common::{initial_common, Channel, CommonOptions, Report};
use hfst_cli::reweight::Args;
use hfst_cli::reweight::Matcher;
use hfst_cli::reweight::MathFunction;
use hfst_cli::reweight::TsvLine;
use hfst_cli::reweight::applies;
use hfst_cli::reweight::condition_lines;
use hfst_cli::reweight::function;
use hfst_cli::reweight::reweighting_line;
use hfst_cli::reweight::run;
use hfst_cli::reweight::tsv_line;

fn argv(words: &[&str]) -> Vec<String> {
    words.iter().map(|w| w.to_string()).collect()
}

fn texts(r: &Report) -> Vec<(Channel, String)> {
    r.messages.iter().map(|m| (m.channel, m.text.clone())).collect()
}

fn common(name: &str) -> CommonOptions {
    initial_common(name)
}


#[test]
fn reweight_matching() {
    let m = Matcher { input_symbol: Some("a".to_string()), output_symbol: None, symbol: None, ends_only: false, arcs_only: false };
    assert!(applies(&m, true, Some("a"), Some("b")));
    assert!(!applies(&m, true, Some("b"), Some("a")));
    assert!(applies(&m, true, None, None));
    assert!(!applies(&m, false, Some("a"), Some("b")));
    let both = Matcher { input_symbol: Some("a".to_string()), output_symbol: Some("b".to_string()), symbol: None, ends_only: false, arcs_only: true };
    assert!(applies(&both, true, Some("x"), Some("b")));
    assert!(!applies(&both, true, Some("x"), Some("y")));
    assert!(!applies(&both, true, None, None));
    let sym = Matcher { input_symbol: None, output_symbol: None, symbol: Some("s".to_string()), ends_only: true, arcs_only: false };
    assert!(!applies(&sym, true, Some("s"), Some("s")));
}

#[test]
fn reweight_tables() {
    assert!(matches!(tsv_line("\n"), TsvLine::Skip));
    assert!(matches!(tsv_line("# c"), TsvLine::Skip));
    assert!(matches!(tsv_line("abc\n"), TsvLine::NoTab));
    match tsv_line("a\t+1.5\n") {
        TsvLine::Rule(r) => {
            assert_eq!(r.symbol, "a");
            assert!(r.additive);
            assert_eq!(r.weight, "1.5");
        }
        _ => panic!("rule expected"),
    }
    match tsv_line("b\t2") {
        TsvLine::Rule(r) => {
            assert!(!r.additive);
            assert_eq!(r.weight, "2");
        }
        _ => panic!("rule expected"),
    }
}

#[test]
fn reweight_run() {
    let c = common("hfst-reweight");
    let a = Args { function: Some("log10".to_string()), input_symbol: None, output_symbol: None, symbol: Some("x".to_string()), end_states_only: false, arcs_only: true, tsv: None };
    let p = run(&c, a).ok().unwrap();
    assert!(p.function == MathFunction::Log10);
    assert_eq!(p.funcname, "log10");
    let lines = condition_lines(&p.matcher);
    assert_eq!(lines.len(), 2);
    assert_eq!(lines[0].text, "only if arc has symbol x\n");
    assert_eq!(lines[1].text, "only on arc weights, no end states\n");
    let a = Args { function: Some("cube".to_string()), input_symbol: None, output_symbol: None, symbol: None, end_states_only: true, arcs_only: true, tsv: None };
    assert_eq!(run(&c, a).err().unwrap().messages[0].text, "hfst-reweight: Cannot parse cube as function name\n");
    let a = Args { function: None, input_symbol: None, output_symbol: None, symbol: None, end_states_only: true, arcs_only: true, tsv: None };
    assert_eq!(
        run(&c, a).err().unwrap().messages[0].text,
        "hfst-reweight: Options '--arcs-only' and '--end-states-only' cannot be used at the same time\n"
    );
    assert!(function("log") == Some(MathFunction::Log));
    assert_eq!(reweighting_line("t", 1), "Reweighting t...\n");
    assert_eq!(reweighting_line("t", 3), "Reweighting t...3\n");
    assert_eq!(hfst_cli::reweight::no_tab(&c, "w.tsv", 4).messages[0].text, "hfst-reweight:w.tsv:4: at least one tab required per line\n");
}

