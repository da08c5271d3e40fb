use hfst_cli::pmatch2fst::{empty_ruleset, include_dir, run, worth_compiling};

fn argv(words: &[&str]) -> Vec<String> {
    words.iter().map(|w| w.to_string()).collect()
}

#[test]
fn pmatch2fst_options() {
    let p = run(&argv(&["hfst-pmatch2fst", "-e", "0", "--flatten", "rules.pmatch"])).unwrap();
    assert_eq!(p.options.epsilonname.as_deref(), Some("0"));
    assert!(p.options.flatten);
    assert!(!p.options.include_cosine_distances);
    assert_eq!(p.common.input_filename, "rules.pmatch");
    let p = run(&argv(&["hfst-pmatch2fst", "--cosine-distances"])).unwrap();
    assert!(p.options.include_cosine_distances);
    let r = run(&argv(&["hfst-pmatch2fst", "--help"])).err().unwrap();
    assert!(r.messages[0].text.contains("LC({professor}) EndTag(ProfName);\" | hfst-pmatch2fst \n"));
}

#[test]
fn include_directories() {
    assert_eq!(include_dir("<stdin>", "/home/u"), "");
    assert_eq!(include_dir("/data/rules/a.pmatch", "/home/u"), "/data/rules/");
    assert_eq!(include_dir("sub/a.pmatch", "/home/u"), "/home/u/sub/");
    assert_eq!(include_dir("a.pmatch", "/home/u"), "/home/u/");
}

#[test]
fn compiling_needs_rules() {
    assert!(!worth_compiling(""));
    assert!(!worth_compiling("a"));
    assert!(worth_compiling("\u{e9}"));
    assert!(worth_compiling("ab"));
    let c = hfst_cli::common::initial_common("hfst-pmatch2fst");
    assert_eq!(empty_ruleset(&c).messages[0].text, "hfst-pmatch2fst: Empty ruleset, nothing to write\n");
}
