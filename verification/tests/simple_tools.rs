use hfst_cli::affix_guessify::{direction, guessifying, GuessDirection};
use hfst_cli::common::initial_common;
use hfst_cli::insert_freely::{harmonise_flags, inserts_into, label_text, no_pair};
use hfst_cli::kill_paths::{check_options, could_not_open, killing, killing_symbol, plan_lines, rule_symbol};

fn some(s: &str) -> Option<String> {
    Some(s.to_string())
}

#[test]
fn kill_paths_options() {
    let c = initial_common("hfst-kill-paths");
    let r = check_options(&c, &None, &None).unwrap();
    assert_eq!(r.messages[0].text, "hfst-kill-paths: Either --symbol or --tsv-file is required\n");
    assert!(check_options(&c, &some("a"), &None).is_none());
    assert_eq!(could_not_open(&c, "k.tsv").messages[0].text, "hfst-kill-paths: Could not open 'k.tsv'\n");
    assert_eq!(plan_lines(&some("x")), "Killing paths\nonly if arc has symbol x\n");
    assert_eq!(plan_lines(&None), "Killing paths\n");
    assert_eq!(killing("t", 1), "Path killing t...\n");
    assert_eq!(killing("t", 2), "Path killing t...2\n");
}

#[test]
fn kill_paths_rule_lines() {
    assert_eq!(rule_symbol("sym\n"), some("sym"));
    assert_eq!(rule_symbol("last"), some("last"));
    assert_eq!(rule_symbol("\n"), None);
    assert_eq!(rule_symbol("# comment\n"), None);
    assert_eq!(rule_symbol("a\tb\n"), some("a\tb"));
    assert_eq!(killing_symbol("x"), "Killing patsh with symbol x\n");
}

#[test]
fn guess_directions() {
    let c = initial_common("hfst-affix-guessify");
    assert_eq!(direction(&c, &None).unwrap(), GuessDirection::GuessSuffix);
    assert_eq!(direction(&c, &some("prefixes")).unwrap(), GuessDirection::GuessPrefix);
    assert_eq!(direction(&c, &some("suffix")).unwrap(), GuessDirection::GuessSuffix);
    let r = direction(&c, &some("infix")).unwrap_err();
    assert_eq!(
        r.messages[0].text,
        "hfst-affix-guessify: Unable to parse guessing direction from infix;\nplease use one of 'prefix' or 'suffix'\n"
    );
    assert_eq!(guessifying("t", 1), "Guessifying t...\n");
    assert_eq!(guessifying("t", 3), "Guessifying t... 3\n");
}

#[test]
fn insert_freely_labels() {
    let c = initial_common("hfst-insert-freely");
    assert_eq!(label_text(&c, &some("@0@")).unwrap(), some("@_EPSILON_SYMBOL_@"));
    assert_eq!(label_text(&c, &some("a:b")).unwrap(), some("a:b"));
    assert_eq!(label_text(&c, &None).unwrap(), None);
    assert_eq!(label_text(&c, &some("")).unwrap_err().code, 1);
    assert_eq!(no_pair(&c, &None).messages[0].text, "hfst-insert-freely: no symbol pair given; use -a SYM:SYM\n");
    assert_eq!(
        no_pair(&c, &some("ab")).messages[0].text,
        "hfst-insert-freely: symbol pair 'ab' has no colon; give it as SYM:SYM\n"
    );
    assert!(harmonise_flags(false, &some("x")));
    assert!(!harmonise_flags(false, &None));
    assert!(inserts_into(1));
    assert!(!inserts_into(2));
}
