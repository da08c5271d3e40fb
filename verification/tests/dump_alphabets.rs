use hfst_cli::dump_alphabets::{alphadumping, announce, closing, dump, dump_format, is_multichar, AlphaDumpFormat, Options};

fn strings(v: &[&str]) -> Vec<String> {
    v.iter().map(|s| s.to_string()).collect()
}

#[test]
fn formats() {
    let (f, m, note) = dump_format(&None).unwrap();
    assert_eq!(f, AlphaDumpFormat::Tsv);
    assert!(!m);
    assert_eq!(note, "");
    let (f, m, note) = dump_format(&Some("vislcg3-tags".to_string())).unwrap();
    assert_eq!(f, AlphaDumpFormat::Vislcg3Tags);
    assert!(m);
    assert_eq!(note, "printing STRICT-TAGS += for VISL CG 3...\n");
    let r = dump_format(&Some("xml".to_string())).unwrap_err();
    assert_eq!(r.code, 1);
    assert_eq!(r.messages[0].text, "Error: unrecognised format xml\n");
}

#[test]
fn format_note_only_after_verbose() {
    assert!(announce(true, Some(1), Some(2)));
    assert!(!announce(true, Some(3), Some(2)));
    assert!(!announce(false, None, Some(2)));
}

#[test]
fn multichar_symbols() {
    assert!(is_multichar("+Noun"));
    assert!(is_multichar("@P.x@"));
    assert!(!is_multichar("+N"));
    assert!(!is_multichar("abc"));
    assert!(is_multichar("+\u{e9}"));
}

#[test]
fn dumped_alphabets() {
    let o = Options { output_format: AlphaDumpFormat::Tsv, print_seen: true, print_meta: true, only_multichars: false };
    assert_eq!(dump(&o, &strings(&["a", "b"]), &strings(&["a"])), "a\nb\na\n");
    let o = Options { output_format: AlphaDumpFormat::Vislcg3List, print_seen: false, print_meta: true, only_multichars: true };
    assert_eq!(
        dump(&o, &strings(&["+N", "+Noun", "a"]), &strings(&["+Verb"])),
        "## automatically generated VISL CG 3 file from HFST automaton's alphabet data:\n## (some statistics here TODO)\nLIST +Noun = +Noun ;\n"
    );
    let o = Options { output_format: AlphaDumpFormat::Vislcg3Tags, print_seen: true, print_meta: false, only_multichars: true };
    assert!(dump(&o, &strings(&[]), &strings(&["+Verb"])).ends_with("STRICT-TAGS +=\n\t+Verb\n"));
    assert_eq!(closing(AlphaDumpFormat::Vislcg3Tags), "\t;\n");
    assert_eq!(closing(AlphaDumpFormat::Tsv), "");
    assert_eq!(alphadumping(1), "Alphadumping...\n");
    assert_eq!(alphadumping(2), "Alphadumping... 2\n");
}
