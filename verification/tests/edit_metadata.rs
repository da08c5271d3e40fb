use clap::{Arg, ArgAction, Command};
use hfst_cli::common::initial_common;
use hfst_cli::edit_metadata::{all_lines, before, edit, named_property, print_all_properties, properties};

/// The positions the argument parser gives `-a` and `-p`, and `-p`'s
/// value, for a command line.
fn parse(argv: &[&str]) -> (Option<usize>, Option<usize>, Option<String>) {
    let m = Command::new("hfst-edit-metadata")
        .arg(Arg::new("add").short('a').long("add").value_name("ANAME=VALUE").action(ArgAction::Append))
        .arg(
            Arg::new("print_name")
                .short('p')
                .long("print-name")
                .value_name("NAME")
                .num_args(0..=1)
                .require_equals(true)
                .default_missing_value("\0"),
        )
        .try_get_matches_from(argv)
        .expect("argv parses");
    let last_add = m.indices_of("add").and_then(|i| i.max());
    let print_at = m.index_of("print_name");
    let print_name = m.get_one::<String>("print_name").cloned();
    (last_add, print_at, print_name)
}

fn print_all(argv: &[&str]) -> bool {
    let (last_add, print_at, print_name) = parse(argv);
    let bare = print_name.as_deref() == Some("\0");
    print_all_properties(last_add, print_at, bare)
}

#[test]
fn add_and_bare_print_resolve_by_position() {
    assert!(print_all(&["hfst-edit-metadata"]));
    assert!(print_all(&["hfst-edit-metadata", "-p"]));
    assert!(print_all(&["hfst-edit-metadata", "--print-name=name"]));
    assert!(!print_all(&["hfst-edit-metadata", "-a", "k=v"]));
    assert!(print_all(&["hfst-edit-metadata", "-a", "k=v", "-p"]));
    assert!(!print_all(&["hfst-edit-metadata", "-p", "-a", "k=v"]));
}

#[test]
fn only_an_attached_value_names_a_property() {
    assert_eq!(named_property(&parse(&["hfst-edit-metadata", "-p"]).2), None);
    assert_eq!(
        named_property(&parse(&["hfst-edit-metadata", "--print-name=name"]).2),
        Some("name".to_string())
    );
}

fn strings(v: &[&str]) -> Vec<String> {
    v.iter().map(|s| s.to_string()).collect()
}

#[test]
fn properties_sorted_last_value_wins() {
    let c = initial_common("hfst-edit-metadata");
    let p = properties(&c, &strings(&["name=a", "author=me", "name=b=c"])).unwrap();
    assert_eq!(
        p,
        vec![("author".to_string(), "me".to_string()), ("name".to_string(), "b=c".to_string())]
    );
    let r = properties(&c, &strings(&["name=a", "broken", "x"])).unwrap_err();
    assert_eq!(r.code, 1);
    assert_eq!(r.messages[0].text, "hfst-edit-metadata: Equals sign `=' missing from broken\n");
}

#[test]
fn setting_properties() {
    let c = initial_common("hfst-edit-metadata");
    let p = properties(&c, &strings(&["type=foma", "name=\u{e9}t\u{e9}", "version=3"])).unwrap();
    let e = edit(&c, &p, 0);
    assert!(e.end.is_none());
    assert_eq!(e.warnings.len(), 2);
    assert!(e.warnings[0].starts_with("Changing `type' metadata"));
    assert!(e.warnings[1].starts_with("Changing `version'"));
    assert_eq!(e.set.len(), 3);
    let e = edit(&c, &p, 1);
    assert_eq!(e.set[0], ("name".to_string(), "\u{fffd}".to_string()));
    let bad = properties(&c, &strings(&["character-encoding=latin-1", "z=1"])).unwrap();
    let e = edit(&c, &bad, 0);
    assert!(e.set.is_empty());
    assert_eq!(
        e.end.unwrap().messages[0].text,
        "hfst-edit-metadata: Cannot set `character-encoding' to unsupported value;\nconsider recoding sources of automaton\n"
    );
    let ok = properties(&c, &strings(&["character-encoding=UTF-8"])).unwrap();
    assert!(edit(&c, &ok, 0).end.is_none());
}

#[test]
fn printing_properties() {
    let props = vec![("a".to_string(), "1".to_string()), ("b".to_string(), "2".to_string())];
    assert_eq!(all_lines(&props), "a: 1\nb: 2\n");
    let mut c = initial_common("hfst-edit-metadata");
    assert!(before(&c, true, 1).is_empty());
    assert_eq!(before(&c, true, 2)[0].text, "--- \n");
    c.verbose = true;
    let m = before(&c, false, 2);
    assert_eq!(m.len(), 1);
    assert_eq!(m[0].text, "Metadata <stdin>...2\n");
}
