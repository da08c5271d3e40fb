use hfst_cli::traverse::{greeting, listing, nowhere, opening, run, start, step, Arc};

fn arc(i: &str, o: &str, t: u32) -> Arc {
    Arc { input: i.to_string(), output: o.to_string(), target: t }
}

fn graph() -> Vec<Vec<Arc>> {
    vec![vec![arc("a", "b", 1), arc("a", "c", 2), arc("x", "y", 0)], vec![], vec![arc("d", "d", 2)]]
}

#[test]
fn walk_along_labels() {
    let g = graph();
    let (mut w, first) = start();
    assert_eq!(first, "Enter labels to seek all paths\n");
    assert_eq!(listing(&g, &w), "On path `' are continuations:\na\tb\na\tc\nx\ty\n");
    assert_eq!(step(&g, &mut w, "a"), "");
    assert_eq!(
        listing(&g, &w),
        "On path `a:b ' are continuations:\n<Nothing, you've hit a dead end here>\nOn path `a:c ' are continuations:\nd\td\n"
    );
    assert_eq!(step(&g, &mut w, "d"), "");
    assert_eq!(w.paths, vec![("a:c d:d ".to_string(), 2)]);
}

#[test]
fn stuck_labels_keep_paths() {
    let g = graph();
    let (mut w, _) = start();
    assert_eq!(step(&g, &mut w, "q"), "could not advance with q\n");
    assert_eq!(w.paths, vec![(String::new(), 0)]);
    assert_eq!(step(&g, &mut w, "quit"), "Use EOF (Ctrl-D or similar) to quit\ncould not advance with quit\n");
    assert_eq!(step(&g, &mut w, ""), "Use EOF (Ctrl-D or similar) to quit\ncould not advance with \n");
    assert_eq!(step(&g, &mut w, "XYZZY"), "Nothing happens\ncould not advance with XYZZY\n");
}

#[test]
fn paths_kept_in_order() {
    let g = vec![vec![arc("a", "2", 0), arc("a", "1", 0), arc("a", "2", 0)]];
    let (mut w, _) = start();
    step(&g, &mut w, "a");
    assert_eq!(
        w.paths,
        vec![("a:1 ".to_string(), 0), ("a:2 ".to_string(), 0), ("a:2 ".to_string(), 0)]
    );
}

#[test]
fn traverse_greetings() {
    assert_eq!(greeting(false, "t.hfst"), "Traversing automaton t.hfst\n\n");
    assert!(greeting(true, "t.hfst").starts_with("WELCOME TO ADVENTURE!!"));
    assert!(opening("yes").starts_with("SOMEWHERE NEARBY IS COLOSSAL CAVE"));
    assert!(opening("no").starts_with("YOU ARE STANDING"));
    assert_eq!(nowhere(&vec![]), Some("Nowhere to go\n".to_string()));
    assert_eq!(nowhere(&graph()), None);
}

#[test]
fn traverse_command_line() {
    let argv: Vec<String> = ["hfst-traverse", "-X", "in.hfst"].iter().map(|s| s.to_string()).collect();
    let p = run(&argv).unwrap();
    assert!(p.cave);
    assert_eq!(p.common.input_filename, "in.hfst");
    let argv: Vec<String> = ["hfst-traverse", "-Y"].iter().map(|s| s.to_string()).collect();
    assert_eq!(run(&argv).err().unwrap().code, 1);
}
