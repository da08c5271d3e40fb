use hfst_cli::preprocess_for_ol::{rebuilding, removing, result_label};
use hfst_cli::priority_disjunct::PriorityDisjunctOp;
use hfst_cli::shuffle::ShuffleOp;
use hfst_cli::subtract::SubtractOp;

#[test]
fn flags_in_second_always_warned() {
    let op = SubtractOp { harmonize: true, harmonize_flags: false };
    let (w, h) = op.flag_check(true, "b.hfst", false, true);
    assert_eq!(w, vec!["Warning: b.hfst contains flag diacritics. The result of subtraction may be incorrect.".to_string()]);
    assert!(!h);
}

#[test]
fn flags_on_both_sides() {
    let op = SubtractOp { harmonize: true, harmonize_flags: false };
    let (w, h) = op.flag_check(false, "b.hfst", true, true);
    assert_eq!(w.len(), 2);
    assert_eq!(w[1], "The argumentes contain flag diacritics. Use -F to harmonize them.");
    assert!(!h);
    let (w, _) = op.flag_check(true, "b.hfst", true, true);
    assert_eq!(w.len(), 1);
    let op = SubtractOp { harmonize: true, harmonize_flags: true };
    let (w, h) = op.flag_check(false, "b.hfst", true, true);
    assert_eq!(w.len(), 1);
    assert!(h);
}

#[test]
fn no_flags_no_warning() {
    let op = SubtractOp { harmonize: false, harmonize_flags: true };
    let (w, h) = op.flag_check(false, "b.hfst", true, false);
    assert!(w.is_empty());
    assert!(!h);
}

#[test]
fn pair_texts() {
    let op = SubtractOp { harmonize: true, harmonize_flags: false };
    assert_eq!(op.verbose_begin("a.hfst", "b.hfst"), "Subtracting b.hfst from a.hfst");
    assert_eq!(op.name_op(), "subtract");
    assert_eq!(op.formula(), "\u{2212}");
    assert_eq!(ShuffleOp.verbose_begin("cat.hfst", "dog.hfst"), "Shuffling cat.hfst and dog.hfst");
    assert_eq!(ShuffleOp.name_op(), "shuffle");
}

#[test]
fn priority_union_texts() {
    assert_eq!(PriorityDisjunctOp.verbose_begin("a", "b"), "Disjuncting a and b");
    assert_eq!(PriorityDisjunctOp.name_op(), "union");
    assert_eq!(PriorityDisjunctOp.formula(), "\u{222a}");
}

#[test]
fn preprocessing_texts() {
    assert_eq!(removing("t", 1), "Removing epsilons t...\n");
    assert_eq!(removing("t", 2), "Removing epsilons t...2\n");
    assert_eq!(rebuilding("t", 1), "Rebuilding and fixing t...\n");
    assert_eq!(rebuilding("t", 2), "Rebuilding and fisting t...2\n");
    assert_eq!(result_label(), ("fu", "FU"));
}
