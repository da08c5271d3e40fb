use hfst_cli::common::{initial_common, Channel, CommonOptions, Report};
use hfst_cli::optimized_lookup::FloatOption;
use hfst_cli::optimized_lookup::Pause;
use hfst_cli::optimized_lookup::Variant;
use hfst_cli::optimized_lookup::command_line;
use hfst_cli::optimized_lookup::default_options;
use hfst_cli::optimized_lookup::input_path;
use hfst_cli::optimized_lookup::parse_leading_i32;
use hfst_cli::optimized_lookup::path_output;
use hfst_cli::optimized_lookup::print_unweighted;
use hfst_cli::optimized_lookup::read_options;
use hfst_cli::optimized_lookup::require_input;
use hfst_cli::optimized_lookup::run;
use hfst_cli::optimized_lookup::strip_trailing_zeros;
use hfst_cli::optimized_lookup::variant;
use hfst_cli::optimized_lookup::{beam_reference, print_weighted, Weighted};

fn argv(words: &[&str]) -> Vec<String> {
    words.iter().map(|w| w.to_string()).collect()
}

fn texts(r: &Report) -> Vec<(Channel, String)> {
    r.messages.iter().map(|m| (m.channel, m.text.clone())).collect()
}

fn common(name: &str) -> CommonOptions {
    initial_common(name)
}


fn ol_read(words: &[&str]) -> Result<hfst_cli::optimized_lookup::Options, Report> {
    let mut s = run(&argv(words));
    let mut from = 0usize;
    loop {
        match read_options(&s.common, &mut s.options, &s.events, from) {
            Pause::Done => return Ok(s.options),
            Pause::End(r) => return Err(r),
            Pause::Float { at, .. } => from = at + 1,
        }
    }
}

#[test]
fn optimized_lookup_options() {
    let o = ol_read(&["hfst-optimized-lookup", "-u", "-e", "-n", " +3", "t.hfstol"]).ok().unwrap();
    assert!(o.display_unique_flag && o.echo_inputs_flag);
    assert_eq!(o.max_analyses, 3);
    let o = ol_read(&["hfst-optimized-lookup", "-q"]).ok().unwrap();
    assert!(o.display_weights_flag && !o.verbose_flag);
    let o = ol_read(&["hfst-optimized-lookup", "--pipe-mode"]).ok().unwrap();
    assert!(o.pipe_input && o.pipe_output);
    let o = ol_read(&["hfst-optimized-lookup", "--pipe-mode=in"]).ok().unwrap();
    assert!(o.pipe_input && !o.pipe_output);
}

#[test]
fn optimized_lookup_pauses_at_floats() {
    let mut s = run(&argv(&["hfst-optimized-lookup", "-w", "-b", "0.5", "-f"]));
    match read_options(&s.common, &mut s.options, &s.events, 0) {
        Pause::Float { at, option, arg } => {
            assert_eq!(at, 1);
            assert!(option == FloatOption::Beam);
            assert_eq!(arg, "0.5");
        }
        _ => panic!("expected a pause"),
    }
    assert!(s.options.display_weights_flag && !s.options.be_fast);
    assert!(matches!(read_options(&s.common, &mut s.options, &s.events, 2), Pause::Done));
    assert!(s.options.be_fast);
}

#[test]
fn optimized_lookup_refusals() {
    let r = ol_read(&["hfst-optimized-lookup", "-n", "0"]).err().unwrap();
    assert_eq!(texts(&r), vec![(Channel::Stderr, "Invalid or no argument for analyses count\n".to_string())]);
    let r = ol_read(&["hfst-optimized-lookup", "-pboth2"]).err().unwrap();
    assert_eq!(texts(&r), vec![(Channel::Stderr, "--pipe-mode argument both2 unrecognised\n\n".to_string())]);
    let r = ol_read(&["hfst-optimized-lookup", "-k"]).err().unwrap();
    assert_eq!(r.code, 1);
    assert_eq!(r.messages[0].text, "Invalid option\n\n");
    assert_eq!(r.messages[1].channel, Channel::Stdout);
    let r = ol_read(&["hfst-optimized-lookup", "-V"]).err().unwrap();
    assert_eq!(texts(&r), vec![(Channel::Stdout, "\nhfst-optimized-lookup 1.2\n".to_string())]);
}

#[test]
fn optimized_lookup_input_path() {
    assert_eq!(input_path(&argv(&[])).ok().unwrap(), None);
    assert_eq!(input_path(&argv(&["a"])).ok().unwrap(), Some("a".to_string()));
    let r = input_path(&argv(&["a", "b"])).err().unwrap();
    assert_eq!(r.messages[0].text, "More than one input file given\n");
    let r = require_input(None).err().unwrap();
    assert_eq!(r.messages[0].text, "No input file given\n");
}

#[test]
fn leading_integers() {
    assert_eq!(parse_leading_i32("12abc"), 12);
    assert_eq!(parse_leading_i32("\t -7"), -7);
    assert_eq!(parse_leading_i32("+"), 0);
    assert_eq!(parse_leading_i32("x1"), 0);
    assert_eq!(parse_leading_i32("2147483647"), 2147483647);
    assert_eq!(parse_leading_i32("2147483648"), 0);
    assert_eq!(parse_leading_i32("-2147483648"), -2147483648);
    assert_eq!(parse_leading_i32("\u{3000}5"), 5);
}

#[test]
fn plain_numerals_read_alike() {
    for s in ["0", "15", "-3", "+42", "2147483647", "-2147483648"] {
        let strict = hfst_cli::numbers::parse_i32(s).unwrap();
        assert_eq!(hfst_cli::optimized_lookup::parse_leading_i32(s), strict);
    }
}

#[test]
fn trailing_zeros() {
    assert_eq!(strip_trailing_zeros("0.500000"), "0.5");
    assert_eq!(strip_trailing_zeros("1.000000"), "1");
    assert_eq!(strip_trailing_zeros("100000"), "100000");
    assert_eq!(strip_trailing_zeros("1.23457"), "1.23457");
    assert_eq!(strip_trailing_zeros("0.000100"), "0.0001");
}

#[test]
fn unweighted_layouts() {
    let mut o = default_options();
    let a = argv(&["cat+N", "cat+V", "cat+N"]);
    assert_eq!(print_unweighted(false, &a, &o, "cat"), "cat\tcat+N\ncat\tcat+V\ncat\tcat+N\n\n");
    assert_eq!(print_unweighted(true, &a, &o, "cat"), "cat\tcat+N\ncat\tcat+V\n\n");
    assert_eq!(print_unweighted(false, &argv(&[]), &o, "dog"), "dog\tdog\t+?\n\n");
    o.max_analyses = 1;
    assert_eq!(print_unweighted(false, &a, &o, "cat"), "cat\tcat+N\n\n");
    o.be_fast = true;
    assert_eq!(print_unweighted(false, &a, &o, "cat"), "");
    assert_eq!(print_unweighted(true, &a, &o, "cat"), "cat\tcat+N\n\n");
}

#[test]
fn path_outputs_and_variants() {
    assert_eq!(path_output(&argv(&["c", "a", "+N"])), "ca+N");
    assert!(variant(false, false) == Variant::Plain);
    assert!(variant(true, true) == Variant::WUniq);
}


fn weighted(list: &[(u64, &str, &str)]) -> Vec<Weighted> {
    list.iter()
        .map(|(rank, output, weight)| Weighted { rank: *rank, output: output.to_string(), weight: weight.to_string() })
        .collect()
}

fn found() -> Vec<Weighted> {
    weighted(&[(2, "b+N", "2"), (1, "a+V", "1.5"), (0, "b+N", "0.5"), (1, "c", "1.5")])
}

#[test]
fn beam_references() {
    assert_eq!(beam_reference(false, &found()), Some(2));
    assert_eq!(beam_reference(true, &found()), Some(1));
    assert_eq!(beam_reference(false, &weighted(&[])), None);
}

#[test]
fn weighted_layouts_by_rising_weight() {
    let mut o = default_options();
    o.display_weights_flag = true;
    let all = vec![true; 4];
    assert_eq!(
        print_weighted(false, &found(), &all, &o, "in"),
        "in\tb+N\t0.5\nin\ta+V\t1.5\nin\tc\t1.5\nin\tb+N\t2\n\n"
    );
    // each output once, at the weight it was first found with
    assert_eq!(print_weighted(true, &found(), &all, &o, "in"), "in\ta+V\t1.5\nin\tc\t1.5\nin\tb+N\t2\n\n");
    assert_eq!(print_weighted(false, &weighted(&[]), &vec![], &o, "in"), "in\tin\t+?\n\n");
}

#[test]
fn weighted_layouts_cut_and_beam() {
    let mut o = default_options();
    o.max_analyses = 2;
    let beam = vec![true, true, false, true];
    // the plain layout cuts first, then drops what is outside the beam
    assert_eq!(print_weighted(false, &found(), &beam, &o, "in"), "in\ta+V\n\n");
    // the unique layout drops what is outside the beam, then cuts
    assert_eq!(print_weighted(true, &found(), &beam, &o, "in"), "in\ta+V\nin\tc\n\n");
    o.max_analyses = 0;
    assert_eq!(print_weighted(false, &found(), &beam, &o, "in"), "\n");
}

fn ol_command_line(words: &[&str], negative_at: &[usize]) -> Result<(hfst_cli::optimized_lookup::Options, String), Report> {
    let s = run(&argv(words));
    let negative: Vec<bool> = (0..s.events.len()).map(|i| negative_at.contains(&i)).collect();
    command_line(&s, &negative)
}

#[test]
fn command_line_refusals() {
    let r = ol_command_line(&["hfst-optimized-lookup"], &[]).err().unwrap();
    assert_eq!(r.code, 1);
    assert_eq!(texts(&r), vec![(Channel::Stderr, "No input file given\n".to_string())]);
    let r = ol_command_line(&["hfst-optimized-lookup", "a.hfst", "b.hfst"], &[]).err().unwrap();
    assert_eq!(r.code, 1);
    assert_eq!(texts(&r), vec![(Channel::Stderr, "More than one input file given\n".to_string())]);
    let r = ol_command_line(&["hfst-optimized-lookup", "-n", "0", "a.hfst"], &[]).err().unwrap();
    assert_eq!(r.code, 1);
    assert_eq!(texts(&r), vec![(Channel::Stderr, "Invalid or no argument for analyses count\n".to_string())]);
    let r = ol_command_line(&["hfst-optimized-lookup", "-b", "-1", "a.hfst"], &[0]).err().unwrap();
    assert_eq!(r.code, 1);
    assert_eq!(texts(&r), vec![(Channel::Stderr, "Invalid argument for --beam\n".to_string())]);
    let r = ol_command_line(&["hfst-optimized-lookup", "-w", "-t", "-2", "a.hfst"], &[1]).err().unwrap();
    assert_eq!(texts(&r), vec![(Channel::Stderr, "Invalid argument for --time-cutoff\n".to_string())]);
    // the options are read in order: the first refusal wins
    let r = ol_command_line(&["hfst-optimized-lookup", "-b", "-1", "-n", "0"], &[0]).err().unwrap();
    assert_eq!(texts(&r), vec![(Channel::Stderr, "Invalid argument for --beam\n".to_string())]);
}

#[test]
fn command_line_settings() {
    let (o, path) = ol_command_line(&["hfst-optimized-lookup", "-u", "-b", "0.5", "-n", "2", "a.hfst"], &[]).ok().unwrap();
    assert_eq!(path, "a.hfst");
    assert!(o.display_unique_flag);
    assert_eq!(o.max_analyses, 2);
    let (o, path) = ol_command_line(&["hfst-optimized-lookup", "t.hfstol"], &[]).ok().unwrap();
    assert_eq!(path, "t.hfstol");
    assert_eq!(o.max_analyses, i32::MAX);
}

#[test]
fn unique_beam_measured_from_best() {
    let items = weighted(&[(1, "a", "2"), (0, "b", "0.5")]);
    assert_eq!(beam_reference(true, &items), Some(1));
    assert_eq!(beam_reference(false, &items), Some(1));
    let o = default_options();
    // a beam of 0.1 from the best analysis (b, 0.5) leaves a (2.0) out
    assert_eq!(print_weighted(true, &items, &vec![false, true], &o, "w"), "w\tb\n\n");
}
