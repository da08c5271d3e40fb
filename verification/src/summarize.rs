//! hfst-summarize: report the properties of each transducer of a stream.
//! The backend counts states, arcs and symbols; the report is laid out
//! here, except for its averages, which are floating-point numbers the
//! caller prints.

use vstd::prelude::*;
use crate::common::{CommonOptions, Report, SpecReport, spec_fail_report, fail_with};
use crate::lexc_compiler::FormatType;
use crate::sorted::strings_view;
use crate::text::{chars_of, concat2, concat3, decimal, spec_decimal, string_of_range};

verus! {

/// What the report says of a transducer type: whether it is mutable,
/// whether weighted, and its type lines.
pub open spec fn spec_kind(f: FormatType) -> (bool, bool, Seq<char>) {
    match f {
        FormatType::Sfst => (true, false, "fst type: SFST\narc type: SFST\n"@),
        FormatType::TropicalOpenfst => (true, true, "fst type: OpenFST\narc type: tropical\n"@),
        FormatType::Foma => (true, false, "fst type: foma\narc type: foma\n"@),
        FormatType::HfstOl => (false, false, "fst type: HFST optimized lookup\narc type: unweighted\n"@),
        FormatType::HfstOlw | FormatType::Thfst => (false, true, "fst type: HFST optimized lookup\narc type: weighted\n"@),
        _ => (false, true, "fst type: ???\narc type: ???\n"@),
    }
}

/// What the report says of a transducer type.
pub fn kind(f: FormatType) -> (r: (bool, bool, &'static str))
    ensures
        (r.0, r.1, r.2@) == spec_kind(f),
{
    match f {
        FormatType::Sfst => (true, false, "fst type: SFST\narc type: SFST\n"),
        FormatType::TropicalOpenfst => (true, true, "fst type: OpenFST\narc type: tropical\n"),
        FormatType::Foma => (true, false, "fst type: foma\narc type: foma\n"),
        FormatType::HfstOl => (false, false, "fst type: HFST optimized lookup\narc type: unweighted\n"),
        FormatType::HfstOlw | FormatType::Thfst => (false, true, "fst type: HFST optimized lookup\narc type: weighted\n"),
        _ => (false, true, "fst type: ???\narc type: ???\n"),
    }
}

/// The counts and properties of one transducer.
pub struct Summary {
    pub name: String,
    pub format: FormatType,
    pub states: u64,
    pub arcs: u64,
    pub final_states: u64,
    pub io_epsilons: u64,
    pub input_epsilons: u64,
    pub output_epsilons: u64,
    pub acceptor: bool,
    pub input_deterministic: bool,
    pub output_deterministic: bool,
    pub cyclic: bool,
    pub cyclic_at_initial_state: bool,
}

/// `yes` or `no`.
pub open spec fn yes_no(b: bool) -> Seq<char> {
    if b { "yes"@ } else { "no"@ }
}

fn yes_no_exec(b: bool) -> (s: &'static str)
    ensures
        s@ == yes_no(b),
{
    if b { "yes" } else { "no" }
}

/// The report on the `n`-th transducer (counted from 1), without the
/// verbose statistics: a separator from the second on, the name, the type,
/// the counts, and the properties, unknown ones as `???`.
pub open spec fn spec_report(n: int, s: Summary) -> Seq<char> {
    let k = spec_kind(s.format);
    (if n > 1 { "-- \nTransducer #"@ + spec_decimal(n as nat) + ":\n"@ } else { Seq::empty() }) + "name: \""@ + s.name@
        + "\"\n"@ + k.2 + "input symbol table: yes\noutput symbol table: yes\n# of states: "@ + spec_decimal(
        s.states as nat,
    ) + "\n# of arcs: "@ + spec_decimal(s.arcs as nat) + "\ninitial state: 0\n# of final states: "@ + spec_decimal(
        s.final_states as nat,
    ) + "\n# of input/output epsilons: "@ + spec_decimal(s.io_epsilons as nat) + "\n# of input epsilons: "@
        + spec_decimal(s.input_epsilons as nat) + "\n# of output epsilons: "@ + spec_decimal(s.output_epsilons as nat)
        + "\n# of ... accessible states: ???\n# of ... coaccessible states: ???\n# of ... connected states: ???\n# of ... strongly conn components: ???\n"@
        + "expanded: ???\nmutable: "@ + yes_no(k.0) + "\nacceptor: "@ + yes_no(s.acceptor) + "\ninput deterministic: "@
        + yes_no(s.input_deterministic) + "\noutput deterministic: "@ + yes_no(s.output_deterministic)
        + "\ninput label sorted: ???\noutput label sorted: ???\nweighted: "@ + yes_no(k.1) + "\ncyclic: "@ + yes_no(
        s.cyclic,
    ) + "\ncyclic at initial state: "@ + yes_no(s.cyclic_at_initial_state)
        + "\ntopologically sorted: ???\naccessible: ???\ncoaccessible: ???\nstring: ???\nminimised: ???\n"@
}

/// The report on the `n`-th transducer, without the verbose statistics.
pub fn report(n: u64, s: &Summary) -> (r: String)
    ensures
        r@ == spec_report(n as int, *s),
{
    let k = kind(s.format);
    let mut r = if n > 1 { concat3("-- \nTransducer #", decimal(n as u128).as_str(), ":\n") } else { String::new() };
    r.append("name: \"");
    r.append(s.name.as_str());
    r.append("\"\n");
    r.append(k.2);
    r.append("input symbol table: yes\noutput symbol table: yes\n# of states: ");
    r.append(decimal(s.states as u128).as_str());
    r.append("\n# of arcs: ");
    r.append(decimal(s.arcs as u128).as_str());
    r.append("\ninitial state: 0\n# of final states: ");
    r.append(decimal(s.final_states as u128).as_str());
    r.append("\n# of input/output epsilons: ");
    r.append(decimal(s.io_epsilons as u128).as_str());
    r.append("\n# of input epsilons: ");
    r.append(decimal(s.input_epsilons as u128).as_str());
    r.append("\n# of output epsilons: ");
    r.append(decimal(s.output_epsilons as u128).as_str());
    r.append("\n# of ... accessible states: ???\n# of ... coaccessible states: ???\n# of ... connected states: ???\n# of ... strongly conn components: ???\n");
    r.append("expanded: ???\nmutable: ");
    r.append(yes_no_exec(k.0));
    r.append("\nacceptor: ");
    r.append(yes_no_exec(s.acceptor));
    r.append("\ninput deterministic: ");
    r.append(yes_no_exec(s.input_deterministic));
    r.append("\noutput deterministic: ");
    r.append(yes_no_exec(s.output_deterministic));
    r.append("\ninput label sorted: ???\noutput label sorted: ???\nweighted: ");
    r.append(yes_no_exec(k.1));
    r.append("\ncyclic: ");
    r.append(yes_no_exec(s.cyclic));
    r.append("\ncyclic at initial state: ");
    r.append(yes_no_exec(s.cyclic_at_initial_state));
    r.append("\ntopologically sorted: ???\naccessible: ???\ncoaccessible: ???\nstring: ???\nminimised: ???\n");
    proof {
        if n <= 1 {
            assert(r@ =~= spec_report(n as int, *s));
        }
    }
    r
}

// ---------------------------------------------------------------------------
// Symbol listings
// ---------------------------------------------------------------------------

/// Symbols joined with `, `.
pub open spec fn spec_join(s: Seq<Seq<char>>) -> Seq<char>
    decreases s.len(),
{
    if s.len() == 0 {
        Seq::empty()
    } else if s.len() == 1 {
        s[0]
    } else {
        spec_join(s.drop_last()) + ", "@ + s.last()
    }
}

/// Symbols joined with `, `.
pub fn join(v: &Vec<String>) -> (r: String)
    ensures
        r@ == spec_join(strings_view(v@)),
{
    let ghost sv = strings_view(v@);
    let mut r = String::new();
    let mut i: usize = 0;
    while i < v.len()
        invariant
            sv == strings_view(v@),
            i <= v@.len(),
            r@ == spec_join(sv.subrange(0, i as int)),
        decreases v@.len() - i,
    {
        let ghost t = sv.subrange(0, i + 1);
        assert(t.drop_last() =~= sv.subrange(0, i as int));
        assert(t.last() == v@[i as int]@);
        if i > 0 {
            r.append(", ");
        } else {
            assert(r@ =~= Seq::<char>::empty());
        }
        r.append(v[i].as_str());
        proof {
            if i == 0 {
                assert(r@ =~= t[0]);
            }
        }
        i = i + 1;
    }
    assert(sv.subrange(0, sv.len() as int) =~= sv);
    r
}

/// The symbols of `alphabet` that are not in `found`, in the order of
/// `alphabet`.
pub open spec fn spec_missing(alphabet: Seq<Seq<char>>, found: Seq<Seq<char>>) -> Seq<Seq<char>> {
    alphabet.filter(|s: Seq<char>| !found.contains(s))
}

fn contains_str(v: &Vec<String>, x: &str) -> (r: bool)
    ensures
        r == strings_view(v@).contains(x@),
{
    let ghost sv = strings_view(v@);
    let mut i: usize = 0;
    while i < v.len()
        invariant
            sv == strings_view(v@),
            i <= v@.len(),
            forall|j: int| 0 <= j < i ==> sv[j] != x@,
        decreases v@.len() - i,
    {
        if crate::text::str_eq(v[i].as_str(), x) {
            assert(sv[i as int] == x@);
            return true;
        }
        assert(sv[i as int] == v@[i as int]@);
        i = i + 1;
    }
    false
}

/// The symbols of `alphabet` that are not in `found`.
pub fn missing(alphabet: &Vec<String>, found: &Vec<String>) -> (r: Vec<String>)
    ensures
        strings_view(r@) == spec_missing(strings_view(alphabet@), strings_view(found@)),
{
    let ghost av = strings_view(alphabet@);
    let ghost fv = strings_view(found@);
    let ghost p = |s: Seq<char>| !fv.contains(s);
    let mut r: Vec<String> = Vec::new();
    let mut i: usize = 0;
    assert(av.subrange(0, 0).filter(p) =~= Seq::<Seq<char>>::empty()) by {
        reveal_with_fuel(Seq::filter, 1);
    }
    while i < alphabet.len()
        invariant
            av == strings_view(alphabet@),
            fv == strings_view(found@),
            p == (|s: Seq<char>| !fv.contains(s)),
            i <= alphabet@.len(),
            strings_view(r@) == av.subrange(0, i as int).filter(p),
        decreases alphabet@.len() - i,
    {
        let ghost t = av.subrange(0, i + 1);
        assert(t.drop_last() =~= av.subrange(0, i as int));
        assert(t.last() == alphabet@[i as int]@);
        reveal_with_fuel(Seq::filter, 1);
        if !contains_str(found, alphabet[i].as_str()) {
            let ghost before = strings_view(r@);
            r.push(alphabet[i].clone());
            assert(strings_view(r@) =~= before.push(alphabet@[i as int]@));
        }
        i = i + 1;
    }
    assert(av.subrange(0, av.len() as int) =~= av);
    r
}

/// The verbose symbol listings: the alphabet, the symbols seen on arcs, the
/// alphabet's symbols never seen, and the first input symbols when known.
pub open spec fn spec_symbol_listings(alphabet: Seq<Seq<char>>, found: Seq<Seq<char>>, first: Option<Seq<Seq<char>>>) -> Seq<char> {
    "sigma set:\n"@ + spec_join(alphabet) + "\n"@ + "arc symbols actually seen in transducer:\n"@ + spec_join(found)
        + "\n"@ + "sigma symbols missing from transducer:\n"@ + spec_join(spec_missing(alphabet, found)) + "\n"@
        + match first {
        Some(f) => "first input symbols:\n"@ + spec_join(f) + "\n"@,
        None => Seq::empty(),
    }
}

/// The verbose symbol listings.
pub fn symbol_listings(alphabet: &Vec<String>, found: &Vec<String>, first: &Option<Vec<String>>) -> (r: String)
    ensures
        r@ == spec_symbol_listings(
            strings_view(alphabet@),
            strings_view(found@),
            match first { Some(f) => Some(strings_view(f@)), None => None },
        ),
{
    let mut r = concat3("sigma set:\n", join(alphabet).as_str(), "\n");
    r.append("arc symbols actually seen in transducer:\n");
    r.append(join(found).as_str());
    r.append("\n");
    r.append("sigma symbols missing from transducer:\n");
    r.append(join(&missing(alphabet, found)).as_str());
    r.append("\n");
    let ghost before = r@;
    match first {
        Some(f) => {
            r.append("first input symbols:\n");
            r.append(join(f).as_str());
            r.append("\n");
        },
        None => {
            assert(r@ =~= before + Seq::<char>::empty());
        },
    }
    r
}

// ---------------------------------------------------------------------------
// Symbol pair statistics
// ---------------------------------------------------------------------------

/// How often one symbol pair occurs.
pub struct PairCount {
    pub input: String,
    pub output: String,
    pub count: u32,
}

pub open spec fn pairs_view(v: Seq<PairCount>) -> Seq<(Seq<char>, Seq<char>, u32)> {
    v.map_values(|p: PairCount| (p.input@, p.output@, p.count))
}

/// The lines of the pairs that occur at most `limit` times.
pub open spec fn spec_pair_lines(v: Seq<(Seq<char>, Seq<char>, u32)>, limit: u32) -> Seq<char>
    decreases v.len(),
{
    if v.len() == 0 {
        Seq::empty()
    } else {
        spec_pair_lines(v.drop_last(), limit) + if v.last().2 <= limit {
            v.last().0 + ":"@ + v.last().1 + "\t"@ + spec_decimal(v.last().2 as nat) + "\n"@
        } else {
            Seq::empty()
        }
    }
}

/// The symbol pair statistics: a header naming the threshold (when one was
/// given), the pairs occurring at most that often, and a blank line. The
/// threshold is compared as an unsigned number, so -1 lets every pair
/// through.
pub open spec fn spec_pair_statistics(threshold: i32, v: Seq<(Seq<char>, Seq<char>, u32)>) -> Seq<char> {
    (if threshold > -1 {
        "symbol pairs that occur at most "@ + spec_decimal((threshold as u32) as nat) + " times:\n"@
    } else {
        "symbol pairs:\n"@
    }) + spec_pair_lines(v, threshold as u32) + "\n"@
}

/// The listing of pairs `u` then `v` is that of `u` followed by that of
/// `v`: each pair's line depends on that pair alone.
pub proof fn lemma_pair_lines_append(u: Seq<(Seq<char>, Seq<char>, u32)>, v: Seq<(Seq<char>, Seq<char>, u32)>, limit: u32)
    ensures
        spec_pair_lines(u + v, limit) == spec_pair_lines(u, limit) + spec_pair_lines(v, limit),
    decreases v.len(),
{
    if v.len() == 0 {
        assert(u + v =~= u);
    } else {
        assert((u + v).drop_last() =~= u + v.drop_last());
        lemma_pair_lines_append(u, v.drop_last(), limit);
    }
}

/// A pair is listed, as `input:output<TAB>count`, exactly when its count is
/// at most the threshold taken as unsigned; a pair occurring as often as
/// the threshold is listed, and with -1 every pair is.
pub proof fn lemma_pair_listed(threshold: i32, p: (Seq<char>, Seq<char>, u32))
    ensures
        spec_pair_statistics(threshold, seq![p]) == (if threshold > -1 {
            "symbol pairs that occur at most "@ + spec_decimal((threshold as u32) as nat) + " times:\n"@
        } else {
            "symbol pairs:\n"@
        }) + (if p.2 <= threshold as u32 {
            p.0 + ":"@ + p.1 + "\t"@ + spec_decimal(p.2 as nat) + "\n"@
        } else {
            Seq::empty()
        }) + "\n"@,
        threshold >= 0 && p.2 == threshold ==> spec_pair_lines(seq![p], threshold as u32) == p.0 + ":"@ + p.1 + "\t"@
            + spec_decimal(p.2 as nat) + "\n"@,
        threshold == -1 ==> spec_pair_lines(seq![p], threshold as u32) == p.0 + ":"@ + p.1 + "\t"@ + spec_decimal(
            p.2 as nat,
        ) + "\n"@,
{
    let v = seq![p];
    assert(v.drop_last() =~= Seq::<(Seq<char>, Seq<char>, u32)>::empty());
    assert(spec_pair_lines(v.drop_last(), threshold as u32) == Seq::<char>::empty());
    if threshold == -1 {
        assert((threshold as u32) == u32::MAX) by (bit_vector)
            requires
                threshold == -1i32,
        ;
    }
    assert(Seq::<char>::empty() + (if p.2 <= threshold as u32 {
        p.0 + ":"@ + p.1 + "\t"@ + spec_decimal(p.2 as nat) + "\n"@
    } else {
        Seq::empty()
    }) =~= (if p.2 <= threshold as u32 {
        p.0 + ":"@ + p.1 + "\t"@ + spec_decimal(p.2 as nat) + "\n"@
    } else {
        Seq::empty()
    }));
}

/// The symbol pair statistics.
pub fn pair_statistics(threshold: i32, v: &Vec<PairCount>) -> (r: String)
    ensures
        r@ == spec_pair_statistics(threshold, pairs_view(v@)),
{
    let ghost pv = pairs_view(v@);
    let limit = threshold as u32;
    let mut r = if threshold > -1 {
        concat3("symbol pairs that occur at most ", decimal(limit as u128).as_str(), " times:\n")
    } else {
        "symbol pairs:\n".to_owned()
    };
    let ghost head = r@;
    let mut i: usize = 0;
    assert(r@ =~= head + spec_pair_lines(pv.subrange(0, 0), limit));
    while i < v.len()
        invariant
            pv == pairs_view(v@),
            i <= v@.len(),
            r@ == head + spec_pair_lines(pv.subrange(0, i as int), limit),
        decreases v@.len() - i,
    {
        let ghost t = pv.subrange(0, i + 1);
        assert(t.drop_last() =~= pv.subrange(0, i as int));
        assert(t.last() == (v@[i as int].input@, v@[i as int].output@, v@[i as int].count));
        let ghost before = r@;
        if v[i].count <= limit {
            r.append(v[i].input.as_str());
            r.append(":");
            r.append(v[i].output.as_str());
            r.append("\t");
            r.append(decimal(v[i].count as u128).as_str());
            r.append("\n");
        } else {
            assert(r@ =~= before + Seq::<char>::empty());
        }
        i = i + 1;
    }
    assert(pv.subrange(0, pv.len() as int) =~= pv);
    r.append("\n");
    r
}

// ---------------------------------------------------------------------------
// The run
// ---------------------------------------------------------------------------

/// The value of `-S` as given, without a leading `=`.
pub open spec fn spec_threshold_text(value: Seq<char>) -> Seq<char> {
    if value.len() > 0 && value[0] == '=' { value.drop_first() } else { value }
}

/// The value of `-S` as given, without a leading `=`.
pub fn threshold_text(value: &str) -> (r: String)
    ensures
        r@ == spec_threshold_text(value@),
{
    let v = chars_of(value);
    if v.len() > 0 && v[0] == '=' {
        string_of_range(&v, 1, v.len())
    } else {
        value.to_owned()
    }
}

/// What hfst-summarize reports pair statistics with: whether `-S` was
/// given, and the threshold (-1 without a value; a value is its number
/// reduced to an `i32`, and negative or zero ends the tool).
pub open spec fn spec_run(program_name: Seq<char>, pair_stats: Option<Option<u64>>) -> Result<(bool, i32), SpecReport> {
    match pair_stats {
        Some(Some(n)) => {
            let t = n as i32;
            if t < 0 {
                Err(spec_fail_report(
                    program_name,
                    spec_decimal((t as u32) as nat)
                        + " is not a valid argument for option --print-symbol-pair-statistics\n"@,
                ))
            } else if t == 0 {
                Err(spec_fail_report(program_name, "0 is not a valid argument for option --print-symbol-pair-statistics\n"@))
            } else {
                Ok((true, t))
            }
        },
        Some(None) => Ok((true, -1i32)),
        None => Ok((false, -1i32)),
    }
}

/// Decides how hfst-summarize reports pair statistics; the value of `-S`
/// comes read as a number.
pub fn run(common: &CommonOptions, pair_stats: Option<Option<u64>>) -> (r: Result<(bool, i32), Report>)
    ensures
        match (r, spec_run(common.program_name@, pair_stats)) {
            (Ok(x), Ok(y)) => x == y,
            (Err(x), Err(y)) => x@ == y,
            _ => false,
        },
{
    match pair_stats {
        Some(Some(n)) => {
            let t = n as i32;
            if t < 0 {
                let m = concat2(
                    decimal((t as u32) as u128).as_str(),
                    " is not a valid argument for option --print-symbol-pair-statistics\n",
                );
                Err(fail_with(common, m.as_str()))
            } else if t == 0 {
                Err(fail_with(common, "0 is not a valid argument for option --print-symbol-pair-statistics\n"))
            } else {
                Ok((true, t))
            }
        },
        Some(None) => Ok((true, -1)),
        None => Ok((false, -1)),
    }
}

/// The verbose line before the `n`-th transducer.
pub open spec fn spec_summarizing(n: int) -> Seq<char> {
    if n < 2 { "Summarizing...\n"@ } else { "Summarizing... "@ + spec_decimal(n as nat) + "\n"@ }
}

/// The verbose line before the `n`-th transducer.
pub fn summarizing(n: u64) -> (s: String)
    ensures
        s@ == spec_summarizing(n as int),
{
    if n < 2 {
        "Summarizing...\n".to_owned()
    } else {
        concat3("Summarizing... ", decimal(n as u128).as_str(), "\n")
    }
}

/// The closing line.
pub fn total(n: u64) -> (s: String)
    ensures
        s@ == "\nRead "@ + spec_decimal(n as nat) + " transducers in total.\n"@,
{
    concat3("\nRead ", decimal(n as u128).as_str(), " transducers in total.\n")
}

// ---------------------------------------------------------------------------
// Laws
// ---------------------------------------------------------------------------

/// The symbols listed as missing are exactly the alphabet's symbols that
/// were not seen on any arc.
pub proof fn lemma_missing_symbols(alphabet: Seq<Seq<char>>, found: Seq<Seq<char>>, x: Seq<char>)
    ensures
        spec_missing(alphabet, found).contains(x) <==> (alphabet.contains(x) && !found.contains(x)),
{
    let p = |s: Seq<char>| !found.contains(s);
    if spec_missing(alphabet, found).contains(x) {
        alphabet.lemma_filter_contains_rev(p, x);
        let k = choose|k: int| 0 <= k < spec_missing(alphabet, found).len() && spec_missing(alphabet, found)[k] == x;
        alphabet.lemma_filter_pred(p, k);
    }
    if alphabet.contains(x) && !found.contains(x) {
        let k = choose|k: int| 0 <= k < alphabet.len() && alphabet[k] == x;
        alphabet.lemma_filter_contains(p, k);
    }
}

} // verus!
