//! hfst-edit-metadata: set properties of the transducers of a stream, or
//! print them. The properties `-a` sets, whether every property is
//! printed, the warnings and refusals, and what is written for each
//! transducer stand here; reading and writing the transducers is the
//! caller's.

use vstd::prelude::*;
use crate::common::{
    Channel, CommonOptions, Message, Report, SpecCommon, SpecReport, fail_with, spec_fail_report, to_stderr,
};
use crate::sorted::{ordered_set, spec_ordered_set, strings_view};
use crate::text::{
    chars_of, concat2, concat3, find_char, find_char_from, int_text, spec_int_text, spec_truncate_bytes, str_eq,
    string_of_range, truncate_bytes,
};

verus! {

// ---------------------------------------------------------------------------
// The properties `-a` sets
// ---------------------------------------------------------------------------

/// The name of an `ANAME=VALUE` argument: what precedes its first `=`.
pub open spec fn prop_key(a: Seq<char>) -> Seq<char> {
    a.subrange(0, find_char(a, '=', 0)->0)
}

/// The value of an `ANAME=VALUE` argument: what follows its first `=`.
pub open spec fn prop_value(a: Seq<char>) -> Seq<char> {
    a.subrange(find_char(a, '=', 0)->0 + 1, a.len() as int)
}

/// The first of the arguments from `i` on without `=`.
pub open spec fn first_without_eq(adds: Seq<Seq<char>>, i: int) -> Option<int>
    decreases adds.len() - i,
{
    if i < 0 || i >= adds.len() {
        None
    } else if find_char(adds[i], '=', 0) is None {
        Some(i)
    } else {
        first_without_eq(adds, i + 1)
    }
}

/// The value the last of the first `i` arguments named `k` gives.
pub open spec fn last_value(adds: Seq<Seq<char>>, k: Seq<char>, i: int) -> Option<Seq<char>>
    decreases i,
{
    if i <= 0 || i > adds.len() {
        None
    } else if prop_key(adds[i - 1]) == k {
        Some(prop_value(adds[i - 1]))
    } else {
        last_value(adds, k, i - 1)
    }
}

/// The refusal of an argument without `=`.
pub open spec fn spec_missing_eq(a: Seq<char>) -> Seq<char> {
    "Equals sign `=' missing from "@ + a
}

/// The properties the `-a` arguments set, in the order of their names,
/// each with the value its last argument gives; the first argument without
/// `=` is refused.
pub open spec fn spec_properties(program_name: Seq<char>, adds: Seq<Seq<char>>) -> Result<
    Seq<(Seq<char>, Seq<char>)>,
    SpecReport,
> {
    match first_without_eq(adds, 0) {
        Some(i) => Err(spec_fail_report(program_name, spec_missing_eq(adds[i]))),
        None => Ok(
            spec_ordered_set(adds.map_values(|a: Seq<char>| prop_key(a))).map_values(
                |k: Seq<char>| (k, last_value(adds, k, adds.len() as int)->0),
            ),
        ),
    }
}

/// The view of a list of string pairs.
pub open spec fn props_view(v: Seq<(String, String)>) -> Seq<(Seq<char>, Seq<char>)> {
    v.map_values(|p: (String, String)| (p.0@, p.1@))
}

fn split_at_eq(a: &str) -> (r: Option<(String, String)>)
    ensures
        match r {
            None => find_char(a@, '=', 0) is None,
            Some((k, v)) => find_char(a@, '=', 0) is Some && k@ == prop_key(a@) && v@ == prop_value(a@),
        },
{
    let v = chars_of(a);
    match find_char_from(&v, '=', 0) {
        None => None,
        Some(p) => {
            assert(p < v.len());
            Some((string_of_range(&v, 0, p), string_of_range(&v, p + 1, v.len())))
        },
    }
}

/// The last position where `keys` holds `k`.
fn last_match(keys: &Vec<String>, k: &str) -> (r: Option<usize>)
    ensures
        match r {
            None => forall|j: int| 0 <= j < keys@.len() ==> (#[trigger] keys@[j])@ != k@,
            Some(q) => q < keys@.len() && keys@[q as int]@ == k@ && forall|j: int|
                q < j < keys@.len() ==> (#[trigger] keys@[j])@ != k@,
        },
{
    let mut found: Option<usize> = None;
    let mut j: usize = 0;
    while j < keys.len()
        invariant
            j <= keys@.len(),
            match found {
                None => forall|i: int| 0 <= i < j ==> (#[trigger] keys@[i])@ != k@,
                Some(q) => q < j && keys@[q as int]@ == k@ && forall|i: int| q < i < j ==> (#[trigger] keys@[i])@ != k@,
            },
        decreases keys@.len() - j,
    {
        if str_eq(keys[j].as_str(), k) {
            found = Some(j);
        }
        j = j + 1;
    }
    found
}

proof fn lemma_last_value_at(adds: Seq<Seq<char>>, k: Seq<char>, q: int, i: int)
    requires
        0 <= q < i <= adds.len(),
        prop_key(adds[q]) == k,
        forall|j: int| q < j < i ==> prop_key(#[trigger] adds[j]) != k,
    ensures
        last_value(adds, k, i) == Some(prop_value(adds[q])),
    decreases i,
{
    if i - 1 != q {
        lemma_last_value_at(adds, k, q, i - 1);
    }
}

/// The properties the `-a` arguments set, or the report the tool ends with.
pub fn properties(c: &CommonOptions, adds: &Vec<String>) -> (r: Result<Vec<(String, String)>, Report>)
    ensures
        match (r, spec_properties(c.program_name@, strings_view(adds@))) {
            (Ok(x), Ok(y)) => props_view(x@) == y,
            (Err(x), Err(y)) => x@ == y,
            _ => false,
        },
{
    let ghost av = strings_view(adds@);
    let mut keys: Vec<String> = Vec::new();
    let mut values: Vec<String> = Vec::new();
    let mut i: usize = 0;
    while i < adds.len()
        invariant
            av == strings_view(adds@),
            i <= adds@.len(),
            first_without_eq(av, 0) == first_without_eq(av, i as int),
            keys@.len() == i,
            values@.len() == i,
            forall|j: int| 0 <= j < i ==> find_char(#[trigger] av[j], '=', 0) is Some,
            forall|j: int| 0 <= j < i ==> (#[trigger] keys@[j])@ == prop_key(av[j]) && values@[j]@ == prop_value(av[j]),
        decreases adds@.len() - i,
    {
        assert(av[i as int] == adds@[i as int]@);
        match split_at_eq(adds[i].as_str()) {
            None => {
                let text = concat2("Equals sign `=' missing from ", adds[i].as_str());
                return Err(fail_with(c, text.as_str()));
            },
            Some((k, v)) => {
                let ghost kk = k@;
                let ghost vv = v@;
                let ghost k0 = keys@;
                let ghost v0 = values@;
                keys.push(k);
                values.push(v);
                assert forall|j: int| 0 <= j < i + 1 implies (#[trigger] keys@[j])@ == prop_key(av[j]) && values@[j]@
                    == prop_value(av[j]) by {
                    if j < i {
                        assert(keys@[j] == k0[j]);
                        assert(values@[j] == v0[j]);
                        assert(k0[j]@ == prop_key(av[j]));
                    }
                }
            },
        }
        i = i + 1;
    }
    assert(first_without_eq(av, av.len() as int) is None);
    let ghost kv = av.map_values(|a: Seq<char>| prop_key(a));
    assert(strings_view(keys@) =~= kv);
    let names = ordered_set(&keys);
    let ghost set = spec_ordered_set(kv);
    proof {
        crate::sorted::lemma_ordered_set(kv);
        assert forall|x: Seq<char>| set.contains(x) <==> kv.contains(x) by {
            assert(set.to_set().contains(x) == set.contains(x));
            assert(kv.to_set().contains(x) == kv.contains(x));
        }
    }
    let mut out: Vec<(String, String)> = Vec::new();
    let mut n: usize = 0;
    while n < names.len()
        invariant
            av == strings_view(adds@),
            keys@.len() == av.len(),
            values@.len() == av.len(),
            forall|j: int| 0 <= j < av.len() ==> (#[trigger] keys@[j])@ == prop_key(av[j]) && values@[j]@ == prop_value(av[j]),
            kv == av.map_values(|a: Seq<char>| prop_key(a)),
            set == spec_ordered_set(kv),
            strings_view(names@) == set,
            forall|x: Seq<char>| set.contains(x) <==> kv.contains(x),
            n <= names@.len(),
            props_view(out@) == set.subrange(0, n as int).map_values(
                |k: Seq<char>| (k, last_value(av, k, av.len() as int)->0),
            ),
        decreases names@.len() - n,
    {
        let k = &names[n];
        assert(set[n as int] == k@);
        assert(set.contains(k@));
        let q = match last_match(&keys, k.as_str()) {
            Some(q) => q,
            None => {
                proof {
                    let j = choose|j: int| 0 <= j < kv.len() && kv[j] == k@;
                    assert(keys@[j]@ == k@);
                    assert(false);
                }
                0

            },
        };
        proof {
            assert forall|j: int| q < j < av.len() implies prop_key(#[trigger] av[j]) != k@ by {
                assert(keys@[j]@ == prop_key(av[j]));
            }
            assert(keys@[q as int]@ == prop_key(av[q as int]));
            lemma_last_value_at(av, k@, q as int, av.len() as int);
        }
        let ghost before = props_view(out@);
        out.push((k.clone(), values[q].clone()));
        assert(props_view(out@) =~= before.push((k@, values@[q as int]@)));
        assert(set.subrange(0, n + 1) =~= set.subrange(0, n as int).push(set[n as int]));
        assert(set.subrange(0, n + 1).map_values(|k: Seq<char>| (k, last_value(av, k, av.len() as int)->0))
            =~= set.subrange(0, n as int).map_values(|k: Seq<char>| (k, last_value(av, k, av.len() as int)->0)).push(
            (k@, last_value(av, k@, av.len() as int)->0),
        ));
        n = n + 1;
    }
    assert(set.subrange(0, set.len() as int) =~= set);
    Ok(out)
}

// ---------------------------------------------------------------------------
// What is printed
// ---------------------------------------------------------------------------

/// Whether every property is printed: yes without `-a`; after `-a`, only
/// when a bare `-p` came after the last `-a`. The positions are those of
/// the options on the command line; `bare_print` is whether `-p` came
/// without a name.
pub open spec fn spec_print_all(last_add: Option<usize>, print_at: Option<usize>, bare_print: bool) -> bool {
    match last_add {
        None => true,
        Some(add) => bare_print && (print_at matches Some(p) && p > add),
    }
}

/// Whether every property is printed.
pub fn print_all_properties(last_add: Option<usize>, print_at: Option<usize>, bare_print: bool) -> (r: bool)
    ensures
        r == spec_print_all(last_add, print_at, bare_print),
{
    match last_add {
        None => true,
        Some(add) => {
            if !bare_print {
                false
            } else {
                match print_at {
                    Some(p) => p > add,
                    None => false,
                }
            }
        },
    }
}

/// The property `-p NAME` names: none for a bare `-p`, whose value is the
/// NUL character no argument can hold.
pub open spec fn spec_named_property(print_name: Option<Seq<char>>) -> Option<Seq<char>> {
    match print_name {
        Some(n) => if n == seq!['\0'] { None } else { Some(n) },
        None => None,
    }
}

/// The property `-p NAME` names.
pub fn named_property(print_name: &Option<String>) -> (r: Option<String>)
    ensures
        crate::getopt::opt_view(r) == spec_named_property(crate::getopt::opt_view(*print_name)),
{
    match print_name {
        None => None,
        Some(n) => {
            let v = chars_of(n.as_str());
            if v.len() == 1 && v[0] == '\0' {
                assert(n@ =~= seq!['\0']);
                None
            } else {
                assert(n@ != seq!['\0']);
                Some(n.clone())
            }
        },
    }
}

/// What the tool writes before reading the `n`th transducer (from 1): a
/// separator between printouts, then the verbose line.
pub open spec fn spec_before(c: SpecCommon, printing: bool, n: int) -> Seq<(Channel, Seq<char>)> {
    let sep: Seq<(Channel, Seq<char>)> = if n > 1 && printing { seq![(Channel::Stderr, "--- \n"@)] } else { seq![] };
    let line = if n == 1 {
        "Metadata "@ + c.input_filename + "...\n"@
    } else {
        "Metadata "@ + c.input_filename + "..."@ + spec_int_text(n) + "\n"@
    };
    if c.verbose { sep.push((Channel::Stderr, line)) } else { sep }
}

/// What the tool writes before reading the `n`th transducer; `printing` is
/// whether it prints properties rather than sets them.
pub fn before(c: &CommonOptions, printing: bool, n: u64) -> (r: Vec<Message>)
    requires
        1 <= n <= i64::MAX,
    ensures
        crate::common::messages_view(r@) == spec_before(c@, printing, n as int),
{
    let mut r: Vec<Message> = Vec::new();
    if n > 1 && printing {
        r.push(to_stderr("--- \n".to_owned()));
    }
    let ghost sep = crate::common::messages_view(r@);
    assert(sep =~= (if n > 1 && printing { seq![(Channel::Stderr, "--- \n"@)] } else { Seq::<(Channel, Seq<char>)>::empty() }));
    if c.verbose {
        let line = if n == 1 {
            concat3("Metadata ", c.input_filename.as_str(), "...\n")
        } else {
            let mut s = concat3("Metadata ", c.input_filename.as_str(), "...");
            s.append(int_text(n as i64).as_str());
            s.append("\n");
            s
        };
        let ghost lv = line@;
        r.push(to_stderr(line));
        assert(crate::common::messages_view(r@) =~= sep.push((Channel::Stderr, lv)));
    }
    r
}

/// The lines printing a transducer's properties `props` (in the order of
/// their names): each as `NAME: VALUE`.
pub open spec fn spec_all_lines(props: Seq<(Seq<char>, Seq<char>)>) -> Seq<char>
    decreases props.len(),
{
    if props.len() == 0 {
        Seq::empty()
    } else {
        props[0].0 + ": "@ + props[0].1 + "\n"@ + spec_all_lines(props.drop_first())
    }
}

proof fn lemma_all_lines_push(props: Seq<(Seq<char>, Seq<char>)>, p: (Seq<char>, Seq<char>))
    ensures
        spec_all_lines(props.push(p)) == spec_all_lines(props) + (p.0 + ": "@ + p.1 + "\n"@),
    decreases props.len(),
{
    if props.len() == 0 {
        assert(props.push(p).drop_first() =~= Seq::<(Seq<char>, Seq<char>)>::empty());
        assert(spec_all_lines(props.push(p).drop_first()) == Seq::<char>::empty());
        assert(spec_all_lines(props) == Seq::<char>::empty());
        assert(spec_all_lines(props.push(p)) =~= p.0 + ": "@ + p.1 + "\n"@ + Seq::<char>::empty());
        assert(spec_all_lines(props.push(p)) =~= spec_all_lines(props) + (p.0 + ": "@ + p.1 + "\n"@));
    } else {
        assert(props.push(p).drop_first() =~= props.drop_first().push(p));
        lemma_all_lines_push(props.drop_first(), p);
        assert(spec_all_lines(props.push(p)) =~= spec_all_lines(props) + (p.0 + ": "@ + p.1 + "\n"@));
    }
}

/// The lines printing all of a transducer's properties.
pub fn all_lines(props: &Vec<(String, String)>) -> (s: String)
    ensures
        s@ == spec_all_lines(props_view(props@)),
{
    let ghost pv = props_view(props@);
    let mut s = String::new();
    let mut i: usize = 0;
    while i < props.len()
        invariant
            pv == props_view(props@),
            i <= props@.len(),
            s@ == spec_all_lines(pv.subrange(0, i as int)),
        decreases props@.len() - i,
    {
        let ghost before = s@;
        s.append(props[i].0.as_str());
        s.append(": ");
        s.append(props[i].1.as_str());
        s.append("\n");
        proof {
            assert(pv.subrange(0, i + 1) =~= pv.subrange(0, i as int).push(pv[i as int]));
            lemma_all_lines_push(pv.subrange(0, i as int), pv[i as int]);
        }
        i = i + 1;
    }
    assert(pv.subrange(0, pv.len() as int) =~= pv);
    s
}

// ---------------------------------------------------------------------------
// Setting properties
// ---------------------------------------------------------------------------

/// The warning when `type` is set.
pub open spec fn type_warning() -> Seq<char> {
    "Changing `type' metadata will not change type of transducer in file;\nhaving wrong type may cause breakage, use with caution"@
}

/// The warning when `version` is set.
pub open spec fn version_warning() -> Seq<char> {
    "Changing `version' changes parsing semantics for header;\nuse with caution"@
}

/// The refusal of a `character-encoding` other than UTF-8.
pub open spec fn encoding_refusal() -> Seq<char> {
    "Cannot set `character-encoding' to unsupported value;\nconsider recoding sources of automaton"@
}

/// What setting the properties `props`, from the `i`th on, gives: the
/// warnings, in order; the properties set, with their values cut after
/// `truncate` bytes when that is not 0; and the refusal that ends the tool,
/// if a `character-encoding` is not UTF-8.
pub open spec fn spec_edit(
    program_name: Seq<char>,
    props: Seq<(Seq<char>, Seq<char>)>,
    truncate: u64,
    i: int,
) -> (Seq<Seq<char>>, Seq<(Seq<char>, Seq<char>)>, Option<SpecReport>)
    decreases props.len() - i,
{
    if i < 0 || i >= props.len() {
        (seq![], seq![], None)
    } else {
        let (k, v) = props[i];
        if k == "character-encoding"@ && !(v == "utf-8"@ || v == "UTF-8"@) {
            (seq![], seq![], Some(spec_fail_report(program_name, encoding_refusal())))
        } else {
            let w: Seq<Seq<char>> = if k == "type"@ {
                seq![type_warning()]
            } else if k == "version"@ {
                seq![version_warning()]
            } else {
                seq![]
            };
            let value = if truncate > 0 { spec_truncate_bytes(v, truncate as int) } else { v };
            let rest = spec_edit(program_name, props, truncate, i + 1);
            (w + rest.0, seq![(k, value)] + rest.1, rest.2)
        }
    }
}

/// The exec counterpart of the result of [`spec_edit`].
pub struct Edit {
    pub warnings: Vec<String>,
    pub set: Vec<(String, String)>,
    pub end: Option<Report>,
}

/// What setting the properties `props` gives.
pub fn edit(c: &CommonOptions, props: &Vec<(String, String)>, truncate: u64) -> (r: Edit)
    ensures
        strings_view(r.warnings@) == spec_edit(c.program_name@, props_view(props@), truncate, 0).0,
        props_view(r.set@) == spec_edit(c.program_name@, props_view(props@), truncate, 0).1,
        match (r.end, spec_edit(c.program_name@, props_view(props@), truncate, 0).2) {
            (Some(x), Some(y)) => x@ == y,
            (None, None) => true,
            _ => false,
        },
{
    let ghost pv = props_view(props@);
    let ghost pn = c.program_name@;
    let mut warnings: Vec<String> = Vec::new();
    let mut set: Vec<(String, String)> = Vec::new();
    let mut i: usize = 0;
    while i < props.len()
        invariant
            pv == props_view(props@),
            pn == c.program_name@,
            i <= props@.len(),
            ({
                let total = spec_edit(pn, pv, truncate, 0);
                let rest = spec_edit(pn, pv, truncate, i as int);
                &&& total.0 == strings_view(warnings@) + rest.0
                &&& total.1 == props_view(set@) + rest.1
                &&& total.2 == rest.2
            }),
        decreases props@.len() - i,
    {
        let k = props[i].0.as_str();
        let v = props[i].1.as_str();
        assert(pv[i as int] == (k@, v@));
        let ghost rest = spec_edit(pn, pv, truncate, i + 1);
        if str_eq(k, "character-encoding") && !(str_eq(v, "utf-8") || str_eq(v, "UTF-8")) {
            let end = fail_with(
                c,
                "Cannot set `character-encoding' to unsupported value;\nconsider recoding sources of automaton",
            );
            assert(strings_view(warnings@) + Seq::<Seq<char>>::empty() =~= strings_view(warnings@));
            assert(props_view(set@) + Seq::<(Seq<char>, Seq<char>)>::empty() =~= props_view(set@));
            return Edit { warnings, set, end: Some(end) };
        }
        let ghost w0 = strings_view(warnings@);
        if str_eq(k, "type") {
            warnings.push(
                "Changing `type' metadata will not change type of transducer in file;\nhaving wrong type may cause breakage, use with caution".to_owned(),
            );
            assert(strings_view(warnings@) =~= w0 + seq![type_warning()]);
        } else if str_eq(k, "version") {
            warnings.push("Changing `version' changes parsing semantics for header;\nuse with caution".to_owned());
            assert(strings_view(warnings@) =~= w0 + seq![version_warning()]);
        } else {
            assert(strings_view(warnings@) =~= w0 + Seq::<Seq<char>>::empty());
        }
        let value = if truncate > 0 { truncate_bytes(v, truncate) } else { v.to_owned() };
        let ghost s0 = props_view(set@);
        let ghost vv = value@;
        set.push((k.to_owned(), value));
        assert(props_view(set@) =~= s0 + seq![(k@, vv)]);
        proof {
            let w: Seq<Seq<char>> = if k@ == "type"@ {
                seq![type_warning()]
            } else if k@ == "version"@ {
                seq![version_warning()]
            } else {
                seq![]
            };
            assert(spec_edit(pn, pv, truncate, i as int) == (w + rest.0, seq![(k@, vv)] + rest.1, rest.2));
            assert(w0 + (w + rest.0) =~= (w0 + w) + rest.0);
            assert(s0 + (seq![(k@, vv)] + rest.1) =~= (s0 + seq![(k@, vv)]) + rest.1);
        }
        i = i + 1;
    }
    assert(strings_view(warnings@) + Seq::<Seq<char>>::empty() =~= strings_view(warnings@));
    assert(props_view(set@) + Seq::<(Seq<char>, Seq<char>)>::empty() =~= props_view(set@));
    Edit { warnings, set, end: None }
}


// ---------------------------------------------------------------------------
// Laws
// ---------------------------------------------------------------------------

/// The properties `-a` sets come in strictly increasing order of their
/// names, each name once, and each name given to `-a` is among them with
/// the value of the last `-a` that names it.
pub proof fn lemma_properties_by_name(program_name: Seq<char>, adds: Seq<Seq<char>>, j: int)
    requires
        spec_properties(program_name, adds) is Ok,
        0 <= j < adds.len(),
    ensures
        crate::sorted::strictly_sorted(
            spec_properties(program_name, adds)->Ok_0.map_values(|p: (Seq<char>, Seq<char>)| p.0),
        ),
        exists|k: int|
            0 <= k < spec_properties(program_name, adds)->Ok_0.len() && #[trigger] spec_properties(program_name, adds)->Ok_0[k]
                == (prop_key(adds[j]), last_value(adds, prop_key(adds[j]), adds.len() as int)->0),
{
    let kv = adds.map_values(|a: Seq<char>| prop_key(a));
    let set = spec_ordered_set(kv);
    crate::sorted::lemma_ordered_set(kv);
    let props = spec_properties(program_name, adds)->Ok_0;
    assert(props == set.map_values(|k: Seq<char>| (k, last_value(adds, k, adds.len() as int)->0)));
    assert(props.map_values(|p: (Seq<char>, Seq<char>)| p.0) =~= set);
    assert(kv[j] == prop_key(adds[j]));
    assert(kv.to_set().contains(prop_key(adds[j])));
    assert(set.to_set().contains(prop_key(adds[j])));
    let k = choose|k: int| 0 <= k < set.len() && set[k] == prop_key(adds[j]);
    assert(props[k] == (prop_key(adds[j]), last_value(adds, prop_key(adds[j]), adds.len() as int)->0));
}
} // verus!
