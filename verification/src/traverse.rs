//! hfst-traverse: walk a transducer arc by arc. The walk is a state
//! machine: its state is the set of paths followed so far, each with the
//! state it ends in, kept in the order of their strings (paths with equal
//! strings in the order they were found); each label read advances every
//! path along the arcs with that input label. The caller reads the labels
//! and writes what the walk says.

use vstd::prelude::*;
use crate::common::{
    CommonOptions, Report, SpecCommon, SpecReport, argv0, check_unary, error_case, initial_common, outcome_is,
    spec_argv0, spec_check_unary, spec_error_case, spec_initial_common,
};
use crate::getopt::{HasArg, LongOpt, OptEvent, SpecEvent, SpecLongOpt, args_view, events_view, scan, spec_scan, table_view};
use crate::unary::{Shared, SpecShared, shared_step, spec_shared_step, spec_unary_table, spec_unary_usage, unary_table, unary_usage};
use crate::sorted::seq_lt;
use crate::sorted::str_lt;
use crate::text::{concat3, str_eq};

verus! {

/// An arc: its input and output labels and its target state.
pub struct Arc {
    pub input: String,
    pub output: String,
    pub target: u32,
}

/// The model of an [`Arc`].
pub type SpecArc = (Seq<char>, Seq<char>, u32);

impl View for Arc {
    type V = SpecArc;

    open spec fn view(&self) -> SpecArc {
        (self.input@, self.output@, self.target)
    }
}

/// The model of a transducer: the arcs of each state, in order.
pub open spec fn graph_view(g: Seq<Vec<Arc>>) -> Seq<Seq<SpecArc>> {
    g.map_values(|arcs: Vec<Arc>| arcs@.map_values(|a: Arc| a@))
}

/// Every arc leads to a state of the transducer.
pub open spec fn well_formed(g: Seq<Seq<SpecArc>>) -> bool {
    forall|s: int, j: int| 0 <= s < g.len() && 0 <= j < g[s].len() ==> (#[trigger] g[s][j]).2 < g.len()
}

/// A path: the labels followed so far, and the state it ends in.
pub type SpecPath = (Seq<char>, u32);

/// The paths of a walk, kept in order.
pub struct Walk {
    pub paths: Vec<(String, u32)>,
}

/// The model of a list of paths.
pub open spec fn paths_view(p: Seq<(String, u32)>) -> Seq<SpecPath> {
    p.map_values(|x: (String, u32)| (x.0@, x.1))
}

impl View for Walk {
    type V = Seq<SpecPath>;

    open spec fn view(&self) -> Seq<SpecPath> {
        paths_view(self.paths@)
    }
}

/// Every path ends in a state of the transducer.
pub open spec fn paths_in(g: Seq<Seq<SpecArc>>, ps: Seq<SpecPath>) -> bool {
    forall|i: int| 0 <= i < ps.len() ==> (#[trigger] ps[i]).1 < g.len()
}

/// `s` with `x` inserted after every path whose string does not sort
/// after `x`'s.
pub open spec fn insert_path(s: Seq<SpecPath>, x: SpecPath) -> Seq<SpecPath>
    decreases s.len(),
{
    if s.len() == 0 {
        seq![x]
    } else if seq_lt(x.0, s[0].0) {
        seq![x] + s
    } else {
        seq![s[0]] + insert_path(s.drop_first(), x)
    }
}

/// The paths `c`, found in this order, as the walk keeps them.
pub open spec fn ordered_paths(c: Seq<SpecPath>) -> Seq<SpecPath>
    decreases c.len(),
{
    if c.len() == 0 {
        Seq::empty()
    } else {
        insert_path(ordered_paths(c.drop_last()), c.last())
    }
}

/// The paths extending `path` (ending in `arcs`' state) along the arcs
/// with input `label`, in the order of the arcs.
pub open spec fn extensions(arcs: Seq<SpecArc>, path: Seq<char>, label: Seq<char>) -> Seq<SpecPath>
    decreases arcs.len(),
{
    if arcs.len() == 0 {
        Seq::empty()
    } else {
        let a = arcs.last();
        let rest = extensions(arcs.drop_last(), path, label);
        if a.0 == label { rest.push((path + a.0 + ":"@ + a.1 + " "@, a.2)) } else { rest }
    }
}

/// The paths extending the paths `ps` along `label`, in the order found.
pub open spec fn found(g: Seq<Seq<SpecArc>>, ps: Seq<SpecPath>, label: Seq<char>) -> Seq<SpecPath>
    decreases ps.len(),
{
    if ps.len() == 0 {
        Seq::empty()
    } else {
        found(g, ps.drop_last(), label) + extensions(g[ps.last().1 as int], ps.last().0, label)
    }
}

/// The paths after reading `label`: the extensions, when there are any;
/// otherwise the paths stay.
pub open spec fn spec_advance(g: Seq<Seq<SpecArc>>, ps: Seq<SpecPath>, label: Seq<char>) -> Seq<SpecPath> {
    let f = found(g, ps, label);
    if f.len() == 0 { ps } else { ordered_paths(f) }
}

/// What the walk says when `label` leads nowhere: a hint for `quit` and
/// the empty label, a nod to `XYZZY`, then the refusal.
pub open spec fn spec_stuck(label: Seq<char>) -> Seq<char> {
    (if label == "quit"@ || label.len() == 0 {
        "Use EOF (Ctrl-D or similar) to quit\n"@
    } else if label == "XYZZY"@ {
        "Nothing happens\n"@
    } else {
        Seq::empty()
    }) + "could not advance with "@ + label + "\n"@
}

/// What the walk says after reading `label`: nothing when it advanced.
pub open spec fn spec_step_text(g: Seq<Seq<SpecArc>>, ps: Seq<SpecPath>, label: Seq<char>) -> Seq<char> {
    if found(g, ps, label).len() == 0 { spec_stuck(label) } else { Seq::empty() }
}

/// The continuations of one state, one `INPUT\tOUTPUT` line per arc.
pub open spec fn arc_lines(arcs: Seq<SpecArc>) -> Seq<char>
    decreases arcs.len(),
{
    if arcs.len() == 0 {
        Seq::empty()
    } else {
        arc_lines(arcs.drop_last()) + arcs.last().0 + "\t"@ + arcs.last().1 + "\n"@
    }
}

/// What the walk shows for one path.
pub open spec fn path_block(g: Seq<Seq<SpecArc>>, p: SpecPath) -> Seq<char> {
    let arcs = g[p.1 as int];
    "On path `"@ + p.0 + "' are continuations:\n"@ + (if arcs.len() == 0 {
        "<Nothing, you've hit a dead end here>\n"@
    } else {
        Seq::empty()
    }) + arc_lines(arcs)
}

/// What the walk shows before each label: every path, in order, with its
/// continuations.
pub open spec fn spec_listing(g: Seq<Seq<SpecArc>>, ps: Seq<SpecPath>) -> Seq<char>
    decreases ps.len(),
{
    if ps.len() == 0 {
        Seq::empty()
    } else {
        spec_listing(g, ps.drop_last()) + path_block(g, ps.last())
    }
}

/// The walk's first words, and the one path it starts from: the empty path
/// at the initial state.
pub fn start() -> (r: (Walk, String))
    ensures
        r.0@ == seq![(Seq::<char>::empty(), 0u32)],
        r.1@ == "Enter labels to seek all paths\n"@,
{
    let mut paths: Vec<(String, u32)> = Vec::new();
    paths.push((String::new(), 0));
    let w = Walk { paths };
    assert(w@ =~= seq![(Seq::<char>::empty(), 0u32)]);
    (w, "Enter labels to seek all paths\n".to_owned())
}

fn arc_text(arcs: &Vec<Arc>) -> (s: String)
    ensures
        s@ == arc_lines(arcs@.map_values(|a: Arc| a@)),
{
    let ghost av = arcs@.map_values(|a: Arc| a@);
    let mut s = String::new();
    let mut j: usize = 0;
    while j < arcs.len()
        invariant
            av == arcs@.map_values(|a: Arc| a@),
            j <= arcs@.len(),
            s@ == arc_lines(av.subrange(0, j as int)),
        decreases arcs@.len() - j,
    {
        let ghost sub = av.subrange(0, j + 1);
        assert(sub.drop_last() =~= av.subrange(0, j as int));
        assert(sub.last() == arcs@[j as int]@);
        s.append(arcs[j].input.as_str());
        s.append("\t");
        s.append(arcs[j].output.as_str());
        s.append("\n");
        j = j + 1;
    }
    assert(av.subrange(0, arcs@.len() as int) =~= av);
    s
}

/// What the walk shows before each label.
pub fn listing(g: &Vec<Vec<Arc>>, w: &Walk) -> (s: String)
    requires
        paths_in(graph_view(g@), w@),
    ensures
        s@ == spec_listing(graph_view(g@), w@),
{
    let ghost gv = graph_view(g@);
    let ghost pv = w@;
    let mut s = String::new();
    let mut i: usize = 0;
    while i < w.paths.len()
        invariant
            gv == graph_view(g@),
            pv == w@,
            paths_in(gv, pv),
            i <= pv.len(),
            s@ == spec_listing(gv, pv.subrange(0, i as int)),
        decreases pv.len() - i,
    {
        let ghost sub = pv.subrange(0, i + 1);
        assert(sub.drop_last() =~= pv.subrange(0, i as int));
        assert(sub.last() == pv[i as int]);
        let st = w.paths[i].1;
        assert(pv[i as int].1 == st);
        assert(st < gv.len());
        let arcs = &g[st as usize];
        assert(gv[st as int] == arcs@.map_values(|a: Arc| a@));
        s.append("On path `");
        s.append(w.paths[i].0.as_str());
        s.append("' are continuations:\n");
        if arcs.len() == 0 {
            s.append("<Nothing, you've hit a dead end here>\n");
        }
        let t = arc_text(arcs);
        s.append(t.as_str());
        proof {
            let arcs_v = gv[st as int];
            assert(path_block(gv, pv[i as int]) =~= "On path `"@ + pv[i as int].0 + "' are continuations:\n"@ + (if arcs_v.len()
                == 0 {
                "<Nothing, you've hit a dead end here>\n"@
            } else {
                Seq::empty()
            }) + arc_lines(arcs_v));
        }
        i = i + 1;
    }
    assert(pv.subrange(0, pv.len() as int) =~= pv);
    s
}

proof fn lemma_found_prefix(g: Seq<Seq<SpecArc>>, ps: Seq<SpecPath>, label: Seq<char>, i: int)
    requires
        0 <= i < ps.len(),
    ensures
        found(g, ps.subrange(0, i + 1), label) == found(g, ps.subrange(0, i), label) + extensions(
            g[ps[i].1 as int],
            ps[i].0,
            label,
        ),
{
    let sub = ps.subrange(0, i + 1);
    assert(sub.drop_last() =~= ps.subrange(0, i));
    assert(sub.last() == ps[i]);
}

proof fn lemma_extensions_prefix(arcs: Seq<SpecArc>, path: Seq<char>, label: Seq<char>, j: int)
    requires
        0 <= j < arcs.len(),
    ensures
        extensions(arcs.subrange(0, j + 1), path, label) == (if arcs[j].0 == label {
            extensions(arcs.subrange(0, j), path, label).push((path + arcs[j].0 + ":"@ + arcs[j].1 + " "@, arcs[j].2))
        } else {
            extensions(arcs.subrange(0, j), path, label)
        }),
{
    let sub = arcs.subrange(0, j + 1);
    assert(sub.drop_last() =~= arcs.subrange(0, j));
    assert(sub.last() == arcs[j]);
}

/// `paths` with `x` inserted after every path whose string does not sort
/// after `x`'s.
fn insert_in_order(paths: &mut Vec<(String, u32)>, x: (String, u32))
    ensures
        paths_view(final(paths)@) == insert_path(paths_view(old(paths)@), (x.0@, x.1)),
{
    let ghost xv = (x.0@, x.1);
    let ghost s = paths_view(paths@);
    let mut k: usize = 0;
    assert(s.subrange(0, s.len() as int) =~= s);
    assert(s.subrange(0, 0) + insert_path(s, xv) =~= insert_path(s, xv));
    while k < paths.len() && !str_lt(x.0.as_str(), paths[k].0.as_str())
        invariant
            s == paths_view(paths@),
            xv == (x.0@, x.1),
            k <= paths@.len(),
            insert_path(s, xv) == s.subrange(0, k as int) + insert_path(s.subrange(k as int, s.len() as int), xv),
        decreases paths@.len() - k,
    {
        let ghost rest = s.subrange(k as int, s.len() as int);
        assert(rest[0] == s[k as int]);
        assert(s[k as int].0 == paths@[k as int].0@);
        assert(!seq_lt(xv.0, rest[0].0));
        assert(insert_path(rest, xv) == seq![rest[0]] + insert_path(rest.drop_first(), xv));
        assert(rest.drop_first() =~= s.subrange(k + 1, s.len() as int));
        assert(s.subrange(0, k + 1) =~= s.subrange(0, k as int) + seq![s[k as int]]);
        assert(s.subrange(0, k as int) + (seq![rest[0]] + insert_path(rest.drop_first(), xv)) =~= s.subrange(0, k + 1)
            + insert_path(s.subrange(k + 1, s.len() as int), xv));
        k = k + 1;
    }
    let ghost rest = s.subrange(k as int, s.len() as int);
    if k < paths.len() {
        assert(rest[0] == s[k as int]);
        assert(s[k as int].0 == paths@[k as int].0@);
        assert(insert_path(rest, xv) == seq![xv] + rest);
    } else {
        assert(rest =~= Seq::<SpecPath>::empty());
        assert(insert_path(rest, xv) == seq![xv]);
    }
    paths.insert(k, x);
    assert(paths_view(paths@) =~= s.subrange(0, k as int) + (seq![xv] + rest));
}

/// Reads `label`: every path advances along the arcs with that input
/// label; when none does, the paths stay and the walk says why. Returns
/// what the walk says.
pub fn step(g: &Vec<Vec<Arc>>, w: &mut Walk, label: &str) -> (said: String)
    requires
        well_formed(graph_view(g@)),
        paths_in(graph_view(g@), old(w)@),
    ensures
        final(w)@ == spec_advance(graph_view(g@), old(w)@, label@),
        paths_in(graph_view(g@), final(w)@),
        said@ == spec_step_text(graph_view(g@), old(w)@, label@),
{
    let ghost gv = graph_view(g@);
    let ghost pv = w@;
    let mut cands: Vec<(String, u32)> = Vec::new();
    let mut next: Vec<(String, u32)> = Vec::new();
    let mut i: usize = 0;
    while i < w.paths.len()
        invariant
            gv == graph_view(g@),
            pv == w@,
            well_formed(gv),
            paths_in(gv, pv),
            i <= pv.len(),
            paths_view(cands@) == found(gv, pv.subrange(0, i as int), label@),
            paths_view(next@) == ordered_paths(paths_view(cands@)),
            paths_in(gv, paths_view(cands@)),
        decreases pv.len() - i,
    {
        proof {
            lemma_found_prefix(gv, pv, label@, i as int);
        }
        let st = w.paths[i].1;
        assert(pv[i as int].1 == st);
        let arcs = &g[st as usize];
        let ghost av = arcs@.map_values(|a: Arc| a@);
        assert(gv[st as int] == av);
        let ghost base = paths_view(cands@);
        let mut j: usize = 0;
        while j < arcs.len()
            invariant
                gv == graph_view(g@),
                well_formed(gv),
                st < gv.len(),
                av == arcs@.map_values(|a: Arc| a@),
                gv[st as int] == av,
                j <= av.len(),
                paths_view(cands@) == base + extensions(
                    av.subrange(0, j as int),
                    pv[i as int].0,
                    label@,
                ),
                paths_view(next@) == ordered_paths(paths_view(cands@)),
                paths_in(gv, paths_view(cands@)),
                i < pv.len(),
                pv.len() == w.paths@.len(),
                pv == w@,
                pv[i as int].0 == w.paths@[i as int].0@,
            decreases av.len() - j,
        {
            proof {
                lemma_extensions_prefix(av, pv[i as int].0, label@, j as int);
            }
            assert(av[j as int] == arcs@[j as int]@);
            if str_eq(arcs[j].input.as_str(), label) {
                let mut p = concat3(w.paths[i].0.as_str(), arcs[j].input.as_str(), ":");
                p.append(arcs[j].output.as_str());
                p.append(" ");
                let t = arcs[j].target;
                let ghost pvv = (p@, t);
                let ghost c0 = paths_view(cands@);
                assert(t < gv.len()) by {
                    assert(gv[st as int][j as int] == av[j as int]);
                }
                cands.push((p.clone(), t));
                assert(paths_view(cands@) =~= c0.push(pvv));
                assert(paths_view(cands@).drop_last() =~= c0);
                insert_in_order(&mut next, (p, t));
                assert(paths_in(gv, paths_view(cands@))) by {
                    assert forall|q: int| 0 <= q < paths_view(cands@).len() implies (#[trigger] paths_view(cands@)[q]).1 < gv.len() by {
                        if q < c0.len() {
                            assert(paths_view(cands@)[q] == c0[q]);
                        }
                    }
                }
                assert(paths_view(cands@) =~= base + extensions(
                    av.subrange(0, j + 1),
                    pv[i as int].0,
                    label@,
                ));
            }
            j = j + 1;
        }
        assert(av.subrange(0, av.len() as int) =~= av);
        assert(paths_view(cands@) =~= found(gv, pv.subrange(0, i + 1), label@));
        i = i + 1;
    }
    assert(pv.subrange(0, pv.len() as int) =~= pv);
    if cands.len() == 0 {
        let mut said = if str_eq(label, "quit") || label.unicode_len() == 0 {
            "Use EOF (Ctrl-D or similar) to quit\n".to_owned()
        } else if str_eq(label, "XYZZY") {
            "Nothing happens\n".to_owned()
        } else {
            String::new()
        };
        said.append("could not advance with ");
        said.append(label);
        said.append("\n");
        said
    } else {
        proof {
            lemma_ordered_paths_in(gv, paths_view(cands@));
        }
        w.paths = next;
        String::new()
    }
}

proof fn lemma_insert_path_in(g: Seq<Seq<SpecArc>>, s: Seq<SpecPath>, x: SpecPath)
    requires
        paths_in(g, s),
        x.1 < g.len(),
    ensures
        paths_in(g, insert_path(s, x)),
    decreases s.len(),
{
    if s.len() > 0 && !seq_lt(x.0, s[0].0) {
        lemma_insert_path_in(g, s.drop_first(), x);
        let r = insert_path(s.drop_first(), x);
        assert forall|i: int| 0 <= i < (seq![s[0]] + r).len() implies (#[trigger] (seq![s[0]] + r)[i]).1 < g.len() by {
            if i > 0 {
                assert((seq![s[0]] + r)[i] == r[i - 1]);
            }
        }
    } else if s.len() > 0 {
        assert forall|i: int| 0 <= i < (seq![x] + s).len() implies (#[trigger] (seq![x] + s)[i]).1 < g.len() by {
            if i > 0 {
                assert((seq![x] + s)[i] == s[i - 1]);
            }
        }
    }
}

proof fn lemma_ordered_paths_in(g: Seq<Seq<SpecArc>>, c: Seq<SpecPath>)
    requires
        paths_in(g, c),
    ensures
        paths_in(g, ordered_paths(c)),
    decreases c.len(),
{
    if c.len() > 0 {
        assert(paths_in(g, c.drop_last())) by {
            assert forall|i: int| 0 <= i < c.drop_last().len() implies (#[trigger] c.drop_last()[i]).1 < g.len() by {
                assert(c.drop_last()[i] == c[i]);
            }
        }
        lemma_ordered_paths_in(g, c.drop_last());
        assert(c.last() == c[c.len() - 1]);
        lemma_insert_path_in(g, ordered_paths(c.drop_last()), c.last());
    }
}


// ---------------------------------------------------------------------------
// The command line
// ---------------------------------------------------------------------------

/// The option table: the shared options and `-X`.
pub open spec fn spec_table() -> Seq<SpecLongOpt> {
    spec_unary_table().push(SpecLongOpt { name: "cave"@, has_arg: HasArg::No, val: 'X' })
}

fn table() -> (t: Vec<LongOpt>)
    ensures
        table_view(t@) == spec_table(),
{
    let mut t = unary_table();
    let ghost before = table_view(t@);
    t.push(crate::common::opt("cave", HasArg::No, 'X'));
    assert(table_view(t@) =~= before.push(SpecLongOpt { name: "cave"@, has_arg: HasArg::No, val: 'X' }));
    t
}

/// The usage text of hfst-traverse.
pub open spec fn spec_usage(program_name: Seq<char>) -> Seq<char> {
    spec_unary_usage(program_name, "Walk through the transducer arc by arc"@, ""@, ""@)
}

/// The usage text of hfst-traverse.
pub fn print_usage(common: &CommonOptions) -> (s: String)
    ensures
        s@ == spec_usage(common.program_name@),
{
    unary_usage(common, "Walk through the transducer arc by arc", "", "")
}

/// The settings and whether `-X` was given after the events `evs`, or the
/// report the tool ends with.
pub open spec fn spec_parse(c: SpecCommon, cave: bool, evs: Seq<SpecEvent>, usage: Seq<char>) -> Result<
    (SpecCommon, bool),
    SpecReport,
>
    decreases evs.len(),
{
    if evs.len() == 0 {
        Ok((c, cave))
    } else {
        match spec_shared_step(c, evs[0], usage) {
            SpecShared::Continue(n) => spec_parse(n, cave, evs.drop_first(), usage),
            SpecShared::Stop(r) => Err(r),
            SpecShared::Own => if evs[0] matches SpecEvent::Opt { val, .. } && val == 'X' {
                spec_parse(c, true, evs.drop_first(), usage)
            } else {
                Err(spec_error_case(c, evs[0]))
            },
        }
    }
}

fn read_options(c: &mut CommonOptions, cave: &mut bool, evs: &Vec<OptEvent>, usage: &str) -> (r: Option<Report>)
    ensures
        match spec_parse(old(c)@, *old(cave), events_view(evs@), usage@) {
            Ok(y) => r is None && final(c)@ == y.0 && *final(cave) == y.1,
            Err(y) => r matches Some(x) && x@ == y,
        },
{
    let ghost ev = events_view(evs@);
    let mut i: usize = 0;
    assert(ev.subrange(0, ev.len() as int) =~= ev);
    while i < evs.len()
        invariant
            ev == events_view(evs@),
            i <= evs@.len(),
            spec_parse(old(c)@, *old(cave), ev, usage@) == spec_parse(
                c@,
                *cave,
                ev.subrange(i as int, ev.len() as int),
                usage@,
            ),
        decreases evs@.len() - i,
    {
        let ghost rest = ev.subrange(i as int, ev.len() as int);
        assert(rest[0] == evs@[i as int]@);
        assert(rest.drop_first() =~= ev.subrange(i + 1, ev.len() as int));
        match shared_step(c, &evs[i], usage) {
            Shared::Continue => {},
            Shared::Stop(r) => {
                return Some(r);
            },
            Shared::Own => {
                match &evs[i] {
                    OptEvent::Opt { val, arg: _ } => {
                        if *val == 'X' {
                            *cave = true;
                        } else {
                            return Some(error_case(c, &evs[i]));
                        }
                    },
                    _ => {
                        return Some(error_case(c, &evs[i]));
                    },
                }
            },
        }
        i = i + 1;
    }
    assert(ev.subrange(evs@.len() as int, ev.len() as int) =~= Seq::<SpecEvent>::empty());
    None
}

/// The settings hfst-traverse runs with.
pub struct Plan {
    pub common: CommonOptions,
    /// `-X`: open with the Colossal Cave game.
    pub cave: bool,
}

impl View for Plan {
    type V = (SpecCommon, bool);

    open spec fn view(&self) -> (SpecCommon, bool) {
        (self.common@, self.cave)
    }
}

/// The settings hfst-traverse runs with, or the report it ends with.
pub open spec fn spec_run(args: Seq<Seq<char>>) -> Result<(SpecCommon, bool), SpecReport> {
    let c0 = spec_initial_common(spec_argv0(args));
    let sc = spec_scan(args, spec_table());
    match spec_parse(c0, false, sc.0, spec_usage(c0.program_name)) {
        Err(r) => Err(r),
        Ok((c, cave)) => match spec_check_unary(c, sc.1) {
            Ok(c2) => Ok((c2, cave)),
            Err(r) => Err(r),
        },
    }
}

/// Reads hfst-traverse's command line (`args[0]` is the program name).
pub fn run(args: &Vec<String>) -> (r: Result<Plan, Report>)
    ensures
        outcome_is(r, spec_run(args_view(args@))),
{
    let name = argv0(args);
    let mut c = initial_common(name.as_str());
    let usage = print_usage(&c);
    let t = table();
    let sc = scan(args, &t);
    let mut cave = false;
    if let Some(r) = read_options(&mut c, &mut cave, &sc.events, usage.as_str()) {
        return Err(r);
    }
    match check_unary(c, &sc.operands) {
        Ok(c2) => Ok(Plan { common: c2, cave }),
        Err(r) => Err(r),
    }
}

// ---------------------------------------------------------------------------
// Before the walk
// ---------------------------------------------------------------------------

/// The greeting of `-X`.
pub open spec fn welcome() -> Seq<char> {
    "WELCOME TO ADVENTURE!! WOULD YOU LIKE INSTRUCTIONS?\n\n"@
}

/// The instructions `-X` gives to a yes.
pub open spec fn instructions() -> Seq<char> {
    "SOMEWHERE NEARBY IS COLOSSAL CAVE WHERE OTHERS HAVE FOUND\nFORTUNES IN TREASURES AND GOLD, THOUGH IT IS RUMORED\nTHAT SOME WHO ENTER ARE NEVER SEEN AGAIN. MAGIC IS SAID\nTO WORK IN THE CAVE.  I WILL BE YOUR EYES AND HANDS. DIRECT\nME WITH COMMANDS OF 1 ARC LABEL.\n(ERRORS, COMPLAINTS, SUGGESTIONS TO HFST-BUGS)\n(IF STUCK TYPE HELP FOR SOME HINTS)\n\n"@
}

/// The scene `-X` sets before the walk.
pub open spec fn scene() -> Seq<char> {
    "YOU ARE STANDING AT THE END OF A ROAD BEFORE A SMALL FINITE\nSTATE AUTOMATON . AROUND YOU IS A FOREST. A SMALL\nSTREAM OF ARCS FLOWS OUT OF THE AUTOMATON AND DOWN A GULLY:\n\n"@
}

/// The greeting before the walk: with `-X` the game's question, which the
/// caller answers with [`opening`]; otherwise the transducer's name.
pub open spec fn spec_greeting(cave: bool, name: Seq<char>) -> Seq<char> {
    if cave { welcome() } else { "Traversing automaton "@ + name + "\n\n"@ }
}

/// The greeting before the walk.
pub fn greeting(cave: bool, name: &str) -> (s: String)
    ensures
        s@ == spec_greeting(cave, name@),
{
    if cave {
        "WELCOME TO ADVENTURE!! WOULD YOU LIKE INSTRUCTIONS?\n\n".to_owned()
    } else {
        concat3("Traversing automaton ", name, "\n\n")
    }
}

/// What `-X` says after the answer to its question: the instructions for
/// `YES` or `yes`, then the scene.
pub open spec fn spec_opening(answer: Seq<char>) -> Seq<char> {
    (if answer == "YES"@ || answer == "yes"@ { instructions() } else { Seq::empty() }) + scene()
}

/// What `-X` says after the answer to its question.
pub fn opening(answer: &str) -> (s: String)
    ensures
        s@ == spec_opening(answer@),
{
    let mut s = if str_eq(answer, "YES") || str_eq(answer, "yes") {
        "SOMEWHERE NEARBY IS COLOSSAL CAVE WHERE OTHERS HAVE FOUND\nFORTUNES IN TREASURES AND GOLD, THOUGH IT IS RUMORED\nTHAT SOME WHO ENTER ARE NEVER SEEN AGAIN. MAGIC IS SAID\nTO WORK IN THE CAVE.  I WILL BE YOUR EYES AND HANDS. DIRECT\nME WITH COMMANDS OF 1 ARC LABEL.\n(ERRORS, COMPLAINTS, SUGGESTIONS TO HFST-BUGS)\n(IF STUCK TYPE HELP FOR SOME HINTS)\n\n".to_owned()
    } else {
        String::new()
    };
    s.append(
        "YOU ARE STANDING AT THE END OF A ROAD BEFORE A SMALL FINITE\nSTATE AUTOMATON . AROUND YOU IS A FOREST. A SMALL\nSTREAM OF ARCS FLOWS OUT OF THE AUTOMATON AND DOWN A GULLY:\n\n",
    );
    s
}

/// What the tool says of a transducer without states, where the walk
/// cannot start; `None` when it has states.
pub fn nowhere(g: &Vec<Vec<Arc>>) -> (s: Option<String>)
    ensures
        s is Some <==> g@.len() == 0,
        s matches Some(t) ==> t@ == "Nowhere to go\n"@,
{
    if g.len() == 0 {
        Some("Nowhere to go\n".to_owned())
    } else {
        None
    }
}

// ---------------------------------------------------------------------------
// Laws
// ---------------------------------------------------------------------------

/// The walk keeps its paths in the order of their strings, whatever labels
/// it reads: inserting keeps a list sorted.
pub open spec fn paths_sorted(ps: Seq<SpecPath>) -> bool {
    forall|i: int, j: int| 0 <= i < j < ps.len() ==> !seq_lt(#[trigger] ps[j].0, #[trigger] ps[i].0)
}

/// A label that leads nowhere leaves the paths as they were.
pub proof fn lemma_stuck_keeps_paths(g: Seq<Seq<SpecArc>>, ps: Seq<SpecPath>, label: Seq<char>)
    requires
        found(g, ps, label).len() == 0,
    ensures
        spec_advance(g, ps, label) == ps,
        spec_step_text(g, ps, label) == spec_stuck(label),
{
}

proof fn lemma_insert_path_members(s: Seq<SpecPath>, x: SpecPath)
    ensures
        insert_path(s, x).len() == s.len() + 1,
        forall|k: int| 0 <= k < insert_path(s, x).len() ==> #[trigger] insert_path(s, x)[k] == x || s.contains(
            insert_path(s, x)[k],
        ),
    decreases s.len(),
{
    if s.len() == 0 {
    } else if seq_lt(x.0, s[0].0) {
        assert forall|k: int| 0 <= k < insert_path(s, x).len() implies #[trigger] insert_path(s, x)[k] == x || s.contains(
            insert_path(s, x)[k],
        ) by {
            if k > 0 {
                assert(insert_path(s, x)[k] == s[k - 1]);
            }
        }
    } else {
        let r = insert_path(s.drop_first(), x);
        lemma_insert_path_members(s.drop_first(), x);
        assert forall|k: int| 0 <= k < insert_path(s, x).len() implies #[trigger] insert_path(s, x)[k] == x || s.contains(
            insert_path(s, x)[k],
        ) by {
            if k == 0 {
                assert(s.contains(s[0]));
            } else {
                assert(insert_path(s, x)[k] == r[k - 1]);
                if r[k - 1] != x {
                    let q = choose|q: int| 0 <= q < s.drop_first().len() && s.drop_first()[q] == r[k - 1];
                    assert(s[q + 1] == r[k - 1]);
                }
            }
        }
    }
}

proof fn lemma_insert_path_sorted(s: Seq<SpecPath>, x: SpecPath)
    requires
        paths_sorted(s),
    ensures
        paths_sorted(insert_path(s, x)),
    decreases s.len(),
{
    if s.len() == 0 {
    } else if seq_lt(x.0, s[0].0) {
        let r = seq![x] + s;
        assert forall|i: int, j: int| 0 <= i < j < r.len() implies !seq_lt(#[trigger] r[j].0, #[trigger] r[i].0) by {
            if i == 0 {
                assert(r[j] == s[j - 1]);
                if j - 1 > 0 {
                    assert(!seq_lt(s[j - 1].0, s[0].0));
                }
                if seq_lt(r[j].0, x.0) {
                    crate::sorted::lemma_lt_trans(r[j].0, x.0, s[0].0);
                    crate::sorted::lemma_lt_irreflexive(s[0].0);
                }
            } else {
                assert(r[i] == s[i - 1]);
                assert(r[j] == s[j - 1]);
            }
        }
    } else {
        let t = s.drop_first();
        assert(paths_sorted(t)) by {
            assert forall|i: int, j: int| 0 <= i < j < t.len() implies !seq_lt(#[trigger] t[j].0, #[trigger] t[i].0) by {
                assert(t[i] == s[i + 1]);
                assert(t[j] == s[j + 1]);
            }
        }
        lemma_insert_path_sorted(t, x);
        lemma_insert_path_members(t, x);
        let ins = insert_path(t, x);
        let r = seq![s[0]] + ins;
        assert forall|i: int, j: int| 0 <= i < j < r.len() implies !seq_lt(#[trigger] r[j].0, #[trigger] r[i].0) by {
            if i == 0 {
                assert(r[j] == ins[j - 1]);
                if ins[j - 1] != x {
                    let q = choose|q: int| 0 <= q < t.len() && t[q] == ins[j - 1];
                    assert(s[q + 1] == t[q]);
                    assert(!seq_lt(s[q + 1].0, s[0].0));
                }
            } else {
                assert(r[i] == ins[i - 1]);
                assert(r[j] == ins[j - 1]);
            }
        }
    }
}

proof fn lemma_ordered_paths_sorted(c: Seq<SpecPath>)
    ensures
        paths_sorted(ordered_paths(c)),
    decreases c.len(),
{
    if c.len() > 0 {
        lemma_ordered_paths_sorted(c.drop_last());
        lemma_insert_path_sorted(ordered_paths(c.drop_last()), c.last());
    }
}

/// Whatever label is read, a walk whose paths are in the order of their
/// strings keeps them so.
pub proof fn lemma_walk_stays_sorted(g: Seq<Seq<SpecArc>>, ps: Seq<SpecPath>, label: Seq<char>)
    requires
        paths_sorted(ps),
    ensures
        paths_sorted(spec_advance(g, ps, label)),
{
    lemma_ordered_paths_sorted(found(g, ps, label));
}
} // verus!
