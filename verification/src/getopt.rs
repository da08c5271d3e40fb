//! GNU-style `getopt_long` scanning of a command line.
//!
//! The tools describe their options with a table of [`LongOpt`]s; every entry
//! is reachable both as `--name` and as the short option `-val`. Scanning the
//! whole argument vector yields the option events in the order getopt would
//! report them, and the operands (non-option arguments) in their original
//! order, which is where getopt's argument permutation leaves them.

use vstd::prelude::*;
use crate::text::{spec_has_prefix, chars_of, string_of_range};

verus! {

/// Whether an option takes an argument.
#[derive(Clone, Copy, PartialEq, Eq, Structural)]
pub enum HasArg {
    No,
    Required,
    Optional,
}

/// One entry of an option table.
pub struct LongOpt {
    pub name: String,
    pub has_arg: HasArg,
    pub val: char,
}

/// The mathematical model of a table entry.
pub struct SpecLongOpt {
    pub name: Seq<char>,
    pub has_arg: HasArg,
    pub val: char,
}

impl View for LongOpt {
    type V = SpecLongOpt;

    open spec fn view(&self) -> SpecLongOpt {
        SpecLongOpt { name: self.name@, has_arg: self.has_arg, val: self.val }
    }
}

/// What getopt reports for one option occurrence.
pub enum OptEvent {
    /// A recognised option and its argument, if it has one.
    Opt { val: char, arg: Option<String> },
    /// `-c` where no option has the short form `c`.
    UnknownShort { c: char },
    /// `--name` where no option's name begins with `name`.
    UnknownLong { name: String },
    /// `--name` that begins the names of several different options.
    AmbiguousLong { name: String },
    /// An option that requires an argument came last on the command line.
    MissingArg { val: char },
    /// `--name=value` for an option that takes no argument.
    UnexpectedArg { val: char },
}

/// The mathematical model of an [`OptEvent`].
pub enum SpecEvent {
    Opt { val: char, arg: Option<Seq<char>> },
    UnknownShort { c: char },
    UnknownLong { name: Seq<char> },
    AmbiguousLong { name: Seq<char> },
    MissingArg { val: char },
    UnexpectedArg { val: char },
}

pub open spec fn opt_view(o: Option<String>) -> Option<Seq<char>> {
    match o {
        Some(s) => Some(s@),
        None => None,
    }
}

impl View for OptEvent {
    type V = SpecEvent;

    open spec fn view(&self) -> SpecEvent {
        match self {
            OptEvent::Opt { val, arg } => SpecEvent::Opt { val: *val, arg: opt_view(*arg) },
            OptEvent::UnknownShort { c } => SpecEvent::UnknownShort { c: *c },
            OptEvent::UnknownLong { name } => SpecEvent::UnknownLong { name: name@ },
            OptEvent::AmbiguousLong { name } => SpecEvent::AmbiguousLong { name: name@ },
            OptEvent::MissingArg { val } => SpecEvent::MissingArg { val: *val },
            OptEvent::UnexpectedArg { val } => SpecEvent::UnexpectedArg { val: *val },
        }
    }
}

/// The outcome of scanning a command line.
pub struct Scan {
    pub events: Vec<OptEvent>,
    pub operands: Vec<String>,
}

pub open spec fn table_view(t: Seq<LongOpt>) -> Seq<SpecLongOpt> {
    t.map_values(|o: LongOpt| o@)
}

pub open spec fn args_view(a: Seq<String>) -> Seq<Seq<char>> {
    a.map_values(|s: String| s@)
}

pub open spec fn events_view(e: Seq<OptEvent>) -> Seq<SpecEvent> {
    e.map_values(|x: OptEvent| x@)
}

// ---------------------------------------------------------------------------
// The model of scanning
// ---------------------------------------------------------------------------

/// The first entry, from `k` on, whose short form is `c`.
pub open spec fn find_short(t: Seq<SpecLongOpt>, c: char, k: int) -> Option<int>
    decreases t.len() - k,
{
    if k < 0 || k >= t.len() {
        None
    } else if t[k].val == c {
        Some(k)
    } else {
        find_short(t, c, k + 1)
    }
}

/// The first entry, from `k` on, whose name is exactly `name`.
pub open spec fn find_exact(t: Seq<SpecLongOpt>, name: Seq<char>, k: int) -> Option<int>
    decreases t.len() - k,
{
    if k < 0 || k >= t.len() {
        None
    } else if t[k].name == name {
        Some(k)
    } else {
        find_exact(t, name, k + 1)
    }
}

/// The first entry, from `k` on, whose name begins with `name`.
pub open spec fn find_prefix(t: Seq<SpecLongOpt>, name: Seq<char>, k: int) -> Option<int>
    decreases t.len() - k,
{
    if k < 0 || k >= t.len() {
        None
    } else if spec_has_prefix(t[k].name, name) {
        Some(k)
    } else {
        find_prefix(t, name, k + 1)
    }
}

/// Whether some entry from `k` on begins with `name` but differs from entry
/// `j` in its short form or its argument kind.
pub open spec fn other_prefix_match(t: Seq<SpecLongOpt>, name: Seq<char>, j: int, k: int) -> bool
    decreases t.len() - k,
{
    if k < 0 || k >= t.len() {
        false
    } else if spec_has_prefix(t[k].name, name) && (t[k].val != t[j].val || t[k].has_arg
        != t[j].has_arg) {
        true
    } else {
        other_prefix_match(t, name, j, k + 1)
    }
}

/// How a long option name resolves against the table.
pub enum LongLookup {
    Found(int),
    Unknown,
    Ambiguous,
}

/// An exact name wins; otherwise a unique abbreviation (entries that share
/// their short form and argument kind count as one).
pub open spec fn lookup_long(t: Seq<SpecLongOpt>, name: Seq<char>) -> LongLookup {
    match find_exact(t, name, 0) {
        Some(k) => LongLookup::Found(k),
        None => match find_prefix(t, name, 0) {
            None => LongLookup::Unknown,
            Some(j) => if other_prefix_match(t, name, j, 0) {
                LongLookup::Ambiguous
            } else {
                LongLookup::Found(j)
            },
        },
    }
}

/// The position of the first `=` in `s` at or after `k`, if any.
pub open spec fn find_eq(s: Seq<char>, k: int) -> Option<int>
    decreases s.len() - k,
{
    if k < 0 || k >= s.len() {
        None
    } else if s[k] == '=' {
        Some(k)
    } else {
        find_eq(s, k + 1)
    }
}

/// One step of the scan: the events produced by the argument (or the short
/// option cluster position) at hand, and where scanning resumes.
pub struct Step {
    pub events: Seq<SpecEvent>,
    pub operand: Option<Seq<char>>,
    pub next_arg: int,
    pub next_pos: int,
}

/// The step taken at short option position `pos` of argument `i`, which is
/// a cluster `-abc` with `1 <= pos < len`.
pub open spec fn short_step(a: Seq<Seq<char>>, t: Seq<SpecLongOpt>, i: int, pos: int) -> Step {
    let arg = a[i];
    let c = arg[pos];
    let rest = arg.subrange(pos + 1, arg.len() as int);
    let at_end = pos + 1 >= arg.len();
    match find_short(t, c, 0) {
        None => Step {
            events: seq![SpecEvent::UnknownShort { c }],
            operand: None,
            next_arg: if at_end { i + 1 } else { i },
            next_pos: if at_end { 0 } else { pos + 1 },
        },
        Some(k) => match t[k].has_arg {
            HasArg::No => Step {
                events: seq![SpecEvent::Opt { val: c, arg: None }],
                operand: None,
                next_arg: if at_end { i + 1 } else { i },
                next_pos: if at_end { 0 } else { pos + 1 },
            },
            HasArg::Optional => Step {
                events: seq![SpecEvent::Opt { val: c, arg: if at_end { None } else { Some(rest) } }],
                operand: None,
                next_arg: i + 1,
                next_pos: 0,
            },
            HasArg::Required => if !at_end {
                Step {
                    events: seq![SpecEvent::Opt { val: c, arg: Some(rest) }],
                    operand: None,
                    next_arg: i + 1,
                    next_pos: 0,
                }
            } else if i + 1 < a.len() {
                Step {
                    events: seq![SpecEvent::Opt { val: c, arg: Some(a[i + 1]) }],
                    operand: None,
                    next_arg: i + 2,
                    next_pos: 0,
                }
            } else {
                Step {
                    events: seq![SpecEvent::MissingArg { val: c }],
                    operand: None,
                    next_arg: i + 1,
                    next_pos: 0,
                }
            },
        },
    }
}

/// The step taken at argument `i`, `--name[=value]`.
pub open spec fn long_step(a: Seq<Seq<char>>, t: Seq<SpecLongOpt>, i: int) -> Step {
    let body = a[i].subrange(2, a[i].len() as int);
    let eq = find_eq(body, 0);
    let name = match eq {
        Some(e) => body.subrange(0, e),
        None => body,
    };
    let value: Option<Seq<char>> = match eq {
        Some(e) => Some(body.subrange(e + 1, body.len() as int)),
        None => None,
    };
    match lookup_long(t, name) {
        LongLookup::Unknown => Step {
            events: seq![SpecEvent::UnknownLong { name }],
            operand: None,
            next_arg: i + 1,
            next_pos: 0,
        },
        LongLookup::Ambiguous => Step {
            events: seq![SpecEvent::AmbiguousLong { name }],
            operand: None,
            next_arg: i + 1,
            next_pos: 0,
        },
        LongLookup::Found(k) => match t[k].has_arg {
            HasArg::No => Step {
                events: if value is Some {
                    seq![SpecEvent::UnexpectedArg { val: t[k].val }]
                } else {
                    seq![SpecEvent::Opt { val: t[k].val, arg: None }]
                },
                operand: None,
                next_arg: i + 1,
                next_pos: 0,
            },
            HasArg::Optional => Step {
                events: seq![SpecEvent::Opt { val: t[k].val, arg: value }],
                operand: None,
                next_arg: i + 1,
                next_pos: 0,
            },
            HasArg::Required => if value is Some {
                Step {
                    events: seq![SpecEvent::Opt { val: t[k].val, arg: value }],
                    operand: None,
                    next_arg: i + 1,
                    next_pos: 0,
                }
            } else if i + 1 < a.len() {
                Step {
                    events: seq![SpecEvent::Opt { val: t[k].val, arg: Some(a[i + 1]) }],
                    operand: None,
                    next_arg: i + 2,
                    next_pos: 0,
                }
            } else {
                Step {
                    events: seq![SpecEvent::MissingArg { val: t[k].val }],
                    operand: None,
                    next_arg: i + 1,
                    next_pos: 0,
                }
            },
        },
    }
}

/// Whether argument `s` is `--`, which ends option processing.
pub open spec fn is_terminator(s: Seq<char>) -> bool {
    s.len() == 2 && s[0] == '-' && s[1] == '-'
}

/// Whether argument `s` is a long option `--name...`.
pub open spec fn is_long(s: Seq<char>) -> bool {
    s.len() > 2 && s[0] == '-' && s[1] == '-'
}

/// Whether argument `s` is a short option cluster `-abc` (`-` alone is an
/// operand).
pub open spec fn is_cluster(s: Seq<char>) -> bool {
    s.len() > 1 && s[0] == '-' && !(s.len() == 2 && s[1] == '-') && !is_long(s)
}

/// The step taken when scanning resumes at argument `i`, cluster position
/// `pos` (0 when not inside a cluster).
pub open spec fn step(a: Seq<Seq<char>>, t: Seq<SpecLongOpt>, i: int, pos: int) -> Step {
    if pos > 0 {
        short_step(a, t, i, pos)
    } else if is_long(a[i]) {
        long_step(a, t, i)
    } else if is_cluster(a[i]) {
        short_step(a, t, i, 1)
    } else {
        Step { events: seq![], operand: Some(a[i]), next_arg: i + 1, next_pos: 0 }
    }
}

/// Events and operands from argument `i`, cluster position `pos`, to the end.
pub open spec fn scan_from(a: Seq<Seq<char>>, t: Seq<SpecLongOpt>, i: int, pos: int) -> (Seq<
    SpecEvent,
>, Seq<Seq<char>>)
    decreases a.len() - i, (if i >= 0 && i < a.len() { a[i].len() - pos } else { 0 }),
    when 0 <= i && 0 <= pos
{
    if i >= a.len() {
        (seq![], seq![])
    } else if pos == 0 && is_terminator(a[i]) {
        (seq![], a.subrange(i + 1, a.len() as int))
    } else if pos > 0 && pos >= a[i].len() {
        scan_from(a, t, i + 1, 0)
    } else {
        let s = step(a, t, i, pos);
        if valid_step(a, i, pos, s) {
            let r = scan_from(a, t, s.next_arg, s.next_pos);
            (s.events + r.0, match s.operand {
                Some(o) => seq![o] + r.1,
                None => r.1,
            })
        } else {
            (seq![], seq![])
        }
    }
}

/// Scanning makes progress: it moves to a later argument, or further into
/// the same cluster.
pub open spec fn valid_step(a: Seq<Seq<char>>, i: int, pos: int, s: Step) -> bool {
    0 <= s.next_pos && (s.next_arg > i || (s.next_arg == i && s.next_pos > pos)) && (s.next_arg
        == i ==> s.next_pos <= a[i].len())
}

/// The scan of a whole command line; `a[0]` is the program name.
pub open spec fn spec_scan(a: Seq<Seq<char>>, t: Seq<SpecLongOpt>) -> (Seq<SpecEvent>, Seq<
    Seq<char>,
>) {
    scan_from(a, t, 1, 0)
}

proof fn lemma_step_valid(a: Seq<Seq<char>>, t: Seq<SpecLongOpt>, i: int, pos: int)
    requires
        0 <= i < a.len(),
        0 <= pos,
        pos > 0 ==> pos < a[i].len(),
    ensures
        valid_step(a, i, pos, step(a, t, i, pos)),
{
}


// ---------------------------------------------------------------------------
// Scanning
// ---------------------------------------------------------------------------

/// Whether `x[from..to]` and `y` hold the same characters.
fn range_eq(x: &Vec<char>, from: usize, to: usize, y: &Vec<char>) -> (r: bool)
    requires
        from <= to <= x@.len(),
    ensures
        r == (x@.subrange(from as int, to as int) == y@),
{
    if to - from != y.len() {
        return false;
    }
    let mut i: usize = 0;
    while i < y.len()
        invariant
            from <= to <= x@.len(),
            to - from == y@.len(),
            i <= y@.len(),
            forall|k: int| 0 <= k < i ==> x@[from + k] == y@[k],
        decreases y@.len() - i,
    {
        if x[from + i] != y[i] {
            assert(x@.subrange(from as int, to as int)[i as int] != y@[i as int]);
            return false;
        }
        i = i + 1;
    }
    assert(x@.subrange(from as int, to as int) =~= y@);
    true
}

/// Whether `x[from..to]` is a prefix of `y`.
fn range_is_prefix_of(x: &Vec<char>, from: usize, to: usize, y: &Vec<char>) -> (r: bool)
    requires
        from <= to <= x@.len(),
    ensures
        r == spec_has_prefix(y@, x@.subrange(from as int, to as int)),
{
    let n = to - from;
    if n > y.len() {
        return false;
    }
    let mut i: usize = 0;
    while i < n
        invariant
            from <= to <= x@.len(),
            n == to - from,
            n <= y@.len(),
            i <= n,
            forall|k: int| 0 <= k < i ==> x@[from + k] == y@[k],
        decreases n - i,
    {
        if x[from + i] != y[i] {
            assert(y@.subrange(0, n as int)[i as int] != x@.subrange(from as int, to as int)[i as int]);
            return false;
        }
        i = i + 1;
    }
    assert(y@.subrange(0, n as int) =~= x@.subrange(from as int, to as int));
    true
}

/// The names of the table entries, as character vectors.
struct Names {
    names: Vec<Vec<char>>,
}

impl Names {
    spec fn matches(&self, t: Seq<LongOpt>) -> bool {
        &&& self.names@.len() == t.len()
        &&& forall|k: int| 0 <= k < t.len() ==> #[trigger] self.names@[k]@ == t[k].name@
    }

    fn new(t: &Vec<LongOpt>) -> (r: Names)
        ensures
            r.matches(t@),
    {
        let mut names: Vec<Vec<char>> = Vec::new();
        let mut k: usize = 0;
        while k < t.len()
            invariant
                k <= t@.len(),
                names@.len() == k,
                forall|j: int| 0 <= j < k ==> #[trigger] names@[j]@ == t@[j].name@,
            decreases t@.len() - k,
        {
            names.push(chars_of(t[k].name.as_str()));
            k = k + 1;
        }
        Names { names }
    }
}

/// The index of the first entry whose short form is `c`.
fn find_short_exec(t: &Vec<LongOpt>, c: char) -> (r: Option<usize>)
    ensures
        find_short(table_view(t@), c, 0) == match r {
            Some(k) => Some(k as int),
            None => None::<int>,
        },
        r matches Some(k) ==> k < t@.len(),
{
    let ghost tv = table_view(t@);
    let mut k: usize = 0;
    while k < t.len()
        invariant
            tv == table_view(t@),
            k <= t@.len(),
            find_short(tv, c, 0) == find_short(tv, c, k as int),
        decreases t@.len() - k,
    {
        if t[k].val == c {
            return Some(k);
        }
        k = k + 1;
    }
    None
}

/// How a long option name resolved.
enum Lookup {
    Found(usize),
    Unknown,
    Ambiguous,
}

spec fn lookup_view(l: Lookup) -> LongLookup {
    match l {
        Lookup::Found(k) => LongLookup::Found(k as int),
        Lookup::Unknown => LongLookup::Unknown,
        Lookup::Ambiguous => LongLookup::Ambiguous,
    }
}

/// The index of the first entry whose name begins with `x[from..to]`.
fn find_prefix_exec(t: &Vec<LongOpt>, names: &Names, x: &Vec<char>, from: usize, to: usize) -> (r:
    Option<usize>)
    requires
        names.matches(t@),
        from <= to <= x@.len(),
    ensures
        find_prefix(table_view(t@), x@.subrange(from as int, to as int), 0) == match r {
            Some(k) => Some(k as int),
            None => None::<int>,
        },
        r matches Some(k) ==> k < t@.len(),
{
    let ghost tv = table_view(t@);
    let ghost name = x@.subrange(from as int, to as int);
    let mut j: usize = 0;
    while j < t.len()
        invariant
            tv == table_view(t@),
            names.matches(t@),
            from <= to <= x@.len(),
            name == x@.subrange(from as int, to as int),
            j <= t@.len(),
            find_prefix(tv, name, 0) == find_prefix(tv, name, j as int),
        decreases t@.len() - j,
    {
        if range_is_prefix_of(x, from, to, &names.names[j]) {
            return Some(j);
        }
        j = j + 1;
    }
    None
}

/// Resolves the name `x[from..to]` against the table.
fn lookup_long_exec(t: &Vec<LongOpt>, names: &Names, x: &Vec<char>, from: usize, to: usize) -> (r:
    Lookup)
    requires
        names.matches(t@),
        from <= to <= x@.len(),
    ensures
        lookup_view(r) == lookup_long(table_view(t@), x@.subrange(from as int, to as int)),
        r matches Lookup::Found(k) ==> k < t@.len(),
{
    let ghost tv = table_view(t@);
    let ghost name = x@.subrange(from as int, to as int);
    let mut k: usize = 0;
    while k < t.len()
        invariant
            tv == table_view(t@),
            names.matches(t@),
            from <= to <= x@.len(),
            name == x@.subrange(from as int, to as int),
            k <= t@.len(),
            find_exact(tv, name, 0) == find_exact(tv, name, k as int),
        decreases t@.len() - k,
    {
        if range_eq(x, from, to, &names.names[k]) {
            return Lookup::Found(k);
        }
        k = k + 1;
    }
    let j = match find_prefix_exec(t, names, x, from, to) {
        None => {
            return Lookup::Unknown;
        },
        Some(j) => j,
    };
    let mut m: usize = 0;
    while m < t.len()
        invariant
            tv == table_view(t@),
            names.matches(t@),
            from <= to <= x@.len(),
            name == x@.subrange(from as int, to as int),
            j < t@.len(),
            m <= t@.len(),
            find_exact(tv, name, 0) == None::<int>,
            find_prefix(tv, name, 0) == Some(j as int),
            other_prefix_match(tv, name, j as int, 0) == other_prefix_match(tv, name, j as int, m as int),
        decreases t@.len() - m,
    {
        if range_is_prefix_of(x, from, to, &names.names[m]) && (t[m].val != t[j].val || t[m].has_arg
            != t[j].has_arg) {
            return Lookup::Ambiguous;
        }
        m = m + 1;
    }
    Lookup::Found(j)
}

/// The position of the first `=` in `x[from..]`, relative to `from`.
fn find_eq_exec(x: &Vec<char>, from: usize) -> (r: Option<usize>)
    requires
        from <= x@.len(),
    ensures
        find_eq(x@.subrange(from as int, x@.len() as int), 0) == match r {
            Some(e) => Some(e as int),
            None => None::<int>,
        },
        r matches Some(e) ==> from + e < x@.len(),
{
    let ghost body = x@.subrange(from as int, x@.len() as int);
    let mut k: usize = 0;
    while k < x.len() - from
        invariant
            from <= x@.len(),
            body == x@.subrange(from as int, x@.len() as int),
            from + k <= x@.len(),
            find_eq(body, 0) == find_eq(body, k as int),
        decreases x@.len() - from - k,
    {
        if x[from + k] == '=' {
            return Some(k);
        }
        k = k + 1;
    }
    None
}

/// The events, operand and resumption point of one step, as computed.
struct ExecStep {
    events: Vec<OptEvent>,
    operand: Option<String>,
    next_arg: usize,
    next_pos: usize,
}

spec fn exec_step_view(s: ExecStep) -> Step {
    Step {
        events: events_view(s.events@),
        operand: opt_view(s.operand),
        next_arg: s.next_arg as int,
        next_pos: s.next_pos as int,
    }
}

fn one_event(e: OptEvent, operand: Option<String>, next_arg: usize, next_pos: usize) -> (r: ExecStep)
    ensures
        events_view(r.events@) == seq![e@],
        r.operand == operand,
        r.next_arg == next_arg,
        r.next_pos == next_pos,
{
    let mut events: Vec<OptEvent> = Vec::new();
    let ghost ev = e@;
    events.push(e);
    assert(events_view(events@) =~= seq![ev]);
    ExecStep { events, operand, next_arg, next_pos }
}

/// The step at position `pos` of the cluster `a[i]`.
fn short_step_exec(args: &Vec<String>, a: &Vec<Vec<char>>, t: &Vec<LongOpt>, i: usize, pos: usize) -> (r:
    ExecStep)
    requires
        a@.len() == args@.len(),
        forall|k: int| 0 <= k < a@.len() ==> #[trigger] a@[k]@ == args@[k]@,
        i < a@.len(),
        1 <= pos < a@[i as int]@.len(),
    ensures
        exec_step_view(r) == short_step(args_view(args@), table_view(t@), i as int, pos as int),
{
    let ghost av = args_view(args@);
    assert(av[i as int] == a@[i as int]@);
    let n = a.len();
    let arg = &a[i];
    let c = arg[pos];
    let at_end = arg.len() - pos <= 1;
    let r = match find_short_exec(t, c) {
        None => {
            let e = OptEvent::UnknownShort { c };
            if at_end {
                one_event(e, None, i + 1, 0)
            } else {
                one_event(e, None, i, pos + 1)
            }
        },
        Some(k) => {
            let has = t[k].has_arg;
            match has {
                HasArg::No => {
                    let e = OptEvent::Opt { val: c, arg: None };
                    if at_end {
                        one_event(e, None, i + 1, 0)
                    } else {
                        one_event(e, None, i, pos + 1)
                    }
                },
                HasArg::Optional => {
                    let value = if at_end {
                        None
                    } else {
                        Some(string_of_range(arg, pos + 1, arg.len()))
                    };
                    one_event(OptEvent::Opt { val: c, arg: value }, None, i + 1, 0)
                },
                HasArg::Required => {
                    if !at_end {
                        let value = string_of_range(arg, pos + 1, arg.len());
                        one_event(OptEvent::Opt { val: c, arg: Some(value) }, None, i + 1, 0)
                    } else if i + 1 < a.len() {
                        let value = args[i + 1].clone();
                        assert(av[i + 1] == args@[i + 1]@);
                        one_event(OptEvent::Opt { val: c, arg: Some(value) }, None, i + 2, 0)
                    } else {
                        one_event(OptEvent::MissingArg { val: c }, None, i + 1, 0)
                    }
                },
            }
        },
    };
    r
}

/// The step at the long option `a[i]`.
fn long_step_exec(args: &Vec<String>, a: &Vec<Vec<char>>, t: &Vec<LongOpt>, names: &Names, i: usize) -> (r:
    ExecStep)
    requires
        a@.len() == args@.len(),
        forall|k: int| 0 <= k < a@.len() ==> #[trigger] a@[k]@ == args@[k]@,
        i < a@.len(),
        is_long(a@[i as int]@),
        names.matches(t@),
    ensures
        exec_step_view(r) == long_step(args_view(args@), table_view(t@), i as int),
{
    let ghost av = args_view(args@);
    assert(av[i as int] == a@[i as int]@);
    let n = a.len();
    let arg = &a[i];
    let arg_len = arg.len();
    let ghost body = arg@.subrange(2, arg@.len() as int);
    let eq = find_eq_exec(arg, 2);
    let name_end = match eq {
        Some(e) => 2 + e,
        None => arg.len(),
    };
    proof {
        match eq {
            Some(e) => {
                assert(body.subrange(0, e as int) =~= arg@.subrange(2, name_end as int));
                assert(body.subrange(e + 1, body.len() as int) =~= arg@.subrange(name_end + 1, arg@.len() as int));
            },
            None => {
                assert(body =~= arg@.subrange(2, name_end as int));
            },
        }
    }
    let value: Option<String> = match eq {
        Some(e) => Some(string_of_range(arg, name_end + 1, arg.len())),
        None => None,
    };
    let r = match lookup_long_exec(t, names, arg, 2, name_end) {
        Lookup::Unknown => {
            let name = string_of_range(arg, 2, name_end);
            one_event(OptEvent::UnknownLong { name }, None, i + 1, 0)
        },
        Lookup::Ambiguous => {
            let name = string_of_range(arg, 2, name_end);
            one_event(OptEvent::AmbiguousLong { name }, None, i + 1, 0)
        },
        Lookup::Found(k) => {
            let val = t[k].val;
            match t[k].has_arg {
                HasArg::No => {
                    if value.is_some() {
                        one_event(OptEvent::UnexpectedArg { val }, None, i + 1, 0)
                    } else {
                        one_event(OptEvent::Opt { val, arg: None }, None, i + 1, 0)
                    }
                },
                HasArg::Optional => {
                    one_event(OptEvent::Opt { val, arg: value }, None, i + 1, 0)
                },
                HasArg::Required => {
                    if value.is_some() {
                        one_event(OptEvent::Opt { val, arg: value }, None, i + 1, 0)
                    } else if i + 1 < a.len() {
                        let v = args[i + 1].clone();
                        assert(av[i + 1] == args@[i + 1]@);
                        one_event(OptEvent::Opt { val, arg: Some(v) }, None, i + 2, 0)
                    } else {
                        one_event(OptEvent::MissingArg { val }, None, i + 1, 0)
                    }
                },
            }
        },
    };
    r
}

/// Scans the command line `args` (`args[0]` is the program name) against the
/// option table `t`.
pub fn scan(args: &Vec<String>, t: &Vec<LongOpt>) -> (r: Scan)
    ensures
        events_view(r.events@) == spec_scan(args_view(args@), table_view(t@)).0,
        args_view(r.operands@) == spec_scan(args_view(args@), table_view(t@)).1,
{
    let ghost av = args_view(args@);
    let ghost tv = table_view(t@);
    let mut a: Vec<Vec<char>> = Vec::new();
    let mut k: usize = 0;
    while k < args.len()
        invariant
            k <= args@.len(),
            a@.len() == k,
            forall|j: int| 0 <= j < k ==> #[trigger] a@[j]@ == args@[j]@,
        decreases args@.len() - k,
    {
        a.push(chars_of(args[k].as_str()));
        k = k + 1;
    }
    let names = Names::new(t);
    let mut events: Vec<OptEvent> = Vec::new();
    let mut operands: Vec<String> = Vec::new();
    let mut i: usize = 1;
    let mut pos: usize = 0;
    while i < a.len()
        invariant
            av == args_view(args@),
            tv == table_view(t@),
            a@.len() == args@.len(),
            forall|j: int| 0 <= j < a@.len() ==> #[trigger] a@[j]@ == args@[j]@,
            names.matches(t@),
            1 <= i,
            i < a@.len() ==> pos <= a@[i as int]@.len(),
            i >= a@.len() ==> pos == 0,
            events_view(events@) + scan_from(av, tv, i as int, pos as int).0 == spec_scan(av, tv).0,
            args_view(operands@) + scan_from(av, tv, i as int, pos as int).1 == spec_scan(av, tv).1,
        decreases a@.len() - i, (if i < a@.len() { a@[i as int]@.len() - pos } else { 0 }),
    {
        assert(av[i as int] == a@[i as int]@);
        let len = a[i].len();
        if pos == 0 && len == 2 && a[i][0] == '-' && a[i][1] == '-' {
            let mut j = i + 1;
            let ghost before = operands@;
            while j < args.len()
                invariant
                    i < j <= args@.len(),
                    av == args_view(args@),
                    args_view(operands@) == args_view(before) + av.subrange(i + 1, j as int),
                decreases args@.len() - j,
            {
                assert(av[j as int] == args@[j as int]@);
                let ghost prev = operands@;
                operands.push(args[j].clone());
                assert(operands@ == prev.push(args@[j as int]));
                assert(args_view(operands@) =~= args_view(prev).push(args@[j as int]@));
                j = j + 1;
                assert(args_view(operands@) =~= args_view(before) + av.subrange(i + 1, j as int));
            }
            assert(scan_from(av, tv, args@.len() as int, 0) == (Seq::<SpecEvent>::empty(), Seq::<Seq<char>>::empty()));
            assert(events_view(events@) =~= events_view(events@) + Seq::<SpecEvent>::empty());
            i = a.len();
            pos = 0;
            assert(args_view(operands@) =~= args_view(operands@) + Seq::<Seq<char>>::empty());
        } else if pos > 0 && pos >= len {
            i = i + 1;
            pos = 0;
        } else {
            let ghost s = step(av, tv, i as int, pos as int);
            proof { lemma_step_valid(av, tv, i as int, pos as int); }
            let st = if pos > 0 {
                short_step_exec(args, &a, t, i, pos)
            } else if len > 2 && a[i][0] == '-' && a[i][1] == '-' {
                long_step_exec(args, &a, t, &names, i)
            } else if len > 1 && a[i][0] == '-' {
                short_step_exec(args, &a, t, i, 1)
            } else {
                let o = args[i].clone();
                ExecStep { events: Vec::new(), operand: Some(o), next_arg: i + 1, next_pos: 0 }
            };
            assert(exec_step_view(st).events =~= s.events);
            let ghost old_events = events@;
            let ghost old_ops = operands@;
            let ExecStep { events: mut new_events, operand, next_arg, next_pos } = st;
            events.append(&mut new_events);
            assert(events_view(events@) =~= events_view(old_events) + s.events);
            match operand {
                Some(o) => {
                    operands.push(o);
                    assert(args_view(operands@) =~= args_view(old_ops) + seq![s.operand->0]);
                },
                None => {},
            }
            i = next_arg;
            pos = next_pos;
            proof {
                let r = scan_from(av, tv, i as int, pos as int);
                assert(events_view(events@) + r.0 =~= events_view(old_events) + (s.events + r.0));
                match s.operand {
                    Some(o) => {
                        assert(args_view(operands@) + r.1 =~= args_view(old_ops) + (seq![o] + r.1));
                    },
                    None => {},
                }
            }
        }
    }
    proof {
        assert(events_view(events@) =~= events_view(events@) + Seq::<SpecEvent>::empty());
        assert(args_view(operands@) =~= args_view(operands@) + Seq::<Seq<char>>::empty());
    }
    Scan { events, operands }
}

// ---------------------------------------------------------------------------
// Laws
// ---------------------------------------------------------------------------

/// Whether `s` cannot be read as an option: it does not begin with `-`, or
/// it is `-` alone.
pub open spec fn plain_word(s: Seq<char>) -> bool {
    s.len() <= 1 || s[0] != '-'
}

/// Words that cannot be read as options are operands, kept in their order,
/// and give no option events.
pub proof fn lemma_plain_words_are_operands(a: Seq<Seq<char>>, t: Seq<SpecLongOpt>, i: int)
    requires
        0 <= i <= a.len(),
        forall|j: int| i <= j < a.len() ==> plain_word(#[trigger] a[j]),
    ensures
        scan_from(a, t, i, 0) == (Seq::<SpecEvent>::empty(), a.subrange(i, a.len() as int)),
    decreases a.len() - i,
{
    if i < a.len() {
        assert(plain_word(a[i]));
        lemma_plain_words_are_operands(a, t, i + 1);
        assert(seq![a[i]] + a.subrange(i + 1, a.len() as int) =~= a.subrange(i, a.len() as int));
        assert(Seq::<SpecEvent>::empty() + Seq::<SpecEvent>::empty() =~= Seq::<SpecEvent>::empty());
    } else {
        assert(a.subrange(i, a.len() as int) =~= Seq::<Seq<char>>::empty());
    }
}

/// Everything after `--` is an operand, in order, whatever it looks like.
pub proof fn lemma_terminator(a: Seq<Seq<char>>, t: Seq<SpecLongOpt>, i: int)
    requires
        0 <= i < a.len(),
        is_terminator(a[i]),
    ensures
        scan_from(a, t, i, 0) == (Seq::<SpecEvent>::empty(), a.subrange(i + 1, a.len() as int)),
{
}

/// A long option given by its full name selects the first entry of that
/// name, even when the name also begins other entries' names.
pub proof fn lemma_exact_name_wins(t: Seq<SpecLongOpt>, k: int)
    requires
        0 <= k < t.len(),
    ensures
        lookup_long(t, t[k].name) matches LongLookup::Found(j) && t[j].name == t[k].name && j <= k,
{
    lemma_find_exact_from(t, t[k].name, 0, k);
}

proof fn lemma_find_exact_from(t: Seq<SpecLongOpt>, name: Seq<char>, from: int, k: int)
    requires
        0 <= from <= k < t.len(),
        t[k].name == name,
    ensures
        find_exact(t, name, from) matches Some(j) && from <= j <= k && t[j].name == name,
    decreases k - from,
{
    if t[from].name != name {
        lemma_find_exact_from(t, name, from + 1, k);
    }
}

} // verus!
