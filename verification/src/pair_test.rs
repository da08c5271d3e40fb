//! hfst-pair-test: test a compiled twolc rule file against pair strings.
//! The rules are run by the backend; what counts as a test line, how the
//! test cases of a twolc source are gathered, how the rules' verdicts make
//! a test's verdict, and what is printed about it are decided here.

use vstd::prelude::*;
use crate::common::{
    Channel, CommonOptions, Message, Report, SpecReport, messages_view, outcome_is, spec_fail_report,
    fail_with, to_stderr,
};
use crate::sorted::strings_view;
use crate::text::{chars_of, concat3, spec_has_prefix, starts_with, string_of_range};

verus! {

// ---------------------------------------------------------------------------
// Lines
// ---------------------------------------------------------------------------

/// A space or a tab.
pub open spec fn is_blank(c: char) -> bool {
    c == ' ' || c == '\t'
}

/// The number of blanks `s` begins with.
pub open spec fn lead_blanks(s: Seq<char>) -> nat
    decreases s.len(),
{
    if s.len() == 0 || !is_blank(s[0]) {
        0
    } else {
        1 + lead_blanks(s.drop_first())
    }
}

/// The number of blanks `s` ends with.
pub open spec fn trail_blanks(s: Seq<char>) -> nat
    decreases s.len(),
{
    if s.len() == 0 || !is_blank(s.last()) {
        0
    } else {
        1 + trail_blanks(s.drop_last())
    }
}

/// `s` without the blanks at its start and its end.
pub open spec fn spec_strip_space(s: Seq<char>) -> Seq<char> {
    let t = s.subrange(lead_blanks(s) as int, s.len() as int);
    t.subrange(0, t.len() - trail_blanks(t))
}

/// Whether a line is skipped as a pair string: empty or blank, or its first
/// character after the blanks is `!`.
pub open spec fn spec_is_empty_or_comment(line: Seq<char>) -> bool {
    lead_blanks(line) >= line.len() || line[lead_blanks(line) as int] == '!'
}

proof fn lemma_lead_blanks_of(s: Seq<char>, n: int)
    requires
        0 <= n <= s.len(),
        forall|k: int| 0 <= k < n ==> is_blank(#[trigger] s[k]),
        n == s.len() || !is_blank(s[n]),
    ensures
        lead_blanks(s) == n,
    decreases n,
{
    if n > 0 {
        assert forall|k: int| 0 <= k < n - 1 implies is_blank(#[trigger] s.drop_first()[k]) by {
            assert(s.drop_first()[k] == s[k + 1]);
        }
        if n < s.len() {
            assert(s.drop_first()[n - 1] == s[n]);
        }
        lemma_lead_blanks_of(s.drop_first(), n - 1);
    }
}

proof fn lemma_trail_blanks_of(s: Seq<char>, n: int)
    requires
        0 <= n <= s.len(),
        forall|k: int| s.len() - n <= k < s.len() ==> is_blank(#[trigger] s[k]),
        n == s.len() || !is_blank(s[s.len() - n - 1]),
    ensures
        trail_blanks(s) == n,
    decreases n,
{
    if n > 0 {
        let p = s.drop_last();
        assert forall|k: int| p.len() - (n - 1) <= k < p.len() implies is_blank(#[trigger] p[k]) by {
            assert(p[k] == s[k]);
        }
        if n < s.len() {
            assert(p[p.len() - (n - 1) - 1] == s[s.len() - n - 1]);
        }
        lemma_trail_blanks_of(p, n - 1);
    }
}

fn lead_count(v: &Vec<char>) -> (n: usize)
    ensures
        n == lead_blanks(v@),
        n <= v@.len(),
{
    let mut n: usize = 0;
    while n < v.len() && (v[n] == ' ' || v[n] == '\t')
        invariant
            n <= v@.len(),
            forall|k: int| 0 <= k < n ==> is_blank(#[trigger] v@[k]),
        decreases v@.len() - n,
    {
        n = n + 1;
    }
    proof {
        lemma_lead_blanks_of(v@, n as int);
    }
    n
}

/// Whether a line is skipped as a pair string.
pub fn is_empty_or_comment(line: &str) -> (r: bool)
    ensures
        r == spec_is_empty_or_comment(line@),
{
    let v = chars_of(line);
    let i = lead_count(&v);
    i >= v.len() || v[i] == '!'
}

/// `line` without the blanks at its start and its end.
pub fn strip_space(line: &str) -> (r: String)
    ensures
        r@ == spec_strip_space(line@),
{
    let v = chars_of(line);
    let start = lead_count(&v);
    assert(v@ == line@);
    let ghost t = line@.subrange(start as int, line@.len() as int);
    let mut end: usize = v.len();
    while end > start && (v[end - 1] == ' ' || v[end - 1] == '\t')
        invariant
            v@ == line@,
            start <= end <= v@.len(),
            forall|k: int| end <= k < v@.len() ==> is_blank(#[trigger] v@[k]),
        decreases end,
    {
        end = end - 1;
    }
    proof {
        let n = v@.len() - end;
        assert forall|k: int| t.len() - n <= k < t.len() implies is_blank(#[trigger] t[k]) by {
            assert(t[k] == v@[start + k]);
        }
        if n < t.len() {
            assert(t[t.len() - n - 1] == v@[end - 1]);
        }
        lemma_trail_blanks_of(t, n);
    }
    let r = string_of_range(&v, start, end);
    assert(r@ =~= t.subrange(0, t.len() - trail_blanks(t)));
    r
}

/// The marker of a positive test case in a twolc source.
pub open spec fn positive_marker() -> Seq<char> {
    "!!\u{20ac}"@
}

/// The marker of a negative test case in a twolc source.
pub open spec fn negative_marker() -> Seq<char> {
    "!!$"@
}

/// Whether a line of a twolc source is a positive test case.
pub open spec fn spec_is_positive_test_line(line: Seq<char>) -> bool {
    spec_has_prefix(spec_strip_space(line), positive_marker())
}

/// Whether a line of a twolc source is a negative test case.
pub open spec fn spec_is_negative_test_line(line: Seq<char>) -> bool {
    spec_has_prefix(spec_strip_space(line), negative_marker())
}

/// Whether a line of a twolc source is a positive test case.
pub fn is_positive_test_line(line: &str) -> (r: bool)
    ensures
        r == spec_is_positive_test_line(line@),
{
    starts_with(strip_space(line).as_str(), "!!\u{20ac}")
}

/// Whether a line of a twolc source is a negative test case.
pub fn is_negative_test_line(line: &str) -> (r: bool)
    ensures
        r == spec_is_negative_test_line(line@),
{
    starts_with(strip_space(line).as_str(), "!!$")
}

/// The test case a marked line holds: what follows the marker, without
/// blanks. Both markers are three characters long.
pub open spec fn spec_test_case(line: Seq<char>) -> Seq<char> {
    let s = spec_strip_space(line);
    spec_strip_space(if s.len() >= 3 { s.subrange(3, s.len() as int) } else { Seq::empty() })
}

/// The test case a marked line holds.
pub fn test_case(line: &str) -> (r: String)
    ensures
        r@ == spec_test_case(line@),
{
    let s = strip_space(line);
    let v = chars_of(s.as_str());
    let rest = if v.len() >= 3 { string_of_range(&v, 3, v.len()) } else { String::new() };
    strip_space(rest.as_str())
}

/// A read line without its newline: cut at the first `\n`.
pub open spec fn spec_line_of(raw: Seq<char>) -> Seq<char> {
    if raw.contains('\n') {
        raw.subrange(0, choose|k: int| 0 <= k < raw.len() && raw[k] == '\n' && forall|j: int| 0 <= j < k ==> raw[j] != '\n')
    } else {
        raw
    }
}

/// A read line without its newline.
pub fn line_of(raw: &str) -> (r: String)
    ensures
        r@ == spec_line_of(raw@),
{
    let v = chars_of(raw);
    let mut k: usize = 0;
    while k < v.len()
        invariant
            v@ == raw@,
            k <= v@.len(),
            forall|j: int| 0 <= j < k ==> v@[j] != '\n',
        decreases v@.len() - k,
    {
        if v[k] == '\n' {
            let ghost w = choose|m: int| 0 <= m < raw@.len() && raw@[m] == '\n' && forall|j: int| 0 <= j < m ==> raw@[j] != '\n';
            assert(0 <= k < raw@.len() && raw@[k as int] == '\n' && forall|j: int| 0 <= j < k ==> raw@[j] != '\n');
            assert(w == k) by {
                if w < k {
                    assert(raw@[w] != '\n');
                } else if w > k {
                    assert(raw@[k as int] != '\n');
                }
            }
            return string_of_range(&v, 0, k);
        }
        k = k + 1;
    }
    raw.to_owned()
}

// ---------------------------------------------------------------------------
// Test cases of a twolc source
// ---------------------------------------------------------------------------

/// What the test-case lines of a twolc source give: the positive and the
/// negative cases in order, and the verbose lines announcing them.
pub struct Harvest {
    pub positive: Vec<String>,
    pub negative: Vec<String>,
    pub messages: Vec<Message>,
}

/// The model of a [`Harvest`].
pub struct SpecHarvest {
    pub positive: Seq<Seq<char>>,
    pub negative: Seq<Seq<char>>,
    pub messages: Seq<(Channel, Seq<char>)>,
}

impl View for Harvest {
    type V = SpecHarvest;

    open spec fn view(&self) -> SpecHarvest {
        SpecHarvest {
            positive: strings_view(self.positive@),
            negative: strings_view(self.negative@),
            messages: messages_view(self.messages@),
        }
    }
}

/// The test cases of the raw lines `lines`.
pub open spec fn spec_harvest(verbose: bool, lines: Seq<Seq<char>>) -> SpecHarvest
    decreases lines.len(),
{
    if lines.len() == 0 {
        SpecHarvest { positive: seq![], negative: seq![], messages: seq![] }
    } else {
        let h = spec_harvest(verbose, lines.drop_last());
        let line = spec_line_of(lines.last());
        let case = spec_test_case(line);
        if spec_is_positive_test_line(line) {
            SpecHarvest {
                positive: h.positive.push(case),
                messages: if verbose {
                    h.messages.push((Channel::Stderr, "Positive test case: "@ + case + "...\n"@))
                } else {
                    h.messages
                },
                ..h
            }
        } else if spec_is_negative_test_line(line) {
            SpecHarvest {
                negative: h.negative.push(case),
                messages: if verbose {
                    h.messages.push((Channel::Stderr, "Negative test case: "@ + line + " "@ + case + "...\n"@))
                } else {
                    h.messages
                },
                ..h
            }
        } else {
            h
        }
    }
}

/// Gathers the test cases of the raw lines of a twolc source.
pub fn harvest(verbose: bool, lines: &Vec<String>) -> (h: Harvest)
    ensures
        h@ == spec_harvest(verbose, strings_view(lines@)),
{
    let ghost lv = strings_view(lines@);
    let mut h = Harvest { positive: Vec::new(), negative: Vec::new(), messages: Vec::new() };
    assert(strings_view(h.positive@) =~= Seq::<Seq<char>>::empty());
    assert(strings_view(h.negative@) =~= Seq::<Seq<char>>::empty());
    assert(messages_view(h.messages@) =~= Seq::<(Channel, Seq<char>)>::empty());
    assert(h@ == spec_harvest(verbose, lv.subrange(0, 0)));
    let mut i: usize = 0;
    while i < lines.len()
        invariant
            lv == strings_view(lines@),
            i <= lines@.len(),
            h@ == spec_harvest(verbose, lv.subrange(0, i as int)),
        decreases lines@.len() - i,
    {
        let ghost before = h@;
        assert(lv.subrange(0, i + 1).drop_last() =~= lv.subrange(0, i as int));
        assert(lv.subrange(0, i + 1).last() == lines@[i as int]@);
        let line = line_of(lines[i].as_str());
        let case = test_case(line.as_str());
        if is_positive_test_line(line.as_str()) {
            if verbose {
                let m = concat3("Positive test case: ", case.as_str(), "...\n");
                let ghost mv = m@;
                h.messages.push(to_stderr(m));
                assert(messages_view(h.messages@) =~= before.messages.push((Channel::Stderr, mv)));
            }
            let ghost cv = case@;
            h.positive.push(case);
            assert(strings_view(h.positive@) =~= before.positive.push(cv));
        } else if is_negative_test_line(line.as_str()) {
            if verbose {
                let mut m = concat3("Negative test case: ", line.as_str(), " ");
                m.append(case.as_str());
                m.append("...\n");
                let ghost mv = m@;
                h.messages.push(to_stderr(m));
                assert(messages_view(h.messages@) =~= before.messages.push((Channel::Stderr, mv)));
            }
            let ghost cv = case@;
            h.negative.push(case);
            assert(strings_view(h.negative@) =~= before.negative.push(cv));
        }
        i = i + 1;
    }
    assert(lv.subrange(0, lv.len() as int) =~= lv);
    h
}

/// The refusal of an odd number of positive cases.
pub open spec fn odd_positive() -> Seq<char> {
    "Got an odd number of positive test cases. Every input string\nhas to have an output string.\n"@
}

/// The refusal of an odd number of negative cases.
pub open spec fn odd_negative() -> Seq<char> {
    "Got an odd number of negative test cases. Every input string\nhas to have an output string.\n"@
}

/// The test cases come in input/output pairs: an odd count of either kind
/// ends the tool, the positive count checked first.
pub open spec fn spec_check_counts(program_name: Seq<char>, h: SpecHarvest) -> Option<SpecReport> {
    if h.positive.len() % 2 != 0 {
        Some(spec_fail_report(program_name, odd_positive()))
    } else if h.negative.len() % 2 != 0 {
        Some(spec_fail_report(program_name, odd_negative()))
    } else {
        None
    }
}

/// Checks that the test cases come in input/output pairs.
pub fn check_counts(common: &CommonOptions, h: &Harvest) -> (r: Option<Report>)
    ensures
        match (r, spec_check_counts(common.program_name@, h@)) {
            (Some(x), Some(y)) => x@ == y,
            (None, None) => true,
            _ => false,
        },
{
    if h.positive.len() % 2 != 0 {
        Some(fail_with(common, "Got an odd number of positive test cases. Every input string\nhas to have an output string.\n"))
    } else if h.negative.len() % 2 != 0 {
        Some(fail_with(common, "Got an odd number of negative test cases. Every input string\nhas to have an output string.\n"))
    } else {
        None
    }
}

/// How a pair of test cases is named in the verdicts: `INPUT : OUTPUT`.
pub fn case_label(input: &str, output: &str) -> (s: String)
    ensures
        s@ == input@ + " : "@ + output@,
{
    concat3(input, " : ", output)
}

// ---------------------------------------------------------------------------
// Verdicts
// ---------------------------------------------------------------------------

/// A test's verdict from its rules' verdicts, in rule order. A positive test
/// takes the first nonzero verdict (0 when there is none): it fails when a
/// rule rejects. A negative test takes the first verdict other than 1 (1
/// when there is none): it fails when every rule accepts.
pub open spec fn spec_verdict(positive: bool, codes: Seq<i32>) -> i32
    decreases codes.len(),
{
    if codes.len() == 0 {
        if positive { 0 } else { 1 }
    } else {
        let prev = spec_verdict(positive, codes.drop_last());
        if positive {
            if prev == 0 { codes.last() } else { prev }
        } else {
            if prev == 1 { codes.last() } else { prev }
        }
    }
}

/// A test's verdict from its rules' verdicts.
pub fn verdict(positive: bool, codes: &Vec<i32>) -> (v: i32)
    ensures
        v == spec_verdict(positive, codes@),
{
    let mut v: i32 = if positive { 0 } else { 1 };
    let mut i: usize = 0;
    while i < codes.len()
        invariant
            i <= codes@.len(),
            v == spec_verdict(positive, codes@.subrange(0, i as int)),
        decreases codes@.len() - i,
    {
        assert(codes@.subrange(0, i + 1).drop_last() =~= codes@.subrange(0, i as int));
        if positive && v == 0 {
            v = codes[i];
        }
        if !positive && v == 1 {
            v = codes[i];
        }
        i = i + 1;
    }
    assert(codes@.subrange(0, codes@.len() as int) =~= codes@);
    v
}

/// The exit code of the whole run from the verdicts of its tests, in the
/// order they ran: the verdict of the first test that failed, 0 when every
/// test passed.
pub open spec fn spec_overall(verdicts: Seq<i32>) -> i32
    decreases verdicts.len(),
{
    if verdicts.len() == 0 {
        0
    } else if verdicts[0] != 0 {
        verdicts[0]
    } else {
        spec_overall(verdicts.drop_first())
    }
}

proof fn lemma_overall_zero(verdicts: Seq<i32>)
    ensures
        spec_overall(verdicts) == 0 <==> (forall|i: int| 0 <= i < verdicts.len() ==> verdicts[i] == 0),
    decreases verdicts.len(),
{
    if verdicts.len() > 0 {
        let d = verdicts.drop_first();
        lemma_overall_zero(d);
        if verdicts[0] == 0 && spec_overall(d) == 0 {
            assert forall|i: int| 0 <= i < verdicts.len() implies verdicts[i] == 0 by {
                if i > 0 {
                    assert(verdicts[i] == d[i - 1]);
                }
            }
        }
        if forall|i: int| 0 <= i < verdicts.len() ==> verdicts[i] == 0 {
            assert forall|i: int| 0 <= i < d.len() implies d[i] == 0 by {
                assert(d[i] == verdicts[i + 1]);
            }
            assert(verdicts[0] == 0);
        }
    }
}

/// The exit code of the whole run: the verdict of the first failed test,
/// 0 exactly when every test passed.
pub fn overall(verdicts: &Vec<i32>) -> (c: i32)
    ensures
        c == spec_overall(verdicts@),
        c == 0 <==> (forall|i: int| 0 <= i < verdicts@.len() ==> verdicts@[i] == 0),
{
    let ghost v = verdicts@;
    proof {
        lemma_overall_zero(v);
        assert(v.subrange(0, v.len() as int) =~= v);
    }
    let mut i: usize = 0;
    while i < verdicts.len()
        invariant
            v == verdicts@,
            i <= v.len(),
            spec_overall(v) == spec_overall(v.subrange(i as int, v.len() as int)),
        decreases v.len() - i,
    {
        let x = verdicts[i];
        assert(v.subrange(i as int, v.len() as int)[0] == x);
        if x != 0 {
            return x;
        }
        assert(v.subrange(i as int, v.len() as int).drop_first() =~= v.subrange(i + 1, v.len() as int));
        i = i + 1;
    }
    assert(v.subrange(i as int, v.len() as int).len() == 0);
    0
}

/// The line a test writes about its outcome: a failed test is reported
/// unless quiet, a passed one only when verbose.
pub open spec fn spec_verdict_text(silent: bool, verbose: bool, positive: bool, code: i32, pair_string: Seq<char>) -> Seq<char> {
    if positive {
        (if code == 1 && !silent { "FAIL: "@ + pair_string + " REJECTED\n\n"@ } else { Seq::empty() })
            + (if code == 0 && verbose { pair_string + " PASSED\n\n"@ } else { Seq::empty() })
    } else {
        (if code == 1 && !silent { "FAIL: "@ + pair_string + " PASSED\n\n"@ } else { Seq::empty() })
            + (if code == 0 && verbose { pair_string + " REJECTED\n\n"@ } else { Seq::empty() })
    }
}

/// What a test prints about its verdict.
pub fn verdict_text(common: &CommonOptions, positive: bool, code: i32, pair_string: &str) -> (s: String)
    ensures
        s@ == spec_verdict_text(common.silent, common.verbose, positive, code, pair_string@),
{
    let mut s = String::new();
    if code == 1 && !common.silent {
        s.append("FAIL: ");
        s.append(pair_string);
        s.append(if positive { " REJECTED\n\n" } else { " PASSED\n\n" });
    }
    let ghost first = s@;
    if code == 0 && common.verbose {
        s.append(pair_string);
        s.append(if positive { " PASSED\n\n" } else { " REJECTED\n\n" });
    } else {
        assert(s@ =~= first + Seq::<char>::empty());
    }
    proof {
        if !(code == 1 && !common.silent) {
            assert(first =~= Seq::<char>::empty());
        }
    }
    s
}

/// One symbol pair of a tested string, as shown: whether its two sides are
/// the same symbol, and each side unescaped.
pub struct ShownPair {
    pub same: bool,
    pub input: String,
    pub output: String,
}

/// How one pair is shown: the symbol alone when both sides are the same,
/// else `INPUT:OUTPUT`; then a space.
pub open spec fn spec_shown(p: (bool, Seq<char>, Seq<char>)) -> Seq<char> {
    if p.0 { p.1 + " "@ } else { p.1 + ":"@ + p.2 + " "@ }
}

pub open spec fn pairs_view(v: Seq<ShownPair>) -> Seq<(bool, Seq<char>, Seq<char>)> {
    v.map_values(|p: ShownPair| (p.same, p.input@, p.output@))
}

/// The pairs `from..to` of a tested string, as shown.
pub open spec fn spec_shown_range(v: Seq<(bool, Seq<char>, Seq<char>)>, from: int, to: int) -> Seq<char>
    decreases to - from,
{
    if to <= from {
        Seq::empty()
    } else {
        spec_shown_range(v, from, to - 1) + spec_shown(v[to - 1])
    }
}

/// What a failing rule prints: its name, the pairs it recognized, the
/// `HERE --->` marker, the rest of the string, and a blank line; nothing
/// when quiet.
pub open spec fn spec_recognized_prefix(silent: bool, v: Seq<(bool, Seq<char>, Seq<char>)>, prefix_len: int, name: Seq<char>) -> Seq<char> {
    if silent {
        Seq::empty()
    } else {
        "Rule "@ + name + " fails:\n"@ + spec_shown_range(v, 0, prefix_len) + "HERE ---> "@ + spec_shown_range(
            v,
            prefix_len,
            v.len() as int,
        ) + "\n\n"@
    }
}

fn shown_range(s: &mut String, v: &Vec<ShownPair>, from: usize, to: usize)
    requires
        from <= to <= v@.len(),
    ensures
        final(s)@ == old(s)@ + spec_shown_range(pairs_view(v@), from as int, to as int),
{
    let ghost pv = pairs_view(v@);
    let ghost start = s@;
    let mut i: usize = from;
    while i < to
        invariant
            pv == pairs_view(v@),
            from <= i <= to,
            to <= v@.len(),
            s@ == start + spec_shown_range(pv, from as int, i as int),
        decreases to - i,
    {
        let p = &v[i];
        assert(pv[i as int] == (p.same, p.input@, p.output@));
        let ghost before = s@;
        if p.same {
            s.append(p.input.as_str());
            s.append(" ");
        } else {
            s.append(p.input.as_str());
            s.append(":");
            s.append(p.output.as_str());
            s.append(" ");
        }
        assert(s@ =~= before + spec_shown(pv[i as int]));
        i = i + 1;
    }
}

/// What a failing rule prints.
pub fn print_recognized_prefix(common: &CommonOptions, v: &Vec<ShownPair>, prefix_len: usize, name: &str) -> (s: String)
    requires
        prefix_len <= v@.len(),
    ensures
        s@ == spec_recognized_prefix(common.silent, pairs_view(v@), prefix_len as int, name@),
{
    if common.silent {
        return String::new();
    }
    let mut s = concat3("Rule ", name, " fails:\n");
    shown_range(&mut s, v, 0, prefix_len);
    s.append("HERE ---> ");
    shown_range(&mut s, v, prefix_len, v.len());
    s.append("\n\n");
    s
}

/// The closing line, unless quiet.
pub open spec fn spec_closing(silent: bool, exit_code: i32) -> Seq<char> {
    if silent {
        Seq::empty()
    } else if exit_code == 0 {
        "Test passed.\n"@
    } else {
        "Test failed.\n"@
    }
}

/// The closing line, unless quiet.
pub fn closing(common: &CommonOptions, exit_code: i32) -> (s: String)
    ensures
        s@ == spec_closing(common.silent, exit_code),
{
    if common.silent {
        String::new()
    } else if exit_code == 0 {
        "Test passed.\n".to_owned()
    } else {
        "Test failed.\n".to_owned()
    }
}

// ---------------------------------------------------------------------------
// The run
// ---------------------------------------------------------------------------

/// What hfst-pair-test runs with.
pub struct Options {
    pub pair_test_file_name: String,
    pub positive_test: bool,
    pub xerox_mode: bool,
}

impl View for Options {
    type V = (Seq<char>, bool, bool);

    open spec fn view(&self) -> (Seq<char>, bool, bool) {
        (self.pair_test_file_name@, self.positive_test, self.xerox_mode)
    }
}

/// The refusal when the rules are not named with `-i`.
pub open spec fn no_rule_file() -> Seq<char> {
    "The rule transducer file needs to be given using option -i."@
}

/// What hfst-pair-test runs with: the pair strings from `-I` or the
/// standard input, positive unless `-N`; the rule file must not be the
/// standard input.
pub open spec fn spec_run(c: crate::common::SpecCommon, input_strings: Option<Seq<char>>, negative_test: bool, xerox_mode: bool) -> Result<
    (Seq<char>, bool, bool),
    SpecReport,
> {
    if c.input_filename == "<stdin>"@ {
        Err(spec_fail_report(c.program_name, no_rule_file()))
    } else {
        Ok((input_strings.unwrap_or("<stdin>"@), !negative_test, xerox_mode))
    }
}

/// Decides what hfst-pair-test runs with.
pub fn run(common: &CommonOptions, input_strings: &Option<String>, negative_test: bool, xerox_mode: bool) -> (r: Result<
    Options,
    Report,
>)
    ensures
        outcome_is(r, spec_run(common@, crate::getopt::opt_view(*input_strings), negative_test, xerox_mode)),
{
    if crate::text::str_eq(common.input_filename.as_str(), "<stdin>") {
        return Err(fail_with(common, "The rule transducer file needs to be given using option -i."));
    }
    let name = match input_strings {
        Some(s) => s.clone(),
        None => "<stdin>".to_owned(),
    };
    Ok(Options { pair_test_file_name: name, positive_test: !negative_test, xerox_mode })
}

// ---------------------------------------------------------------------------
// Laws
// ---------------------------------------------------------------------------

/// Whether every verdict is 0 or 1.
pub open spec fn binary_codes(codes: Seq<i32>) -> bool {
    forall|i: int| 0 <= i < codes.len() ==> codes[i] == 0 || codes[i] == 1
}

/// A positive test passes (verdict 0) exactly when every rule accepts (every
/// rule's verdict is 0); a negative test passes (verdict 0) exactly when
/// some rule rejects (some rule's verdict is 0). So the run's exit code is 0
/// exactly when all its tests pass.
pub proof fn lemma_verdicts(codes: Seq<i32>)
    requires
        binary_codes(codes),
    ensures
        spec_verdict(true, codes) == 0 <==> (forall|i: int| 0 <= i < codes.len() ==> codes[i] == 0),
        spec_verdict(false, codes) == 0 <==> (exists|i: int| 0 <= i < codes.len() && codes[i] == 0),
        spec_verdict(true, codes) == 0 || spec_verdict(true, codes) == 1,
        spec_verdict(false, codes) == 0 || spec_verdict(false, codes) == 1,
    decreases codes.len(),
{
    if codes.len() > 0 {
        let p = codes.drop_last();
        assert forall|i: int| 0 <= i < p.len() implies p[i] == 0 || p[i] == 1 by {
            assert(p[i] == codes[i]);
        }
        lemma_verdicts(p);
        if spec_verdict(true, p) == 0 {
            assert forall|i: int| 0 <= i < p.len() implies p[i] == 0 by {}
        }
        assert forall|i: int| 0 <= i < p.len() implies p[i] == codes[i] by {}
        if spec_verdict(false, codes) == 0 {
            if spec_verdict(false, p) == 0 {
                let w = choose|i: int| 0 <= i < p.len() && p[i] == 0;
                assert(codes[w] == 0);
            } else {
                assert(codes[codes.len() - 1] == 0);
            }
        }
        if exists|i: int| 0 <= i < codes.len() && codes[i] == 0 {
            let w = choose|i: int| 0 <= i < codes.len() && codes[i] == 0;
            if w < codes.len() - 1 {
                assert(p[w] == 0);
            }
        }
        if forall|i: int| 0 <= i < codes.len() ==> codes[i] == 0 {
            assert forall|i: int| 0 <= i < p.len() implies p[i] == 0 by {
                assert(codes[i] == 0);
            }
            assert(codes[codes.len() - 1] == 0);
        }
    }
}

} // verus!
