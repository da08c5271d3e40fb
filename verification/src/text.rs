//! Small string helpers shared by the tools. Strings are reasoned about
//! through their view, the sequence of their characters.

use vstd::prelude::*;

verus! {

/// `String::push` appends one character.
pub assume_specification[ String::push ](s: &mut String, ch: char)
    ensures
        final(s)@ == old(s)@.push(ch),
;

/// Whether two string slices hold the same characters.
pub fn str_eq(a: &str, b: &str) -> (r: bool)
    ensures
        r == (a@ == b@),
{
    let x = a.to_owned();
    let y = b.to_owned();
    x == y
}

/// The characters of `s`, in order.
pub fn chars_of(s: &str) -> (v: Vec<char>)
    ensures
        v@ == s@,
{
    let n = s.unicode_len();
    let mut v: Vec<char> = Vec::new();
    let mut i: usize = 0;
    while i < n
        invariant
            n == s@.len(),
            i <= n,
            v@ == s@.subrange(0, i as int),
        decreases n - i,
    {
        let c = s.get_char(i);
        v.push(c);
        i = i + 1;
        assert(v@ =~= s@.subrange(0, i as int));
    }
    assert(v@ =~= s@);
    v
}

/// A string holding the characters `v[from..to]`.
pub fn string_of_range(v: &Vec<char>, from: usize, to: usize) -> (s: String)
    requires
        from <= to <= v@.len(),
    ensures
        s@ == v@.subrange(from as int, to as int),
{
    let mut s = String::new();
    let mut i = from;
    while i < to
        invariant
            from <= i <= to <= v@.len(),
            s@ == v@.subrange(from as int, i as int),
        decreases to - i,
    {
        s.push(v[i]);
        i = i + 1;
        assert(s@ =~= v@.subrange(from as int, i as int));
    }
    s
}

/// `a` followed by `b`.
pub fn concat2(a: &str, b: &str) -> (s: String)
    ensures
        s@ == a@ + b@,
{
    let mut s = a.to_owned();
    s.append(b);
    s
}

/// `a`, then `b`, then `c`.
pub fn concat3(a: &str, b: &str, c: &str) -> (s: String)
    ensures
        s@ == a@ + b@ + c@,
{
    let mut s = a.to_owned();
    s.append(b);
    s.append(c);
    s
}

/// Whether `p` is a prefix of `s`.
pub open spec fn spec_has_prefix(s: Seq<char>, p: Seq<char>) -> bool {
    p.len() <= s.len() && s.subrange(0, p.len() as int) == p
}

/// Whether `s` starts with the characters of `p`.
pub fn starts_with(s: &str, p: &str) -> (r: bool)
    ensures
        r == spec_has_prefix(s@, p@),
{
    let sv = chars_of(s);
    let pv = chars_of(p);
    if pv.len() > sv.len() {
        return false;
    }
    let mut i: usize = 0;
    while i < pv.len()
        invariant
            pv@ == p@,
            sv@ == s@,
            pv@.len() <= sv@.len(),
            i <= pv@.len(),
            forall|k: int| 0 <= k < i ==> sv@[k] == pv@[k],
        decreases pv@.len() - i,
    {
        if sv[i] != pv[i] {
            assert(s@.subrange(0, p@.len() as int)[i as int] != p@[i as int]);
            return false;
        }
        i = i + 1;
    }
    assert(s@.subrange(0, p@.len() as int) =~= p@);
    true
}

/// ASCII lower-casing of one character, as `char::to_ascii_lowercase`.
pub open spec fn spec_ascii_lower(c: char) -> char {
    if 'A' <= c && c <= 'Z' {
        ((c as u32) + 32) as char
    } else {
        c
    }
}

/// ASCII lower-casing of one character.
pub fn ascii_lower(c: char) -> (r: char)
    ensures
        r == spec_ascii_lower(c),
{
    if 'A' <= c && c <= 'Z' {
        let n = (c as u32) + 32;
        assert(0x61 <= n <= 0x7a);
        char_from_ascii(n)
    } else {
        c
    }
}

/// The character with the given ASCII code.
fn char_from_ascii(n: u32) -> (c: char)
    requires
        n < 128,
    ensures
        c == n as char,
{
    let b = n as u8;
    b as char
}

/// Whether `s` begins with a character equal, ignoring ASCII case, to the
/// first character of `word`; false when either is empty.
pub open spec fn spec_first_char_matches(s: Seq<char>, word: Seq<char>) -> bool {
    s.len() > 0 && word.len() > 0 && spec_ascii_lower(s[0]) == spec_ascii_lower(word[0])
}

/// Whether the first character of `s` equals that of `word`, ignoring ASCII
/// case (`strncasecmp(s, word, 1) == 0` on a non-empty `s`).
pub fn first_char_matches(s: &str, word: &str) -> (r: bool)
    ensures
        r == spec_first_char_matches(s@, word@),
{
    if s.unicode_len() == 0 || word.unicode_len() == 0 {
        return false;
    }
    ascii_lower(s.get_char(0)) == ascii_lower(word.get_char(0))
}


/// Whether the first characters of `arg` and `prefix` are equal ignoring
/// ASCII case; true when both are empty, false when only one is.
pub open spec fn spec_first_char_eq_ignore_case(arg: Seq<char>, prefix: Seq<char>) -> bool {
    if arg.len() > 0 && prefix.len() > 0 {
        spec_ascii_lower(arg[0]) == spec_ascii_lower(prefix[0])
    } else {
        arg.len() == 0 && prefix.len() == 0
    }
}

/// Whether the first characters of `arg` and `prefix` are equal ignoring
/// ASCII case.
pub fn first_char_eq_ignore_case(arg: &str, prefix: &str) -> (r: bool)
    ensures
        r == spec_first_char_eq_ignore_case(arg@, prefix@),
{
    let a = arg.unicode_len();
    let b = prefix.unicode_len();
    if a > 0 && b > 0 {
        ascii_lower(arg.get_char(0)) == ascii_lower(prefix.get_char(0))
    } else {
        a == 0 && b == 0
    }
}


/// The decimal digits of `n`, most significant first, without leading zeros
/// (`"0"` for zero).
pub open spec fn spec_decimal(n: nat) -> Seq<char>
    decreases n,
{
    if n < 10 {
        seq![digit_char(n)]
    } else {
        spec_decimal(n / 10) + seq![digit_char(n % 10)]
    }
}

/// The digit character of `d < 10`.
pub open spec fn digit_char(d: nat) -> char {
    if d == 0 { '0' } else if d == 1 { '1' } else if d == 2 { '2' } else if d == 3 { '3' } else if d
        == 4 { '4' } else if d == 5 { '5' } else if d == 6 { '6' } else if d == 7 { '7' } else if d == 8 {
        '8'
    } else { '9' }
}

/// How `Display` writes an integer: a minus sign for negatives, then the
/// decimal digits of the magnitude.
pub open spec fn spec_int_text(i: int) -> Seq<char> {
    if i < 0 { seq!['-'] + spec_decimal((-i) as nat) } else { spec_decimal(i as nat) }
}

fn digit_char_exec(d: u128) -> (c: char)
    requires
        d < 10,
    ensures
        c == digit_char(d as nat),
{
    if d == 0 { '0' } else if d == 1 { '1' } else if d == 2 { '2' } else if d == 3 { '3' } else if d
        == 4 { '4' } else if d == 5 { '5' } else if d == 6 { '6' } else if d == 7 { '7' } else if d == 8 {
        '8'
    } else { '9' }
}

/// The decimal digits of `n`.
pub fn decimal(n: u128) -> (s: String)
    ensures
        s@ == spec_decimal(n as nat),
    decreases n,
{
    if n < 10 {
        let mut s = String::new();
        s.push(digit_char_exec(n));
        assert(s@ =~= seq![digit_char(n as nat)]);
        s
    } else {
        let mut s = decimal(n / 10);
        s.push(digit_char_exec(n % 10));
        s
    }
}

/// How `Display` writes `i`.
pub fn int_text(i: i64) -> (s: String)
    ensures
        s@ == spec_int_text(i as int),
{
    if i < 0 {
        let m: i128 = -(i as i128);
        let d = decimal(m as u128);
        let mut s = String::new();
        s.push('-');
        s.append(d.as_str());
        assert(s@ =~= seq!['-'] + spec_decimal((-i) as nat));
        s
    } else {
        decimal(i as u128)
    }
}

/// The first position, from `k` on, where `s` holds `c`.
pub open spec fn find_char(s: Seq<char>, c: char, k: int) -> Option<int>
    decreases s.len() - k,
{
    if k < 0 || k >= s.len() {
        None
    } else if s[k] == c {
        Some(k)
    } else {
        find_char(s, c, k + 1)
    }
}

/// The first position, from `from` on, where `v` holds `c`.
pub fn find_char_from(v: &Vec<char>, c: char, from: usize) -> (r: Option<usize>)
    ensures
        match r {
            Some(k) => find_char(v@, c, from as int) == Some(k as int) && from <= k < v@.len(),
            None => find_char(v@, c, from as int) is None,
        },
{
    let mut k: usize = from;
    while k < v.len()
        invariant
            from <= k,
            find_char(v@, c, from as int) == find_char(v@, c, k as int),
        decreases v@.len() - k,
    {
        if v[k] == c {
            return Some(k);
        }
        k = k + 1;
    }
    None
}


/// How many bytes UTF-8 takes for `c`.
pub open spec fn utf8_len(c: char) -> int {
    if (c as u32) < 0x80 { 1 } else if (c as u32) < 0x800 { 2 } else if (c as u32) < 0x10000 { 3 } else { 4 }
}

/// What is left of `s` when its UTF-8 form is cut after `n` bytes and read
/// back with every incomplete character replaced: the characters that fit
/// whole, then one U+FFFD when a character is cut through.
pub open spec fn spec_truncate_bytes(s: Seq<char>, n: int) -> Seq<char>
    decreases s.len(),
{
    if s.len() == 0 || n <= 0 {
        Seq::empty()
    } else if utf8_len(s[0]) <= n {
        seq![s[0]] + spec_truncate_bytes(s.drop_first(), n - utf8_len(s[0]))
    } else {
        seq!['\u{FFFD}']
    }
}

/// How many bytes UTF-8 takes for `c`.
pub fn utf8_len_exec(c: char) -> (r: u64)
    ensures
        r == utf8_len(c),
{
    let u = c as u32;
    if u < 0x80 { 1 } else if u < 0x800 { 2 } else if u < 0x10000 { 3 } else { 4 }
}

/// `s` cut after `n` bytes of its UTF-8 form, a cut character read as
/// U+FFFD.
pub fn truncate_bytes(s: &str, n: u64) -> (r: String)
    ensures
        r@ == spec_truncate_bytes(s@, n as int),
{
    let v = chars_of(s);
    let mut r = String::new();
    let mut left: u64 = n;
    let mut i: usize = 0;
    assert(v@.subrange(0, v@.len() as int) =~= v@);
    while i < v.len()
        invariant
            i <= v@.len(),
            v@ == s@,
            r@ + spec_truncate_bytes(v@.subrange(i as int, v@.len() as int), left as int) == spec_truncate_bytes(v@, n as int),
        decreases v@.len() - i,
    {
        let ghost rest = v@.subrange(i as int, v@.len() as int);
        assert(rest[0] == v@[i as int]);
        assert(rest.drop_first() =~= v@.subrange(i + 1, v@.len() as int));
        if left == 0 {
            assert(spec_truncate_bytes(rest, left as int) =~= Seq::<char>::empty());
            assert(r@ + Seq::<char>::empty() =~= r@);
            return r;
        }
        let c = v[i];
        let l = utf8_len_exec(c);
        if l <= left {
            let ghost before = r@;
            r.push(c);
            assert(r@ =~= before.push(c));
            assert(before + spec_truncate_bytes(rest, left as int) =~= r@ + spec_truncate_bytes(rest.drop_first(), (left - l) as int));
            left = left - l;
        } else {
            let ghost before = r@;
            r.push('\u{FFFD}');
            assert(r@ =~= before + seq!['\u{FFFD}']);
            return r;
        }
        i = i + 1;
    }
    assert(v@.subrange(v@.len() as int, v@.len() as int) =~= Seq::<char>::empty());
    assert(r@ + Seq::<char>::empty() =~= r@);
    r
}

/// Whether `c` is white space: the characters of Unicode's `White_Space`
/// property, which `char::is_whitespace` tests.
pub open spec fn spec_is_whitespace(c: char) -> bool {
    let u = c as u32;
    (0x9 <= u <= 0xd) || u == 0x20 || u == 0x85 || u == 0xa0 || u == 0x1680 || (0x2000 <= u <= 0x200a) || u
        == 0x2028 || u == 0x2029 || u == 0x202f || u == 0x205f || u == 0x3000
}

/// Whether `c` is white space.
pub fn is_whitespace(c: char) -> (r: bool)
    ensures
        r == spec_is_whitespace(c),
{
    let u = c as u32;
    (0x9 <= u && u <= 0xd) || u == 0x20 || u == 0x85 || u == 0xa0 || u == 0x1680 || (0x2000 <= u && u <= 0x200a)
        || u == 0x2028 || u == 0x2029 || u == 0x202f || u == 0x205f || u == 0x3000
}

/// `s` without its leading white space.
pub open spec fn spec_trim_start(s: Seq<char>) -> Seq<char>
    decreases s.len(),
{
    if s.len() > 0 && spec_is_whitespace(s[0]) { spec_trim_start(s.drop_first()) } else { s }
}

/// `s` without its trailing white space.
pub open spec fn spec_trim_end(s: Seq<char>) -> Seq<char>
    decreases s.len(),
{
    if s.len() > 0 && spec_is_whitespace(s.last()) { spec_trim_end(s.drop_last()) } else { s }
}

/// `s` without leading and trailing white space, as `str::trim` gives it.
pub open spec fn spec_trim(s: Seq<char>) -> Seq<char> {
    spec_trim_end(spec_trim_start(s))
}

/// `s` without leading and trailing white space.
pub fn trim(s: &str) -> (r: String)
    ensures
        r@ == spec_trim(s@),
{
    let v = chars_of(s);
    let mut a: usize = 0;
    assert(v@.subrange(0, v@.len() as int) =~= v@);
    while a < v.len() && is_whitespace(v[a])
        invariant
            a <= v@.len(),
            v@ == s@,
            spec_trim_start(v@) == spec_trim_start(v@.subrange(a as int, v@.len() as int)),
        decreases v@.len() - a,
    {
        assert(v@.subrange(a as int, v@.len() as int).drop_first() =~= v@.subrange(a + 1, v@.len() as int));
        a = a + 1;
    }
    let ghost mid = v@.subrange(a as int, v@.len() as int);
    assert(spec_trim_start(mid) == mid);
    let mut b: usize = v.len();
    assert(mid =~= v@.subrange(a as int, b as int));
    while b > a && is_whitespace(v[b - 1])
        invariant
            a <= b <= v@.len(),
            spec_trim_end(mid) == spec_trim_end(v@.subrange(a as int, b as int)),
        decreases b - a,
    {
        assert(v@.subrange(a as int, b as int).drop_last() =~= v@.subrange(a as int, b - 1));
        assert(v@.subrange(a as int, b as int).last() == v@[b - 1]);
        b = b - 1;
    }
    string_of_range(&v, a, b)
}
/// The number of bytes of `s`'s UTF-8 form.
pub open spec fn utf8_size(s: Seq<char>) -> int
    decreases s.len(),
{
    if s.len() == 0 { 0 } else { utf8_size(s.drop_last()) + utf8_len(s.last()) }
}

/// A string has at least as many bytes as characters.
pub proof fn lemma_utf8_size_positive(s: Seq<char>)
    ensures
        utf8_size(s) >= s.len(),
    decreases s.len(),
{
    if s.len() > 0 {
        lemma_utf8_size_positive(s.drop_last());
    }
}

/// A string has at least as many bytes as any prefix of it.
pub proof fn lemma_utf8_size_grows(s: Seq<char>, i: int)
    requires
        0 <= i <= s.len(),
    ensures
        utf8_size(s) >= utf8_size(s.subrange(0, i)),
    decreases s.len() - i,
{
    if i < s.len() {
        lemma_utf8_size_grows(s, i + 1);
        assert(s.subrange(0, i + 1).drop_last() =~= s.subrange(0, i));
    } else {
        assert(s.subrange(0, i) =~= s);
    }
}


/// Cutting a string after `n` bytes keeps a prefix of it, whole characters
/// of at most `n` bytes, followed by one U+FFFD exactly when a character is
/// cut through.
pub proof fn lemma_truncate_keeps_prefix(s: Seq<char>, n: int)
    ensures
        exists|k: int|
            #![trigger s.subrange(0, k)]
            0 <= k <= s.len() && utf8_size(s.subrange(0, k)) <= (if n > 0 { n } else { 0 }) && (spec_truncate_bytes(s, n)
                == s.subrange(0, k) || spec_truncate_bytes(s, n) == s.subrange(0, k).push('\u{FFFD}')),
    decreases s.len(),
{
    if s.len() == 0 || n <= 0 {
        assert(s.subrange(0, 0) =~= Seq::<char>::empty());
        assert(utf8_size(s.subrange(0, 0)) == 0);
        assert(spec_truncate_bytes(s, n) == s.subrange(0, 0));
    } else if utf8_len(s[0]) <= n {
        let t = s.drop_first();
        lemma_truncate_keeps_prefix(t, n - utf8_len(s[0]));
        let k = choose|k: int|
            #![trigger t.subrange(0, k)]
            0 <= k <= t.len() && utf8_size(t.subrange(0, k)) <= (if n - utf8_len(s[0]) > 0 { n - utf8_len(s[0]) } else { 0 })
                && (spec_truncate_bytes(t, n - utf8_len(s[0])) == t.subrange(0, k) || spec_truncate_bytes(
                t,
                n - utf8_len(s[0]),
            ) == t.subrange(0, k).push('\u{FFFD}'));
        assert(s.subrange(0, k + 1) =~= seq![s[0]] + t.subrange(0, k));
        assert(s.subrange(0, k + 1).push('\u{FFFD}') =~= seq![s[0]] + t.subrange(0, k).push('\u{FFFD}'));
        lemma_utf8_size_prepend(s[0], t.subrange(0, k));
        assert(utf8_size(s.subrange(0, k + 1)) <= n);
    } else {
        assert(s.subrange(0, 0) =~= Seq::<char>::empty());
        assert(utf8_size(s.subrange(0, 0)) == 0);
        assert(spec_truncate_bytes(s, n) =~= s.subrange(0, 0).push('\u{FFFD}'));
    }
}

/// The bytes of a character and a string are those of each.
pub proof fn lemma_utf8_size_prepend(c: char, t: Seq<char>)
    ensures
        utf8_size(seq![c] + t) == utf8_len(c) + utf8_size(t),
    decreases t.len(),
{
    if t.len() == 0 {
        assert(seq![c] + t =~= seq![c]);
        assert(seq![c].drop_last() =~= Seq::<char>::empty());
        assert(utf8_size(Seq::<char>::empty()) == 0);
        assert(seq![c].last() == c);
        assert(utf8_size(t) == 0);
        assert(utf8_size(seq![c]) == utf8_len(c));
    } else {
        lemma_utf8_size_prepend(c, t.drop_last());
        assert((seq![c] + t).drop_last() =~= seq![c] + t.drop_last());
        assert((seq![c] + t).last() == t.last());
    }
}
} // verus!
