//! Version vectors: `MAJOR[.MINOR[.PATCH]]` read the way `strtoul` reads
//! each run of digits, packed as `MAJOR*10^8 + MINOR*10^4 + PATCH`.

use vstd::prelude::*;
use crate::text::{chars_of, string_of_range};

verus! {

/// Whether `c` is an ASCII digit.
pub open spec fn is_digit(c: char) -> bool {
    '0' <= c && c <= '9'
}

/// The value of the digit `c`.
pub open spec fn digit_value(c: char) -> nat {
    (c as u32 - '0' as u32) as nat
}

/// The number a run of decimal digits denotes.
pub open spec fn digits_value(s: Seq<char>) -> nat
    decreases s.len(),
{
    if s.len() == 0 {
        0
    } else {
        10 * digits_value(s.drop_last()) + digit_value(s.last())
    }
}

/// The length of the run of ASCII digits that `s` begins with.
pub open spec fn digit_run(s: Seq<char>) -> nat
    decreases s.len(),
{
    if s.len() == 0 || !is_digit(s[0]) {
        0
    } else {
        1 + digit_run(s.drop_first())
    }
}

/// What `str::parse::<u64>` gives for a run of digits, or 0 when it fails
/// (an empty run, or a value past `u64::MAX`).
pub open spec fn spec_u64_or_zero(digits: Seq<char>) -> u64 {
    if digits.len() == 0 || digits_value(digits) > u64::MAX {
        0
    } else {
        digits_value(digits) as u64
    }
}

/// A leading run of digits read as a number, and what follows it.
pub open spec fn spec_parse_u64_prefix(s: Seq<char>) -> (u64, Seq<char>) {
    let n = digit_run(s) as int;
    (spec_u64_or_zero(s.subrange(0, n)), s.subrange(n, s.len() as int))
}

pub proof fn lemma_digit_run_bound(s: Seq<char>)
    ensures
        digit_run(s) <= s.len(),
        forall|k: int| 0 <= k < digit_run(s) ==> is_digit(#[trigger] s[k]),
        digit_run(s) < s.len() ==> !is_digit(s[digit_run(s) as int]),
    decreases s.len(),
{
    if s.len() > 0 && is_digit(s[0]) {
        lemma_digit_run_bound(s.drop_first());
        assert forall|k: int| 0 <= k < digit_run(s) implies is_digit(#[trigger] s[k]) by {
            if k > 0 {
                assert(s[k] == s.drop_first()[k - 1]);
            }
        }
    }
}

pub proof fn lemma_digit_run_of(s: Seq<char>, n: int)
    requires
        0 <= n <= s.len(),
        forall|k: int| 0 <= k < n ==> is_digit(#[trigger] s[k]),
        n == s.len() || !is_digit(s[n]),
    ensures
        digit_run(s) == n,
    decreases n,
{
    if n > 0 {
        assert forall|k: int| 0 <= k < n - 1 implies is_digit(#[trigger] s.drop_first()[k]) by {
            assert(s.drop_first()[k] == s[k + 1]);
        }
        if n < s.len() {
            assert(s.drop_first()[n - 1] == s[n]);
        }
        lemma_digit_run_of(s.drop_first(), n - 1);
    }
}

proof fn lemma_digits_value_monotone(s: Seq<char>, k: int)
    requires
        0 <= k <= s.len(),
        forall|j: int| 0 <= j < s.len() ==> is_digit(#[trigger] s[j]),
    ensures
        digits_value(s.subrange(0, k)) <= digits_value(s),
    decreases s.len() - k,
{
    if k < s.len() {
        let t = s.subrange(0, k + 1);
        assert(t.drop_last() =~= s.subrange(0, k));
        lemma_digits_value_monotone(s, k + 1);
        assert(s.subrange(0, s.len() as int) =~= s);
    } else {
        assert(s.subrange(0, k) =~= s);
    }
}

/// Reads the leading run of digits of `s` as `strtoul` would in base 10,
/// returning the value and the unread remainder.
pub fn parse_u64_prefix(s: &str) -> (r: (u64, String))
    ensures
        (r.0, r.1@) == spec_parse_u64_prefix(s@),
{
    let v = chars_of(s);
    let mut n: usize = 0;
    let mut acc: u128 = 0;
    let mut overflow = false;
    while n < v.len() && '0' <= v[n] && v[n] <= '9'
        invariant
            v@ == s@,
            n <= v@.len(),
            forall|k: int| 0 <= k < n ==> is_digit(#[trigger] v@[k]),
            !overflow ==> acc == digits_value(v@.subrange(0, n as int)) && acc <= u64::MAX,
            overflow ==> digits_value(v@.subrange(0, n as int)) > u64::MAX,
        decreases v@.len() - n,
    {
        let d = v[n];
        let dv = (d as u32 - '0' as u32) as u128;
        proof {
            let t = v@.subrange(0, n + 1);
            assert(t.drop_last() =~= v@.subrange(0, n as int));
            assert(t.last() == d);
            assert(digits_value(t) == 10 * digits_value(v@.subrange(0, n as int)) + dv);
        }
        if !overflow {
            acc = acc * 10 + dv;
            if acc > u64::MAX as u128 {
                overflow = true;
            }
        }
        n = n + 1;
    }
    proof {
        lemma_digit_run_of(s@, n as int);
    }
    let value: u64 = if overflow || n == 0 {
        0
    } else {
        acc as u64
    };
    let rest = string_of_range(&v, n, v.len());
    (value, rest)
}

/// The packed form of a version vector, as an exact integer.
pub open spec fn spec_pack(major: int, minor: int, patch: int) -> int {
    major * 100000000 + minor * 10000 + patch
}

/// `x` reduced into `i64` the way wrapping `i64` arithmetic reduces it.
pub open spec fn spec_wrap_i64(x: int) -> i64 {
    let r = x % 0x1_0000_0000_0000_0000;
    if r > i64::MAX { (r - 0x1_0000_0000_0000_0000) as i64 } else { r as i64 }
}

/// The packed version of three components, reduced into `i64`.
pub fn pack_version(major: u64, minor: u64, patch: u64) -> (r: i64)
    ensures
        r == spec_wrap_i64(spec_pack(major as int, minor as int, patch as int)),
{
    let x: u128 = (major as u128) * 100000000 + (minor as u128) * 10000 + (patch as u128);
    let m: u128 = x % 0x1_0000_0000_0000_0000u128;
    if m > 9223372036854775807u128 {
        let y: i128 = (m as i128) - 0x1_0000_0000_0000_0000i128;
        y as i64
    } else {
        m as i64
    }
}

/// Why a version vector could not be read: the text it stopped at.
pub open spec fn spec_version_error(rest: Seq<char>) -> Seq<char> {
    "cannot parse version string from "@ + rest
}

/// A version vector read from `s`: one to three `.`-separated runs of
/// digits; `Err` holds the unread text the reading stopped at.
pub open spec fn spec_parse_version(s: Seq<char>) -> Result<i64, Seq<char>> {
    let (major, r1) = spec_parse_u64_prefix(s);
    if r1.len() == 0 {
        Ok(spec_wrap_i64(spec_pack(major as int, 0, 0)))
    } else if r1[0] != '.' {
        Err(r1)
    } else {
        let (minor, r2) = spec_parse_u64_prefix(r1.drop_first());
        if r2.len() == 0 {
            Ok(spec_wrap_i64(spec_pack(major as int, minor as int, 0)))
        } else if r2[0] != '.' {
            Err(r2)
        } else {
            let (patch, r3) = spec_parse_u64_prefix(r2.drop_first());
            if r3.len() == 0 {
                Ok(spec_wrap_i64(spec_pack(major as int, minor as int, patch as int)))
            } else {
                Err(r3)
            }
        }
    }
}

/// The text after the first character of `s`.
fn tail_of(s: &str) -> (r: String)
    requires
        s@.len() > 0,
    ensures
        r@ == s@.drop_first(),
{
    let v = chars_of(s);
    let r = string_of_range(&v, 1, v.len());
    assert(r@ =~= s@.drop_first());
    r
}

/// Reads a version vector; `Err` holds the text the reading stopped at.
pub fn parse_version_string(s: &str) -> (r: Result<i64, String>)
    ensures
        match (r, spec_parse_version(s@)) {
            (Ok(x), Ok(y)) => x == y,
            (Err(x), Err(y)) => x@ == y,
            _ => false,
        },
{
    let (major, r1) = parse_u64_prefix(s);
    if r1.unicode_len() == 0 {
        return Ok(pack_version(major, 0, 0));
    }
    if r1.as_str().get_char(0) != '.' {
        return Err(r1);
    }
    let t1 = tail_of(r1.as_str());
    let (minor, r2) = parse_u64_prefix(t1.as_str());
    if r2.unicode_len() == 0 {
        return Ok(pack_version(major, minor, 0));
    }
    if r2.as_str().get_char(0) != '.' {
        return Err(r2);
    }
    let t2 = tail_of(r2.as_str());
    let (patch, r3) = parse_u64_prefix(t2.as_str());
    if r3.unicode_len() == 0 {
        Ok(pack_version(major, minor, patch))
    } else {
        Err(r3)
    }
}

/// Whether every character of `s` is an ASCII digit.
pub open spec fn all_digits(s: Seq<char>) -> bool {
    forall|k: int| 0 <= k < s.len() ==> is_digit(#[trigger] s[k])
}

/// The value of a version component that is all digits and fits an `i64`.
pub fn version_component(s: &str) -> (v: i64)
    requires
        all_digits(s@),
        digits_value(s@) <= i64::MAX,
    ensures
        v == digits_value(s@),
{
    let c = chars_of(s);
    let mut i: usize = 0;
    let mut v: i64 = 0;
    while i < c.len()
        invariant
            c@ == s@,
            i <= c@.len(),
            all_digits(s@),
            digits_value(s@) <= i64::MAX,
            v == digits_value(c@.subrange(0, i as int)),
        decreases c@.len() - i,
    {
        proof {
            let t = c@.subrange(0, i + 1);
            assert(t.drop_last() =~= c@.subrange(0, i as int));
            lemma_digits_value_monotone(s@, i + 1);
            assert(is_digit(c@[i as int]));
        }
        let d = (c[i] as u32 - '0' as u32) as i64;
        v = v * 10 + d;
        i = i + 1;
    }
    assert(c@.subrange(0, c@.len() as int) =~= c@);
    v
}

} // verus!
