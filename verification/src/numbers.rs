//! Integers read from text the way `str::parse` reads them: an optional
//! sign, then digits only, and a value that fits the type.

use vstd::prelude::*;
use crate::text::chars_of;
use crate::version::{all_digits, digit_value, digits_value, is_digit};

verus! {

/// The sign and the digits of a numeral: a leading `+` or `-` is the sign.
pub open spec fn unsigned_part(s: Seq<char>) -> Seq<char> {
    if s.len() > 0 && (s[0] == '+' || s[0] == '-') { s.drop_first() } else { s }
}

/// Whether a numeral begins with `-`.
pub open spec fn is_negative(s: Seq<char>) -> bool {
    s.len() > 0 && s[0] == '-'
}

/// What `str::parse::<i32>` gives: `None` unless the text is an optional
/// sign and one or more ASCII digits whose value fits an `i32`.
pub open spec fn spec_parse_i32(s: Seq<char>) -> Option<i32> {
    let d = unsigned_part(s);
    if d.len() == 0 || !all_digits(d) {
        None
    } else if is_negative(s) {
        if digits_value(d) <= 2147483648 { Some((-(digits_value(d) as int)) as i32) } else { None }
    } else {
        if digits_value(d) <= 2147483647 { Some(digits_value(d) as i32) } else { None }
    }
}

/// What `str::parse::<u64>` gives: `None` unless the text is an optional
/// `+` and one or more ASCII digits whose value fits a `u64`.
pub open spec fn spec_parse_u64(s: Seq<char>) -> Option<u64> {
    let d = if s.len() > 0 && s[0] == '+' { s.drop_first() } else { s };
    if d.len() == 0 || !all_digits(d) || digits_value(d) > u64::MAX {
        None
    } else {
        Some(digits_value(d) as u64)
    }
}

/// The largest value [`capped_digits`] tells apart; larger runs read as it.
pub open spec fn cap() -> nat {
    0x1_0000_0000_0000_0000
}

/// Reads `v[from..]` as digits: whether all are digits, and their value,
/// capped at [`cap`].
fn capped_digits(v: &Vec<char>, from: usize) -> (r: (bool, u128))
    requires
        from <= v@.len(),
    ensures
        r.0 == all_digits(v@.subrange(from as int, v@.len() as int)),
        r.0 ==> r.1 == (if digits_value(v@.subrange(from as int, v@.len() as int)) < cap() {
            digits_value(v@.subrange(from as int, v@.len() as int))
        } else {
            cap()
        }),
{
    let ghost all = v@.subrange(from as int, v@.len() as int);
    let mut acc: u128 = 0;
    let mut i: usize = from;
    while i < v.len()
        invariant
            from <= i <= v@.len(),
            all == v@.subrange(from as int, v@.len() as int),
            forall|k: int| from <= k < i ==> is_digit(#[trigger] v@[k]),
            acc == (if digits_value(v@.subrange(from as int, i as int)) < cap() {
                digits_value(v@.subrange(from as int, i as int))
            } else {
                cap()
            }),
        decreases v@.len() - i,
    {
        let c = v[i];
        if !('0' <= c && c <= '9') {
            assert(!is_digit(all[i - from]));
            return (false, 0);
        }
        let d = (c as u32 - '0' as u32) as u128;
        let ghost before = v@.subrange(from as int, i as int);
        let ghost after = v@.subrange(from as int, i + 1);
        assert(after.drop_last() =~= before);
        assert(after.last() == c);
        assert(digits_value(after) == 10 * digits_value(before) + digit_value(c));
        if acc < 0x1_0000_0000_0000_0000 {
            let n = acc * 10 + d;
            acc = if n < 0x1_0000_0000_0000_0000 { n } else { 0x1_0000_0000_0000_0000 };
        }
        i = i + 1;
    }
    assert forall|k: int| 0 <= k < all.len() implies is_digit(#[trigger] all[k]) by {
        assert(all[k] == v@[from + k]);
    }
    (true, acc)
}

/// What `str::parse::<i32>` gives.
pub fn parse_i32(s: &str) -> (r: Option<i32>)
    ensures
        r == spec_parse_i32(s@),
{
    let v = chars_of(s);
    let signed = v.len() > 0 && (v[0] == '+' || v[0] == '-');
    let negative = v.len() > 0 && v[0] == '-';
    let from: usize = if signed { 1 } else { 0 };
    proof {
        if signed {
            assert(v@.subrange(1, v@.len() as int) =~= unsigned_part(s@));
        } else {
            assert(v@.subrange(0, v@.len() as int) =~= unsigned_part(s@));
        }
    }
    if from == v.len() {
        return None;
    }
    let (digits, value) = capped_digits(&v, from);
    if !digits {
        return None;
    }
    if negative {
        if value <= 2147483648 {
            Some((-(value as i128)) as i32)
        } else {
            None
        }
    } else {
        if value <= 2147483647 {
            Some(value as i32)
        } else {
            None
        }
    }
}

/// What `str::parse::<u64>` gives.
pub fn parse_u64(s: &str) -> (r: Option<u64>)
    ensures
        r == spec_parse_u64(s@),
{
    let v = chars_of(s);
    let from: usize = if v.len() > 0 && v[0] == '+' { 1 } else { 0 };
    proof {
        if from == 1 {
            assert(v@.subrange(1, v@.len() as int) =~= s@.drop_first());
        } else {
            assert(v@.subrange(0, v@.len() as int) =~= s@);
        }
    }
    if from == v.len() {
        return None;
    }
    let (digits, value) = capped_digits(&v, from);
    if !digits || value > 0xffff_ffff_ffff_ffff {
        return None;
    }
    Some(value as u64)
}

} // verus!
