//! hfst-subtract: subtract the transducers of a second stream from those of
//! a first. What the tool decides about flag diacritics before each
//! subtraction stands here; the subtraction is the backend's.

use vstd::prelude::*;
use crate::text::concat3;

verus! {

/// The warning when the subtracted transducer has flag diacritics.
pub open spec fn spec_flags_in_second(second_filename: Seq<char>) -> Seq<char> {
    "Warning: "@ + second_filename + " contains flag diacritics. The result of subtraction may be incorrect."@
}

/// The warning when both transducers have flag diacritics and `-F` was not
/// given.
pub open spec fn flags_in_both() -> Seq<char> {
    "The argumentes contain flag diacritics. Use -F to harmonize them."@
}

/// What is decided before one subtraction: the warnings, in order, and
/// whether the first transducer's flag diacritics are harmonized with the
/// second's. A second transducer with flags is always warned of; flags on
/// both sides are harmonized under `-F`, else warned of unless silent.
pub open spec fn spec_flag_check(
    silent: bool,
    second_filename: Seq<char>,
    first_has_flags: bool,
    second_has_flags: bool,
    harmonize_flags: bool,
) -> (Seq<Seq<char>>, bool) {
    let w: Seq<Seq<char>> = if second_has_flags { seq![spec_flags_in_second(second_filename)] } else { seq![] };
    if first_has_flags && second_has_flags {
        if !harmonize_flags {
            (if !silent { w.push(flags_in_both()) } else { w }, false)
        } else {
            (w, true)
        }
    } else {
        (w, false)
    }
}

/// What hfst-subtract does to each pair of transducers: `harmonize` is
/// cleared by `-H`, `harmonize_flags` set by `-F`.
pub struct SubtractOp {
    pub harmonize: bool,
    pub harmonize_flags: bool,
}

impl SubtractOp {
    /// The verbose line announcing one pair.
    pub fn verbose_begin(&self, firstname: &str, secondname: &str) -> (s: String)
        ensures
            s@ == "Subtracting "@ + secondname@ + " from "@ + firstname@,
    {
        let mut s = concat3("Subtracting ", secondname, " from ");
        s.append(firstname);
        s
    }

    /// The operation's name in the result's name.
    pub fn name_op(&self) -> (s: &'static str)
        ensures
            s@ == "subtract"@,
    {
        "subtract"
    }

    /// The operation's symbol in the result's formula.
    pub fn formula(&self) -> (s: &'static str)
        ensures
            s@ == "\u{2212}"@,
    {
        "\u{2212}"
    }

    /// The warnings before one subtraction, and whether the flag diacritics
    /// are harmonized first.
    pub fn flag_check(&self, silent: bool, second_filename: &str, first_has_flags: bool, second_has_flags: bool) -> (r: (
        Vec<String>,
        bool,
    ))
        ensures
            r.0@.map_values(|s: String| s@) == spec_flag_check(
                silent,
                second_filename@,
                first_has_flags,
                second_has_flags,
                self.harmonize_flags,
            ).0,
            r.1 == spec_flag_check(silent, second_filename@, first_has_flags, second_has_flags, self.harmonize_flags).1,
    {
        let mut w: Vec<String> = Vec::new();
        if second_has_flags {
            let t = concat3(
                "Warning: ",
                second_filename,
                " contains flag diacritics. The result of subtraction may be incorrect.",
            );
            let ghost tv = t@;
            w.push(t);
            assert(w@.map_values(|s: String| s@) =~= seq![tv]);
        }
        let ghost w0 = w@.map_values(|s: String| s@);
        assert(w0 =~= (if second_has_flags { seq![spec_flags_in_second(second_filename@)] } else { Seq::<Seq<char>>::empty() }));
        if first_has_flags && second_has_flags {
            if !self.harmonize_flags {
                if !silent {
                    let t = "The argumentes contain flag diacritics. Use -F to harmonize them.".to_owned();
                    let ghost tv = t@;
                    w.push(t);
                    assert(w@.map_values(|s: String| s@) =~= w0.push(flags_in_both()));
                }
                (w, false)
            } else {
                (w, true)
            }
        } else {
            (w, false)
        }
    }
}

} // verus!
