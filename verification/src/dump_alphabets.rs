//! hfst-dump-alphabets: print the alphabets of the transducers of a
//! stream. The format chosen, which symbols are printed and how stand
//! here; reading the transducers and their alphabets is the caller's.

use vstd::prelude::*;
use crate::common::{Channel, Report, SpecReport, end_with, to_stderr};
use crate::sorted::strings_view;
use crate::text::{
    chars_of, concat2, concat3, int_text, lemma_utf8_size_grows, lemma_utf8_size_positive, spec_int_text, str_eq,
    utf8_len_exec, utf8_size,
};

verus! {

/// How the alphabets are printed.
#[derive(Clone, Copy, PartialEq, Eq, Structural, Debug)]
pub enum AlphaDumpFormat {
    /// One symbol per line.
    Tsv,
    /// A VISL CG 3 `LIST` per symbol.
    Vislcg3List,
    /// A VISL CG 3 `STRICT-TAGS` block.
    Vislcg3Tags,
}

/// The format `-f` names, whether only multicharacter symbols are printed,
/// and the verbose note announcing it; tsv without `-f`. An unknown name
/// ends the tool.
pub open spec fn spec_dump_format(format: Option<Seq<char>>) -> Result<(AlphaDumpFormat, bool, Seq<char>), SpecReport> {
    match format {
        None => Ok((AlphaDumpFormat::Tsv, false, Seq::empty())),
        Some(name) => if name == "tsv"@ {
            Ok((AlphaDumpFormat::Tsv, false, "printing one symbol per line\n"@))
        } else if name == "vislcg3-list"@ {
            Ok((AlphaDumpFormat::Vislcg3List, true, "printing LIST x = x ; for VISL CG 3...\n"@))
        } else if name == "vislcg3-tags"@ {
            Ok((AlphaDumpFormat::Vislcg3Tags, true, "printing STRICT-TAGS += for VISL CG 3...\n"@))
        } else {
            Err(SpecReport { code: 1, messages: seq![(Channel::Stderr, "Error: unrecognised format "@ + name + "\n"@)] })
        },
    }
}

/// The format `-f` names.
pub fn dump_format(format: &Option<String>) -> (r: Result<(AlphaDumpFormat, bool, String), Report>)
    ensures
        match (r, spec_dump_format(crate::getopt::opt_view(*format))) {
            (Ok(x), Ok(y)) => x.0 == y.0 && x.1 == y.1 && x.2@ == y.2,
            (Err(x), Err(y)) => x@ == y,
            _ => false,
        },
{
    match format {
        None => Ok((AlphaDumpFormat::Tsv, false, String::new())),
        Some(name) => {
            let n = name.as_str();
            if str_eq(n, "tsv") {
                Ok((AlphaDumpFormat::Tsv, false, "printing one symbol per line\n".to_owned()))
            } else if str_eq(n, "vislcg3-list") {
                Ok((AlphaDumpFormat::Vislcg3List, true, "printing LIST x = x ; for VISL CG 3...\n".to_owned()))
            } else if str_eq(n, "vislcg3-tags") {
                Ok((AlphaDumpFormat::Vislcg3Tags, true, "printing STRICT-TAGS += for VISL CG 3...\n".to_owned()))
            } else {
                Err(end_with(1, to_stderr(concat3("Error: unrecognised format ", n, "\n"))))
            }
        },
    }
}

/// Whether the note on `-f` is printed: only when `-v` came before `-f` on
/// the command line, as the options are read in order.
pub open spec fn spec_announce(verbose: bool, verbose_at: Option<usize>, format_at: Option<usize>) -> bool {
    verbose && (verbose_at matches Some(v) && (format_at matches Some(f) && v < f))
}

/// Whether the note on `-f` is printed.
pub fn announce(verbose: bool, verbose_at: Option<usize>, format_at: Option<usize>) -> (r: bool)
    ensures
        r == spec_announce(verbose, verbose_at, format_at),
{
    match (verbose_at, format_at) {
        (Some(v), Some(f)) => verbose && v < f,
        _ => false,
    }
}

/// The tool's settings.
pub struct Options {
    pub output_format: AlphaDumpFormat,
    /// Cleared by `-1`: print the symbols the transducer uses.
    pub print_seen: bool,
    /// Cleared by `-2`: print the alphabet of the transducer's header.
    pub print_meta: bool,
    /// Print only multicharacter symbols (the VISL CG 3 formats).
    pub only_multichars: bool,
}

/// Whether a symbol counts as multicharacter: longer than two bytes and
/// starting with `+`, a space or `@`.
pub open spec fn spec_is_multichar(s: Seq<char>) -> bool {
    utf8_size(s) > 2 && (s[0] == '+' || s[0] == ' ' || s[0] == '@')
}

/// Whether a symbol counts as multicharacter.
pub fn is_multichar(s: &str) -> (r: bool)
    ensures
        r == spec_is_multichar(s@),
{
    let v = chars_of(s);
    let mut size: u64 = 0;
    let mut i: usize = 0;
    while i < v.len() && size <= 2
        invariant
            i <= v@.len(),
            size == utf8_size(v@.subrange(0, i as int)),
            size <= 6,
        decreases v@.len() - i,
    {
        assert(v@.subrange(0, i + 1).drop_last() =~= v@.subrange(0, i as int));
        size = size + utf8_len_exec(v[i]);
        i = i + 1;
    }
    proof {
        if size <= 2 {
            assert(v@.subrange(0, v@.len() as int) =~= v@);
        } else {
            lemma_utf8_size_grows(v@, i as int);
        }
        lemma_utf8_size_positive(v@);
    }
    size > 2 && (v[0] == '+' || v[0] == ' ' || v[0] == '@')
}

/// The verbose line before the `n`th transducer (from 1).
pub open spec fn spec_alphadumping(n: int) -> Seq<char> {
    if n < 2 { "Alphadumping...\n"@ } else { "Alphadumping... "@ + spec_int_text(n) + "\n"@ }
}

/// The verbose line before the `n`th transducer.
pub fn alphadumping(n: u64) -> (s: String)
    requires
        n <= i64::MAX,
    ensures
        s@ == spec_alphadumping(n as int),
{
    if n < 2 {
        "Alphadumping...\n".to_owned()
    } else {
        concat3("Alphadumping... ", int_text(n as i64).as_str(), "\n")
    }
}

/// One symbol as the format prints it.
pub open spec fn spec_symbol_line(f: AlphaDumpFormat, s: Seq<char>) -> Seq<char> {
    match f {
        AlphaDumpFormat::Tsv => s + "\n"@,
        AlphaDumpFormat::Vislcg3Tags => "\t"@ + s + "\n"@,
        AlphaDumpFormat::Vislcg3List => "LIST "@ + s + " = "@ + s + " ;\n"@,
    }
}

/// The symbols `syms`, in order, as the format prints them; only the
/// multicharacter ones when `only_multichars`.
pub open spec fn spec_symbol_lines(f: AlphaDumpFormat, only_multichars: bool, syms: Seq<Seq<char>>) -> Seq<char>
    decreases syms.len(),
{
    if syms.len() == 0 {
        Seq::empty()
    } else {
        spec_symbol_lines(f, only_multichars, syms.drop_last()) + (if only_multichars && !spec_is_multichar(
            syms.last(),
        ) {
            Seq::empty()
        } else {
            spec_symbol_line(f, syms.last())
        })
    }
}

fn symbol_lines(f: AlphaDumpFormat, only_multichars: bool, syms: &Vec<String>) -> (s: String)
    ensures
        s@ == spec_symbol_lines(f, only_multichars, strings_view(syms@)),
{
    let ghost sv = strings_view(syms@);
    let mut s = String::new();
    let mut i: usize = 0;
    while i < syms.len()
        invariant
            sv == strings_view(syms@),
            i <= syms@.len(),
            s@ == spec_symbol_lines(f, only_multichars, sv.subrange(0, i as int)),
        decreases syms@.len() - i,
    {
        let ghost sub = sv.subrange(0, i + 1);
        assert(sub.drop_last() =~= sv.subrange(0, i as int));
        assert(sub.last() == syms@[i as int]@);
        let x = syms[i].as_str();
        if !(only_multichars && !is_multichar(x)) {
            let line = match f {
                AlphaDumpFormat::Tsv => concat2(x, "\n"),
                AlphaDumpFormat::Vislcg3Tags => concat3("\t", x, "\n"),
                AlphaDumpFormat::Vislcg3List => {
                    let mut l = concat3("LIST ", x, " = ");
                    l.append(x);
                    l.append(" ;\n");
                    l
                },
            };
            s.append(line.as_str());
        } else {
            assert(s@ + Seq::<char>::empty() =~= s@);
        }
        i = i + 1;
    }
    assert(sv.subrange(0, sv.len() as int) =~= sv);
    s
}

/// The head of a VISL CG 3 file.
pub open spec fn cg_head() -> Seq<char> {
    "## automatically generated VISL CG 3 file from HFST automaton's alphabet data:\n## (some statistics here TODO)\n"@
}

/// What is printed for one transducer, whose header alphabet is `header`
/// and whose arcs use the symbols `seen` (each in the order of the
/// strings): the VISL CG 3 head, then the header alphabet unless `-2`, then
/// the symbols seen unless `-1`.
pub open spec fn spec_dump(o: Options, header: Seq<Seq<char>>, seen: Seq<Seq<char>>) -> Seq<char> {
    (match o.output_format {
        AlphaDumpFormat::Vislcg3Tags => cg_head() + "STRICT-TAGS +=\n"@,
        AlphaDumpFormat::Vislcg3List => cg_head(),
        AlphaDumpFormat::Tsv => Seq::empty(),
    }) + (if o.print_meta {
        spec_symbol_lines(o.output_format, o.only_multichars, header)
    } else {
        Seq::empty()
    }) + (if o.print_seen {
        spec_symbol_lines(o.output_format, o.only_multichars, seen)
    } else {
        Seq::empty()
    })
}

/// What is printed for one transducer.
pub fn dump(o: &Options, header: &Vec<String>, seen: &Vec<String>) -> (s: String)
    ensures
        s@ == spec_dump(*o, strings_view(header@), strings_view(seen@)),
{
    let mut s = match o.output_format {
        AlphaDumpFormat::Vislcg3Tags => {
            let mut h = "## automatically generated VISL CG 3 file from HFST automaton's alphabet data:\n## (some statistics here TODO)\n".to_owned();
            h.append("STRICT-TAGS +=\n");
            h
        },
        AlphaDumpFormat::Vislcg3List => "## automatically generated VISL CG 3 file from HFST automaton's alphabet data:\n## (some statistics here TODO)\n".to_owned(),
        AlphaDumpFormat::Tsv => String::new(),
    };
    let ghost head = s@;
    if o.print_meta {
        s.append(symbol_lines(o.output_format, o.only_multichars, header).as_str());
    }
    let ghost mid = s@;
    if o.print_seen {
        s.append(symbol_lines(o.output_format, o.only_multichars, seen).as_str());
    }
    proof {
        let m = if o.print_meta {
            spec_symbol_lines(o.output_format, o.only_multichars, strings_view(header@))
        } else {
            Seq::<char>::empty()
        };
        assert(mid =~= head + m);
    }
    assert(s@ =~= spec_dump(*o, strings_view(header@), strings_view(seen@)));
    s
}

/// What ends the output: the close of the `STRICT-TAGS` block.
pub open spec fn spec_closing(f: AlphaDumpFormat) -> Seq<char> {
    if f == AlphaDumpFormat::Vislcg3Tags { "\t;\n"@ } else { Seq::empty() }
}

/// What ends the output.
pub fn closing(f: AlphaDumpFormat) -> (s: String)
    ensures
        s@ == spec_closing(f),
{
    match f {
        AlphaDumpFormat::Vislcg3Tags => "\t;\n".to_owned(),
        _ => String::new(),
    }
}

} // verus!
