//! Command-line logic of the HFST tool suite: option scanning, option
//! resolution and the per-tool decisions, stated and proved with Verus.

use vstd::prelude::*;

pub mod text;
pub mod getopt;
pub mod common;
pub mod version;
pub mod sorted;
pub mod ranked;
pub mod info;
pub mod unary;
pub mod reverse;
pub mod strip_header;
pub mod project;
pub mod prune_alphabet;
pub mod push_labels;
pub mod realign;
pub mod twolc;
pub mod optimized_lookup;
pub mod numbers;
pub mod lookup;
pub mod lexc_compiler;
pub mod pair_test;
pub mod reweight;
pub mod strings2fst;
pub mod regexp2fst;
pub mod summarize;
pub mod push_weights;
pub mod determinize;
pub mod minimize;
pub mod remove_epsilons;
pub mod eliminate_flags;
pub mod inspect_info;
pub mod substitute;
pub mod subtract;
pub mod head;
pub mod tail;
pub mod name;
pub mod edit_metadata;
pub mod traverse;
pub mod dump_alphabets;
pub mod split;
pub mod repeat;
pub mod invert;
pub mod multiply;
pub mod kill_paths;
pub mod affix_guessify;
pub mod insert_freely;
pub mod pmatch;
pub mod tokenize;
pub mod pmatch2fst;
pub mod shuffle;
pub mod priority_disjunct;
pub mod preprocess_for_ol;

verus! {
}
