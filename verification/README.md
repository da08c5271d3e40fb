# hfst_cli

The command-line side of the HFST tool suite (`hfst-lookup`, `hfst-lexc`,
`hfst-substitute`, `hfst-tail`, …): how each tool reads its options, which
options it refuses and with what words, which transducers of a stream it
touches, and what it prints about them. The transducer work itself belongs to
the transducer library.

- `src/` is the library, written and proved with Verus. `getopt.rs` scans a
  command line the way GNU `getopt_long` does; `common.rs` and `unary.rs` hold
  the options every tool shares; each other module is one tool. Every public
  function states its result exactly over spec functions; the laws the tools
  keep (a `--` ends the options, `hfst-tail` forwards a suffix of the stream,
  the files `hfst-split` writes are all distinct, …) are public proof
  functions beside the code they speak of.
- `tests/` runs the library on concrete command lines.
- `app/` is the program: it reads files and standard streams, calls clap for
  the tools that take their options that way, hands the library plain values,
  and does the transducer work and the floating-point arithmetic (weights,
  beams, time cutoffs) the library leaves to it.
