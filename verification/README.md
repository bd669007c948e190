# kj_rs

A bridge between Rust futures and KJ promises, with its decisions proved against their contracts.

- `src/` is the verified library: what a poll of a Rust future reports to C++ (`future`),
  how a C++ exception message crosses into Rust (`result`, `exception`), what polling a
  promise-awaiting future does next (`promise`), and the attribute parsing, checks and symbol
  names of `#[bridge_future]` (`namespace`, `expand`).
- `app/` is the foreign-function glue around it: the `extern "C"` poll and drop entry points,
  the C++-facing layouts (`#[repr(C)]` unions, raw pointers), `BoxFuture`, `PromiseFuture`,
  and the conversion between `syn`/`proc_macro2` values and the library's model, with the
  `quote!` expansion.
- `tests/` runs the library on concrete inputs.
