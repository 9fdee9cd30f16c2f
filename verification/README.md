# autoloop_engine

The engine that runs an autoloop preset as a subprocess: it picks preset and prompt,
launches `autoloop run`, follows the event file, speaks the RPC protocol or feeds the
display, and hands the result to the completion bookkeeping.

- `src/` holds the decisions of the engine, verified with Verus.
- `app/` does the work around the decisions: files, processes, signals, standard input
  and output. What it needs from the rest of the workspace is in `app/host.rs`.
- `tests/` runs the library on concrete values.

A path that is not Unicode is carried as the platform has it. Where `/` is the platform's
separator, the library joins paths that are text by itself; elsewhere it asks the standard
library.
