# iobench

A small collection of storage and I/O benchmarks (local file reads and
writes, HDFS writes, a buffer move, a heap-profile HTTP endpoint),
with their decision logic verified by Verus.

- `src/` is the verified library: decimal parsing and formatting, trimming,
  reading the resident set size from `ps` output, the read-loop plan, worker
  file names, file preparation decisions, HDFS endpoint extraction from a URL,
  zero-filled `bytes` buffers, the heap-profile gate, and a layered handler
  builder.
- `app/` holds the programs themselves (one subcommand each), which do the
  I/O, threads, async runtime and HTTP serving around the library.
- `tests/` holds the tests.
