# bluetape-rs

Backend building blocks with machine-checked contracts: text codecs
(hex, Base58, Base62, Base64, UTF-8), input validation, collection helpers,
compression with decompressed-size limits, serialization metadata policies,
correlation ids for logs, and the bookkeeping of bounded task groups.

## Layout

- `src/` is the library, verified with Verus. Each public function states
  what it returns in its `ensures`; laws that relate several functions
  (round trips of every codec and compression algorithm, chunking that
  partitions its input, configurations that pass their own policies) are
  public proof functions beside them. The compression round trip holds for
  every level an algorithm accepts and every input its encoder takes (all
  inputs, but for zstd and Snappy past their codecs' size limits, and LZ4
  inputs over `u32::MAX` bytes). Calls into `base64`, `flate2`, `zstd`,
  `lz4_flex` and `snap` go through small wrappers whose contracts say what
  those crates' sources show, success included.
- The decisions of bounded task groups (store a result in its slot, start
  more, stop on the first failure or record it) are verified functions from
  a finished task's event to the next action; `app/` runs the loop.
- `app/` holds what needs a runtime or I/O: streaming compression over
  `Read`/`Write`, Tokio timeouts, cancellation, the task-group loops,
  `tracing` subscribers with log capture, the compression benchmark, and the
  standard error traits for the library's error types. Every decision it
  makes comes from the library.
- `tests/` runs the library on concrete values.
