# rolldown-compression

Batch compression with gzip, brotli and zstd: every file of a batch is compressed
with every configured algorithm, in parallel, and the results come back in file
order, then in configuration order.

- `src/` is the library. Its behaviour is stated in contracts and proved with
  Verus. The encoders, the decoders and the thread pool are outside crates; each
  call into one stands behind a small item whose contract says what is relied on.
- `tests/` runs the library with the real encoders.
- `app/` is the Node-API module around the library: JavaScript objects, the sizing
  of the thread pool, and the guard that turns a panic into a failed task.

| module | contents |
| --- | --- |
| `compress` | algorithms, levels, the entry points, the encoders a worker keeps |
| `compress::inner_gzip`, `inner_brotli`, `inner_zstd` | one algorithm each |
| `decode` | decoding, against which the round trip is stated |
| `scheduler` | running a batch |
| `scheduler::plan`, `scatter`, `task` | the schedule, putting results in order, one task |
| `binding` | request validation and results as the host receives them |
| `error` | failures, their messages and their classification |
