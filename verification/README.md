# spyrrow

Strip packing for Python: describe items and a strip of fixed height, and get
back a layout of small width.

- `src/` is the verified library: items and instances, the configuration and
  its time budget, the translation of layouts between item identifiers and the
  engine's item indices, progress reports, and the steps of a solve.
  `src/laws.rs` states what holds of the library as a whole; `src/host.rs`
  holds everything that is believed of code outside it.
- `tests/` runs the library on concrete values.
- `app/` is the Python module: the classes, the calls into the packing engine
  (`jagua-rs`) and the optimizer (`sparrow`), and the lock around the progress
  queue. The optimizer is not published on crates.io; the crate that goes by
  its name there is another one.
