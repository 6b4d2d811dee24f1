# slint-mipidsi-adapter

A Slint platform adapter for microcontrollers, verified with Verus. It connects a configured
`mipidsi::Builder`, a touch input and a monotonic clock to Slint's software renderer.

- `src/` is the library: touch tracking, event dispatch, line rendering, waiting, the event loop and
  the construction of the platform. Every function states what it does and is proved to do so; the
  laws in `src/laws.rs` say what holds over many samples and steps. Calls into Slint,
  embedded-graphics and std stand behind small trusted functions, each with what is claimed of it.
- `app/` is the glue to the hardware: it implements Slint's `Platform` and `LineBufferProvider`,
  initializes the `mipidsi` display and runs the blocking loop as the library decides.
- `tests/` runs the library with the real crates.

The software renderer is taken from `i-slint-renderer-software`, which is what
`slint::platform::software_renderer` re-exports. Depending on it directly spares the crates that
Slint's `renderer-software` feature brings in through its backend selector.
