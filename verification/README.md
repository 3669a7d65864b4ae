# gpui_elements

The decision logic of four gpui elements, verified with Verus: the uniform
list (scroll requests, visible ranges, vertical flipping, insert/remove/move
animations), matched-geometry transitions, GPU canvases and video surfaces
(texture plans and DMA-BUF layouts), plus the text rules of the
`path!`/`uri!`/`line_endings!`/`#[perf]` test macros.

- `src/` — the library. Pixel arithmetic, easing and time are floating-point
  or clock work and stay with the caller; the library takes their outcomes
  as booleans or opaque values and decides what happens.
- `app/` — the runtime side: `f32` pixel math, `Instant`-based progress,
  the shared `Rc<RefCell<..>>` scroll handle, wgpu texture uploads, `mmap`
  of DMA-BUFs, and the `syn`/`quote` token handling of the macros.
- `tests/` — scenario tests of the library, including the `Nearest` scroll
  walk through a 47-item list.
