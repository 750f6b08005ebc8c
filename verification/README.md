# wgpu_intro

A set of small wgpu/winit rendering programs (a window, a cleared surface, a
triangle from a pipeline, a vertex buffer, an indexed pentagon with its
wireframe, a textured pentagon) whose decisions and data live in a library
verified with Verus.

- `src/` — the verified library:
  - `surface`: the surface configuration state (`State`), resizing, the choice
    of surface format and the decision for each outcome of a frame request;
  - `app`: the application's reaction to window events (`App`), the bare
    window handler, and the laws over event sequences;
  - `mesh`: the pentagon's index and line-index lists and their properties;
  - `layout`: vertex formats, attribute offsets and vertex buffer layouts;
  - `upload`: index data as the bytes of an index buffer;
  - `texture`: decoding an image to RGBA8 and its copy layout;
  - `filter`: the choice of log-filter directives.
- `tests/` — tests of the library on concrete values.
- `app/` — the programs themselves: winit event loop, wgpu device, pipelines
  and render passes, logging set-up. Run with the program's name as the first
  argument (`the-window`, `the-window-ch`, `the-surface`, `the-pipeline`,
  `buffers-and-indices`, `new-to-index-buffer`, `textures-and-bind-group`) and
  optionally `--tracing` to log through `tracing` instead of `env_logger`.
