# sdof_dynamics

An interactive explorer for the single-degree-of-freedom oscillator
`m·x'' + c·x' + k·x = F0·cos(Ω·t)`, written with eframe/egui, whose non-numeric core is a
library verified with Verus.

- `src/` — the verified library:
  - `camera` — the state machine of the Blender-style 3D camera: which drag orbits,
    pans or zooms, free-flight moves, numpad view presets, projection toggle, reset;
  - `theme`, `color`, `response`, `drawing` — colour schemes and palettes, the response
    cases with their names and colours, grid-line and split-handle styles, panel tabs;
  - `fnv` — the FNV-1a hash of parameter bit patterns that keys the result caches;
  - `text` — trimming of printed numbers and recolouring of equation SVGs;
  - `latex_cache` — the render-once cache of equation textures, emptied on a theme change;
  - `keyed_cache` — the cache of the simulated response, keyed by the parameter hash;
  - `png_image` — decoding of the header logos through the `image` crate;
  - `sampling` — the sample count of a simulated time response.
- `app/` — the egui application: windows, plots, drawing, and the floating-point
  physics (natural frequency, damping ratio, amplification, phase, RK4 integration).
- `tests/` — tests of the library on concrete values.

The desktop build shows the equations as plain text. The LaTeX path (MathJax through
`mathjax_svg`, which runs V8) is kept in `app/main.rs` behind the `mathjax` feature,
which this crate does not declare, so that code is not compiled. The header logos are
read at start-up from `shared/figures/` relative to the working directory; a logo that
is missing is reported and left out of the header.
