# Schwarzschild raytracer TUI

A terminal black-hole raytracer: rays are traced backward from an orbital
camera through Schwarzschild spacetime with an RK4 integrator and drawn with
24-bit colour half-block characters.

- `src/` is the verified library: the frame buffer of half-block cells
  (`render/framebuffer.rs`), the layout of rays over its cells
  (`render/renderer.rs`), the colour of the celestial grid squares
  (`render/scene.rs`), the batching of terminal rows into runs of equal cells
  (`tui/ui.rs`), the input state machine that turns terminal events into
  camera moves (`tui/app.rs`) and the colour palette (`constants.rs`).
- `app/` is the program around it: the floating-point camera, geodesic
  integrator and shading, the parallel render loop, the conversion of
  crossterm events and the ratatui drawing.
