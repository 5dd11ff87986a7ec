# niri

The rendering and window-management logic of the niri compositor, written in Verus: executable Rust
whose behaviour is stated in contracts and proved.

- `src/ui/minimized_strip.rs`: where the thumbnails of minimized windows go on an output, which one
  is under the pointer, and what is drawn for them.
- `src/render_helpers/blend/`: the per-output blend space for windowed HDR. It classifies content,
  decides on gamut conversion and tone mapping, and gives the uniforms, program overrides and
  scanout color transforms that follow, so that composition and direct scanout agree.
- `src/render_helpers/shaders/`: what the shader programs are compiled from on either renderer, which
  program a draw uses, and the rewriting of GLES-dialect shaders for Vulkan.
- `src/render_helpers/effect_buffer.rs`, `snapshot.rs`, `texture.rs`, `gradient_fade_texture.rs`:
  offscreen effects, window snapshots and textures.
- `src/backend/tty_renderer.rs`, `src/render_helpers/renderer.rs`: the renderer of the TTY backend,
  which is either GLES or Vulkan.
- `src/utils/transaction.rs`: transactions between clients, and the surface barriers that apply
  their commits together.

Numbers are exact: luminances, matrices and coordinates are integers or fractions. What the GPU, the
event loop or floating-point math has to do is passed in as functions or values, and the contracts
say what is passed to them and what becomes of their results. Public `law_` proof functions state
what holds across functions.

`tests/` runs the library on concrete values. `app/` is ordinary Rust around it: floating-point
colorimetry, conversions, the event loop, and the traits of the rendering crates.
