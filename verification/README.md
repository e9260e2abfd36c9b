# egui_ash_integration

Paints [egui](https://docs.rs/egui) on a Vulkan device.

- `src/` is the renderer, verified with Verus. It decides which device objects
  are created and released, what is copied where, what a frame draws, and which
  textures are known. It never calls the device: every operation is a script of
  commands, carried out by whoever drives the renderer. The contracts say what
  each script contains; `src/laws/` says what holds across operations.
- `app/` drives the renderer with `ash`, a memory allocator and a `winit`
  window.
- `tests/` runs the renderer against a device that only hands out numbers.

The renderer relies on a few functions of `egui`, its `ahash` maps and
`bytemuck`. What it takes for granted of each stands in the contract of the
function that calls it, marked `#[verifier::external_body]`.
