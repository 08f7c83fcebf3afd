# engine

A small Vulkan engine and the game that drives it, with the engine's logic
verified by Verus.

- `src/` is the verified library: the frame clock and its fixed steps
  (`time`), bit sets and the keyboard/mouse state machine (`bitset`,
  `input`), mesh topology (`geometry`), the GPU and swapchain choices
  (`device`), the swapchain rebuild protocol and frame slots (`swapchain`),
  error values (`error`, `sdl_error`), the cached resource manager
  and its PNG/BMP loading (`resource`), memory placement and mapped copies (`memory`), decimal
  rendering (`text`), the window size (`window`) and the main loop's
  per-frame decision (`frame`).
- `app/` is the program around it: SDL windowing and events, the Vulkan
  instance, device, swapchain, allocator and renderer, the camera and the
  floating-point geometry, and the main loop. It hands the library plain
  values and acts on what comes back.
- `tests/` exercises the library on concrete values.

The renderer reads its compiled shader from `shaders/mesh.spv` at startup.
