# fate

The verified core of the Fate renderer (a Vulkan glTF viewer and a CPU ray
tracer). `src/` is checked with Verus; `app/` is the thin front end that
converts glTF, image, winit and Vulkan values into the library's plain types
and holds the floating-point code.

- `config` – window and environment configuration with their defaults.
- `aabb`, `order` – `partial_min` / `partial_max` over partially ordered values.
- `texture` – expansion of glTF pixel formats to RGBA8, sRGB image selection.
- `vulkan` – image layout transition barriers, mipmap blit chain, format selection.
- `image`, `source` – RGB images, texel lookup, embedded (data URI / buffer view) images.
- `input` – shortcut and mouse-button state machines.
- `mikktspace`, `model`, `bvh`, `gui`, `material`, `frame` – mesh, material,
  BVH and per-frame decisions of the viewer and the ray tracer.
