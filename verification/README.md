# anasaizi

The verified core of the Anasaizi Vulkan engine, written in Verus.

- `src/` holds the decisions and data layouts that the renderer derives before it talks to
  the graphics driver, each with a contract proved by Verus: vertex buffer layouts, queue
  family and memory type selection, swapchain format, present mode and extent, shader
  feature flags and their specialization constants, shader defines, descriptor pool sizes
  and uniform buffer slots, render pass descriptions, the shader input builder, the debug
  messenger settings, version packing and the frame's event queue.
- `app/` is ordinary Rust around the library: it creates the instance, device, surface and
  swapchain with `ash`, runs the window's event loop with `winit`, and serializes the
  specialization constants with `bincode`, handing the library plain values.
- `tests/` runs the library on concrete values.
