# webgpu_demo

A WebGPU demo that computes an animated image in a compute shader and draws
it to a desktop window (winit, Vulkan/Metal/DX12) or a browser canvas
(WebAssembly), on wgpu.

- `src/` is the verified library: the decisions the renderer makes, each
  with a Verus contract.
  - `dispatch`: workgroup counts that cover every pixel exactly.
  - `surface`: choice of the surface format (first sRGB one) and alpha mode,
    and how a resize changes the surface settings (sizes with a zero side
    are ignored); after any sequence of resizes the surface, the storage
    texture and the dispatch all follow the latest drawable size.
  - `limits`: the device limits requested, and proof that they admit both
    pipelines.
  - `bindings`: the bind group layouts, the bind groups, the storage
    texture, sampler and parameters buffer they bind, and proof that each
    group matches its layout: the texture has the format the compute layout
    declares and the usages both pipelines need, the buffer is a uniform
    buffer, the sampler filters.
  - `pipelines`: entry points, triangle-strip topology, replace blending,
    and a colour target in the surface's format, which no resize changes.
  - `frame`: what a frame does with the surface's answer.
  - `lifecycle`: the desktop application's reactions to the event loop.
- `app/` is the program around it: GPU objects, window and canvas, the event
  loop, the shaders, and the frame parameters (floating-point values).
- `tests/` runs the library on concrete values.
