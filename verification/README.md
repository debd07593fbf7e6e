# Pao

A GPU-accelerated 2D renderer built on wgpu, with its rendering decisions
verified by Verus.

- `src/` is the verified library: the multisample level and the sample count
  a canvas renders with (`multisample.rs`), the canvas state — surface size,
  multisampled target, colour attachment of each frame, queue of render
  commands (`canvas.rs`, `commands.rs`) — the presentation choice of a bare
  render context (`context.rs`), the render feature trait (`features.rs`) and
  the wgpu items these name (`gpu.rs`).
- `app/` holds the GPU side: creating the instance, surface, adapter and
  device, allocating textures, recording and submitting frames. It follows
  the decisions of the library.
- `tests/` exercises the library on concrete values.
