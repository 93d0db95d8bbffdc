# reims_vgpu_vulkan

Planning a Vulkan rendering of guest Metal work, as verified Rust.

Every module of `src/` decides something over plain values and states the
decision in its contracts:

- `bindings`, `descriptor`: which argument slots a draw has to write, and into
  which set that nothing still reads.
- `layout`, `barrier`: image layouts, queue-family ownership and memory
  dependencies.
- `pass`, `raster`, `blend`, `depth_stencil`: guest descriptors and encoder
  state as pipeline state and pass structure.
- `placement`, `buffer`, `image`: where bytes live, and the objects they become.
- `frames`, `pools`, `queues`: rings of frame slots and command buffers, and who
  may submit to which queue.
- `census`, `host`: which physical device is usable, and which one is bound.

The rest of `src/` is vocabulary (`guest`, `vulkan`, `pixel`, `texture`,
`memory`, `sampler`) and arithmetic (`bits`, `flags`, `ieee`, `ieee_sum`,
`tally`, `text`). Floating-point values travel as bit patterns.

Properties that span several functions are the public proof functions whose
names start with `law_`.

`app/` opens the loader, reads devices and writes plans into the API's own
structures. It is not verified, and it is where the environment is read.
