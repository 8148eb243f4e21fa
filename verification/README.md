# show_image

The CPU-side logic of an image window library, verified with Verus.

- `src/image.rs`: pixel formats, image layouts, and the conversion of every
  supported format to packed RGBA8 (with unpremultiplication of alpha).
- `src/mipmap.rs`: the number of mip levels, 2x2 box downsampling, and the
  full mip chain of an image.
- `src/mouse.rs`: mouse buttons, pressed-button sets, and the per-window,
  per-device cache of pointer positions and pressed buttons.
- `src/event.rs`: window and device events as the windowing system reports
  them (as plain values), the library's own events, and the mapping between
  them.
- `src/outside.rs`: the windowing-system and vector types that events carry
  through unchanged.
- `app/lib.rs`: the glue to `winit` (turning its events into plain values)
  and to `wgpu` (uploading the mip chain as a texture).
