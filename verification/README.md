# infinitegfx-core (verified core)

A shader-based graphics library for wgpu, split in two:

- `src/` — the verified library (Verus). It holds the decisions of the
  library as plain values with contracts and laws:
  - `chain`: ping-pong routing of an effect chain (`ChainState`, render
    plans, which texture each processor reads and draws into, the blend of
    isolated chains, texture (re)allocation).
  - `node`: shader-node configuration and the slots of its bind groups.
  - `effects`: configurations of the effects that take no floating-point
    parameters.
  - `text`: glyph layout of a text (ids per cell, number of drawn cells).
  - `font`: the 8x8 bitmap font, the packing of glyph pictures, the font
    buffer upload.
  - `audio`: the sample-clock schedule for audio-driven modulators.
  - `address_mode`: texture addressing modes.
- `app/` — the GPU side (wgpu pipelines, buffers, render passes),
  floating-point parameters and modulators, built on the library.
- `tests/` — tests of the library.
