# runen_gpu

Backend-neutral GPU execution contracts with proofs: the structure of every normalized texture
format, render-state and attachment descriptors, bind-group layouts, and the decisions the
native wgpu realization makes (capability normalization, device requests, pipeline lowering).

Layout:

- `src/` is the verified library. Each module states its operations over spec functions and
  proves them; public proof functions state the properties that hold across operations.
  The wgpu calls that decide on raw flag bits (flag containment, sample counts, WebGPU
  compliance) sit behind a few trusted wrappers in `src/native.rs`. Device limits are held as
  plain integers in `src/limits.rs`, which compares them limit by limit as wgpu does.
- `tests/` exercises the library on concrete values, and checks the limit comparison and the
  wrapped calls against wgpu itself.
- `app/` is the native side: conversions between library values and wgpu types (texture
  formats, feature sets, the limit presets and reported limits), adapter and device queries,
  the guaranteed format features of a format, the device-request loop, and clear values given
  as floats.
