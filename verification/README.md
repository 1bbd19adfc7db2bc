# camera_engine

A camera engine for Windows whose decisions are verified with Verus.

- `src/` is the verified library: the frame-handle queue between the capture
  callback and the renderer (`frame_queue`), the choice of the color camera
  (`capture`), the render session that tracks every shared-texture handle it
  takes until it is closed (`render`), the error types, and the lifecycles of
  the two controllers (`engine`, `monolithic`). `laws` states the properties
  that span several operations.
- `app/` performs the Media Foundation, Direct3D 11 and FFI calls and follows
  the library's decisions.
- `tests/` runs the library on concrete values.
