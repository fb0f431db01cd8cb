# mxfuse

MXF container primitives over a bmx core, with JavaScript and Python bindings.
Essence goes in and essence comes out; a frame is the KLV payload with the key
and length stripped.

The crate is split in two:

- `src/` is the library, verified with Verus: the read-ahead window and byte
  source model, the byte sink model and the loop that drains a write into it,
  the track and clip descriptions read from the shim's reports, the selection of
  tracks and the edit-unit read session, the track and clip settings handed to
  the shim on write (flags, labels, pixel layouts, names in C buffers, writer
  identity), the sizing of sample writes, error messages from the shim, and the
  conversions that the JavaScript and Python bindings make of their hosts'
  values.
- `app/` holds what Verus does not see: the shim's C interface and the
  callbacks it calls, files on disk, and the N-API and PyO3 bindings. It calls
  the library for every decision.

`tests/` exercises the library on concrete values.
