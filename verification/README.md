# glutin_unix

The Unix platform layer of a GL context library, written in Verus.

A context on Unix runs on one of four backends: X11, Wayland, KMS/DRM or
OSMesa. The library holds, for each context, what its backend reported
(handle, EGL display, API, pixel format, surface size, buffer age, damage
support), and for each thread which context is current on it, and proves the
rules of the layer:

- `src/context.rs`: the `Context` type, the sharing check
  (`Context::is_compatible`), the reads that go to the backend of the
  context, the switches of the thread's current context, which take the
  driver's answer, and the calls a context makes to its backend
  (`swap_buffers`, `swap_buffers_with_damage`, `get_proc_address`), stated as
  `BackendCall` values; `finish_swap` records what a swap reported.
- `src/creation.rs`: the planning of a new context: which backend creates it,
  which backend context it shares with, and its size; `Context::from_created`
  wraps what the backend made.
- `src/laws.rs`: the properties that span several functions.
- `app/`: the platform side: reading the backend from winit, and the pointer
  types of the EGL and GLX bindings.
