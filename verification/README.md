# WayEyes

`xeyes` for Wayland: two eyes that follow the pointer.

The crate is split in two:

- `src/` is the verified library (Verus). It holds everything WayEyes
  decides or computes on plain values:
  - `cli`: the command-line options and the window size and backend they imply;
  - `cursor`: the cursor model that calibrates the surface origin from a
    global and a local sample of the same pointer position, generic in the
    point type;
  - `mapping`: exact integer mapping of cursor samples from capture buffers
    and ScreenCast video streams into global compositor coordinates;
  - `wayland`: setup decisions of the direct Wayland cursor backend (which
    globals to bind and at which version, which per-output objects and cursor
    sessions to create, and why setup fails);
  - `portal`: the ScreenCast portal handshake as a state machine;
  - `backend`: backend events, how the window applies them, and the automatic
    backend selection.
- `app/` is the program around it: GTK window and cairo drawing, the
  floating-point eye geometry, clap, the Wayland and portal/PipeWire I/O and
  the backend threads. It performs the requests the library decides on.

Tests under `tests/` run the library on concrete values.
