# Lattice

Lattice is a native host for JavaScript games and apps written against
WebGPU, WebXR, Web Audio, IndexedDB and pointer/keyboard input. Scripts run in
an embedded JavaScript runtime and call into the host through ops. The host
draws with wgpu, runs XR sessions through OpenXR, plays sound through
web-audio-api and stores data in SQLite.

## Layout

- `src/` is the verified library, written in Verus. It holds every decision
  the host makes:
  - how descriptor strings map to GPU enums;
  - how render, compute and copy passes are planned, including which draws
    a call issues and which resources it looks up, in which order;
  - when a frame is skipped, presented or rendered, and which command
    buffers are submitted;
  - the XR session state machine and the frame-wait handshake;
  - input events, pointer lock and key tables;
  - audio ids and parameters;
  - shader text rewrites, image decode routing and checks;
  - module loading rules and SQL text;
  - the error texts scripts receive.

  Each public function carries a contract that Verus proves. Calls into the
  `regex`, `image` and `pathdiff` crates go through small trusted wrappers
  whose contracts are stated next to them.
- `tests/` runs the library on concrete values.
- `app/` is the program around the library: the JavaScript runtime, the
  window and event loop, wgpu, OpenXR and Vulkan, audio, SQLite and file
  I/O. It hands the library plain values and carries out what the library
  decides.
