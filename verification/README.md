# xr_passthrough

Camera passthrough for the Valve Index in OpenXR applications on Linux: an API
layer that replaces passthrough layers by the image of the headset's cameras, and
a small application that shows a cube over it.

- `src/` is the library, verified with Verus. It decides and computes, from plain
  values to plain values; where a decision alternates with outside work it is a
  state machine that says what to do next and is told how that went.
  - `api_layer`: what the layer does to sessions and frames.
  - `pipeline`: how a camera frame becomes an image.
  - `config`, `signature`: configuration, the signed pipeline cache, the splash
    image.
  - `device`, `steam`, `headset`: finding the camera and its calibration.
  - `setup`, `setup_steps`, `hello`: setting an application up, and the application
    itself.
  - `vulkan`, `xr`, `bytes`: what the others share.
- `app/` is the program around the library: files, devices, the OpenXR runtime,
  the graphics card, and everything that computes with floating point numbers.
- `tests/` run the library, with the outside crates that it calls.

Calls into outside crates are few, and each stands in a function marked
`external_body` whose comment says what is taken for granted of it: in
`signature` (ed25519), `config` (PNG), `headset` (zlib), `vulkan` (the table of
formats) and `steam` (lower case).
