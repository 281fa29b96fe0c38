# pam_rustface

A Linux PAM module that authenticates users by face recognition with an IR
camera, written as a Verus-verified library and a thin Rust shell.

## Layout

- `src/` — the verified library
  - `auth.rs` — the decisions of one authentication as a state machine
    (`AuthFlow::start`, `AuthFlow::step`), with its laws: only `PAM_SUCCESS`
    or `PAM_IGNORE` is ever returned, success needs a matching face, at most
    `MAX_FRAMES` frames are captured, the uptime guard, and termination.
  - `enroll.rs` — the decisions of face enrollment (`EnrollFlow`): at most
    `DETECT_RETRIES` warmed-up captures, and a save only after an embedding.
  - `config.rs` — the module's `key=value` arguments (default device
    `/dev/video2`; `device=auto` scans for an IR camera).
  - `storage.rs` — the embedding file format (`[u32 LE N][N x 32-bit LE]`),
    the per-user file paths, and the safe-owner check for `chown`; with the
    write/read round-trip laws.
  - `camera.rs` — the grayscale FourCC test and the probing order of
    `/dev/video*`.
  - `face.rs` — inference device choice and the clamping of detected faces
    to the frame.
  - `error.rs` — error types and their messages.
  - `text.rs` — decimal numbers, `u64` parsing, prefixes, lexicographic order.
  - `pam.rs` — PAM codes and the opaque handle type.
- `app/` — the PAM entry points, V4L2 capture, the SeetaFace and ONNX models,
  floating-point embedding arithmetic, file I/O and the command-line tools.
- `tests/` — tests of the library.
