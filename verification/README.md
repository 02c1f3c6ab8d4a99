# OCvoice Audio Router

The desktop companion for OCvoice. It plays translated sound on the channel
pairs of multi-channel audio interfaces, and supervises the engine that sends
video with translated sound to YouTube broadcasts. Its behaviour is stated in
contracts and proved with [Verus](https://github.com/verus-lang/verus).

## Layout

- `src/` is the verified library. It decides and computes, and does no I/O.
  - `mixer`, `router`, `playback`, `decoder`: clips, devices, playback requests
    and the samples of a decoded stream.
  - `supervisor`, `supervisor_laws`, `engine_stop`, `pairing`, `config`, `tail`:
    running, watching, restarting, stopping and pairing the restream engine.
  - `http`: who may use which route, and what is answered.
  - `update`, `tray`, `autostart`: releases, the menu, starting at login.
  - `text`: the text operations that the others share.
- `app/` is the program around it: devices, streams, processes, files, the HTTP
  server and the menu. It performs the actions that the library returns and
  reports back what happened.
- `tests/` runs the library on concrete values.

Properties of the whole are public proof functions whose names start with
`law_`.

## What is trusted

- `semver::Version::parse` and the order of `semver::Version` (`update`).
- `String::from_utf8` and `String::from_utf8_lossy` (`pairing`).
- `std::path::PathBuf` and `std::string::FromUtf8Error` are opaque to the proofs.

Audio samples are copied and never computed with in `src/`, so that their type
is a parameter there; the program uses 32-bit floating point.
