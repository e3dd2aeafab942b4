# desktop_services

The computational core of a desktop streaming host, written in Verus:
H.264 bitstream framing (Annex-B, AVCC, `avcC` records), the pixel
geometry of RGBA → I420/NV12 conversion, the bookkeeping of the encode
workers (input/output pairing, frame timing, forced keyframes,
parameter-set injection), audio framing and channel conversion, the mock
capture services, the character tag filter and NTP timestamps.

- `src/` — the verified library; every public function carries a contract,
  and the laws of the library are public proof functions (`law_*`).
- `tests/` — tests of the library on concrete values.
- `app/` — the runtime around it (threads, channels, timers, serde types,
  floating-point pixel and audio arithmetic).

## What is not here

The services this library comes from also drive Windows and native
libraries. Those parts are absent, because they cannot be built or run in
this setting, and what they decide is in `src/`:

- the Windows COM / Media Foundation encoder plumbing (media-type setup,
  MFT events, sample buffers), Direct3D 11 preprocessing, GDI window
  capture and WASAPI loopback audio capture (`windows` crate);
- the ONNX models of the character identifier (face detection, embedding,
  tagging) and their image preprocessing (`ort`, `image`, `ndarray`);
- Opus audio encoding (`opus_sys`);
- the WebRTC audio and video tracks (`webrtc_rs`);
- libyuv colour conversion (`libyuv_sys`) and libvpx encoding (`vpx_rs`).
