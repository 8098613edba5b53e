# dsp_rtlsdr_rs

A Verus-verified core for working with RTL-SDR dongles through `librtlsdr`.

- `src/` is the verified library: how `librtlsdr`/`libusb-1.0` return codes
  become errors (`error`, `sys`), the device handle and the decisions around
  opening and configuring a device (`device`), the sampler thread's state
  machine and its byte/spectrum/pixel plumbing (`sampler`), the waterfall
  viewer's key, resize and row handling (`viewer`), and capture buffer sizing
  (`capture`).
- `app/` holds the programs: the C bindings and the `Device` wrapper that
  makes each `librtlsdr` call, the `wavy-mcgee` SDL3 viewer with its sampler
  thread (FFT and floating-point scaling), and the `from_rtlsdr` capture tool.
- `tests/` runs the library on concrete values.
