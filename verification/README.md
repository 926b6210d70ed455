# Audio Isolation Mirror

A small Windows desktop utility for isolating a livestream's stereo audio to
the Left or Right channel, or mirroring one channel into both, instead of
always hearing both mixed together. This crate holds its logic as a library
that is verified with [Verus](https://github.com/verus-lang/verus).

- **Both** (default): normal stereo passthrough, unchanged.
- **Left**: only the Left channel plays; Right is muted.
- **Left + Mirror**: the Left channel plays out of both outputs.
- **Right** / **Right + Mirror**: same, mirrored the other direction.

## How audio gets in

```
Browser (livestream tab)
  -> routed via Windows per-app audio output -> "CABLE Input" (VB-Audio Virtual Cable)
  -> this app captures "CABLE Output" as its input device
  -> channel isolation / mirroring applied
  -> this app renders to your real headphones/speakers
```

Device and mode selections are remembered between runs (saved to
`%APPDATA%\audio-isolation-mirror\config.json`).

## Layout

`src/` is the library. Contracts speak of the views of its types; the laws
that relate several functions are the public proof functions named `law_*`.

| module | what it holds |
| --- | --- |
| `dsp` | channel modes and their gain matrix |
| `selection` | the two controls that stand for a mode |
| `handles` | lock-free handles from the UI to the audio callbacks |
| `pipeline` | cutting captured audio into chunks, and interleaving |
| `ring` | the ring buffer between the two audio threads |
| `engine` | what the capture and the playback callback do |
| `devices`, `sessions` | finding devices, and the processes that play |
| `routing` | what is read and written to route a process |
| `config` | the remembered settings |
| `app`, `startup`, `routes`, `update`, `display` | the state of the app, how it starts, routes, changes, and what is shown of it |
| `text` | strings |

Samples cross the library as the bit patterns of their floating-point values.

`app/` is the program around it: the window (`eframe`), the audio devices
(`cpal`), the resampler (`rubato`), the settings file (`serde_json`) and the
system's routing service (`windows`). `tests/` runs the library on concrete
values.

## What is trusted

Functions marked `external_body` call out of the library: two string functions
and the atomics of the standard library in `text` and `handles`, and the ring
buffer of the `ringbuf` crate in `ring`. The comment above each says what is claimed of
the call.
