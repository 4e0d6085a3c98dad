# Yeye floating clock — verified core

The decisions of the Yeye floating clock desktop companion, written in Verus
and proved against their contracts.

- `src/settings.rs` — preferences: defaults, reading a saved file back over the
  defaults, and the normalisation applied before use (scale and opacity
  clamps, liquid-glass migration, city trimming, alarm limit), with its laws.
- `src/float_bits.rs` — the IEEE-754 order of binary64 values held as their
  bit encodings, and clamping on it.
- `src/text.rs` — Unicode white space, trimming, character prefixes, decimal
  rendering.
- `src/alarm.rs` — which alarm rings at a minute, once per minute.
- `src/placement.rs` — hiding at a screen edge, peeking, revealing, anchored
  resizing, the start-up position, the window layer, wall jumps, drag settling.
- `src/clock.rs` — wall-clock readings and the server clock offset from an
  HTTP `Date` header.
- `src/weather.rs` — the city asked for and the place a geocoding answer
  resolves to.
- `app/` — the Tauri application around the library: window system, settings
  file, network, tray, and the binary64 motion physics.
