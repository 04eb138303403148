# surge_rs

Rust bindings for the Surge XT synthesizer, with the Rust-side logic verified
by Verus.

- `src/synth.rs`: `SurgeSynthesizer`, the owner of one engine instance. It
  holds the handle that the C++ bridge returned and can never hold the null
  handle.
- `src/block.rs`: the engine's output layout (blocks of 32 frames on two
  channels), `Capture`, which records rendered blocks into one sample stream
  per channel, and `plot_points`, which pairs each sample with its index.
  The laws on channel streams (length, position of each frame,
  concatenation of runs) are proved there.
- `app/`: the program that drives the engine through the C++ bridge and
  plots both channels with `textplots`. The engine's bindings are generated
  while the C++ engine is built, so `app/` only builds where that engine is.
