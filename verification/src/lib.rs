//! Rust-side core of the Surge XT bindings: ownership of one engine
//! instance, and the layout of the audio blocks that the engine renders
//! together with their recording into per-channel sample streams.

pub mod block;
pub mod synth;

pub use block::{plot_points, Capture, BLOCK_SIZE, N_OUTPUTS};
pub use synth::SurgeSynthesizer;
