//! Playback core of a native audio engine: the player's state machine, the
//! decoder's bookkeeping and the equalizer configuration.
pub mod decoder;
pub mod dsp;
pub mod player;

pub use decoder::{output_layout, Decoder, OutputLayout, TrackStatus};
pub use dsp::{eq_frequency, DspModel, DspPipeline, EqBand, EQ_BAND_COUNT};
pub use player::{next_fill_level, PlayerModel, PlayerState, UNITY_BITS};
