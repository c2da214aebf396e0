//! Sound played from a buffer of samples.

pub mod wav_player;
