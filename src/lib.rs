//! Signal composition for a sound-synthesis engine: blocks that pair a
//! generator with a modifier, sounds that chain blocks with gain staging and
//! mute / pause, and a channel that mixes registered sounds into a buffer.
//!
//! Samples and gains are fixed-point numbers (see [`sample`]): every value is
//! an `i64` counting units of `1 / ONE`, and arithmetic saturates at the
//! bounds of `i64`.

pub mod sample;
pub mod unit;
pub mod block;
pub mod sound;
pub mod channel;

pub use sample::{Sample, ONE};
pub use block::{BaeBlock, BlockModel, Interactor};
pub use channel::{BaeChannel, ChannelModel};
pub use sample::{sample_add, sample_mul};
pub use sound::{BaeSound, SoundModel};
pub use unit::{Generator, Modifier, OnePole, Passthrough, Wavetable, Zero};
