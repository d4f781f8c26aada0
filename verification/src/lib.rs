//! A small real-time stereo synthesizer engine.
//!
//! The signal path works in Q16.16 fixed point: one unit of amplitude or of
//! an angle argument is [`math::ONE`] = 65536. Two frequency- amplitude- and
//! pan-modulated sine voices are summed, mixed with a fixed-length delay
//! line, and produced one interleaved stereo sample per call. The audio
//! device itself is driven by a thin unverified shell around this crate.

pub mod error;
pub mod math;
mod delay;
mod engine;
mod input;
mod osc;
mod voice;

pub use delay::Delay;
pub use delay::DelayModel;
pub use delay::lemma_full_cycle_reads_first;
pub use engine::Synth;
pub use engine::SynthModel;
pub use engine::lemma_channel_alternation;
pub use engine::lemma_delay_tail_silent;
pub use engine::lemma_lfo_frame_rate;
pub use engine::voice_one_config;
pub use engine::voice_two_config;
pub use engine::DELAY_FRAMES;
pub use engine::DRY_GAIN;
pub use engine::WET_GAIN;
pub use error::Error;
pub use input::is_quit_command;
pub use input::read_line;
pub use input::trim_line_end;
pub use osc::Sine;
pub use osc::SineModel;
pub use osc::lemma_advance_accumulates;
pub use osc::phase_inc_spec;
pub use voice::Voice;
pub use voice::VoiceConfig;
pub use voice::VoiceModel;
