//! Real-time audio period bridge.
//!
//! A hardware audio backend delivers or consumes one fixed-size block of
//! samples (a period) per cycle, on its own schedule.  This crate holds the
//! part that sits between that backend and a consumer task: the period
//! buffer, the single-slot completion signal that tells the consumer a period
//! is ready, the frame stream that walks a completed period, and the device
//! session that owns all three.
//!
//! Everything here is plain data and decisions.  Talking to the backend and
//! resuming tasks is left to the caller, which feeds the session with events
//! and carries out what it hands back.

pub mod buffer;
pub mod error;
pub mod frame;
pub mod mask;
pub mod player;
pub mod session;
pub mod signal;
pub mod stream;
pub mod system;

pub use buffer::PeriodBuffer;
pub use error::AudioError;
pub use frame::{Frame, Mono16, Stereo16, Surround16};
pub use player::Player;
pub use session::{Backend, DeviceSession, Direction};
pub use signal::{CompletionSignal, PollOutcome, SignalState};
pub use stream::FrameStream;
pub use system::{AudioSample, DownmixPolicy, MicrophoneSystem, SpeakerSystem};
