//! Motion-lifecycle engine: verdicts on frame differences, the recording
//! state machine, clip planning and the event bus that announces clips.
//!
//! Frames are opaque to the engine: it buffers, copies and hands them on.
//! Instants and durations are numbers of nanoseconds; the state machine is
//! told the instant of every frame and reads no clock itself, so that the
//! same stream of frames, verdicts and instants always gives the same run.
//! What only the outside can do (finding contours in images, encoding a
//! clip) is asked of the caller between the engine's steps.

pub mod bus;
pub mod camera;
pub mod channel;
pub mod clock;
pub mod config;
pub mod cv;
pub mod pattern;
pub mod signals;
pub mod telegram;
