pub mod motion;
pub mod state;
pub mod state_recording_idle;
pub mod state_recording_motion;
pub mod state_watching;
pub mod trace;
pub mod writer;
