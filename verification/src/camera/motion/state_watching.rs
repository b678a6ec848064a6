use vstd::prelude::*;
use super::state::{change_state, State, StateResult, StateView, StatesConfig};
use super::state_recording_motion::RecordingMotion;

verus! {

/// The quiet state: no session is live and nothing is buffered.
pub struct Watching;

impl Watching {
    pub fn new() -> (state: Self)
        ensures
            state == Watching,
    {
        Watching {  }
    }

    /// Motion begins: a session starts at `now` with this frame alone.
    #[allow(unused_variables)]
    pub fn handle_changed<F: Clone>(self, frame: F, config: &StatesConfig, now: u128) -> (result:
        StateResult<F>)
        ensures
            result@ == StateView::<F>::Watching.changed(frame, frame, now as nat, config.policy()),
            result.state@.well_formed(),
    {
        let mut frames: Vec<F> = Vec::new();
        frames.push(frame);
        change_state(State::RecordingMotion(RecordingMotion::new(now, frames)))
    }

    /// Nothing moves: the frame is dropped and the machine keeps watching.
    #[allow(unused_variables)]
    pub fn handle_unchanged<F: Clone>(self, frame: F, config: &StatesConfig, now: u128) -> (result:
        StateResult<F>)
        ensures
            result@ == StateView::<F>::Watching.unchanged(frame, now as nat, config.policy()),
            result.state@.well_formed(),
    {
        change_state(State::Watching(self))
    }
}

} // verus!
