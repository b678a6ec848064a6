use vstd::prelude::*;
use super::state::{
    change_state, elapsed_between, motion_between, State, StateResult, StateView, StatesConfig,
};
use super::state_recording_motion::RecordingMotion;
use super::state_watching::Watching;

verus! {

/// Recording through a pause in the motion.
pub struct RecordingIdle<F> {
    since: u128,
    collected_since: u128,
    frames: Vec<F>,
}

impl<F> View for RecordingIdle<F> {
    type V = StateView<F>;

    closed spec fn view(&self) -> StateView<F> {
        StateView::RecordingIdle {
            collected_since: self.collected_since as nat,
            since: self.since as nat,
            frames: self.frames@,
        }
    }
}

impl<F> RecordingIdle<F> {
    #[verifier::type_invariant]
    spec fn holds_a_frame(self) -> bool {
        self.frames@.len() >= 1
    }

    /// The pause that begins at `since` in a session that started at
    /// `collected_since` and has collected `collected_frames_total`.
    pub fn new(collected_since: u128, since: u128, collected_frames_total: Vec<F>) -> (state: Self)
        requires
            collected_frames_total@.len() >= 1,
        ensures
            state@ == (StateView::RecordingIdle {
                collected_since: collected_since as nat,
                since: since as nat,
                frames: collected_frames_total@,
            }),
    {
        Self { since, collected_since, frames: collected_frames_total }
    }
}

impl<F> RecordingIdle<F> {
    /// The number of frames buffered for the session.
    pub fn buffered(&self) -> (count: usize)
        ensures
            count == self@.buffer().len(),
    {
        self.frames.len()
    }

    /// The instant at which the pause began.
    pub fn since(&self) -> (since: u128)
        ensures
            self@ matches StateView::RecordingIdle { since: paused, .. } && paused == since,
    {
        self.since
    }

    /// The instant at which the session began.
    pub fn collected_since(&self) -> (since: u128)
        ensures
            self@ matches StateView::RecordingIdle { collected_since: begun, .. } && begun == since,
    {
        self.collected_since
    }

    /// The frames buffered for the session, oldest first.
    pub fn frames(&self) -> (frames: &Vec<F>)
        ensures
            frames@ == self@.buffer(),
    {
        &self.frames
    }

    /// The view of this state is a session in a pause.
    pub proof fn lemma_view_variant(self)
        ensures
            self@ is RecordingIdle,
    {
    }
}

impl<F: Clone> RecordingIdle<F> {
    /// Motion resumes: the frame joins the buffer and the session goes on
    /// from where it began.
    #[allow(unused_variables)]
    pub fn handle_changed(self, frame: F, config: &StatesConfig, now: u128) -> (result:
        StateResult<F>)
        ensures
            result@ == self@.changed(frame, frame, now as nat, config.policy()),
            result.state@.well_formed(),
    {
        proof {
            use_type_invariant(&self);
        }
        let RecordingIdle { since, collected_since, frames } = self;
        let mut frames = frames;
        frames.push(frame);
        change_state(State::RecordingMotion(RecordingMotion::new(collected_since, frames)))
    }

    /// The pause goes on: the frame joins the buffer. Once the pause has
    /// outlasted the idle gap the session ends; its frames leave as a clip
    /// where the motion lasted long enough and are dropped where it did not.
    pub fn handle_unchanged(self, frame: F, config: &StatesConfig, now: u128) -> (result:
        StateResult<F>)
        ensures
            result@ == self@.unchanged(frame, now as nat, config.policy()),
            result.state@.well_formed(),
    {
        proof {
            use_type_invariant(&self);
        }
        let RecordingIdle { since, collected_since, frames } = self;
        let mut frames = frames;
        frames.push(frame);
        if elapsed_between(since, now) > config.max_idle_gap {
            let clip = if motion_between(collected_since, since, now) >= config.min_video_duration {
                Some(frames)
            } else {
                None
            };
            StateResult { state: State::Watching(Watching::new()), clip }
        } else {
            change_state(State::RecordingIdle(RecordingIdle::new(collected_since, since, frames)))
        }
    }
}

} // verus!
