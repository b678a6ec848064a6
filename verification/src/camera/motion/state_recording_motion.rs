use vstd::prelude::*;
use super::state::{change_state, elapsed_between, State, StateResult, StateView, StatesConfig};
use super::state_recording_idle::RecordingIdle;

verus! {

/// Recording while motion is present.
pub struct RecordingMotion<F> {
    since: u128,
    frames: Vec<F>,
}

impl<F> View for RecordingMotion<F> {
    type V = StateView<F>;

    closed spec fn view(&self) -> StateView<F> {
        StateView::RecordingMotion { since: self.since as nat, frames: self.frames@ }
    }
}

impl<F> RecordingMotion<F> {
    #[verifier::type_invariant]
    spec fn holds_a_frame(self) -> bool {
        self.frames@.len() >= 1
    }

    /// A session begun at `since` that has collected `frames` so far.
    pub fn new(since: u128, frames: Vec<F>) -> (state: Self)
        requires
            frames@.len() >= 1,
        ensures
            state@ == (StateView::RecordingMotion { since: since as nat, frames: frames@ }),
    {
        Self { since, frames }
    }
}

impl<F> RecordingMotion<F> {
    /// The number of frames buffered for the session.
    pub fn buffered(&self) -> (count: usize)
        ensures
            count == self@.buffer().len(),
    {
        self.frames.len()
    }

    /// The instant at which the session began.
    pub fn since(&self) -> (since: u128)
        ensures
            self@ matches StateView::RecordingMotion { since: begun, .. } && begun == since,
    {
        self.since
    }

    /// The frames buffered for the session, oldest first.
    pub fn frames(&self) -> (frames: &Vec<F>)
        ensures
            frames@ == self@.buffer(),
    {
        &self.frames
    }

    /// The view of this state is a session in motion.
    pub proof fn lemma_view_variant(self)
        ensures
            self@ is RecordingMotion,
    {
    }
}

impl<F: Clone> RecordingMotion<F> {
    /// Motion goes on: the frame joins the session. A session older than the
    /// longest clip is cut: its frames leave as a clip and a copy of this
    /// frame opens the next session at `now`.
    pub fn handle_changed(self, frame: F, config: &StatesConfig, now: u128) -> (result:
        StateResult<F>)
        ensures
            exists|reopened: F| #[trigger]
                cloned(frame, reopened) && result@ == self@.changed(
                    frame,
                    reopened,
                    now as nat,
                    config.policy(),
                ),
            result.state@.well_formed(),
    {
        proof {
            use_type_invariant(&self);
        }
        let RecordingMotion { since, frames } = self;
        let mut frames = frames;
        if elapsed_between(since, now) > config.max_video_duration {
            let reopened = frame.clone();
            frames.push(frame);
            let mut fresh: Vec<F> = Vec::new();
            fresh.push(reopened);
            let result = StateResult {
                state: State::RecordingMotion(RecordingMotion::new(now, fresh)),
                clip: Some(frames),
            };
            assert(cloned(frame, reopened));
            assert(result@ == self@.changed(frame, reopened, now as nat, config.policy()));
            result
        } else {
            frames.push(frame);
            let result = change_state(State::RecordingMotion(RecordingMotion::new(since, frames)));
            assert(cloned(frame, frame));
            assert(result@ == self@.changed(frame, frame, now as nat, config.policy()));
            result
        }
    }

    /// Motion pauses: the session is carried into the idle state as it is,
    /// and the idle timer starts at `now`.
    #[allow(unused_variables)]
    pub fn handle_unchanged(self, frame: F, config: &StatesConfig, now: u128) -> (result:
        StateResult<F>)
        ensures
            result@ == self@.unchanged(frame, now as nat, config.policy()),
            result.state@.well_formed(),
    {
        proof {
            use_type_invariant(&self);
        }
        let RecordingMotion { since, frames } = self;
        change_state(State::RecordingIdle(RecordingIdle::new(since, now, frames)))
    }
}

} // verus!
