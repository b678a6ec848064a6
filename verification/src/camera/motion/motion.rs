use vstd::prelude::*;
use super::state::{State, StateView, StatesConfig, StepView};
use super::state_watching::Watching;
use super::writer::Writer;
use crate::signals::Signal;
use crate::camera::matdiff::{any_qualifies, MatDiff};
use crate::cv::geometry::Rect;

verus! {

/// The motion detector: it keeps the frame that the next one is compared
/// with, turns contours into verdicts and runs the recording state machine.
pub struct MotionDetect<F> {
    diff: MatDiff,
    states_config: StatesConfig,
    prev_frame: Option<F>,
    state: State<F>,
}

impl<F> MotionDetect<F> {
    /// The frame that the next frame is to be compared with; none before
    /// the first frame.
    pub closed spec fn spec_baseline(self) -> Option<F> {
        self.prev_frame
    }

    /// The state of the recording state machine.
    pub closed spec fn spec_state(self) -> StateView<F> {
        self.state@
    }

    /// The comparator's settings.
    pub closed spec fn spec_diff(self) -> MatDiff {
        self.diff
    }

    /// The state machine's settings.
    pub closed spec fn spec_config(self) -> StatesConfig {
        self.states_config
    }

    /// The verdict on the next frame: unchanged where there is no frame to
    /// compare it with, and the comparator's verdict on `contours` otherwise.
    pub open spec fn verdict(self, contours: Seq<Rect>) -> bool {
        self.spec_baseline() is Some && any_qualifies(
            contours,
            self.spec_diff().contour_area_threshold as int,
        )
    }

    /// A detector that watches and has seen no frame.
    pub fn new(diff: MatDiff, states_config: StatesConfig) -> (detector: Self)
        ensures
            detector.spec_baseline() is None,
            detector.spec_state() == StateView::<F>::Watching,
            detector.spec_diff() == diff,
            detector.spec_config() == states_config,
    {
        Self { diff, states_config, prev_frame: None, state: State::Watching(Watching::new()) }
    }

    /// The frame that the next frame is to be compared with.
    pub fn baseline(&self) -> (frame: Option<&F>)
        ensures
            match frame {
                Some(kept) => self.spec_baseline() == Some(*kept),
                None => self.spec_baseline() is None,
            },
    {
        self.prev_frame.as_ref()
    }

    /// The comparator's settings, for the pipeline that finds the contours.
    pub fn diff(&self) -> (diff: &MatDiff)
        ensures
            *diff == self.spec_diff(),
    {
        &self.diff
    }

    /// Whether a session is live, in motion or in a pause.
    pub fn is_recording(&self) -> (recording: bool)
        ensures
            recording == !(self.spec_state() is Watching),
    {
        match &self.state {
            State::Watching(_) => false,
            State::RecordingMotion(session) => {
                proof {
                    session.lemma_view_variant();
                }
                true
            },
            State::RecordingIdle(session) => {
                proof {
                    session.lemma_view_variant();
                }
                true
            },
        }
    }

    /// The number of frames buffered for the live session.
    pub fn buffered(&self) -> (count: usize)
        ensures
            count == self.spec_state().buffer().len(),
    {
        match &self.state {
            State::Watching(_) => 0,
            State::RecordingMotion(session) => session.buffered(),
            State::RecordingIdle(session) => session.buffered(),
        }
    }

    /// The signals that the event bus has taken from this detector, oldest
    /// first.
    pub open spec fn announced(self) -> Seq<Signal> {
        self.spec_config().writer.announced()
    }

    /// Takes the outcome of writing the clip that the last frame cut. A
    /// written clip is announced once on the event bus, with the identifier
    /// that the clip writer returned, and the detector goes on as it is; `Ok`
    /// tells whether the bus took the signal. A failed write costs the
    /// episode: the detector watches again, buffers nothing, announces
    /// nothing and hands the error on.
    pub fn clip_written<E>(&mut self, saved: Result<String, E>) -> (outcome: Result<bool, E>)
        ensures
            final(self).spec_baseline() == old(self).spec_baseline(),
            final(self).spec_diff() == old(self).spec_diff(),
            final(self).spec_config().policy() == old(self).spec_config().policy(),
            final(self).announced() == Writer::spec_announced_after(
                old(self).announced(),
                saved,
                outcome,
            ),
            match saved {
                Ok(_) => outcome is Ok && final(self).spec_state() == old(self).spec_state(),
                Err(error) => outcome == Err::<bool, E>(error) && final(self).spec_state()
                    == StateView::<F>::Watching,
            },
    {
        let outcome = self.states_config.writer.save(saved);
        if outcome.is_err() {
            self.state = State::Watching(Watching::new());
        }
        outcome
    }
}

impl<F: Clone> MotionDetect<F> {
    /// Takes the next frame at the instant `now`, with the bounding boxes of
    /// all the contours that the image pipeline found between the kept frame
    /// and this one. A frame whose comparison failed is not handed in: the
    /// caller reports the failure and the detector stays as it is. The first
    /// frame has nothing to be compared with: its
    /// contours are not read and it counts as unchanged. The state machine
    /// is fed a copy of the frame with the verdict, and the frame becomes the
    /// one that the next is compared with. Returns the frames of the clip
    /// that this frame cut, where it cut one.
    pub fn new_frame(&mut self, frame: F, contours: &Vec<Rect>, now: u128) -> (clip: Option<Vec<F>>)
        ensures
            final(self).spec_baseline() == Some(frame),
            final(self).spec_diff() == old(self).spec_diff(),
            final(self).spec_config() == old(self).spec_config(),
            final(self).spec_state().well_formed(),
            exists|fed: F, reopened: F|
                {
                    &&& cloned(frame, fed)
                    &&& #[trigger] cloned(fed, reopened)
                    &&& (StepView {
                        state: final(self).spec_state(),
                        clip: match clip {
                            Some(frames) => Some(frames@),
                            None => None,
                        },
                    }) == old(self).spec_state().step(
                        fed,
                        reopened,
                        old(self).verdict(contours@),
                        now as nat,
                        old(self).spec_config().policy(),
                    )
                },
    {
        let changed = match &self.prev_frame {
            Some(_) => self.diff.diff(contours),
            None => false,
        };
        let fed = frame.clone();
        let mut current = State::Watching(Watching::new());
        std::mem::swap(&mut self.state, &mut current);
        let result = current.handle(fed, &self.states_config, now, changed);
        self.state = result.state;
        self.prev_frame = Some(frame);
        result.clip
    }
}

} // verus!
