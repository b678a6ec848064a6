use vstd::prelude::*;
use super::state_recording_idle::RecordingIdle;
use super::state_recording_motion::RecordingMotion;
use super::state_watching::Watching;
use super::writer::Writer;

verus! {

/// Nanoseconds in one second.
pub const NANOS_PER_SECOND: u128 = 1_000_000_000;

/// Timing settings as they are read from a configuration file, in whole seconds.
pub struct StatesConfigConfig {
    pub min_video_duration: u64,
    pub max_video_duration: u64,
    pub max_idle_gap: u64,
}

impl Default for StatesConfigConfig {
    fn default() -> (config: Self)
        ensures
            config.min_video_duration == 2,
            config.max_video_duration == 15,
            config.max_idle_gap == 3,
    {
        StatesConfigConfig { min_video_duration: 2, max_video_duration: 15, max_idle_gap: 3 }
    }
}

/// The three durations that rule a recording, as mathematical numbers of
/// nanoseconds.
pub struct TimingPolicy {
    /// A clip whose motion lasted less than this is discarded.
    pub min_video_duration: nat,
    /// A session older than this is cut into a clip while motion goes on.
    pub max_video_duration: nat,
    /// Motion may be absent for this long before the session is closed.
    pub max_idle_gap: nat,
}

/// What the state machine runs under: the announcer of written clips and
/// the timing policy, in nanoseconds.
pub struct StatesConfig {
    pub writer: Writer,
    pub min_video_duration: u128,
    pub max_video_duration: u128,
    pub max_idle_gap: u128,
}

impl StatesConfig {
    pub open spec fn policy(self) -> TimingPolicy {
        TimingPolicy {
            min_video_duration: self.min_video_duration as nat,
            max_video_duration: self.max_video_duration as nat,
            max_idle_gap: self.max_idle_gap as nat,
        }
    }

    /// The configuration that announces through `writer` and keeps the
    /// durations of `config`, which are in seconds.
    pub fn new(writer: Writer, config: &StatesConfigConfig) -> (policy: Self)
        ensures
            policy.writer == writer,
            policy.min_video_duration == config.min_video_duration * NANOS_PER_SECOND,
            policy.max_video_duration == config.max_video_duration * NANOS_PER_SECOND,
            policy.max_idle_gap == config.max_idle_gap * NANOS_PER_SECOND,
    {
        StatesConfig {
            writer,
            min_video_duration: seconds_to_nanos(config.min_video_duration),
            max_video_duration: seconds_to_nanos(config.max_video_duration),
            max_idle_gap: seconds_to_nanos(config.max_idle_gap),
        }
    }
}

/// Whole seconds as nanoseconds; every `u64` count of seconds fits.
pub fn seconds_to_nanos(seconds: u64) -> (nanos: u128)
    ensures
        nanos == seconds * NANOS_PER_SECOND,
{
    assert(seconds * 1_000_000_000 <= 0xffff_ffff_ffff_ffff * 1_000_000_000) by (nonlinear_arith)
        requires
            seconds <= 0xffff_ffff_ffff_ffff,
    ;
    let wide: u128 = seconds as u128;
    wide * NANOS_PER_SECOND
}

/// Time that has passed at `now` since `since`; zero where the clock reads
/// earlier than `since`.
pub open spec fn elapsed(since: nat, now: nat) -> nat {
    if now >= since {
        (now - since) as nat
    } else {
        0
    }
}

/// The part of a session during which motion was present: the session's age
/// less the age of the idle episode that ends it.
pub open spec fn motion_duration(collected_since: nat, idle_since: nat, now: nat) -> nat {
    let total = elapsed(collected_since, now);
    let idle = elapsed(idle_since, now);
    if total >= idle {
        (total - idle) as nat
    } else {
        0
    }
}

/// Executable form of [`elapsed`].
pub fn elapsed_between(since: u128, now: u128) -> (age: u128)
    ensures
        age == elapsed(since as nat, now as nat),
{
    if now >= since {
        now - since
    } else {
        0
    }
}

/// Executable form of [`motion_duration`].
pub fn motion_between(collected_since: u128, idle_since: u128, now: u128) -> (motion: u128)
    ensures
        motion == motion_duration(collected_since as nat, idle_since as nat, now as nat),
{
    let total = elapsed_between(collected_since, now);
    let idle = elapsed_between(idle_since, now);
    if total >= idle {
        total - idle
    } else {
        0
    }
}

/// What a state of the machine holds, as mathematics: the session's frames
/// in arrival order and the instants that bound it.
#[verifier::ext_equal]
pub enum StateView<F> {
    /// Quiet: no session is live.
    Watching,
    /// Motion is present; `frames` were collected since `since`.
    RecordingMotion { since: nat, frames: Seq<F> },
    /// Motion has been absent since `since`, in a session begun at
    /// `collected_since`.
    RecordingIdle { collected_since: nat, since: nat, frames: Seq<F> },
}

/// The outcome of one frame, as mathematics: the state that follows and the
/// clip that was cut, if one was.
#[verifier::ext_equal]
pub struct StepView<F> {
    pub state: StateView<F>,
    pub clip: Option<Seq<F>>,
}

impl<F> StateView<F> {
    /// A live session holds at least one frame.
    pub open spec fn well_formed(self) -> bool {
        match self {
            StateView::Watching => true,
            StateView::RecordingMotion { frames, .. } => frames.len() >= 1,
            StateView::RecordingIdle { frames, .. } => frames.len() >= 1,
        }
    }

    /// The frames buffered for the live session; none while watching.
    pub open spec fn buffer(self) -> Seq<F> {
        match self {
            StateView::Watching => Seq::empty(),
            StateView::RecordingMotion { frames, .. } => frames,
            StateView::RecordingIdle { frames, .. } => frames,
        }
    }

    /// Whether a frame with motion at `now` cuts the running session into a
    /// clip because the session has outlived the longest clip.
    pub open spec fn cuts(self, now: nat, policy: TimingPolicy) -> bool {
        self matches StateView::RecordingMotion { since, .. } && elapsed(since, now)
            > policy.max_video_duration
    }

    /// Whether a frame without motion at `now` closes the session because
    /// motion has been absent for longer than the idle gap.
    pub open spec fn closes(self, now: nat, policy: TimingPolicy) -> bool {
        self matches StateView::RecordingIdle { since, .. } && elapsed(since, now)
            > policy.max_idle_gap
    }

    /// The outcome of a frame in which motion was detected. `reopened` is the
    /// copy of the frame that opens the next session where this one is cut.
    pub open spec fn changed(self, frame: F, reopened: F, now: nat, policy: TimingPolicy)
        -> StepView<F> {
        match self {
            StateView::Watching => StepView {
                state: StateView::RecordingMotion { since: now, frames: seq![frame] },
                clip: None,
            },
            StateView::RecordingMotion { since, frames } => {
                if elapsed(since, now) > policy.max_video_duration {
                    StepView {
                        state: StateView::RecordingMotion { since: now, frames: seq![reopened] },
                        clip: Some(frames.push(frame)),
                    }
                } else {
                    StepView {
                        state: StateView::RecordingMotion { since, frames: frames.push(frame) },
                        clip: None,
                    }
                }
            },
            StateView::RecordingIdle { collected_since, since, frames } => StepView {
                state: StateView::RecordingMotion {
                    since: collected_since,
                    frames: frames.push(frame),
                },
                clip: None,
            },
        }
    }

    /// The outcome of a frame in which no motion was detected.
    pub open spec fn unchanged(self, frame: F, now: nat, policy: TimingPolicy) -> StepView<F> {
        match self {
            StateView::Watching => StepView { state: StateView::Watching, clip: None },
            StateView::RecordingMotion { since, frames } => StepView {
                state: StateView::RecordingIdle { collected_since: since, since: now, frames },
                clip: None,
            },
            StateView::RecordingIdle { collected_since, since, frames } => {
                if elapsed(since, now) > policy.max_idle_gap {
                    StepView {
                        state: StateView::Watching,
                        clip: if motion_duration(collected_since, since, now)
                            >= policy.min_video_duration {
                            Some(frames.push(frame))
                        } else {
                            None
                        },
                    }
                } else {
                    StepView {
                        state: StateView::RecordingIdle {
                            collected_since,
                            since,
                            frames: frames.push(frame),
                        },
                        clip: None,
                    }
                }
            },
        }
    }

    /// The outcome of one frame with its verdict.
    pub open spec fn step(
        self,
        frame: F,
        reopened: F,
        changed: bool,
        now: nat,
        policy: TimingPolicy,
    ) -> StepView<F> {
        if changed {
            self.changed(frame, reopened, now, policy)
        } else {
            self.unchanged(frame, now, policy)
        }
    }
}

/// The state of the motion lifecycle: quiet, recording with motion present,
/// or recording through a pause.
pub enum State<F> {
    Watching(Watching),
    RecordingMotion(RecordingMotion<F>),
    RecordingIdle(RecordingIdle<F>),
}

/// The state that follows a frame, together with the frames of the clip that
/// the frame finished, where it finished one.
pub struct StateResult<F> {
    pub state: State<F>,
    pub clip: Option<Vec<F>>,
}

impl<F> View for State<F> {
    type V = StateView<F>;

    open spec fn view(&self) -> StateView<F> {
        match *self {
            State::Watching(_) => StateView::Watching,
            State::RecordingMotion(s) => s@,
            State::RecordingIdle(s) => s@,
        }
    }
}

impl<F> View for StateResult<F> {
    type V = StepView<F>;

    open spec fn view(&self) -> StepView<F> {
        StepView {
            state: self.state@,
            clip: match self.clip {
                Some(frames) => Some(frames@),
                None => None,
            },
        }
    }
}

/// Continues in `state` without a clip.
pub fn change_state<F>(state: State<F>) -> (result: StateResult<F>)
    ensures
        result.state == state,
        result.clip is None,
{
    StateResult { state, clip: None }
}

impl<F: Clone> State<F> {
    /// Feeds one frame with the comparator's verdict to the machine.
    pub fn handle(self, frame: F, config: &StatesConfig, now: u128, changed: bool) -> (result:
        StateResult<F>)
        ensures
            exists|reopened: F| #[trigger]
                cloned(frame, reopened) && result@ == self@.step(
                    frame,
                    reopened,
                    changed,
                    now as nat,
                    config.policy(),
                ),
            result.state@.well_formed(),
    {
        if changed {
            self.handle_changed(frame, config, now)
        } else {
            assert(cloned(frame, frame));
            self.handle_unchanged(frame, config, now)
        }
    }

    /// Feeds one frame in which motion was detected.
    pub fn handle_changed(self, frame: F, config: &StatesConfig, now: u128) -> (result:
        StateResult<F>)
        ensures
            exists|reopened: F| #[trigger]
                cloned(frame, reopened) && result@ == self@.changed(
                    frame,
                    reopened,
                    now as nat,
                    config.policy(),
                ),
            result.state@.well_formed(),
    {
        assert(cloned(frame, frame));
        match self {
            State::Watching(state) => state.handle_changed(frame, config, now),
            State::RecordingMotion(state) => state.handle_changed(frame, config, now),
            State::RecordingIdle(state) => state.handle_changed(frame, config, now),
        }
    }

    /// Feeds one frame in which no motion was detected.
    pub fn handle_unchanged(self, frame: F, config: &StatesConfig, now: u128) -> (result:
        StateResult<F>)
        ensures
            result@ == self@.unchanged(frame, now as nat, config.policy()),
            result.state@.well_formed(),
    {
        match self {
            State::Watching(state) => state.handle_unchanged(frame, config, now),
            State::RecordingMotion(state) => state.handle_unchanged(frame, config, now),
            State::RecordingIdle(state) => state.handle_unchanged(frame, config, now),
        }
    }
}

} // verus!
