//! Runs of the state machine over a stream of frames, and what holds of them.

use vstd::prelude::*;
use super::state::{elapsed, motion_duration, StateView, StepView, TimingPolicy};

verus! {

/// One frame as the machine receives it.
pub struct Input<F> {
    pub frame: F,
    /// The copy of `frame` that opens the next session where the frame cuts
    /// the running one.
    pub reopened: F,
    pub changed: bool,
    pub now: nat,
}

/// A state with its frames forgotten: which state it is, the instants that
/// bound the session, and how many frames are buffered.
pub enum Outline {
    Watching,
    RecordingMotion { since: nat, buffered: nat },
    RecordingIdle { collected_since: nat, since: nat, buffered: nat },
}

/// One step of the machine with the frames forgotten: the outline that
/// follows and the length of the clip that was cut, if one was.
pub struct OutlineStep {
    pub state: Outline,
    pub clip: Option<nat>,
}

impl Outline {
    /// The machine on outlines: it reads the verdict and the clock alone.
    pub open spec fn step(self, changed: bool, now: nat, policy: TimingPolicy) -> OutlineStep {
        match self {
            Outline::Watching => if changed {
                OutlineStep {
                    state: Outline::RecordingMotion { since: now, buffered: 1 },
                    clip: None,
                }
            } else {
                OutlineStep { state: Outline::Watching, clip: None }
            },
            Outline::RecordingMotion { since, buffered } => if !changed {
                OutlineStep {
                    state: Outline::RecordingIdle { collected_since: since, since: now, buffered },
                    clip: None,
                }
            } else if elapsed(since, now) > policy.max_video_duration {
                OutlineStep {
                    state: Outline::RecordingMotion { since: now, buffered: 1 },
                    clip: Some(buffered + 1),
                }
            } else {
                OutlineStep {
                    state: Outline::RecordingMotion { since, buffered: buffered + 1 },
                    clip: None,
                }
            },
            Outline::RecordingIdle { collected_since, since, buffered } => if changed {
                OutlineStep {
                    state: Outline::RecordingMotion {
                        since: collected_since,
                        buffered: buffered + 1,
                    },
                    clip: None,
                }
            } else if elapsed(since, now) > policy.max_idle_gap {
                OutlineStep {
                    state: Outline::Watching,
                    clip: if motion_duration(collected_since, since, now)
                        >= policy.min_video_duration {
                        Some(buffered + 1)
                    } else {
                        None
                    },
                }
            } else {
                OutlineStep {
                    state: Outline::RecordingIdle {
                        collected_since,
                        since,
                        buffered: buffered + 1,
                    },
                    clip: None,
                }
            },
        }
    }

    /// The outline reached from `self` by the verdicts and clock readings of
    /// `inputs`, in order.
    pub open spec fn run<F>(self, inputs: Seq<Input<F>>, policy: TimingPolicy) -> Outline
        decreases inputs.len(),
    {
        if inputs.len() == 0 {
            self
        } else {
            let last = inputs.last();
            self.run(inputs.drop_last(), policy).step(last.changed, last.now, policy).state
        }
    }

    /// The lengths of the clips cut on the way, in order.
    pub open spec fn run_clips<F>(self, inputs: Seq<Input<F>>, policy: TimingPolicy) -> Seq<nat>
        decreases inputs.len(),
    {
        if inputs.len() == 0 {
            Seq::empty()
        } else {
            let last = inputs.last();
            let before = self.run_clips(inputs.drop_last(), policy);
            match self.run(inputs.drop_last(), policy).step(last.changed, last.now, policy).clip {
                Some(length) => before.push(length),
                None => before,
            }
        }
    }
}

impl<F> StateView<F> {
    /// The state with its frames forgotten.
    pub open spec fn outline(self) -> Outline {
        match self {
            StateView::Watching => Outline::Watching,
            StateView::RecordingMotion { since, frames } => Outline::RecordingMotion {
                since,
                buffered: frames.len(),
            },
            StateView::RecordingIdle { collected_since, since, frames } => Outline::RecordingIdle {
                collected_since,
                since,
                buffered: frames.len(),
            },
        }
    }

    /// The state reached from `self` by feeding `inputs` in order.
    pub open spec fn run(self, inputs: Seq<Input<F>>, policy: TimingPolicy) -> StateView<F>
        decreases inputs.len(),
    {
        if inputs.len() == 0 {
            self
        } else {
            let last = inputs.last();
            self.run(inputs.drop_last(), policy).step(
                last.frame,
                last.reopened,
                last.changed,
                last.now,
                policy,
            ).state
        }
    }

    /// The clips cut on the way, in order.
    pub open spec fn run_clips(self, inputs: Seq<Input<F>>, policy: TimingPolicy) -> Seq<Seq<F>>
        decreases inputs.len(),
    {
        if inputs.len() == 0 {
            Seq::empty()
        } else {
            let last = inputs.last();
            let before = self.run_clips(inputs.drop_last(), policy);
            match self.run(inputs.drop_last(), policy).step(
                last.frame,
                last.reopened,
                last.changed,
                last.now,
                policy,
            ).clip {
                Some(clip) => before.push(clip),
                None => before,
            }
        }
    }
}

/// The frames of `inputs`, in order.
pub open spec fn frames_of<F>(inputs: Seq<Input<F>>) -> Seq<F> {
    Seq::new(inputs.len(), |i: int| inputs[i].frame)
}

/// The lengths of `clips`, in order.
pub open spec fn lengths_of<F>(clips: Seq<Seq<F>>) -> Seq<nat> {
    Seq::new(clips.len(), |i: int| clips[i].len())
}

/// Two streams that carry the same verdicts at the same instants, whatever
/// their frames.
pub open spec fn same_signals<F>(first: Seq<Input<F>>, second: Seq<Input<F>>) -> bool {
    &&& first.len() == second.len()
    &&& forall|i: int|
        0 <= i < first.len() ==> (#[trigger] first[i]).changed == second[i].changed && first[i].now
            == second[i].now
}

/// A live session holds at least one frame after every step, and a clip is
/// never empty.
pub proof fn lemma_session_never_empty<F>(
    state: StateView<F>,
    frame: F,
    reopened: F,
    changed: bool,
    now: nat,
    policy: TimingPolicy,
)
    requires
        state.well_formed(),
    ensures
        state.step(frame, reopened, changed, now, policy).state.well_formed(),
        state.step(frame, reopened, changed, now, policy).clip matches Some(clip) ==> clip.len()
            >= 1,
{
}

/// While the clock does not run backwards, the motion of a session that is
/// closed is the time from its start to the start of the pause that ends it.
pub proof fn lemma_motion_is_session_less_pause(collected_since: nat, idle_since: nat, now: nat)
    requires
        collected_since <= idle_since <= now,
    ensures
        motion_duration(collected_since, idle_since, now) == idle_since - collected_since,
{
}

/// From the quiet state, one frame with motion starts a session that holds
/// that frame alone, and no clip is cut.
pub proof fn lemma_motion_starts_session<F>(
    frame: F,
    reopened: F,
    now: nat,
    policy: TimingPolicy,
)
    ensures
        StateView::<F>::Watching.step(frame, reopened, true, now, policy) == (StepView {
            state: StateView::RecordingMotion { since: now, frames: seq![frame] },
            clip: None,
        }),
        StateView::<F>::Watching.step(frame, reopened, true, now, policy).state.buffer().len()
            == 1,
{
}

/// A session in motion whose age passes the longest clip on the last of a
/// run of frames with motion, and on none before, is cut exactly once: the
/// one clip holds the frames buffered before the run followed by the run's
/// frames, and recording goes on in a session that starts at the last frame's
/// instant and holds only the copy of that frame.
pub proof fn lemma_overlong_session_cut_once<F>(
    since: nat,
    frames: Seq<F>,
    inputs: Seq<Input<F>>,
    policy: TimingPolicy,
)
    requires
        inputs.len() >= 1,
        forall|i: int| 0 <= i < inputs.len() ==> (#[trigger] inputs[i]).changed,
        forall|i: int|
            0 <= i < inputs.len() - 1 ==> elapsed(since, (#[trigger] inputs[i]).now)
                <= policy.max_video_duration,
        elapsed(since, inputs.last().now) > policy.max_video_duration,
    ensures
        (StateView::RecordingMotion { since, frames }).run_clips(inputs, policy) == seq![
            frames + frames_of(inputs),
        ],
        (StateView::RecordingMotion { since, frames }).run(inputs, policy) == (
        StateView::RecordingMotion { since: inputs.last().now, frames: seq![inputs.last().reopened] }),
{
    let start = StateView::RecordingMotion { since, frames };
    let earlier = inputs.drop_last();
    lemma_motion_goes_on(since, frames, earlier, policy);
    assert(frames + frames_of(earlier) + seq![inputs.last().frame] =~= frames + frames_of(inputs));
    assert((frames + frames_of(earlier)).push(inputs.last().frame) =~= frames + frames_of(inputs));
}

/// A session in motion that stays within the longest clip over a run of
/// frames with motion collects every frame of the run and cuts no clip.
pub proof fn lemma_motion_goes_on<F>(
    since: nat,
    frames: Seq<F>,
    inputs: Seq<Input<F>>,
    policy: TimingPolicy,
)
    requires
        forall|i: int| 0 <= i < inputs.len() ==> (#[trigger] inputs[i]).changed,
        forall|i: int|
            0 <= i < inputs.len() ==> elapsed(since, (#[trigger] inputs[i]).now)
                <= policy.max_video_duration,
    ensures
        (StateView::RecordingMotion { since, frames }).run_clips(inputs, policy) == Seq::<
            Seq<F>,
        >::empty(),
        (StateView::RecordingMotion { since, frames }).run(inputs, policy) == (
        StateView::RecordingMotion { since, frames: frames + frames_of(inputs) }),
    decreases inputs.len(),
{
    if inputs.len() == 0 {
        assert(frames + frames_of(inputs) =~= frames);
    } else {
        let earlier = inputs.drop_last();
        lemma_motion_goes_on(since, frames, earlier, policy);
        assert((frames + frames_of(earlier)).push(inputs.last().frame) =~= frames + frames_of(
            inputs,
        ));
    }
}

/// A pause that outlasts the idle gap in a session whose motion was shorter
/// than the shortest clip ends the session without a clip: the machine
/// watches again and buffers nothing.
pub proof fn lemma_short_motion_discarded<F>(
    collected_since: nat,
    since: nat,
    frames: Seq<F>,
    frame: F,
    reopened: F,
    now: nat,
    policy: TimingPolicy,
)
    requires
        elapsed(since, now) > policy.max_idle_gap,
        motion_duration(collected_since, since, now) < policy.min_video_duration,
    ensures
        (StateView::RecordingIdle { collected_since, since, frames }).step(
            frame,
            reopened,
            false,
            now,
            policy,
        ) == (StepView { state: StateView::<F>::Watching, clip: None }),
        (StateView::RecordingIdle { collected_since, since, frames }).step(
            frame,
            reopened,
            false,
            now,
            policy,
        ).state.buffer().len() == 0,
{
}

/// A pause that outlasts the idle gap in a session whose motion lasted at
/// least the shortest clip ends the session with one clip, which holds every
/// frame buffered since the session began and the frame that ends it; the
/// machine watches again.
pub proof fn lemma_long_motion_captured<F>(
    collected_since: nat,
    since: nat,
    frames: Seq<F>,
    frame: F,
    reopened: F,
    now: nat,
    policy: TimingPolicy,
)
    requires
        elapsed(since, now) > policy.max_idle_gap,
        motion_duration(collected_since, since, now) >= policy.min_video_duration,
    ensures
        (StateView::RecordingIdle { collected_since, since, frames }).step(
            frame,
            reopened,
            false,
            now,
            policy,
        ) == (StepView { state: StateView::<F>::Watching, clip: Some(frames.push(frame)) }),
{
}

/// Forgetting the frames commutes with a step: which state follows, the
/// instants it keeps, how many frames it buffers and how long a cut clip is
/// depend on the verdict and the clock alone.
pub proof fn lemma_step_outline<F>(
    state: StateView<F>,
    frame: F,
    reopened: F,
    changed: bool,
    now: nat,
    policy: TimingPolicy,
)
    ensures
        state.step(frame, reopened, changed, now, policy).state.outline() == state.outline().step(
            changed,
            now,
            policy,
        ).state,
        match state.step(frame, reopened, changed, now, policy).clip {
            Some(clip) => state.outline().step(changed, now, policy).clip == Some(clip.len()),
            None => state.outline().step(changed, now, policy).clip is None,
        },
{
}

/// Forgetting the frames commutes with a run.
pub proof fn lemma_run_outline<F>(state: StateView<F>, inputs: Seq<Input<F>>, policy: TimingPolicy)
    ensures
        state.run(inputs, policy).outline() == state.outline().run(inputs, policy),
        lengths_of(state.run_clips(inputs, policy)) == state.outline().run_clips(inputs, policy),
    decreases inputs.len(),
{
    if inputs.len() == 0 {
        assert(lengths_of(state.run_clips(inputs, policy)) =~= Seq::<nat>::empty());
    } else {
        let earlier = inputs.drop_last();
        let last = inputs.last();
        lemma_run_outline(state, earlier, policy);
        lemma_step_outline(
            state.run(earlier, policy),
            last.frame,
            last.reopened,
            last.changed,
            last.now,
            policy,
        );
        let before = state.run_clips(earlier, policy);
        match state.run(earlier, policy).step(
            last.frame,
            last.reopened,
            last.changed,
            last.now,
            policy,
        ).clip {
            Some(clip) => {
                assert(lengths_of(before.push(clip)) =~= lengths_of(before).push(clip.len()));
            },
            None => {},
        }
    }
}

/// The machine on outlines does not read the frames of its inputs.
pub proof fn lemma_outline_run_reads_signals<F>(
    start: Outline,
    first: Seq<Input<F>>,
    second: Seq<Input<F>>,
    policy: TimingPolicy,
)
    requires
        same_signals(first, second),
    ensures
        start.run(first, policy) == start.run(second, policy),
        start.run_clips(first, policy) == start.run_clips(second, policy),
    decreases first.len(),
{
    if first.len() > 0 {
        assert(first.last().changed == second.last().changed && first.last().now
            == second.last().now) by {
            let i = first.len() - 1;
            assert(first[i].changed == second[i].changed && first[i].now == second[i].now);
        }
        assert(same_signals(first.drop_last(), second.drop_last())) by {
            assert forall|i: int| 0 <= i < first.drop_last().len() implies (
            #[trigger] first.drop_last()[i]).changed == second.drop_last()[i].changed
                && first.drop_last()[i].now == second.drop_last()[i].now by {
                assert(first[i].changed == second[i].changed && first[i].now == second[i].now);
            }
        }
        lemma_outline_run_reads_signals(start, first.drop_last(), second.drop_last(), policy);
    }
}

/// Two runs from states with one outline, over streams with the same
/// verdicts at the same instants, pass through the same states with the same
/// instants and buffer sizes and cut clips of the same lengths at the same
/// frames, whatever the frames and their copies are.
pub proof fn lemma_runs_agree<F>(
    first_start: StateView<F>,
    second_start: StateView<F>,
    first: Seq<Input<F>>,
    second: Seq<Input<F>>,
    policy: TimingPolicy,
)
    requires
        first_start.outline() == second_start.outline(),
        same_signals(first, second),
    ensures
        first_start.run(first, policy).outline() == second_start.run(second, policy).outline(),
        lengths_of(first_start.run_clips(first, policy)) == lengths_of(
            second_start.run_clips(second, policy),
        ),
{
    lemma_run_outline(first_start, first, policy);
    lemma_run_outline(second_start, second, policy);
    lemma_outline_run_reads_signals(first_start.outline(), first, second, policy);
}

/// Copying a frame gives the frame: every copy that `clone` can make of a
/// value of `F` equals the value.
pub open spec fn copies_are_faithful<F: Clone>() -> bool {
    forall|frame: F, copy: F| #[trigger] cloned(frame, copy) ==> copy == frame
}

/// Every input of the stream carries, for the cut, a copy of its own frame.
pub open spec fn copies_made<F: Clone>(inputs: Seq<Input<F>>) -> bool {
    forall|i: int| 0 <= i < inputs.len() ==> cloned((#[trigger] inputs[i]).frame, inputs[i].reopened)
}

/// Two streams that carry the same frames with the same verdicts at the same
/// instants.
pub open spec fn same_inputs<F>(first: Seq<Input<F>>, second: Seq<Input<F>>) -> bool {
    &&& same_signals(first, second)
    &&& forall|i: int| 0 <= i < first.len() ==> (#[trigger] first[i]).frame == second[i].frame
}

/// For a frame type whose copies are faithful, a step does not depend on
/// which copy of the frame reopens the session: it is the step that reopens
/// with the frame itself.
pub proof fn lemma_faithful_copy_same_step<F: Clone>(
    state: StateView<F>,
    frame: F,
    reopened: F,
    changed: bool,
    now: nat,
    policy: TimingPolicy,
)
    requires
        copies_are_faithful::<F>(),
        cloned(frame, reopened),
    ensures
        state.step(frame, reopened, changed, now, policy) == state.step(
            frame,
            frame,
            changed,
            now,
            policy,
        ),
{
}

/// For a frame type whose copies are faithful, the same frames with the same
/// verdicts at the same instants, fed twice from the same state, give the
/// same state after every frame and the same clips, whichever copies the two
/// runs made.
pub proof fn lemma_faithful_copies_same_run<F: Clone>(
    start: StateView<F>,
    first: Seq<Input<F>>,
    second: Seq<Input<F>>,
    policy: TimingPolicy,
)
    requires
        copies_are_faithful::<F>(),
        same_inputs(first, second),
        copies_made(first),
        copies_made(second),
    ensures
        start.run(first, policy) == start.run(second, policy),
        start.run_clips(first, policy) == start.run_clips(second, policy),
        forall|n: int|
            0 <= n <= first.len() ==> start.run(#[trigger] first.take(n), policy) == start.run(
                second.take(n),
                policy,
            ),
{
    assert forall|i: int| 0 <= i < first.len() implies first[i] == second[i] by {
        assert(first[i].changed == second[i].changed && first[i].now == second[i].now);
        assert(first[i].frame == second[i].frame);
        assert(cloned(first[i].frame, first[i].reopened));
        assert(cloned(second[i].frame, second[i].reopened));
    }
    assert(first =~= second);
}

} // verus!
