use crossbeam_channel::unbounded;
use ropencv::camera::motion::state::{
    elapsed_between, motion_between, seconds_to_nanos, State, StatesConfig, StatesConfigConfig,
};
use ropencv::camera::motion::state_recording_idle::RecordingIdle;
use ropencv::camera::motion::state_recording_motion::RecordingMotion;
use ropencv::camera::motion::state_watching::Watching;
use ropencv::camera::motion::writer::Writer;

const SECOND: u128 = 1_000_000_000;

fn config() -> StatesConfig {
    let (sender, _receiver) = unbounded();
    StatesConfig::new(Writer::new(sender), &StatesConfigConfig::default())
}

fn watching() -> State<u32> {
    State::Watching(Watching::new())
}

#[test]
fn default_timing_is_two_fifteen_three_seconds() {
    let file = StatesConfigConfig::default();
    assert_eq!(file.min_video_duration, 2);
    assert_eq!(file.max_video_duration, 15);
    assert_eq!(file.max_idle_gap, 3);
    let config = config();
    assert_eq!(config.min_video_duration, 2 * SECOND);
    assert_eq!(config.max_video_duration, 15 * SECOND);
    assert_eq!(config.max_idle_gap, 3 * SECOND);
}

#[test]
fn seconds_to_nanos_takes_the_largest_count() {
    assert_eq!(seconds_to_nanos(0), 0);
    assert_eq!(seconds_to_nanos(7), 7_000_000_000);
    assert_eq!(seconds_to_nanos(u64::MAX), 18_446_744_073_709_551_615_000_000_000);
}

#[test]
fn elapsed_is_zero_when_the_clock_reads_earlier() {
    assert_eq!(elapsed_between(10, 25), 15);
    assert_eq!(elapsed_between(25, 25), 0);
    assert_eq!(elapsed_between(25, 10), 0);
}

#[test]
fn motion_duration_is_session_age_less_idle_age() {
    // Session began at 4 s, the pause at 9 s, the clock reads 13 s:
    // (13 - 4) - (13 - 9) = 5 s of motion.
    assert_eq!(motion_between(4 * SECOND, 9 * SECOND, 13 * SECOND), 5 * SECOND);
    // A pause that began with the session leaves no motion.
    assert_eq!(motion_between(4 * SECOND, 4 * SECOND, 13 * SECOND), 0);
    // A pause recorded as older than the session cannot make motion negative.
    assert_eq!(motion_between(9 * SECOND, 4 * SECOND, 13 * SECOND), 0);
}

#[test]
fn watching_drops_unchanged_frames() {
    let result = watching().handle(7, &config(), 5 * SECOND, false);
    assert!(matches!(result.state, State::Watching(_)));
    assert!(result.clip.is_none());
}

#[test]
fn motion_starts_a_session_with_one_frame() {
    let result = watching().handle(7, &config(), 5 * SECOND, true);
    assert!(result.clip.is_none());
    match result.state {
        State::RecordingMotion(session) => {
            assert_eq!(session.since(), 5 * SECOND);
            assert_eq!(session.frames(), &vec![7]);
            assert_eq!(session.buffered(), 1);
        }
        _ => panic!("expected a session in motion"),
    }
}

#[test]
fn motion_within_the_longest_clip_appends() {
    let state = State::RecordingMotion(RecordingMotion::new(SECOND, vec![1, 2]));
    // Exactly the longest clip is not yet over it.
    let result = state.handle(3, &config(), 16 * SECOND, true);
    assert!(result.clip.is_none());
    match result.state {
        State::RecordingMotion(session) => {
            assert_eq!(session.since(), SECOND);
            assert_eq!(session.frames(), &vec![1, 2, 3]);
        }
        _ => panic!("expected a session in motion"),
    }
}

#[test]
fn overlong_session_is_cut_and_recording_goes_on() {
    let state = State::RecordingMotion(RecordingMotion::new(SECOND, vec![1, 2]));
    let result = state.handle(3, &config(), 16 * SECOND + 1, true);
    assert_eq!(result.clip, Some(vec![1, 2, 3]));
    match result.state {
        State::RecordingMotion(session) => {
            assert_eq!(session.since(), 16 * SECOND + 1);
            assert_eq!(session.frames(), &vec![3]);
        }
        _ => panic!("expected a fresh session in motion"),
    }
}

#[test]
fn pause_carries_the_session_and_starts_the_idle_timer() {
    let state = State::RecordingMotion(RecordingMotion::new(SECOND, vec![1, 2]));
    let result = state.handle(3, &config(), 4 * SECOND, false);
    assert!(result.clip.is_none());
    match result.state {
        State::RecordingIdle(session) => {
            assert_eq!(session.collected_since(), SECOND);
            assert_eq!(session.since(), 4 * SECOND);
            assert_eq!(session.frames(), &vec![1, 2]);
        }
        _ => panic!("expected a session in a pause"),
    }
}

#[test]
fn pause_does_not_cut_an_overlong_session() {
    let state = State::RecordingMotion(RecordingMotion::new(SECOND, vec![1, 2]));
    let result = state.handle(3, &config(), 60 * SECOND, false);
    assert!(result.clip.is_none());
    assert!(matches!(result.state, State::RecordingIdle(_)));
}

#[test]
fn motion_after_a_pause_continues_the_same_session() {
    let state = State::RecordingIdle(RecordingIdle::new(SECOND, 4 * SECOND, vec![1, 2]));
    let result = state.handle(3, &config(), 30 * SECOND, true);
    assert!(result.clip.is_none());
    match result.state {
        State::RecordingMotion(session) => {
            assert_eq!(session.since(), SECOND);
            assert_eq!(session.frames(), &vec![1, 2, 3]);
        }
        _ => panic!("expected the session back in motion"),
    }
}

#[test]
fn pause_within_the_idle_gap_keeps_buffering() {
    let state = State::RecordingIdle(RecordingIdle::new(SECOND, 4 * SECOND, vec![1, 2]));
    // Exactly the idle gap is not yet over it.
    let result = state.handle(3, &config(), 7 * SECOND, false);
    assert!(result.clip.is_none());
    match result.state {
        State::RecordingIdle(session) => {
            assert_eq!(session.collected_since(), SECOND);
            assert_eq!(session.since(), 4 * SECOND);
            assert_eq!(session.frames(), &vec![1, 2, 3]);
        }
        _ => panic!("expected the pause to go on"),
    }
}

#[test]
fn long_pause_after_short_motion_discards_the_session() {
    // Motion lasted 4 s - 3 s = 1 s, under the 2 s minimum.
    let state = State::RecordingIdle(RecordingIdle::new(3 * SECOND, 4 * SECOND, vec![1, 2]));
    let result = state.handle(3, &config(), 7 * SECOND + 1, false);
    assert!(result.clip.is_none());
    assert!(matches!(result.state, State::Watching(_)));
}

#[test]
fn long_pause_after_long_motion_writes_every_buffered_frame() {
    // Motion lasted 4 s - 2 s = 2 s, exactly the minimum.
    let state = State::RecordingIdle(RecordingIdle::new(2 * SECOND, 4 * SECOND, vec![1, 2]));
    let result = state.handle(3, &config(), 7 * SECOND + 1, false);
    assert_eq!(result.clip, Some(vec![1, 2, 3]));
    assert!(matches!(result.state, State::Watching(_)));
}

#[test]
fn motion_one_nanosecond_short_is_discarded() {
    let state =
        State::RecordingIdle(RecordingIdle::new(2 * SECOND + 1, 4 * SECOND, vec![1, 2]));
    let result = state.handle(3, &config(), 8 * SECOND, false);
    assert!(result.clip.is_none());
    assert!(matches!(result.state, State::Watching(_)));
}

/// Feeds `(frame, changed, now)` triples from the quiet state and records
/// which state follows each and how long each cut clip is.
fn run(inputs: &[(u32, bool, u128)]) -> (Vec<&'static str>, Vec<Vec<u32>>) {
    let config = config();
    let mut state = watching();
    let mut names = Vec::new();
    let mut clips = Vec::new();
    for (frame, changed, now) in inputs {
        let result = state.handle(*frame, &config, *now, *changed);
        state = result.state;
        names.push(match &state {
            State::Watching(_) => "watching",
            State::RecordingMotion(_) => "motion",
            State::RecordingIdle(_) => "idle",
        });
        if let Some(clip) = result.clip {
            clips.push(clip);
        }
    }
    (names, clips)
}

#[test]
fn an_episode_from_start_to_clip() {
    let inputs = [
        (1, false, 0),
        (2, true, SECOND),
        (3, true, 2 * SECOND),
        (4, false, 4 * SECOND),
        (5, true, 5 * SECOND),
        (6, false, 6 * SECOND),
        (7, false, 8 * SECOND),
        (8, false, 10 * SECOND),
        (9, false, 11 * SECOND),
    ];
    let (names, clips) = run(&inputs);
    assert_eq!(
        names,
        vec!["watching", "motion", "motion", "idle", "motion", "idle", "idle", "watching", "watching"]
    );
    // The frame that opens a pause is not buffered; every other frame of the
    // session is, motion and idle alike.
    assert_eq!(clips, vec![vec![2, 3, 5, 7, 8]]);
}

#[test]
fn the_same_stream_gives_the_same_run_twice() {
    let inputs = [
        (1, true, 0),
        (2, true, 10 * SECOND),
        (3, true, 16 * SECOND),
        (4, true, 17 * SECOND),
        (5, false, 18 * SECOND),
        (6, false, 22 * SECOND),
    ];
    let first = run(&inputs);
    let second = run(&inputs);
    assert_eq!(first, second);
    assert_eq!(first.0, vec!["motion", "motion", "motion", "motion", "idle", "watching"]);
    assert_eq!(first.1, vec![vec![1, 2, 3], vec![3, 4, 6]]);
}
