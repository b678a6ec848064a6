use crossbeam_channel::{unbounded, Receiver};
use ropencv::camera::matdiff::MatDiff;
use ropencv::camera::motion::motion::MotionDetect;
use ropencv::camera::motion::state::{StatesConfig, StatesConfigConfig};
use ropencv::camera::motion::writer::Writer;
use ropencv::cv::geometry::Rect;
use ropencv::signals::Signal;

const SECOND: u128 = 1_000_000_000;

fn detector() -> (MotionDetect<String>, Receiver<Signal>) {
    let (sender, receiver) = unbounded();
    let config = StatesConfig::new(Writer::new(sender), &StatesConfigConfig::default());
    (MotionDetect::new(MatDiff::default(), config), receiver)
}

fn moving() -> Vec<Rect> {
    vec![Rect::new(10, 10, 100, 100)]
}

fn still() -> Vec<Rect> {
    vec![Rect::new(10, 10, 4, 4)]
}

fn frame(name: &str) -> String {
    name.to_string()
}

#[test]
fn a_new_detector_watches_without_a_baseline() {
    let (detector, _bus) = detector();
    assert!(detector.baseline().is_none());
    assert!(!detector.is_recording());
    assert_eq!(detector.buffered(), 0);
    assert_eq!(detector.diff().contour_area_threshold, 2000);
}

#[test]
fn the_first_frame_counts_as_unchanged_and_becomes_the_baseline() {
    let (mut detector, _bus) = detector();
    // Even contours that would count as motion are not read on the first frame.
    assert!(detector.new_frame(frame("a"), &moving(), 0).is_none());
    assert!(!detector.is_recording());
    assert_eq!(detector.baseline(), Some(&frame("a")));
}

#[test]
fn motion_on_a_later_frame_starts_recording() {
    let (mut detector, _bus) = detector();
    detector.new_frame(frame("a"), &still(), 0);
    assert!(detector.new_frame(frame("b"), &moving(), SECOND).is_none());
    assert!(detector.is_recording());
    assert_eq!(detector.buffered(), 1);
    assert_eq!(detector.baseline(), Some(&frame("b")));
}

#[test]
fn an_episode_ends_in_one_clip_and_one_announcement() {
    let (mut detector, bus) = detector();
    detector.new_frame(frame("a"), &still(), 0);
    detector.new_frame(frame("b"), &moving(), SECOND);
    detector.new_frame(frame("c"), &moving(), 2 * SECOND);
    detector.new_frame(frame("d"), &moving(), 4 * SECOND);
    assert!(detector.new_frame(frame("e"), &still(), 5 * SECOND).is_none());
    assert!(detector.new_frame(frame("f"), &still(), 7 * SECOND).is_none());
    assert_eq!(detector.buffered(), 4);
    let clip = detector.new_frame(frame("g"), &still(), 9 * SECOND);
    assert_eq!(clip, Some(vec![frame("b"), frame("c"), frame("d"), frame("f"), frame("g")]));
    assert!(!detector.is_recording());
    assert_eq!(detector.buffered(), 0);

    let saved: Result<String, String> = Ok("output/clip.mp4".to_string());
    assert_eq!(detector.clip_written(saved), Ok(true));
    assert_eq!(
        bus.try_iter().collect::<Vec<Signal>>(),
        vec![Signal::MotionCaptured("output/clip.mp4".to_string())]
    );
}

#[test]
fn a_failed_write_resets_the_detector_and_hands_the_error_on() {
    let (mut detector, bus) = detector();
    detector.new_frame(frame("a"), &still(), 0);
    detector.new_frame(frame("b"), &moving(), SECOND);
    let clip = detector.new_frame(frame("c"), &moving(), 17 * SECOND);
    assert_eq!(clip, Some(vec![frame("b"), frame("c")]));
    // The cut leaves the detector recording a fresh session.
    assert!(detector.is_recording());
    assert_eq!(detector.buffered(), 1);

    let saved: Result<String, String> = Err("disk full".to_string());
    assert_eq!(detector.clip_written(saved), Err("disk full".to_string()));
    assert!(!detector.is_recording());
    assert_eq!(detector.buffered(), 0);
    assert_eq!(detector.baseline(), Some(&frame("c")));
    assert!(bus.try_recv().is_err());
}

#[test]
fn a_written_clip_is_no_error_when_nobody_listens() {
    let (mut detector, bus) = detector();
    drop(bus);
    detector.new_frame(frame("a"), &still(), 0);
    detector.new_frame(frame("b"), &moving(), SECOND);
    detector.new_frame(frame("c"), &moving(), 17 * SECOND);
    let saved: Result<String, String> = Ok("clip".to_string());
    assert_eq!(detector.clip_written(saved), Ok(false));
    assert!(detector.is_recording());
}

#[test]
fn the_writer_announces_the_identifier_word_for_word() {
    let saved: Result<String, u8> = Ok("output/2024-01-01-00-00-00.mp4".to_string());
    assert_eq!(
        Writer::announcement(saved),
        Ok(Signal::MotionCaptured("output/2024-01-01-00-00-00.mp4".to_string()))
    );
    let failed: Result<String, u8> = Err(3);
    assert_eq!(Writer::announcement(failed), Err(3));

    let (sender, receiver) = unbounded();
    let mut writer = Writer::new(sender);
    let failed: Result<String, u8> = Err(4);
    assert_eq!(writer.save(failed), Err(4));
    assert!(receiver.try_recv().is_err());
    let saved: Result<String, u8> = Ok("x".to_string());
    assert_eq!(writer.save(saved), Ok(true));
    assert_eq!(receiver.try_recv(), Ok(Signal::MotionCaptured("x".to_string())));
}
