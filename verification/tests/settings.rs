use ropencv::clock::Clock;
use ropencv::cv::geometry::{Point, Size};
use ropencv::cv::imgproc::cvt_color::{CvtColor, COLOR_BGR2GRAY};
use ropencv::cv::imgproc::dilate::{StructuringElement, MORPH_ELLIPSE, MORPH_RECT};
use ropencv::cv::imgproc::find::FindContours;
use ropencv::cv::videoio::writer::{Encoding, FrameSizeConfig, SaveError, INTER_LANCZOS4};
use ropencv::signals::Signal;
use ropencv::telegram::{reported_clip, requested_signal, Command};

#[test]
fn signals_open_and_close_the_capture_gate() {
    assert!(!Signal::StopCamera.camera_running(true));
    assert!(!Signal::StopCamera.camera_running(false));
    assert!(Signal::StartCamera.camera_running(false));
    assert!(Signal::StartCamera.camera_running(true));
    assert!(Signal::MotionCaptureStarted.camera_running(true));
    assert!(!Signal::MotionCaptureStarted.camera_running(false));
    assert!(!Signal::MotionCaptured("x".to_string()).camera_running(false));
    assert!(Signal::MotionCaptured("x".to_string()).camera_running(true));
}

#[test]
fn a_copy_of_a_signal_is_the_signal() {
    let signal = Signal::MotionCaptured("output/a.mp4".to_string());
    assert_eq!(signal.clone(), signal);
    assert_eq!(Signal::StartCamera.clone(), Signal::StartCamera);
    assert_eq!(Signal::StopCamera.clone(), Signal::StopCamera);
    assert_eq!(Signal::MotionCaptureStarted.clone(), Signal::MotionCaptureStarted);
}

#[test]
fn only_the_served_chat_is_obeyed() {
    assert_eq!(requested_signal(42, 42, Some(Command::StopCamera)), Some(Signal::StopCamera));
    assert_eq!(requested_signal(42, 42, Some(Command::StartCamera)), Some(Signal::StartCamera));
    assert_eq!(requested_signal(42, 43, Some(Command::StopCamera)), None);
    assert_eq!(requested_signal(42, 42, None), None);
    assert_eq!(Command::StopCamera.signal(), Signal::StopCamera);
}

#[test]
fn only_captured_motion_is_reported() {
    let captured = Signal::MotionCaptured("clip.mp4".to_string());
    assert_eq!(reported_clip(&captured), Some(&"clip.mp4".to_string()));
    assert_eq!(reported_clip(&Signal::StartCamera), None);
    assert_eq!(reported_clip(&Signal::StopCamera), None);
    assert_eq!(reported_clip(&Signal::MotionCaptureStarted), None);
}

#[test]
fn gray_is_the_conversion_from_blue_green_red() {
    let gray = CvtColor::gray();
    assert_eq!(gray.code(), COLOR_BGR2GRAY);
    assert_eq!(gray.code(), 6);
    assert_eq!(gray.dst_cn(), 0);
    let other = CvtColor::with_code(40);
    assert_eq!(other.code(), 40);
    assert_eq!(other.dst_cn(), 0);
}

#[test]
fn structuring_element_builders_change_one_field() {
    let element = StructuringElement::default();
    assert_eq!(element.shape(), MORPH_RECT);
    assert_eq!(element.ksize(), Size::new(3, 3));
    assert_eq!(element.anchor(), Point::new(-1, -1));

    let round = element.with_shape(MORPH_ELLIPSE);
    assert_eq!(round.shape(), 2);
    assert_eq!(round.ksize(), Size::new(3, 3));

    let wide = round.with_radius(6);
    assert_eq!(wide.shape(), MORPH_ELLIPSE);
    assert_eq!(wide.ksize(), Size::new(6, 6));
    assert_eq!(wide.anchor(), Point::new(-1, -1));

    let moved = wide.with_anchor(Point::new(2, 3)).with_ksize(Size::new(7, 5));
    assert_eq!(moved.anchor(), Point::new(2, 3));
    assert_eq!(moved.ksize(), Size::new(7, 5));
    assert_eq!(moved.with_anchor_center().anchor(), Point::new(-1, -1));
    assert_eq!(moved.with_anchor_center().ksize(), Size::new(7, 5));
}

#[test]
fn find_contours_defaults() {
    let find = FindContours::default();
    assert_eq!(find.mode, 3);
    assert_eq!(find.color_approximation, 4);
    assert_eq!(find.offset, Point::new(0, 0));
}

#[test]
fn a_video_without_frames_cannot_be_planned() {
    let first = Size::new(640, 480);
    for setting in [
        FrameSizeConfig::Static(Size::new(1, 1)),
        FrameSizeConfig::Resize(Size::new(1, 1), 1),
        FrameSizeConfig::Derive,
        FrameSizeConfig::DeriveResize(INTER_LANCZOS4),
    ] {
        assert_eq!(setting.plan(0, first), Err(SaveError::NoContent));
    }
    assert_eq!(SaveError::NoContent.message(), "Cannot write video file: no content");
}

#[test]
fn the_frame_size_setting_decides_size_and_resizing() {
    let first = Size::new(640, 480);
    let fixed = Size::new(320, 240);
    assert_eq!(
        FrameSizeConfig::Static(fixed).plan(3, first),
        Ok(Encoding { frame_size: fixed, resize_interpolation: None })
    );
    assert_eq!(
        FrameSizeConfig::Resize(fixed, 2).plan(3, first),
        Ok(Encoding { frame_size: fixed, resize_interpolation: Some(2) })
    );
    assert_eq!(
        FrameSizeConfig::Derive.plan(1, first),
        Ok(Encoding { frame_size: first, resize_interpolation: None })
    );
    assert_eq!(
        FrameSizeConfig::DeriveResize(INTER_LANCZOS4).plan(1, first),
        Ok(Encoding { frame_size: first, resize_interpolation: Some(4) })
    );
    assert!(!FrameSizeConfig::Static(fixed).derives());
    assert!(!FrameSizeConfig::Resize(fixed, 2).derives());
    assert!(FrameSizeConfig::Derive.derives());
    assert!(FrameSizeConfig::DeriveResize(1).derives());
}

#[test]
fn the_clock_does_not_run_backwards() {
    let clock = Clock::new();
    let first = clock.now();
    let second = clock.now();
    assert!(first <= second);
}
