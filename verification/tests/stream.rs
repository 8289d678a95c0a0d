use gaze_pointer::calibration::CalibrationProfile;
use gaze_pointer::stream::StreamProcessor;
use gaze_pointer::units::Point;
use gaze_pointer::units::SCALE;

fn pt(x: i64, y: i64) -> Point {
    Point { x, y }
}

#[test]
fn first_sample_passes_through_unsmoothed() {
    let mut p = StreamProcessor::new(CalibrationProfile::default(), 1920, 1080);
    // The default profile maps its center to the screen midpoint, and
    // the first sample is adopted by the filters unchanged.
    let out = p.process_sample(&pt(500_000, 500_000));
    assert_eq!(out, pt(960_000_000, 540_000_000));
}

#[test]
fn output_always_stays_on_the_display() {
    let mut p = StreamProcessor::new(CalibrationProfile::default(), 1920, 1080);
    for raw in [
        pt(0, 0),
        pt(i64::MAX, i64::MIN),
        pt(-5_000_000, 12_000_000),
        pt(650_000, 350_000),
    ] {
        let out = p.process_sample(&raw);
        assert!(0 <= out.x && out.x <= 1920 * SCALE);
        assert!(0 <= out.y && out.y <= 1080 * SCALE);
    }
}

#[test]
fn later_samples_move_toward_the_mapped_target() {
    let mut p = StreamProcessor::new(CalibrationProfile::default(), 1000, 1000);
    let first = p.process_sample(&pt(500_000, 500_000));
    assert_eq!(first, pt(500_000_000, 500_000_000));
    // Raw far to the bottom right maps to the far corner; the filtered
    // position may lag but must stay between the previous position and
    // that corner.
    let second = p.process_sample(&pt(10_000_000, 10_000_000));
    assert!(first.x <= second.x && second.x <= 1000 * SCALE);
    assert!(first.y <= second.y && second.y <= 1000 * SCALE);
}
