use gaze_pointer::calibration::CalibrationProfile;
use gaze_pointer::calibration::ProfileKind;
use gaze_pointer::ipc::Command;
use gaze_pointer::ipc::InboundMsg;
use gaze_pointer::session::CalibrationSession;
use gaze_pointer::session::DiagnosticsAction;
use gaze_pointer::session::DiagnosticsSession;
use gaze_pointer::session::SessionAction;
use gaze_pointer::session::SessionError;
use gaze_pointer::session::SessionEvent;
use gaze_pointer::session::SessionPhase;
use gaze_pointer::units::Point;

fn pt(x: i64, y: i64) -> Point {
    Point { x, y }
}

fn sample(x: i64, y: i64) -> SessionEvent {
    SessionEvent::Msg(InboundMsg::Sample(pt(x, y)))
}

fn trigger() -> SessionEvent {
    SessionEvent::Msg(InboundMsg::Trigger)
}

#[test]
fn grid_session_starts_with_warmup_target() {
    let (s, act) = CalibrationSession::new(ProfileKind::Grid);
    assert_eq!(s.phase, SessionPhase::AwaitingReady);
    assert_eq!(
        act,
        SessionAction::Show(Command::CalibrationPoint { x: 500_000, y: 500_000 })
    );
}

#[test]
fn center_window_averages_to_the_scripted_sample() {
    // Scripted stream: ready trigger, trigger for the CENTER target,
    // then thirty samples of (0.40, 0.60) inside the window.
    let (mut s, _) = CalibrationSession::new(ProfileKind::Grid);
    let act = s.on_event(trigger());
    assert_eq!(
        act,
        SessionAction::Show(Command::CalibrationPoint { x: 500_000, y: 500_000 })
    );
    assert_eq!(s.on_event(trigger()), SessionAction::StartWindow);
    for _ in 0..30 {
        assert_eq!(s.on_event(sample(400_000, 600_000)), SessionAction::Nothing);
    }
    let act = s.on_event(SessionEvent::WindowElapsed);
    assert_eq!(
        act,
        SessionAction::Show(Command::CalibrationPoint { x: 50_000, y: 50_000 })
    );
    assert_eq!(s.collected.len(), 1);
    assert_eq!(s.collected[0], pt(400_000, 600_000));
}

#[test]
fn empty_window_aborts_with_no_data_and_nothing_is_persisted() {
    let (mut s, _) = CalibrationSession::new(ProfileKind::Grid);
    s.on_event(trigger());
    assert_eq!(s.on_event(trigger()), SessionAction::StartWindow);
    let act = s.on_event(SessionEvent::WindowElapsed);
    assert_eq!(act, SessionAction::Abort(SessionError::NoData));
    assert_eq!(s.phase, SessionPhase::Failed);
    // The machine is inert afterwards: no later event can ask for a
    // profile to be written.
    assert_eq!(s.on_event(trigger()), SessionAction::Nothing);
    assert_eq!(s.on_event(SessionEvent::WindowElapsed), SessionAction::Nothing);
    assert_eq!(s.on_event(sample(1, 2)), SessionAction::Nothing);
}

#[test]
fn eof_while_awaiting_trigger_is_fatal() {
    let (mut s, _) = CalibrationSession::new(ProfileKind::Grid);
    let act = s.on_event(SessionEvent::StreamEnded);
    assert_eq!(act, SessionAction::Abort(SessionError::UnexpectedEof));
    assert_eq!(s.phase, SessionPhase::Failed);

    let (mut s, _) = CalibrationSession::new(ProfileKind::Quadrant);
    let act = s.on_event(SessionEvent::StreamEnded);
    assert_eq!(act, SessionAction::Abort(SessionError::UnexpectedEof));
}

#[test]
fn samples_are_ignored_while_awaiting_trigger() {
    let (mut s, _) = CalibrationSession::new(ProfileKind::Grid);
    assert_eq!(s.on_event(sample(1, 1)), SessionAction::Nothing);
    s.on_event(trigger());
    assert_eq!(s.on_event(sample(2, 2)), SessionAction::Nothing);
    assert_eq!(s.phase, SessionPhase::AwaitingTrigger);
}

#[test]
fn full_grid_acquisition_assembles_profile_in_order() {
    let (mut s, _) = CalibrationSession::new(ProfileKind::Grid);
    s.on_event(trigger());
    let mut last = SessionAction::Nothing;
    for i in 0..9i64 {
        assert_eq!(s.on_event(trigger()), SessionAction::StartWindow);
        // Two samples per window whose mean is (10_000 * (i + 1), 777).
        s.on_event(sample(10_000 * (i + 1) - 5, 777));
        s.on_event(sample(10_000 * (i + 1) + 5, 777));
        last = s.on_event(SessionEvent::WindowElapsed);
    }
    assert_eq!(s.phase, SessionPhase::Finished);
    match last {
        SessionAction::Finish(CalibrationProfile::Grid(g)) => {
            assert_eq!(g.center, pt(10_000, 777));
            assert_eq!(g.top_left, pt(20_000, 777));
            assert_eq!(g.top_center, pt(30_000, 777));
            assert_eq!(g.top_right, pt(40_000, 777));
            assert_eq!(g.middle_left, pt(50_000, 777));
            assert_eq!(g.middle_right, pt(60_000, 777));
            assert_eq!(g.bottom_left, pt(70_000, 777));
            assert_eq!(g.bottom_center, pt(80_000, 777));
            assert_eq!(g.bottom_right, pt(90_000, 777));
        }
        other => panic!("expected Finish with a grid profile, got {:?}", other),
    }
}

#[test]
fn full_quadrant_acquisition_assembles_profile_in_order() {
    let (mut s, act) = CalibrationSession::new(ProfileKind::Quadrant);
    // No warm-up step: the first target is shown at once.
    assert_eq!(
        act,
        SessionAction::Show(Command::CalibrationPoint { x: 500_000, y: 500_000 })
    );
    let mut last = SessionAction::Nothing;
    for i in 0..5i64 {
        assert_eq!(s.on_event(trigger()), SessionAction::StartWindow);
        s.on_event(sample(i + 1, -(i + 1)));
        last = s.on_event(SessionEvent::WindowElapsed);
    }
    match last {
        SessionAction::Finish(CalibrationProfile::Quadrant(q)) => {
            assert_eq!(q.center, pt(1, -1));
            assert_eq!(q.top_left, pt(2, -2));
            assert_eq!(q.top_right, pt(3, -3));
            assert_eq!(q.bottom_left, pt(4, -4));
            assert_eq!(q.bottom_right, pt(5, -5));
        }
        other => panic!("expected Finish with a quadrant profile, got {:?}", other),
    }
}

#[test]
fn grid_targets_follow_the_documented_sequence() {
    let expected = [
        pt(500_000, 500_000),
        pt(50_000, 50_000),
        pt(500_000, 50_000),
        pt(950_000, 50_000),
        pt(50_000, 500_000),
        pt(950_000, 500_000),
        pt(50_000, 950_000),
        pt(500_000, 950_000),
        pt(950_000, 950_000),
    ];
    for (i, want) in expected.iter().enumerate() {
        assert_eq!(CalibrationSession::target(ProfileKind::Grid, i), *want);
    }
}

#[test]
fn diagnostics_records_mapped_rows() {
    let profile = CalibrationProfile::default();
    let (mut d, act) = DiagnosticsSession::new(profile, 1000, 500);
    assert_eq!(
        act,
        DiagnosticsAction::Show(Command::CalibrationPoint { x: 500_000, y: 500_000 })
    );
    assert_eq!(d.on_event(trigger()), DiagnosticsAction::StartWindow);
    let act = d.on_event(sample(500_000, 500_000));
    match act {
        DiagnosticsAction::Record(row) => {
            assert_eq!(row.target_idx, 0);
            assert_eq!(row.target_px, pt(500_000_000, 250_000_000));
            assert_eq!(row.raw, pt(500_000, 500_000));
            // The default profile maps its center to the screen midpoint.
            assert_eq!(row.mapped_px, pt(500_000_000, 250_000_000));
        }
        other => panic!("expected Record, got {:?}", other),
    }
}

#[test]
fn diagnostics_empty_window_aborts_with_no_data() {
    let profile = CalibrationProfile::default();
    let (mut d, _) = DiagnosticsSession::new(profile, 1000, 1000);
    d.on_event(trigger());
    let act = d.on_event(SessionEvent::WindowElapsed);
    assert_eq!(act, DiagnosticsAction::Abort(SessionError::NoData));
    assert_eq!(d.phase, SessionPhase::Failed);
    // The machine is inert afterwards.
    assert_eq!(d.on_event(trigger()), DiagnosticsAction::Nothing);
    assert_eq!(d.on_event(SessionEvent::WindowElapsed), DiagnosticsAction::Nothing);
}

#[test]
fn diagnostics_window_with_samples_advances_to_the_next_target() {
    let profile = CalibrationProfile::default();
    let (mut d, _) = DiagnosticsSession::new(profile, 1000, 1000);
    d.on_event(trigger());
    d.on_event(sample(400_000, 400_000));
    let act = d.on_event(SessionEvent::WindowElapsed);
    assert_eq!(
        act,
        DiagnosticsAction::Show(Command::CalibrationPoint { x: 50_000, y: 50_000 })
    );
    assert_eq!(d.phase, SessionPhase::AwaitingTrigger);
}

#[test]
fn diagnostics_finishes_after_five_targets() {
    let profile = CalibrationProfile::default();
    let (mut d, _) = DiagnosticsSession::new(profile, 800, 600);
    let mut last = DiagnosticsAction::Nothing;
    for _ in 0..5 {
        assert_eq!(d.on_event(trigger()), DiagnosticsAction::StartWindow);
        d.on_event(sample(400_000, 400_000));
        last = d.on_event(SessionEvent::WindowElapsed);
    }
    assert_eq!(last, DiagnosticsAction::Finish);
    assert_eq!(d.phase, SessionPhase::Finished);
    // A finished flow never asks for anything more.
    assert_eq!(d.on_event(trigger()), DiagnosticsAction::Nothing);
}

#[test]
fn diagnostics_eof_while_awaiting_trigger_is_fatal() {
    let profile = CalibrationProfile::default();
    let (mut d, _) = DiagnosticsSession::new(profile, 800, 600);
    let act = d.on_event(SessionEvent::StreamEnded);
    assert_eq!(act, DiagnosticsAction::Abort(SessionError::UnexpectedEof));
    assert_eq!(d.phase, SessionPhase::Failed);
}
