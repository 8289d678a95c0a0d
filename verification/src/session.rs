//! The calibration acquisition protocol: a state machine that drives the
//! gaze source through the fixation targets of a profile shape, waits
//! for a user trigger at each, aggregates the samples of a fixed window
//! into one calibration point per target, and assembles the profile.
//!
//! The machine is pure: the unverified shell performs the blocking reads,
//! writes and timing, hands each observation in as a [`SessionEvent`] and
//! carries out the returned [`SessionAction`].

use vstd::prelude::*;
use crate::units::Point;
use crate::calibration::CalibrationProfile;
use crate::calibration::ProfileKind;
use crate::ipc::Command;
use crate::ipc::InboundMsg;
use crate::units::div_floor;

verus! {

/// Length of one post-trigger sampling window, in milliseconds.
pub const SAMPLE_WINDOW_MILLIS: u64 = 1000;

/// Capacity bound of one sampling window: samples beyond it are dropped
/// so that the running sums stay representable.
pub const MAX_WINDOW_SAMPLES: u32 = 1_000_000_000;

/// Why an acquisition session aborted.
#[derive(Clone, Copy, Debug, PartialEq, Eq, Structural)]
pub enum SessionError {
    /// The inbound stream ended while a trigger was awaited.
    UnexpectedEof,
    /// A sampling window passed without one parseable sample.
    NoData,
}

/// One observation made by the driving loop.
#[derive(Clone, Copy, Debug, PartialEq, Eq, Structural)]
pub enum SessionEvent {
    /// A parseable inbound line arrived.
    Msg(InboundMsg),
    /// The sampling window of the current target elapsed.
    WindowElapsed,
    /// The inbound stream reached end of file.
    StreamEnded,
}

/// What the driving loop must do after handing in an event.
#[derive(Clone, Copy, Debug, PartialEq, Eq, Structural)]
pub enum SessionAction {
    /// Write this command (a fixation target) to the gaze source, then
    /// keep reading.
    Show(Command),
    /// Start the sampling window of the current target, then keep
    /// reading until it elapses.
    StartWindow,
    /// Write the end-of-calibration command and persist this profile.
    Finish(CalibrationProfile),
    /// Abort the session with this error; nothing is persisted.
    Abort(SessionError),
    /// Nothing to do.
    Nothing,
}

/// Where the session stands.
#[derive(Clone, Copy, Debug, PartialEq, Eq, Structural)]
pub enum SessionPhase {
    /// The warm-up target is shown (grid shape only); waiting for the
    /// ready trigger, which is not recorded.
    AwaitingReady,
    /// The current target is shown; waiting for the user trigger.
    AwaitingTrigger,
    /// The sampling window of the current target is running.
    Sampling,
    /// Every target was sampled and the profile was produced.
    Finished,
    /// The session aborted.
    Failed,
}

/// The mathematical state of a session: what the executable state maps
/// to in contracts.
pub struct SessionModel {
    pub kind: ProfileKind,
    pub phase: SessionPhase,
    pub idx: int,
    pub sum_x: int,
    pub sum_y: int,
    pub count: int,
    pub collected: Seq<Point>,
}

/// The fixation target of index `i` for the given shape, in normalized
/// screen micro-units: the center first, then the remaining targets row
/// by row with a margin of `0.05` from each edge.
pub open spec fn target_spec(kind: ProfileKind, i: int) -> Point {
    match kind {
        ProfileKind::Quadrant => if i == 0 {
            Point { x: 500_000, y: 500_000 }
        } else if i == 1 {
            Point { x: 50_000, y: 50_000 }
        } else if i == 2 {
            Point { x: 950_000, y: 50_000 }
        } else if i == 3 {
            Point { x: 50_000, y: 950_000 }
        } else {
            Point { x: 950_000, y: 950_000 }
        },
        ProfileKind::Grid => if i == 0 {
            Point { x: 500_000, y: 500_000 }
        } else if i == 1 {
            Point { x: 50_000, y: 50_000 }
        } else if i == 2 {
            Point { x: 500_000, y: 50_000 }
        } else if i == 3 {
            Point { x: 950_000, y: 50_000 }
        } else if i == 4 {
            Point { x: 50_000, y: 500_000 }
        } else if i == 5 {
            Point { x: 950_000, y: 500_000 }
        } else if i == 6 {
            Point { x: 50_000, y: 950_000 }
        } else if i == 7 {
            Point { x: 500_000, y: 950_000 }
        } else {
            Point { x: 950_000, y: 950_000 }
        },
    }
}

/// The action that shows the fixation target of index `i`.
pub open spec fn show_target_spec(kind: ProfileKind, i: int) -> SessionAction {
    SessionAction::Show(
        Command::CalibrationPoint { x: target_spec(kind, i).x, y: target_spec(kind, i).y },
    )
}

/// The transition relation of the acquisition session: next state and
/// required action for one observed event.
pub open spec fn session_step(m: SessionModel, ev: SessionEvent) -> (SessionModel, SessionAction) {
    let n = CalibrationProfile::ref_count_spec(m.kind);
    match m.phase {
        SessionPhase::AwaitingReady => match ev {
            SessionEvent::Msg(InboundMsg::Trigger) => (
                SessionModel { phase: SessionPhase::AwaitingTrigger, ..m },
                show_target_spec(m.kind, 0),
            ),
            SessionEvent::StreamEnded => (
                SessionModel { phase: SessionPhase::Failed, ..m },
                SessionAction::Abort(SessionError::UnexpectedEof),
            ),
            _ => (m, SessionAction::Nothing),
        },
        SessionPhase::AwaitingTrigger => match ev {
            SessionEvent::Msg(InboundMsg::Trigger) => (
                SessionModel { phase: SessionPhase::Sampling, sum_x: 0, sum_y: 0, count: 0, ..m },
                SessionAction::StartWindow,
            ),
            SessionEvent::StreamEnded => (
                SessionModel { phase: SessionPhase::Failed, ..m },
                SessionAction::Abort(SessionError::UnexpectedEof),
            ),
            _ => (m, SessionAction::Nothing),
        },
        SessionPhase::Sampling => match ev {
            SessionEvent::Msg(InboundMsg::Sample(p)) => if m.count < MAX_WINDOW_SAMPLES {
                (
                    SessionModel {
                        sum_x: m.sum_x + p.x,
                        sum_y: m.sum_y + p.y,
                        count: m.count + 1,
                        ..m
                    },
                    SessionAction::Nothing,
                )
            } else {
                (m, SessionAction::Nothing)
            },
            SessionEvent::WindowElapsed => if m.count == 0 {
                (
                    SessionModel { phase: SessionPhase::Failed, ..m },
                    SessionAction::Abort(SessionError::NoData),
                )
            } else {
                let avg = Point {
                    x: (m.sum_x / m.count) as i64,
                    y: (m.sum_y / m.count) as i64,
                };
                let collected = m.collected.push(avg);
                if m.idx + 1 < n {
                    (
                        SessionModel {
                            phase: SessionPhase::AwaitingTrigger,
                            idx: m.idx + 1,
                            collected,
                            ..m
                        },
                        show_target_spec(m.kind, m.idx + 1),
                    )
                } else {
                    (
                        SessionModel {
                            phase: SessionPhase::Finished,
                            idx: m.idx + 1,
                            collected,
                            ..m
                        },
                        SessionAction::Finish(CalibrationProfile::assemble_spec(m.kind, collected)),
                    )
                }
            },
            _ => (m, SessionAction::Nothing),
        },
        SessionPhase::Finished => (m, SessionAction::Nothing),
        SessionPhase::Failed => (m, SessionAction::Nothing),
    }
}

/// A calibration acquisition session over the targets of one profile
/// shape.
pub struct CalibrationSession {
    pub kind: ProfileKind,
    pub phase: SessionPhase,
    pub idx: usize,
    pub sum_x: i128,
    pub sum_y: i128,
    pub count: u32,
    pub collected: Vec<Point>,
}

impl View for CalibrationSession {
    type V = SessionModel;

    open spec fn view(&self) -> SessionModel {
        SessionModel {
            kind: self.kind,
            phase: self.phase,
            idx: self.idx as int,
            sum_x: self.sum_x as int,
            sum_y: self.sum_y as int,
            count: self.count as int,
            collected: self.collected@,
        }
    }
}

impl CalibrationSession {
    /// Ranges and shape every reachable session state stays inside.
    pub open spec fn wf(self) -> bool {
        let n = CalibrationProfile::ref_count_spec(self.kind);
        &&& self.collected@.len() == self.idx
        &&& self.idx <= n
        &&& (self.phase is AwaitingReady ==> self.idx == 0 && self.kind is Grid)
        &&& (self.phase is AwaitingTrigger ==> self.idx < n)
        &&& (self.phase is Sampling ==> self.idx < n)
        &&& (self.phase is Finished ==> self.idx == n)
        &&& self.count <= MAX_WINDOW_SAMPLES
        &&& -(self.count as int) * 9223372036854775808 <= self.sum_x
        &&& self.sum_x <= (self.count as int) * 9223372036854775807
        &&& -(self.count as int) * 9223372036854775808 <= self.sum_y
        &&& self.sum_y <= (self.count as int) * 9223372036854775807
    }

    /// The fixation target of index `i`.
    pub fn target(kind: ProfileKind, i: usize) -> (p: Point)
        requires
            i < CalibrationProfile::ref_count_spec(kind),
        ensures
            p == target_spec(kind, i as int),
    {
        match kind {
            ProfileKind::Quadrant => {
                if i == 0 {
                    Point { x: 500_000, y: 500_000 }
                } else if i == 1 {
                    Point { x: 50_000, y: 50_000 }
                } else if i == 2 {
                    Point { x: 950_000, y: 50_000 }
                } else if i == 3 {
                    Point { x: 50_000, y: 950_000 }
                } else {
                    Point { x: 950_000, y: 950_000 }
                }
            },
            ProfileKind::Grid => {
                if i == 0 {
                    Point { x: 500_000, y: 500_000 }
                } else if i == 1 {
                    Point { x: 50_000, y: 50_000 }
                } else if i == 2 {
                    Point { x: 500_000, y: 50_000 }
                } else if i == 3 {
                    Point { x: 950_000, y: 50_000 }
                } else if i == 4 {
                    Point { x: 50_000, y: 500_000 }
                } else if i == 5 {
                    Point { x: 950_000, y: 500_000 }
                } else if i == 6 {
                    Point { x: 50_000, y: 950_000 }
                } else if i == 7 {
                    Point { x: 500_000, y: 950_000 }
                } else {
                    Point { x: 950_000, y: 950_000 }
                }
            },
        }
    }

    /// Open a session. The grid shape starts with an unrecorded warm-up
    /// target so the display pipeline can settle; the quadrant shape
    /// goes straight to its first target. The returned action shows the
    /// first marker.
    pub fn new(kind: ProfileKind) -> (r: (CalibrationSession, SessionAction))
        ensures
            r.0.wf(),
            r.0.kind == kind,
            r.0.idx == 0,
            r.0.collected@ == Seq::<Point>::empty(),
            kind is Grid ==> r.0.phase is AwaitingReady && r.1 == (SessionAction::Show(
                Command::CalibrationPoint { x: 500_000, y: 500_000 },
            )),
            kind is Quadrant ==> r.0.phase is AwaitingTrigger && r.1 == show_target_spec(kind, 0),
    {
        let (phase, action) = match kind {
            ProfileKind::Grid => (
                SessionPhase::AwaitingReady,
                SessionAction::Show(Command::CalibrationPoint { x: 500_000, y: 500_000 }),
            ),
            ProfileKind::Quadrant => {
                let t = Self::target(kind, 0);
                (
                    SessionPhase::AwaitingTrigger,
                    SessionAction::Show(Command::CalibrationPoint { x: t.x, y: t.y }),
                )
            },
        };
        let s = CalibrationSession {
            kind,
            phase,
            idx: 0,
            sum_x: 0,
            sum_y: 0,
            count: 0,
            collected: Vec::new(),
        };
        (s, action)
    }

    /// Advance the session by one observed event and return what the
    /// driving loop must do, exactly as the transition relation
    /// [`session_step`] prescribes.
    pub fn on_event(&mut self, ev: SessionEvent) -> (act: SessionAction)
        requires
            old(self).wf(),
        ensures
            final(self).wf(),
            final(self)@ == session_step(old(self)@, ev).0,
            act == session_step(old(self)@, ev).1,
    {
        match self.phase {
            SessionPhase::AwaitingReady => match ev {
                SessionEvent::Msg(InboundMsg::Trigger) => {
                    self.phase = SessionPhase::AwaitingTrigger;
                    let t = Self::target(self.kind, 0);
                    SessionAction::Show(Command::CalibrationPoint { x: t.x, y: t.y })
                },
                SessionEvent::StreamEnded => {
                    self.phase = SessionPhase::Failed;
                    SessionAction::Abort(SessionError::UnexpectedEof)
                },
                _ => SessionAction::Nothing,
            },
            SessionPhase::AwaitingTrigger => match ev {
                SessionEvent::Msg(InboundMsg::Trigger) => {
                    self.phase = SessionPhase::Sampling;
                    self.sum_x = 0;
                    self.sum_y = 0;
                    self.count = 0;
                    SessionAction::StartWindow
                },
                SessionEvent::StreamEnded => {
                    self.phase = SessionPhase::Failed;
                    SessionAction::Abort(SessionError::UnexpectedEof)
                },
                _ => SessionAction::Nothing,
            },
            SessionPhase::Sampling => match ev {
                SessionEvent::Msg(InboundMsg::Sample(p)) => {
                    if self.count < MAX_WINDOW_SAMPLES {
                        self.sum_x = self.sum_x + p.x as i128;
                        self.sum_y = self.sum_y + p.y as i128;
                        self.count = self.count + 1;
                    }
                    SessionAction::Nothing
                },
                SessionEvent::WindowElapsed => {
                    if self.count == 0 {
                        self.phase = SessionPhase::Failed;
                        SessionAction::Abort(SessionError::NoData)
                    } else {
                        proof {
                            let c = self.count as int;
                            vstd::arithmetic::div_mod::lemma_div_multiples_vanish(
                                -9223372036854775808,
                                c,
                            );
                            vstd::arithmetic::div_mod::lemma_div_multiples_vanish(
                                9223372036854775807,
                                c,
                            );
                            vstd::arithmetic::div_mod::lemma_div_is_ordered(
                                c * -9223372036854775808,
                                self.sum_x as int,
                                c,
                            );
                            vstd::arithmetic::div_mod::lemma_div_is_ordered(
                                self.sum_x as int,
                                c * 9223372036854775807,
                                c,
                            );
                            vstd::arithmetic::div_mod::lemma_div_is_ordered(
                                c * -9223372036854775808,
                                self.sum_y as int,
                                c,
                            );
                            vstd::arithmetic::div_mod::lemma_div_is_ordered(
                                self.sum_y as int,
                                c * 9223372036854775807,
                                c,
                            );
                        }
                        let ax = div_floor(self.sum_x, self.count as i128) as i64;
                        let ay = div_floor(self.sum_y, self.count as i128) as i64;
                        self.collected.push(Point { x: ax, y: ay });
                        self.idx = self.idx + 1;
                        let n = CalibrationProfile::ref_point_count(self.kind);
                        if self.idx < n {
                            self.phase = SessionPhase::AwaitingTrigger;
                            let t = Self::target(self.kind, self.idx);
                            SessionAction::Show(Command::CalibrationPoint { x: t.x, y: t.y })
                        } else {
                            self.phase = SessionPhase::Finished;
                            match CalibrationProfile::from_points(self.kind, &self.collected) {
                                Some(p) => SessionAction::Finish(p),
                                None => {
                                    proof {
                                        assert(false);
                                    }
                                    SessionAction::Nothing
                                },
                            }
                        }
                    }
                },
                _ => SessionAction::Nothing,
            },
            SessionPhase::Finished => SessionAction::Nothing,
            SessionPhase::Failed => SessionAction::Nothing,
        }
    }
}

/// Length of one diagnostics recording window, in milliseconds.
pub const DIAGNOSTIC_WINDOW_MILLIS: u64 = 3000;

/// Largest display dimension, in pixels, the protocol scales
/// coordinates for.
pub const MAX_DIM: u32 = 100_000;

/// One recorded diagnostics row: where the fixation marker stood, what
/// the gaze source reported, and where the loaded profile maps that
/// report. Marker and mapped coordinates are micro-pixels of the target
/// display; the raw coordinate stays in raw gaze space.
#[derive(Clone, Copy, Debug, PartialEq, Eq, Structural)]
pub struct DiagnosticRow {
    pub target_idx: usize,
    pub target_px: Point,
    pub raw: Point,
    pub mapped_px: Point,
}

/// What the driving loop must do after handing an event to the
/// diagnostics flow.
#[derive(Clone, Copy, Debug, PartialEq, Eq, Structural)]
pub enum DiagnosticsAction {
    /// Write this command (a fixation target) to the gaze source, then
    /// keep reading.
    Show(Command),
    /// Start the recording window of the current target.
    StartWindow,
    /// Append this row to the diagnostics log.
    Record(DiagnosticRow),
    /// Write the end-of-calibration command; the log is complete.
    Finish,
    /// Abort with this error.
    Abort(SessionError),
    /// Nothing to do.
    Nothing,
}

/// The mathematical state of a diagnostics session.
pub struct DiagnosticsModel {
    pub phase: SessionPhase,
    pub idx: int,
    pub count: int,
    pub profile: CalibrationProfile,
    pub width: int,
    pub height: int,
}

/// The row recorded for one raw sample while the marker of target `idx`
/// is shown.
pub open spec fn diag_row_spec(m: DiagnosticsModel, raw: Point) -> DiagnosticRow {
    let t = target_spec(ProfileKind::Quadrant, m.idx);
    DiagnosticRow {
        target_idx: m.idx as usize,
        target_px: Point { x: (t.x * m.width) as i64, y: (t.y * m.height) as i64 },
        raw,
        mapped_px: Point {
            x: (m.profile.map_x_spec(raw.x as int) * m.width) as i64,
            y: (m.profile.map_y_spec(raw.y as int) * m.height) as i64,
        },
    }
}

/// The transition relation of the diagnostics flow: the same
/// drive-trigger-sample sequence as acquisition over the five quadrant
/// targets, but read-only: every sample of a window becomes a log row
/// and no profile is ever written. As in acquisition, a window that
/// ends without one parseable sample is fatal.
pub open spec fn diag_step(m: DiagnosticsModel, ev: SessionEvent) -> (DiagnosticsModel, DiagnosticsAction) {
    match m.phase {
        SessionPhase::AwaitingTrigger => match ev {
            SessionEvent::Msg(InboundMsg::Trigger) => (
                DiagnosticsModel { phase: SessionPhase::Sampling, count: 0, ..m },
                DiagnosticsAction::StartWindow,
            ),
            SessionEvent::StreamEnded => (
                DiagnosticsModel { phase: SessionPhase::Failed, ..m },
                DiagnosticsAction::Abort(SessionError::UnexpectedEof),
            ),
            _ => (m, DiagnosticsAction::Nothing),
        },
        SessionPhase::Sampling => match ev {
            SessionEvent::Msg(InboundMsg::Sample(p)) => (
                DiagnosticsModel {
                    count: if m.count < MAX_WINDOW_SAMPLES {
                        m.count + 1
                    } else {
                        m.count
                    },
                    ..m
                },
                DiagnosticsAction::Record(diag_row_spec(m, p)),
            ),
            SessionEvent::WindowElapsed => if m.count == 0 {
                (
                    DiagnosticsModel { phase: SessionPhase::Failed, ..m },
                    DiagnosticsAction::Abort(SessionError::NoData),
                )
            } else if m.idx + 1 < CalibrationProfile::ref_count_spec(ProfileKind::Quadrant) {
                (
                    DiagnosticsModel {
                        phase: SessionPhase::AwaitingTrigger,
                        idx: m.idx + 1,
                        ..m
                    },
                    DiagnosticsAction::Show(
                        Command::CalibrationPoint {
                            x: target_spec(ProfileKind::Quadrant, m.idx + 1).x,
                            y: target_spec(ProfileKind::Quadrant, m.idx + 1).y,
                        },
                    ),
                )
            } else {
                (
                    DiagnosticsModel { phase: SessionPhase::Finished, idx: m.idx + 1, ..m },
                    DiagnosticsAction::Finish,
                )
            },
            _ => (m, DiagnosticsAction::Nothing),
        },
        SessionPhase::Finished => (m, DiagnosticsAction::Nothing),
        SessionPhase::Failed => (m, DiagnosticsAction::Nothing),
        SessionPhase::AwaitingReady => (m, DiagnosticsAction::Nothing),
    }
}

/// Scale a normalized micro-unit coordinate by a display dimension in
/// pixels, giving micro-pixels.
pub(crate) fn scale_px(v: i64, d: u32) -> (r: i64)
    requires
        0 <= v <= crate::units::SCALE,
        d <= MAX_DIM,
    ensures
        r == v * d,
        0 <= r <= 100_000_000_000,
        r <= d * crate::units::SCALE,
{
    proof {
        assert(0 <= (v as int) * (d as int) <= 100000000000 && (v as int) * (d as int) <= (
        d as int) * 1000000) by (nonlinear_arith)
            requires
                0 <= v <= 1000000,
                0 <= d <= 100000,
        ;
    }
    v * (d as i64)
}

/// A read-only diagnostics session against an already-loaded profile.
pub struct DiagnosticsSession {
    pub profile: CalibrationProfile,
    pub phase: SessionPhase,
    pub idx: usize,
    pub count: u32,
    pub width: u32,
    pub height: u32,
}

impl View for DiagnosticsSession {
    type V = DiagnosticsModel;

    open spec fn view(&self) -> DiagnosticsModel {
        DiagnosticsModel {
            phase: self.phase,
            idx: self.idx as int,
            count: self.count as int,
            profile: self.profile,
            width: self.width as int,
            height: self.height as int,
        }
    }
}

impl DiagnosticsSession {
    /// Ranges and shape every reachable diagnostics state stays inside.
    pub open spec fn wf(self) -> bool {
        let n = CalibrationProfile::ref_count_spec(ProfileKind::Quadrant);
        &&& self.idx <= n
        &&& (self.phase is AwaitingTrigger ==> self.idx < n)
        &&& (self.phase is Sampling ==> self.idx < n)
        &&& (self.phase is Finished ==> self.idx == n)
        &&& !(self.phase is AwaitingReady)
        &&& self.count <= MAX_WINDOW_SAMPLES
        &&& self.width <= MAX_DIM
        &&& self.height <= MAX_DIM
    }

    /// Open a diagnostics session; the returned action shows the first
    /// marker.
    pub fn new(profile: CalibrationProfile, width: u32, height: u32) -> (r: (
        DiagnosticsSession,
        DiagnosticsAction,
    ))
        requires
            width <= MAX_DIM,
            height <= MAX_DIM,
        ensures
            r.0.wf(),
            r.0.profile == profile,
            r.0.phase is AwaitingTrigger,
            r.0.idx == 0,
            r.0.count == 0,
            r.0.width == width,
            r.0.height == height,
            r.1 == (DiagnosticsAction::Show(
                Command::CalibrationPoint {
                    x: target_spec(ProfileKind::Quadrant, 0).x,
                    y: target_spec(ProfileKind::Quadrant, 0).y,
                },
            )),
    {
        let t = CalibrationSession::target(ProfileKind::Quadrant, 0);
        let s = DiagnosticsSession {
            profile,
            phase: SessionPhase::AwaitingTrigger,
            idx: 0,
            count: 0,
            width,
            height,
        };
        (s, DiagnosticsAction::Show(Command::CalibrationPoint { x: t.x, y: t.y }))
    }

    /// Advance the diagnostics flow by one observed event, exactly as
    /// the transition relation [`diag_step`] prescribes.
    pub fn on_event(&mut self, ev: SessionEvent) -> (act: DiagnosticsAction)
        requires
            old(self).wf(),
        ensures
            final(self).wf(),
            final(self)@ == diag_step(old(self)@, ev).0,
            act == diag_step(old(self)@, ev).1,
    {
        match self.phase {
            SessionPhase::AwaitingTrigger => match ev {
                SessionEvent::Msg(InboundMsg::Trigger) => {
                    self.phase = SessionPhase::Sampling;
                    self.count = 0;
                    DiagnosticsAction::StartWindow
                },
                SessionEvent::StreamEnded => {
                    self.phase = SessionPhase::Failed;
                    DiagnosticsAction::Abort(SessionError::UnexpectedEof)
                },
                _ => DiagnosticsAction::Nothing,
            },
            SessionPhase::Sampling => match ev {
                SessionEvent::Msg(InboundMsg::Sample(p)) => {
                    let t = CalibrationSession::target(ProfileKind::Quadrant, self.idx);
                    let mapped = self.profile.map(&p);
                    let row = DiagnosticRow {
                        target_idx: self.idx,
                        target_px: Point {
                            x: scale_px(t.x, self.width),
                            y: scale_px(t.y, self.height),
                        },
                        raw: p,
                        mapped_px: Point {
                            x: scale_px(mapped.x, self.width),
                            y: scale_px(mapped.y, self.height),
                        },
                    };
                    if self.count < MAX_WINDOW_SAMPLES {
                        self.count = self.count + 1;
                    }
                    DiagnosticsAction::Record(row)
                },
                SessionEvent::WindowElapsed => {
                    if self.count == 0 {
                        self.phase = SessionPhase::Failed;
                        DiagnosticsAction::Abort(SessionError::NoData)
                    } else {
                        self.idx = self.idx + 1;
                        let n = CalibrationProfile::ref_point_count(ProfileKind::Quadrant);
                        if self.idx < n {
                            self.phase = SessionPhase::AwaitingTrigger;
                            let t = CalibrationSession::target(ProfileKind::Quadrant, self.idx);
                            DiagnosticsAction::Show(Command::CalibrationPoint { x: t.x, y: t.y })
                        } else {
                            self.phase = SessionPhase::Finished;
                            DiagnosticsAction::Finish
                        }
                    }
                },
                _ => DiagnosticsAction::Nothing,
            },
            SessionPhase::Finished => DiagnosticsAction::Nothing,
            SessionPhase::Failed => DiagnosticsAction::Nothing,
            SessionPhase::AwaitingReady => DiagnosticsAction::Nothing,
        }
    }
}

} // verus!
