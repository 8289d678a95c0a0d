//! Messages exchanged with the external gaze source. The unverified
//! shell serializes commands to its outbound stream one per line and
//! parses inbound lines into messages, dropping malformed lines.

use vstd::prelude::*;
use crate::units::Point;

verus! {

/// A command for the gaze source, written one per line to its inbound
/// channel.
#[derive(Clone, Copy, Debug, PartialEq, Eq, Structural)]
pub enum Command {
    /// Sent once at startup with the target display dimensions in
    /// pixels.
    Init { width: u32, height: u32 },
    /// Normalized screen position (micro-units) of the fixation marker
    /// the source should display.
    CalibrationPoint { x: i64, y: i64 },
    /// The calibration sequence is over.
    CalibrationEnd,
}

/// A parseable line of the inbound stream from the gaze source.
#[derive(Clone, Copy, Debug, PartialEq, Eq, Structural)]
pub enum InboundMsg {
    /// A raw gaze sample, in micro-units of raw gaze space.
    Sample(Point),
    /// The user confirmed fixation on the current target.
    Trigger,
}

} // verus!
