//! The events of the second mission.

use vstd::prelude::*;
use crate::events::{log_event, EventKind, EventLog};
use crate::msgs::DetectedObject;
use crate::task2::drone_state::Qr;

verus! {

/// Raised when the vehicle reads a marker that it has not seen before.
#[derive(Clone, Debug, PartialEq, Eq)]
pub struct QrFound {
    pub qr: Qr,
    /// The index under which the marker is remembered.
    pub index: usize,
}

impl QrFound {
    /// Raises the event on `log`.
    pub fn new(log: &mut EventLog, qr: Qr, index: usize) -> (event: QrFound)
        ensures
            event.qr == qr,
            event.index == index,
            final(log).events@ == old(log).events@.push(EventKind::QrFound),
            final(log).is_ok == old(log).is_ok,
    {
        log_event(log, EventKind::QrFound);
        QrFound { qr, index }
    }
}

/// Raised when the vehicle finds an aperture.
#[derive(Clone, Copy, Debug, PartialEq, Eq, Structural)]
pub struct HoleFound {
    pub hole: DetectedObject,
}

impl HoleFound {
    /// Raises the event on `log`.
    pub fn new(log: &mut EventLog, hole: DetectedObject) -> (event: HoleFound)
        ensures
            event.hole == hole,
            final(log).events@ == old(log).events@.push(EventKind::HoleFound),
            final(log).is_ok == old(log).is_ok,
    {
        log_event(log, EventKind::HoleFound);
        HoleFound { hole }
    }
}

/// Raised when the vehicle is over the place to land on.
#[derive(Clone, Copy, Debug, PartialEq, Eq, Structural)]
pub struct FlewNearLandingPoint {}

impl FlewNearLandingPoint {
    /// Raises the event on `log`.
    pub fn new(log: &mut EventLog) -> (event: FlewNearLandingPoint)
        ensures
            final(log).events@ == old(log).events@.push(EventKind::FlewNearLandingPoint),
            final(log).is_ok == old(log).is_ok,
    {
        log_event(log, EventKind::FlewNearLandingPoint);
        FlewNearLandingPoint {  }
    }
}

/// Raised when the vehicle has flown through an aperture.
#[derive(Clone, Copy, Debug, PartialEq, Eq, Structural)]
pub struct FlewThroughHole {
    /// The index of the marker that led to the aperture.
    pub qr_index: usize,
}

impl FlewThroughHole {
    /// Raises the event on `log`.
    pub fn new(log: &mut EventLog, qr_index: usize) -> (event: FlewThroughHole)
        ensures
            event.qr_index == qr_index,
            final(log).events@ == old(log).events@.push(EventKind::FlewThroughHole),
            final(log).is_ok == old(log).is_ok,
    {
        log_event(log, EventKind::FlewThroughHole);
        FlewThroughHole { qr_index }
    }
}

} // verus!
