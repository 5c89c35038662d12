//! The events of the first mission.

use vstd::prelude::*;
use crate::events::{log_event, EventKind, EventLog};
use crate::msgs::DetectedObject;

verus! {

/// Raised once, when the vehicle finds the entry of the building: the first
/// aperture that perception reports.
#[derive(Clone, Copy, Debug, PartialEq, Eq, Structural)]
pub struct EntryFound {
    pub entry: DetectedObject,
}

impl EntryFound {
    /// Raises the event on `log`.
    pub fn new(log: &mut EventLog, entry: DetectedObject) -> (event: EntryFound)
        ensures
            event.entry == entry,
            final(log).events@ == old(log).events@.push(EventKind::EntryFound),
            final(log).is_ok == old(log).is_ok,
    {
        log_event(log, EventKind::EntryFound);
        EntryFound { entry }
    }
}

/// Raised when the vehicle has flown into the building.
#[derive(Clone, Copy, Debug, PartialEq, Eq, Structural)]
pub struct FlewInsideBuilding {}

impl FlewInsideBuilding {
    /// Raises the event on `log`.
    pub fn new(log: &mut EventLog) -> (event: FlewInsideBuilding)
        ensures
            final(log).events@ == old(log).events@.push(EventKind::FlewInsideBuilding),
            final(log).is_ok == old(log).is_ok,
    {
        log_event(log, EventKind::FlewInsideBuilding);
        FlewInsideBuilding {  }
    }
}

/// Raised when the vehicle is back where the mission started.
#[derive(Clone, Copy, Debug, PartialEq, Eq, Structural)]
pub struct FlewNearStartPoint {}

impl FlewNearStartPoint {
    /// Raises the event on `log`.
    pub fn new(log: &mut EventLog) -> (event: FlewNearStartPoint)
        ensures
            final(log).events@ == old(log).events@.push(EventKind::FlewNearStartPoint),
            final(log).is_ok == old(log).is_ok,
    {
        log_event(log, EventKind::FlewNearStartPoint);
        FlewNearStartPoint {  }
    }
}

/// Raised when the vehicle has found every cube.
#[derive(Clone, Copy, Debug, PartialEq, Eq, Structural)]
pub struct FoundAllCubes {}

impl FoundAllCubes {
    /// Raises the event on `log`.
    pub fn new(log: &mut EventLog) -> (event: FoundAllCubes)
        ensures
            final(log).events@ == old(log).events@.push(EventKind::FoundAllCubes),
            final(log).is_ok == old(log).is_ok,
    {
        log_event(log, EventKind::FoundAllCubes);
        FoundAllCubes {  }
    }
}

} // verus!
